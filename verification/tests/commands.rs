use std::cell::RefCell;
use std::collections::VecDeque;

use aws_instance::cmdline::{
    build_image_filters, identity_options, OsNames, Output, SubCommands,
};
use aws_instance::commands::create::{create_instance, launch_request, CreateOptions};
use aws_instance::commands::destroy::{destroy_instance, rename_request};
use aws_instance::commands::list::{ansible_inventory, list, table};
use aws_instance::commands::list_amis::list_amis;
use aws_instance::commands::list_security_groups::{list_security_groups, security_group_table};
use aws_instance::commands::ssh::{exit_code, ssh, ssh_command, username_for};
use aws_instance::commands::start::start;
use aws_instance::commands::stop::stop;
use aws_instance::ec2_wrapper::{Ec2Wrapper, Session};
use aws_instance::error::{AwsInstanceError, AwsXmlError, ServiceFault};
use aws_instance::model::{
    CreateTagsRequest, DescribeImagesRequest, DescribeImagesResult, DescribeInstancesRequest,
    DescribeInstancesResult, DescribeSecurityGroupsRequest, DescribeSecurityGroupsResult, Filter,
    GroupIdentifier, IamInstanceProfileSpecification, Image, Instance, InstanceStateChange,
    IpPermission, IpRange, Reservation, RunInstancesRequest, SecurityGroup,
    StartInstancesRequest, StartInstancesResult, StopInstancesRequest, StopInstancesResult, Tag,
    TagSpecification, TerminateInstancesRequest, TerminateInstancesResult,
};
use aws_instance::profile::Profile;
use aws_instance::util::{
    all_instances, get_all_instances, get_instance_by_name, get_name, get_os_for_instance,
    get_state, name_request, print_state_changes, take_first_instance,
};

#[derive(Clone, Debug, PartialEq)]
enum Call {
    DescribeImages(DescribeImagesRequest),
    DescribeInstances(DescribeInstancesRequest),
    DescribeSecurityGroups(DescribeSecurityGroupsRequest),
    RunInstances(RunInstancesRequest),
    StartInstances(StartInstancesRequest),
    StopInstances(StopInstancesRequest),
    TerminateInstances(TerminateInstancesRequest),
    CreateTags(CreateTagsRequest),
}

#[derive(Default)]
struct Canned {
    calls: RefCell<Vec<Call>>,
    images: RefCell<VecDeque<Result<DescribeImagesResult, ServiceFault>>>,
    instances: RefCell<VecDeque<Result<DescribeInstancesResult, ServiceFault>>>,
    groups: RefCell<VecDeque<Result<DescribeSecurityGroupsResult, ServiceFault>>>,
    runs: RefCell<VecDeque<Result<Reservation, ServiceFault>>>,
    starts: RefCell<VecDeque<Result<StartInstancesResult, ServiceFault>>>,
    stops: RefCell<VecDeque<Result<StopInstancesResult, ServiceFault>>>,
    terminations: RefCell<VecDeque<Result<TerminateInstancesResult, ServiceFault>>>,
    taggings: RefCell<VecDeque<Result<(), ServiceFault>>>,
}

impl Ec2Wrapper for Canned {
    fn describe_images(
        &mut self,
        input: DescribeImagesRequest,
    ) -> Result<DescribeImagesResult, ServiceFault> {
        self.calls.borrow_mut().push(Call::DescribeImages(input));
        self.images.borrow_mut().pop_front().expect("no canned describe_images")
    }

    fn describe_instances(
        &mut self,
        input: DescribeInstancesRequest,
    ) -> Result<DescribeInstancesResult, ServiceFault> {
        self.calls.borrow_mut().push(Call::DescribeInstances(input));
        self.instances.borrow_mut().pop_front().expect("no canned describe_instances")
    }

    fn describe_security_groups(
        &mut self,
        input: DescribeSecurityGroupsRequest,
    ) -> Result<DescribeSecurityGroupsResult, ServiceFault> {
        self.calls.borrow_mut().push(Call::DescribeSecurityGroups(input));
        self.groups.borrow_mut().pop_front().expect("no canned describe_security_groups")
    }

    fn run_instances(&mut self, input: RunInstancesRequest) -> Result<Reservation, ServiceFault> {
        self.calls.borrow_mut().push(Call::RunInstances(input));
        self.runs.borrow_mut().pop_front().expect("no canned run_instances")
    }

    fn start_instances(
        &mut self,
        input: StartInstancesRequest,
    ) -> Result<StartInstancesResult, ServiceFault> {
        self.calls.borrow_mut().push(Call::StartInstances(input));
        self.starts.borrow_mut().pop_front().expect("no canned start_instances")
    }

    fn stop_instances(
        &mut self,
        input: StopInstancesRequest,
    ) -> Result<StopInstancesResult, ServiceFault> {
        self.calls.borrow_mut().push(Call::StopInstances(input));
        self.stops.borrow_mut().pop_front().expect("no canned stop_instances")
    }

    fn terminate_instances(
        &mut self,
        input: TerminateInstancesRequest,
    ) -> Result<TerminateInstancesResult, ServiceFault> {
        self.calls.borrow_mut().push(Call::TerminateInstances(input));
        self.terminations.borrow_mut().pop_front().expect("no canned terminate_instances")
    }

    fn create_tags(&mut self, input: CreateTagsRequest) -> Result<(), ServiceFault> {
        self.calls.borrow_mut().push(Call::CreateTags(input));
        self.taggings.borrow_mut().pop_front().expect("no canned create_tags")
    }
}

fn tag(key: &str, value: &str) -> Tag {
    Tag { key: Some(key.to_string()), value: Some(value.to_string()) }
}

fn instance(id: &str, tags: Vec<Tag>) -> Instance {
    Instance {
        instance_id: id.to_string(),
        image_id: "ami-1234".to_string(),
        state: Some("running".to_string()),
        tags: Some(tags),
        public_ip_address: Some("203.0.113.7".to_string()),
        public_dns_name: Some(format!("{}.example.com", id)),
        security_groups: Some(vec![GroupIdentifier {
            group_id: Some("sg-1".to_string()),
            group_name: Some("default".to_string()),
        }]),
    }
}

fn named(id: &str, name: &str) -> Instance {
    instance(id, vec![tag("Name", name)])
}

fn reservation(instances: Vec<Instance>) -> Reservation {
    Reservation { instances: Some(instances) }
}

fn found(reservations: Vec<Reservation>) -> Result<DescribeInstancesResult, ServiceFault> {
    Ok(DescribeInstancesResult { reservations: Some(reservations) })
}

fn by_name(name: &str) -> Call {
    Call::DescribeInstances(DescribeInstancesRequest {
        dry_run: None,
        filters: Some(vec![Filter {
            name: "tag:Name".to_string(),
            values: vec![name.to_string()],
        }]),
    })
}

fn change(id: &str, from: &str, to: &str) -> InstanceStateChange {
    InstanceStateChange {
        instance_id: id.to_string(),
        previous_state: from.to_string(),
        current_state: to.to_string(),
    }
}

fn calls_of(session: Session<Canned>) -> Vec<Call> {
    session.into_client().calls.into_inner()
}

#[test]
fn no_reservations_list_is_empty() {
    let canned = Canned::default();
    canned.instances.borrow_mut().push_back(found(vec![]));
    canned.instances.borrow_mut().push_back(Ok(DescribeInstancesResult { reservations: None }));
    let mut session = Session::new(canned);
    assert_eq!(get_all_instances(&mut session).unwrap(), vec![]);
    assert_eq!(get_all_instances(&mut session).unwrap(), vec![]);
    let calls = calls_of(session);
    assert_eq!(
        calls[0],
        Call::DescribeInstances(DescribeInstancesRequest { dry_run: Some(false), filters: None })
    );
    assert_eq!(calls.len(), 2);
}

#[test]
fn no_reservations_lookup_finds_nothing() {
    let canned = Canned::default();
    canned.instances.borrow_mut().push_back(found(vec![]));
    canned.instances.borrow_mut().push_back(Ok(DescribeInstancesResult { reservations: None }));
    let mut session = Session::new(canned);
    assert_eq!(get_instance_by_name(&mut session, "web").unwrap(), None);
    assert_eq!(get_instance_by_name(&mut session, "web").unwrap(), None);
    assert_eq!(calls_of(session), vec![by_name("web"), by_name("web")]);
}

#[test]
fn flattening_ignores_grouping() {
    let a = named("i-a", "a");
    let b = named("i-b", "b");
    let two_by_one = DescribeInstancesResult {
        reservations: Some(vec![reservation(vec![a.clone()]), reservation(vec![b.clone()])]),
    };
    let one_by_two =
        DescribeInstancesResult { reservations: Some(vec![reservation(vec![a.clone(), b.clone()])]) };
    let left = all_instances(two_by_one);
    let right = all_instances(one_by_two);
    assert_eq!(left.len(), 2);
    assert_eq!(left, right);
    assert_eq!(left, vec![a, b]);
}

#[test]
fn flattening_keeps_response_order_and_skips_empty_groups() {
    let a = named("i-a", "a");
    let b = named("i-b", "b");
    let c = named("i-c", "c");
    let result = DescribeInstancesResult {
        reservations: Some(vec![
            Reservation { instances: None },
            reservation(vec![c.clone(), a.clone()]),
            reservation(vec![]),
            reservation(vec![b.clone()]),
        ]),
    };
    assert_eq!(all_instances(result.clone()), vec![c.clone(), a, b]);
    assert_eq!(take_first_instance(result), Some(c));
}

#[test]
fn lookup_takes_first_of_two_matches() {
    let first = named("i-first", "web");
    let second = named("i-second", "web");
    let canned = Canned::default();
    canned
        .instances
        .borrow_mut()
        .push_back(found(vec![reservation(vec![first.clone(), second.clone()])]));
    canned
        .instances
        .borrow_mut()
        .push_back(found(vec![reservation(vec![second.clone()]), reservation(vec![first.clone()])]));
    let mut session = Session::new(canned);
    assert_eq!(get_instance_by_name(&mut session, "web").unwrap(), Some(first));
    assert_eq!(get_instance_by_name(&mut session, "web").unwrap(), Some(second));
}

#[test]
fn lookup_asks_for_the_name_tag() {
    assert_eq!(
        name_request("db"),
        DescribeInstancesRequest {
            dry_run: None,
            filters: Some(vec![Filter {
                name: "tag:Name".to_string(),
                values: vec!["db".to_string()],
            }]),
        }
    );
}

#[test]
fn lookup_passes_a_fault_on() {
    let canned = Canned::default();
    canned.instances.borrow_mut().push_back(Err(ServiceFault::Validation("bad".to_string())));
    let mut session = Session::new(canned);
    match get_instance_by_name(&mut session, "web") {
        Err(AwsInstanceError::Validation { message }) => assert_eq!(message, "bad"),
        other => panic!("unexpected: {:?}", other),
    }
}

#[test]
fn name_is_the_first_name_tag() {
    let both = instance("i-1", vec![tag("OS", "Ubuntu"), tag("Name", "web"), tag("Name", "other")]);
    assert_eq!(get_name(&both), "web");
    let empty = instance("i-1", vec![Tag { key: Some("Name".to_string()), value: None }]);
    assert_eq!(get_name(&empty), "");
    let none = instance("i-1", vec![]);
    assert_eq!(get_name(&none), "");
    let mut no_tags = instance("i-1", vec![]);
    no_tags.tags = None;
    assert_eq!(get_name(&no_tags), "");
}

#[test]
fn state_is_the_state_name_or_nothing() {
    let mut i = named("i-1", "web");
    assert_eq!(get_state(&i), "running");
    i.state = None;
    assert_eq!(get_state(&i), "");
}

#[test]
fn os_is_read_from_the_tag_without_regard_to_case() {
    assert_eq!(
        get_os_for_instance(&instance("i", vec![tag("OS", "Ubuntu")])),
        Some(OsNames::Ubuntu)
    );
    assert_eq!(
        get_os_for_instance(&instance("i", vec![tag("OS", "AMAZONLINUX")])),
        Some(OsNames::AmazonLinux)
    );
    assert_eq!(get_os_for_instance(&instance("i", vec![tag("OS", "Plan9")])), None);
    assert_eq!(get_os_for_instance(&instance("i", vec![tag("Name", "Ubuntu")])), None);
    assert_eq!(
        get_os_for_instance(&instance("i", vec![Tag { key: Some("OS".to_string()), value: None }])),
        None
    );
}

#[test]
fn state_changes_are_printed_one_per_line() {
    let lines = print_state_changes(&vec![
        change("i-1", "stopped", "pending"),
        change("i-2", "running", "running"),
    ]);
    assert_eq!(lines, vec!["i-1: stopped => pending", "i-2: running => running"]);
    assert_eq!(print_state_changes(&vec![]), Vec::<String>::new());
}

fn options(name: &str) -> CreateOptions {
    CreateOptions {
        name: name.to_string(),
        ami_id: "ami-42".to_string(),
        ebs_optimized: true,
        iam_profile: Some("role".to_string()),
        instance_type: Some("t3.micro".to_string()),
        keypair_name: Some("mykey".to_string()),
        security_group_ids: vec!["sg-1".to_string(), "sg-2".to_string()],
        os_name: Some(OsNames::Debian),
    }
}

#[test]
fn create_on_existing_name_fails_without_launching() {
    for state in ["running", "stopped", "terminated", "pending"] {
        let mut existing = named("i-1", "web");
        existing.state = Some(state.to_string());
        let canned = Canned::default();
        canned.instances.borrow_mut().push_back(found(vec![reservation(vec![existing])]));
        let mut session = Session::new(canned);
        match create_instance(&mut session, options("web")) {
            Err(AwsInstanceError::CreateInstanceError { instance_name, message }) => {
                assert_eq!(instance_name, "web");
                assert_eq!(message, "Instance with that name already exists");
            }
            other => panic!("unexpected: {:?}", other),
        }
        let calls = calls_of(session);
        assert_eq!(calls, vec![by_name("web")]);
        assert!(!calls.iter().any(|c| matches!(c, Call::RunInstances(_))));
    }
}

#[test]
fn create_launches_exactly_one_tagged_instance() {
    let launched = reservation(vec![named("i-new", "web")]);
    let canned = Canned::default();
    canned.instances.borrow_mut().push_back(found(vec![]));
    canned.runs.borrow_mut().push_back(Ok(launched.clone()));
    let mut session = Session::new(canned);
    assert_eq!(create_instance(&mut session, options("web")).unwrap(), launched);
    let expected = RunInstancesRequest {
        min_count: 1,
        max_count: 1,
        image_id: Some("ami-42".to_string()),
        ebs_optimized: Some(true),
        iam_instance_profile: Some(IamInstanceProfileSpecification {
            name: Some("role".to_string()),
        }),
        instance_type: Some("t3.micro".to_string()),
        key_name: Some("mykey".to_string()),
        security_group_ids: Some(vec!["sg-1".to_string(), "sg-2".to_string()]),
        tag_specifications: Some(vec![TagSpecification {
            resource_type: Some("instance".to_string()),
            tags: Some(vec![tag("Name", "web"), tag("OS", "Debian")]),
        }]),
    };
    assert_eq!(calls_of(session), vec![by_name("web"), Call::RunInstances(expected)]);
}

#[test]
fn create_without_os_sets_the_name_tag_only() {
    let mut o = options("plain");
    o.os_name = None;
    o.iam_profile = None;
    o.security_group_ids = vec![];
    let request = launch_request(o);
    assert_eq!(
        request.tag_specifications,
        Some(vec![TagSpecification {
            resource_type: Some("instance".to_string()),
            tags: Some(vec![tag("Name", "plain")]),
        }])
    );
    assert_eq!(request.iam_instance_profile, Some(IamInstanceProfileSpecification { name: None }));
    assert_eq!(request.security_group_ids, Some(vec![]));
    assert_eq!((request.min_count, request.max_count), (1, 1));
}

#[test]
fn create_passes_a_launch_fault_on() {
    let canned = Canned::default();
    canned.instances.borrow_mut().push_back(found(vec![]));
    canned.runs.borrow_mut().push_back(Err(ServiceFault::Service("quota".to_string())));
    let mut session = Session::new(canned);
    match create_instance(&mut session, options("web")) {
        Err(AwsInstanceError::Service { message }) => assert_eq!(message, "quota"),
        other => panic!("unexpected: {:?}", other),
    }
}

fn rename(id: &str, name: &str) -> Call {
    Call::CreateTags(CreateTagsRequest {
        resources: vec![id.to_string()],
        tags: vec![tag("Name", &format!("{}-terminated", name))],
    })
}

fn terminate(id: &str) -> Call {
    Call::TerminateInstances(TerminateInstancesRequest { instance_ids: vec![id.to_string()] })
}

#[test]
fn destroy_renames_then_terminates() {
    let canned = Canned::default();
    canned.instances.borrow_mut().push_back(found(vec![reservation(vec![named("i-9", "web")])]));
    canned.taggings.borrow_mut().push_back(Ok(()));
    canned.terminations.borrow_mut().push_back(Ok(TerminateInstancesResult {
        terminating_instances: Some(vec![change("i-9", "running", "shutting-down")]),
    }));
    let mut session = Session::new(canned);
    let lines = destroy_instance(&mut session, "web").unwrap();
    assert_eq!(lines, vec!["i-9: running => shutting-down"]);
    assert_eq!(calls_of(session), vec![by_name("web"), rename("i-9", "web"), terminate("i-9")]);
}

#[test]
fn destroy_without_state_change_fails_after_the_rename() {
    let canned = Canned::default();
    canned.instances.borrow_mut().push_back(found(vec![reservation(vec![named("i-9", "web")])]));
    canned.taggings.borrow_mut().push_back(Ok(()));
    canned
        .terminations
        .borrow_mut()
        .push_back(Ok(TerminateInstancesResult { terminating_instances: None }));
    let mut session = Session::new(canned);
    match destroy_instance(&mut session, "web") {
        Err(AwsInstanceError::DestroyInstanceError { instance_name, message }) => {
            assert_eq!(instance_name, "web");
            assert_eq!(message, "No state change returned");
        }
        other => panic!("unexpected: {:?}", other),
    }
    assert_eq!(calls_of(session), vec![by_name("web"), rename("i-9", "web"), terminate("i-9")]);
}

#[test]
fn destroy_of_unknown_name_makes_one_call() {
    let canned = Canned::default();
    canned.instances.borrow_mut().push_back(found(vec![]));
    let mut session = Session::new(canned);
    match destroy_instance(&mut session, "ghost") {
        Err(AwsInstanceError::DestroyInstanceError { instance_name, message }) => {
            assert_eq!(instance_name, "ghost");
            assert_eq!(message, "Instance not found");
        }
        other => panic!("unexpected: {:?}", other),
    }
    assert_eq!(calls_of(session), vec![by_name("ghost")]);
}

#[test]
fn destroy_stops_when_the_rename_fails() {
    let canned = Canned::default();
    canned.instances.borrow_mut().push_back(found(vec![reservation(vec![named("i-9", "web")])]));
    canned.taggings.borrow_mut().push_back(Err(ServiceFault::Blocking));
    let mut session = Session::new(canned);
    assert!(matches!(destroy_instance(&mut session, "web"), Err(AwsInstanceError::Blocking)));
    assert_eq!(calls_of(session), vec![by_name("web"), rename("i-9", "web")]);
}

#[test]
fn rename_request_appends_terminated() {
    assert_eq!(
        rename_request("i-1", "db"),
        CreateTagsRequest {
            resources: vec!["i-1".to_string()],
            tags: vec![tag("Name", "db-terminated")],
        }
    );
}

#[test]
fn start_reports_state_changes() {
    let canned = Canned::default();
    canned.instances.borrow_mut().push_back(found(vec![reservation(vec![named("i-3", "web")])]));
    canned.starts.borrow_mut().push_back(Ok(StartInstancesResult {
        starting_instances: Some(vec![change("i-3", "stopped", "pending")]),
    }));
    let mut session = Session::new(canned);
    assert_eq!(start(&mut session, "web").unwrap(), vec!["i-3: stopped => pending"]);
    assert_eq!(
        calls_of(session),
        vec![
            by_name("web"),
            Call::StartInstances(StartInstancesRequest { instance_ids: vec!["i-3".to_string()] }),
        ]
    );
}

#[test]
fn start_fails_on_unknown_name_and_on_no_state_change() {
    let canned = Canned::default();
    canned.instances.borrow_mut().push_back(found(vec![]));
    canned.instances.borrow_mut().push_back(found(vec![reservation(vec![named("i-3", "web")])]));
    canned.starts.borrow_mut().push_back(Ok(StartInstancesResult { starting_instances: None }));
    let mut session = Session::new(canned);
    match start(&mut session, "web") {
        Err(AwsInstanceError::StartInstanceError { instance_name, message }) => {
            assert_eq!((instance_name.as_str(), message.as_str()), ("web", "Instance not found"));
        }
        other => panic!("unexpected: {:?}", other),
    }
    match start(&mut session, "web") {
        Err(AwsInstanceError::StartInstanceError { instance_name, message }) => {
            assert_eq!(
                (instance_name.as_str(), message.as_str()),
                ("web", "No state change returned")
            );
        }
        other => panic!("unexpected: {:?}", other),
    }
}

#[test]
fn stop_reports_state_changes() {
    let canned = Canned::default();
    canned.instances.borrow_mut().push_back(found(vec![reservation(vec![named("i-3", "web")])]));
    canned.stops.borrow_mut().push_back(Ok(StopInstancesResult {
        stopping_instances: Some(vec![change("i-3", "running", "stopping")]),
    }));
    let mut session = Session::new(canned);
    assert_eq!(stop(&mut session, "web").unwrap(), vec!["i-3: running => stopping"]);
    assert_eq!(
        calls_of(session),
        vec![
            by_name("web"),
            Call::StopInstances(StopInstancesRequest { instance_ids: vec!["i-3".to_string()] }),
        ]
    );
}

#[test]
fn stop_fails_on_unknown_name_and_on_no_state_change() {
    let canned = Canned::default();
    canned.instances.borrow_mut().push_back(found(vec![]));
    canned.instances.borrow_mut().push_back(found(vec![reservation(vec![named("i-3", "web")])]));
    canned.stops.borrow_mut().push_back(Ok(StopInstancesResult { stopping_instances: None }));
    let mut session = Session::new(canned);
    match stop(&mut session, "web") {
        Err(AwsInstanceError::StopInstanceError { instance_name, message }) => {
            assert_eq!((instance_name.as_str(), message.as_str()), ("web", "Instance not found"));
        }
        other => panic!("unexpected: {:?}", other),
    }
    match stop(&mut session, "web") {
        Err(AwsInstanceError::StopInstanceError { instance_name, message }) => {
            assert_eq!(
                (instance_name.as_str(), message.as_str()),
                ("web", "No state change returned")
            );
        }
        other => panic!("unexpected: {:?}", other),
    }
}

#[test]
fn ssh_infers_ubuntu_from_the_os_tag() {
    let i = instance("i-1", vec![tag("Name", "web"), tag("OS", "Ubuntu")]);
    let command = ssh_command(&i, "203.0.113.7", &None, &vec!["-v".to_string()]);
    assert_eq!(command.program, "ssh");
    assert_eq!(command.args, vec!["203.0.113.7", "-l", "ubuntu", "-v"]);
    assert_eq!(
        command.notice,
        Some("Attempting to log in using username 'ubuntu'".to_string())
    );
}

#[test]
fn ssh_falls_back_to_ec2_user() {
    let rhel = instance("i-1", vec![tag("Name", "web"), tag("OS", "RHEL")]);
    assert_eq!(ssh_command(&rhel, "h", &None, &vec![]).args, vec!["h", "-l", "ec2-user"]);
    let untagged = instance("i-1", vec![tag("Name", "web")]);
    let command = ssh_command(&untagged, "h", &None, &vec![]);
    assert_eq!(command.args, vec!["h", "-l", "ec2-user"]);
    assert_eq!(
        command.notice,
        Some("Attempting to log in using username 'ec2-user'".to_string())
    );
}

#[test]
fn ssh_username_table() {
    assert_eq!(username_for(Some(OsNames::CentOS)), "centos");
    assert_eq!(username_for(Some(OsNames::Debian)), "admin");
    assert_eq!(username_for(Some(OsNames::Fedora)), "fedora");
    assert_eq!(username_for(Some(OsNames::Ubuntu)), "ubuntu");
    assert_eq!(username_for(Some(OsNames::AmazonLinux)), "ec2-user");
    assert_eq!(username_for(Some(OsNames::RHEL)), "ec2-user");
    assert_eq!(username_for(Some(OsNames::Suse)), "ec2-user");
    assert_eq!(username_for(None), "ec2-user");
}

#[test]
fn ssh_uses_the_given_username_without_notice() {
    let i = instance("i-1", vec![tag("OS", "Ubuntu")]);
    let command = ssh_command(&i, "h", &Some("root".to_string()), &vec![]);
    assert_eq!(command.args, vec!["h", "-l", "root"]);
    assert_eq!(command.notice, None);
}

#[test]
fn ssh_errors_for_unknown_name_and_missing_address() {
    let mut hidden = named("i-1", "web");
    hidden.public_ip_address = None;
    let canned = Canned::default();
    canned.instances.borrow_mut().push_back(found(vec![]));
    canned.instances.borrow_mut().push_back(found(vec![reservation(vec![hidden])]));
    let mut session = Session::new(canned);
    match ssh(&mut session, "web", &None, &vec![]) {
        Err(AwsInstanceError::InstanceNotFoundError { instance_name }) => {
            assert_eq!(instance_name, "web")
        }
        other => panic!("unexpected: {:?}", other),
    }
    match ssh(&mut session, "web", &None, &vec![]) {
        Err(e @ AwsInstanceError::IPAddressNotFoundError { .. }) => {
            assert_eq!(e.message(), "Public IP address not found for web - is it stopped?")
        }
        other => panic!("unexpected: {:?}", other),
    }
    assert_eq!(calls_of(session), vec![by_name("web"), by_name("web")]);
}

#[test]
fn ssh_reaches_the_instance_found() {
    let canned = Canned::default();
    canned.instances.borrow_mut().push_back(found(vec![reservation(vec![instance(
        "i-1",
        vec![tag("Name", "web"), tag("OS", "centos")],
    )])]));
    let mut session = Session::new(canned);
    let command = ssh(&mut session, "web", &None, &vec!["-A".to_string()]).unwrap();
    assert_eq!(command.args, vec!["203.0.113.7", "-l", "centos", "-A"]);
}

#[test]
fn ssh_exit_code_mirrors_the_child() {
    assert_eq!(exit_code(Some(0)), 0);
    assert_eq!(exit_code(Some(255)), 255);
    assert_eq!(exit_code(None), 1);
}

#[test]
fn identity_is_not_added_twice() {
    let given = vec!["-v".to_string(), "-i".to_string(), "/my/key".to_string()];
    assert_eq!(identity_options(&given, &Some("/profile/key".to_string())), given);
}

#[test]
fn identity_is_added_before_the_options() {
    let given = vec!["-v".to_string()];
    assert_eq!(
        identity_options(&given, &Some("/profile/key".to_string())),
        vec!["-i", "/profile/key", "-v"]
    );
    assert_eq!(identity_options(&given, &None), vec!["-v"]);
    assert_eq!(identity_options(&vec![], &Some("k".to_string())), vec!["-i", "k"]);
    let remote = vec!["--".to_string(), "ls".to_string(), "-l".to_string()];
    assert_eq!(
        identity_options(&remote, &Some("/k".to_string())),
        vec!["-i", "/k", "--", "ls", "-l"]
    );
}

fn profile() -> Profile {
    Profile {
        region: None,
        keypair: Some("profile-key".to_string()),
        ssh_key: Some("/profile/id".to_string()),
        default_instance_type: Some("t2.nano".to_string()),
        security_groups: Some(vec!["sg-p".to_string()]),
    }
}

fn create_command() -> SubCommands {
    SubCommands::Create {
        name: "web".to_string(),
        ami_id: "ami-1".to_string(),
        ebs_optimized: false,
        iam_profile: None,
        instance_type: None,
        keypair_name: None,
        security_group_ids: vec![],
        os_name: None,
    }
}

#[test]
fn create_fills_defaults_from_the_profile() {
    let filled = create_command().create_options(&profile());
    assert_eq!(filled.instance_type, Some("t2.nano".to_string()));
    assert_eq!(filled.keypair_name, Some("profile-key".to_string()));
    assert_eq!(filled.security_group_ids, vec!["sg-p"]);
    assert_eq!(filled.name, "web");
    assert_eq!(filled.ami_id, "ami-1");
}

#[test]
fn create_prefers_the_command_line() {
    let command = SubCommands::Create {
        name: "web".to_string(),
        ami_id: "ami-1".to_string(),
        ebs_optimized: true,
        iam_profile: Some("role".to_string()),
        instance_type: Some("m5.large".to_string()),
        keypair_name: Some("cli-key".to_string()),
        security_group_ids: vec!["sg-c".to_string()],
        os_name: Some(OsNames::Suse),
    };
    let filled = command.create_options(&profile());
    assert_eq!(filled.instance_type, Some("m5.large".to_string()));
    assert_eq!(filled.keypair_name, Some("cli-key".to_string()));
    assert_eq!(filled.security_group_ids, vec!["sg-c"]);
    assert_eq!(filled.iam_profile, Some("role".to_string()));
    assert_eq!(filled.os_name, Some(OsNames::Suse));
    assert!(filled.ebs_optimized);
}

#[test]
fn create_falls_back_to_the_built_in_type() {
    let filled = create_command().create_options(&Profile::default());
    assert_eq!(filled.instance_type, Some("m1.small".to_string()));
    assert_eq!(filled.keypair_name, None);
    assert_eq!(filled.security_group_ids, Vec::<String>::new());
}

#[test]
fn image_filters_are_built_from_the_arguments() {
    assert_eq!(
        build_image_filters(&None, "x86_64", &None),
        vec![("architecture".to_string(), vec!["x86_64".to_string()])]
    );
    assert_eq!(
        build_image_filters(&Some("ubuntu*".to_string()), "x86_64,arm64", &Some("a,b".to_string())),
        vec![
            ("name".to_string(), vec!["ubuntu*".to_string()]),
            ("architecture".to_string(), vec!["x86_64".to_string(), "arm64".to_string()]),
            ("image-id".to_string(), vec!["a".to_string(), "b".to_string()]),
        ]
    );
}

#[test]
fn run_dispatches_to_the_handlers() {
    let canned = Canned::default();
    canned.instances.borrow_mut().push_back(found(vec![reservation(vec![named("i-3", "web")])]));
    canned.starts.borrow_mut().push_back(Ok(StartInstancesResult {
        starting_instances: Some(vec![change("i-3", "stopped", "pending")]),
    }));
    canned.instances.borrow_mut().push_back(found(vec![reservation(vec![named("i-3", "web")])]));
    let mut session = Session::new(canned);
    match (SubCommands::Start { name: "web".to_string() }).run(&mut session, profile()) {
        Ok(Output::Lines(lines)) => assert_eq!(lines, vec!["i-3: stopped => pending"]),
        other => panic!("unexpected: {:?}", other),
    }
    let command = SubCommands::Ssh {
        name: "web".to_string(),
        username: Some("me".to_string()),
        key: None,
        sshopts: vec!["-v".to_string()],
    };
    match command.run(&mut session, profile()) {
        Ok(Output::Ssh(reached)) => {
            assert_eq!(reached.args, vec!["203.0.113.7", "-l", "me", "-i", "/profile/id", "-v"])
        }
        other => panic!("unexpected: {:?}", other),
    }
}

#[test]
fn run_creates_with_profile_defaults() {
    let launched = reservation(vec![named("i-new", "web")]);
    let canned = Canned::default();
    canned.instances.borrow_mut().push_back(found(vec![]));
    canned.runs.borrow_mut().push_back(Ok(launched.clone()));
    let mut session = Session::new(canned);
    match create_command().run(&mut session, profile()) {
        Ok(Output::Created(r)) => assert_eq!(r, launched),
        other => panic!("unexpected: {:?}", other),
    }
    match &calls_of(session)[1] {
        Call::RunInstances(request) => {
            assert_eq!(request.instance_type, Some("t2.nano".to_string()));
            assert_eq!(request.key_name, Some("profile-key".to_string()));
            assert_eq!(request.security_group_ids, Some(vec!["sg-p".to_string()]));
        }
        other => panic!("unexpected: {:?}", other),
    }
}

#[test]
fn instance_table_has_heading_and_rows() {
    let mut bare = instance("i-2", vec![]);
    bare.public_ip_address = None;
    bare.security_groups = None;
    bare.state = None;
    let full = instance("i-1", vec![tag("Name", "web"), tag("OS", "Ubuntu")]);
    let lines = table(&vec![full, bare]);
    assert_eq!(
        lines,
        vec![
            format!(
                "{0: <15} {1: <25} {2: <15} {3: <25} {4: <15} {5: <15} {6: <15}",
                "Name", "Instance ID", "State", "AMI ID", "OS", "Public IP", "Security Groups"
            ),
            format!(
                "{0: <15} {1: <25} {2: <15} {3: <25} {4: <15} {5: <15} {6: <15}",
                "web", "i-1", "running", "ami-1234", "Ubuntu", "203.0.113.7", "default"
            ),
            format!(
                "{0: <15} {1: <25} {2: <15} {3: <25} {4: <15} {5: <15} {6: <15}",
                "", "i-2", "", "ami-1234", "N/A", "N/A", "None"
            ),
        ]
    );
    assert_eq!(
        lines[1],
        "web             i-1                       running         ami-1234                  Ubuntu          203.0.113.7     default        "
    );
}

#[test]
fn instance_table_joins_group_names() {
    let mut i = named("i-1", "web");
    i.security_groups = Some(vec![
        GroupIdentifier { group_id: None, group_name: Some("a".to_string()) },
        GroupIdentifier { group_id: Some("sg".to_string()), group_name: None },
        GroupIdentifier { group_id: None, group_name: Some("c".to_string()) },
    ]);
    let lines = table(&vec![i]);
    assert!(lines[1].ends_with(&format!(" {: <15}", "a, N/A, c")));
    assert!(lines[1].ends_with(" 203.0.113.7     a, N/A, c      "));
}

#[test]
fn ansible_inventory_maps_names_to_hosts() {
    let mut silent = named("i-3", "quiet");
    silent.public_dns_name = Some(String::new());
    let mut hidden = named("i-4", "hidden");
    hidden.public_dns_name = None;
    let text =
        ansible_inventory(&vec![named("i-2", "web"), named("i-1", "db"), silent, hidden]).unwrap();
    assert_eq!(
        text,
        r#"{"db":{"hosts":["i-1.example.com"]},"web":{"hosts":["i-2.example.com"]}}"#
    );
    assert_eq!(ansible_inventory(&vec![]).unwrap(), "{}");
}

#[test]
fn ansible_inventory_later_name_replaces_earlier() {
    let text = ansible_inventory(&vec![named("i-1", "web"), named("i-2", "web")]).unwrap();
    assert_eq!(text, r#"{"web":{"hosts":["i-2.example.com"]}}"#);
}

#[test]
fn list_prints_table_or_inventory() {
    let canned = Canned::default();
    canned.instances.borrow_mut().push_back(found(vec![reservation(vec![named("i-1", "web")])]));
    canned.instances.borrow_mut().push_back(found(vec![reservation(vec![named("i-1", "web")])]));
    let mut session = Session::new(canned);
    let plain = list(&mut session, false).unwrap();
    assert_eq!(plain.len(), 2);
    assert!(plain[0].starts_with("Name            Instance ID"));
    let inventory = list(&mut session, true).unwrap();
    assert_eq!(inventory, vec![r#"{"web":{"hosts":["i-1.example.com"]}}"#]);
    assert_eq!(calls_of(session).len(), 2);
}

fn image(id: &str, name: Option<&str>, date: Option<&str>) -> Image {
    Image {
        image_id: Some(id.to_string()),
        state: Some("available".to_string()),
        creation_date: date.map(|d| d.to_string()),
        name: name.map(|n| n.to_string()),
        description: Some(format!("image {}", id)),
    }
}

fn listed_ids(lines: &[String]) -> Vec<String> {
    lines[1..].iter().map(|l| l.split(' ').next().unwrap().to_string()).collect()
}

#[test]
fn amis_are_listed_newest_first_with_missing_dates_last() {
    let canned = Canned::default();
    canned.images.borrow_mut().push_back(Ok(DescribeImagesResult {
        images: Some(vec![
            image("ami-t1", Some("one"), Some("2020-01-01T00:00:00.000Z")),
            image("ami-t3", Some("three"), None),
            image("ami-t2", Some("two"), Some("2021-06-01T12:30:00.000Z")),
        ]),
    }));
    let mut session = Session::new(canned);
    let lines = list_amis(&mut session, &vec![], None).unwrap();
    assert_eq!(listed_ids(&lines), vec!["ami-t2", "ami-t1", "ami-t3"]);
    assert_eq!(
        lines[0],
        format!(
            "{0: <15} {1: <15} {2: <25} {3: <50.48} {4: <50.48}",
            "AMI ID", "State", "Creation Date", "Name", "Description"
        )
    );
    assert_eq!(
        lines[1],
        format!(
            "{0: <15} {1: <15} {2: <25} {3: <50.48} {4: <50.48}",
            "ami-t2", "available", "2021-06-01T12:30:00.000Z", "two", "image ami-t2"
        )
    );
    assert_eq!(
        lines[3],
        format!(
            "{0: <15} {1: <15} {2: <25} {3: <50.48} {4: <50.48}",
            "ami-t3", "available", "", "three", "image ami-t3"
        )
    );
    assert_eq!(calls_of(session), vec![Call::DescribeImages(DescribeImagesRequest { filters: None })]);
}

#[test]
fn amis_of_one_date_keep_their_order() {
    let canned = Canned::default();
    canned.images.borrow_mut().push_back(Ok(DescribeImagesResult {
        images: Some(vec![
            image("ami-a", None, Some("2020-01-01T00:00:00Z")),
            image("ami-b", None, None),
            image("ami-c", None, Some("2020-01-01T00:00:00Z")),
            image("ami-d", None, None),
            image("ami-e", None, Some("2020-01-01T00:00:00.001Z")),
        ]),
    }));
    let mut session = Session::new(canned);
    let lines = list_amis(&mut session, &vec![], None).unwrap();
    assert_eq!(listed_ids(&lines), vec!["ami-e", "ami-a", "ami-c", "ami-b", "ami-d"]);
}

#[test]
fn ami_dates_are_written_in_utc_with_milliseconds() {
    let canned = Canned::default();
    canned.images.borrow_mut().push_back(Ok(DescribeImagesResult {
        images: Some(vec![image("ami-a", None, Some("2020-01-02 03:04:05.678901+01:00"))]),
    }));
    let mut session = Session::new(canned);
    let lines = list_amis(&mut session, &vec![], None).unwrap();
    assert!(lines[1].contains(" 2020-01-02T02:04:05.678Z  "));
}

#[test]
fn ami_with_unreadable_date_aborts_the_listing() {
    let canned = Canned::default();
    canned.images.borrow_mut().push_back(Ok(DescribeImagesResult {
        images: Some(vec![
            image("ami-a", None, Some("2020-01-01T00:00:00Z")),
            image("ami-b", None, Some("yesterday")),
        ]),
    }));
    let mut session = Session::new(canned);
    match list_amis(&mut session, &vec![], None) {
        Err(e @ AwsInstanceError::DateParseError { .. }) => {
            assert!(e.message().starts_with("Error parsing date: "))
        }
        other => panic!("unexpected: {:?}", other),
    }
}

#[test]
fn ami_search_keeps_matching_names_only() {
    let canned = Canned::default();
    canned.images.borrow_mut().push_back(Ok(DescribeImagesResult {
        images: Some(vec![
            image("ami-a", Some("ubuntu-20.04"), None),
            image("ami-b", Some("debian-11"), Some("not a date")),
            image("ami-c", None, None),
            image("ami-d", Some("my-ubuntu-22.04"), None),
            image("ami-e", Some("ubuntu-x"), None),
        ]),
    }));
    let mut session = Session::new(canned);
    let lines =
        list_amis(&mut session, &vec![], Some(r"ubuntu-\d+\.\d+$".to_string())).unwrap();
    assert_eq!(listed_ids(&lines), vec!["ami-a", "ami-d"]);
}

#[test]
fn ami_search_with_bad_pattern_makes_no_call() {
    let mut session = Session::new(Canned::default());
    match list_amis(&mut session, &vec![], Some("(".to_string())) {
        Err(e @ AwsInstanceError::RegexParseError { .. }) => {
            assert!(e.message().starts_with("Error parsing search string: "))
        }
        other => panic!("unexpected: {:?}", other),
    }
    assert_eq!(calls_of(session), vec![]);
}

#[test]
fn ami_listing_without_images_says_so() {
    let canned = Canned::default();
    canned.images.borrow_mut().push_back(Ok(DescribeImagesResult { images: None }));
    let mut session = Session::new(canned);
    let filters = vec![("architecture".to_string(), vec!["x86_64".to_string()])];
    assert_eq!(list_amis(&mut session, &filters, None).unwrap(), vec!["No images found"]);
    assert_eq!(
        calls_of(session),
        vec![Call::DescribeImages(DescribeImagesRequest {
            filters: Some(vec![Filter {
                name: "architecture".to_string(),
                values: vec!["x86_64".to_string()],
            }]),
        })]
    );
}

#[test]
fn ami_name_and_description_are_cut_to_48_characters() {
    let long: String = "0123456789".repeat(6);
    let canned = Canned::default();
    canned.images.borrow_mut().push_back(Ok(DescribeImagesResult {
        images: Some(vec![Image {
            image_id: None,
            state: None,
            creation_date: None,
            name: Some(long.clone()),
            description: Some(long.clone()),
        }]),
    }));
    let mut session = Session::new(canned);
    let lines = list_amis(&mut session, &vec![], None).unwrap();
    let cut = &long[..48];
    assert_eq!(lines[1], format!("{:15} {:15} {:25} {}   {}  ", "", "", "", cut, cut));
}

fn group(name: &str) -> SecurityGroup {
    SecurityGroup {
        group_name: Some(name.to_string()),
        group_id: Some(format!("sg-{}", name)),
        description: None,
        ip_permissions: Some(vec![
            IpPermission {
                from_port: Some(22),
                to_port: Some(22),
                ip_ranges: Some(vec![
                    IpRange { cidr_ip: Some("10.0.0.0/8".to_string()) },
                    IpRange { cidr_ip: None },
                ]),
            },
            IpPermission { from_port: Some(8000), to_port: Some(8080), ip_ranges: None },
            IpPermission { from_port: None, to_port: None, ip_ranges: Some(vec![]) },
            IpPermission { from_port: Some(-1), to_port: None, ip_ranges: Some(vec![]) },
        ]),
        ip_permissions_egress: None,
    }
}

#[test]
fn security_groups_are_listed_without_rules() {
    let response = DescribeSecurityGroupsResult { security_groups: Some(vec![group("web")]) };
    assert_eq!(
        security_group_table(&response, false),
        vec![
            format!("{0: <10} {1: <25} {2: <35}", "Name", "Group ID", "Description"),
            format!("{0: <10} {1: <25} {2: <35}", "web", "sg-web", "N/A"),
        ]
    );
    let none = DescribeSecurityGroupsResult { security_groups: None };
    assert_eq!(security_group_table(&none, true).len(), 1);
}

#[test]
fn security_group_rules_show_ports_and_ranges() {
    let response = DescribeSecurityGroupsResult { security_groups: Some(vec![group("web")]) };
    assert_eq!(
        security_group_table(&response, true),
        vec![
            format!("{0: <10} {1: <25} {2: <35}", "Name", "Group ID", "Description"),
            format!("{0: <10} {1: <25} {2: <35}", "web", "sg-web", "N/A"),
            "  ingress:".to_string(),
            format!("    {0: <10} {1: <15}", "22", "10.0.0.0/8, N/A"),
            format!("    {0: <10} {1: <15}", "8000:8080", "N/A"),
            format!("    {0: <10} {1: <15}", "N/A", ""),
            format!("    {0: <10} {1: <15}", "-1:N/A", ""),
            "  egress:".to_string(),
        ]
    );
}

#[test]
fn security_groups_are_asked_for_by_name() {
    let canned = Canned::default();
    canned
        .groups
        .borrow_mut()
        .push_back(Ok(DescribeSecurityGroupsResult { security_groups: Some(vec![group("web")]) }));
    canned
        .groups
        .borrow_mut()
        .push_back(Ok(DescribeSecurityGroupsResult { security_groups: Some(vec![group("web")]) }));
    let mut session = Session::new(canned);
    assert_eq!(list_security_groups(&mut session, &Some("web".to_string())).unwrap().len(), 8);
    assert_eq!(list_security_groups(&mut session, &None).unwrap().len(), 2);
    assert_eq!(
        calls_of(session),
        vec![
            Call::DescribeSecurityGroups(DescribeSecurityGroupsRequest {
                filters: Some(vec![Filter {
                    name: "group-name".to_string(),
                    values: vec!["web".to_string()],
                }]),
            }),
            Call::DescribeSecurityGroups(DescribeSecurityGroupsRequest { filters: None }),
        ]
    );
}

#[test]
fn unknown_fault_keeps_errors_and_request_id() {
    let canned = Canned::default();
    canned.instances.borrow_mut().push_back(Err(ServiceFault::Unknown {
        errors: vec![AwsXmlError {
            code: Some("AuthFailure".to_string()),
            message: Some("no".to_string()),
        }],
        request_id: "r-1".to_string(),
    }));
    let mut session = Session::new(canned);
    match get_all_instances(&mut session) {
        Err(e @ AwsInstanceError::Unknown { .. }) => {
            assert_eq!(e.message(), "Error with request ID r-1: no\nError code: AuthFailure")
        }
        other => panic!("unexpected: {:?}", other),
    }
}

#[test]
fn run_lists_images_with_filters_from_the_arguments() {
    let canned = Canned::default();
    canned.images.borrow_mut().push_back(Ok(DescribeImagesResult {
        images: Some(vec![
            image("ami-a", Some("alpha"), None),
            image("ami-b", Some("beta"), Some("2022-02-02T00:00:00Z")),
        ]),
    }));
    let mut session = Session::new(canned);
    let command = SubCommands::ListAmis {
        name: None,
        architecture: "x86_64,arm64".to_string(),
        image_id: None,
        search: Some("a$".to_string()),
    };
    match command.run(&mut session, Profile::default()) {
        Ok(Output::Lines(lines)) => assert_eq!(listed_ids(&lines), vec!["ami-b", "ami-a"]),
        other => panic!("unexpected: {:?}", other),
    }
    assert_eq!(
        calls_of(session),
        vec![Call::DescribeImages(DescribeImagesRequest {
            filters: Some(vec![Filter {
                name: "architecture".to_string(),
                values: vec!["x86_64".to_string(), "arm64".to_string()],
            }]),
        })]
    );
}

#[test]
fn run_lists_instances_groups_and_destroys() {
    let canned = Canned::default();
    canned.instances.borrow_mut().push_back(found(vec![reservation(vec![named("i-1", "web")])]));
    canned
        .groups
        .borrow_mut()
        .push_back(Ok(DescribeSecurityGroupsResult { security_groups: Some(vec![group("web")]) }));
    canned.instances.borrow_mut().push_back(found(vec![]));
    canned.instances.borrow_mut().push_back(found(vec![]));
    let mut session = Session::new(canned);
    match (SubCommands::List { ansible: true }).run(&mut session, Profile::default()) {
        Ok(Output::Lines(lines)) => {
            assert_eq!(lines, vec![r#"{"web":{"hosts":["i-1.example.com"]}}"#])
        }
        other => panic!("unexpected: {:?}", other),
    }
    match (SubCommands::ListGroups { name: None }).run(&mut session, Profile::default()) {
        Ok(Output::Lines(lines)) => assert_eq!(lines.len(), 2),
        other => panic!("unexpected: {:?}", other),
    }
    assert!(matches!(
        (SubCommands::Destroy { name: "gone".to_string() }).run(&mut session, Profile::default()),
        Err(AwsInstanceError::DestroyInstanceError { .. })
    ));
    assert!(matches!(
        (SubCommands::Stop { name: "gone".to_string() }).run(&mut session, Profile::default()),
        Err(AwsInstanceError::StopInstanceError { .. })
    ));
    assert_eq!(calls_of(session).len(), 4);
}

#[test]
fn run_hands_completions_back_without_a_call() {
    let mut session = Session::new(Canned::default());
    let command = SubCommands::GenerateCompletions { shell: clap_complete::Shell::Zsh };
    match command.run(&mut session, Profile::default()) {
        Ok(Output::Completions(shell)) => assert_eq!(shell, clap_complete::Shell::Zsh),
        other => panic!("unexpected: {:?}", other),
    }
    assert_eq!(calls_of(session), vec![]);
}

#[test]
fn session_hands_out_the_client_it_was_given() {
    let canned = Canned::default();
    canned.instances.borrow_mut().push_back(found(vec![]));
    let mut session = Session::new(canned);
    assert_eq!(session.client().calls.borrow().len(), 0);
    assert_eq!(get_instance_by_name(&mut session, "web").unwrap(), None);
    assert_eq!(session.client().calls.borrow().clone(), vec![by_name("web")]);
    let client = session.into_client();
    assert_eq!(client.calls.into_inner(), vec![by_name("web")]);
    assert!(client.instances.borrow().is_empty());
}

#[test]
fn ssh_puts_the_key_of_the_command_line_before_the_options() {
    let canned = Canned::default();
    canned.instances.borrow_mut().push_back(found(vec![reservation(vec![named("i-1", "web")])]));
    canned.instances.borrow_mut().push_back(found(vec![reservation(vec![named("i-1", "web")])]));
    let mut session = Session::new(canned);
    let command = SubCommands::Ssh {
        name: "web".to_string(),
        username: Some("bob".to_string()),
        key: None,
        sshopts: vec!["-v".to_string()],
    };
    let mut with_key = Profile::default();
    with_key.ssh_key = Some("/k".to_string());
    match command.run(&mut session, with_key) {
        Ok(Output::Ssh(reached)) => {
            assert_eq!(reached.args, vec!["203.0.113.7", "-l", "bob", "-i", "/k", "-v"])
        }
        other => panic!("unexpected: {:?}", other),
    }
    let command = SubCommands::Ssh {
        name: "web".to_string(),
        username: Some("bob".to_string()),
        key: Some("/cli".to_string()),
        sshopts: vec![],
    };
    match command.run(&mut session, profile()) {
        Ok(Output::Ssh(reached)) => {
            assert_eq!(reached.args, vec!["203.0.113.7", "-l", "bob", "-i", "/cli"])
        }
        other => panic!("unexpected: {:?}", other),
    }
}

#[test]
fn image_filter_of_a_repeated_name_is_asked_for_once() {
    let canned = Canned::default();
    canned.images.borrow_mut().push_back(Ok(DescribeImagesResult { images: None }));
    let mut session = Session::new(canned);
    let filters = vec![
        ("architecture".to_string(), vec!["x86_64".to_string()]),
        ("name".to_string(), vec!["a".to_string()]),
        ("architecture".to_string(), vec!["arm64".to_string(), "i386".to_string()]),
        ("image-id".to_string(), vec!["ami-1".to_string()]),
        ("name".to_string(), vec![]),
    ];
    assert_eq!(list_amis(&mut session, &filters, None).unwrap(), vec!["No images found"]);
    assert_eq!(
        calls_of(session),
        vec![Call::DescribeImages(DescribeImagesRequest {
            filters: Some(vec![
                Filter {
                    name: "architecture".to_string(),
                    values: vec!["arm64".to_string(), "i386".to_string()],
                },
                Filter { name: "name".to_string(), values: vec![] },
                Filter { name: "image-id".to_string(), values: vec!["ami-1".to_string()] },
            ]),
        })]
    );
}

#[test]
fn run_lists_images_by_id() {
    let canned = Canned::default();
    canned.images.borrow_mut().push_back(Ok(DescribeImagesResult { images: None }));
    let mut session = Session::new(canned);
    let command = SubCommands::ListAmis {
        name: None,
        architecture: "x86_64,arm64".to_string(),
        image_id: Some("ami-1,ami-2".to_string()),
        search: None,
    };
    assert!(matches!(command.run(&mut session, Profile::default()), Ok(Output::Lines(_))));
    assert_eq!(
        calls_of(session),
        vec![Call::DescribeImages(DescribeImagesRequest {
            filters: Some(vec![
                Filter {
                    name: "architecture".to_string(),
                    values: vec!["x86_64".to_string(), "arm64".to_string()],
                },
                Filter {
                    name: "image-id".to_string(),
                    values: vec!["ami-1".to_string(), "ami-2".to_string()],
                },
            ]),
        })]
    );
}
