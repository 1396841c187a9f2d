//! `create`: launches one instance under a name that is free.
use vstd::prelude::*;
use vstd::string::*;
use crate::cmdline::OsNames;
use crate::ec2_wrapper::{run_instances_exchange, Ec2Wrapper, Exchange, Reply, Request, Session};
use crate::error::{command_error, error_of_fault, is_command_error, AwsInstanceError, CommandKind};
use crate::model::{
    IamInstanceProfileSpecification, Reservation, RunInstancesRequest, Tag, TagSpecification,
};
use crate::text::{opt_text, texts};
use crate::util::{get_instance_by_name, is_lookup, looked_up};

verus! {

/// What to launch, every default already filled in.
#[derive(Debug)]
pub struct CreateOptions {
    pub name: String,
    pub ami_id: String,
    pub ebs_optimized: bool,
    pub iam_profile: Option<String>,
    pub instance_type: Option<String>,
    pub keypair_name: Option<String>,
    pub security_group_ids: Vec<String>,
    pub os_name: Option<OsNames>,
}

/// What to launch, as mathematics has it.
pub struct CreateOptionsView {
    pub name: Seq<char>,
    pub ami_id: Seq<char>,
    pub ebs_optimized: bool,
    pub iam_profile: Option<Seq<char>>,
    pub instance_type: Option<Seq<char>>,
    pub keypair_name: Option<Seq<char>>,
    pub security_group_ids: Seq<Seq<char>>,
    pub os_name: Option<OsNames>,
}

impl View for CreateOptions {
    type V = CreateOptionsView;

    open spec fn view(&self) -> CreateOptionsView {
        CreateOptionsView {
            name: self.name@,
            ami_id: self.ami_id@,
            ebs_optimized: self.ebs_optimized,
            iam_profile: opt_text(self.iam_profile),
            instance_type: opt_text(self.instance_type),
            keypair_name: opt_text(self.keypair_name),
            security_group_ids: texts(self.security_group_ids@),
            os_name: self.os_name,
        }
    }
}

/// The keys and values of a list of tags, in order.
pub open spec fn tag_texts(tags: Seq<Tag>) -> Seq<(Option<Seq<char>>, Option<Seq<char>>)> {
    Seq::new(tags.len(), |i: int| (opt_text(tags[i].key), opt_text(tags[i].value)))
}

/// The tags of a new instance: `Name`, always, and `OS` after it where an
/// operating system was named.
pub open spec fn launch_tags(name: Seq<char>, os: Option<OsNames>) -> Seq<
    (Option<Seq<char>>, Option<Seq<char>>),
> {
    match os {
        Some(system) => seq![
            (Some("Name"@), Some(name)),
            (Some("OS"@), Some(system.name())),
        ],
        None => seq![(Some("Name"@), Some(name))],
    }
}

/// Whether `request` launches what the options say: exactly one instance
/// of the image, with the type, key pair, IAM profile, EBS flag and security
/// groups given, and tagged as `launch_tags` says.
pub open spec fn launches(request: RunInstancesRequest, options: CreateOptionsView) -> bool {
    &&& request.min_count == 1
    &&& request.max_count == 1
    &&& opt_text(request.image_id) == Some(options.ami_id)
    &&& request.ebs_optimized == Some(options.ebs_optimized)
    &&& request.iam_instance_profile matches Some(profile)
    &&& opt_text(profile.name) == options.iam_profile
    &&& opt_text(request.instance_type) == options.instance_type
    &&& opt_text(request.key_name) == options.keypair_name
    &&& request.security_group_ids matches Some(groups)
    &&& texts(groups@) == options.security_group_ids
    &&& request.tag_specifications matches Some(specifications)
    &&& specifications@.len() == 1
    &&& opt_text(specifications@[0].resource_type) == Some("instance"@)
    &&& specifications@[0].tags matches Some(tags)
    &&& tag_texts(tags@) == launch_tags(options.name, options.os_name)
}

/// The request that launches what the options say.
pub fn launch_request(options: CreateOptions) -> (r: RunInstancesRequest)
    ensures
        launches(r, options@),
{
    let mut tags: Vec<Tag> = Vec::new();
    tags.push(Tag { key: Some(String::from_str("Name")), value: Some(options.name) });
    match options.os_name {
        Some(system) => {
            tags.push(Tag { key: Some(String::from_str("OS")), value: Some(system.to_string()) });
        },
        None => {},
    }
    proof {
        assert(tag_texts(tags@) =~= launch_tags(options.name@, options.os_name));
    }
    let mut specifications: Vec<TagSpecification> = Vec::new();
    specifications.push(
        TagSpecification { resource_type: Some(String::from_str("instance")), tags: Some(tags) },
    );
    RunInstancesRequest {
        min_count: 1,
        max_count: 1,
        image_id: Some(options.ami_id),
        ebs_optimized: Some(options.ebs_optimized),
        iam_instance_profile: Some(IamInstanceProfileSpecification { name: options.iam_profile }),
        instance_type: options.instance_type,
        key_name: options.keypair_name,
        security_group_ids: Some(options.security_group_ids),
        tag_specifications: Some(specifications),
    }
}

/// What the command comes to once its calls are known. The first call
/// looks the name up. An error there is passed on. An instance of that
/// name, in whatever state, is an error, `Instance with that name already
/// exists`. Neither makes a second call. Else the second call launches what
/// the options say, and the command returns the reservation that comes back,
/// or passes on the fault.
pub open spec fn create_outcome(
    options: CreateOptionsView,
    calls: Seq<Exchange>,
    result: Result<Reservation, AwsInstanceError>,
) -> bool {
    &&& calls.len() >= 1
    &&& is_lookup(calls[0], options.name)
    &&& match looked_up(calls[0]) {
        Err(error) => calls.len() == 1 && result == Err::<Reservation, AwsInstanceError>(error),
        Ok(Some(_)) => calls.len() == 1 && (result matches Err(error) && is_command_error(
            error,
            CommandKind::Create,
            options.name,
            "Instance with that name already exists"@,
        )),
        Ok(None) => {
            &&& calls.len() == 2
            &&& calls[1].request matches Request::RunInstances(request)
            &&& launches(request, options)
            &&& match calls[1].reply {
                Ok(Reply::RunInstances(reservation)) => result == Ok::<
                    Reservation,
                    AwsInstanceError,
                >(reservation),
                Ok(_) => false,
                Err(fault) => result == Err::<Reservation, AwsInstanceError>(
                    error_of_fault(fault),
                ),
            }
        },
    }
}

/// Creates an instance as the options say, unless one of that name exists.
pub fn create_instance<C: Ec2Wrapper>(ec2_client: &mut Session<C>, options: CreateOptions) -> (r:
    Result<Reservation, AwsInstanceError>)
    ensures
        final(ec2_client).extends(old(ec2_client)),
        create_outcome(options@, final(ec2_client).since(old(ec2_client)), r),
{
    let found = get_instance_by_name(ec2_client, options.name.as_str());
    let ghost lookup = ec2_client.since(old(ec2_client))[0];
    match found {
        Err(error) => Err(error),
        Ok(Some(_)) => Err(
            command_error(
                CommandKind::Create,
                options.name.as_str(),
                "Instance with that name already exists",
            ),
        ),
        Ok(None) => {
            let request = launch_request(options);
            let ghost asked = request;
            let reply = ec2_client.run_instances(request);
            proof {
                let calls = ec2_client.since(old(ec2_client));
                assert(calls =~= seq![lookup, run_instances_exchange(asked, reply)]);
            }
            match reply {
                Ok(reservation) => Ok(reservation),
                Err(fault) => Err(AwsInstanceError::from(fault)),
            }
        },
    }
}

/// A name that is taken is never launched a second time: where the lookup
/// finds an instance, in whatever state, the command fails with `Instance
/// with that name already exists` and the lookup is the only call. No
/// run-instances call is made.
pub proof fn lemma_existing_name_is_not_launched(
    options: CreateOptionsView,
    calls: Seq<Exchange>,
    result: Result<Reservation, AwsInstanceError>,
)
    requires
        create_outcome(options, calls, result),
        looked_up(calls[0]) matches Ok(Some(_)),
    ensures
        result matches Err(error) && is_command_error(
            error,
            CommandKind::Create,
            options.name,
            "Instance with that name already exists"@,
        ),
        forall|i: int| 0 <= i < calls.len() ==> !(#[trigger] calls[i].request is RunInstances),
{
}

} // verus!
