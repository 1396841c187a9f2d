//! `list`: the instances as a table, or as an inventory for Ansible.
use vstd::prelude::*;
use vstd::string::*;
use crate::commands::list_security_groups::{or_na, text_or_na};
use crate::ec2_wrapper::{Ec2Wrapper, Exchange, Session};
use crate::error::AwsInstanceError;
use crate::json::{
    json_array, json_object, json_string, json_text, jsons_of, members_of, new_object,
    object_insert, object_to_string, Json,
};
use crate::model::{GroupIdentifier, Instance};
use serde_json::Value;
use crate::text::{join, joined, push_line, row, row_text, texts};
use crate::util::{
    fetched, find_tag, get_all_instances, get_name, get_state, instance_tag, is_fetch, name_of,
    state_of,
};

verus! {

/// The widths of the seven columns of the instance table.
pub open spec fn instance_widths() -> Seq<usize> {
    seq![15usize, 25usize, 15usize, 25usize, 15usize, 15usize, 15usize]
}

fn widths() -> (r: Vec<usize>)
    ensures
        r@ == instance_widths(),
{
    let r: Vec<usize> = vec![15, 25, 15, 25, 15, 15, 15];
    proof {
        assert(r@ =~= instance_widths());
    }
    r
}

/// The heading of the instance table.
pub open spec fn instance_heading() -> Seq<char> {
    row_text(
        seq![
            "Name"@,
            "Instance ID"@,
            "State"@,
            "AMI ID"@,
            "OS"@,
            "Public IP"@,
            "Security Groups"@,
        ],
        instance_widths(),
    )
}

/// The operating system column: the value of the `OS` tag as it stands, or
/// `N/A` where the tag is missing or empty of a value.
pub open spec fn os_text(instance: Instance) -> Seq<char> {
    match instance_tag(instance, "OS"@) {
        Some(Some(value)) => value,
        _ => "N/A"@,
    }
}

fn os_string(instance: &Instance) -> (r: String)
    ensures
        r@ == os_text(*instance),
{
    match find_tag(instance, "OS") {
        Some(tag) => match &tag.value {
            Some(value) => value.clone(),
            None => String::from_str("N/A"),
        },
        None => String::from_str("N/A"),
    }
}

/// The names of the groups of an instance, each as `or_na` writes it.
pub open spec fn group_names(groups: Seq<GroupIdentifier>) -> Seq<Seq<char>> {
    Seq::new(groups.len(), |i: int| or_na(groups[i].group_name))
}

/// The security group column: the names joined by a comma and a space;
/// `None` for an instance without a list of groups.
pub open spec fn groups_text(instance: Instance) -> Seq<char> {
    match instance.security_groups {
        Some(groups) => joined(group_names(groups@), ", "@),
        None => "None"@,
    }
}

fn groups_string(instance: &Instance) -> (r: String)
    ensures
        r@ == groups_text(*instance),
{
    match &instance.security_groups {
        None => String::from_str("None"),
        Some(groups) => {
            let mut names: Vec<String> = Vec::new();
            let mut i: usize = 0;
            while i < groups.len()
                invariant
                    i <= groups.len(),
                    texts(names@) == group_names(groups@.take(i as int)),
                decreases groups.len() - i,
            {
                let name = text_or_na(&groups[i].group_name);
                let ghost before = texts(names@);
                push_line(&mut names, name);
                proof {
                    assert(group_names(groups@.take(i + 1)) =~= before.push(name@));
                }
                i = i + 1;
            }
            proof {
                assert(groups@.take(groups.len() as int) =~= groups@);
            }
            join(&names, ", ")
        },
    }
}

/// The cells of the line of one instance.
pub open spec fn instance_cells(instance: Instance) -> Seq<Seq<char>> {
    seq![
        name_of(instance),
        instance.instance_id@,
        state_of(instance),
        instance.image_id@,
        os_text(instance),
        or_na(instance.public_ip_address),
        groups_text(instance),
    ]
}

/// The line of one instance.
pub open spec fn instance_row(instance: Instance) -> Seq<char> {
    row_text(instance_cells(instance), instance_widths())
}

fn instance_line(instance: &Instance) -> (r: String)
    ensures
        r@ == instance_row(*instance),
{
    let mut cells: Vec<String> = Vec::new();
    cells.push(get_name(instance));
    cells.push(instance.instance_id.clone());
    cells.push(get_state(instance));
    cells.push(instance.image_id.clone());
    cells.push(os_string(instance));
    cells.push(text_or_na(&instance.public_ip_address));
    cells.push(groups_string(instance));
    proof {
        assert(texts(cells@) =~= instance_cells(*instance));
    }
    let w = widths();
    row(&cells, &w)
}

/// The instance table: the heading, then one line for each instance, in
/// order.
pub open spec fn instance_table(instances: Seq<Instance>) -> Seq<Seq<char>> {
    seq![instance_heading()] + Seq::new(instances.len(), |i: int| instance_row(instances[i]))
}

/// Writes the instance table.
pub fn table(instances: &Vec<Instance>) -> (r: Vec<String>)
    ensures
        texts(r@) == instance_table(instances@),
{
    let mut heading: Vec<String> = Vec::new();
    heading.push(String::from_str("Name"));
    heading.push(String::from_str("Instance ID"));
    heading.push(String::from_str("State"));
    heading.push(String::from_str("AMI ID"));
    heading.push(String::from_str("OS"));
    heading.push(String::from_str("Public IP"));
    heading.push(String::from_str("Security Groups"));
    proof {
        assert(texts(heading@) =~= seq![
            "Name"@,
            "Instance ID"@,
            "State"@,
            "AMI ID"@,
            "OS"@,
            "Public IP"@,
            "Security Groups"@,
        ]);
    }
    let w = widths();
    let mut lines: Vec<String> = Vec::new();
    push_line(&mut lines, row(&heading, &w));
    let mut i: usize = 0;
    proof {
        assert(texts(lines@) =~= instance_table(instances@.take(0)));
    }
    while i < instances.len()
        invariant
            i <= instances.len(),
            texts(lines@) == instance_table(instances@.take(i as int)),
        decreases instances.len() - i,
    {
        let line = instance_line(&instances[i]);
        let ghost before = texts(lines@);
        push_line(&mut lines, line);
        proof {
            assert(instance_table(instances@.take(i + 1)) =~= before.push(line@));
        }
        i = i + 1;
    }
    proof {
        assert(instances@.take(instances.len() as int) =~= instances@);
    }
    lines
}

/// What the inventory holds for one host: an object whose member `hosts` is
/// the list of the one address.
pub open spec fn host_entry(address: Seq<char>) -> Json {
    Json::Object(Map::<Seq<char>, Json>::empty().insert("hosts"@, Json::List(seq![Json::Text(address)])))
}

/// The members of the inventory: for each instance with a public DNS name
/// that is not empty, its name with its entry. Where two instances go by one
/// name, the later takes the place of the earlier. The others are left out.
pub open spec fn inventory(instances: Seq<Instance>) -> Map<Seq<char>, Json>
    decreases instances.len(),
{
    if instances.len() == 0 {
        Map::empty()
    } else {
        let earlier = inventory(instances.drop_last());
        let instance = instances.last();
        match instance.public_dns_name {
            Some(address) => if address@.len() > 0 {
                earlier.insert(name_of(instance), host_entry(address@))
            } else {
                earlier
            },
            None => earlier,
        }
    }
}

/// Writes the inventory as JSON: the text that `serde_json` writes for an
/// object with the members of `inventory`.
pub fn ansible_inventory(instances: &Vec<Instance>) -> (r: Result<String, AwsInstanceError>)
    ensures
        r matches Ok(text) && text@ == json_text(inventory(instances@)),
{
    let mut members = new_object();
    let mut i: usize = 0;
    while i < instances.len()
        invariant
            i <= instances.len(),
            members_of(members) == inventory(instances@.take(i as int)),
        decreases instances.len() - i,
    {
        let instance = &instances[i];
        proof {
            assert(instances@.take(i + 1).drop_last() =~= instances@.take(i as int));
            assert(instances@.take(i + 1).last() == *instance);
        }
        match &instance.public_dns_name {
            Some(address) => {
                if address.as_str().unicode_len() > 0 {
                    let name = get_name(instance);
                    let mut list: Vec<Value> = Vec::new();
                    list.push(json_string(address.clone()));
                    proof {
                        assert(jsons_of(list@) =~= seq![Json::Text(address@)]);
                    }
                    let mut hosts = new_object();
                    object_insert(&mut hosts, String::from_str("hosts"), json_array(list));
                    object_insert(&mut members, name, json_object(hosts));
                }
            },
            None => {},
        }
        i = i + 1;
    }
    proof {
        assert(instances@.take(instances.len() as int) =~= instances@);
    }
    match object_to_string(&members) {
        Ok(text) => Ok(text),
        Err(error) => Err(AwsInstanceError::JSONParseError { error }),
    }
}

/// What is printed for the instances that were fetched: the table, or, for
/// Ansible, the inventory on one line.
pub open spec fn listed(
    instances: Seq<Instance>,
    ansible: bool,
    result: Result<Vec<String>, AwsInstanceError>,
) -> bool {
    if ansible {
        result matches Ok(lines) && texts(lines@) == seq![json_text(inventory(instances))]
    } else {
        result matches Ok(lines) && texts(lines@) == instance_table(instances)
    }
}

/// What the command comes to once the one call it makes is known: the call
/// fetches every instance; a fault is passed on as the error of its kind;
/// the instances are printed as `listed` says.
pub open spec fn list_command_outcome(
    ansible: bool,
    calls: Seq<Exchange>,
    result: Result<Vec<String>, AwsInstanceError>,
) -> bool {
    &&& calls.len() == 1
    &&& is_fetch(calls[0])
    &&& match fetched(calls[0]) {
        Ok(instances) => listed(instances, ansible, result),
        Err(error) => result == Err::<Vec<String>, AwsInstanceError>(error),
    }
}

/// Lists every instance. Returns the lines to print.
pub fn list<C: Ec2Wrapper>(ec2_client: &mut Session<C>, ansible: bool) -> (r: Result<
    Vec<String>,
    AwsInstanceError,
>)
    ensures
        final(ec2_client).extends(old(ec2_client)),
        list_command_outcome(ansible, final(ec2_client).since(old(ec2_client)), r),
{
    match get_all_instances(ec2_client) {
        Err(error) => Err(error),
        Ok(instances) => {
            if ansible {
                match ansible_inventory(&instances) {
                    Ok(text) => {
                        let mut lines: Vec<String> = Vec::new();
                        push_line(&mut lines, text);
                        proof {
                            assert(texts(lines@) =~= seq![text@]);
                        }
                        Ok(lines)
                    },
                    Err(error) => Err(error),
                }
            } else {
                Ok(table(&instances))
            }
        },
    }
}

} // verus!
