//! Finding instances and reading what they carry.
use vstd::prelude::*;
use vstd::string::*;
use crate::cmdline::{lowercase_of, os_named, OsNames};
use crate::ec2_wrapper::{
    describe_instances_exchange, Ec2Wrapper, Exchange, Reply, Request, Session,
};
use crate::error::{
    command_error, error_of_fault, is_command_error, AwsInstanceError, CommandKind,
};
use crate::model::{
    DescribeInstancesRequest, DescribeInstancesResult, Filter, Instance, InstanceStateChange,
    Reservation, Tag,
};
use crate::text::{opt_text, str_eq, texts};

verus! {

/// The value of the first tag whose key is `key`: `None` when no tag has
/// that key, `Some(None)` when the first that has it holds no value.
pub open spec fn tag_value(tags: Seq<Tag>, key: Seq<char>) -> Option<Option<Seq<char>>>
    decreases tags.len(),
{
    if tags.len() == 0 {
        None
    } else if opt_text(tags[0].key) == Some(key) {
        Some(opt_text(tags[0].value))
    } else {
        tag_value(tags.drop_first(), key)
    }
}

/// The tag value of an instance, as `tag_value` gives it; an instance
/// without a tag list has no tags.
pub open spec fn instance_tag(instance: Instance, key: Seq<char>) -> Option<Option<Seq<char>>> {
    match instance.tags {
        Some(tags) => tag_value(tags@, key),
        None => None,
    }
}

/// Looks up the first tag with the given key.
pub fn find_tag<'a>(instance: &'a Instance, key: &str) -> (r: Option<&'a Tag>)
    ensures
        match r {
            Some(tag) => instance_tag(*instance, key@) == Some(opt_text(tag.value)),
            None => instance_tag(*instance, key@) is None,
        },
{
    match &instance.tags {
        None => None,
        Some(tags) => {
            let mut i: usize = 0;
            proof {
                assert(tags@.skip(0) =~= tags@);
            }
            while i < tags.len()
                invariant
                    i <= tags.len(),
                    instance.tags == Some(*tags),
                    tag_value(tags@, key@) == tag_value(tags@.skip(i as int), key@),
                decreases tags.len() - i,
            {
                let ghost rest = tags@.skip(i as int);
                proof {
                    assert(rest[0] == tags@[i as int]);
                    assert(rest.drop_first() =~= tags@.skip(i + 1));
                }
                let tag = &tags[i];
                let hit = match &tag.key {
                    Some(k) => str_eq(k.as_str(), key),
                    None => false,
                };
                if hit {
                    proof {
                        assert(opt_text(rest[0].key) == Some(key@));
                        assert(tag_value(rest, key@) == Some(opt_text(tag.value)));
                    }
                    return Some(tag);
                }
                i = i + 1;
            }
            proof {
                assert(tags@.skip(tags.len() as int).len() == 0);
            }
            None
        },
    }
}

/// The name of an instance: the value of its `Name` tag, or nothing when it
/// has no such tag or the tag has no value.
pub open spec fn name_of(instance: Instance) -> Seq<char> {
    match instance_tag(instance, "Name"@) {
        Some(Some(value)) => value,
        _ => Seq::empty(),
    }
}

/// The name that the instance goes by.
pub fn get_name(instance: &Instance) -> (r: String)
    ensures
        r@ == name_of(*instance),
{
    match find_tag(instance, "Name") {
        Some(tag) => match &tag.value {
            Some(value) => value.clone(),
            None => String::new(),
        },
        None => String::new(),
    }
}

/// The lifecycle state of an instance by name, or nothing when the provider
/// gave none.
pub open spec fn state_of(instance: Instance) -> Seq<char> {
    match instance.state {
        Some(state) => state@,
        None => Seq::empty(),
    }
}

/// The name of the state the instance is in.
pub fn get_state(instance: &Instance) -> (r: String)
    ensures
        r@ == state_of(*instance),
{
    match &instance.state {
        Some(state) => state.clone(),
        None => String::new(),
    }
}

/// The operating system that the `OS` tag of an instance names. A tag that
/// is absent, holds no value or names no known system gives `None`.
pub open spec fn os_of(instance: Instance) -> Option<OsNames> {
    match instance_tag(instance, "OS"@) {
        Some(Some(value)) => os_named(lowercase_of(value)),
        _ => None,
    }
}

/// Reads the operating system from the `OS` tag.
pub fn get_os_for_instance(instance: &Instance) -> (r: Option<OsNames>)
    ensures
        r == os_of(*instance),
{
    match find_tag(instance, "OS") {
        Some(tag) => match &tag.value {
            Some(value) => match OsNames::from_str(value.as_str()) {
                Ok(os) => Some(os),
                Err(_) => None,
            },
            None => None,
        },
        None => None,
    }
}

/// The instances of one reservation; none when it lists none.
pub open spec fn reservation_instances(reservation: Reservation) -> Seq<Instance> {
    match reservation.instances {
        Some(instances) => instances@,
        None => Seq::empty(),
    }
}

/// The instances of all reservations, one after the other, in the order of
/// the reservations and, within each, in its own order.
pub open spec fn flattened(reservations: Seq<Reservation>) -> Seq<Instance>
    decreases reservations.len(),
{
    if reservations.len() == 0 {
        Seq::empty()
    } else {
        flattened(reservations.drop_last()) + reservation_instances(reservations.last())
    }
}

/// Every instance that a describe-instances response holds, in response
/// order.
pub open spec fn instances_of(result: DescribeInstancesResult) -> Seq<Instance> {
    match result.reservations {
        Some(reservations) => flattened(reservations@),
        None => Seq::empty(),
    }
}

/// The instance that a lookup settles on: the first that the response holds,
/// whatever follows it.
pub open spec fn first_instance(result: DescribeInstancesResult) -> Option<Instance> {
    if instances_of(result).len() > 0 {
        Some(instances_of(result)[0])
    } else {
        None
    }
}

/// Takes the instances out of a response, flattening its reservations.
pub fn all_instances(result: DescribeInstancesResult) -> (r: Vec<Instance>)
    ensures
        r@ == instances_of(result),
{
    let mut instances: Vec<Instance> = Vec::new();
    match result.reservations {
        None => {},
        Some(reservations) => {
            let ghost all = reservations@;
            for reservation in it: reservations
                invariant
                    it.seq() == all,
                    instances@ == flattened(all.take(it.index() as int)),
            {
                let ghost n = it.index() as int;
                proof {
                    assert(all.take(n + 1).drop_last() =~= all.take(n));
                    assert(all.take(n + 1).last() == reservation);
                }
                match reservation.instances {
                    Some(mut found) => {
                        instances.append(&mut found);
                    },
                    None => {
                        proof {
                            assert(instances@ + Seq::<Instance>::empty() =~= instances@);
                        }
                    },
                }
            }
            proof {
                assert(all.take(all.len() as int) =~= all);
            }
        },
    }
    instances
}

/// Takes the first instance out of a response.
pub fn take_first_instance(result: DescribeInstancesResult) -> (r: Option<Instance>)
    ensures
        r == first_instance(result),
{
    let mut all = all_instances(result);
    if all.len() > 0 {
        Some(all.swap_remove(0))
    } else {
        None
    }
}

/// Whether `request` asks for the instances whose `Name` tag is `name`, and
/// for nothing else.
pub open spec fn asks_for_name(request: DescribeInstancesRequest, name: Seq<char>) -> bool {
    &&& request.dry_run is None
    &&& request.filters matches Some(filters)
    &&& filters@.len() == 1
    &&& filters@[0].name@ == "tag:Name"@
    &&& texts(filters@[0].values@) == seq![name]
}

/// The request that finds instances by their `Name` tag.
pub fn name_request(name: &str) -> (r: DescribeInstancesRequest)
    ensures
        asks_for_name(r, name@),
{
    let mut values: Vec<String> = Vec::new();
    values.push(String::from_str(name));
    let mut filters: Vec<Filter> = Vec::new();
    filters.push(Filter { name: String::from_str("tag:Name"), values });
    proof {
        assert(texts(filters@[0].values@) =~= seq![name@]);
    }
    DescribeInstancesRequest { dry_run: None, filters: Some(filters) }
}

/// Whether `request` asks for every instance.
pub open spec fn asks_for_all(request: DescribeInstancesRequest) -> bool {
    request.dry_run == Some(false) && request.filters is None
}

/// Whether `call` is a lookup of `name`: a describe-instances call that
/// asks for the name and was answered in kind.
pub open spec fn is_lookup(call: Exchange, name: Seq<char>) -> bool {
    &&& call.request matches Request::DescribeInstances(request)
    &&& asks_for_name(request, name)
    &&& call.reply matches Ok(reply) ==> reply is DescribeInstances
}

/// What a lookup found: a fault is passed on as the error of its kind; a
/// response gives its first instance, or `None` when it holds none.
pub open spec fn looked_up(call: Exchange) -> Result<Option<Instance>, AwsInstanceError> {
    match call.reply {
        Ok(Reply::DescribeInstances(response)) => Ok(first_instance(response)),
        Ok(_) => Ok(None),
        Err(fault) => Err(error_of_fault(fault)),
    }
}

/// What a lookup by name comes to: one call, a lookup of the name, and
/// what it found.
pub open spec fn lookup_outcome(
    name: Seq<char>,
    calls: Seq<Exchange>,
    result: Result<Option<Instance>, AwsInstanceError>,
) -> bool {
    &&& calls.len() == 1
    &&& is_lookup(calls[0], name)
    &&& result == looked_up(calls[0])
}

/// Finds the instance that goes by `name`. One call is made. Where several
/// instances carry the name, the first that the provider lists is taken and
/// the others are passed over in silence.
pub fn get_instance_by_name<C: Ec2Wrapper>(ec2_client: &mut Session<C>, name: &str) -> (r: Result<
    Option<Instance>,
    AwsInstanceError,
>)
    ensures
        final(ec2_client).extends(old(ec2_client)),
        lookup_outcome(name@, final(ec2_client).since(old(ec2_client)), r),
{
    let request = name_request(name);
    let ghost asked = request;
    let reply = ec2_client.describe_instances(request);
    let ghost got = reply;
    let r = match reply {
        Ok(response) => Ok(take_first_instance(response)),
        Err(fault) => Err(AwsInstanceError::from(fault)),
    };
    proof {
        let calls = ec2_client.since(old(ec2_client));
        assert(calls =~= seq![describe_instances_exchange(asked, got)]);
    }
    r
}

/// Whether `call` asks for every instance and was answered in kind.
pub open spec fn is_fetch(call: Exchange) -> bool {
    &&& call.request matches Request::DescribeInstances(request)
    &&& asks_for_all(request)
    &&& call.reply matches Ok(reply) ==> reply is DescribeInstances
}

/// The instances that a fetch brought: those of the response, flattened; a
/// fault is passed on as the error of its kind.
pub open spec fn fetched(call: Exchange) -> Result<Seq<Instance>, AwsInstanceError> {
    match call.reply {
        Ok(Reply::DescribeInstances(response)) => Ok(instances_of(response)),
        Ok(_) => Ok(Seq::empty()),
        Err(fault) => Err(error_of_fault(fault)),
    }
}

/// What fetching all instances comes to: one call, a fetch, and what it
/// brought.
pub open spec fn list_outcome(
    calls: Seq<Exchange>,
    result: Result<Vec<Instance>, AwsInstanceError>,
) -> bool {
    &&& calls.len() == 1
    &&& is_fetch(calls[0])
    &&& match fetched(calls[0]) {
        Ok(instances) => result matches Ok(found) && found@ == instances,
        Err(error) => result == Err::<Vec<Instance>, AwsInstanceError>(error),
    }
}

/// Fetches every instance, in the order of the response. One call is made.
pub fn get_all_instances<C: Ec2Wrapper>(ec2_client: &mut Session<C>) -> (r: Result<
    Vec<Instance>,
    AwsInstanceError,
>)
    ensures
        final(ec2_client).extends(old(ec2_client)),
        list_outcome(final(ec2_client).since(old(ec2_client)), r),
{
    let request = DescribeInstancesRequest { dry_run: Some(false), filters: None };
    let ghost asked = request;
    let reply = ec2_client.describe_instances(request);
    let ghost got = reply;
    let r = match reply {
        Ok(response) => Ok(all_instances(response)),
        Err(fault) => Err(AwsInstanceError::from(fault)),
    };
    proof {
        let calls = ec2_client.since(old(ec2_client));
        assert(calls =~= seq![describe_instances_exchange(asked, got)]);
    }
    r
}

/// The line that reports one state change.
pub open spec fn state_change_line(change: InstanceStateChange) -> Seq<char> {
    change.instance_id@ + ": "@ + change.previous_state@ + " => "@ + change.current_state@
}

/// The lines that report state changes, one for each, in order.
pub open spec fn state_change_lines(changes: Seq<InstanceStateChange>) -> Seq<Seq<char>> {
    Seq::new(changes.len(), |i: int| state_change_line(changes[i]))
}

/// Writes one line for each state change: the instance, the state it left
/// and the state it entered.
pub fn print_state_changes(state_changes: &Vec<InstanceStateChange>) -> (r: Vec<String>)
    ensures
        texts(r@) == state_change_lines(state_changes@),
{
    let mut lines: Vec<String> = Vec::new();
    let mut i: usize = 0;
    while i < state_changes.len()
        invariant
            i <= state_changes.len(),
            texts(lines@) == state_change_lines(state_changes@.take(i as int)),
        decreases state_changes.len() - i,
    {
        let change = &state_changes[i];
        let mut line = change.instance_id.clone();
        line.append(": ");
        line.append(change.previous_state.as_str());
        line.append(" => ");
        line.append(change.current_state.as_str());
        let ghost before = texts(lines@);
        lines.push(line);
        proof {
            assert(texts(lines@) =~= before.push(state_change_line(*change)));
            assert(state_change_lines(state_changes@.take(i + 1)) =~= state_change_lines(
                state_changes@.take(i as int),
            ).push(state_change_line(*change)));
        }
        i = i + 1;
    }
    proof {
        assert(state_changes@.take(state_changes.len() as int) =~= state_changes@);
    }
    lines
}

/// What a command reports of the state changes that the provider
/// returned: a line for each; an error of the command's kind, `No state
/// change returned`, where the provider returned no list at all.
pub open spec fn state_changes_reported(
    kind: CommandKind,
    name: Seq<char>,
    changes: Option<Vec<InstanceStateChange>>,
    result: Result<Vec<String>, AwsInstanceError>,
) -> bool {
    match changes {
        Some(list) => result matches Ok(lines) && texts(lines@) == state_change_lines(list@),
        None => result matches Err(error) && is_command_error(
            error,
            kind,
            name,
            "No state change returned"@,
        ),
    }
}

/// Reports the state changes that a start, stop or terminate call returned.
pub fn report_state_changes(
    kind: CommandKind,
    name: &str,
    changes: &Option<Vec<InstanceStateChange>>,
) -> (r: Result<Vec<String>, AwsInstanceError>)
    ensures
        state_changes_reported(kind, name@, *changes, r),
{
    match changes {
        Some(list) => Ok(print_state_changes(list)),
        None => Err(command_error(kind, name, "No state change returned")),
    }
}

/// The ids of a request that names one instance.
pub open spec fn names_one(instance_ids: Vec<String>, id: Seq<char>) -> bool {
    texts(instance_ids@) == seq![id]
}

/// A list that holds the one id.
pub fn one_id(id: String) -> (r: Vec<String>)
    ensures
        names_one(r, id@),
{
    let mut r: Vec<String> = Vec::new();
    r.push(id);
    proof {
        assert(texts(r@) =~= seq![id@]);
    }
    r
}

/// A response without reservations holds no instance, and a lookup on it
/// finds none.
pub proof fn lemma_no_reservations(result: DescribeInstancesResult)
    requires
        result.reservations matches Some(reservations) ==> reservations@.len() == 0,
    ensures
        instances_of(result) == Seq::<Instance>::empty(),
        first_instance(result) is None,
{
}

/// Flattening keeps the order: the instances of reservations laid end to
/// end are the instances of the first lot followed by those of the second.
pub proof fn lemma_flattened_add(a: Seq<Reservation>, b: Seq<Reservation>)
    ensures
        flattened(a + b) == flattened(a) + flattened(b),
    decreases b.len(),
{
    if b.len() == 0 {
        assert(a + b =~= a);
        assert(flattened(a) + flattened(b) =~= flattened(a));
    } else {
        assert((a + b).drop_last() =~= a + b.drop_last());
        assert((a + b).last() == b.last());
        lemma_flattened_add(a, b.drop_last());
        assert(flattened(a + b) =~= flattened(a) + flattened(b));
    }
}

/// One reservation alone flattens to its own instances.
pub proof fn lemma_flattened_one(reservation: Reservation)
    ensures
        flattened(seq![reservation]) == reservation_instances(reservation),
{
    let one = seq![reservation];
    assert(one.drop_last() =~= Seq::<Reservation>::empty());
    assert(flattened(one.drop_last()) =~= Seq::<Instance>::empty());
    assert(flattened(one) =~= reservation_instances(reservation));
}

/// How the provider groups the instances into reservations makes no
/// difference: a reservation can be split in two at any point, or two
/// neighbours merged, and the flattened list stays the same.
pub proof fn lemma_grouping_is_immaterial(
    before: Seq<Reservation>,
    whole: Reservation,
    first: Reservation,
    second: Reservation,
    after: Seq<Reservation>,
)
    requires
        reservation_instances(whole) == reservation_instances(first) + reservation_instances(
            second,
        ),
    ensures
        flattened(before + seq![whole] + after) == flattened(before + seq![first, second] + after),
{
    lemma_flattened_add(before + seq![whole], after);
    lemma_flattened_add(before, seq![whole]);
    lemma_flattened_add(before + seq![first, second], after);
    lemma_flattened_add(before, seq![first, second]);
    lemma_flattened_one(whole);
    lemma_flattened_one(first);
    assert(seq![first, second].drop_last() =~= seq![first]);
    assert(flattened(seq![first, second]) =~= reservation_instances(first)
        + reservation_instances(second));
}

/// The flattened list holds as many instances as the reservations hold
/// together.
pub open spec fn instance_count(reservations: Seq<Reservation>) -> nat
    decreases reservations.len(),
{
    if reservations.len() == 0 {
        0
    } else {
        instance_count(reservations.drop_last()) + reservation_instances(reservations.last()).len()
    }
}

/// Flattening loses no instance and adds none.
pub proof fn lemma_flattened_len(reservations: Seq<Reservation>)
    ensures
        flattened(reservations).len() == instance_count(reservations),
    decreases reservations.len(),
{
    if reservations.len() > 0 {
        lemma_flattened_len(reservations.drop_last());
    }
}

/// A lookup settles on the first instance of the first reservation, where
/// that reservation holds one, however many follow.
pub proof fn lemma_first_of_first(result: DescribeInstancesResult)
    requires
        result.reservations matches Some(reservations) && reservations@.len() > 0
            && reservation_instances(reservations@[0]).len() > 0,
    ensures
        first_instance(result) == Some(
            reservation_instances(result.reservations->Some_0@[0])[0],
        ),
{
    let reservations = result.reservations->Some_0@;
    let head = seq![reservations[0]];
    let tail = reservations.skip(1);
    assert(reservations =~= head + tail);
    lemma_flattened_add(head, tail);
    lemma_flattened_one(reservations[0]);
}

} // verus!
