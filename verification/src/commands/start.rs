//! `start`: starts the instance that goes by a name.
use vstd::prelude::*;
use crate::ec2_wrapper::{start_instances_exchange, Ec2Wrapper, Exchange, Reply, Request, Session};
use crate::error::{command_error, error_of_fault, is_command_error, AwsInstanceError, CommandKind};
use crate::model::StartInstancesRequest;
use crate::util::{
    get_instance_by_name, is_lookup, looked_up, names_one, one_id, report_state_changes,
    state_changes_reported,
};

verus! {

/// What the command comes to once its calls are known. The first call
/// looks the name up. An error there is passed on; no instance of that name
/// is an error, `Instance not found`; neither makes a second call. Else the
/// second call starts that instance, by its id, and the command reports the
/// state changes that come back, or passes on the fault.
pub open spec fn start_outcome(
    name: Seq<char>,
    calls: Seq<Exchange>,
    result: Result<Vec<String>, AwsInstanceError>,
) -> bool {
    &&& calls.len() >= 1
    &&& is_lookup(calls[0], name)
    &&& match looked_up(calls[0]) {
        Err(error) => calls.len() == 1 && result == Err::<Vec<String>, AwsInstanceError>(error),
        Ok(None) => calls.len() == 1 && (result matches Err(error) && is_command_error(
            error,
            CommandKind::Start,
            name,
            "Instance not found"@,
        )),
        Ok(Some(instance)) => {
            &&& calls.len() == 2
            &&& calls[1].request matches Request::StartInstances(request)
            &&& names_one(request.instance_ids, instance.instance_id@)
            &&& match calls[1].reply {
                Ok(Reply::StartInstances(response)) => state_changes_reported(
                    CommandKind::Start,
                    name,
                    response.starting_instances,
                    result,
                ),
                Ok(_) => false,
                Err(fault) => result == Err::<Vec<String>, AwsInstanceError>(
                    error_of_fault(fault),
                ),
            }
        },
    }
}

/// Starts the instance called `name`. Returns the lines that report the
/// state changes.
pub fn start<C: Ec2Wrapper>(ec2_client: &mut Session<C>, name: &str) -> (r: Result<
    Vec<String>,
    AwsInstanceError,
>)
    ensures
        final(ec2_client).extends(old(ec2_client)),
        start_outcome(name@, final(ec2_client).since(old(ec2_client)), r),
{
    let found = get_instance_by_name(ec2_client, name);
    let ghost lookup = ec2_client.since(old(ec2_client))[0];
    match found {
        Err(error) => Err(error),
        Ok(None) => Err(command_error(CommandKind::Start, name, "Instance not found")),
        Ok(Some(instance)) => {
            let request = StartInstancesRequest { instance_ids: one_id(instance.instance_id) };
            let ghost asked = request;
            let reply = ec2_client.start_instances(request);
            proof {
                let calls = ec2_client.since(old(ec2_client));
                assert(calls =~= seq![lookup, start_instances_exchange(asked, reply)]);
            }
            match reply {
                Ok(response) => report_state_changes(
                    CommandKind::Start,
                    name,
                    &response.starting_instances,
                ),
                Err(fault) => Err(AwsInstanceError::from(fault)),
            }
        },
    }
}

} // verus!
