//! `destroy`: gives up the name of an instance and terminates it.
use vstd::prelude::*;
use vstd::string::*;
use crate::ec2_wrapper::{
    create_tags_exchange, terminate_instances_exchange, Ec2Wrapper, Exchange, Reply, Request,
    Session,
};
use crate::error::{command_error, error_of_fault, is_command_error, AwsInstanceError, CommandKind};
use crate::model::{CreateTagsRequest, Tag, TerminateInstancesRequest};
use crate::text::{opt_text, texts};
use crate::util::{
    get_instance_by_name, is_lookup, looked_up, names_one, one_id, report_state_changes,
    state_changes_reported,
};

verus! {

/// The name that an instance called `name` carries once it is destroyed.
pub open spec fn terminated_name(name: Seq<char>) -> Seq<char> {
    name + "-terminated"@
}

/// Whether `request` sets the `Name` tag of the one instance `id` to the
/// name for a destroyed instance, and does nothing else.
pub open spec fn renames(request: CreateTagsRequest, id: Seq<char>, name: Seq<char>) -> bool {
    &&& texts(request.resources@) == seq![id]
    &&& request.tags@.len() == 1
    &&& opt_text(request.tags@[0].key) == Some("Name"@)
    &&& opt_text(request.tags@[0].value) == Some(terminated_name(name))
}

/// The request that takes the name off an instance.
pub fn rename_request(id: &str, name: &str) -> (r: CreateTagsRequest)
    ensures
        renames(r, id@, name@),
{
    let mut value = String::from_str(name);
    value.append("-terminated");
    let mut tags: Vec<Tag> = Vec::new();
    tags.push(Tag { key: Some(String::from_str("Name")), value: Some(value) });
    let mut resources: Vec<String> = Vec::new();
    resources.push(String::from_str(id));
    proof {
        assert(texts(resources@) =~= seq![id@]);
    }
    CreateTagsRequest { resources, tags }
}

/// What the command comes to once its calls are known. The first call
/// looks the name up. An error there is passed on; no instance of that name
/// is an error, `Instance not found`; neither makes a further call. Else
/// the second call renames the instance; a fault there is passed on and
/// ends the command. Else the third call terminates the instance, by its
/// id, and the command reports the state changes that come back, or passes
/// on the fault. Whatever the third call brings, the rename stands.
pub open spec fn destroy_outcome(
    name: Seq<char>,
    calls: Seq<Exchange>,
    result: Result<Vec<String>, AwsInstanceError>,
) -> bool {
    &&& calls.len() >= 1
    &&& is_lookup(calls[0], name)
    &&& match looked_up(calls[0]) {
        Err(error) => calls.len() == 1 && result == Err::<Vec<String>, AwsInstanceError>(error),
        Ok(None) => calls.len() == 1 && (result matches Err(error) && is_command_error(
            error,
            CommandKind::Destroy,
            name,
            "Instance not found"@,
        )),
        Ok(Some(instance)) => {
            &&& calls.len() >= 2
            &&& calls[1].request matches Request::CreateTags(tagging)
            &&& renames(tagging, instance.instance_id@, name)
            &&& match calls[1].reply {
                Err(fault) => calls.len() == 2 && result == Err::<Vec<String>, AwsInstanceError>(
                    error_of_fault(fault),
                ),
                Ok(_) => {
                    &&& calls.len() == 3
                    &&& calls[2].request matches Request::TerminateInstances(request)
                    &&& names_one(request.instance_ids, instance.instance_id@)
                    &&& match calls[2].reply {
                        Ok(Reply::TerminateInstances(response)) => state_changes_reported(
                            CommandKind::Destroy,
                            name,
                            response.terminating_instances,
                            result,
                        ),
                        Ok(_) => false,
                        Err(fault) => result == Err::<Vec<String>, AwsInstanceError>(
                            error_of_fault(fault),
                        ),
                    }
                },
            }
        },
    }
}

/// Destroys the instance called `name`: renames it, so that the name is
/// free at once, then terminates it. Returns the lines that report the state
/// changes.
pub fn destroy_instance<C: Ec2Wrapper>(ec2_client: &mut Session<C>, name: &str) -> (r: Result<
    Vec<String>,
    AwsInstanceError,
>)
    ensures
        final(ec2_client).extends(old(ec2_client)),
        destroy_outcome(name@, final(ec2_client).since(old(ec2_client)), r),
{
    let found = get_instance_by_name(ec2_client, name);
    let ghost lookup = ec2_client.since(old(ec2_client))[0];
    match found {
        Err(error) => Err(error),
        Ok(None) => Err(command_error(CommandKind::Destroy, name, "Instance not found")),
        Ok(Some(instance)) => {
            let tagging = rename_request(instance.instance_id.as_str(), name);
            let ghost tagged = tagging;
            let renamed = ec2_client.create_tags(tagging);
            proof {
                let calls = ec2_client.since(old(ec2_client));
                assert(calls =~= seq![lookup, create_tags_exchange(tagged, renamed)]);
            }
            match renamed {
                Err(fault) => Err(AwsInstanceError::from(fault)),
                Ok(_) => {
                    let request = TerminateInstancesRequest {
                        instance_ids: one_id(instance.instance_id),
                    };
                    let ghost asked = request;
                    let reply = ec2_client.terminate_instances(request);
                    proof {
                        let calls = ec2_client.since(old(ec2_client));
                        assert(calls =~= seq![
                            lookup,
                            create_tags_exchange(tagged, renamed),
                            terminate_instances_exchange(asked, reply),
                        ]);
                    }
                    match reply {
                        Ok(response) => report_state_changes(
                            CommandKind::Destroy,
                            name,
                            &response.terminating_instances,
                        ),
                        Err(fault) => Err(AwsInstanceError::from(fault)),
                    }
                },
            }
        },
    }
}

/// Where the command succeeds it has made exactly three calls, in this
/// order: the lookup of the name, the call that tags the instance found
/// with `Name` set to the name followed by `-terminated`, and the call that
/// terminates that same instance.
pub proof fn lemma_destroy_calls(
    name: Seq<char>,
    calls: Seq<Exchange>,
    result: Result<Vec<String>, AwsInstanceError>,
)
    requires
        destroy_outcome(name, calls, result),
        result is Ok,
    ensures
        calls.len() == 3,
        is_lookup(calls[0], name),
        looked_up(calls[0]) matches Ok(Some(instance)) && (calls[1].request matches Request::CreateTags(
            tagging,
        ) && renames(tagging, instance.instance_id@, name)) && (calls[2].request matches Request::TerminateInstances(
            request,
        ) && names_one(request.instance_ids, instance.instance_id@)),
{
}

/// Where the terminate call comes back without a list of state changes, the
/// command fails with `No state change returned`. The rename has been made
/// by then, and no call follows that would undo it.
pub proof fn lemma_rename_is_not_rolled_back(
    name: Seq<char>,
    calls: Seq<Exchange>,
    result: Result<Vec<String>, AwsInstanceError>,
)
    requires
        destroy_outcome(name, calls, result),
        calls.len() >= 3,
        calls[2].reply matches Ok(Reply::TerminateInstances(response))
            && response.terminating_instances is None,
    ensures
        result matches Err(error) && is_command_error(
            error,
            CommandKind::Destroy,
            name,
            "No state change returned"@,
        ),
        calls.len() == 3,
        calls[1].request is CreateTags,
        calls[1].reply is Ok,
{
}

} // verus!
