//! The provider as the tool sees it: the eight calls it makes, and a session
//! that makes them and keeps account of each.
use vstd::prelude::*;
use crate::error::ServiceFault;
use crate::model::{
    CreateTagsRequest, DescribeImagesRequest, DescribeImagesResult, DescribeInstancesRequest,
    DescribeInstancesResult, DescribeSecurityGroupsRequest, DescribeSecurityGroupsResult,
    Reservation, RunInstancesRequest, StartInstancesRequest, StartInstancesResult,
    StopInstancesRequest, StopInstancesResult, TerminateInstancesRequest,
    TerminateInstancesResult,
};

verus! {

/// The calls into the provider that the tool needs. Nothing is assumed of an
/// implementation: whatever it returns, the commands deal with. Every call
/// needs the client for itself (`&mut self`), so none can be made on a client
/// that is only lent out for reading.
pub trait Ec2Wrapper {
    fn describe_images(&mut self, input: DescribeImagesRequest) -> Result<
        DescribeImagesResult,
        ServiceFault,
    >;

    fn describe_instances(&mut self, input: DescribeInstancesRequest) -> Result<
        DescribeInstancesResult,
        ServiceFault,
    >;

    fn describe_security_groups(&mut self, input: DescribeSecurityGroupsRequest) -> Result<
        DescribeSecurityGroupsResult,
        ServiceFault,
    >;

    fn run_instances(&mut self, input: RunInstancesRequest) -> Result<Reservation, ServiceFault>;

    fn start_instances(&mut self, input: StartInstancesRequest) -> Result<
        StartInstancesResult,
        ServiceFault,
    >;

    fn stop_instances(&mut self, input: StopInstancesRequest) -> Result<
        StopInstancesResult,
        ServiceFault,
    >;

    fn terminate_instances(&mut self, input: TerminateInstancesRequest) -> Result<
        TerminateInstancesResult,
        ServiceFault,
    >;

    fn create_tags(&mut self, input: CreateTagsRequest) -> Result<(), ServiceFault>;
}

/// A request, by the call that carries it.
pub enum Request {
    DescribeImages(DescribeImagesRequest),
    DescribeInstances(DescribeInstancesRequest),
    DescribeSecurityGroups(DescribeSecurityGroupsRequest),
    RunInstances(RunInstancesRequest),
    StartInstances(StartInstancesRequest),
    StopInstances(StopInstancesRequest),
    TerminateInstances(TerminateInstancesRequest),
    CreateTags(CreateTagsRequest),
}

/// What a call that succeeded returned.
pub enum Reply {
    DescribeImages(DescribeImagesResult),
    DescribeInstances(DescribeInstancesResult),
    DescribeSecurityGroups(DescribeSecurityGroupsResult),
    RunInstances(Reservation),
    StartInstances(StartInstancesResult),
    StopInstances(StopInstancesResult),
    TerminateInstances(TerminateInstancesResult),
    CreateTags,
}

/// One call: what was asked and what came back.
pub struct Exchange {
    pub request: Request,
    pub reply: Result<Reply, ServiceFault>,
}

/// A client together with the record of every call made on it, oldest
/// first. The record exists in proofs only.
///
/// The record is the whole account. The session owns the client and lends it
/// out for reading alone, and a call needs it for writing; so whoever holds a
/// session can call the provider through the methods of the session only, and
/// each of them adds to the record.
pub struct Session<C: Ec2Wrapper> {
    client: C,
    log: Ghost<Seq<Exchange>>,
}

/// The record of one `describe_images` call.
pub open spec fn describe_images_exchange(input: DescribeImagesRequest, r: Result<DescribeImagesResult, ServiceFault>) -> Exchange {
    Exchange {
        request: Request::DescribeImages(input),
        reply: match r {
            Ok(x) => Ok(Reply::DescribeImages(x)),
            Err(e) => Err(e),
        },
    }
}

/// The record of one `describe_instances` call.
pub open spec fn describe_instances_exchange(input: DescribeInstancesRequest, r: Result<DescribeInstancesResult, ServiceFault>) -> Exchange {
    Exchange {
        request: Request::DescribeInstances(input),
        reply: match r {
            Ok(x) => Ok(Reply::DescribeInstances(x)),
            Err(e) => Err(e),
        },
    }
}

/// The record of one `describe_security_groups` call.
pub open spec fn describe_security_groups_exchange(input: DescribeSecurityGroupsRequest, r: Result<DescribeSecurityGroupsResult, ServiceFault>) -> Exchange {
    Exchange {
        request: Request::DescribeSecurityGroups(input),
        reply: match r {
            Ok(x) => Ok(Reply::DescribeSecurityGroups(x)),
            Err(e) => Err(e),
        },
    }
}

/// The record of one `run_instances` call.
pub open spec fn run_instances_exchange(input: RunInstancesRequest, r: Result<Reservation, ServiceFault>) -> Exchange {
    Exchange {
        request: Request::RunInstances(input),
        reply: match r {
            Ok(x) => Ok(Reply::RunInstances(x)),
            Err(e) => Err(e),
        },
    }
}

/// The record of one `start_instances` call.
pub open spec fn start_instances_exchange(input: StartInstancesRequest, r: Result<StartInstancesResult, ServiceFault>) -> Exchange {
    Exchange {
        request: Request::StartInstances(input),
        reply: match r {
            Ok(x) => Ok(Reply::StartInstances(x)),
            Err(e) => Err(e),
        },
    }
}

/// The record of one `stop_instances` call.
pub open spec fn stop_instances_exchange(input: StopInstancesRequest, r: Result<StopInstancesResult, ServiceFault>) -> Exchange {
    Exchange {
        request: Request::StopInstances(input),
        reply: match r {
            Ok(x) => Ok(Reply::StopInstances(x)),
            Err(e) => Err(e),
        },
    }
}

/// The record of one `terminate_instances` call.
pub open spec fn terminate_instances_exchange(input: TerminateInstancesRequest, r: Result<TerminateInstancesResult, ServiceFault>) -> Exchange {
    Exchange {
        request: Request::TerminateInstances(input),
        reply: match r {
            Ok(x) => Ok(Reply::TerminateInstances(x)),
            Err(e) => Err(e),
        },
    }
}

/// The record of one `create_tags` call.
pub open spec fn create_tags_exchange(input: CreateTagsRequest, r: Result<(), ServiceFault>) -> Exchange {
    Exchange {
        request: Request::CreateTags(input),
        reply: match r {
            Ok(x) => Ok(Reply::CreateTags),
            Err(e) => Err(e),
        },
    }
}

impl<C: Ec2Wrapper> Session<C> {
    /// Every call made so far.
    pub closed spec fn log(&self) -> Seq<Exchange> {
        self.log@
    }

    /// The client that the session holds and makes its calls on. A call may
    /// change it.
    pub closed spec fn wrapped(&self) -> C {
        self.client
    }

    /// The calls made since the session was in state `before`.
    pub open spec fn since(&self, before: &Self) -> Seq<Exchange> {
        self.log().skip(before.log().len() as int)
    }

    /// Whether this session is `before` with further calls made.
    pub open spec fn extends(&self, before: &Self) -> bool {
        before.log().is_prefix_of(self.log())
    }

    /// A session that has made no call yet.
    pub fn new(client: C) -> (s: Self)
        ensures
            s.log() == Seq::<Exchange>::empty(),
            s.wrapped() == client,
    {
        Session { client, log: Ghost(Seq::empty()) }
    }

    /// The client, for reading. No call can be made on it.
    pub fn client(&self) -> (r: &C)
        ensures
            *r == self.wrapped(),
    {
        &self.client
    }

    /// Ends the session and hands the client back.
    pub fn into_client(self) -> (r: C)
        ensures
            r == self.wrapped(),
    {
        self.client
    }

    /// Makes the call and records it.
    pub fn describe_images(&mut self, input: DescribeImagesRequest) -> (r: Result<DescribeImagesResult, ServiceFault>)
        ensures
            final(self).log() == old(self).log().push(describe_images_exchange(input, r)),
    {
        let ghost asked = input;
        let r = self.client.describe_images(input);
        proof {
            self.log@ = self.log@.push(describe_images_exchange(asked, r));
        }
        r
    }

    /// Makes the call and records it.
    pub fn describe_instances(&mut self, input: DescribeInstancesRequest) -> (r: Result<DescribeInstancesResult, ServiceFault>)
        ensures
            final(self).log() == old(self).log().push(describe_instances_exchange(input, r)),
    {
        let ghost asked = input;
        let r = self.client.describe_instances(input);
        proof {
            self.log@ = self.log@.push(describe_instances_exchange(asked, r));
        }
        r
    }

    /// Makes the call and records it.
    pub fn describe_security_groups(&mut self, input: DescribeSecurityGroupsRequest) -> (r: Result<DescribeSecurityGroupsResult, ServiceFault>)
        ensures
            final(self).log() == old(self).log().push(describe_security_groups_exchange(input, r)),
    {
        let ghost asked = input;
        let r = self.client.describe_security_groups(input);
        proof {
            self.log@ = self.log@.push(describe_security_groups_exchange(asked, r));
        }
        r
    }

    /// Makes the call and records it.
    pub fn run_instances(&mut self, input: RunInstancesRequest) -> (r: Result<Reservation, ServiceFault>)
        ensures
            final(self).log() == old(self).log().push(run_instances_exchange(input, r)),
    {
        let ghost asked = input;
        let r = self.client.run_instances(input);
        proof {
            self.log@ = self.log@.push(run_instances_exchange(asked, r));
        }
        r
    }

    /// Makes the call and records it.
    pub fn start_instances(&mut self, input: StartInstancesRequest) -> (r: Result<StartInstancesResult, ServiceFault>)
        ensures
            final(self).log() == old(self).log().push(start_instances_exchange(input, r)),
    {
        let ghost asked = input;
        let r = self.client.start_instances(input);
        proof {
            self.log@ = self.log@.push(start_instances_exchange(asked, r));
        }
        r
    }

    /// Makes the call and records it.
    pub fn stop_instances(&mut self, input: StopInstancesRequest) -> (r: Result<StopInstancesResult, ServiceFault>)
        ensures
            final(self).log() == old(self).log().push(stop_instances_exchange(input, r)),
    {
        let ghost asked = input;
        let r = self.client.stop_instances(input);
        proof {
            self.log@ = self.log@.push(stop_instances_exchange(asked, r));
        }
        r
    }

    /// Makes the call and records it.
    pub fn terminate_instances(&mut self, input: TerminateInstancesRequest) -> (r: Result<TerminateInstancesResult, ServiceFault>)
        ensures
            final(self).log() == old(self).log().push(terminate_instances_exchange(input, r)),
    {
        let ghost asked = input;
        let r = self.client.terminate_instances(input);
        proof {
            self.log@ = self.log@.push(terminate_instances_exchange(asked, r));
        }
        r
    }

    /// Makes the call and records it.
    pub fn create_tags(&mut self, input: CreateTagsRequest) -> (r: Result<(), ServiceFault>)
        ensures
            final(self).log() == old(self).log().push(create_tags_exchange(input, r)),
    {
        let ghost asked = input;
        let r = self.client.create_tags(input);
        proof {
            self.log@ = self.log@.push(create_tags_exchange(asked, r));
        }
        r
    }
}

} // verus!
