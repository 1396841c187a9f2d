//! The provider's data as this library reads and writes it: plain records
//! that mirror the EC2 requests and responses, field for field, as far as the
//! tool looks at them.
use vstd::prelude::*;

verus! {

/// A key and a value attached to a resource.
#[derive(Clone, Debug, PartialEq, Eq)]
pub struct Tag {
    pub key: Option<String>,
    pub value: Option<String>,
}

/// A security group as an instance names it.
#[derive(Clone, Debug, PartialEq, Eq)]
pub struct GroupIdentifier {
    pub group_id: Option<String>,
    pub group_name: Option<String>,
}

/// One virtual machine. The provider assigns `instance_id` and `image_id` to
/// every instance, so both are always there; `state` is the name of the
/// lifecycle state.
#[derive(Clone, Debug, PartialEq, Eq)]
pub struct Instance {
    pub instance_id: String,
    pub image_id: String,
    pub state: Option<String>,
    pub tags: Option<Vec<Tag>>,
    pub public_ip_address: Option<String>,
    pub public_dns_name: Option<String>,
    pub security_groups: Option<Vec<GroupIdentifier>>,
}

/// The instances that one launch request created.
#[derive(Clone, Debug, PartialEq, Eq)]
pub struct Reservation {
    pub instances: Option<Vec<Instance>>,
}

/// A restriction on what a describe call returns.
#[derive(Clone, Debug, PartialEq, Eq)]
pub struct Filter {
    pub name: String,
    pub values: Vec<String>,
}

#[derive(Clone, Debug, PartialEq, Eq)]
pub struct DescribeInstancesRequest {
    pub dry_run: Option<bool>,
    pub filters: Option<Vec<Filter>>,
}

#[derive(Clone, Debug, PartialEq, Eq)]
pub struct DescribeInstancesResult {
    pub reservations: Option<Vec<Reservation>>,
}

/// A machine image.
#[derive(Clone, Debug, PartialEq, Eq)]
pub struct Image {
    pub image_id: Option<String>,
    pub state: Option<String>,
    pub creation_date: Option<String>,
    pub name: Option<String>,
    pub description: Option<String>,
}

#[derive(Clone, Debug, PartialEq, Eq)]
pub struct DescribeImagesRequest {
    pub filters: Option<Vec<Filter>>,
}

#[derive(Clone, Debug, PartialEq, Eq)]
pub struct DescribeImagesResult {
    pub images: Option<Vec<Image>>,
}

/// An address range that a rule admits.
#[derive(Clone, Debug, PartialEq, Eq)]
pub struct IpRange {
    pub cidr_ip: Option<String>,
}

/// One ingress or egress rule of a security group.
#[derive(Clone, Debug, PartialEq, Eq)]
pub struct IpPermission {
    pub from_port: Option<i64>,
    pub to_port: Option<i64>,
    pub ip_ranges: Option<Vec<IpRange>>,
}

#[derive(Clone, Debug, PartialEq, Eq)]
pub struct SecurityGroup {
    pub group_name: Option<String>,
    pub group_id: Option<String>,
    pub description: Option<String>,
    pub ip_permissions: Option<Vec<IpPermission>>,
    pub ip_permissions_egress: Option<Vec<IpPermission>>,
}

#[derive(Clone, Debug, PartialEq, Eq)]
pub struct DescribeSecurityGroupsRequest {
    pub filters: Option<Vec<Filter>>,
}

#[derive(Clone, Debug, PartialEq, Eq)]
pub struct DescribeSecurityGroupsResult {
    pub security_groups: Option<Vec<SecurityGroup>>,
}

#[derive(Clone, Debug, PartialEq, Eq)]
pub struct IamInstanceProfileSpecification {
    pub name: Option<String>,
}

/// The tags to put on the resources of one kind that a launch creates.
#[derive(Clone, Debug, PartialEq, Eq)]
pub struct TagSpecification {
    pub resource_type: Option<String>,
    pub tags: Option<Vec<Tag>>,
}

#[derive(Clone, Debug, PartialEq, Eq)]
pub struct RunInstancesRequest {
    pub min_count: i64,
    pub max_count: i64,
    pub image_id: Option<String>,
    pub ebs_optimized: Option<bool>,
    pub iam_instance_profile: Option<IamInstanceProfileSpecification>,
    pub instance_type: Option<String>,
    pub key_name: Option<String>,
    pub security_group_ids: Option<Vec<String>>,
    pub tag_specifications: Option<Vec<TagSpecification>>,
}

#[derive(Clone, Debug, PartialEq, Eq)]
pub struct StartInstancesRequest {
    pub instance_ids: Vec<String>,
}

#[derive(Clone, Debug, PartialEq, Eq)]
pub struct StopInstancesRequest {
    pub instance_ids: Vec<String>,
}

#[derive(Clone, Debug, PartialEq, Eq)]
pub struct TerminateInstancesRequest {
    pub instance_ids: Vec<String>,
}

#[derive(Clone, Debug, PartialEq, Eq)]
pub struct CreateTagsRequest {
    pub resources: Vec<String>,
    pub tags: Vec<Tag>,
}

/// What the provider reports of one instance after a start, stop or
/// terminate call: its id and the names of the state it left and the state
/// it entered.
#[derive(Clone, Debug, PartialEq, Eq)]
pub struct InstanceStateChange {
    pub instance_id: String,
    pub previous_state: String,
    pub current_state: String,
}

#[derive(Clone, Debug, PartialEq, Eq)]
pub struct StartInstancesResult {
    pub starting_instances: Option<Vec<InstanceStateChange>>,
}

#[derive(Clone, Debug, PartialEq, Eq)]
pub struct StopInstancesResult {
    pub stopping_instances: Option<Vec<InstanceStateChange>>,
}

#[derive(Clone, Debug, PartialEq, Eq)]
pub struct TerminateInstancesResult {
    pub terminating_instances: Option<Vec<InstanceStateChange>>,
}

} // verus!
