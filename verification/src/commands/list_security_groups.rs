//! `list-security-groups`: the groups, and the rules of the one asked for.
use vstd::prelude::*;
use vstd::string::*;
use crate::ec2_wrapper::{
    describe_security_groups_exchange, Ec2Wrapper, Exchange, Reply, Request, Session,
};
use crate::error::{error_of_fault, AwsInstanceError};
use crate::model::{
    DescribeSecurityGroupsRequest, DescribeSecurityGroupsResult, Filter, IpPermission, IpRange,
    SecurityGroup,
};
use crate::text::{
    decimal, decimal_string, extend, join, joined, opt_text, pad, padded, push_line, str_eq,
    texts,
};

verus! {

/// The text of an optional field in a listing: the field, or `N/A`.
pub open spec fn or_na(field: Option<String>) -> Seq<char> {
    match field {
        Some(s) => s@,
        None => "N/A"@,
    }
}

/// Writes an optional field for a listing.
pub fn text_or_na(field: &Option<String>) -> (r: String)
    ensures
        r@ == or_na(*field),
{
    match field {
        Some(s) => s.clone(),
        None => String::from_str("N/A"),
    }
}

/// A line of the group table: three cells, left-aligned in 10, 25 and 35
/// characters, with a space between each two.
pub open spec fn group_cells(name: Seq<char>, id: Seq<char>, description: Seq<char>) -> Seq<
    char,
> {
    padded(name, 10) + " "@ + padded(id, 25) + " "@ + padded(description, 35)
}

fn cells(name: &str, id: &str, description: &str) -> (r: String)
    ensures
        r@ == group_cells(name@, id@, description@),
{
    let mut r = pad(name, 10);
    r.append(" ");
    r.append(pad(id, 25).as_str());
    r.append(" ");
    r.append(pad(description, 35).as_str());
    r
}

/// The heading of the group table.
pub open spec fn group_heading() -> Seq<char> {
    group_cells("Name"@, "Group ID"@, "Description"@)
}

/// The line of one group.
pub open spec fn group_row(group: SecurityGroup) -> Seq<char> {
    group_cells(or_na(group.group_name), or_na(group.group_id), or_na(group.description))
}

fn row_of(group: &SecurityGroup) -> (r: String)
    ensures
        r@ == group_row(*group),
{
    let name = text_or_na(&group.group_name);
    let id = text_or_na(&group.group_id);
    let description = text_or_na(&group.description);
    cells(name.as_str(), id.as_str(), description.as_str())
}

/// A port in a listing: its number, or `N/A`.
pub open spec fn port_text(port: Option<i64>) -> Seq<char> {
    match port {
        Some(n) => decimal(n as int),
        None => "N/A"@,
    }
}

fn port_string(port: Option<i64>) -> (r: String)
    ensures
        r@ == port_text(port),
{
    match port {
        Some(n) => decimal_string(n),
        None => String::from_str("N/A"),
    }
}

/// The ports of a rule: one number where the range begins and ends on the
/// same port, else both with a colon between.
pub open spec fn port_range(rule: IpPermission) -> Seq<char> {
    if port_text(rule.from_port) == port_text(rule.to_port) {
        port_text(rule.from_port)
    } else {
        port_text(rule.from_port) + ":"@ + port_text(rule.to_port)
    }
}

/// The address ranges of a rule, each as `or_na` writes it.
pub open spec fn range_texts(ranges: Seq<IpRange>) -> Seq<Seq<char>> {
    Seq::new(ranges.len(), |i: int| or_na(ranges[i].cidr_ip))
}

/// The address ranges of a rule in one cell: joined by a comma and a space;
/// `N/A` for a rule without a list of ranges.
pub open spec fn ranges_text(rule: IpPermission) -> Seq<char> {
    match rule.ip_ranges {
        Some(ranges) => joined(range_texts(ranges@), ", "@),
        None => "N/A"@,
    }
}

fn ranges_string(rule: &IpPermission) -> (r: String)
    ensures
        r@ == ranges_text(*rule),
{
    match &rule.ip_ranges {
        None => String::from_str("N/A"),
        Some(ranges) => {
            let mut parts: Vec<String> = Vec::new();
            let mut i: usize = 0;
            while i < ranges.len()
                invariant
                    i <= ranges.len(),
                    texts(parts@) == range_texts(ranges@.take(i as int)),
                decreases ranges.len() - i,
            {
                let part = text_or_na(&ranges[i].cidr_ip);
                let ghost before = texts(parts@);
                push_line(&mut parts, part);
                proof {
                    assert(range_texts(ranges@.take(i + 1)) =~= before.push(part@));
                }
                i = i + 1;
            }
            proof {
                assert(ranges@.take(ranges.len() as int) =~= ranges@);
            }
            join(&parts, ", ")
        },
    }
}

/// The line of one rule: four spaces, the ports in 10 characters, a space,
/// the address ranges in 15.
pub open spec fn rule_line(rule: IpPermission) -> Seq<char> {
    "    "@ + padded(port_range(rule), 10) + " "@ + padded(ranges_text(rule), 15)
}

fn rule_string(rule: &IpPermission) -> (r: String)
    ensures
        r@ == rule_line(*rule),
{
    let from = port_string(rule.from_port);
    let to = port_string(rule.to_port);
    let ports = if str_eq(from.as_str(), to.as_str()) {
        from
    } else {
        let mut both = from;
        both.append(":");
        both.append(to.as_str());
        both
    };
    let ranges = ranges_string(rule);
    let mut r = String::from_str("    ");
    r.append(pad(ports.as_str(), 10).as_str());
    r.append(" ");
    r.append(pad(ranges.as_str(), 15).as_str());
    r
}

/// The lines of a list of rules, one for each, in order; none for a group
/// without such a list.
pub open spec fn rule_lines(rules: Option<Vec<IpPermission>>) -> Seq<Seq<char>> {
    match rules {
        Some(list) => Seq::new(list@.len(), |i: int| rule_line(list@[i])),
        None => Seq::empty(),
    }
}

fn rule_strings(rules: &Option<Vec<IpPermission>>) -> (r: Vec<String>)
    ensures
        texts(r@) == rule_lines(*rules),
{
    let mut lines: Vec<String> = Vec::new();
    match rules {
        None => {
            proof {
                assert(texts(lines@) =~= rule_lines(*rules));
            }
        },
        Some(list) => {
            let mut i: usize = 0;
            while i < list.len()
                invariant
                    i <= list.len(),
                    texts(lines@) == Seq::new(i as nat, |k: int| rule_line(list@[k])),
                decreases list.len() - i,
            {
                let line = rule_string(&list[i]);
                let ghost before = texts(lines@);
                push_line(&mut lines, line);
                proof {
                    assert(Seq::new((i + 1) as nat, |k: int| rule_line(list@[k])) =~= before.push(
                        line@,
                    ));
                }
                i = i + 1;
            }
        },
    }
    lines
}

/// What is written of one group: its line alone, or, in detail, its line,
/// `  ingress:`, its ingress rules, `  egress:` and its egress rules.
pub open spec fn group_lines(group: SecurityGroup, detailed: bool) -> Seq<Seq<char>> {
    if detailed {
        seq![group_row(group), "  ingress:"@] + rule_lines(group.ip_permissions) + seq![
            "  egress:"@,
        ] + rule_lines(group.ip_permissions_egress)
    } else {
        seq![group_row(group)]
    }
}

fn group_strings(group: &SecurityGroup, detailed: bool) -> (r: Vec<String>)
    ensures
        texts(r@) == group_lines(*group, detailed),
{
    let mut lines: Vec<String> = Vec::new();
    push_line(&mut lines, row_of(group));
    if detailed {
        push_line(&mut lines, String::from_str("  ingress:"));
        extend(&mut lines, rule_strings(&group.ip_permissions));
        push_line(&mut lines, String::from_str("  egress:"));
        extend(&mut lines, rule_strings(&group.ip_permissions_egress));
        proof {
            assert(texts(lines@) =~= group_lines(*group, detailed));
        }
    } else {
        proof {
            assert(texts(lines@) =~= group_lines(*group, detailed));
        }
    }
    lines
}

/// What is written of a list of groups: each in turn.
pub open spec fn groups_lines(groups: Seq<SecurityGroup>, detailed: bool) -> Seq<Seq<char>>
    decreases groups.len(),
{
    if groups.len() == 0 {
        Seq::empty()
    } else {
        groups_lines(groups.drop_last(), detailed) + group_lines(groups.last(), detailed)
    }
}

/// The whole listing: the heading, then the groups of the response; the
/// heading alone when the response holds no list of groups.
pub open spec fn security_group_listing(
    response: DescribeSecurityGroupsResult,
    detailed: bool,
) -> Seq<Seq<char>> {
    seq![group_heading()] + match response.security_groups {
        Some(groups) => groups_lines(groups@, detailed),
        None => Seq::empty(),
    }
}

/// Writes the listing for a response. With `detailed` set, the rules of
/// each group follow its line.
pub fn security_group_table(response: &DescribeSecurityGroupsResult, detailed: bool) -> (r: Vec<
    String,
>)
    ensures
        texts(r@) == security_group_listing(*response, detailed),
{
    let mut lines: Vec<String> = Vec::new();
    push_line(&mut lines, cells("Name", "Group ID", "Description"));
    match &response.security_groups {
        None => {
            proof {
                assert(texts(lines@) =~= security_group_listing(*response, detailed));
            }
        },
        Some(groups) => {
            let mut i: usize = 0;
            proof {
                assert(texts(lines@) =~= seq![group_heading()] + groups_lines(
                    groups@.take(0),
                    detailed,
                ));
            }
            while i < groups.len()
                invariant
                    i <= groups.len(),
                    texts(lines@) == seq![group_heading()] + groups_lines(
                        groups@.take(i as int),
                        detailed,
                    ),
                decreases groups.len() - i,
            {
                let more = group_strings(&groups[i], detailed);
                extend(&mut lines, more);
                proof {
                    assert(groups@.take(i + 1).drop_last() =~= groups@.take(i as int));
                    assert(groups@.take(i + 1).last() == groups@[i as int]);
                    assert(texts(lines@) =~= seq![group_heading()] + groups_lines(
                        groups@.take(i + 1),
                        detailed,
                    ));
                }
                i = i + 1;
            }
            proof {
                assert(groups@.take(groups.len() as int) =~= groups@);
            }
        },
    }
    lines
}

/// Whether `request` asks for the group called `name` alone, or, without a
/// name, for every group.
pub open spec fn asks_for_group(
    request: DescribeSecurityGroupsRequest,
    name: Option<Seq<char>>,
) -> bool {
    match name {
        Some(wanted) => {
            &&& request.filters matches Some(filters)
            &&& filters@.len() == 1
            &&& filters@[0].name@ == "group-name"@
            &&& texts(filters@[0].values@) == seq![wanted]
        },
        None => request.filters is None,
    }
}

/// The request for the listing.
pub fn group_request(name: &Option<String>) -> (r: DescribeSecurityGroupsRequest)
    ensures
        asks_for_group(r, opt_text(*name)),
{
    match name {
        None => DescribeSecurityGroupsRequest { filters: None },
        Some(wanted) => {
            let mut values: Vec<String> = Vec::new();
            values.push(wanted.clone());
            let mut filters: Vec<Filter> = Vec::new();
            filters.push(Filter { name: String::from_str("group-name"), values });
            proof {
                assert(texts(filters@[0].values@) =~= seq![wanted@]);
            }
            DescribeSecurityGroupsRequest { filters: Some(filters) }
        },
    }
}

/// What the command comes to once the one call it makes is known: the call
/// asks for the named group, or for all; a fault is passed on as the error
/// of its kind; a response is written as a table, in detail exactly when a
/// name was given.
pub open spec fn listing_outcome(
    name: Option<Seq<char>>,
    calls: Seq<Exchange>,
    result: Result<Vec<String>, AwsInstanceError>,
) -> bool {
    &&& calls.len() == 1
    &&& calls[0].request matches Request::DescribeSecurityGroups(request)
    &&& asks_for_group(request, name)
    &&& match calls[0].reply {
        Ok(Reply::DescribeSecurityGroups(response)) => result matches Ok(lines) && texts(lines@)
            == security_group_listing(response, name is Some),
        Ok(_) => false,
        Err(fault) => result == Err::<Vec<String>, AwsInstanceError>(error_of_fault(fault)),
    }
}

/// Lists the security groups, or the one called `name` with its rules.
/// Returns the lines to print.
pub fn list_security_groups<C: Ec2Wrapper>(
    ec2_client: &mut Session<C>,
    name: &Option<String>,
) -> (r: Result<Vec<String>, AwsInstanceError>)
    ensures
        final(ec2_client).extends(old(ec2_client)),
        listing_outcome(opt_text(*name), final(ec2_client).since(old(ec2_client)), r),
{
    let request = group_request(name);
    let ghost asked = request;
    let reply = ec2_client.describe_security_groups(request);
    proof {
        let calls = ec2_client.since(old(ec2_client));
        assert(calls =~= seq![describe_security_groups_exchange(asked, reply)]);
    }
    match reply {
        Ok(response) => Ok(security_group_table(&response, name.is_some())),
        Err(fault) => Err(AwsInstanceError::from(fault)),
    }
}

} // verus!
