use vstd::prelude::*;
use std::sync::Arc;
use crate::aws::iam::{num, number, tags_json, tags_spec};
use crate::aws::record::{entry_if, opt_int, opt_text, push_one, push_opt_int, push_opt_text, text_or_null, text_or_null_json, texts_json};
use crate::json::{insert_entry, insert_spec, jv_entries, jv_list, push_item, text, text_array, Json, JsonV, lemma_jv_list};
use crate::models::request::{target_on, ScanConfig};
use crate::aws::progress::{events_view, ScanProgress};
use crate::aws::targets::{error_of, listed_view, outcome, outcome_of, outcome_view, record_targets, targets_spec, targets_view, OutcomeV, TargetOutcome};

verus! {

/// An EC2 instance as described by AWS.
#[derive(Debug)]
pub struct Ec2InstanceInfo {
    pub instance_id: String,
    pub instance_type: Option<String>,
    pub state: Option<String>,
    pub ami_id: Option<String>,
    pub vpc_id: Option<String>,
    pub subnet_id: Option<String>,
    pub private_ip: Option<String>,
    pub public_ip: Option<String>,
    pub key_name: Option<String>,
    pub iam_instance_profile: Option<String>,
    pub security_groups: Vec<String>,
    pub tags: Vec<(String, String)>,
}

/// A VPC as described by AWS.
#[derive(Debug)]
pub struct VpcInfo {
    pub vpc_id: String,
    pub cidr_block: Option<String>,
    pub state: Option<String>,
    pub enable_dns_support: bool,
    pub enable_dns_hostnames: bool,
    pub instance_tenancy: Option<String>,
    pub tags: Vec<(String, String)>,
}

/// A subnet as described by AWS.
#[derive(Debug)]
pub struct SubnetInfo {
    pub subnet_id: String,
    pub vpc_id: String,
    pub cidr_block: Option<String>,
    pub availability_zone: Option<String>,
    pub map_public_ip_on_launch: bool,
    pub tags: Vec<(String, String)>,
}

/// A route table as described by AWS.
#[derive(Debug)]
pub struct RouteTableInfo {
    pub route_table_id: String,
    pub vpc_id: String,
    pub routes: Vec<RouteInfo>,
    pub associations: Vec<RouteTableAssociationInfo>,
    pub tags: Vec<(String, String)>,
}

/// One route of a route table.
#[derive(Debug)]
pub struct RouteInfo {
    pub destination_cidr_block: Option<String>,
    pub gateway_id: Option<String>,
    pub nat_gateway_id: Option<String>,
    pub network_interface_id: Option<String>,
    pub transit_gateway_id: Option<String>,
    pub vpc_peering_connection_id: Option<String>,
}

/// The association of a route table with a subnet.
#[derive(Debug)]
pub struct RouteTableAssociationInfo {
    pub route_table_association_id: String,
    pub subnet_id: Option<String>,
    pub main: bool,
}

/// A security group as described by AWS.
#[derive(Debug)]
pub struct SecurityGroupInfo {
    pub group_id: String,
    pub group_name: String,
    pub description: Option<String>,
    pub vpc_id: String,
    pub ingress_rules: Vec<SecurityGroupRuleInfo>,
    pub egress_rules: Vec<SecurityGroupRuleInfo>,
    pub tags: Vec<(String, String)>,
}

/// One rule of a security group.
#[derive(Debug)]
pub struct SecurityGroupRuleInfo {
    pub protocol: String,
    pub from_port: Option<i32>,
    pub to_port: Option<i32>,
    pub cidr_blocks: Vec<String>,
    pub source_security_group_id: Option<String>,
    pub description: Option<String>,
}

/// A network ACL as described by AWS.
#[derive(Debug)]
pub struct NetworkAclInfo {
    pub network_acl_id: String,
    pub vpc_id: String,
    pub is_default: bool,
    pub entries: Vec<NetworkAclEntryInfo>,
    pub associations: Vec<String>,
    pub tags: Vec<(String, String)>,
}

/// One entry of a network ACL.
#[derive(Debug)]
pub struct NetworkAclEntryInfo {
    pub rule_number: i32,
    pub protocol: String,
    pub rule_action: String,
    pub egress: bool,
    pub cidr_block: Option<String>,
    pub from_port: Option<i32>,
    pub to_port: Option<i32>,
}

/// An internet gateway as described by AWS.
#[derive(Debug)]
pub struct InternetGatewayInfo {
    pub internet_gateway_id: String,
    pub attachments: Vec<IgwAttachmentInfo>,
    pub tags: Vec<(String, String)>,
}

/// The attachment of an internet gateway to a VPC.
#[derive(Debug)]
pub struct IgwAttachmentInfo {
    pub vpc_id: String,
    pub state: String,
}

/// A NAT gateway as described by AWS.
#[derive(Debug)]
pub struct NatGatewayInfo {
    pub nat_gateway_id: String,
    pub vpc_id: Option<String>,
    pub subnet_id: Option<String>,
    pub state: Option<String>,
    pub connectivity_type: Option<String>,
    pub allocation_id: Option<String>,
    pub public_ip: Option<String>,
    pub private_ip: Option<String>,
    pub tags: Vec<(String, String)>,
}

/// An Elastic IP address as described by AWS.
#[derive(Debug)]
pub struct ElasticIpInfo {
    pub allocation_id: String,
    pub public_ip: Option<String>,
    pub association_id: Option<String>,
    pub instance_id: Option<String>,
    pub network_interface_id: Option<String>,
    pub domain: Option<String>,
    pub tags: Vec<(String, String)>,
}

/// The EC2 calls a scan makes; implemented over the AWS SDK by the
/// application and by test doubles.
pub trait Ec2ClientOps {
    fn describe_instances(&self) -> Result<Vec<Ec2InstanceInfo>, String>;

    fn describe_vpcs(&self) -> Result<Vec<VpcInfo>, String>;

    fn describe_subnets(&self) -> Result<Vec<SubnetInfo>, String>;

    fn describe_route_tables(&self) -> Result<Vec<RouteTableInfo>, String>;

    fn describe_security_groups(&self) -> Result<Vec<SecurityGroupInfo>, String>;

    fn describe_network_acls(&self) -> Result<Vec<NetworkAclInfo>, String>;

    fn describe_internet_gateways(&self) -> Result<Vec<InternetGatewayInfo>, String>;

    fn describe_nat_gateways(&self) -> Result<Vec<NatGatewayInfo>, String>;

    fn describe_addresses(&self) -> Result<Vec<ElasticIpInfo>, String>;
}

/// The scan record of an instance.
pub open spec fn instance_spec(v: Ec2InstanceInfo) -> JsonV {
    JsonV::Object(Seq::empty() + seq![("instance_id"@, JsonV::Str(v.instance_id@))] + opt_text("instance_type"@, v.instance_type) + opt_text("state"@, v.state) + opt_text("ami_id"@, v.ami_id) + opt_text("vpc_id"@, v.vpc_id) + opt_text("subnet_id"@, v.subnet_id) + opt_text("private_ip"@, v.private_ip) + opt_text("public_ip"@, v.public_ip) + opt_text("key_name"@, v.key_name) + opt_text("iam_instance_profile"@, v.iam_instance_profile) + entry_if(v.security_groups@.len() > 0, "security_groups"@, texts_json(v.security_groups@)) + entry_if(v.tags@.len() > 0, "tags"@, tags_spec(v.tags@)))
}

/// The scan record of an instance.
#[verifier::rlimit(30)]
pub fn instance_json(v: &Ec2InstanceInfo) -> (r: Json)
    ensures
        r@ == instance_spec(*v),
{
    let mut e: Vec<(String, Json)> = Vec::new();
    assert(jv_entries(e@) =~= Seq::<(Seq<char>, JsonV)>::empty());
    let ghost p0 = jv_entries(e@);
    push_one(&mut e, "instance_id", text(v.instance_id.as_str()));
    assert(jv_entries(e@) =~= p0 + seq![("instance_id"@, JsonV::Str(v.instance_id@))]);
    let ghost p1 = jv_entries(e@);
    push_opt_text(&mut e, "instance_type", &v.instance_type);
    assert(jv_entries(e@) =~= p1 + opt_text("instance_type"@, v.instance_type));
    let ghost p2 = jv_entries(e@);
    push_opt_text(&mut e, "state", &v.state);
    assert(jv_entries(e@) =~= p2 + opt_text("state"@, v.state));
    let ghost p3 = jv_entries(e@);
    push_opt_text(&mut e, "ami_id", &v.ami_id);
    assert(jv_entries(e@) =~= p3 + opt_text("ami_id"@, v.ami_id));
    let ghost p4 = jv_entries(e@);
    push_opt_text(&mut e, "vpc_id", &v.vpc_id);
    assert(jv_entries(e@) =~= p4 + opt_text("vpc_id"@, v.vpc_id));
    let ghost p5 = jv_entries(e@);
    push_opt_text(&mut e, "subnet_id", &v.subnet_id);
    assert(jv_entries(e@) =~= p5 + opt_text("subnet_id"@, v.subnet_id));
    let ghost p6 = jv_entries(e@);
    push_opt_text(&mut e, "private_ip", &v.private_ip);
    assert(jv_entries(e@) =~= p6 + opt_text("private_ip"@, v.private_ip));
    let ghost p7 = jv_entries(e@);
    push_opt_text(&mut e, "public_ip", &v.public_ip);
    assert(jv_entries(e@) =~= p7 + opt_text("public_ip"@, v.public_ip));
    let ghost p8 = jv_entries(e@);
    push_opt_text(&mut e, "key_name", &v.key_name);
    assert(jv_entries(e@) =~= p8 + opt_text("key_name"@, v.key_name));
    let ghost p9 = jv_entries(e@);
    push_opt_text(&mut e, "iam_instance_profile", &v.iam_instance_profile);
    assert(jv_entries(e@) =~= p9 + opt_text("iam_instance_profile"@, v.iam_instance_profile));
    let ghost p10 = jv_entries(e@);
    if v.security_groups.len() > 0 {
        push_one(&mut e, "security_groups", text_array(&v.security_groups));
    }
    assert(jv_entries(e@) =~= p10 + entry_if(v.security_groups@.len() > 0, "security_groups"@, texts_json(v.security_groups@)));
    let ghost p11 = jv_entries(e@);
    if v.tags.len() > 0 {
        push_one(&mut e, "tags", tags_json(&v.tags));
    }
    assert(jv_entries(e@) =~= p11 + entry_if(v.tags@.len() > 0, "tags"@, tags_spec(v.tags@)));
    Json::Object(e)
}

/// The records of a list, in order.
pub fn instance_list(v: &Vec<Ec2InstanceInfo>) -> (r: Vec<Json>)
    ensures
        jv_list(r@) == v@.map_values(|x: Ec2InstanceInfo| instance_spec(x)),
{
    let mut out: Vec<Json> = Vec::new();
    let mut i: usize = 0;
    assert(v@.take(0).map_values(|x: Ec2InstanceInfo| instance_spec(x)) =~= Seq::<JsonV>::empty());
    while i < v.len()
        invariant
            i <= v.len(),
            jv_list(out@) == v@.take(i as int).map_values(|x: Ec2InstanceInfo| instance_spec(x)),
        decreases v.len() - i,
    {
        push_item(&mut out, instance_json(&v[i]));
        assert(v@.take(i + 1).map_values(|x: Ec2InstanceInfo| instance_spec(x)) =~= v@.take(i as int).map_values(
            |x: Ec2InstanceInfo| instance_spec(x),
        ).push(instance_spec(v@[i as int])));
        i = i + 1;
    }
    assert(v@.take(v.len() as int) =~= v@);
    out
}

/// The scan record of a VPC.
pub open spec fn vpc_spec(v: VpcInfo) -> JsonV {
    JsonV::Object(Seq::empty() + seq![("vpc_id"@, JsonV::Str(v.vpc_id@))] + seq![("enable_dns_support"@, JsonV::Bool(v.enable_dns_support))] + seq![("enable_dns_hostnames"@, JsonV::Bool(v.enable_dns_hostnames))] + opt_text("cidr_block"@, v.cidr_block) + opt_text("state"@, v.state) + opt_text("instance_tenancy"@, v.instance_tenancy) + entry_if(v.tags@.len() > 0, "tags"@, tags_spec(v.tags@)))
}

/// The scan record of a VPC.
pub fn vpc_json(v: &VpcInfo) -> (r: Json)
    ensures
        r@ == vpc_spec(*v),
{
    let mut e: Vec<(String, Json)> = Vec::new();
    assert(jv_entries(e@) =~= Seq::<(Seq<char>, JsonV)>::empty());
    let ghost p0 = jv_entries(e@);
    push_one(&mut e, "vpc_id", text(v.vpc_id.as_str()));
    assert(jv_entries(e@) =~= p0 + seq![("vpc_id"@, JsonV::Str(v.vpc_id@))]);
    let ghost p1 = jv_entries(e@);
    push_one(&mut e, "enable_dns_support", Json::Bool(v.enable_dns_support));
    assert(jv_entries(e@) =~= p1 + seq![("enable_dns_support"@, JsonV::Bool(v.enable_dns_support))]);
    let ghost p2 = jv_entries(e@);
    push_one(&mut e, "enable_dns_hostnames", Json::Bool(v.enable_dns_hostnames));
    assert(jv_entries(e@) =~= p2 + seq![("enable_dns_hostnames"@, JsonV::Bool(v.enable_dns_hostnames))]);
    let ghost p3 = jv_entries(e@);
    push_opt_text(&mut e, "cidr_block", &v.cidr_block);
    assert(jv_entries(e@) =~= p3 + opt_text("cidr_block"@, v.cidr_block));
    let ghost p4 = jv_entries(e@);
    push_opt_text(&mut e, "state", &v.state);
    assert(jv_entries(e@) =~= p4 + opt_text("state"@, v.state));
    let ghost p5 = jv_entries(e@);
    push_opt_text(&mut e, "instance_tenancy", &v.instance_tenancy);
    assert(jv_entries(e@) =~= p5 + opt_text("instance_tenancy"@, v.instance_tenancy));
    let ghost p6 = jv_entries(e@);
    if v.tags.len() > 0 {
        push_one(&mut e, "tags", tags_json(&v.tags));
    }
    assert(jv_entries(e@) =~= p6 + entry_if(v.tags@.len() > 0, "tags"@, tags_spec(v.tags@)));
    Json::Object(e)
}

/// The records of a list, in order.
pub fn vpc_list(v: &Vec<VpcInfo>) -> (r: Vec<Json>)
    ensures
        jv_list(r@) == v@.map_values(|x: VpcInfo| vpc_spec(x)),
{
    let mut out: Vec<Json> = Vec::new();
    let mut i: usize = 0;
    assert(v@.take(0).map_values(|x: VpcInfo| vpc_spec(x)) =~= Seq::<JsonV>::empty());
    while i < v.len()
        invariant
            i <= v.len(),
            jv_list(out@) == v@.take(i as int).map_values(|x: VpcInfo| vpc_spec(x)),
        decreases v.len() - i,
    {
        push_item(&mut out, vpc_json(&v[i]));
        assert(v@.take(i + 1).map_values(|x: VpcInfo| vpc_spec(x)) =~= v@.take(i as int).map_values(
            |x: VpcInfo| vpc_spec(x),
        ).push(vpc_spec(v@[i as int])));
        i = i + 1;
    }
    assert(v@.take(v.len() as int) =~= v@);
    out
}

/// The scan record of a subnet.
pub open spec fn subnet_spec(v: SubnetInfo) -> JsonV {
    JsonV::Object(Seq::empty() + seq![("subnet_id"@, JsonV::Str(v.subnet_id@))] + seq![("vpc_id"@, JsonV::Str(v.vpc_id@))] + seq![("map_public_ip_on_launch"@, JsonV::Bool(v.map_public_ip_on_launch))] + opt_text("cidr_block"@, v.cidr_block) + opt_text("availability_zone"@, v.availability_zone) + entry_if(v.tags@.len() > 0, "tags"@, tags_spec(v.tags@)))
}

/// The scan record of a subnet.
pub fn subnet_json(v: &SubnetInfo) -> (r: Json)
    ensures
        r@ == subnet_spec(*v),
{
    let mut e: Vec<(String, Json)> = Vec::new();
    assert(jv_entries(e@) =~= Seq::<(Seq<char>, JsonV)>::empty());
    let ghost p0 = jv_entries(e@);
    push_one(&mut e, "subnet_id", text(v.subnet_id.as_str()));
    assert(jv_entries(e@) =~= p0 + seq![("subnet_id"@, JsonV::Str(v.subnet_id@))]);
    let ghost p1 = jv_entries(e@);
    push_one(&mut e, "vpc_id", text(v.vpc_id.as_str()));
    assert(jv_entries(e@) =~= p1 + seq![("vpc_id"@, JsonV::Str(v.vpc_id@))]);
    let ghost p2 = jv_entries(e@);
    push_one(&mut e, "map_public_ip_on_launch", Json::Bool(v.map_public_ip_on_launch));
    assert(jv_entries(e@) =~= p2 + seq![("map_public_ip_on_launch"@, JsonV::Bool(v.map_public_ip_on_launch))]);
    let ghost p3 = jv_entries(e@);
    push_opt_text(&mut e, "cidr_block", &v.cidr_block);
    assert(jv_entries(e@) =~= p3 + opt_text("cidr_block"@, v.cidr_block));
    let ghost p4 = jv_entries(e@);
    push_opt_text(&mut e, "availability_zone", &v.availability_zone);
    assert(jv_entries(e@) =~= p4 + opt_text("availability_zone"@, v.availability_zone));
    let ghost p5 = jv_entries(e@);
    if v.tags.len() > 0 {
        push_one(&mut e, "tags", tags_json(&v.tags));
    }
    assert(jv_entries(e@) =~= p5 + entry_if(v.tags@.len() > 0, "tags"@, tags_spec(v.tags@)));
    Json::Object(e)
}

/// The records of a list, in order.
pub fn subnet_list(v: &Vec<SubnetInfo>) -> (r: Vec<Json>)
    ensures
        jv_list(r@) == v@.map_values(|x: SubnetInfo| subnet_spec(x)),
{
    let mut out: Vec<Json> = Vec::new();
    let mut i: usize = 0;
    assert(v@.take(0).map_values(|x: SubnetInfo| subnet_spec(x)) =~= Seq::<JsonV>::empty());
    while i < v.len()
        invariant
            i <= v.len(),
            jv_list(out@) == v@.take(i as int).map_values(|x: SubnetInfo| subnet_spec(x)),
        decreases v.len() - i,
    {
        push_item(&mut out, subnet_json(&v[i]));
        assert(v@.take(i + 1).map_values(|x: SubnetInfo| subnet_spec(x)) =~= v@.take(i as int).map_values(
            |x: SubnetInfo| subnet_spec(x),
        ).push(subnet_spec(v@[i as int])));
        i = i + 1;
    }
    assert(v@.take(v.len() as int) =~= v@);
    out
}

/// The record of a route: its destination and gateways, where set.
pub open spec fn route_spec(v: RouteInfo) -> JsonV {
    JsonV::Object(Seq::empty() + opt_text("destination_cidr_block"@, v.destination_cidr_block) + opt_text("gateway_id"@, v.gateway_id) + opt_text("nat_gateway_id"@, v.nat_gateway_id))
}

/// The record of a route: its destination and gateways, where set.
pub fn route_json(v: &RouteInfo) -> (r: Json)
    ensures
        r@ == route_spec(*v),
{
    let mut e: Vec<(String, Json)> = Vec::new();
    assert(jv_entries(e@) =~= Seq::<(Seq<char>, JsonV)>::empty());
    let ghost p0 = jv_entries(e@);
    push_opt_text(&mut e, "destination_cidr_block", &v.destination_cidr_block);
    assert(jv_entries(e@) =~= p0 + opt_text("destination_cidr_block"@, v.destination_cidr_block));
    let ghost p1 = jv_entries(e@);
    push_opt_text(&mut e, "gateway_id", &v.gateway_id);
    assert(jv_entries(e@) =~= p1 + opt_text("gateway_id"@, v.gateway_id));
    let ghost p2 = jv_entries(e@);
    push_opt_text(&mut e, "nat_gateway_id", &v.nat_gateway_id);
    assert(jv_entries(e@) =~= p2 + opt_text("nat_gateway_id"@, v.nat_gateway_id));
    Json::Object(e)
}

/// The records of a list, in order.
pub fn route_list(v: &Vec<RouteInfo>) -> (r: Vec<Json>)
    ensures
        jv_list(r@) == v@.map_values(|x: RouteInfo| route_spec(x)),
{
    let mut out: Vec<Json> = Vec::new();
    let mut i: usize = 0;
    assert(v@.take(0).map_values(|x: RouteInfo| route_spec(x)) =~= Seq::<JsonV>::empty());
    while i < v.len()
        invariant
            i <= v.len(),
            jv_list(out@) == v@.take(i as int).map_values(|x: RouteInfo| route_spec(x)),
        decreases v.len() - i,
    {
        push_item(&mut out, route_json(&v[i]));
        assert(v@.take(i + 1).map_values(|x: RouteInfo| route_spec(x)) =~= v@.take(i as int).map_values(
            |x: RouteInfo| route_spec(x),
        ).push(route_spec(v@[i as int])));
        i = i + 1;
    }
    assert(v@.take(v.len() as int) =~= v@);
    out
}

/// The record of a route table association.
pub open spec fn association_spec(v: RouteTableAssociationInfo) -> JsonV {
    JsonV::Object(Seq::empty() + seq![("route_table_association_id"@, JsonV::Str(v.route_table_association_id@))] + seq![("subnet_id"@, text_or_null(v.subnet_id))] + seq![("main"@, JsonV::Bool(v.main))])
}

/// The record of a route table association.
pub fn association_json(v: &RouteTableAssociationInfo) -> (r: Json)
    ensures
        r@ == association_spec(*v),
{
    let mut e: Vec<(String, Json)> = Vec::new();
    assert(jv_entries(e@) =~= Seq::<(Seq<char>, JsonV)>::empty());
    let ghost p0 = jv_entries(e@);
    push_one(&mut e, "route_table_association_id", text(v.route_table_association_id.as_str()));
    assert(jv_entries(e@) =~= p0 + seq![("route_table_association_id"@, JsonV::Str(v.route_table_association_id@))]);
    let ghost p1 = jv_entries(e@);
    push_one(&mut e, "subnet_id", text_or_null_json(&v.subnet_id));
    assert(jv_entries(e@) =~= p1 + seq![("subnet_id"@, text_or_null(v.subnet_id))]);
    let ghost p2 = jv_entries(e@);
    push_one(&mut e, "main", Json::Bool(v.main));
    assert(jv_entries(e@) =~= p2 + seq![("main"@, JsonV::Bool(v.main))]);
    Json::Object(e)
}

/// The records of a list, in order.
pub fn association_list(v: &Vec<RouteTableAssociationInfo>) -> (r: Vec<Json>)
    ensures
        jv_list(r@) == v@.map_values(|x: RouteTableAssociationInfo| association_spec(x)),
{
    let mut out: Vec<Json> = Vec::new();
    let mut i: usize = 0;
    assert(v@.take(0).map_values(|x: RouteTableAssociationInfo| association_spec(x)) =~= Seq::<JsonV>::empty());
    while i < v.len()
        invariant
            i <= v.len(),
            jv_list(out@) == v@.take(i as int).map_values(|x: RouteTableAssociationInfo| association_spec(x)),
        decreases v.len() - i,
    {
        push_item(&mut out, association_json(&v[i]));
        assert(v@.take(i + 1).map_values(|x: RouteTableAssociationInfo| association_spec(x)) =~= v@.take(i as int).map_values(
            |x: RouteTableAssociationInfo| association_spec(x),
        ).push(association_spec(v@[i as int])));
        i = i + 1;
    }
    assert(v@.take(v.len() as int) =~= v@);
    out
}

/// The scan record of a route table.
pub open spec fn route_table_spec(v: RouteTableInfo) -> JsonV {
    JsonV::Object(Seq::empty() + seq![("route_table_id"@, JsonV::Str(v.route_table_id@))] + seq![("vpc_id"@, JsonV::Str(v.vpc_id@))] + seq![("routes"@, JsonV::Array(v.routes@.map_values(|x: RouteInfo| route_spec(x))))] + seq![("associations"@, JsonV::Array(v.associations@.map_values(|x: RouteTableAssociationInfo| association_spec(x))))] + entry_if(v.tags@.len() > 0, "tags"@, tags_spec(v.tags@)))
}

/// The scan record of a route table.
pub fn route_table_json(v: &RouteTableInfo) -> (r: Json)
    ensures
        r@ == route_table_spec(*v),
{
    let mut e: Vec<(String, Json)> = Vec::new();
    assert(jv_entries(e@) =~= Seq::<(Seq<char>, JsonV)>::empty());
    let ghost p0 = jv_entries(e@);
    push_one(&mut e, "route_table_id", text(v.route_table_id.as_str()));
    assert(jv_entries(e@) =~= p0 + seq![("route_table_id"@, JsonV::Str(v.route_table_id@))]);
    let ghost p1 = jv_entries(e@);
    push_one(&mut e, "vpc_id", text(v.vpc_id.as_str()));
    assert(jv_entries(e@) =~= p1 + seq![("vpc_id"@, JsonV::Str(v.vpc_id@))]);
    let ghost p2 = jv_entries(e@);
    push_one(&mut e, "routes", Json::Array(route_list(&v.routes)));
    assert(jv_entries(e@) =~= p2 + seq![("routes"@, JsonV::Array(v.routes@.map_values(|x: RouteInfo| route_spec(x))))]);
    let ghost p3 = jv_entries(e@);
    push_one(&mut e, "associations", Json::Array(association_list(&v.associations)));
    assert(jv_entries(e@) =~= p3 + seq![("associations"@, JsonV::Array(v.associations@.map_values(|x: RouteTableAssociationInfo| association_spec(x))))]);
    let ghost p4 = jv_entries(e@);
    if v.tags.len() > 0 {
        push_one(&mut e, "tags", tags_json(&v.tags));
    }
    assert(jv_entries(e@) =~= p4 + entry_if(v.tags@.len() > 0, "tags"@, tags_spec(v.tags@)));
    Json::Object(e)
}

/// The records of a list, in order.
pub fn route_table_list(v: &Vec<RouteTableInfo>) -> (r: Vec<Json>)
    ensures
        jv_list(r@) == v@.map_values(|x: RouteTableInfo| route_table_spec(x)),
{
    let mut out: Vec<Json> = Vec::new();
    let mut i: usize = 0;
    assert(v@.take(0).map_values(|x: RouteTableInfo| route_table_spec(x)) =~= Seq::<JsonV>::empty());
    while i < v.len()
        invariant
            i <= v.len(),
            jv_list(out@) == v@.take(i as int).map_values(|x: RouteTableInfo| route_table_spec(x)),
        decreases v.len() - i,
    {
        push_item(&mut out, route_table_json(&v[i]));
        assert(v@.take(i + 1).map_values(|x: RouteTableInfo| route_table_spec(x)) =~= v@.take(i as int).map_values(
            |x: RouteTableInfo| route_table_spec(x),
        ).push(route_table_spec(v@[i as int])));
        i = i + 1;
    }
    assert(v@.take(v.len() as int) =~= v@);
    out
}

/// The record of an ingress rule.
pub open spec fn ingress_rule_spec(v: SecurityGroupRuleInfo) -> JsonV {
    JsonV::Object(Seq::empty() + seq![("protocol"@, JsonV::Str(v.protocol@))] + opt_int("from_port"@, v.from_port) + opt_int("to_port"@, v.to_port) + entry_if(v.cidr_blocks@.len() > 0, "cidr_blocks"@, texts_json(v.cidr_blocks@)) + opt_text("source_security_group_id"@, v.source_security_group_id) + opt_text("description"@, v.description))
}

/// The record of an ingress rule.
pub fn ingress_rule_json(v: &SecurityGroupRuleInfo) -> (r: Json)
    ensures
        r@ == ingress_rule_spec(*v),
{
    let mut e: Vec<(String, Json)> = Vec::new();
    assert(jv_entries(e@) =~= Seq::<(Seq<char>, JsonV)>::empty());
    let ghost p0 = jv_entries(e@);
    push_one(&mut e, "protocol", text(v.protocol.as_str()));
    assert(jv_entries(e@) =~= p0 + seq![("protocol"@, JsonV::Str(v.protocol@))]);
    let ghost p1 = jv_entries(e@);
    push_opt_int(&mut e, "from_port", v.from_port);
    assert(jv_entries(e@) =~= p1 + opt_int("from_port"@, v.from_port));
    let ghost p2 = jv_entries(e@);
    push_opt_int(&mut e, "to_port", v.to_port);
    assert(jv_entries(e@) =~= p2 + opt_int("to_port"@, v.to_port));
    let ghost p3 = jv_entries(e@);
    if v.cidr_blocks.len() > 0 {
        push_one(&mut e, "cidr_blocks", text_array(&v.cidr_blocks));
    }
    assert(jv_entries(e@) =~= p3 + entry_if(v.cidr_blocks@.len() > 0, "cidr_blocks"@, texts_json(v.cidr_blocks@)));
    let ghost p4 = jv_entries(e@);
    push_opt_text(&mut e, "source_security_group_id", &v.source_security_group_id);
    assert(jv_entries(e@) =~= p4 + opt_text("source_security_group_id"@, v.source_security_group_id));
    let ghost p5 = jv_entries(e@);
    push_opt_text(&mut e, "description", &v.description);
    assert(jv_entries(e@) =~= p5 + opt_text("description"@, v.description));
    Json::Object(e)
}

/// The records of a list, in order.
pub fn ingress_rule_list(v: &Vec<SecurityGroupRuleInfo>) -> (r: Vec<Json>)
    ensures
        jv_list(r@) == v@.map_values(|x: SecurityGroupRuleInfo| ingress_rule_spec(x)),
{
    let mut out: Vec<Json> = Vec::new();
    let mut i: usize = 0;
    assert(v@.take(0).map_values(|x: SecurityGroupRuleInfo| ingress_rule_spec(x)) =~= Seq::<JsonV>::empty());
    while i < v.len()
        invariant
            i <= v.len(),
            jv_list(out@) == v@.take(i as int).map_values(|x: SecurityGroupRuleInfo| ingress_rule_spec(x)),
        decreases v.len() - i,
    {
        push_item(&mut out, ingress_rule_json(&v[i]));
        assert(v@.take(i + 1).map_values(|x: SecurityGroupRuleInfo| ingress_rule_spec(x)) =~= v@.take(i as int).map_values(
            |x: SecurityGroupRuleInfo| ingress_rule_spec(x),
        ).push(ingress_rule_spec(v@[i as int])));
        i = i + 1;
    }
    assert(v@.take(v.len() as int) =~= v@);
    out
}

/// The record of an egress rule: protocol, ports and CIDR blocks.
pub open spec fn egress_rule_spec(v: SecurityGroupRuleInfo) -> JsonV {
    JsonV::Object(Seq::empty() + seq![("protocol"@, JsonV::Str(v.protocol@))] + opt_int("from_port"@, v.from_port) + opt_int("to_port"@, v.to_port) + entry_if(v.cidr_blocks@.len() > 0, "cidr_blocks"@, texts_json(v.cidr_blocks@)))
}

/// The record of an egress rule: protocol, ports and CIDR blocks.
pub fn egress_rule_json(v: &SecurityGroupRuleInfo) -> (r: Json)
    ensures
        r@ == egress_rule_spec(*v),
{
    let mut e: Vec<(String, Json)> = Vec::new();
    assert(jv_entries(e@) =~= Seq::<(Seq<char>, JsonV)>::empty());
    let ghost p0 = jv_entries(e@);
    push_one(&mut e, "protocol", text(v.protocol.as_str()));
    assert(jv_entries(e@) =~= p0 + seq![("protocol"@, JsonV::Str(v.protocol@))]);
    let ghost p1 = jv_entries(e@);
    push_opt_int(&mut e, "from_port", v.from_port);
    assert(jv_entries(e@) =~= p1 + opt_int("from_port"@, v.from_port));
    let ghost p2 = jv_entries(e@);
    push_opt_int(&mut e, "to_port", v.to_port);
    assert(jv_entries(e@) =~= p2 + opt_int("to_port"@, v.to_port));
    let ghost p3 = jv_entries(e@);
    if v.cidr_blocks.len() > 0 {
        push_one(&mut e, "cidr_blocks", text_array(&v.cidr_blocks));
    }
    assert(jv_entries(e@) =~= p3 + entry_if(v.cidr_blocks@.len() > 0, "cidr_blocks"@, texts_json(v.cidr_blocks@)));
    Json::Object(e)
}

/// The records of a list, in order.
pub fn egress_rule_list(v: &Vec<SecurityGroupRuleInfo>) -> (r: Vec<Json>)
    ensures
        jv_list(r@) == v@.map_values(|x: SecurityGroupRuleInfo| egress_rule_spec(x)),
{
    let mut out: Vec<Json> = Vec::new();
    let mut i: usize = 0;
    assert(v@.take(0).map_values(|x: SecurityGroupRuleInfo| egress_rule_spec(x)) =~= Seq::<JsonV>::empty());
    while i < v.len()
        invariant
            i <= v.len(),
            jv_list(out@) == v@.take(i as int).map_values(|x: SecurityGroupRuleInfo| egress_rule_spec(x)),
        decreases v.len() - i,
    {
        push_item(&mut out, egress_rule_json(&v[i]));
        assert(v@.take(i + 1).map_values(|x: SecurityGroupRuleInfo| egress_rule_spec(x)) =~= v@.take(i as int).map_values(
            |x: SecurityGroupRuleInfo| egress_rule_spec(x),
        ).push(egress_rule_spec(v@[i as int])));
        i = i + 1;
    }
    assert(v@.take(v.len() as int) =~= v@);
    out
}

/// The scan record of a security group.
pub open spec fn security_group_spec(v: SecurityGroupInfo) -> JsonV {
    JsonV::Object(Seq::empty() + seq![("group_id"@, JsonV::Str(v.group_id@))] + seq![("group_name"@, JsonV::Str(v.group_name@))] + seq![("vpc_id"@, JsonV::Str(v.vpc_id@))] + seq![("ingress_rules"@, JsonV::Array(v.ingress_rules@.map_values(|x: SecurityGroupRuleInfo| ingress_rule_spec(x))))] + seq![("egress_rules"@, JsonV::Array(v.egress_rules@.map_values(|x: SecurityGroupRuleInfo| egress_rule_spec(x))))] + opt_text("description"@, v.description) + entry_if(v.tags@.len() > 0, "tags"@, tags_spec(v.tags@)))
}

/// The scan record of a security group.
pub fn security_group_json(v: &SecurityGroupInfo) -> (r: Json)
    ensures
        r@ == security_group_spec(*v),
{
    let mut e: Vec<(String, Json)> = Vec::new();
    assert(jv_entries(e@) =~= Seq::<(Seq<char>, JsonV)>::empty());
    let ghost p0 = jv_entries(e@);
    push_one(&mut e, "group_id", text(v.group_id.as_str()));
    assert(jv_entries(e@) =~= p0 + seq![("group_id"@, JsonV::Str(v.group_id@))]);
    let ghost p1 = jv_entries(e@);
    push_one(&mut e, "group_name", text(v.group_name.as_str()));
    assert(jv_entries(e@) =~= p1 + seq![("group_name"@, JsonV::Str(v.group_name@))]);
    let ghost p2 = jv_entries(e@);
    push_one(&mut e, "vpc_id", text(v.vpc_id.as_str()));
    assert(jv_entries(e@) =~= p2 + seq![("vpc_id"@, JsonV::Str(v.vpc_id@))]);
    let ghost p3 = jv_entries(e@);
    push_one(&mut e, "ingress_rules", Json::Array(ingress_rule_list(&v.ingress_rules)));
    assert(jv_entries(e@) =~= p3 + seq![("ingress_rules"@, JsonV::Array(v.ingress_rules@.map_values(|x: SecurityGroupRuleInfo| ingress_rule_spec(x))))]);
    let ghost p4 = jv_entries(e@);
    push_one(&mut e, "egress_rules", Json::Array(egress_rule_list(&v.egress_rules)));
    assert(jv_entries(e@) =~= p4 + seq![("egress_rules"@, JsonV::Array(v.egress_rules@.map_values(|x: SecurityGroupRuleInfo| egress_rule_spec(x))))]);
    let ghost p5 = jv_entries(e@);
    push_opt_text(&mut e, "description", &v.description);
    assert(jv_entries(e@) =~= p5 + opt_text("description"@, v.description));
    let ghost p6 = jv_entries(e@);
    if v.tags.len() > 0 {
        push_one(&mut e, "tags", tags_json(&v.tags));
    }
    assert(jv_entries(e@) =~= p6 + entry_if(v.tags@.len() > 0, "tags"@, tags_spec(v.tags@)));
    Json::Object(e)
}

/// The records of a list, in order.
pub fn security_group_list(v: &Vec<SecurityGroupInfo>) -> (r: Vec<Json>)
    ensures
        jv_list(r@) == v@.map_values(|x: SecurityGroupInfo| security_group_spec(x)),
{
    let mut out: Vec<Json> = Vec::new();
    let mut i: usize = 0;
    assert(v@.take(0).map_values(|x: SecurityGroupInfo| security_group_spec(x)) =~= Seq::<JsonV>::empty());
    while i < v.len()
        invariant
            i <= v.len(),
            jv_list(out@) == v@.take(i as int).map_values(|x: SecurityGroupInfo| security_group_spec(x)),
        decreases v.len() - i,
    {
        push_item(&mut out, security_group_json(&v[i]));
        assert(v@.take(i + 1).map_values(|x: SecurityGroupInfo| security_group_spec(x)) =~= v@.take(i as int).map_values(
            |x: SecurityGroupInfo| security_group_spec(x),
        ).push(security_group_spec(v@[i as int])));
        i = i + 1;
    }
    assert(v@.take(v.len() as int) =~= v@);
    out
}

/// The record of a network ACL entry.
pub open spec fn acl_entry_spec(v: NetworkAclEntryInfo) -> JsonV {
    JsonV::Object(Seq::empty() + seq![("rule_number"@, num(v.rule_number as int))] + seq![("protocol"@, JsonV::Str(v.protocol@))] + seq![("rule_action"@, JsonV::Str(v.rule_action@))] + seq![("egress"@, JsonV::Bool(v.egress))] + opt_text("cidr_block"@, v.cidr_block) + opt_int("from_port"@, v.from_port) + opt_int("to_port"@, v.to_port))
}

/// The record of a network ACL entry.
pub fn acl_entry_json(v: &NetworkAclEntryInfo) -> (r: Json)
    ensures
        r@ == acl_entry_spec(*v),
{
    let mut e: Vec<(String, Json)> = Vec::new();
    assert(jv_entries(e@) =~= Seq::<(Seq<char>, JsonV)>::empty());
    let ghost p0 = jv_entries(e@);
    push_one(&mut e, "rule_number", number(v.rule_number as i64));
    assert(jv_entries(e@) =~= p0 + seq![("rule_number"@, num(v.rule_number as int))]);
    let ghost p1 = jv_entries(e@);
    push_one(&mut e, "protocol", text(v.protocol.as_str()));
    assert(jv_entries(e@) =~= p1 + seq![("protocol"@, JsonV::Str(v.protocol@))]);
    let ghost p2 = jv_entries(e@);
    push_one(&mut e, "rule_action", text(v.rule_action.as_str()));
    assert(jv_entries(e@) =~= p2 + seq![("rule_action"@, JsonV::Str(v.rule_action@))]);
    let ghost p3 = jv_entries(e@);
    push_one(&mut e, "egress", Json::Bool(v.egress));
    assert(jv_entries(e@) =~= p3 + seq![("egress"@, JsonV::Bool(v.egress))]);
    let ghost p4 = jv_entries(e@);
    push_opt_text(&mut e, "cidr_block", &v.cidr_block);
    assert(jv_entries(e@) =~= p4 + opt_text("cidr_block"@, v.cidr_block));
    let ghost p5 = jv_entries(e@);
    push_opt_int(&mut e, "from_port", v.from_port);
    assert(jv_entries(e@) =~= p5 + opt_int("from_port"@, v.from_port));
    let ghost p6 = jv_entries(e@);
    push_opt_int(&mut e, "to_port", v.to_port);
    assert(jv_entries(e@) =~= p6 + opt_int("to_port"@, v.to_port));
    Json::Object(e)
}

/// The records of a list, in order.
pub fn acl_entry_list(v: &Vec<NetworkAclEntryInfo>) -> (r: Vec<Json>)
    ensures
        jv_list(r@) == v@.map_values(|x: NetworkAclEntryInfo| acl_entry_spec(x)),
{
    let mut out: Vec<Json> = Vec::new();
    let mut i: usize = 0;
    assert(v@.take(0).map_values(|x: NetworkAclEntryInfo| acl_entry_spec(x)) =~= Seq::<JsonV>::empty());
    while i < v.len()
        invariant
            i <= v.len(),
            jv_list(out@) == v@.take(i as int).map_values(|x: NetworkAclEntryInfo| acl_entry_spec(x)),
        decreases v.len() - i,
    {
        push_item(&mut out, acl_entry_json(&v[i]));
        assert(v@.take(i + 1).map_values(|x: NetworkAclEntryInfo| acl_entry_spec(x)) =~= v@.take(i as int).map_values(
            |x: NetworkAclEntryInfo| acl_entry_spec(x),
        ).push(acl_entry_spec(v@[i as int])));
        i = i + 1;
    }
    assert(v@.take(v.len() as int) =~= v@);
    out
}

/// The scan record of a network ACL.
pub open spec fn network_acl_spec(v: NetworkAclInfo) -> JsonV {
    JsonV::Object(Seq::empty() + seq![("network_acl_id"@, JsonV::Str(v.network_acl_id@))] + seq![("vpc_id"@, JsonV::Str(v.vpc_id@))] + seq![("is_default"@, JsonV::Bool(v.is_default))] + seq![("entries"@, JsonV::Array(v.entries@.map_values(|x: NetworkAclEntryInfo| acl_entry_spec(x))))] + entry_if(v.associations@.len() > 0, "associations"@, texts_json(v.associations@)) + entry_if(v.tags@.len() > 0, "tags"@, tags_spec(v.tags@)))
}

/// The scan record of a network ACL.
pub fn network_acl_json(v: &NetworkAclInfo) -> (r: Json)
    ensures
        r@ == network_acl_spec(*v),
{
    let mut e: Vec<(String, Json)> = Vec::new();
    assert(jv_entries(e@) =~= Seq::<(Seq<char>, JsonV)>::empty());
    let ghost p0 = jv_entries(e@);
    push_one(&mut e, "network_acl_id", text(v.network_acl_id.as_str()));
    assert(jv_entries(e@) =~= p0 + seq![("network_acl_id"@, JsonV::Str(v.network_acl_id@))]);
    let ghost p1 = jv_entries(e@);
    push_one(&mut e, "vpc_id", text(v.vpc_id.as_str()));
    assert(jv_entries(e@) =~= p1 + seq![("vpc_id"@, JsonV::Str(v.vpc_id@))]);
    let ghost p2 = jv_entries(e@);
    push_one(&mut e, "is_default", Json::Bool(v.is_default));
    assert(jv_entries(e@) =~= p2 + seq![("is_default"@, JsonV::Bool(v.is_default))]);
    let ghost p3 = jv_entries(e@);
    push_one(&mut e, "entries", Json::Array(acl_entry_list(&v.entries)));
    assert(jv_entries(e@) =~= p3 + seq![("entries"@, JsonV::Array(v.entries@.map_values(|x: NetworkAclEntryInfo| acl_entry_spec(x))))]);
    let ghost p4 = jv_entries(e@);
    if v.associations.len() > 0 {
        push_one(&mut e, "associations", text_array(&v.associations));
    }
    assert(jv_entries(e@) =~= p4 + entry_if(v.associations@.len() > 0, "associations"@, texts_json(v.associations@)));
    let ghost p5 = jv_entries(e@);
    if v.tags.len() > 0 {
        push_one(&mut e, "tags", tags_json(&v.tags));
    }
    assert(jv_entries(e@) =~= p5 + entry_if(v.tags@.len() > 0, "tags"@, tags_spec(v.tags@)));
    Json::Object(e)
}

/// The records of a list, in order.
pub fn network_acl_list(v: &Vec<NetworkAclInfo>) -> (r: Vec<Json>)
    ensures
        jv_list(r@) == v@.map_values(|x: NetworkAclInfo| network_acl_spec(x)),
{
    let mut out: Vec<Json> = Vec::new();
    let mut i: usize = 0;
    assert(v@.take(0).map_values(|x: NetworkAclInfo| network_acl_spec(x)) =~= Seq::<JsonV>::empty());
    while i < v.len()
        invariant
            i <= v.len(),
            jv_list(out@) == v@.take(i as int).map_values(|x: NetworkAclInfo| network_acl_spec(x)),
        decreases v.len() - i,
    {
        push_item(&mut out, network_acl_json(&v[i]));
        assert(v@.take(i + 1).map_values(|x: NetworkAclInfo| network_acl_spec(x)) =~= v@.take(i as int).map_values(
            |x: NetworkAclInfo| network_acl_spec(x),
        ).push(network_acl_spec(v@[i as int])));
        i = i + 1;
    }
    assert(v@.take(v.len() as int) =~= v@);
    out
}

/// The record of an internet gateway attachment.
pub open spec fn igw_attachment_spec(v: IgwAttachmentInfo) -> JsonV {
    JsonV::Object(Seq::empty() + seq![("vpc_id"@, JsonV::Str(v.vpc_id@))] + seq![("state"@, JsonV::Str(v.state@))])
}

/// The record of an internet gateway attachment.
pub fn igw_attachment_json(v: &IgwAttachmentInfo) -> (r: Json)
    ensures
        r@ == igw_attachment_spec(*v),
{
    let mut e: Vec<(String, Json)> = Vec::new();
    assert(jv_entries(e@) =~= Seq::<(Seq<char>, JsonV)>::empty());
    let ghost p0 = jv_entries(e@);
    push_one(&mut e, "vpc_id", text(v.vpc_id.as_str()));
    assert(jv_entries(e@) =~= p0 + seq![("vpc_id"@, JsonV::Str(v.vpc_id@))]);
    let ghost p1 = jv_entries(e@);
    push_one(&mut e, "state", text(v.state.as_str()));
    assert(jv_entries(e@) =~= p1 + seq![("state"@, JsonV::Str(v.state@))]);
    Json::Object(e)
}

/// The records of a list, in order.
pub fn igw_attachment_list(v: &Vec<IgwAttachmentInfo>) -> (r: Vec<Json>)
    ensures
        jv_list(r@) == v@.map_values(|x: IgwAttachmentInfo| igw_attachment_spec(x)),
{
    let mut out: Vec<Json> = Vec::new();
    let mut i: usize = 0;
    assert(v@.take(0).map_values(|x: IgwAttachmentInfo| igw_attachment_spec(x)) =~= Seq::<JsonV>::empty());
    while i < v.len()
        invariant
            i <= v.len(),
            jv_list(out@) == v@.take(i as int).map_values(|x: IgwAttachmentInfo| igw_attachment_spec(x)),
        decreases v.len() - i,
    {
        push_item(&mut out, igw_attachment_json(&v[i]));
        assert(v@.take(i + 1).map_values(|x: IgwAttachmentInfo| igw_attachment_spec(x)) =~= v@.take(i as int).map_values(
            |x: IgwAttachmentInfo| igw_attachment_spec(x),
        ).push(igw_attachment_spec(v@[i as int])));
        i = i + 1;
    }
    assert(v@.take(v.len() as int) =~= v@);
    out
}

/// The scan record of an internet gateway.
pub open spec fn internet_gateway_spec(v: InternetGatewayInfo) -> JsonV {
    JsonV::Object(Seq::empty() + seq![("internet_gateway_id"@, JsonV::Str(v.internet_gateway_id@))] + entry_if(v.attachments@.len() > 0, "attachments"@, JsonV::Array(v.attachments@.map_values(|x: IgwAttachmentInfo| igw_attachment_spec(x)))) + entry_if(v.tags@.len() > 0, "tags"@, tags_spec(v.tags@)))
}

/// The scan record of an internet gateway.
pub fn internet_gateway_json(v: &InternetGatewayInfo) -> (r: Json)
    ensures
        r@ == internet_gateway_spec(*v),
{
    let mut e: Vec<(String, Json)> = Vec::new();
    assert(jv_entries(e@) =~= Seq::<(Seq<char>, JsonV)>::empty());
    let ghost p0 = jv_entries(e@);
    push_one(&mut e, "internet_gateway_id", text(v.internet_gateway_id.as_str()));
    assert(jv_entries(e@) =~= p0 + seq![("internet_gateway_id"@, JsonV::Str(v.internet_gateway_id@))]);
    let ghost p1 = jv_entries(e@);
    if v.attachments.len() > 0 {
        push_one(&mut e, "attachments", Json::Array(igw_attachment_list(&v.attachments)));
    }
    assert(jv_entries(e@) =~= p1 + entry_if(v.attachments@.len() > 0, "attachments"@, JsonV::Array(v.attachments@.map_values(|x: IgwAttachmentInfo| igw_attachment_spec(x)))));
    let ghost p2 = jv_entries(e@);
    if v.tags.len() > 0 {
        push_one(&mut e, "tags", tags_json(&v.tags));
    }
    assert(jv_entries(e@) =~= p2 + entry_if(v.tags@.len() > 0, "tags"@, tags_spec(v.tags@)));
    Json::Object(e)
}

/// The records of a list, in order.
pub fn internet_gateway_list(v: &Vec<InternetGatewayInfo>) -> (r: Vec<Json>)
    ensures
        jv_list(r@) == v@.map_values(|x: InternetGatewayInfo| internet_gateway_spec(x)),
{
    let mut out: Vec<Json> = Vec::new();
    let mut i: usize = 0;
    assert(v@.take(0).map_values(|x: InternetGatewayInfo| internet_gateway_spec(x)) =~= Seq::<JsonV>::empty());
    while i < v.len()
        invariant
            i <= v.len(),
            jv_list(out@) == v@.take(i as int).map_values(|x: InternetGatewayInfo| internet_gateway_spec(x)),
        decreases v.len() - i,
    {
        push_item(&mut out, internet_gateway_json(&v[i]));
        assert(v@.take(i + 1).map_values(|x: InternetGatewayInfo| internet_gateway_spec(x)) =~= v@.take(i as int).map_values(
            |x: InternetGatewayInfo| internet_gateway_spec(x),
        ).push(internet_gateway_spec(v@[i as int])));
        i = i + 1;
    }
    assert(v@.take(v.len() as int) =~= v@);
    out
}

/// The scan record of a NAT gateway.
pub open spec fn nat_gateway_spec(v: NatGatewayInfo) -> JsonV {
    JsonV::Object(Seq::empty() + seq![("nat_gateway_id"@, JsonV::Str(v.nat_gateway_id@))] + opt_text("vpc_id"@, v.vpc_id) + opt_text("subnet_id"@, v.subnet_id) + opt_text("state"@, v.state) + opt_text("connectivity_type"@, v.connectivity_type) + opt_text("allocation_id"@, v.allocation_id) + opt_text("public_ip"@, v.public_ip) + opt_text("private_ip"@, v.private_ip) + entry_if(v.tags@.len() > 0, "tags"@, tags_spec(v.tags@)))
}

/// The scan record of a NAT gateway.
#[verifier::rlimit(30)]
pub fn nat_gateway_json(v: &NatGatewayInfo) -> (r: Json)
    ensures
        r@ == nat_gateway_spec(*v),
{
    let mut e: Vec<(String, Json)> = Vec::new();
    assert(jv_entries(e@) =~= Seq::<(Seq<char>, JsonV)>::empty());
    let ghost p0 = jv_entries(e@);
    push_one(&mut e, "nat_gateway_id", text(v.nat_gateway_id.as_str()));
    assert(jv_entries(e@) =~= p0 + seq![("nat_gateway_id"@, JsonV::Str(v.nat_gateway_id@))]);
    let ghost p1 = jv_entries(e@);
    push_opt_text(&mut e, "vpc_id", &v.vpc_id);
    assert(jv_entries(e@) =~= p1 + opt_text("vpc_id"@, v.vpc_id));
    let ghost p2 = jv_entries(e@);
    push_opt_text(&mut e, "subnet_id", &v.subnet_id);
    assert(jv_entries(e@) =~= p2 + opt_text("subnet_id"@, v.subnet_id));
    let ghost p3 = jv_entries(e@);
    push_opt_text(&mut e, "state", &v.state);
    assert(jv_entries(e@) =~= p3 + opt_text("state"@, v.state));
    let ghost p4 = jv_entries(e@);
    push_opt_text(&mut e, "connectivity_type", &v.connectivity_type);
    assert(jv_entries(e@) =~= p4 + opt_text("connectivity_type"@, v.connectivity_type));
    let ghost p5 = jv_entries(e@);
    push_opt_text(&mut e, "allocation_id", &v.allocation_id);
    assert(jv_entries(e@) =~= p5 + opt_text("allocation_id"@, v.allocation_id));
    let ghost p6 = jv_entries(e@);
    push_opt_text(&mut e, "public_ip", &v.public_ip);
    assert(jv_entries(e@) =~= p6 + opt_text("public_ip"@, v.public_ip));
    let ghost p7 = jv_entries(e@);
    push_opt_text(&mut e, "private_ip", &v.private_ip);
    assert(jv_entries(e@) =~= p7 + opt_text("private_ip"@, v.private_ip));
    let ghost p8 = jv_entries(e@);
    if v.tags.len() > 0 {
        push_one(&mut e, "tags", tags_json(&v.tags));
    }
    assert(jv_entries(e@) =~= p8 + entry_if(v.tags@.len() > 0, "tags"@, tags_spec(v.tags@)));
    Json::Object(e)
}

/// The records of a list, in order.
pub fn nat_gateway_list(v: &Vec<NatGatewayInfo>) -> (r: Vec<Json>)
    ensures
        jv_list(r@) == v@.map_values(|x: NatGatewayInfo| nat_gateway_spec(x)),
{
    let mut out: Vec<Json> = Vec::new();
    let mut i: usize = 0;
    assert(v@.take(0).map_values(|x: NatGatewayInfo| nat_gateway_spec(x)) =~= Seq::<JsonV>::empty());
    while i < v.len()
        invariant
            i <= v.len(),
            jv_list(out@) == v@.take(i as int).map_values(|x: NatGatewayInfo| nat_gateway_spec(x)),
        decreases v.len() - i,
    {
        push_item(&mut out, nat_gateway_json(&v[i]));
        assert(v@.take(i + 1).map_values(|x: NatGatewayInfo| nat_gateway_spec(x)) =~= v@.take(i as int).map_values(
            |x: NatGatewayInfo| nat_gateway_spec(x),
        ).push(nat_gateway_spec(v@[i as int])));
        i = i + 1;
    }
    assert(v@.take(v.len() as int) =~= v@);
    out
}

/// The scan record of an Elastic IP address.
pub open spec fn elastic_ip_spec(v: ElasticIpInfo) -> JsonV {
    JsonV::Object(Seq::empty() + seq![("allocation_id"@, JsonV::Str(v.allocation_id@))] + opt_text("public_ip"@, v.public_ip) + opt_text("association_id"@, v.association_id) + opt_text("instance_id"@, v.instance_id) + opt_text("network_interface_id"@, v.network_interface_id) + opt_text("domain"@, v.domain) + entry_if(v.tags@.len() > 0, "tags"@, tags_spec(v.tags@)))
}

/// The scan record of an Elastic IP address.
pub fn elastic_ip_json(v: &ElasticIpInfo) -> (r: Json)
    ensures
        r@ == elastic_ip_spec(*v),
{
    let mut e: Vec<(String, Json)> = Vec::new();
    assert(jv_entries(e@) =~= Seq::<(Seq<char>, JsonV)>::empty());
    let ghost p0 = jv_entries(e@);
    push_one(&mut e, "allocation_id", text(v.allocation_id.as_str()));
    assert(jv_entries(e@) =~= p0 + seq![("allocation_id"@, JsonV::Str(v.allocation_id@))]);
    let ghost p1 = jv_entries(e@);
    push_opt_text(&mut e, "public_ip", &v.public_ip);
    assert(jv_entries(e@) =~= p1 + opt_text("public_ip"@, v.public_ip));
    let ghost p2 = jv_entries(e@);
    push_opt_text(&mut e, "association_id", &v.association_id);
    assert(jv_entries(e@) =~= p2 + opt_text("association_id"@, v.association_id));
    let ghost p3 = jv_entries(e@);
    push_opt_text(&mut e, "instance_id", &v.instance_id);
    assert(jv_entries(e@) =~= p3 + opt_text("instance_id"@, v.instance_id));
    let ghost p4 = jv_entries(e@);
    push_opt_text(&mut e, "network_interface_id", &v.network_interface_id);
    assert(jv_entries(e@) =~= p4 + opt_text("network_interface_id"@, v.network_interface_id));
    let ghost p5 = jv_entries(e@);
    push_opt_text(&mut e, "domain", &v.domain);
    assert(jv_entries(e@) =~= p5 + opt_text("domain"@, v.domain));
    let ghost p6 = jv_entries(e@);
    if v.tags.len() > 0 {
        push_one(&mut e, "tags", tags_json(&v.tags));
    }
    assert(jv_entries(e@) =~= p6 + entry_if(v.tags@.len() > 0, "tags"@, tags_spec(v.tags@)));
    Json::Object(e)
}

/// The records of a list, in order.
pub fn elastic_ip_list(v: &Vec<ElasticIpInfo>) -> (r: Vec<Json>)
    ensures
        jv_list(r@) == v@.map_values(|x: ElasticIpInfo| elastic_ip_spec(x)),
{
    let mut out: Vec<Json> = Vec::new();
    let mut i: usize = 0;
    assert(v@.take(0).map_values(|x: ElasticIpInfo| elastic_ip_spec(x)) =~= Seq::<JsonV>::empty());
    while i < v.len()
        invariant
            i <= v.len(),
            jv_list(out@) == v@.take(i as int).map_values(|x: ElasticIpInfo| elastic_ip_spec(x)),
        decreases v.len() - i,
    {
        push_item(&mut out, elastic_ip_json(&v[i]));
        assert(v@.take(i + 1).map_values(|x: ElasticIpInfo| elastic_ip_spec(x)) =~= v@.take(i as int).map_values(
            |x: ElasticIpInfo| elastic_ip_spec(x),
        ).push(elastic_ip_spec(v@[i as int])));
        i = i + 1;
    }
    assert(v@.take(v.len() as int) =~= v@);
    out
}

/// Scans EC2 instances through a client.
pub struct AwsEc2Scanner<C: Ec2ClientOps> {
    config: ScanConfig,
    ec2_client: Arc<C>,
}

/// What each target of this scanner gave.
pub struct Ec2Found {
    pub instances: Result<Vec<Json>, String>,
}

/// This scanner's targets: result key and progress label, in order.
pub open spec fn ec2_targets() -> Seq<(Seq<char>, Seq<char>)> {
    seq![
        ("instances"@, "EC2 Instances"@),
    ]
}

/// The outcome of each target of this scanner under a request.
pub open spec fn ec2_outcomes(c: ScanConfig, f: Ec2Found) -> Seq<OutcomeV> {
    seq![
        outcome_of(target_on(c.scan_targets@, "instances"@), listed_view(f.instances)),
    ]
}

/// Whether each target's records are what its scan can give.
pub open spec fn ec2_fit(c: ScanConfig, f: Ec2Found) -> bool {
    (f.instances is Ok ==> instances_slot(c, JsonV::Array(jv_list(f.instances->Ok_0@))))
}

/// Whether this scan may start: the original computes these targets'
/// percentages without guarding against a total of zero, so a scan that has
/// one of them on needs a positive total.
pub open spec fn ec2_total_ok(c: ScanConfig, total: usize) -> bool {
    total > 0 || !(target_on(c.scan_targets@, "instances"@))
}

impl<C: Ec2ClientOps> AwsEc2Scanner<C> {
    /// The scan request this scanner serves.
    pub closed spec fn config_spec(&self) -> ScanConfig {
        self.config
    }

    /// The client this scanner makes its calls through.
    pub closed spec fn client_spec(&self) -> C {
        *self.ec2_client
    }

    /// A scanner over a shared client.
    pub fn new(config: ScanConfig, client: Arc<C>) -> (r: Self)
        ensures
            r.config_spec() == config,
            r.client_spec() == *client,
    {
        AwsEc2Scanner { config, ec2_client: client }
    }

    /// A scanner over the given client.
    pub fn new_with_client(config: ScanConfig, client: C) -> (r: Self)
        ensures
            r.config_spec() == config,
            r.client_spec() == client,
    {
        AwsEc2Scanner { config, ec2_client: Arc::new(client) }
    }

    /// The records of the listed instances; a failing listing is passed on.
    pub fn scan_instances(&self) -> (r: Result<Vec<Json>, String>)
        ensures
            r is Ok ==> exists|v: Seq<Ec2InstanceInfo>| #[trigger] instances_spec(v) == jv_list(r->Ok_0@),
    {
        match self.ec2_client.describe_instances() {
            Ok(v) => {
                let out = instance_list(&v);
                proof {
                    assert(instances_spec(v@) == jv_list(out@));
                }
                Ok(out)
            },
            Err(e) => Err(e),
        }
    }

    /// Adds the list of each resource type of this scanner to a scan
    /// result: the records of its scan when the type is switched on, an
    /// empty list otherwise. The first failing scan fails the whole; the types
    /// after it are not scanned.
    pub fn scan_into(&self, results: &mut Vec<(String, Json)>, progress: &mut ScanProgress) -> (r: Result<(), String>)
        requires
            ec2_total_ok(self.config_spec(), old(progress).total),
        ensures
            final(progress).total == old(progress).total,
            exists|f: Ec2Found|
                ec2_fit(self.config_spec(), f) && targets_spec(
                (jv_entries(old(results)@), events_view(old(progress).events@), old(progress).completed),
                old(progress).total,
                ec2_targets(),
                #[trigger] ec2_outcomes(self.config_spec(), f),
            ) == ((jv_entries(final(results)@), events_view(final(progress).events@), final(progress).completed), error_of(r)),
    {
        let mut failed = false;
        let instances = if !self.config.target_enabled("instances") {
            Ok(Vec::new())
        } else if failed {
            Err(String::new())
        } else {
            let r = self.scan_instances();
            failed = r.is_err();
            r
        };
        let found = Ec2Found { instances };
        proof {
            assert(jv_list(Seq::<Json>::empty()) =~= Seq::<JsonV>::empty());
        }
        self.scan_into_from(results, progress, found)
    }

    /// Writes what each target's scan gave into a scan result and its
    /// progress: for each target in order, an empty list when it is off, else
    /// its records, with a report at its start and end; the first failed
    /// scan ends the whole with its error.
    pub fn scan_into_from(&self, results: &mut Vec<(String, Json)>, progress: &mut ScanProgress, found: Ec2Found) -> (r: Result<(), String>)
        requires
            ec2_total_ok(self.config_spec(), old(progress).total),
        ensures
            final(progress).total == old(progress).total,
            targets_spec(
                (jv_entries(old(results)@), events_view(old(progress).events@), old(progress).completed),
                old(progress).total,
                ec2_targets(),
                ec2_outcomes(self.config_spec(), found),
            ) == ((jv_entries(final(results)@), events_view(final(progress).events@), final(progress).completed), error_of(r)),
    {
        let ghost f = found;
        let mut outs: Vec<TargetOutcome> = Vec::new();
        outs.push(outcome(self.config.target_enabled("instances"), found.instances));
        let mut targets: Vec<(&str, &str)> = Vec::new();
        targets.push(("instances", "EC2 Instances"));
        assert(targets_view(targets@) =~= ec2_targets());
        assert(outs@.map_values(|o: TargetOutcome| outcome_view(o)) =~= ec2_outcomes(self.config_spec(), f));
        record_targets(results, progress, &targets, outs)
    }
}

/// Scans VPC networking resources through a client.
pub struct AwsVpcScanner<C: Ec2ClientOps> {
    config: ScanConfig,
    ec2_client: Arc<C>,
}

/// What the client's listing of each VPC-scanner target gave.
pub struct VpcListings {
    pub vpcs: Result<Vec<VpcInfo>, String>,
    pub subnets: Result<Vec<SubnetInfo>, String>,
    pub route_tables: Result<Vec<RouteTableInfo>, String>,
    pub security_groups: Result<Vec<SecurityGroupInfo>, String>,
    pub network_acls: Result<Vec<NetworkAclInfo>, String>,
    pub internet_gateways: Result<Vec<InternetGatewayInfo>, String>,
    pub nat_gateways: Result<Vec<NatGatewayInfo>, String>,
    pub elastic_ips: Result<Vec<ElasticIpInfo>, String>,
}

/// A listing's result mapped to records.
pub open spec fn mapped<T>(r: Result<Vec<T>, String>, f: spec_fn(Seq<T>) -> Seq<JsonV>) -> Result<Seq<JsonV>, Seq<char>> {
    match r {
        Ok(v) => Ok(f(v@)),
        Err(e) => Err(e@),
    }
}

/// The VPC scanner's targets: result key and progress label, in order.
pub open spec fn vpc_targets() -> Seq<(Seq<char>, Seq<char>)> {
    seq![
        ("vpcs"@, "VPCs"@),
        ("subnets"@, "Subnets"@),
        ("route_tables"@, "Route Tables"@),
        ("security_groups"@, "Security Groups"@),
        ("network_acls"@, "Network ACLs"@),
        ("internet_gateways"@, "Internet Gateways"@),
        ("nat_gateways"@, "NAT Gateways"@),
        ("elastic_ips"@, "Elastic IPs"@),
    ]
}

/// The outcome of each VPC-scanner target under a request, from the
/// listings.
pub open spec fn vpc_outcomes(c: ScanConfig, l: VpcListings) -> Seq<OutcomeV> {
    seq![
        outcome_of(target_on(c.scan_targets@, "vpcs"@), mapped(l.vpcs, |v: Seq<VpcInfo>| vpcs_spec(v))),
        outcome_of(target_on(c.scan_targets@, "subnets"@), mapped(l.subnets, |v: Seq<SubnetInfo>| subnets_spec(v))),
        outcome_of(target_on(c.scan_targets@, "route_tables"@), mapped(l.route_tables, |v: Seq<RouteTableInfo>| route_tables_spec(v))),
        outcome_of(target_on(c.scan_targets@, "security_groups"@), mapped(l.security_groups, |v: Seq<SecurityGroupInfo>| security_groups_spec(v))),
        outcome_of(target_on(c.scan_targets@, "network_acls"@), mapped(l.network_acls, |v: Seq<NetworkAclInfo>| network_acls_spec(v))),
        outcome_of(target_on(c.scan_targets@, "internet_gateways"@), mapped(l.internet_gateways, |v: Seq<InternetGatewayInfo>| internet_gateways_spec(v))),
        outcome_of(target_on(c.scan_targets@, "nat_gateways"@), mapped(l.nat_gateways, |v: Seq<NatGatewayInfo>| nat_gateways_spec(v))),
        outcome_of(target_on(c.scan_targets@, "elastic_ips"@), mapped(l.elastic_ips, |v: Seq<ElasticIpInfo>| elastic_ips_spec(v))),
    ]
}

/// Whether a VPC scan may start: the original computes the first four
/// targets' percentages without guarding against a total of zero, so a
/// scan that has one of them on needs a positive total.
pub open spec fn vpc_total_ok(c: ScanConfig, total: usize) -> bool {
    total > 0 || !(target_on(c.scan_targets@, "vpcs"@) || target_on(c.scan_targets@, "subnets"@) || target_on(
        c.scan_targets@,
        "route_tables"@,
    ) || target_on(c.scan_targets@, "security_groups"@))
}

impl<C: Ec2ClientOps> AwsVpcScanner<C> {
    /// The scan request this scanner serves.
    pub closed spec fn config_spec(&self) -> ScanConfig {
        self.config
    }

    /// The client this scanner makes its calls through.
    pub closed spec fn client_spec(&self) -> C {
        *self.ec2_client
    }

    /// A scanner over a shared client.
    pub fn new(config: ScanConfig, client: Arc<C>) -> (r: Self)
        ensures
            r.config_spec() == config,
            r.client_spec() == *client,
    {
        AwsVpcScanner { config, ec2_client: client }
    }

    /// A scanner over the given client.
    pub fn new_with_client(config: ScanConfig, client: C) -> (r: Self)
        ensures
            r.config_spec() == config,
            r.client_spec() == client,
    {
        AwsVpcScanner { config, ec2_client: Arc::new(client) }
    }

    /// The records of the listed vpcs; a failing listing is passed on.
    pub fn scan_vpcs(&self) -> (r: Result<Vec<Json>, String>)
        ensures
            r is Ok ==> exists|v: Seq<VpcInfo>| #[trigger] vpcs_spec(v) == jv_list(r->Ok_0@),
    {
        match self.ec2_client.describe_vpcs() {
            Ok(v) => {
                let out = vpc_list(&v);
                proof {
                    assert(vpcs_spec(v@) == jv_list(out@));
                }
                Ok(out)
            },
            Err(e) => Err(e),
        }
    }

    /// The records of the listed subnets; a failing listing is passed on.
    pub fn scan_subnets(&self) -> (r: Result<Vec<Json>, String>)
        ensures
            r is Ok ==> exists|v: Seq<SubnetInfo>| #[trigger] subnets_spec(v) == jv_list(r->Ok_0@),
    {
        match self.ec2_client.describe_subnets() {
            Ok(v) => {
                let out = subnet_list(&v);
                proof {
                    assert(subnets_spec(v@) == jv_list(out@));
                }
                Ok(out)
            },
            Err(e) => Err(e),
        }
    }

    /// The records of the listed route tables; a failing listing is passed on.
    pub fn scan_route_tables(&self) -> (r: Result<Vec<Json>, String>)
        ensures
            r is Ok ==> exists|v: Seq<RouteTableInfo>| #[trigger] route_tables_spec(v) == jv_list(r->Ok_0@),
    {
        match self.ec2_client.describe_route_tables() {
            Ok(v) => {
                let out = route_table_list(&v);
                proof {
                    assert(route_tables_spec(v@) == jv_list(out@));
                }
                Ok(out)
            },
            Err(e) => Err(e),
        }
    }

    /// The records of the listed security groups; a failing listing is passed on.
    pub fn scan_security_groups(&self) -> (r: Result<Vec<Json>, String>)
        ensures
            r is Ok ==> exists|v: Seq<SecurityGroupInfo>| #[trigger] security_groups_spec(v) == jv_list(r->Ok_0@),
    {
        match self.ec2_client.describe_security_groups() {
            Ok(v) => {
                let out = security_group_list(&v);
                proof {
                    assert(security_groups_spec(v@) == jv_list(out@));
                }
                Ok(out)
            },
            Err(e) => Err(e),
        }
    }

    /// The records of the listed network acls; a failing listing is passed on.
    pub fn scan_network_acls(&self) -> (r: Result<Vec<Json>, String>)
        ensures
            r is Ok ==> exists|v: Seq<NetworkAclInfo>| #[trigger] network_acls_spec(v) == jv_list(r->Ok_0@),
    {
        match self.ec2_client.describe_network_acls() {
            Ok(v) => {
                let out = network_acl_list(&v);
                proof {
                    assert(network_acls_spec(v@) == jv_list(out@));
                }
                Ok(out)
            },
            Err(e) => Err(e),
        }
    }

    /// The records of the listed internet gateways; a failing listing is passed on.
    pub fn scan_internet_gateways(&self) -> (r: Result<Vec<Json>, String>)
        ensures
            r is Ok ==> exists|v: Seq<InternetGatewayInfo>| #[trigger] internet_gateways_spec(v) == jv_list(r->Ok_0@),
    {
        match self.ec2_client.describe_internet_gateways() {
            Ok(v) => {
                let out = internet_gateway_list(&v);
                proof {
                    assert(internet_gateways_spec(v@) == jv_list(out@));
                }
                Ok(out)
            },
            Err(e) => Err(e),
        }
    }

    /// The records of the listed nat gateways; a failing listing is passed on.
    pub fn scan_nat_gateways(&self) -> (r: Result<Vec<Json>, String>)
        ensures
            r is Ok ==> exists|v: Seq<NatGatewayInfo>| #[trigger] nat_gateways_spec(v) == jv_list(r->Ok_0@),
    {
        match self.ec2_client.describe_nat_gateways() {
            Ok(v) => {
                let out = nat_gateway_list(&v);
                proof {
                    assert(nat_gateways_spec(v@) == jv_list(out@));
                }
                Ok(out)
            },
            Err(e) => Err(e),
        }
    }

    /// The records of the listed elastic ips; a failing listing is passed on.
    pub fn scan_elastic_ips(&self) -> (r: Result<Vec<Json>, String>)
        ensures
            r is Ok ==> exists|v: Seq<ElasticIpInfo>| #[trigger] elastic_ips_spec(v) == jv_list(r->Ok_0@),
    {
        match self.ec2_client.describe_addresses() {
            Ok(v) => {
                let out = elastic_ip_list(&v);
                proof {
                    assert(elastic_ips_spec(v@) == jv_list(out@));
                }
                Ok(out)
            },
            Err(e) => Err(e),
        }
    }

    /// Adds the list of each resource type of this scanner to a scan
    /// result: the records of its listing when the type is switched on, an
    /// empty list otherwise. The first failing listing fails the scan; the
    /// types after it are not listed.
    pub fn scan_into(&self, results: &mut Vec<(String, Json)>, progress: &mut ScanProgress) -> (r: Result<(), String>)
        requires
            vpc_total_ok(self.config_spec(), old(progress).total),
        ensures
            final(progress).total == old(progress).total,
            exists|l: VpcListings|
                targets_spec(
                    (jv_entries(old(results)@), events_view(old(progress).events@), old(progress).completed),
                    old(progress).total,
                    vpc_targets(),
                    #[trigger] vpc_outcomes(self.config_spec(), l),
                ) == ((jv_entries(final(results)@), events_view(final(progress).events@), final(progress).completed), error_of(r)),
    {
        let mut failed = false;
        let vpcs = if !failed && self.config.target_enabled("vpcs") {
            let r = self.ec2_client.describe_vpcs();
            failed = r.is_err();
            r
        } else {
            Ok(Vec::new())
        };
        let subnets = if !failed && self.config.target_enabled("subnets") {
            let r = self.ec2_client.describe_subnets();
            failed = r.is_err();
            r
        } else {
            Ok(Vec::new())
        };
        let route_tables = if !failed && self.config.target_enabled("route_tables") {
            let r = self.ec2_client.describe_route_tables();
            failed = r.is_err();
            r
        } else {
            Ok(Vec::new())
        };
        let security_groups = if !failed && self.config.target_enabled("security_groups") {
            let r = self.ec2_client.describe_security_groups();
            failed = r.is_err();
            r
        } else {
            Ok(Vec::new())
        };
        let network_acls = if !failed && self.config.target_enabled("network_acls") {
            let r = self.ec2_client.describe_network_acls();
            failed = r.is_err();
            r
        } else {
            Ok(Vec::new())
        };
        let internet_gateways = if !failed && self.config.target_enabled("internet_gateways") {
            let r = self.ec2_client.describe_internet_gateways();
            failed = r.is_err();
            r
        } else {
            Ok(Vec::new())
        };
        let nat_gateways = if !failed && self.config.target_enabled("nat_gateways") {
            let r = self.ec2_client.describe_nat_gateways();
            failed = r.is_err();
            r
        } else {
            Ok(Vec::new())
        };
        let elastic_ips = if !failed && self.config.target_enabled("elastic_ips") {
            let r = self.ec2_client.describe_addresses();
            failed = r.is_err();
            r
        } else {
            Ok(Vec::new())
        };
        let listings = VpcListings { vpcs, subnets, route_tables, security_groups, network_acls, internet_gateways, nat_gateways, elastic_ips };
        self.scan_into_from(results, progress, listings)
    }

    /// Writes what the listings gave into a scan result and its progress:
    /// for each target in order, an empty list when it is off, else its
    /// records, with a report at its start and end; the first failed listing
    /// ends the scan with its error.
    #[verifier::rlimit(50)]
    pub fn scan_into_from(&self, results: &mut Vec<(String, Json)>, progress: &mut ScanProgress, listings: VpcListings) -> (r: Result<(), String>)
        requires
            vpc_total_ok(self.config_spec(), old(progress).total),
        ensures
            final(progress).total == old(progress).total,
            targets_spec(
                (jv_entries(old(results)@), events_view(old(progress).events@), old(progress).completed),
                old(progress).total,
                vpc_targets(),
                vpc_outcomes(self.config_spec(), listings),
            ) == ((jv_entries(final(results)@), events_view(final(progress).events@), final(progress).completed), error_of(r)),
    {
        let ghost l = listings;
        let mut outs: Vec<TargetOutcome> = Vec::new();
        outs.push(outcome(self.config.target_enabled("vpcs"), match listings.vpcs {
            Ok(v) => Ok(vpc_list(&v)),
            Err(e) => Err(e),
        }));
        outs.push(outcome(self.config.target_enabled("subnets"), match listings.subnets {
            Ok(v) => Ok(subnet_list(&v)),
            Err(e) => Err(e),
        }));
        outs.push(outcome(self.config.target_enabled("route_tables"), match listings.route_tables {
            Ok(v) => Ok(route_table_list(&v)),
            Err(e) => Err(e),
        }));
        outs.push(outcome(self.config.target_enabled("security_groups"), match listings.security_groups {
            Ok(v) => Ok(security_group_list(&v)),
            Err(e) => Err(e),
        }));
        outs.push(outcome(self.config.target_enabled("network_acls"), match listings.network_acls {
            Ok(v) => Ok(network_acl_list(&v)),
            Err(e) => Err(e),
        }));
        outs.push(outcome(self.config.target_enabled("internet_gateways"), match listings.internet_gateways {
            Ok(v) => Ok(internet_gateway_list(&v)),
            Err(e) => Err(e),
        }));
        outs.push(outcome(self.config.target_enabled("nat_gateways"), match listings.nat_gateways {
            Ok(v) => Ok(nat_gateway_list(&v)),
            Err(e) => Err(e),
        }));
        outs.push(outcome(self.config.target_enabled("elastic_ips"), match listings.elastic_ips {
            Ok(v) => Ok(elastic_ip_list(&v)),
            Err(e) => Err(e),
        }));
        let mut targets: Vec<(&str, &str)> = Vec::new();
        targets.push(("vpcs", "VPCs"));
        targets.push(("subnets", "Subnets"));
        targets.push(("route_tables", "Route Tables"));
        targets.push(("security_groups", "Security Groups"));
        targets.push(("network_acls", "Network ACLs"));
        targets.push(("internet_gateways", "Internet Gateways"));
        targets.push(("nat_gateways", "NAT Gateways"));
        targets.push(("elastic_ips", "Elastic IPs"));
        proof {
            assert(targets_view(targets@) =~= vpc_targets());
            assert(outs@.map_values(|o: TargetOutcome| outcome_view(o)) =~= vpc_outcomes(self.config_spec(), l));
        }
        record_targets(results, progress, &targets, outs)
    }
}

/// The records of a listing of `Ec2InstanceInfo`, in order.
pub open spec fn instances_spec(v: Seq<Ec2InstanceInfo>) -> Seq<JsonV> {
    v.map_values(|x: Ec2InstanceInfo| instance_spec(x))
}

/// The records of a listing of `VpcInfo`, in order.
pub open spec fn vpcs_spec(v: Seq<VpcInfo>) -> Seq<JsonV> {
    v.map_values(|x: VpcInfo| vpc_spec(x))
}

/// The records of a listing of `SubnetInfo`, in order.
pub open spec fn subnets_spec(v: Seq<SubnetInfo>) -> Seq<JsonV> {
    v.map_values(|x: SubnetInfo| subnet_spec(x))
}

/// The records of a listing of `RouteTableInfo`, in order.
pub open spec fn route_tables_spec(v: Seq<RouteTableInfo>) -> Seq<JsonV> {
    v.map_values(|x: RouteTableInfo| route_table_spec(x))
}

/// The records of a listing of `SecurityGroupInfo`, in order.
pub open spec fn security_groups_spec(v: Seq<SecurityGroupInfo>) -> Seq<JsonV> {
    v.map_values(|x: SecurityGroupInfo| security_group_spec(x))
}

/// The records of a listing of `NetworkAclInfo`, in order.
pub open spec fn network_acls_spec(v: Seq<NetworkAclInfo>) -> Seq<JsonV> {
    v.map_values(|x: NetworkAclInfo| network_acl_spec(x))
}

/// The records of a listing of `InternetGatewayInfo`, in order.
pub open spec fn internet_gateways_spec(v: Seq<InternetGatewayInfo>) -> Seq<JsonV> {
    v.map_values(|x: InternetGatewayInfo| internet_gateway_spec(x))
}

/// The records of a listing of `NatGatewayInfo`, in order.
pub open spec fn nat_gateways_spec(v: Seq<NatGatewayInfo>) -> Seq<JsonV> {
    v.map_values(|x: NatGatewayInfo| nat_gateway_spec(x))
}

/// The records of a listing of `ElasticIpInfo`, in order.
pub open spec fn elastic_ips_spec(v: Seq<ElasticIpInfo>) -> Seq<JsonV> {
    v.map_values(|x: ElasticIpInfo| elastic_ip_spec(x))
}

/// What a scan result holds under `instances`: the records of a listing when
/// the request asks for them, an empty list otherwise.
pub open spec fn instances_slot(c: ScanConfig, v: JsonV) -> bool {
    match v {
        JsonV::Array(s) => if target_on(c.scan_targets@, "instances"@) {
            exists|x: Seq<Ec2InstanceInfo>| #[trigger] instances_spec(x) == s
        } else {
            s.len() == 0
        },
        _ => false,
    }
}

} // verus!
