use vstd::prelude::*;
use std::sync::Arc;
use crate::aws::dynamodb::{tag_list_json, tag_list_spec};
use crate::aws::iam::{num, number, tags_json, tags_spec};
use crate::aws::record::{entry_if, opt_int, opt_nonempty, opt_num, opt_text, push_one, push_opt_int, push_opt_nonempty, push_opt_num, push_opt_text, texts_json};
use crate::json::{insert_entry, insert_spec, jv_entries, jv_list, lemma_jv_list_append, push_item, text, text_array, Json, JsonV};
use crate::models::request::{name_prefix_ok, target_on, ScanConfig};
use crate::aws::progress::{done_message, events_view, next_count, percent_spec, scanning_message, ScanProgress};
use crate::aws::targets::{error_of, listed_view, outcome, outcome_of, outcome_view, record_targets, targets_spec, targets_view, ScanStateV, TargetOutcome};

verus! {

/// An application load balancer as described by AWS.
#[derive(Debug)]
pub struct ALBInfo {
    pub load_balancer_arn: String,
    pub name: String,
    pub dns_name: Option<String>,
    pub scheme: Option<String>,
    pub lb_type: Option<String>,
    pub vpc_id: Option<String>,
    pub subnets: Vec<String>,
    pub security_groups: Vec<String>,
    pub tags: Vec<(String, String)>,
}

/// A listener of a load balancer.
#[derive(Debug)]
pub struct ListenerInfo {
    pub listener_arn: String,
    pub load_balancer_arn: String,
    pub port: Option<i32>,
    pub protocol: Option<String>,
    pub default_actions: Vec<ListenerActionInfo>,
}

/// A default action of a listener.
#[derive(Debug)]
pub struct ListenerActionInfo {
    pub action_type: String,
    pub target_group_arn: Option<String>,
}

/// A target group as described by AWS.
#[derive(Debug)]
pub struct TargetGroupInfo {
    pub target_group_arn: String,
    pub name: String,
    pub port: Option<i32>,
    pub protocol: Option<String>,
    pub vpc_id: Option<String>,
    pub target_type: Option<String>,
    pub health_check_path: Option<String>,
    pub health_check_port: Option<String>,
    pub health_check_protocol: Option<String>,
    pub health_check_interval: Option<i32>,
    pub health_check_timeout: Option<i32>,
    pub healthy_threshold: Option<i32>,
    pub unhealthy_threshold: Option<i32>,
    pub tags: Vec<(String, String)>,
}

/// The ELBv2 calls a scan makes; implemented over the AWS SDK by the
/// application and by test doubles.
pub trait ELBClientOps {
    fn describe_load_balancers(&self) -> Result<Vec<ALBInfo>, String>;

    fn describe_listeners(&self, lb_arn: &str) -> Result<Vec<ListenerInfo>, String>;

    fn describe_target_groups(&self) -> Result<Vec<TargetGroupInfo>, String>;
}

/// The health-check settings of a target group that are set.
pub open spec fn health_check_entries(v: TargetGroupInfo) -> Seq<(Seq<char>, JsonV)> {
    opt_text("path"@, v.health_check_path) + opt_text("port"@, v.health_check_port) + opt_text(
        "protocol"@,
        v.health_check_protocol,
    ) + opt_int("interval"@, v.health_check_interval) + opt_int("timeout"@, v.health_check_timeout)
        + opt_int("healthy_threshold"@, v.healthy_threshold) + opt_int(
        "unhealthy_threshold"@,
        v.unhealthy_threshold,
    )
}

/// The health-check settings of a target group that are set.
fn health_check_of(v: &TargetGroupInfo) -> (r: Vec<(String, Json)>)
    ensures
        jv_entries(r@) == health_check_entries(*v),
{
    let mut e: Vec<(String, Json)> = Vec::new();
    assert(jv_entries(e@) =~= Seq::<(Seq<char>, JsonV)>::empty());
    push_opt_text(&mut e, "path", &v.health_check_path);
    assert(jv_entries(e@) =~= opt_text("path"@, v.health_check_path));
    push_opt_text(&mut e, "port", &v.health_check_port);
    push_opt_text(&mut e, "protocol", &v.health_check_protocol);
    push_opt_int(&mut e, "interval", v.health_check_interval);
    push_opt_int(&mut e, "timeout", v.health_check_timeout);
    push_opt_int(&mut e, "healthy_threshold", v.healthy_threshold);
    push_opt_int(&mut e, "unhealthy_threshold", v.unhealthy_threshold);
    e
}

/// The scan record of a load balancer.
pub open spec fn load_balancer_spec(v: ALBInfo) -> JsonV {
    JsonV::Object(Seq::empty() + seq![("name"@, JsonV::Str(v.name@))] + seq![("load_balancer_arn"@, JsonV::Str(v.load_balancer_arn@))] + opt_text("dns_name"@, v.dns_name) + opt_text("scheme"@, v.scheme) + opt_text("type"@, v.lb_type) + opt_text("vpc_id"@, v.vpc_id) + entry_if(v.subnets@.len() > 0, "subnets"@, texts_json(v.subnets@)) + entry_if(v.security_groups@.len() > 0, "security_groups"@, texts_json(v.security_groups@)) + entry_if(v.tags@.len() > 0, "tags"@, tag_list_spec(v.tags@)))
}

/// The scan record of a load balancer.
#[verifier::rlimit(40)]
pub fn load_balancer_json(v: &ALBInfo) -> (r: Json)
    ensures
        r@ == load_balancer_spec(*v),
{
    let mut e: Vec<(String, Json)> = Vec::new();
    assert(jv_entries(e@) =~= Seq::<(Seq<char>, JsonV)>::empty());
    let ghost p0 = jv_entries(e@);
    push_one(&mut e, "name", text(v.name.as_str()));
    assert(jv_entries(e@) =~= p0 + seq![("name"@, JsonV::Str(v.name@))]);
    let ghost p1 = jv_entries(e@);
    push_one(&mut e, "load_balancer_arn", text(v.load_balancer_arn.as_str()));
    assert(jv_entries(e@) =~= p1 + seq![("load_balancer_arn"@, JsonV::Str(v.load_balancer_arn@))]);
    let ghost p2 = jv_entries(e@);
    push_opt_text(&mut e, "dns_name", &v.dns_name);
    assert(jv_entries(e@) =~= p2 + opt_text("dns_name"@, v.dns_name));
    let ghost p3 = jv_entries(e@);
    push_opt_text(&mut e, "scheme", &v.scheme);
    assert(jv_entries(e@) =~= p3 + opt_text("scheme"@, v.scheme));
    let ghost p4 = jv_entries(e@);
    push_opt_text(&mut e, "type", &v.lb_type);
    assert(jv_entries(e@) =~= p4 + opt_text("type"@, v.lb_type));
    let ghost p5 = jv_entries(e@);
    push_opt_text(&mut e, "vpc_id", &v.vpc_id);
    assert(jv_entries(e@) =~= p5 + opt_text("vpc_id"@, v.vpc_id));
    let ghost p6 = jv_entries(e@);
    if v.subnets.len() > 0 {
        push_one(&mut e, "subnets", text_array(&v.subnets));
    }
    assert(jv_entries(e@) =~= p6 + entry_if(v.subnets@.len() > 0, "subnets"@, texts_json(v.subnets@)));
    let ghost p7 = jv_entries(e@);
    if v.security_groups.len() > 0 {
        push_one(&mut e, "security_groups", text_array(&v.security_groups));
    }
    assert(jv_entries(e@) =~= p7 + entry_if(v.security_groups@.len() > 0, "security_groups"@, texts_json(v.security_groups@)));
    let ghost p8 = jv_entries(e@);
    if v.tags.len() > 0 {
        push_one(&mut e, "tags", tag_list_json(&v.tags));
    }
    assert(jv_entries(e@) =~= p8 + entry_if(v.tags@.len() > 0, "tags"@, tag_list_spec(v.tags@)));
    Json::Object(e)
}

/// The records of a list, in order.
pub fn load_balancer_list(v: &Vec<ALBInfo>) -> (r: Vec<Json>)
    ensures
        jv_list(r@) == v@.map_values(|x: ALBInfo| load_balancer_spec(x)),
{
    let mut out: Vec<Json> = Vec::new();
    let mut i: usize = 0;
    assert(v@.take(0).map_values(|x: ALBInfo| load_balancer_spec(x)) =~= Seq::<JsonV>::empty());
    while i < v.len()
        invariant
            i <= v.len(),
            jv_list(out@) == v@.take(i as int).map_values(|x: ALBInfo| load_balancer_spec(x)),
        decreases v.len() - i,
    {
        push_item(&mut out, load_balancer_json(&v[i]));
        assert(v@.take(i + 1).map_values(|x: ALBInfo| load_balancer_spec(x)) =~= v@.take(i as int).map_values(
            |x: ALBInfo| load_balancer_spec(x),
        ).push(load_balancer_spec(v@[i as int])));
        i = i + 1;
    }
    assert(v@.take(v.len() as int) =~= v@);
    out
}

/// The record of a listener action.
pub open spec fn listener_action_spec(v: ListenerActionInfo) -> JsonV {
    JsonV::Object(Seq::empty() + seq![("type"@, JsonV::Str(v.action_type@))] + opt_text("target_group_arn"@, v.target_group_arn))
}

/// The record of a listener action.
pub fn listener_action_json(v: &ListenerActionInfo) -> (r: Json)
    ensures
        r@ == listener_action_spec(*v),
{
    let mut e: Vec<(String, Json)> = Vec::new();
    assert(jv_entries(e@) =~= Seq::<(Seq<char>, JsonV)>::empty());
    let ghost p0 = jv_entries(e@);
    push_one(&mut e, "type", text(v.action_type.as_str()));
    assert(jv_entries(e@) =~= p0 + seq![("type"@, JsonV::Str(v.action_type@))]);
    let ghost p1 = jv_entries(e@);
    push_opt_text(&mut e, "target_group_arn", &v.target_group_arn);
    assert(jv_entries(e@) =~= p1 + opt_text("target_group_arn"@, v.target_group_arn));
    Json::Object(e)
}

/// The records of a list, in order.
pub fn listener_action_list(v: &Vec<ListenerActionInfo>) -> (r: Vec<Json>)
    ensures
        jv_list(r@) == v@.map_values(|x: ListenerActionInfo| listener_action_spec(x)),
{
    let mut out: Vec<Json> = Vec::new();
    let mut i: usize = 0;
    assert(v@.take(0).map_values(|x: ListenerActionInfo| listener_action_spec(x)) =~= Seq::<JsonV>::empty());
    while i < v.len()
        invariant
            i <= v.len(),
            jv_list(out@) == v@.take(i as int).map_values(|x: ListenerActionInfo| listener_action_spec(x)),
        decreases v.len() - i,
    {
        push_item(&mut out, listener_action_json(&v[i]));
        assert(v@.take(i + 1).map_values(|x: ListenerActionInfo| listener_action_spec(x)) =~= v@.take(i as int).map_values(
            |x: ListenerActionInfo| listener_action_spec(x),
        ).push(listener_action_spec(v@[i as int])));
        i = i + 1;
    }
    assert(v@.take(v.len() as int) =~= v@);
    out
}

/// The scan record of a listener.
pub open spec fn listener_spec(v: ListenerInfo) -> JsonV {
    JsonV::Object(Seq::empty() + seq![("listener_arn"@, JsonV::Str(v.listener_arn@))] + seq![("load_balancer_arn"@, JsonV::Str(v.load_balancer_arn@))] + opt_int("port"@, v.port) + opt_text("protocol"@, v.protocol) + entry_if(v.default_actions@.len() > 0, "default_actions"@, JsonV::Array(v.default_actions@.map_values(|x: ListenerActionInfo| listener_action_spec(x)))))
}

/// The scan record of a listener.
pub fn listener_json(v: &ListenerInfo) -> (r: Json)
    ensures
        r@ == listener_spec(*v),
{
    let mut e: Vec<(String, Json)> = Vec::new();
    assert(jv_entries(e@) =~= Seq::<(Seq<char>, JsonV)>::empty());
    let ghost p0 = jv_entries(e@);
    push_one(&mut e, "listener_arn", text(v.listener_arn.as_str()));
    assert(jv_entries(e@) =~= p0 + seq![("listener_arn"@, JsonV::Str(v.listener_arn@))]);
    let ghost p1 = jv_entries(e@);
    push_one(&mut e, "load_balancer_arn", text(v.load_balancer_arn.as_str()));
    assert(jv_entries(e@) =~= p1 + seq![("load_balancer_arn"@, JsonV::Str(v.load_balancer_arn@))]);
    let ghost p2 = jv_entries(e@);
    push_opt_int(&mut e, "port", v.port);
    assert(jv_entries(e@) =~= p2 + opt_int("port"@, v.port));
    let ghost p3 = jv_entries(e@);
    push_opt_text(&mut e, "protocol", &v.protocol);
    assert(jv_entries(e@) =~= p3 + opt_text("protocol"@, v.protocol));
    let ghost p4 = jv_entries(e@);
    if v.default_actions.len() > 0 {
        push_one(&mut e, "default_actions", Json::Array(listener_action_list(&v.default_actions)));
    }
    assert(jv_entries(e@) =~= p4 + entry_if(v.default_actions@.len() > 0, "default_actions"@, JsonV::Array(v.default_actions@.map_values(|x: ListenerActionInfo| listener_action_spec(x)))));
    Json::Object(e)
}

/// The records of a list, in order.
pub fn listener_list(v: &Vec<ListenerInfo>) -> (r: Vec<Json>)
    ensures
        jv_list(r@) == v@.map_values(|x: ListenerInfo| listener_spec(x)),
{
    let mut out: Vec<Json> = Vec::new();
    let mut i: usize = 0;
    assert(v@.take(0).map_values(|x: ListenerInfo| listener_spec(x)) =~= Seq::<JsonV>::empty());
    while i < v.len()
        invariant
            i <= v.len(),
            jv_list(out@) == v@.take(i as int).map_values(|x: ListenerInfo| listener_spec(x)),
        decreases v.len() - i,
    {
        push_item(&mut out, listener_json(&v[i]));
        assert(v@.take(i + 1).map_values(|x: ListenerInfo| listener_spec(x)) =~= v@.take(i as int).map_values(
            |x: ListenerInfo| listener_spec(x),
        ).push(listener_spec(v@[i as int])));
        i = i + 1;
    }
    assert(v@.take(v.len() as int) =~= v@);
    out
}

/// The listener records of the load balancer records, from what listing
/// the listeners of each gave (`found[i]` for `lbs[i]`; none where it
/// failed): for each load balancer with an ARN, in order, its listeners.
pub fn listeners_from(lbs: &Vec<Json>, found: &Vec<Option<Vec<ListenerInfo>>>) -> (r: Vec<Json>)
    ensures
        jv_list(r@) == listeners_upto(jv_list(lbs@), found@, lbs.len() as int),
{
    let ghost sv = jv_list(lbs@);
    proof {
        crate::json::lemma_jv_list(lbs@);
    }
    let mut out: Vec<Json> = Vec::new();
    let mut i: usize = 0;
    while i < lbs.len()
        invariant
            i <= lbs.len(),
            sv == jv_list(lbs@),
            sv.len() == lbs@.len(),
            forall|j: int| 0 <= j < lbs@.len() ==> #[trigger] sv[j] == lbs@[j]@,
            jv_list(out@) == listeners_upto(sv, found@, i as int),
        decreases lbs.len() - i,
    {
        let ghost before = jv_list(out@);
        assert(sv[i as int] == lbs@[i as int]@);
        if lbs[i].str_field("load_balancer_arn").is_some() && i < found.len() {
            match &found[i] {
                Some(ls) => {
                    let mut recs = listener_list(ls);
                    let ghost added = jv_list(recs@);
                    proof {
                        lemma_jv_list_append(out@, recs@);
                    }
                    out.append(&mut recs);
                    assert(jv_list(out@) == before + added);
                },
                None => {},
            }
        }
        i = i + 1;
    }
    out
}

/// The scan record of a target group.
pub open spec fn target_group_spec(v: TargetGroupInfo) -> JsonV {
    JsonV::Object(Seq::empty() + seq![("name"@, JsonV::Str(v.name@))] + seq![("target_group_arn"@, JsonV::Str(v.target_group_arn@))] + opt_int("port"@, v.port) + opt_text("protocol"@, v.protocol) + opt_text("vpc_id"@, v.vpc_id) + opt_text("target_type"@, v.target_type) + entry_if(health_check_entries(v).len() > 0, "health_check"@, JsonV::Object(health_check_entries(v))) + entry_if(v.tags@.len() > 0, "tags"@, tag_list_spec(v.tags@)))
}

/// The scan record of a target group.
#[verifier::rlimit(40)]
pub fn target_group_json(v: &TargetGroupInfo) -> (r: Json)
    ensures
        r@ == target_group_spec(*v),
{
    let mut e: Vec<(String, Json)> = Vec::new();
    assert(jv_entries(e@) =~= Seq::<(Seq<char>, JsonV)>::empty());
    let ghost p0 = jv_entries(e@);
    push_one(&mut e, "name", text(v.name.as_str()));
    assert(jv_entries(e@) =~= p0 + seq![("name"@, JsonV::Str(v.name@))]);
    let ghost p1 = jv_entries(e@);
    push_one(&mut e, "target_group_arn", text(v.target_group_arn.as_str()));
    assert(jv_entries(e@) =~= p1 + seq![("target_group_arn"@, JsonV::Str(v.target_group_arn@))]);
    let ghost p2 = jv_entries(e@);
    push_opt_int(&mut e, "port", v.port);
    assert(jv_entries(e@) =~= p2 + opt_int("port"@, v.port));
    let ghost p3 = jv_entries(e@);
    push_opt_text(&mut e, "protocol", &v.protocol);
    assert(jv_entries(e@) =~= p3 + opt_text("protocol"@, v.protocol));
    let ghost p4 = jv_entries(e@);
    push_opt_text(&mut e, "vpc_id", &v.vpc_id);
    assert(jv_entries(e@) =~= p4 + opt_text("vpc_id"@, v.vpc_id));
    let ghost p5 = jv_entries(e@);
    push_opt_text(&mut e, "target_type", &v.target_type);
    assert(jv_entries(e@) =~= p5 + opt_text("target_type"@, v.target_type));
    let ghost p6 = jv_entries(e@);
    let hc = health_check_of(v);
    if hc.len() > 0 {
        push_one(&mut e, "health_check", Json::Object(hc));
    }
    assert(jv_entries(e@) =~= p6 + entry_if(health_check_entries(*v).len() > 0, "health_check"@, JsonV::Object(health_check_entries(*v))));
    let ghost p7 = jv_entries(e@);
    if v.tags.len() > 0 {
        push_one(&mut e, "tags", tag_list_json(&v.tags));
    }
    assert(jv_entries(e@) =~= p7 + entry_if(v.tags@.len() > 0, "tags"@, tag_list_spec(v.tags@)));
    Json::Object(e)
}

/// The records of a list, in order.
pub fn target_group_list(v: &Vec<TargetGroupInfo>) -> (r: Vec<Json>)
    ensures
        jv_list(r@) == v@.map_values(|x: TargetGroupInfo| target_group_spec(x)),
{
    let mut out: Vec<Json> = Vec::new();
    let mut i: usize = 0;
    assert(v@.take(0).map_values(|x: TargetGroupInfo| target_group_spec(x)) =~= Seq::<JsonV>::empty());
    while i < v.len()
        invariant
            i <= v.len(),
            jv_list(out@) == v@.take(i as int).map_values(|x: TargetGroupInfo| target_group_spec(x)),
        decreases v.len() - i,
    {
        push_item(&mut out, target_group_json(&v[i]));
        assert(v@.take(i + 1).map_values(|x: TargetGroupInfo| target_group_spec(x)) =~= v@.take(i as int).map_values(
            |x: TargetGroupInfo| target_group_spec(x),
        ).push(target_group_spec(v@[i as int])));
        i = i + 1;
    }
    assert(v@.take(v.len() as int) =~= v@);
    out
}

/// The records of the items whose names pass the prefix filter, in order.
pub open spec fn load_balancers_filtered(f: Seq<(String, String)>, v: Seq<ALBInfo>) -> Seq<JsonV>
    decreases v.len(),
{
    if v.len() == 0 {
        Seq::empty()
    } else {
        let rest = load_balancers_filtered(f, v.drop_last());
        if name_prefix_ok(f, v.last().name@) {
            rest.push(load_balancer_spec(v.last()))
        } else {
            rest
        }
    }
}

/// The records of the items whose names pass the request's prefix filter.
pub fn load_balancers_passing(c: &ScanConfig, v: &Vec<ALBInfo>) -> (r: Vec<Json>)
    ensures
        jv_list(r@) == load_balancers_filtered(c.filters@, v@),
{
    let mut out: Vec<Json> = Vec::new();
    let mut i: usize = 0;
    while i < v.len()
        invariant
            i <= v.len(),
            jv_list(out@) == load_balancers_filtered(c.filters@, v@.take(i as int)),
        decreases v.len() - i,
    {
        assert(v@.take(i + 1).drop_last() =~= v@.take(i as int));
        if c.name_passes(v[i].name.as_str()) {
            push_item(&mut out, load_balancer_json(&v[i]));
        }
        i = i + 1;
    }
    assert(v@.take(v.len() as int) =~= v@);
    out
}

/// The records of the items whose names pass the prefix filter, in order.
pub open spec fn target_groups_filtered(f: Seq<(String, String)>, v: Seq<TargetGroupInfo>) -> Seq<JsonV>
    decreases v.len(),
{
    if v.len() == 0 {
        Seq::empty()
    } else {
        let rest = target_groups_filtered(f, v.drop_last());
        if name_prefix_ok(f, v.last().name@) {
            rest.push(target_group_spec(v.last()))
        } else {
            rest
        }
    }
}

/// The records of the items whose names pass the request's prefix filter.
pub fn target_groups_passing(c: &ScanConfig, v: &Vec<TargetGroupInfo>) -> (r: Vec<Json>)
    ensures
        jv_list(r@) == target_groups_filtered(c.filters@, v@),
{
    let mut out: Vec<Json> = Vec::new();
    let mut i: usize = 0;
    while i < v.len()
        invariant
            i <= v.len(),
            jv_list(out@) == target_groups_filtered(c.filters@, v@.take(i as int)),
        decreases v.len() - i,
    {
        assert(v@.take(i + 1).drop_last() =~= v@.take(i as int));
        if c.name_passes(v[i].name.as_str()) {
            push_item(&mut out, target_group_json(&v[i]));
        }
        i = i + 1;
    }
    assert(v@.take(v.len() as int) =~= v@);
    out
}

/// Scans application load balancers, their listeners and target groups
/// through a client.
pub struct AwsELBScanner<C: ELBClientOps> {
    config: ScanConfig,
    elb_client: Arc<C>,
}

/// What the scans of the load balancer scanner gave: the load balancers,
/// the listeners listed for each of them (none where that failed), and the
/// target groups.
pub struct ElbFound {
    pub load_balancers: Result<Vec<Json>, String>,
    pub listeners: Vec<Option<Vec<ListenerInfo>>>,
    pub lb_target_groups: Result<Vec<Json>, String>,
}

/// Whether each type's records are what its scan can give.
pub open spec fn elb_fit(c: ScanConfig, f: ElbFound) -> bool {
    &&& f.load_balancers is Ok ==> load_balancers_slot(c, JsonV::Array(jv_list(f.load_balancers->Ok_0@)))
    &&& f.lb_target_groups is Ok ==> lb_target_groups_slot(c, JsonV::Array(jv_list(f.lb_target_groups->Ok_0@)))
}

/// What the load balancer scanner writes from what its scans gave: when
/// load balancers are on, a report at the start, then (unless their listing
/// failed, which ends the scan with its error) their records and the
/// listeners of each, the count and a report at the end; empty lists when
/// they are off; then the target groups as one more target.
pub open spec fn elb_spec(c: ScanConfig, s: ScanStateV, total: usize, f: ElbFound) -> (ScanStateV, Option<Seq<char>>) {
    let started = s.1.push((percent_spec(s.2 as int, total as int), scanning_message("Load Balancers"@)));
    let first: (ScanStateV, Option<Seq<char>>) = if !target_on(c.scan_targets@, "load_balancers"@) {
        (
            (
                insert_spec(
                    insert_spec(s.0, "load_balancers"@, JsonV::Array(Seq::empty())),
                    "lb_listeners"@,
                    JsonV::Array(Seq::empty()),
                ),
                s.1,
                s.2,
            ),
            None,
        )
    } else {
        match f.load_balancers {
            Err(e) => ((s.0, started, s.2), Some(e@)),
            Ok(v) => {
                let lv = jv_list(v@);
                let n = next_count(s.2);
                (
                    (
                        insert_spec(
                            insert_spec(s.0, "load_balancers"@, JsonV::Array(lv)),
                            "lb_listeners"@,
                            JsonV::Array(listeners_upto(lv, f.listeners@, lv.len() as int)),
                        ),
                        started.push((percent_spec(n as int, total as int), done_message("Load Balancers"@, lv.len()))),
                        n,
                    ),
                    None,
                )
            },
        }
    };
    if first.1 is Some {
        first
    } else {
        targets_spec(
            first.0,
            total,
            seq![("lb_target_groups"@, "Target Groups"@)],
            seq![outcome_of(target_on(c.scan_targets@, "lb_target_groups"@), listed_view(f.lb_target_groups))],
        )
    }
}

impl<C: ELBClientOps> AwsELBScanner<C> {
    /// The scan request this scanner serves.
    pub closed spec fn config_spec(&self) -> ScanConfig {
        self.config
    }

    /// The client this scanner makes its calls through.
    pub closed spec fn client_spec(&self) -> C {
        *self.elb_client
    }

    /// A scanner over a shared client.
    pub fn new(config: ScanConfig, client: Arc<C>) -> (r: Self)
        ensures
            r.config_spec() == config,
            r.client_spec() == *client,
    {
        AwsELBScanner { config, elb_client: client }
    }

    /// A scanner over the given client.
    pub fn new_with_client(config: ScanConfig, client: C) -> (r: Self)
        ensures
            r.config_spec() == config,
            r.client_spec() == client,
    {
        AwsELBScanner { config, elb_client: Arc::new(client) }
    }

    /// Whether a name passes the request's `name_prefix` filter.
    pub fn apply_name_prefix_filter(&self, name: &str) -> (r: bool)
        ensures
            r == name_prefix_ok(self.config_spec().filters@, name@),
    {
        self.config.name_passes(name)
    }

    /// The records of the load balancers whose names pass the filter.
    pub fn scan_load_balancers(&self) -> (r: Result<Vec<Json>, String>)
        ensures
            r is Ok ==> exists|v: Seq<ALBInfo>| #[trigger] load_balancers_filtered(self.config_spec().filters@, v) == jv_list(r->Ok_0@),
    {
        match self.elb_client.describe_load_balancers() {
            Ok(v) => {
                let out = load_balancers_passing(&self.config, &v);
                proof {
                    assert(load_balancers_filtered(self.config_spec().filters@, v@) == jv_list(out@));
                }
                Ok(out)
            },
            Err(e) => Err(e),
        }
    }

    /// The records of the listeners of one load balancer.
    pub fn scan_listeners(&self, lb_arn: &str) -> (r: Result<Vec<Json>, String>)
        ensures
            r is Ok ==> exists|v: Seq<ListenerInfo>| #[trigger] listeners_spec(v) == jv_list(r->Ok_0@),
    {
        match self.elb_client.describe_listeners(lb_arn) {
            Ok(v) => {
                let out = listener_list(&v);
                proof {
                    assert(listeners_spec(v@) == jv_list(out@));
                }
                Ok(out)
            },
            Err(e) => Err(e),
        }
    }

    /// The records of the target groups whose names pass the filter.
    pub fn scan_target_groups(&self) -> (r: Result<Vec<Json>, String>)
        ensures
            r is Ok ==> exists|v: Seq<TargetGroupInfo>| #[trigger] target_groups_filtered(self.config_spec().filters@, v) == jv_list(r->Ok_0@),
    {
        match self.elb_client.describe_target_groups() {
            Ok(v) => {
                let out = target_groups_passing(&self.config, &v);
                proof {
                    assert(target_groups_filtered(self.config_spec().filters@, v@) == jv_list(out@));
                }
                Ok(out)
            },
            Err(e) => Err(e),
        }
    }

    /// Adds the load balancers, their listeners and the target groups to a
    /// scan result: the records of each scan when the type is switched on
    /// (the listeners with the load balancers), an empty list otherwise. A
    /// failing listing fails the scan; the types after it are not scanned.
    pub fn scan_into(&self, results: &mut Vec<(String, Json)>, progress: &mut ScanProgress) -> (r: Result<(), String>)
        ensures
            final(progress).total == old(progress).total,
            exists|f: ElbFound|
                elb_fit(self.config_spec(), f) && #[trigger] elb_spec(
                    self.config_spec(),
                    (jv_entries(old(results)@), events_view(old(progress).events@), old(progress).completed),
                    old(progress).total,
                    f,
                ) == ((jv_entries(final(results)@), events_view(final(progress).events@), final(progress).completed), error_of(r)),
    {
        let on_lb = self.config.target_enabled("load_balancers");
        let lbs = if on_lb {
            self.scan_load_balancers()
        } else {
            Ok(Vec::new())
        };
        let found = match &lbs {
            Ok(v) => if on_lb {
                self.listeners_of(v).0
            } else {
                Vec::new()
            },
            Err(_) => Vec::new(),
        };
        let failed = on_lb && lbs.is_err();
        let tgs = if !self.config.target_enabled("lb_target_groups") {
            Ok(Vec::new())
        } else if failed {
            Err(String::new())
        } else {
            self.scan_target_groups()
        };
        proof {
            assert(jv_list(Seq::<Json>::empty()) =~= Seq::<JsonV>::empty());
        }
        self.scan_into_from(results, progress, ElbFound { load_balancers: lbs, listeners: found, lb_target_groups: tgs })
    }

    /// Lists the listeners of each load balancer record that has an ARN,
    /// record by record (none where that listing failed or there is no ARN).
    /// Beside them come the ARNs whose listeners were listed, record by record.
    pub fn listeners_of(&self, lbs: &Vec<Json>) -> (r: (Vec<Option<Vec<ListenerInfo>>>, Ghost<Seq<Option<Seq<char>>>>))
        ensures
            r.0@.len() == lbs@.len(),
            r.1@ == lbs@.map_values(|j: Json| j@.str_field("load_balancer_arn"@)),
    {
        let mut found: Vec<Option<Vec<ListenerInfo>>> = Vec::new();
        let ghost mut asked: Seq<Option<Seq<char>>> = Seq::empty();
        let mut i: usize = 0;
        while i < lbs.len()
            invariant
                i <= lbs.len(),
                found@.len() == i,
                asked == lbs@.take(i as int).map_values(|j: Json| j@.str_field("load_balancer_arn"@)),
            decreases lbs.len() - i,
        {
            proof {
                assert(lbs@.take(i + 1) =~= lbs@.take(i as int).push(lbs@[i as int]));
            }
            match lbs[i].str_field("load_balancer_arn") {
                Some(arn) => {
                    proof {
                        asked = asked.push(Some(arn@));
                    }
                    match self.elb_client.describe_listeners(arn.as_str()) {
                        Ok(ls) => found.push(Some(ls)),
                        Err(_) => found.push(None),
                    }
                },
                None => {
                    proof {
                        asked = asked.push(None);
                    }
                    found.push(None);
                },
            }
            i = i + 1;
        }
        assert(lbs@.take(lbs.len() as int) =~= lbs@);
        (found, Ghost(asked))
    }

    /// Writes what the scans gave into a scan result and its progress: the
    /// load balancers and the listeners listed for each of them, then the
    /// target groups; each type's records when it is on, an empty list
    /// otherwise, with a report at the start and end of each; a failed scan
    /// ends the whole with its error.
    pub fn scan_into_from(&self, results: &mut Vec<(String, Json)>, progress: &mut ScanProgress, found: ElbFound) -> (r: Result<(), String>)
        ensures
            final(progress).total == old(progress).total,
            elb_spec(
                self.config_spec(),
                (jv_entries(old(results)@), events_view(old(progress).events@), old(progress).completed),
                old(progress).total,
                found,
            ) == ((jv_entries(final(results)@), events_view(final(progress).events@), final(progress).completed), error_of(r)),
    {
        let ghost f = found;
        let ElbFound { load_balancers, listeners, lb_target_groups } = found;
        if self.config.target_enabled("load_balancers") {
            progress.start("Load Balancers");
            let lbs = match load_balancers {
                Ok(v) => v,
                Err(e) => return Err(e),
            };
            let ls = listeners_from(&lbs, &listeners);
            proof {
                crate::json::lemma_jv_list(lbs@);
            }
            let count = lbs.len();
            insert_entry(results, "load_balancers", Json::Array(lbs));
            insert_entry(results, "lb_listeners", Json::Array(ls));
            progress.finish("Load Balancers", count);
        } else {
            insert_entry(results, "load_balancers", Json::Array(Vec::new()));
            insert_entry(results, "lb_listeners", Json::Array(Vec::new()));
            assert(jv_list(Seq::<Json>::empty()) =~= Seq::<JsonV>::empty());
        }
        let mut outs: Vec<TargetOutcome> = Vec::new();
        outs.push(outcome(self.config.target_enabled("lb_target_groups"), lb_target_groups));
        let mut targets: Vec<(&str, &str)> = Vec::new();
        targets.push(("lb_target_groups", "Target Groups"));
        assert(targets_view(targets@) =~= seq![("lb_target_groups"@, "Target Groups"@)]);
        assert(outs@.map_values(|o: TargetOutcome| outcome_view(o)) =~= seq![
            outcome_of(target_on(self.config_spec().scan_targets@, "lb_target_groups"@), listed_view(f.lb_target_groups)),
        ]);
        record_targets(results, progress, &targets, outs)
    }
}

/// The records of a listing of `ListenerInfo`, in order.
pub open spec fn listeners_spec(v: Seq<ListenerInfo>) -> Seq<JsonV> {
    v.map_values(|x: ListenerInfo| listener_spec(x))
}

/// What a scan result holds under `load_balancers`: the records of a
/// listing, filtered by name, when the request asks for them; an empty list
/// otherwise.
pub open spec fn load_balancers_slot(c: ScanConfig, v: JsonV) -> bool {
    match v {
        JsonV::Array(s) => if target_on(c.scan_targets@, "load_balancers"@) {
            exists|x: Seq<ALBInfo>| #[trigger] load_balancers_filtered(c.filters@, x) == s
        } else {
            s.len() == 0
        },
        _ => false,
    }
}

/// The listener records of the first `n` load balancer records: for each
/// that has an ARN, in order, the records of its listeners when listing
/// them succeeded (`found[i]` for `lbs[i]`).
pub open spec fn listeners_upto(lbs: Seq<JsonV>, found: Seq<Option<Vec<ListenerInfo>>>, n: int) -> Seq<JsonV>
    decreases n,
{
    if n <= 0 {
        Seq::empty()
    } else {
        listeners_upto(lbs, found, n - 1) + if lbs[n - 1].str_field("load_balancer_arn"@) is Some && 0 <= n - 1
            < found.len() && found[n - 1] is Some {
            listeners_spec(found[n - 1]->Some_0@)
        } else {
            Seq::empty()
        }
    }
}

/// What a scan result holds under `lb_target_groups`: the records of a
/// listing, filtered by name, when the request asks for them; an empty list
/// otherwise.
pub open spec fn lb_target_groups_slot(c: ScanConfig, v: JsonV) -> bool {
    match v {
        JsonV::Array(s) => if target_on(c.scan_targets@, "lb_target_groups"@) {
            exists|x: Seq<TargetGroupInfo>| #[trigger] target_groups_filtered(c.filters@, x) == s
        } else {
            s.len() == 0
        },
        _ => false,
    }
}

} // verus!
