use vstd::prelude::*;
use std::sync::Arc;
use crate::aws::iam::{num, number, tags_json, tags_spec};
use crate::aws::record::{entry_if, opt_int, opt_text, push_one, push_opt_int, push_opt_text, texts_json};
use crate::json::{insert_entry, insert_spec, jv_entries, jv_list, push_item, text, text_array, Json, JsonV, lemma_jv_list};
use crate::models::request::{target_on, ScanConfig};
use crate::aws::progress::{events_view, ScanProgress};
use crate::aws::targets::{error_of, listed_view, outcome, outcome_of, outcome_view, record_targets, targets_spec, targets_view, OutcomeV, TargetOutcome};

verus! {

/// An RDS database instance as described by AWS.
#[derive(Debug)]
pub struct RdsInstanceInfo {
    pub db_instance_identifier: String,
    pub db_instance_class: Option<String>,
    pub engine: Option<String>,
    pub engine_version: Option<String>,
    pub status: Option<String>,
    pub allocated_storage: Option<i32>,
    pub storage_type: Option<String>,
    pub multi_az: bool,
    pub publicly_accessible: bool,
    pub vpc_id: Option<String>,
    pub db_subnet_group_name: Option<String>,
    pub availability_zone: Option<String>,
    pub endpoint: Option<String>,
    pub port: Option<i32>,
    pub master_username: Option<String>,
    pub security_groups: Vec<String>,
    pub parameter_group_name: Option<String>,
    pub backup_retention_period: Option<i32>,
    pub storage_encrypted: bool,
    pub tags: Vec<(String, String)>,
}

/// An RDS subnet group as described by AWS.
#[derive(Debug)]
pub struct RdsSubnetGroupInfo {
    pub db_subnet_group_name: String,
    pub description: Option<String>,
    pub vpc_id: Option<String>,
    pub subnet_ids: Vec<String>,
    pub status: Option<String>,
    pub tags: Vec<(String, String)>,
}

/// An RDS parameter group as described by AWS.
#[derive(Debug)]
pub struct RdsParameterGroupInfo {
    pub db_parameter_group_name: String,
    pub family: Option<String>,
    pub description: Option<String>,
    pub tags: Vec<(String, String)>,
}

/// One parameter of a parameter group.
#[derive(Debug)]
pub struct RdsParameterInfo {
    pub name: String,
    pub value: String,
    pub apply_method: Option<String>,
}

/// The RDS calls a scan makes; implemented over the AWS SDK by the
/// application and by test doubles.
pub trait RdsClientOps {
    fn describe_db_instances(&self) -> Result<Vec<RdsInstanceInfo>, String>;

    fn describe_db_subnet_groups(&self) -> Result<Vec<RdsSubnetGroupInfo>, String>;

    fn describe_db_parameter_groups(&self) -> Result<Vec<RdsParameterGroupInfo>, String>;

    fn describe_db_parameters(&self, parameter_group_name: &str) -> Result<Vec<RdsParameterInfo>, String>;
}

/// The scan record of a database instance.
pub open spec fn db_instance_spec(v: RdsInstanceInfo) -> JsonV {
    JsonV::Object(Seq::empty() + seq![("db_instance_identifier"@, JsonV::Str(v.db_instance_identifier@))] + seq![("multi_az"@, JsonV::Bool(v.multi_az))] + seq![("publicly_accessible"@, JsonV::Bool(v.publicly_accessible))] + seq![("storage_encrypted"@, JsonV::Bool(v.storage_encrypted))] + opt_text("db_instance_class"@, v.db_instance_class) + opt_text("engine"@, v.engine) + opt_text("engine_version"@, v.engine_version) + opt_text("status"@, v.status) + opt_int("allocated_storage"@, v.allocated_storage) + opt_text("storage_type"@, v.storage_type) + opt_text("vpc_id"@, v.vpc_id) + opt_text("db_subnet_group_name"@, v.db_subnet_group_name) + opt_text("availability_zone"@, v.availability_zone) + opt_text("endpoint"@, v.endpoint) + opt_int("port"@, v.port) + opt_text("master_username"@, v.master_username) + entry_if(v.security_groups@.len() > 0, "security_groups"@, texts_json(v.security_groups@)) + opt_text("parameter_group_name"@, v.parameter_group_name) + opt_int("backup_retention_period"@, v.backup_retention_period) + entry_if(v.tags@.len() > 0, "tags"@, tags_spec(v.tags@)))
}

/// The scan record of a database instance.
#[verifier::rlimit(60)]
pub fn db_instance_json(v: &RdsInstanceInfo) -> (r: Json)
    ensures
        r@ == db_instance_spec(*v),
{
    let mut e: Vec<(String, Json)> = Vec::new();
    assert(jv_entries(e@) =~= Seq::<(Seq<char>, JsonV)>::empty());
    let ghost p0 = jv_entries(e@);
    push_one(&mut e, "db_instance_identifier", text(v.db_instance_identifier.as_str()));
    assert(jv_entries(e@) =~= p0 + seq![("db_instance_identifier"@, JsonV::Str(v.db_instance_identifier@))]);
    let ghost p1 = jv_entries(e@);
    push_one(&mut e, "multi_az", Json::Bool(v.multi_az));
    assert(jv_entries(e@) =~= p1 + seq![("multi_az"@, JsonV::Bool(v.multi_az))]);
    let ghost p2 = jv_entries(e@);
    push_one(&mut e, "publicly_accessible", Json::Bool(v.publicly_accessible));
    assert(jv_entries(e@) =~= p2 + seq![("publicly_accessible"@, JsonV::Bool(v.publicly_accessible))]);
    let ghost p3 = jv_entries(e@);
    push_one(&mut e, "storage_encrypted", Json::Bool(v.storage_encrypted));
    assert(jv_entries(e@) =~= p3 + seq![("storage_encrypted"@, JsonV::Bool(v.storage_encrypted))]);
    let ghost p4 = jv_entries(e@);
    push_opt_text(&mut e, "db_instance_class", &v.db_instance_class);
    assert(jv_entries(e@) =~= p4 + opt_text("db_instance_class"@, v.db_instance_class));
    let ghost p5 = jv_entries(e@);
    push_opt_text(&mut e, "engine", &v.engine);
    assert(jv_entries(e@) =~= p5 + opt_text("engine"@, v.engine));
    let ghost p6 = jv_entries(e@);
    push_opt_text(&mut e, "engine_version", &v.engine_version);
    assert(jv_entries(e@) =~= p6 + opt_text("engine_version"@, v.engine_version));
    let ghost p7 = jv_entries(e@);
    push_opt_text(&mut e, "status", &v.status);
    assert(jv_entries(e@) =~= p7 + opt_text("status"@, v.status));
    let ghost p8 = jv_entries(e@);
    push_opt_int(&mut e, "allocated_storage", v.allocated_storage);
    assert(jv_entries(e@) =~= p8 + opt_int("allocated_storage"@, v.allocated_storage));
    let ghost p9 = jv_entries(e@);
    push_opt_text(&mut e, "storage_type", &v.storage_type);
    assert(jv_entries(e@) =~= p9 + opt_text("storage_type"@, v.storage_type));
    let ghost p10 = jv_entries(e@);
    push_opt_text(&mut e, "vpc_id", &v.vpc_id);
    assert(jv_entries(e@) =~= p10 + opt_text("vpc_id"@, v.vpc_id));
    let ghost p11 = jv_entries(e@);
    push_opt_text(&mut e, "db_subnet_group_name", &v.db_subnet_group_name);
    assert(jv_entries(e@) =~= p11 + opt_text("db_subnet_group_name"@, v.db_subnet_group_name));
    let ghost p12 = jv_entries(e@);
    push_opt_text(&mut e, "availability_zone", &v.availability_zone);
    assert(jv_entries(e@) =~= p12 + opt_text("availability_zone"@, v.availability_zone));
    let ghost p13 = jv_entries(e@);
    push_opt_text(&mut e, "endpoint", &v.endpoint);
    assert(jv_entries(e@) =~= p13 + opt_text("endpoint"@, v.endpoint));
    let ghost p14 = jv_entries(e@);
    push_opt_int(&mut e, "port", v.port);
    assert(jv_entries(e@) =~= p14 + opt_int("port"@, v.port));
    let ghost p15 = jv_entries(e@);
    push_opt_text(&mut e, "master_username", &v.master_username);
    assert(jv_entries(e@) =~= p15 + opt_text("master_username"@, v.master_username));
    let ghost p16 = jv_entries(e@);
    if v.security_groups.len() > 0 {
        push_one(&mut e, "security_groups", text_array(&v.security_groups));
    }
    assert(jv_entries(e@) =~= p16 + entry_if(v.security_groups@.len() > 0, "security_groups"@, texts_json(v.security_groups@)));
    let ghost p17 = jv_entries(e@);
    push_opt_text(&mut e, "parameter_group_name", &v.parameter_group_name);
    assert(jv_entries(e@) =~= p17 + opt_text("parameter_group_name"@, v.parameter_group_name));
    let ghost p18 = jv_entries(e@);
    push_opt_int(&mut e, "backup_retention_period", v.backup_retention_period);
    assert(jv_entries(e@) =~= p18 + opt_int("backup_retention_period"@, v.backup_retention_period));
    let ghost p19 = jv_entries(e@);
    if v.tags.len() > 0 {
        push_one(&mut e, "tags", tags_json(&v.tags));
    }
    assert(jv_entries(e@) =~= p19 + entry_if(v.tags@.len() > 0, "tags"@, tags_spec(v.tags@)));
    Json::Object(e)
}

/// The records of a list, in order.
pub fn db_instance_list(v: &Vec<RdsInstanceInfo>) -> (r: Vec<Json>)
    ensures
        jv_list(r@) == v@.map_values(|x: RdsInstanceInfo| db_instance_spec(x)),
{
    let mut out: Vec<Json> = Vec::new();
    let mut i: usize = 0;
    assert(v@.take(0).map_values(|x: RdsInstanceInfo| db_instance_spec(x)) =~= Seq::<JsonV>::empty());
    while i < v.len()
        invariant
            i <= v.len(),
            jv_list(out@) == v@.take(i as int).map_values(|x: RdsInstanceInfo| db_instance_spec(x)),
        decreases v.len() - i,
    {
        push_item(&mut out, db_instance_json(&v[i]));
        assert(v@.take(i + 1).map_values(|x: RdsInstanceInfo| db_instance_spec(x)) =~= v@.take(i as int).map_values(
            |x: RdsInstanceInfo| db_instance_spec(x),
        ).push(db_instance_spec(v@[i as int])));
        i = i + 1;
    }
    assert(v@.take(v.len() as int) =~= v@);
    out
}

/// The scan record of a subnet group.
pub open spec fn db_subnet_group_spec(v: RdsSubnetGroupInfo) -> JsonV {
    JsonV::Object(Seq::empty() + seq![("db_subnet_group_name"@, JsonV::Str(v.db_subnet_group_name@))] + seq![("subnet_ids"@, texts_json(v.subnet_ids@))] + opt_text("description"@, v.description) + opt_text("vpc_id"@, v.vpc_id) + opt_text("status"@, v.status) + entry_if(v.tags@.len() > 0, "tags"@, tags_spec(v.tags@)))
}

/// The scan record of a subnet group.
pub fn db_subnet_group_json(v: &RdsSubnetGroupInfo) -> (r: Json)
    ensures
        r@ == db_subnet_group_spec(*v),
{
    let mut e: Vec<(String, Json)> = Vec::new();
    assert(jv_entries(e@) =~= Seq::<(Seq<char>, JsonV)>::empty());
    let ghost p0 = jv_entries(e@);
    push_one(&mut e, "db_subnet_group_name", text(v.db_subnet_group_name.as_str()));
    assert(jv_entries(e@) =~= p0 + seq![("db_subnet_group_name"@, JsonV::Str(v.db_subnet_group_name@))]);
    let ghost p1 = jv_entries(e@);
    push_one(&mut e, "subnet_ids", text_array(&v.subnet_ids));
    assert(jv_entries(e@) =~= p1 + seq![("subnet_ids"@, texts_json(v.subnet_ids@))]);
    let ghost p2 = jv_entries(e@);
    push_opt_text(&mut e, "description", &v.description);
    assert(jv_entries(e@) =~= p2 + opt_text("description"@, v.description));
    let ghost p3 = jv_entries(e@);
    push_opt_text(&mut e, "vpc_id", &v.vpc_id);
    assert(jv_entries(e@) =~= p3 + opt_text("vpc_id"@, v.vpc_id));
    let ghost p4 = jv_entries(e@);
    push_opt_text(&mut e, "status", &v.status);
    assert(jv_entries(e@) =~= p4 + opt_text("status"@, v.status));
    let ghost p5 = jv_entries(e@);
    if v.tags.len() > 0 {
        push_one(&mut e, "tags", tags_json(&v.tags));
    }
    assert(jv_entries(e@) =~= p5 + entry_if(v.tags@.len() > 0, "tags"@, tags_spec(v.tags@)));
    Json::Object(e)
}

/// The records of a list, in order.
pub fn db_subnet_group_list(v: &Vec<RdsSubnetGroupInfo>) -> (r: Vec<Json>)
    ensures
        jv_list(r@) == v@.map_values(|x: RdsSubnetGroupInfo| db_subnet_group_spec(x)),
{
    let mut out: Vec<Json> = Vec::new();
    let mut i: usize = 0;
    assert(v@.take(0).map_values(|x: RdsSubnetGroupInfo| db_subnet_group_spec(x)) =~= Seq::<JsonV>::empty());
    while i < v.len()
        invariant
            i <= v.len(),
            jv_list(out@) == v@.take(i as int).map_values(|x: RdsSubnetGroupInfo| db_subnet_group_spec(x)),
        decreases v.len() - i,
    {
        push_item(&mut out, db_subnet_group_json(&v[i]));
        assert(v@.take(i + 1).map_values(|x: RdsSubnetGroupInfo| db_subnet_group_spec(x)) =~= v@.take(i as int).map_values(
            |x: RdsSubnetGroupInfo| db_subnet_group_spec(x),
        ).push(db_subnet_group_spec(v@[i as int])));
        i = i + 1;
    }
    assert(v@.take(v.len() as int) =~= v@);
    out
}

/// The record of a parameter.
pub open spec fn db_parameter_spec(v: RdsParameterInfo) -> JsonV {
    JsonV::Object(Seq::empty() + seq![("name"@, JsonV::Str(v.name@))] + seq![("value"@, JsonV::Str(v.value@))] + opt_text("apply_method"@, v.apply_method))
}

/// The record of a parameter.
pub fn db_parameter_json(v: &RdsParameterInfo) -> (r: Json)
    ensures
        r@ == db_parameter_spec(*v),
{
    let mut e: Vec<(String, Json)> = Vec::new();
    assert(jv_entries(e@) =~= Seq::<(Seq<char>, JsonV)>::empty());
    let ghost p0 = jv_entries(e@);
    push_one(&mut e, "name", text(v.name.as_str()));
    assert(jv_entries(e@) =~= p0 + seq![("name"@, JsonV::Str(v.name@))]);
    let ghost p1 = jv_entries(e@);
    push_one(&mut e, "value", text(v.value.as_str()));
    assert(jv_entries(e@) =~= p1 + seq![("value"@, JsonV::Str(v.value@))]);
    let ghost p2 = jv_entries(e@);
    push_opt_text(&mut e, "apply_method", &v.apply_method);
    assert(jv_entries(e@) =~= p2 + opt_text("apply_method"@, v.apply_method));
    Json::Object(e)
}

/// The records of a list, in order.
pub fn db_parameter_list(v: &Vec<RdsParameterInfo>) -> (r: Vec<Json>)
    ensures
        jv_list(r@) == v@.map_values(|x: RdsParameterInfo| db_parameter_spec(x)),
{
    let mut out: Vec<Json> = Vec::new();
    let mut i: usize = 0;
    assert(v@.take(0).map_values(|x: RdsParameterInfo| db_parameter_spec(x)) =~= Seq::<JsonV>::empty());
    while i < v.len()
        invariant
            i <= v.len(),
            jv_list(out@) == v@.take(i as int).map_values(|x: RdsParameterInfo| db_parameter_spec(x)),
        decreases v.len() - i,
    {
        push_item(&mut out, db_parameter_json(&v[i]));
        assert(v@.take(i + 1).map_values(|x: RdsParameterInfo| db_parameter_spec(x)) =~= v@.take(i as int).map_values(
            |x: RdsParameterInfo| db_parameter_spec(x),
        ).push(db_parameter_spec(v@[i as int])));
        i = i + 1;
    }
    assert(v@.take(v.len() as int) =~= v@);
    out
}

/// The scan record of a parameter group with the parameters that could be
/// read.
pub open spec fn db_parameter_group_spec(g: RdsParameterGroupInfo, params: Seq<RdsParameterInfo>) -> JsonV {
    JsonV::Object(
        seq![("db_parameter_group_name"@, JsonV::Str(g.db_parameter_group_name@))] + opt_text(
            "family"@,
            g.family,
        ) + opt_text("description"@, g.description) + entry_if(
            params.len() > 0,
            "parameters"@,
            JsonV::Array(params.map_values(|p: RdsParameterInfo| db_parameter_spec(p))),
        ) + entry_if(g.tags@.len() > 0, "tags"@, tags_spec(g.tags@)),
    )
}

/// The scan record of a parameter group with its parameters.
pub fn db_parameter_group_json(g: &RdsParameterGroupInfo, params: &Vec<RdsParameterInfo>) -> (r: Json)
    ensures
        r@ == db_parameter_group_spec(*g, params@),
{
    let mut e: Vec<(String, Json)> = Vec::new();
    push_one(&mut e, "db_parameter_group_name", text(g.db_parameter_group_name.as_str()));
    assert(jv_entries(e@) =~= seq![("db_parameter_group_name"@, JsonV::Str(g.db_parameter_group_name@))]);
    push_opt_text(&mut e, "family", &g.family);
    push_opt_text(&mut e, "description", &g.description);
    let ghost p = jv_entries(e@);
    if params.len() > 0 {
        push_one(&mut e, "parameters", Json::Array(db_parameter_list(params)));
    }
    assert(jv_entries(e@) =~= p + entry_if(
        params@.len() > 0,
        "parameters"@,
        JsonV::Array(params@.map_values(|p: RdsParameterInfo| db_parameter_spec(p))),
    ));
    let ghost q = jv_entries(e@);
    if g.tags.len() > 0 {
        push_one(&mut e, "tags", tags_json(&g.tags));
    }
    assert(jv_entries(e@) =~= q + entry_if(g.tags@.len() > 0, "tags"@, tags_spec(g.tags@)));
    Json::Object(e)
}

/// The records of the listed parameter groups, in order, each with the
/// parameters found for it (`params[i]` for `groups[i]`; empty when the
/// lookup failed).
pub fn parameter_groups_from(groups: &Vec<RdsParameterGroupInfo>, params: &Vec<Vec<RdsParameterInfo>>) -> (r: Vec<Json>)
    ensures
        jv_list(r@) == parameter_groups_spec(groups@, params@),
{
    let mut out: Vec<Json> = Vec::new();
    let mut i: usize = 0;
    while i < groups.len()
        invariant
            i <= groups.len(),
            jv_list(out@) == parameter_groups_upto(groups@, params@, i as int),
        decreases groups.len() - i,
    {
        if i < params.len() {
            push_item(&mut out, db_parameter_group_json(&groups[i], &params[i]));
        } else {
            push_item(&mut out, db_parameter_group_json(&groups[i], &Vec::new()));
        }
        i = i + 1;
    }
    out
}

/// The records of the first `i` listed parameter groups.
pub open spec fn parameter_groups_upto(g: Seq<RdsParameterGroupInfo>, ps: Seq<Vec<RdsParameterInfo>>, i: int) -> Seq<JsonV>
    decreases i,
{
    if i <= 0 {
        Seq::empty()
    } else {
        parameter_groups_upto(g, ps, i - 1).push(
            db_parameter_group_spec(g[i - 1], if i - 1 < ps.len() { ps[i - 1]@ } else { Seq::empty() }),
        )
    }
}

/// The records of a parameter group listing: each group in order, with the
/// parameters found for it.
pub open spec fn parameter_groups_spec(g: Seq<RdsParameterGroupInfo>, ps: Seq<Vec<RdsParameterInfo>>) -> Seq<JsonV> {
    parameter_groups_upto(g, ps, g.len() as int)
}

/// Scans RDS instances, subnet groups and parameter groups through a client.
pub struct AwsRdsScanner<C: RdsClientOps> {
    config: ScanConfig,
    rds_client: Arc<C>,
}

/// What each target of this scanner gave.
pub struct RdsFound {
    pub db_instances: Result<Vec<Json>, String>,
    pub db_subnet_groups: Result<Vec<Json>, String>,
    pub db_parameter_groups: Result<Vec<Json>, String>,
}

/// This scanner's targets: result key and progress label, in order.
pub open spec fn rds_targets() -> Seq<(Seq<char>, Seq<char>)> {
    seq![
        ("db_instances"@, "RDS DB Instances"@),
        ("db_subnet_groups"@, "RDS DB Subnet Groups"@),
        ("db_parameter_groups"@, "RDS Parameter Groups"@),
    ]
}

/// The outcome of each target of this scanner under a request.
pub open spec fn rds_outcomes(c: ScanConfig, f: RdsFound) -> Seq<OutcomeV> {
    seq![
        outcome_of(target_on(c.scan_targets@, "db_instances"@), listed_view(f.db_instances)),
        outcome_of(target_on(c.scan_targets@, "db_subnet_groups"@), listed_view(f.db_subnet_groups)),
        outcome_of(target_on(c.scan_targets@, "db_parameter_groups"@), listed_view(f.db_parameter_groups)),
    ]
}

/// Whether each target's records are what its scan can give.
pub open spec fn rds_fit(c: ScanConfig, f: RdsFound) -> bool {
    (f.db_instances is Ok ==> db_instances_slot(c, JsonV::Array(jv_list(f.db_instances->Ok_0@)))) && (f.db_subnet_groups is Ok ==> db_subnet_groups_slot(c, JsonV::Array(jv_list(f.db_subnet_groups->Ok_0@)))) && (f.db_parameter_groups is Ok ==> db_parameter_groups_slot(c, JsonV::Array(jv_list(f.db_parameter_groups->Ok_0@))))
}

/// Whether this scan may start: the original computes these targets'
/// percentages without guarding against a total of zero, so a scan that has
/// one of them on needs a positive total.
pub open spec fn rds_total_ok(c: ScanConfig, total: usize) -> bool {
    total > 0 || !(target_on(c.scan_targets@, "db_instances"@) || target_on(c.scan_targets@, "db_subnet_groups"@) || target_on(c.scan_targets@, "db_parameter_groups"@))
}

impl<C: RdsClientOps> AwsRdsScanner<C> {
    /// The scan request this scanner serves.
    pub closed spec fn config_spec(&self) -> ScanConfig {
        self.config
    }

    /// The client this scanner makes its calls through.
    pub closed spec fn client_spec(&self) -> C {
        *self.rds_client
    }

    /// A scanner over a shared client.
    pub fn new(config: ScanConfig, client: Arc<C>) -> (r: Self)
        ensures
            r.config_spec() == config,
            r.client_spec() == *client,
    {
        AwsRdsScanner { config, rds_client: client }
    }

    /// A scanner over the given client.
    pub fn new_with_client(config: ScanConfig, client: C) -> (r: Self)
        ensures
            r.config_spec() == config,
            r.client_spec() == client,
    {
        AwsRdsScanner { config, rds_client: Arc::new(client) }
    }

    /// The records of the database instances; a failing listing is passed on.
    pub fn scan_db_instances(&self) -> (r: Result<Vec<Json>, String>)
        ensures
            r is Ok ==> exists|v: Seq<RdsInstanceInfo>| #[trigger] db_instances_spec(v) == jv_list(r->Ok_0@),
    {
        match self.rds_client.describe_db_instances() {
            Ok(v) => {
                let out = db_instance_list(&v);
                proof {
                    assert(db_instances_spec(v@) == jv_list(out@));
                }
                Ok(out)
            },
            Err(e) => Err(e),
        }
    }

    /// The records of the subnet groups; a failing listing is passed on.
    pub fn scan_db_subnet_groups(&self) -> (r: Result<Vec<Json>, String>)
        ensures
            r is Ok ==> exists|v: Seq<RdsSubnetGroupInfo>| #[trigger] db_subnet_groups_spec(v) == jv_list(r->Ok_0@),
    {
        match self.rds_client.describe_db_subnet_groups() {
            Ok(v) => {
                let out = db_subnet_group_list(&v);
                proof {
                    assert(db_subnet_groups_spec(v@) == jv_list(out@));
                }
                Ok(out)
            },
            Err(e) => Err(e),
        }
    }

    /// The records of the parameter groups, each with the parameters that
    /// could be read (none when reading them fails).
    pub fn scan_db_parameter_groups(&self) -> (r: Result<Vec<Json>, String>)
        ensures
            r is Ok ==> exists|g: Seq<RdsParameterGroupInfo>, ps: Seq<Vec<RdsParameterInfo>>|
                #[trigger] parameter_groups_spec(g, ps) == jv_list(r->Ok_0@),
    {
        self.parameter_groups_of_listing(self.rds_client.describe_db_parameter_groups()).0
    }

    /// The parameter group scan once the groups are listed: a failed
    /// listing is the scan's error; otherwise the scan succeeds with a record
    /// of each group and the parameters read for it (none where reading them
    /// failed).
    /// Beside the result come the groups whose parameters were read, in
    /// order: every listed group.
    pub fn parameter_groups_of_listing(&self, listing: Result<Vec<RdsParameterGroupInfo>, String>) -> (r: (Result<Vec<Json>, String>, Ghost<Seq<Seq<char>>>))
        ensures
            match listing {
                Err(e) => r.0 == Err::<Vec<Json>, String>(e) && r.1@ == Seq::<Seq<char>>::empty(),
                Ok(n) => r.0 is Ok && r.1@ == n@.map_values(|g: RdsParameterGroupInfo| g.db_parameter_group_name@) && exists|d: Seq<Vec<RdsParameterInfo>>|
                    d.len() == n@.len() && #[trigger] parameter_groups_spec(n@, d) == jv_list(r.0->Ok_0@),
            },
    {
        let groups = match listing {
            Ok(v) => v,
            Err(e) => return (Err(e), Ghost(Seq::empty())),
        };
        let ghost mut asked: Seq<Seq<char>> = Seq::empty();
        let mut params: Vec<Vec<RdsParameterInfo>> = Vec::new();
        let mut i: usize = 0;
        while i < groups.len()
            invariant
                i <= groups.len(),
                params@.len() == i,
                asked == groups@.take(i as int).map_values(|g: RdsParameterGroupInfo| g.db_parameter_group_name@),
            decreases groups.len() - i,
        {
            let name = groups[i].db_parameter_group_name.as_str();
            proof {
                asked = asked.push(name@);
                assert(groups@.take(i + 1) =~= groups@.take(i as int).push(groups@[i as int]));
            }
            match self.rds_client.describe_db_parameters(name) {
                Ok(p) => params.push(p),
                Err(_) => params.push(Vec::new()),
            }
            i = i + 1;
        }
        let out = parameter_groups_from(&groups, &params);
        proof {
            assert(parameter_groups_spec(groups@, params@) == jv_list(out@));
        }
        assert(groups@.take(groups.len() as int) =~= groups@);
        (Ok(out), Ghost(asked))
    }

    /// Adds the list of each resource type of this scanner to a scan
    /// result: the records of its scan when the type is switched on, an
    /// empty list otherwise. The first failing scan fails the whole; the types
    /// after it are not scanned.
    pub fn scan_into(&self, results: &mut Vec<(String, Json)>, progress: &mut ScanProgress) -> (r: Result<(), String>)
        requires
            rds_total_ok(self.config_spec(), old(progress).total),
        ensures
            final(progress).total == old(progress).total,
            exists|f: RdsFound|
                rds_fit(self.config_spec(), f) && targets_spec(
                (jv_entries(old(results)@), events_view(old(progress).events@), old(progress).completed),
                old(progress).total,
                rds_targets(),
                #[trigger] rds_outcomes(self.config_spec(), f),
            ) == ((jv_entries(final(results)@), events_view(final(progress).events@), final(progress).completed), error_of(r)),
    {
        let mut failed = false;
        let db_instances = if !self.config.target_enabled("db_instances") {
            Ok(Vec::new())
        } else if failed {
            Err(String::new())
        } else {
            let r = self.scan_db_instances();
            failed = r.is_err();
            r
        };
        let db_subnet_groups = if !self.config.target_enabled("db_subnet_groups") {
            Ok(Vec::new())
        } else if failed {
            Err(String::new())
        } else {
            let r = self.scan_db_subnet_groups();
            failed = r.is_err();
            r
        };
        let db_parameter_groups = if !self.config.target_enabled("db_parameter_groups") {
            Ok(Vec::new())
        } else if failed {
            Err(String::new())
        } else {
            let r = self.scan_db_parameter_groups();
            failed = r.is_err();
            r
        };
        let found = RdsFound { db_instances, db_subnet_groups, db_parameter_groups };
        proof {
            assert(jv_list(Seq::<Json>::empty()) =~= Seq::<JsonV>::empty());
        }
        self.scan_into_from(results, progress, found)
    }

    /// Writes what each target's scan gave into a scan result and its
    /// progress: for each target in order, an empty list when it is off, else
    /// its records, with a report at its start and end; the first failed
    /// scan ends the whole with its error.
    pub fn scan_into_from(&self, results: &mut Vec<(String, Json)>, progress: &mut ScanProgress, found: RdsFound) -> (r: Result<(), String>)
        requires
            rds_total_ok(self.config_spec(), old(progress).total),
        ensures
            final(progress).total == old(progress).total,
            targets_spec(
                (jv_entries(old(results)@), events_view(old(progress).events@), old(progress).completed),
                old(progress).total,
                rds_targets(),
                rds_outcomes(self.config_spec(), found),
            ) == ((jv_entries(final(results)@), events_view(final(progress).events@), final(progress).completed), error_of(r)),
    {
        let ghost f = found;
        let mut outs: Vec<TargetOutcome> = Vec::new();
        outs.push(outcome(self.config.target_enabled("db_instances"), found.db_instances));
        outs.push(outcome(self.config.target_enabled("db_subnet_groups"), found.db_subnet_groups));
        outs.push(outcome(self.config.target_enabled("db_parameter_groups"), found.db_parameter_groups));
        let mut targets: Vec<(&str, &str)> = Vec::new();
        targets.push(("db_instances", "RDS DB Instances"));
        targets.push(("db_subnet_groups", "RDS DB Subnet Groups"));
        targets.push(("db_parameter_groups", "RDS Parameter Groups"));
        assert(targets_view(targets@) =~= rds_targets());
        assert(outs@.map_values(|o: TargetOutcome| outcome_view(o)) =~= rds_outcomes(self.config_spec(), f));
        record_targets(results, progress, &targets, outs)
    }
}

/// The records of a listing of `RdsInstanceInfo`, in order.
pub open spec fn db_instances_spec(v: Seq<RdsInstanceInfo>) -> Seq<JsonV> {
    v.map_values(|x: RdsInstanceInfo| db_instance_spec(x))
}

/// The records of a listing of `RdsSubnetGroupInfo`, in order.
pub open spec fn db_subnet_groups_spec(v: Seq<RdsSubnetGroupInfo>) -> Seq<JsonV> {
    v.map_values(|x: RdsSubnetGroupInfo| db_subnet_group_spec(x))
}

/// What a scan result holds under `db_instances`: the records of a listing when
/// the request asks for them, an empty list otherwise.
pub open spec fn db_instances_slot(c: ScanConfig, v: JsonV) -> bool {
    match v {
        JsonV::Array(s) => if target_on(c.scan_targets@, "db_instances"@) {
            exists|x: Seq<RdsInstanceInfo>| #[trigger] db_instances_spec(x) == s
        } else {
            s.len() == 0
        },
        _ => false,
    }
}

/// What a scan result holds under `db_subnet_groups`: the records of a listing when
/// the request asks for them, an empty list otherwise.
pub open spec fn db_subnet_groups_slot(c: ScanConfig, v: JsonV) -> bool {
    match v {
        JsonV::Array(s) => if target_on(c.scan_targets@, "db_subnet_groups"@) {
            exists|x: Seq<RdsSubnetGroupInfo>| #[trigger] db_subnet_groups_spec(x) == s
        } else {
            s.len() == 0
        },
        _ => false,
    }
}

/// What a scan result holds under `db_parameter_groups`: the records of a listing when
/// the request asks for them, an empty list otherwise.
pub open spec fn db_parameter_groups_slot(c: ScanConfig, v: JsonV) -> bool {
    match v {
        JsonV::Array(s) => if target_on(c.scan_targets@, "db_parameter_groups"@) {
            exists|g: Seq<RdsParameterGroupInfo>, ps: Seq<Vec<RdsParameterInfo>>| #[trigger] parameter_groups_spec(g, ps) == s
        } else {
            s.len() == 0
        },
        _ => false,
    }
}

} // verus!
