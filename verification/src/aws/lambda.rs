use vstd::prelude::*;
use std::sync::Arc;
use crate::aws::dynamodb::{tag_list_json, tag_list_spec};
use crate::aws::iam::{num, number, tags_json, tags_spec};
use crate::aws::record::{entry_if, opt_int, opt_nonempty, opt_num, opt_text, push_one, push_opt_int, push_opt_nonempty, push_opt_num, push_opt_text, texts_json};
use crate::json::{insert_entry, insert_spec, jv_entries, jv_list, push_item, text, text_array, Json, JsonV, lemma_jv_list};
use crate::models::request::{name_prefix_ok, target_on, ScanConfig};
use crate::aws::progress::{events_view, ScanProgress};
use crate::aws::targets::{error_of, listed_view, outcome, outcome_of, outcome_view, record_targets, targets_spec, targets_view, OutcomeV, TargetOutcome};

verus! {

/// A Lambda function as listed by AWS.
#[derive(Debug)]
pub struct LambdaFunctionInfo {
    pub function_name: String,
    pub function_arn: Option<String>,
    pub runtime: Option<String>,
    pub handler: Option<String>,
    pub role: Option<String>,
    pub description: Option<String>,
    pub memory_size: Option<i32>,
    pub timeout: Option<i32>,
    pub code_size: Option<i64>,
    pub last_modified: Option<String>,
    pub environment: Vec<(String, String)>,
    pub vpc_subnet_ids: Vec<String>,
    pub vpc_security_group_ids: Vec<String>,
    pub layers: Vec<String>,
    pub tags: Vec<(String, String)>,
}

/// A Lambda layer as listed by AWS.
#[derive(Debug)]
pub struct LambdaLayerInfo {
    pub layer_name: String,
    pub layer_arn: Option<String>,
    pub latest_version: Option<i64>,
    pub description: Option<String>,
    pub compatible_runtimes: Vec<String>,
}

/// The Lambda calls a scan makes; implemented over the AWS SDK by the
/// application and by test doubles.
pub trait LambdaClientOps {
    fn list_functions(&self) -> Result<Vec<LambdaFunctionInfo>, String>;

    fn list_layers(&self) -> Result<Vec<LambdaLayerInfo>, String>;
}

/// The scan record of a function.
pub open spec fn function_spec(v: LambdaFunctionInfo) -> JsonV {
    JsonV::Object(Seq::empty() + seq![("function_name"@, JsonV::Str(v.function_name@))] + opt_text("arn"@, v.function_arn) + opt_text("runtime"@, v.runtime) + opt_text("handler"@, v.handler) + opt_text("role"@, v.role) + opt_nonempty("description"@, v.description) + opt_int("memory_size"@, v.memory_size) + opt_int("timeout"@, v.timeout) + opt_num("code_size"@, v.code_size) + opt_text("last_modified"@, v.last_modified) + entry_if(v.environment@.len() > 0, "environment"@, tags_spec(v.environment@)) + entry_if(v.vpc_subnet_ids@.len() > 0 || v.vpc_security_group_ids@.len() > 0, "vpc_config"@, JsonV::Object(seq![("subnet_ids"@, texts_json(v.vpc_subnet_ids@)), ("security_group_ids"@, texts_json(v.vpc_security_group_ids@))])) + entry_if(v.layers@.len() > 0, "layers"@, texts_json(v.layers@)) + entry_if(v.tags@.len() > 0, "tags"@, tag_list_spec(v.tags@)))
}

/// The scan record of a function.
#[verifier::rlimit(60)]
pub fn function_json(v: &LambdaFunctionInfo) -> (r: Json)
    ensures
        r@ == function_spec(*v),
{
    let mut e: Vec<(String, Json)> = Vec::new();
    assert(jv_entries(e@) =~= Seq::<(Seq<char>, JsonV)>::empty());
    let ghost p0 = jv_entries(e@);
    push_one(&mut e, "function_name", text(v.function_name.as_str()));
    assert(jv_entries(e@) =~= p0 + seq![("function_name"@, JsonV::Str(v.function_name@))]);
    let ghost p1 = jv_entries(e@);
    push_opt_text(&mut e, "arn", &v.function_arn);
    assert(jv_entries(e@) =~= p1 + opt_text("arn"@, v.function_arn));
    let ghost p2 = jv_entries(e@);
    push_opt_text(&mut e, "runtime", &v.runtime);
    assert(jv_entries(e@) =~= p2 + opt_text("runtime"@, v.runtime));
    let ghost p3 = jv_entries(e@);
    push_opt_text(&mut e, "handler", &v.handler);
    assert(jv_entries(e@) =~= p3 + opt_text("handler"@, v.handler));
    let ghost p4 = jv_entries(e@);
    push_opt_text(&mut e, "role", &v.role);
    assert(jv_entries(e@) =~= p4 + opt_text("role"@, v.role));
    let ghost p5 = jv_entries(e@);
    push_opt_nonempty(&mut e, "description", &v.description);
    assert(jv_entries(e@) =~= p5 + opt_nonempty("description"@, v.description));
    let ghost p6 = jv_entries(e@);
    push_opt_int(&mut e, "memory_size", v.memory_size);
    assert(jv_entries(e@) =~= p6 + opt_int("memory_size"@, v.memory_size));
    let ghost p7 = jv_entries(e@);
    push_opt_int(&mut e, "timeout", v.timeout);
    assert(jv_entries(e@) =~= p7 + opt_int("timeout"@, v.timeout));
    let ghost p8 = jv_entries(e@);
    push_opt_num(&mut e, "code_size", v.code_size);
    assert(jv_entries(e@) =~= p8 + opt_num("code_size"@, v.code_size));
    let ghost p9 = jv_entries(e@);
    push_opt_text(&mut e, "last_modified", &v.last_modified);
    assert(jv_entries(e@) =~= p9 + opt_text("last_modified"@, v.last_modified));
    let ghost p10 = jv_entries(e@);
    if v.environment.len() > 0 {
        push_one(&mut e, "environment", tags_json(&v.environment));
    }
    assert(jv_entries(e@) =~= p10 + entry_if(v.environment@.len() > 0, "environment"@, tags_spec(v.environment@)));
    let ghost p11 = jv_entries(e@);
    if v.vpc_subnet_ids.len() > 0 || v.vpc_security_group_ids.len() > 0 {
        let mut vc: Vec<(String, Json)> = Vec::new();
        push_one(&mut vc, "subnet_ids", text_array(&v.vpc_subnet_ids));
        push_one(&mut vc, "security_group_ids", text_array(&v.vpc_security_group_ids));
        assert(jv_entries(vc@) =~= seq![("subnet_ids"@, texts_json(v.vpc_subnet_ids@)), ("security_group_ids"@, texts_json(v.vpc_security_group_ids@))]);
        push_one(&mut e, "vpc_config", Json::Object(vc));
    }
    assert(jv_entries(e@) =~= p11 + entry_if(v.vpc_subnet_ids@.len() > 0 || v.vpc_security_group_ids@.len() > 0, "vpc_config"@, JsonV::Object(seq![("subnet_ids"@, texts_json(v.vpc_subnet_ids@)), ("security_group_ids"@, texts_json(v.vpc_security_group_ids@))])));
    let ghost p12 = jv_entries(e@);
    if v.layers.len() > 0 {
        push_one(&mut e, "layers", text_array(&v.layers));
    }
    assert(jv_entries(e@) =~= p12 + entry_if(v.layers@.len() > 0, "layers"@, texts_json(v.layers@)));
    let ghost p13 = jv_entries(e@);
    if v.tags.len() > 0 {
        push_one(&mut e, "tags", tag_list_json(&v.tags));
    }
    assert(jv_entries(e@) =~= p13 + entry_if(v.tags@.len() > 0, "tags"@, tag_list_spec(v.tags@)));
    Json::Object(e)
}

/// The records of a list, in order.
pub fn function_list(v: &Vec<LambdaFunctionInfo>) -> (r: Vec<Json>)
    ensures
        jv_list(r@) == v@.map_values(|x: LambdaFunctionInfo| function_spec(x)),
{
    let mut out: Vec<Json> = Vec::new();
    let mut i: usize = 0;
    assert(v@.take(0).map_values(|x: LambdaFunctionInfo| function_spec(x)) =~= Seq::<JsonV>::empty());
    while i < v.len()
        invariant
            i <= v.len(),
            jv_list(out@) == v@.take(i as int).map_values(|x: LambdaFunctionInfo| function_spec(x)),
        decreases v.len() - i,
    {
        push_item(&mut out, function_json(&v[i]));
        assert(v@.take(i + 1).map_values(|x: LambdaFunctionInfo| function_spec(x)) =~= v@.take(i as int).map_values(
            |x: LambdaFunctionInfo| function_spec(x),
        ).push(function_spec(v@[i as int])));
        i = i + 1;
    }
    assert(v@.take(v.len() as int) =~= v@);
    out
}

/// The scan record of a layer.
pub open spec fn layer_spec(v: LambdaLayerInfo) -> JsonV {
    JsonV::Object(Seq::empty() + seq![("layer_name"@, JsonV::Str(v.layer_name@))] + opt_text("layer_arn"@, v.layer_arn) + opt_num("latest_version"@, v.latest_version) + opt_nonempty("description"@, v.description) + entry_if(v.compatible_runtimes@.len() > 0, "compatible_runtimes"@, texts_json(v.compatible_runtimes@)))
}

/// The scan record of a layer.
pub fn layer_json(v: &LambdaLayerInfo) -> (r: Json)
    ensures
        r@ == layer_spec(*v),
{
    let mut e: Vec<(String, Json)> = Vec::new();
    assert(jv_entries(e@) =~= Seq::<(Seq<char>, JsonV)>::empty());
    let ghost p0 = jv_entries(e@);
    push_one(&mut e, "layer_name", text(v.layer_name.as_str()));
    assert(jv_entries(e@) =~= p0 + seq![("layer_name"@, JsonV::Str(v.layer_name@))]);
    let ghost p1 = jv_entries(e@);
    push_opt_text(&mut e, "layer_arn", &v.layer_arn);
    assert(jv_entries(e@) =~= p1 + opt_text("layer_arn"@, v.layer_arn));
    let ghost p2 = jv_entries(e@);
    push_opt_num(&mut e, "latest_version", v.latest_version);
    assert(jv_entries(e@) =~= p2 + opt_num("latest_version"@, v.latest_version));
    let ghost p3 = jv_entries(e@);
    push_opt_nonempty(&mut e, "description", &v.description);
    assert(jv_entries(e@) =~= p3 + opt_nonempty("description"@, v.description));
    let ghost p4 = jv_entries(e@);
    if v.compatible_runtimes.len() > 0 {
        push_one(&mut e, "compatible_runtimes", text_array(&v.compatible_runtimes));
    }
    assert(jv_entries(e@) =~= p4 + entry_if(v.compatible_runtimes@.len() > 0, "compatible_runtimes"@, texts_json(v.compatible_runtimes@)));
    Json::Object(e)
}

/// The records of a list, in order.
pub fn layer_list(v: &Vec<LambdaLayerInfo>) -> (r: Vec<Json>)
    ensures
        jv_list(r@) == v@.map_values(|x: LambdaLayerInfo| layer_spec(x)),
{
    let mut out: Vec<Json> = Vec::new();
    let mut i: usize = 0;
    assert(v@.take(0).map_values(|x: LambdaLayerInfo| layer_spec(x)) =~= Seq::<JsonV>::empty());
    while i < v.len()
        invariant
            i <= v.len(),
            jv_list(out@) == v@.take(i as int).map_values(|x: LambdaLayerInfo| layer_spec(x)),
        decreases v.len() - i,
    {
        push_item(&mut out, layer_json(&v[i]));
        assert(v@.take(i + 1).map_values(|x: LambdaLayerInfo| layer_spec(x)) =~= v@.take(i as int).map_values(
            |x: LambdaLayerInfo| layer_spec(x),
        ).push(layer_spec(v@[i as int])));
        i = i + 1;
    }
    assert(v@.take(v.len() as int) =~= v@);
    out
}

/// The records of the items whose names pass the prefix filter, in order.
pub open spec fn functions_filtered(f: Seq<(String, String)>, v: Seq<LambdaFunctionInfo>) -> Seq<JsonV>
    decreases v.len(),
{
    if v.len() == 0 {
        Seq::empty()
    } else {
        let rest = functions_filtered(f, v.drop_last());
        if name_prefix_ok(f, v.last().function_name@) {
            rest.push(function_spec(v.last()))
        } else {
            rest
        }
    }
}

/// The records of the items whose names pass the request's prefix filter.
pub fn functions_passing(c: &ScanConfig, v: &Vec<LambdaFunctionInfo>) -> (r: Vec<Json>)
    ensures
        jv_list(r@) == functions_filtered(c.filters@, v@),
{
    let mut out: Vec<Json> = Vec::new();
    let mut i: usize = 0;
    while i < v.len()
        invariant
            i <= v.len(),
            jv_list(out@) == functions_filtered(c.filters@, v@.take(i as int)),
        decreases v.len() - i,
    {
        assert(v@.take(i + 1).drop_last() =~= v@.take(i as int));
        if c.name_passes(v[i].function_name.as_str()) {
            push_item(&mut out, function_json(&v[i]));
        }
        i = i + 1;
    }
    assert(v@.take(v.len() as int) =~= v@);
    out
}

/// The records of the items whose names pass the prefix filter, in order.
pub open spec fn layers_filtered(f: Seq<(String, String)>, v: Seq<LambdaLayerInfo>) -> Seq<JsonV>
    decreases v.len(),
{
    if v.len() == 0 {
        Seq::empty()
    } else {
        let rest = layers_filtered(f, v.drop_last());
        if name_prefix_ok(f, v.last().layer_name@) {
            rest.push(layer_spec(v.last()))
        } else {
            rest
        }
    }
}

/// The records of the items whose names pass the request's prefix filter.
pub fn layers_passing(c: &ScanConfig, v: &Vec<LambdaLayerInfo>) -> (r: Vec<Json>)
    ensures
        jv_list(r@) == layers_filtered(c.filters@, v@),
{
    let mut out: Vec<Json> = Vec::new();
    let mut i: usize = 0;
    while i < v.len()
        invariant
            i <= v.len(),
            jv_list(out@) == layers_filtered(c.filters@, v@.take(i as int)),
        decreases v.len() - i,
    {
        assert(v@.take(i + 1).drop_last() =~= v@.take(i as int));
        if c.name_passes(v[i].layer_name.as_str()) {
            push_item(&mut out, layer_json(&v[i]));
        }
        i = i + 1;
    }
    assert(v@.take(v.len() as int) =~= v@);
    out
}

/// Scans Lambda functions and layers through a client.
pub struct AwsLambdaScanner<C: LambdaClientOps> {
    config: ScanConfig,
    lambda_client: Arc<C>,
}

/// What each target of this scanner gave.
pub struct LambdaFound {
    pub functions: Result<Vec<Json>, String>,
    pub lambda_layers: Result<Vec<Json>, String>,
}

/// This scanner's targets: result key and progress label, in order.
pub open spec fn lambda_targets() -> Seq<(Seq<char>, Seq<char>)> {
    seq![
        ("functions"@, "Lambda Functions"@),
        ("lambda_layers"@, "Lambda Layers"@),
    ]
}

/// The outcome of each target of this scanner under a request.
pub open spec fn lambda_outcomes(c: ScanConfig, f: LambdaFound) -> Seq<OutcomeV> {
    seq![
        outcome_of(target_on(c.scan_targets@, "functions"@), listed_view(f.functions)),
        outcome_of(target_on(c.scan_targets@, "lambda_layers"@), listed_view(f.lambda_layers)),
    ]
}

/// Whether each target's records are what its scan can give.
pub open spec fn lambda_fit(c: ScanConfig, f: LambdaFound) -> bool {
    (f.functions is Ok ==> functions_slot(c, JsonV::Array(jv_list(f.functions->Ok_0@)))) && (f.lambda_layers is Ok ==> lambda_layers_slot(c, JsonV::Array(jv_list(f.lambda_layers->Ok_0@))))
}

impl<C: LambdaClientOps> AwsLambdaScanner<C> {
    /// The scan request this scanner serves.
    pub closed spec fn config_spec(&self) -> ScanConfig {
        self.config
    }

    /// The client this scanner makes its calls through.
    pub closed spec fn client_spec(&self) -> C {
        *self.lambda_client
    }

    /// A scanner over a shared client.
    pub fn new(config: ScanConfig, client: Arc<C>) -> (r: Self)
        ensures
            r.config_spec() == config,
            r.client_spec() == *client,
    {
        AwsLambdaScanner { config, lambda_client: client }
    }

    /// A scanner over the given client.
    pub fn new_with_client(config: ScanConfig, client: C) -> (r: Self)
        ensures
            r.config_spec() == config,
            r.client_spec() == client,
    {
        AwsLambdaScanner { config, lambda_client: Arc::new(client) }
    }

    /// Whether a name passes the request's `name_prefix` filter.
    pub fn apply_name_prefix_filter(&self, name: &str) -> (r: bool)
        ensures
            r == name_prefix_ok(self.config_spec().filters@, name@),
    {
        self.config.name_passes(name)
    }

    /// The records of the functions whose names pass the filter.
    pub fn scan_functions(&self) -> (r: Result<Vec<Json>, String>)
        ensures
            r is Ok ==> exists|v: Seq<LambdaFunctionInfo>| #[trigger] functions_filtered(self.config_spec().filters@, v) == jv_list(r->Ok_0@),
    {
        match self.lambda_client.list_functions() {
            Ok(v) => {
                let out = functions_passing(&self.config, &v);
                proof {
                    assert(functions_filtered(self.config_spec().filters@, v@) == jv_list(out@));
                }
                Ok(out)
            },
            Err(e) => Err(e),
        }
    }

    /// The records of the layers whose names pass the filter.
    pub fn scan_layers(&self) -> (r: Result<Vec<Json>, String>)
        ensures
            r is Ok ==> exists|v: Seq<LambdaLayerInfo>| #[trigger] layers_filtered(self.config_spec().filters@, v) == jv_list(r->Ok_0@),
    {
        match self.lambda_client.list_layers() {
            Ok(v) => {
                let out = layers_passing(&self.config, &v);
                proof {
                    assert(layers_filtered(self.config_spec().filters@, v@) == jv_list(out@));
                }
                Ok(out)
            },
            Err(e) => Err(e),
        }
    }

    /// Adds the list of each resource type of this scanner to a scan
    /// result: the records of its scan when the type is switched on, an
    /// empty list otherwise. The first failing scan fails the whole; the types
    /// after it are not scanned.
    pub fn scan_into(&self, results: &mut Vec<(String, Json)>, progress: &mut ScanProgress) -> (r: Result<(), String>)
        ensures
            final(progress).total == old(progress).total,
            exists|f: LambdaFound|
                lambda_fit(self.config_spec(), f) && targets_spec(
                (jv_entries(old(results)@), events_view(old(progress).events@), old(progress).completed),
                old(progress).total,
                lambda_targets(),
                #[trigger] lambda_outcomes(self.config_spec(), f),
            ) == ((jv_entries(final(results)@), events_view(final(progress).events@), final(progress).completed), error_of(r)),
    {
        let mut failed = false;
        let functions = if !self.config.target_enabled("functions") {
            Ok(Vec::new())
        } else if failed {
            Err(String::new())
        } else {
            let r = self.scan_functions();
            failed = r.is_err();
            r
        };
        let lambda_layers = if !self.config.target_enabled("lambda_layers") {
            Ok(Vec::new())
        } else if failed {
            Err(String::new())
        } else {
            let r = self.scan_layers();
            failed = r.is_err();
            r
        };
        let found = LambdaFound { functions, lambda_layers };
        proof {
            assert(jv_list(Seq::<Json>::empty()) =~= Seq::<JsonV>::empty());
        }
        self.scan_into_from(results, progress, found)
    }

    /// Writes what each target's scan gave into a scan result and its
    /// progress: for each target in order, an empty list when it is off, else
    /// its records, with a report at its start and end; the first failed
    /// scan ends the whole with its error.
    pub fn scan_into_from(&self, results: &mut Vec<(String, Json)>, progress: &mut ScanProgress, found: LambdaFound) -> (r: Result<(), String>)
        ensures
            final(progress).total == old(progress).total,
            targets_spec(
                (jv_entries(old(results)@), events_view(old(progress).events@), old(progress).completed),
                old(progress).total,
                lambda_targets(),
                lambda_outcomes(self.config_spec(), found),
            ) == ((jv_entries(final(results)@), events_view(final(progress).events@), final(progress).completed), error_of(r)),
    {
        let ghost f = found;
        let mut outs: Vec<TargetOutcome> = Vec::new();
        outs.push(outcome(self.config.target_enabled("functions"), found.functions));
        outs.push(outcome(self.config.target_enabled("lambda_layers"), found.lambda_layers));
        let mut targets: Vec<(&str, &str)> = Vec::new();
        targets.push(("functions", "Lambda Functions"));
        targets.push(("lambda_layers", "Lambda Layers"));
        assert(targets_view(targets@) =~= lambda_targets());
        assert(outs@.map_values(|o: TargetOutcome| outcome_view(o)) =~= lambda_outcomes(self.config_spec(), f));
        record_targets(results, progress, &targets, outs)
    }
}

/// What a scan result holds under `functions`: the records of a listing when
/// the request asks for them, an empty list otherwise.
pub open spec fn functions_slot(c: ScanConfig, v: JsonV) -> bool {
    match v {
        JsonV::Array(s) => if target_on(c.scan_targets@, "functions"@) {
            exists|x: Seq<LambdaFunctionInfo>| #[trigger] functions_filtered(c.filters@, x) == s
        } else {
            s.len() == 0
        },
        _ => false,
    }
}

/// What a scan result holds under `lambda_layers`: the records of a listing when
/// the request asks for them, an empty list otherwise.
pub open spec fn lambda_layers_slot(c: ScanConfig, v: JsonV) -> bool {
    match v {
        JsonV::Array(s) => if target_on(c.scan_targets@, "lambda_layers"@) {
            exists|x: Seq<LambdaLayerInfo>| #[trigger] layers_filtered(c.filters@, x) == s
        } else {
            s.len() == 0
        },
        _ => false,
    }
}

} // verus!
