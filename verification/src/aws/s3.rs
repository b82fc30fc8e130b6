use vstd::prelude::*;
use vstd::string::*;
use std::sync::Arc;
use crate::aws::iam::{num, number, tags_json, tags_spec};
use crate::aws::policy::{json_parsed, parse_json};
use crate::aws::record::{entry_if, opt_int, opt_text, push_one, push_opt_int, push_opt_text};
use crate::json::{insert_entry, insert_spec, jv_entries, jv_list, lemma_jv_list, push_item, text, Json, JsonV};
use crate::models::request::{name_prefix_ok, target_on, ScanConfig};
use crate::text::concat2;
use crate::aws::progress::{events_view, ScanProgress};
use crate::aws::targets::{error_of, listed_view, outcome, outcome_of, outcome_view, record_targets, targets_spec, targets_view, OutcomeV, TargetOutcome};

verus! {

/// An S3 bucket as listed by AWS.
#[derive(Debug)]
pub struct S3BucketInfo {
    pub name: String,
    pub creation_date: Option<String>,
    pub region: Option<String>,
}

/// The settings of a bucket that a scan reads.
#[derive(Debug)]
pub struct S3BucketDetail {
    pub versioning: Option<String>,
    pub encryption_algorithm: Option<String>,
    pub kms_key_id: Option<String>,
    pub tags: Vec<(String, String)>,
}

/// The policy text of a bucket.
#[derive(Debug)]
pub struct S3BucketPolicyInfo {
    pub bucket: String,
    pub policy: String,
}

/// A lifecycle rule of a bucket.
#[derive(Debug)]
pub struct S3LifecycleRuleInfo {
    pub id: String,
    pub status: String,
    pub prefix: Option<String>,
    pub expiration_days: Option<i32>,
    pub transitions: Vec<S3TransitionInfo>,
}

/// A storage-class transition of a lifecycle rule.
#[derive(Debug)]
pub struct S3TransitionInfo {
    pub days: i32,
    pub storage_class: String,
}

/// The S3 calls a scan makes; implemented over the AWS SDK by the
/// application and by test doubles.
pub trait S3ClientOps {
    fn list_buckets(&self) -> Result<Vec<S3BucketInfo>, String>;

    fn get_bucket_detail(&self, bucket_name: &str) -> Result<S3BucketDetail, String>;

    fn get_bucket_policy(&self, bucket_name: &str) -> Result<Option<S3BucketPolicyInfo>, String>;

    fn get_lifecycle_rules(&self, bucket_name: &str) -> Result<Vec<S3LifecycleRuleInfo>, String>;
}

/// The encryption entry of a bucket: its algorithm and, when set, its KMS
/// key.
pub open spec fn encryption_entries(d: S3BucketDetail) -> Seq<(Seq<char>, JsonV)> {
    match d.encryption_algorithm {
        Some(a) => seq![
            (
                "encryption"@,
                JsonV::Object(seq![("sse_algorithm"@, JsonV::Str(a@))] + opt_text("kms_master_key_id"@, d.kms_key_id)),
            ),
        ],
        None => Seq::empty(),
    }
}

/// The scan record of a bucket, with its settings when they could be read.
pub open spec fn bucket_spec(b: S3BucketInfo, d: Option<S3BucketDetail>) -> JsonV {
    JsonV::Object(
        seq![("name"@, JsonV::Str(b.name@)), ("arn"@, JsonV::Str("arn:aws:s3:::"@ + b.name@))]
            + opt_text("creation_date"@, b.creation_date) + opt_text("region"@, b.region) + match d {
            Some(d) => opt_text("versioning"@, d.versioning) + encryption_entries(d) + entry_if(
                d.tags@.len() > 0,
                "tags"@,
                tags_spec(d.tags@),
            ),
            None => Seq::empty(),
        },
    )
}

/// The scan record of a bucket policy: the policy as JSON when it parses,
/// as text otherwise.
pub open spec fn bucket_policy_spec(p: S3BucketPolicyInfo) -> JsonV {
    JsonV::Object(seq![("bucket"@, JsonV::Str(p.bucket@)), ("policy"@, policy_value(p.policy@))])
}

/// A policy text as JSON when it parses, as a string otherwise.
pub open spec fn policy_value(t: Seq<char>) -> JsonV {
    match json_parsed(t) {
        Some(v) => v,
        None => JsonV::Str(t),
    }
}

/// The record of a transition.
pub open spec fn transition_spec(t: S3TransitionInfo) -> JsonV {
    JsonV::Object(seq![("days"@, num(t.days as int)), ("storage_class"@, JsonV::Str(t.storage_class@))])
}

/// The scan record of a lifecycle rule of a bucket.
pub open spec fn lifecycle_rule_spec(bucket: Seq<char>, r: S3LifecycleRuleInfo) -> JsonV {
    JsonV::Object(
        seq![
            ("bucket"@, JsonV::Str(bucket)),
            ("id"@, JsonV::Str(r.id@)),
            ("status"@, JsonV::Str(r.status@)),
        ] + opt_text("prefix"@, r.prefix) + opt_int("expiration_days"@, r.expiration_days) + entry_if(
            r.transitions@.len() > 0,
            "transition"@,
            JsonV::Array(r.transitions@.map_values(|t: S3TransitionInfo| transition_spec(t))),
        ),
    )
}

/// The scan record of a bucket, with its settings when they could be read.
pub fn bucket_json(b: &S3BucketInfo, d: &Option<S3BucketDetail>) -> (r: Json)
    ensures
        r@ == bucket_spec(*b, *d),
{
    let mut e: Vec<(String, Json)> = Vec::new();
    push_one(&mut e, "name", text(b.name.as_str()));
    push_one(&mut e, "arn", Json::Str(concat2("arn:aws:s3:::", b.name.as_str())));
    assert(jv_entries(e@) =~= seq![("name"@, JsonV::Str(b.name@)), ("arn"@, JsonV::Str("arn:aws:s3:::"@ + b.name@))]);
    push_opt_text(&mut e, "creation_date", &b.creation_date);
    push_opt_text(&mut e, "region", &b.region);
    let ghost p = jv_entries(e@);
    match d {
        Some(d) => {
            push_opt_text(&mut e, "versioning", &d.versioning);
            let ghost q = jv_entries(e@);
            match &d.encryption_algorithm {
                Some(a) => {
                    let mut enc: Vec<(String, Json)> = Vec::new();
                    push_one(&mut enc, "sse_algorithm", text(a.as_str()));
                    push_opt_text(&mut enc, "kms_master_key_id", &d.kms_key_id);
                    assert(jv_entries(enc@) =~= seq![("sse_algorithm"@, JsonV::Str(a@))] + opt_text("kms_master_key_id"@, d.kms_key_id));
                    push_one(&mut e, "encryption", Json::Object(enc));
                },
                None => {},
            }
            assert(jv_entries(e@) =~= q + encryption_entries(*d));
            let ghost t = jv_entries(e@);
            if d.tags.len() > 0 {
                push_one(&mut e, "tags", tags_json(&d.tags));
            }
            assert(jv_entries(e@) =~= t + entry_if(d.tags@.len() > 0, "tags"@, tags_spec(d.tags@)));
        },
        None => {},
    }
    assert(jv_entries(e@) =~= p + match *d {
        Some(d) => opt_text("versioning"@, d.versioning) + encryption_entries(d) + entry_if(
            d.tags@.len() > 0,
            "tags"@,
            tags_spec(d.tags@),
        ),
        None => Seq::empty(),
    });
    Json::Object(e)
}

/// The scan record of a bucket policy.
pub fn bucket_policy_json(p: &S3BucketPolicyInfo) -> (r: Json)
    ensures
        r@ == bucket_policy_spec(*p),
{
    let policy = match parse_json(p.policy.as_str()) {
        Some(v) => v,
        None => text(p.policy.as_str()),
    };
    assert(policy@ == policy_value(p.policy@));
    let mut e: Vec<(String, Json)> = Vec::new();
    push_one(&mut e, "bucket", text(p.bucket.as_str()));
    let ghost pv = policy@;
    push_one(&mut e, "policy", policy);
    assert(jv_entries(e@) =~= seq![("bucket"@, JsonV::Str(p.bucket@)), ("policy"@, pv)]);
    let r = Json::Object(e);
    assert(r@ == JsonV::Object(jv_entries(e@)));
    r
}

/// The scan record of a lifecycle rule of a bucket.
pub fn lifecycle_rule_json(bucket: &str, r: &S3LifecycleRuleInfo) -> (out: Json)
    ensures
        out@ == lifecycle_rule_spec(bucket@, *r),
{
    let mut e: Vec<(String, Json)> = Vec::new();
    push_one(&mut e, "bucket", text(bucket));
    push_one(&mut e, "id", text(r.id.as_str()));
    push_one(&mut e, "status", text(r.status.as_str()));
    assert(jv_entries(e@) =~= seq![
        ("bucket"@, JsonV::Str(bucket@)),
        ("id"@, JsonV::Str(r.id@)),
        ("status"@, JsonV::Str(r.status@)),
    ]);
    push_opt_text(&mut e, "prefix", &r.prefix);
    push_opt_int(&mut e, "expiration_days", r.expiration_days);
    let ghost p = jv_entries(e@);
    if r.transitions.len() > 0 {
        let mut ts: Vec<Json> = Vec::new();
        let mut i: usize = 0;
        while i < r.transitions.len()
            invariant
                i <= r.transitions.len(),
                jv_list(ts@) == r.transitions@.take(i as int).map_values(|t: S3TransitionInfo| transition_spec(t)),
            decreases r.transitions.len() - i,
        {
            let t = &r.transitions[i];
            let mut te: Vec<(String, Json)> = Vec::new();
            push_one(&mut te, "days", number(t.days as i64));
            push_one(&mut te, "storage_class", text(t.storage_class.as_str()));
            assert(jv_entries(te@) =~= seq![("days"@, num(t.days as int)), ("storage_class"@, JsonV::Str(t.storage_class@))]);
            push_item(&mut ts, Json::Object(te));
            assert(r.transitions@.take(i + 1).map_values(|t: S3TransitionInfo| transition_spec(t)) =~= r.transitions@.take(
                i as int,
            ).map_values(|t: S3TransitionInfo| transition_spec(t)).push(transition_spec(r.transitions@[i as int])));
            i = i + 1;
        }
        assert(r.transitions@.take(r.transitions.len() as int) =~= r.transitions@);
        push_one(&mut e, "transition", Json::Array(ts));
    }
    assert(jv_entries(e@) =~= p + entry_if(
        r.transitions@.len() > 0,
        "transition"@,
        JsonV::Array(r.transitions@.map_values(|t: S3TransitionInfo| transition_spec(t))),
    ));
    Json::Object(e)
}

/// Scans S3 buckets, their policies and lifecycle rules through a client.
pub struct AwsS3Scanner<C: S3ClientOps> {
    config: ScanConfig,
    s3_client: Arc<C>,
}

/// What each target of this scanner gave.
pub struct S3Found {
    pub buckets: Result<Vec<Json>, String>,
    pub bucket_policies: Result<Vec<Json>, String>,
    pub lifecycle_rules: Result<Vec<Json>, String>,
}

/// This scanner's targets: result key and progress label, in order.
pub open spec fn s3_targets() -> Seq<(Seq<char>, Seq<char>)> {
    seq![
        ("buckets"@, "S3 Buckets"@),
        ("bucket_policies"@, "S3 Bucket Policies"@),
        ("lifecycle_rules"@, "S3 Lifecycle Rules"@),
    ]
}

/// The outcome of each target of this scanner under a request.
pub open spec fn s3_outcomes(c: ScanConfig, f: S3Found) -> Seq<OutcomeV> {
    seq![
        outcome_of(target_on(c.scan_targets@, "buckets"@), listed_view(f.buckets)),
        outcome_of(target_on(c.scan_targets@, "bucket_policies"@), listed_view(f.bucket_policies)),
        outcome_of(target_on(c.scan_targets@, "lifecycle_rules"@), listed_view(f.lifecycle_rules)),
    ]
}

/// Whether each target's records are what its scan can give.
pub open spec fn s3_fit(c: ScanConfig, f: S3Found) -> bool {
    (f.buckets is Ok ==> s3_slot(c, "buckets"@, JsonV::Array(jv_list(f.buckets->Ok_0@)))) && (f.bucket_policies is Ok ==> s3_slot(c, "bucket_policies"@, JsonV::Array(jv_list(f.bucket_policies->Ok_0@)))) && (f.lifecycle_rules is Ok ==> s3_slot(c, "lifecycle_rules"@, JsonV::Array(jv_list(f.lifecycle_rules->Ok_0@))))
}

/// Whether this scan may start: the original computes these targets'
/// percentages without guarding against a total of zero, so a scan that has
/// one of them on needs a positive total.
pub open spec fn s3_total_ok(c: ScanConfig, total: usize) -> bool {
    total > 0 || !(target_on(c.scan_targets@, "buckets"@) || target_on(c.scan_targets@, "bucket_policies"@) || target_on(c.scan_targets@, "lifecycle_rules"@))
}

/// The listed buckets that pass the name filter, among the first `i`: the
/// buckets whose settings are looked up, in order.
pub open spec fn looked_up_buckets(f: Seq<(String, String)>, b: Seq<S3BucketInfo>, i: int) -> Seq<Seq<char>>
    decreases i,
{
    if i <= 0 {
        Seq::empty()
    } else {
        let r = looked_up_buckets(f, b, i - 1);
        if name_prefix_ok(f, b[i - 1].name@) {
            r.push(b[i - 1].name@)
        } else {
            r
        }
    }
}

impl<C: S3ClientOps> AwsS3Scanner<C> {
    /// The scan request this scanner serves.
    pub closed spec fn config_spec(&self) -> ScanConfig {
        self.config
    }

    /// The client this scanner makes its calls through.
    pub closed spec fn client_spec(&self) -> C {
        *self.s3_client
    }

    /// A scanner over a shared client.
    pub fn new(config: ScanConfig, client: Arc<C>) -> (r: Self)
        ensures
            r.config_spec() == config,
            r.client_spec() == *client,
    {
        AwsS3Scanner { config, s3_client: client }
    }

    /// A scanner over the given client.
    pub fn new_with_client(config: ScanConfig, client: C) -> (r: Self)
        ensures
            r.config_spec() == config,
            r.client_spec() == client,
    {
        AwsS3Scanner { config, s3_client: Arc::new(client) }
    }

    /// Whether a bucket name passes the request's `name_prefix` filter.
    pub fn apply_name_filter(&self, name: &str) -> (r: bool)
        ensures
            r == name_prefix_ok(self.config_spec().filters@, name@),
    {
        self.config.name_passes(name)
    }

    /// The records of the buckets that pass the filter, each with its
    /// settings when they can be read. A failing listing fails the scan.
    pub fn scan_buckets(&self) -> (r: Result<Vec<Json>, String>)
        ensures
            r is Ok ==> exists|b: Seq<S3BucketInfo>, d: Seq<Option<S3BucketDetail>>|
                #[trigger] buckets_spec(self.config_spec().filters@, b, d) == jv_list(r->Ok_0@),
    {
        self.buckets_of_listing(self.s3_client.list_buckets()).0
    }

    /// The bucket scan once the buckets are listed: a failed listing is the
    /// scan's error; otherwise the scan succeeds with a record of each listed
    /// bucket that passes the filter, with its settings when reading them
    /// succeeded.
    /// Beside the result come the buckets whose settings were looked up, in
    /// order: exactly the listed buckets that pass the filter.
    pub fn buckets_of_listing(&self, listing: Result<Vec<S3BucketInfo>, String>) -> (r: (Result<Vec<Json>, String>, Ghost<Seq<Seq<char>>>))
        ensures
            match listing {
                Err(e) => r.0 == Err::<Vec<Json>, String>(e) && r.1@ == Seq::<Seq<char>>::empty(),
                Ok(n) => r.0 is Ok && r.1@ == looked_up_buckets(self.config_spec().filters@, n@, n@.len() as int) && exists|d: Seq<Option<S3BucketDetail>>|
                    d.len() == n@.len() && #[trigger] buckets_spec(self.config_spec().filters@, n@, d) == jv_list(r.0->Ok_0@),
            },
    {
        let buckets = match listing {
            Ok(v) => v,
            Err(e) => return (Err(e), Ghost(Seq::empty())),
        };
        let ghost mut asked: Seq<Seq<char>> = Seq::empty();
        let mut details: Vec<Option<S3BucketDetail>> = Vec::new();
        let mut i: usize = 0;
        while i < buckets.len()
            invariant
                i <= buckets.len(),
                details@.len() == i,
                asked == looked_up_buckets(self.config_spec().filters@, buckets@, i as int),
            decreases buckets.len() - i,
        {
            let name = buckets[i].name.as_str();
            if self.apply_name_filter(name) {
                proof {
                    asked = asked.push(name@);
                }
                match self.s3_client.get_bucket_detail(name) {
                    Ok(d) => details.push(Some(d)),
                    Err(_) => details.push(None),
                }
            } else {
                details.push(None);
            }
            i = i + 1;
        }
        let out = self.buckets_from(&buckets, &details);
        proof {
            assert(buckets_spec(self.config_spec().filters@, buckets@, details@) == jv_list(out@));
        }
        (Ok(out), Ghost(asked))
    }

    /// The records of the listed buckets that pass the name filter, in
    /// order, each with what describing it gave (`details[i]` for
    /// `buckets[i]`; none when that failed).
    pub fn buckets_from(&self, buckets: &Vec<S3BucketInfo>, details: &Vec<Option<S3BucketDetail>>) -> (r: Vec<Json>)
        ensures
            jv_list(r@) == buckets_spec(self.config_spec().filters@, buckets@, details@),
    {
        let mut out: Vec<Json> = Vec::new();
        let mut i: usize = 0;
        while i < buckets.len()
            invariant
                i <= buckets.len(),
                jv_list(out@) == buckets_upto(self.config_spec().filters@, buckets@, details@, i as int),
            decreases buckets.len() - i,
        {
            if self.apply_name_filter(buckets[i].name.as_str()) {
                let none: Option<S3BucketDetail> = None;
                if i < details.len() {
                    push_item(&mut out, bucket_json(&buckets[i], &details[i]));
                } else {
                    push_item(&mut out, bucket_json(&buckets[i], &none));
                }
            }
            i = i + 1;
        }
        out
    }

    /// The policies of the buckets that pass the filter and have one.
    pub fn scan_bucket_policies(&self) -> (r: Result<Vec<Json>, String>)
        ensures
            r is Ok ==> exists|b: Seq<S3BucketInfo>, p: Seq<Option<S3BucketPolicyInfo>>|
                #[trigger] bucket_policies_spec(self.config_spec().filters@, b, p) == jv_list(r->Ok_0@),
    {
        self.bucket_policies_of_listing(self.s3_client.list_buckets()).0
    }

    /// The bucket policy scan once the buckets are listed: a failed listing
    /// is the scan's error; otherwise the scan succeeds with the policy of
    /// each listed bucket that passes the filter and whose policy was read,
    /// whatever the other lookups gave.
    /// Beside the result come the buckets whose settings were looked up, in
    /// order: exactly the listed buckets that pass the filter.
    pub fn bucket_policies_of_listing(&self, listing: Result<Vec<S3BucketInfo>, String>) -> (r: (Result<Vec<Json>, String>, Ghost<Seq<Seq<char>>>))
        ensures
            match listing {
                Err(e) => r.0 == Err::<Vec<Json>, String>(e) && r.1@ == Seq::<Seq<char>>::empty(),
                Ok(n) => r.0 is Ok && r.1@ == looked_up_buckets(self.config_spec().filters@, n@, n@.len() as int) && exists|d: Seq<Option<S3BucketPolicyInfo>>|
                    d.len() == n@.len() && #[trigger] bucket_policies_spec(self.config_spec().filters@, n@, d) == jv_list(r.0->Ok_0@),
            },
    {
        let buckets = match listing {
            Ok(v) => v,
            Err(e) => return (Err(e), Ghost(Seq::empty())),
        };
        let ghost mut asked: Seq<Seq<char>> = Seq::empty();
        let mut policies: Vec<Option<S3BucketPolicyInfo>> = Vec::new();
        let mut i: usize = 0;
        while i < buckets.len()
            invariant
                i <= buckets.len(),
                policies@.len() == i,
                asked == looked_up_buckets(self.config_spec().filters@, buckets@, i as int),
            decreases buckets.len() - i,
        {
            let name = buckets[i].name.as_str();
            if self.apply_name_filter(name) {
                proof {
                    asked = asked.push(name@);
                }
                match self.s3_client.get_bucket_policy(name) {
                    Ok(Some(p)) => policies.push(Some(p)),
                    _ => policies.push(None),
                }
            } else {
                policies.push(None);
            }
            i = i + 1;
        }
        let out = self.bucket_policies_from(&buckets, &policies);
        proof {
            assert(bucket_policies_spec(self.config_spec().filters@, buckets@, policies@) == jv_list(out@));
        }
        (Ok(out), Ghost(asked))
    }

    /// The records of the policies of the listed buckets that pass the name
    /// filter, in order (`policies[i]` is the policy found for `buckets[i]`;
    /// none when it has none or the lookup failed).
    pub fn bucket_policies_from(&self, buckets: &Vec<S3BucketInfo>, policies: &Vec<Option<S3BucketPolicyInfo>>) -> (r: Vec<Json>)
        ensures
            jv_list(r@) == bucket_policies_spec(self.config_spec().filters@, buckets@, policies@),
    {
        let mut out: Vec<Json> = Vec::new();
        let mut i: usize = 0;
        while i < buckets.len()
            invariant
                i <= buckets.len(),
                jv_list(out@) == bucket_policies_upto(self.config_spec().filters@, buckets@, policies@, i as int),
            decreases buckets.len() - i,
        {
            if self.apply_name_filter(buckets[i].name.as_str()) && i < policies.len() {
                match &policies[i] {
                    Some(p) => push_item(&mut out, bucket_policy_json(p)),
                    None => {},
                }
            }
            i = i + 1;
        }
        out
    }

    /// The lifecycle rules of the buckets that pass the filter, bucket by
    /// bucket.
    pub fn scan_lifecycle_rules(&self) -> (r: Result<Vec<Json>, String>)
        ensures
            r is Ok ==> exists|b: Seq<S3BucketInfo>, rs: Seq<Vec<S3LifecycleRuleInfo>>|
                #[trigger] lifecycle_rules_spec(self.config_spec().filters@, b, rs) == jv_list(r->Ok_0@),
    {
        self.lifecycle_rules_of_listing(self.s3_client.list_buckets()).0
    }

    /// The lifecycle rule scan once the buckets are listed: a failed listing
    /// is the scan's error; otherwise the scan succeeds with the rules read
    /// for each listed bucket that passes the filter (none where reading
    /// them failed).
    /// Beside the result come the buckets whose settings were looked up, in
    /// order: exactly the listed buckets that pass the filter.
    pub fn lifecycle_rules_of_listing(&self, listing: Result<Vec<S3BucketInfo>, String>) -> (r: (Result<Vec<Json>, String>, Ghost<Seq<Seq<char>>>))
        ensures
            match listing {
                Err(e) => r.0 == Err::<Vec<Json>, String>(e) && r.1@ == Seq::<Seq<char>>::empty(),
                Ok(n) => r.0 is Ok && r.1@ == looked_up_buckets(self.config_spec().filters@, n@, n@.len() as int) && exists|d: Seq<Vec<S3LifecycleRuleInfo>>|
                    d.len() == n@.len() && #[trigger] lifecycle_rules_spec(self.config_spec().filters@, n@, d) == jv_list(r.0->Ok_0@),
            },
    {
        let buckets = match listing {
            Ok(v) => v,
            Err(e) => return (Err(e), Ghost(Seq::empty())),
        };
        let ghost mut asked: Seq<Seq<char>> = Seq::empty();
        let mut rules: Vec<Vec<S3LifecycleRuleInfo>> = Vec::new();
        let mut i: usize = 0;
        while i < buckets.len()
            invariant
                i <= buckets.len(),
                rules@.len() == i,
                asked == looked_up_buckets(self.config_spec().filters@, buckets@, i as int),
            decreases buckets.len() - i,
        {
            let name = buckets[i].name.as_str();
            if self.apply_name_filter(name) {
                proof {
                    asked = asked.push(name@);
                }
                match self.s3_client.get_lifecycle_rules(name) {
                    Ok(rs) => rules.push(rs),
                    Err(_) => rules.push(Vec::new()),
                }
            } else {
                rules.push(Vec::new());
            }
            i = i + 1;
        }
        let out = self.lifecycle_rules_from(&buckets, &rules);
        proof {
            assert(lifecycle_rules_spec(self.config_spec().filters@, buckets@, rules@) == jv_list(out@));
        }
        (Ok(out), Ghost(asked))
    }

    /// The records of the lifecycle rules of the listed buckets that pass
    /// the name filter, bucket by bucket and rule by rule (`rules[i]` are
    /// the rules found for `buckets[i]`; empty when the lookup failed).
    pub fn lifecycle_rules_from(&self, buckets: &Vec<S3BucketInfo>, rules: &Vec<Vec<S3LifecycleRuleInfo>>) -> (r: Vec<Json>)
        ensures
            jv_list(r@) == lifecycle_rules_spec(self.config_spec().filters@, buckets@, rules@),
    {
        let mut out: Vec<Json> = Vec::new();
        let mut i: usize = 0;
        while i < buckets.len()
            invariant
                i <= buckets.len(),
                jv_list(out@) == lifecycle_rules_upto(self.config_spec().filters@, buckets@, rules@, i as int),
            decreases buckets.len() - i,
        {
            let b = &buckets[i];
            if self.apply_name_filter(b.name.as_str()) && i < rules.len() {
                let rs = &rules[i];
                let ghost before = jv_list(out@);
                let mut j: usize = 0;
                while j < rs.len()
                    invariant
                        j <= rs.len(),
                        jv_list(out@) == before + rule_records(b.name@, rs@.take(j as int)),
                    decreases rs.len() - j,
                {
                    push_item(&mut out, lifecycle_rule_json(b.name.as_str(), &rs[j]));
                    assert(rs@.take(j + 1).drop_last() =~= rs@.take(j as int));
                    j = j + 1;
                }
                assert(rs@.take(rs.len() as int) =~= rs@);
            }
            i = i + 1;
        }
        out
    }

    /// Adds the list of each resource type of this scanner to a scan
    /// result: the records of its scan when the type is switched on, an
    /// empty list otherwise. The first failing scan fails the whole; the types
    /// after it are not scanned.
    pub fn scan_into(&self, results: &mut Vec<(String, Json)>, progress: &mut ScanProgress) -> (r: Result<(), String>)
        requires
            s3_total_ok(self.config_spec(), old(progress).total),
        ensures
            final(progress).total == old(progress).total,
            exists|f: S3Found|
                s3_fit(self.config_spec(), f) && targets_spec(
                (jv_entries(old(results)@), events_view(old(progress).events@), old(progress).completed),
                old(progress).total,
                s3_targets(),
                #[trigger] s3_outcomes(self.config_spec(), f),
            ) == ((jv_entries(final(results)@), events_view(final(progress).events@), final(progress).completed), error_of(r)),
    {
        let mut failed = false;
        let buckets = if !self.config.target_enabled("buckets") {
            Ok(Vec::new())
        } else if failed {
            Err(String::new())
        } else {
            let r = self.scan_buckets();
            failed = r.is_err();
            r
        };
        let bucket_policies = if !self.config.target_enabled("bucket_policies") {
            Ok(Vec::new())
        } else if failed {
            Err(String::new())
        } else {
            let r = self.scan_bucket_policies();
            failed = r.is_err();
            r
        };
        let lifecycle_rules = if !self.config.target_enabled("lifecycle_rules") {
            Ok(Vec::new())
        } else if failed {
            Err(String::new())
        } else {
            let r = self.scan_lifecycle_rules();
            failed = r.is_err();
            r
        };
        proof {
            lemma_kinds_differ();
        }
        let found = S3Found { buckets, bucket_policies, lifecycle_rules };
        proof {
            assert(jv_list(Seq::<Json>::empty()) =~= Seq::<JsonV>::empty());
        }
        self.scan_into_from(results, progress, found)
    }

    /// Writes what each target's scan gave into a scan result and its
    /// progress: for each target in order, an empty list when it is off, else
    /// its records, with a report at its start and end; the first failed
    /// scan ends the whole with its error.
    pub fn scan_into_from(&self, results: &mut Vec<(String, Json)>, progress: &mut ScanProgress, found: S3Found) -> (r: Result<(), String>)
        requires
            s3_total_ok(self.config_spec(), old(progress).total),
        ensures
            final(progress).total == old(progress).total,
            targets_spec(
                (jv_entries(old(results)@), events_view(old(progress).events@), old(progress).completed),
                old(progress).total,
                s3_targets(),
                s3_outcomes(self.config_spec(), found),
            ) == ((jv_entries(final(results)@), events_view(final(progress).events@), final(progress).completed), error_of(r)),
    {
        let ghost f = found;
        let mut outs: Vec<TargetOutcome> = Vec::new();
        outs.push(outcome(self.config.target_enabled("buckets"), found.buckets));
        outs.push(outcome(self.config.target_enabled("bucket_policies"), found.bucket_policies));
        outs.push(outcome(self.config.target_enabled("lifecycle_rules"), found.lifecycle_rules));
        let mut targets: Vec<(&str, &str)> = Vec::new();
        targets.push(("buckets", "S3 Buckets"));
        targets.push(("bucket_policies", "S3 Bucket Policies"));
        targets.push(("lifecycle_rules", "S3 Lifecycle Rules"));
        assert(targets_view(targets@) =~= s3_targets());
        assert(outs@.map_values(|o: TargetOutcome| outcome_view(o)) =~= s3_outcomes(self.config_spec(), f));
        record_targets(results, progress, &targets, outs)
    }
}

proof fn lemma_kinds_differ()
    ensures
        "buckets"@ != "bucket_policies"@,
        "buckets"@ != "lifecycle_rules"@,
        "bucket_policies"@ != "lifecycle_rules"@,
{
    reveal_strlit("buckets");
    reveal_strlit("bucket_policies");
    reveal_strlit("lifecycle_rules");
    assert("buckets"@.len() != "bucket_policies"@.len());
    assert("buckets"@.len() != "lifecycle_rules"@.len());
    assert("bucket_policies"@[0] != "lifecycle_rules"@[0]);
}

/// The records of the first `i` listed buckets that pass the name filter,
/// each with its detail when describing it succeeded.
pub open spec fn buckets_upto(f: Seq<(String, String)>, b: Seq<S3BucketInfo>, d: Seq<Option<S3BucketDetail>>, i: int) -> Seq<JsonV>
    decreases i,
{
    if i <= 0 {
        Seq::empty()
    } else {
        let rest = buckets_upto(f, b, d, i - 1);
        if name_prefix_ok(f, b[i - 1].name@) {
            rest.push(bucket_spec(b[i - 1], if i - 1 < d.len() { d[i - 1] } else { None }))
        } else {
            rest
        }
    }
}

/// The records of a bucket listing: each bucket that passes the name
/// filter, in order, with its detail when describing it succeeded.
pub open spec fn buckets_spec(f: Seq<(String, String)>, b: Seq<S3BucketInfo>, d: Seq<Option<S3BucketDetail>>) -> Seq<JsonV> {
    buckets_upto(f, b, d, b.len() as int)
}

/// The policy records of the first `i` listed buckets that pass the name
/// filter and have a policy.
pub open spec fn bucket_policies_upto(
    f: Seq<(String, String)>,
    b: Seq<S3BucketInfo>,
    p: Seq<Option<S3BucketPolicyInfo>>,
    i: int,
) -> Seq<JsonV>
    decreases i,
{
    if i <= 0 {
        Seq::empty()
    } else {
        let rest = bucket_policies_upto(f, b, p, i - 1);
        if name_prefix_ok(f, b[i - 1].name@) && i - 1 < p.len() {
            match p[i - 1] {
                Some(x) => rest.push(bucket_policy_spec(x)),
                None => rest,
            }
        } else {
            rest
        }
    }
}

/// The policy records of a bucket listing: in order, the policy of each
/// bucket that passes the name filter and has one.
pub open spec fn bucket_policies_spec(f: Seq<(String, String)>, b: Seq<S3BucketInfo>, p: Seq<Option<S3BucketPolicyInfo>>) -> Seq<JsonV> {
    bucket_policies_upto(f, b, p, b.len() as int)
}

/// The records of a bucket's lifecycle rules, in order.
pub open spec fn rule_records(bucket: Seq<char>, rs: Seq<S3LifecycleRuleInfo>) -> Seq<JsonV>
    decreases rs.len(),
{
    if rs.len() == 0 {
        Seq::empty()
    } else {
        rule_records(bucket, rs.drop_last()).push(lifecycle_rule_spec(bucket, rs.last()))
    }
}

/// The lifecycle rule records of the first `i` listed buckets that pass
/// the name filter.
pub open spec fn lifecycle_rules_upto(
    f: Seq<(String, String)>,
    b: Seq<S3BucketInfo>,
    rs: Seq<Vec<S3LifecycleRuleInfo>>,
    i: int,
) -> Seq<JsonV>
    decreases i,
{
    if i <= 0 {
        Seq::empty()
    } else {
        let rest = lifecycle_rules_upto(f, b, rs, i - 1);
        if name_prefix_ok(f, b[i - 1].name@) && i - 1 < rs.len() {
            rest + rule_records(b[i - 1].name@, rs[i - 1]@)
        } else {
            rest
        }
    }
}

/// The lifecycle rule records of a bucket listing: bucket by bucket, for
/// each bucket that passes the name filter, its rules in order.
pub open spec fn lifecycle_rules_spec(f: Seq<(String, String)>, b: Seq<S3BucketInfo>, rs: Seq<Vec<S3LifecycleRuleInfo>>) -> Seq<JsonV> {
    lifecycle_rules_upto(f, b, rs, b.len() as int)
}

/// Whether a list holds records of the given kind of S3 scan.
pub open spec fn s3_records(c: ScanConfig, kind: Seq<char>, s: Seq<JsonV>) -> bool {
    if kind == "buckets"@ {
        exists|b: Seq<S3BucketInfo>, d: Seq<Option<S3BucketDetail>>| #[trigger] buckets_spec(c.filters@, b, d) == s
    } else if kind == "bucket_policies"@ {
        exists|b: Seq<S3BucketInfo>, p: Seq<Option<S3BucketPolicyInfo>>|
            #[trigger] bucket_policies_spec(c.filters@, b, p) == s
    } else {
        exists|b: Seq<S3BucketInfo>, rs: Seq<Vec<S3LifecycleRuleInfo>>|
            #[trigger] lifecycle_rules_spec(c.filters@, b, rs) == s
    }
}

/// What a scan result holds for one kind: its records when the request
/// asks for the kind, an empty list otherwise.
pub open spec fn s3_slot(c: ScanConfig, kind: Seq<char>, v: JsonV) -> bool {
    match v {
        JsonV::Array(s) => if target_on(c.scan_targets@, kind) {
            s3_records(c, kind, s)
        } else {
            s.len() == 0
        },
        _ => false,
    }
}

} // verus!
