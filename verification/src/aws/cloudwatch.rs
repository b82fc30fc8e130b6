use vstd::prelude::*;
use std::sync::Arc;
use crate::aws::record::{entry_if, opt_int, opt_text, push_one, push_opt_int, push_opt_text, texts_json};
use crate::aws::sns::{confirmed_subscription_list, confirmed_subscriptions, topic_list, topic_spec, SNSClientOps, SNSSubscriptionInfo, SNSTopicInfo};
use crate::json::{insert_entry, insert_spec, jv_entries, jv_list, push_item, text, text_array, Json, JsonV, lemma_jv_list};
use crate::models::request::{target_on, ScanConfig};
use crate::aws::progress::{events_view, ScanProgress};
use crate::aws::targets::{error_of, listed_view, outcome, outcome_of, outcome_view, record_targets, targets_spec, targets_view, OutcomeV, TargetOutcome};

verus! {

/// A CloudWatch alarm as described by AWS. The threshold is kept as the
/// decimal text of the number AWS reports.
#[derive(Debug)]
pub struct CloudWatchAlarmInfo {
    pub alarm_name: String,
    pub alarm_arn: Option<String>,
    pub metric_name: Option<String>,
    pub namespace: Option<String>,
    pub statistic: Option<String>,
    pub period: Option<i32>,
    pub evaluation_periods: Option<i32>,
    pub threshold: Option<String>,
    pub comparison_operator: Option<String>,
    pub alarm_actions: Vec<String>,
    pub ok_actions: Vec<String>,
    pub insufficient_data_actions: Vec<String>,
    pub alarm_description: Option<String>,
    pub state_value: Option<String>,
}

/// The CloudWatch call a scan makes; implemented over the AWS SDK by the
/// application and by test doubles.
pub trait CloudWatchClientOps {
    fn describe_alarms(&self) -> Result<Vec<CloudWatchAlarmInfo>, String>;
}

/// An entry for an optional number given by its decimal text.
pub open spec fn opt_number(k: Seq<char>, o: Option<String>) -> Seq<(Seq<char>, JsonV)> {
    match o {
        Some(t) => seq![(k, JsonV::Number(t@))],
        None => Seq::empty(),
    }
}

/// The scan record of an alarm.
pub open spec fn alarm_spec(v: CloudWatchAlarmInfo) -> JsonV {
    JsonV::Object(
        seq![("alarm_name"@, JsonV::Str(v.alarm_name@))] + opt_text("alarm_arn"@, v.alarm_arn)
            + opt_text("metric_name"@, v.metric_name) + opt_text("namespace"@, v.namespace)
            + opt_text("statistic"@, v.statistic) + opt_int("period"@, v.period) + opt_int(
            "evaluation_periods"@,
            v.evaluation_periods,
        ) + opt_number("threshold"@, v.threshold) + opt_text(
            "comparison_operator"@,
            v.comparison_operator,
        ) + entry_if(v.alarm_actions@.len() > 0, "alarm_actions"@, texts_json(v.alarm_actions@))
            + entry_if(v.ok_actions@.len() > 0, "ok_actions"@, texts_json(v.ok_actions@)) + opt_text(
            "alarm_description"@,
            v.alarm_description,
        ) + opt_text("state_value"@, v.state_value),
    )
}

/// The scan record of an alarm.
#[verifier::rlimit(60)]
pub fn alarm_json(v: &CloudWatchAlarmInfo) -> (r: Json)
    ensures
        r@ == alarm_spec(*v),
{
    let mut e: Vec<(String, Json)> = Vec::new();
    assert(jv_entries(e@) =~= Seq::<(Seq<char>, JsonV)>::empty());
    push_one(&mut e, "alarm_name", text(v.alarm_name.as_str()));
    let ghost p1 = jv_entries(e@);
    push_opt_text(&mut e, "alarm_arn", &v.alarm_arn);
    let ghost p2 = jv_entries(e@);
    push_opt_text(&mut e, "metric_name", &v.metric_name);
    let ghost p3 = jv_entries(e@);
    push_opt_text(&mut e, "namespace", &v.namespace);
    let ghost p4 = jv_entries(e@);
    push_opt_text(&mut e, "statistic", &v.statistic);
    let ghost p5 = jv_entries(e@);
    push_opt_int(&mut e, "period", v.period);
    let ghost p6 = jv_entries(e@);
    push_opt_int(&mut e, "evaluation_periods", v.evaluation_periods);
    let ghost p7 = jv_entries(e@);
    match &v.threshold {
        Some(t) => push_one(&mut e, "threshold", Json::Number(t.clone())),
        None => {},
    }
    assert(jv_entries(e@) =~= p7 + opt_number("threshold"@, v.threshold));
    let ghost p8 = jv_entries(e@);
    push_opt_text(&mut e, "comparison_operator", &v.comparison_operator);
    let ghost p9 = jv_entries(e@);
    if v.alarm_actions.len() > 0 {
        push_one(&mut e, "alarm_actions", text_array(&v.alarm_actions));
    }
    assert(jv_entries(e@) =~= p9 + entry_if(v.alarm_actions@.len() > 0, "alarm_actions"@, texts_json(v.alarm_actions@)));
    let ghost p10 = jv_entries(e@);
    if v.ok_actions.len() > 0 {
        push_one(&mut e, "ok_actions", text_array(&v.ok_actions));
    }
    assert(jv_entries(e@) =~= p10 + entry_if(v.ok_actions@.len() > 0, "ok_actions"@, texts_json(v.ok_actions@)));
    let ghost p11 = jv_entries(e@);
    push_opt_text(&mut e, "alarm_description", &v.alarm_description);
    let ghost p12 = jv_entries(e@);
    push_opt_text(&mut e, "state_value", &v.state_value);
    assert(jv_entries(e@) =~= seq![("alarm_name"@, JsonV::Str(v.alarm_name@))] + opt_text("alarm_arn"@, v.alarm_arn)
        + opt_text("metric_name"@, v.metric_name) + opt_text("namespace"@, v.namespace)
        + opt_text("statistic"@, v.statistic) + opt_int("period"@, v.period) + opt_int(
        "evaluation_periods"@,
        v.evaluation_periods,
    ) + opt_number("threshold"@, v.threshold) + opt_text("comparison_operator"@, v.comparison_operator)
        + entry_if(v.alarm_actions@.len() > 0, "alarm_actions"@, texts_json(v.alarm_actions@))
        + entry_if(v.ok_actions@.len() > 0, "ok_actions"@, texts_json(v.ok_actions@)) + opt_text(
        "alarm_description"@,
        v.alarm_description,
    ) + opt_text("state_value"@, v.state_value));
    Json::Object(e)
}

/// The records of the described alarms, in order.
pub open spec fn alarms_spec(v: Seq<CloudWatchAlarmInfo>) -> Seq<JsonV> {
    v.map_values(|x: CloudWatchAlarmInfo| alarm_spec(x))
}

/// The records of a list of alarms, in order.
pub fn alarm_list(v: &Vec<CloudWatchAlarmInfo>) -> (r: Vec<Json>)
    ensures
        jv_list(r@) == alarms_spec(v@),
{
    let mut out: Vec<Json> = Vec::new();
    let mut i: usize = 0;
    assert(alarms_spec(v@.take(0)) =~= Seq::<JsonV>::empty());
    while i < v.len()
        invariant
            i <= v.len(),
            jv_list(out@) == alarms_spec(v@.take(i as int)),
        decreases v.len() - i,
    {
        push_item(&mut out, alarm_json(&v[i]));
        assert(alarms_spec(v@.take(i + 1)) =~= alarms_spec(v@.take(i as int)).push(alarm_spec(v@[i as int])));
        i = i + 1;
    }
    assert(v@.take(v.len() as int) =~= v@);
    out
}

/// The records of the listed topics, in order.
pub open spec fn topics_spec(v: Seq<SNSTopicInfo>) -> Seq<JsonV> {
    v.map_values(|x: SNSTopicInfo| topic_spec(x))
}

/// Scans CloudWatch alarms and SNS topics and subscriptions through clients.
pub struct AwsCloudWatchSNSScanner<CW: CloudWatchClientOps, SN: SNSClientOps> {
    config: ScanConfig,
    cw_client: Arc<CW>,
    sns_client: Arc<SN>,
}

/// What each target of this scanner gave.
pub struct CloudWatchSnsFound {
    pub cloudwatch_alarms: Result<Vec<Json>, String>,
    pub sns_topics: Result<Vec<Json>, String>,
    pub sns_subscriptions: Result<Vec<Json>, String>,
}

/// This scanner's targets: result key and progress label, in order.
pub open spec fn cloudwatch_sns_targets() -> Seq<(Seq<char>, Seq<char>)> {
    seq![
        ("cloudwatch_alarms"@, "CloudWatch Alarms"@),
        ("sns_topics"@, "SNS Topics"@),
        ("sns_subscriptions"@, "SNS Subscriptions"@),
    ]
}

/// The outcome of each target of this scanner under a request.
pub open spec fn cloudwatch_sns_outcomes(c: ScanConfig, f: CloudWatchSnsFound) -> Seq<OutcomeV> {
    seq![
        outcome_of(target_on(c.scan_targets@, "cloudwatch_alarms"@), listed_view(f.cloudwatch_alarms)),
        outcome_of(target_on(c.scan_targets@, "sns_topics"@), listed_view(f.sns_topics)),
        outcome_of(target_on(c.scan_targets@, "sns_subscriptions"@), listed_view(f.sns_subscriptions)),
    ]
}

/// Whether each target's records are what its scan can give.
pub open spec fn cloudwatch_sns_fit(c: ScanConfig, f: CloudWatchSnsFound) -> bool {
    (f.cloudwatch_alarms is Ok ==> cloudwatch_alarms_slot(c, JsonV::Array(jv_list(f.cloudwatch_alarms->Ok_0@)))) && (f.sns_topics is Ok ==> sns_topics_slot(c, JsonV::Array(jv_list(f.sns_topics->Ok_0@)))) && (f.sns_subscriptions is Ok ==> sns_subscriptions_slot(c, JsonV::Array(jv_list(f.sns_subscriptions->Ok_0@))))
}

impl<CW: CloudWatchClientOps, SN: SNSClientOps> AwsCloudWatchSNSScanner<CW, SN> {
    /// The scan request this scanner serves.
    pub closed spec fn config_spec(&self) -> ScanConfig {
        self.config
    }

    /// The client alarms are described through.
    pub closed spec fn cw_client_spec(&self) -> CW {
        *self.cw_client
    }

    /// The client topics and subscriptions are listed through.
    pub closed spec fn sns_client_spec(&self) -> SN {
        *self.sns_client
    }

    /// A scanner over shared clients.
    pub fn new(config: ScanConfig, cw_client: Arc<CW>, sns_client: Arc<SN>) -> (r: Self)
        ensures
            r.config_spec() == config,
            r.cw_client_spec() == *cw_client,
            r.sns_client_spec() == *sns_client,
    {
        AwsCloudWatchSNSScanner { config, cw_client, sns_client }
    }

    /// A scanner over the given clients.
    pub fn new_with_clients(config: ScanConfig, cw_client: CW, sns_client: SN) -> (r: Self)
        ensures
            r.config_spec() == config,
            r.cw_client_spec() == cw_client,
            r.sns_client_spec() == sns_client,
    {
        AwsCloudWatchSNSScanner { config, cw_client: Arc::new(cw_client), sns_client: Arc::new(sns_client) }
    }

    /// The records of the described alarms; a failing call is passed on.
    pub fn scan_alarms(&self) -> (r: Result<Vec<Json>, String>)
        ensures
            r is Ok ==> exists|v: Seq<CloudWatchAlarmInfo>| #[trigger] alarms_spec(v) == jv_list(r->Ok_0@),
    {
        match self.cw_client.describe_alarms() {
            Ok(v) => {
                let out = alarm_list(&v);
                proof {
                    assert(alarms_spec(v@) == jv_list(out@));
                }
                Ok(out)
            },
            Err(e) => Err(e),
        }
    }

    /// The records of the listed topics; a failing call is passed on.
    pub fn scan_topics(&self) -> (r: Result<Vec<Json>, String>)
        ensures
            r is Ok ==> exists|v: Seq<SNSTopicInfo>| #[trigger] topics_spec(v) == jv_list(r->Ok_0@),
    {
        match self.sns_client.list_topics() {
            Ok(v) => {
                let out = topic_list(&v);
                proof {
                    assert(topics_spec(v@) == jv_list(out@));
                }
                Ok(out)
            },
            Err(e) => Err(e),
        }
    }

    /// The records of the confirmed subscriptions; a failing call is passed
    /// on.
    pub fn scan_subscriptions(&self) -> (r: Result<Vec<Json>, String>)
        ensures
            r is Ok ==> exists|v: Seq<SNSSubscriptionInfo>| #[trigger] confirmed_subscriptions(v) == jv_list(r->Ok_0@),
    {
        match self.sns_client.list_subscriptions() {
            Ok(v) => {
                let out = confirmed_subscription_list(&v);
                proof {
                    assert(confirmed_subscriptions(v@) == jv_list(out@));
                }
                Ok(out)
            },
            Err(e) => Err(e),
        }
    }

    /// Adds the list of each resource type of this scanner to a scan
    /// result: the records of its scan when the type is switched on, an
    /// empty list otherwise. The first failing scan fails the whole; the types
    /// after it are not scanned.
    pub fn scan_into(&self, results: &mut Vec<(String, Json)>, progress: &mut ScanProgress) -> (r: Result<(), String>)
        ensures
            final(progress).total == old(progress).total,
            exists|f: CloudWatchSnsFound|
                cloudwatch_sns_fit(self.config_spec(), f) && targets_spec(
                (jv_entries(old(results)@), events_view(old(progress).events@), old(progress).completed),
                old(progress).total,
                cloudwatch_sns_targets(),
                #[trigger] cloudwatch_sns_outcomes(self.config_spec(), f),
            ) == ((jv_entries(final(results)@), events_view(final(progress).events@), final(progress).completed), error_of(r)),
    {
        let mut failed = false;
        let cloudwatch_alarms = if !self.config.target_enabled("cloudwatch_alarms") {
            Ok(Vec::new())
        } else if failed {
            Err(String::new())
        } else {
            let r = self.scan_alarms();
            failed = r.is_err();
            r
        };
        let sns_topics = if !self.config.target_enabled("sns_topics") {
            Ok(Vec::new())
        } else if failed {
            Err(String::new())
        } else {
            let r = self.scan_topics();
            failed = r.is_err();
            r
        };
        let sns_subscriptions = if !self.config.target_enabled("sns_subscriptions") {
            Ok(Vec::new())
        } else if failed {
            Err(String::new())
        } else {
            let r = self.scan_subscriptions();
            failed = r.is_err();
            r
        };
        let found = CloudWatchSnsFound { cloudwatch_alarms, sns_topics, sns_subscriptions };
        proof {
            assert(jv_list(Seq::<Json>::empty()) =~= Seq::<JsonV>::empty());
        }
        self.scan_into_from(results, progress, found)
    }

    /// Writes what each target's scan gave into a scan result and its
    /// progress: for each target in order, an empty list when it is off, else
    /// its records, with a report at its start and end; the first failed
    /// scan ends the whole with its error.
    pub fn scan_into_from(&self, results: &mut Vec<(String, Json)>, progress: &mut ScanProgress, found: CloudWatchSnsFound) -> (r: Result<(), String>)
        ensures
            final(progress).total == old(progress).total,
            targets_spec(
                (jv_entries(old(results)@), events_view(old(progress).events@), old(progress).completed),
                old(progress).total,
                cloudwatch_sns_targets(),
                cloudwatch_sns_outcomes(self.config_spec(), found),
            ) == ((jv_entries(final(results)@), events_view(final(progress).events@), final(progress).completed), error_of(r)),
    {
        let ghost f = found;
        let mut outs: Vec<TargetOutcome> = Vec::new();
        outs.push(outcome(self.config.target_enabled("cloudwatch_alarms"), found.cloudwatch_alarms));
        outs.push(outcome(self.config.target_enabled("sns_topics"), found.sns_topics));
        outs.push(outcome(self.config.target_enabled("sns_subscriptions"), found.sns_subscriptions));
        let mut targets: Vec<(&str, &str)> = Vec::new();
        targets.push(("cloudwatch_alarms", "CloudWatch Alarms"));
        targets.push(("sns_topics", "SNS Topics"));
        targets.push(("sns_subscriptions", "SNS Subscriptions"));
        assert(targets_view(targets@) =~= cloudwatch_sns_targets());
        assert(outs@.map_values(|o: TargetOutcome| outcome_view(o)) =~= cloudwatch_sns_outcomes(self.config_spec(), f));
        record_targets(results, progress, &targets, outs)
    }
}

/// What a scan result holds under `cloudwatch_alarms`: the records of a listing when
/// the request asks for them, an empty list otherwise.
pub open spec fn cloudwatch_alarms_slot(c: ScanConfig, v: JsonV) -> bool {
    match v {
        JsonV::Array(s) => if target_on(c.scan_targets@, "cloudwatch_alarms"@) {
            exists|x: Seq<CloudWatchAlarmInfo>| #[trigger] alarms_spec(x) == s
        } else {
            s.len() == 0
        },
        _ => false,
    }
}

/// What a scan result holds under `sns_topics`: the records of a listing when
/// the request asks for them, an empty list otherwise.
pub open spec fn sns_topics_slot(c: ScanConfig, v: JsonV) -> bool {
    match v {
        JsonV::Array(s) => if target_on(c.scan_targets@, "sns_topics"@) {
            exists|x: Seq<SNSTopicInfo>| #[trigger] topics_spec(x) == s
        } else {
            s.len() == 0
        },
        _ => false,
    }
}

/// What a scan result holds under `sns_subscriptions`: the records of a listing when
/// the request asks for them, an empty list otherwise.
pub open spec fn sns_subscriptions_slot(c: ScanConfig, v: JsonV) -> bool {
    match v {
        JsonV::Array(s) => if target_on(c.scan_targets@, "sns_subscriptions"@) {
            exists|x: Seq<SNSSubscriptionInfo>| #[trigger] confirmed_subscriptions(x) == s
        } else {
            s.len() == 0
        },
        _ => false,
    }
}

} // verus!
