use vstd::prelude::*;
use crate::aws::dynamodb::{tag_list_json, tag_list_spec};
use crate::aws::iam::{num, number, tags_json, tags_spec};
use crate::aws::record::{entry_if, opt_int, opt_nonempty, opt_num, opt_text, push_one, push_opt_int, push_opt_nonempty, push_opt_num, push_opt_text, texts_json};
use crate::json::{insert_entry, insert_spec, jv_entries, jv_list, push_item, text, text_array, Json, JsonV};
use crate::models::request::{name_prefix_ok, target_on, ScanConfig};

verus! {

/// An SNS topic as listed by AWS.
#[derive(Debug)]
pub struct SNSTopicInfo {
    pub topic_arn: String,
    pub display_name: Option<String>,
    pub tags: Vec<(String, String)>,
}

/// An SNS subscription as listed by AWS.
#[derive(Debug)]
pub struct SNSSubscriptionInfo {
    pub subscription_arn: String,
    pub topic_arn: String,
    pub protocol: Option<String>,
    pub endpoint: Option<String>,
}

/// The SNS calls a scan makes; implemented over the AWS SDK by the
/// application and by test doubles.
pub trait SNSClientOps {
    fn list_topics(&self) -> Result<Vec<SNSTopicInfo>, String>;

    fn list_subscriptions(&self) -> Result<Vec<SNSSubscriptionInfo>, String>;
}

/// The scan record of a topic.
pub open spec fn topic_spec(v: SNSTopicInfo) -> JsonV {
    JsonV::Object(Seq::empty() + seq![("topic_arn"@, JsonV::Str(v.topic_arn@))] + opt_text("display_name"@, v.display_name) + entry_if(v.tags@.len() > 0, "tags"@, tag_list_spec(v.tags@)))
}

/// The scan record of a topic.
pub fn topic_json(v: &SNSTopicInfo) -> (r: Json)
    ensures
        r@ == topic_spec(*v),
{
    let mut e: Vec<(String, Json)> = Vec::new();
    assert(jv_entries(e@) =~= Seq::<(Seq<char>, JsonV)>::empty());
    let ghost p0 = jv_entries(e@);
    push_one(&mut e, "topic_arn", text(v.topic_arn.as_str()));
    assert(jv_entries(e@) =~= p0 + seq![("topic_arn"@, JsonV::Str(v.topic_arn@))]);
    let ghost p1 = jv_entries(e@);
    push_opt_text(&mut e, "display_name", &v.display_name);
    assert(jv_entries(e@) =~= p1 + opt_text("display_name"@, v.display_name));
    let ghost p2 = jv_entries(e@);
    if v.tags.len() > 0 {
        push_one(&mut e, "tags", tag_list_json(&v.tags));
    }
    assert(jv_entries(e@) =~= p2 + entry_if(v.tags@.len() > 0, "tags"@, tag_list_spec(v.tags@)));
    Json::Object(e)
}

/// The records of a list, in order.
pub fn topic_list(v: &Vec<SNSTopicInfo>) -> (r: Vec<Json>)
    ensures
        jv_list(r@) == v@.map_values(|x: SNSTopicInfo| topic_spec(x)),
{
    let mut out: Vec<Json> = Vec::new();
    let mut i: usize = 0;
    assert(v@.take(0).map_values(|x: SNSTopicInfo| topic_spec(x)) =~= Seq::<JsonV>::empty());
    while i < v.len()
        invariant
            i <= v.len(),
            jv_list(out@) == v@.take(i as int).map_values(|x: SNSTopicInfo| topic_spec(x)),
        decreases v.len() - i,
    {
        push_item(&mut out, topic_json(&v[i]));
        assert(v@.take(i + 1).map_values(|x: SNSTopicInfo| topic_spec(x)) =~= v@.take(i as int).map_values(
            |x: SNSTopicInfo| topic_spec(x),
        ).push(topic_spec(v@[i as int])));
        i = i + 1;
    }
    assert(v@.take(v.len() as int) =~= v@);
    out
}

/// The scan record of a subscription.
pub open spec fn subscription_spec(v: SNSSubscriptionInfo) -> JsonV {
    JsonV::Object(Seq::empty() + seq![("subscription_arn"@, JsonV::Str(v.subscription_arn@))] + seq![("topic_arn"@, JsonV::Str(v.topic_arn@))] + opt_text("protocol"@, v.protocol) + opt_text("endpoint"@, v.endpoint))
}

/// The scan record of a subscription.
pub fn subscription_json(v: &SNSSubscriptionInfo) -> (r: Json)
    ensures
        r@ == subscription_spec(*v),
{
    let mut e: Vec<(String, Json)> = Vec::new();
    assert(jv_entries(e@) =~= Seq::<(Seq<char>, JsonV)>::empty());
    let ghost p0 = jv_entries(e@);
    push_one(&mut e, "subscription_arn", text(v.subscription_arn.as_str()));
    assert(jv_entries(e@) =~= p0 + seq![("subscription_arn"@, JsonV::Str(v.subscription_arn@))]);
    let ghost p1 = jv_entries(e@);
    push_one(&mut e, "topic_arn", text(v.topic_arn.as_str()));
    assert(jv_entries(e@) =~= p1 + seq![("topic_arn"@, JsonV::Str(v.topic_arn@))]);
    let ghost p2 = jv_entries(e@);
    push_opt_text(&mut e, "protocol", &v.protocol);
    assert(jv_entries(e@) =~= p2 + opt_text("protocol"@, v.protocol));
    let ghost p3 = jv_entries(e@);
    push_opt_text(&mut e, "endpoint", &v.endpoint);
    assert(jv_entries(e@) =~= p3 + opt_text("endpoint"@, v.endpoint));
    Json::Object(e)
}

/// The records of a list, in order.
pub fn subscription_list(v: &Vec<SNSSubscriptionInfo>) -> (r: Vec<Json>)
    ensures
        jv_list(r@) == v@.map_values(|x: SNSSubscriptionInfo| subscription_spec(x)),
{
    let mut out: Vec<Json> = Vec::new();
    let mut i: usize = 0;
    assert(v@.take(0).map_values(|x: SNSSubscriptionInfo| subscription_spec(x)) =~= Seq::<JsonV>::empty());
    while i < v.len()
        invariant
            i <= v.len(),
            jv_list(out@) == v@.take(i as int).map_values(|x: SNSSubscriptionInfo| subscription_spec(x)),
        decreases v.len() - i,
    {
        push_item(&mut out, subscription_json(&v[i]));
        assert(v@.take(i + 1).map_values(|x: SNSSubscriptionInfo| subscription_spec(x)) =~= v@.take(i as int).map_values(
            |x: SNSSubscriptionInfo| subscription_spec(x),
        ).push(subscription_spec(v@[i as int])));
        i = i + 1;
    }
    assert(v@.take(v.len() as int) =~= v@);
    out
}

/// The records of the subscriptions that are confirmed (whose ARN is not
/// `PendingConfirmation`), in order.
pub open spec fn confirmed_subscriptions(v: Seq<SNSSubscriptionInfo>) -> Seq<JsonV>
    decreases v.len(),
{
    if v.len() == 0 {
        Seq::empty()
    } else {
        let rest = confirmed_subscriptions(v.drop_last());
        if v.last().subscription_arn@ == "PendingConfirmation"@ {
            rest
        } else {
            rest.push(subscription_spec(v.last()))
        }
    }
}

/// The records of the confirmed subscriptions.
pub fn confirmed_subscription_list(v: &Vec<SNSSubscriptionInfo>) -> (r: Vec<Json>)
    ensures
        jv_list(r@) == confirmed_subscriptions(v@),
{
    let mut out: Vec<Json> = Vec::new();
    let mut i: usize = 0;
    while i < v.len()
        invariant
            i <= v.len(),
            jv_list(out@) == confirmed_subscriptions(v@.take(i as int)),
        decreases v.len() - i,
    {
        assert(v@.take(i + 1).drop_last() =~= v@.take(i as int));
        if !crate::text::str_eq(v[i].subscription_arn.as_str(), "PendingConfirmation") {
            push_item(&mut out, subscription_json(&v[i]));
        }
        i = i + 1;
    }
    assert(v@.take(v.len() as int) =~= v@);
    out
}

} // verus!
