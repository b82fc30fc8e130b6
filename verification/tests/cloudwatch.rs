use tfkosmos::aws::cloudwatch::{AwsCloudWatchSNSScanner, CloudWatchAlarmInfo, CloudWatchClientOps};
use tfkosmos::aws::sns::{SNSClientOps, SNSSubscriptionInfo, SNSTopicInfo};
use tfkosmos::aws::progress::ScanProgress;
use tfkosmos::json::Json;
use tfkosmos::models::request::ScanConfig;

struct Cw {
    alarms: fn() -> Vec<CloudWatchAlarmInfo>,
}

impl CloudWatchClientOps for Cw {
    fn describe_alarms(&self) -> Result<Vec<CloudWatchAlarmInfo>, String> {
        Ok((self.alarms)())
    }
}

struct Sns {
    topics: fn() -> Vec<SNSTopicInfo>,
    subs: fn() -> Vec<SNSSubscriptionInfo>,
}

impl SNSClientOps for Sns {
    fn list_topics(&self) -> Result<Vec<SNSTopicInfo>, String> {
        Ok((self.topics)())
    }
    fn list_subscriptions(&self) -> Result<Vec<SNSSubscriptionInfo>, String> {
        Ok((self.subs)())
    }
}

fn make_test_config(target: &str) -> ScanConfig {
    ScanConfig {
        provider: "aws".to_string(),
        account_id: None,
        profile: Some("test".to_string()),
        subscription_id: None,
        tenant_id: None,
        auth_method: None,
        service_principal_config: None,
        scope_type: None,
        scope_value: None,
        scan_targets: vec![(target.to_string(), true)],
        filters: Vec::new(),
        include_tags: true,
        assume_role_arn: None,
        assume_role_session_name: None,
    }
}

fn s(v: &str) -> Json {
    Json::Str(v.to_string())
}

fn list<'a>(results: &'a [(String, Json)], key: &str) -> &'a Vec<Json> {
    match results.iter().find(|(k, _)| k == key) {
        Some((_, Json::Array(a))) => a,
        _ => panic!("no list {}", key),
    }
}

fn no_cw() -> Cw {
    Cw { alarms: || panic!("alarms must not be described") }
}

fn no_sns() -> Sns {
    Sns { topics: || panic!("topics must not be listed"), subs: || panic!("subscriptions must not be listed") }
}

#[test]
fn test_scan_cloudwatch_alarms() {
    let cw = Cw {
        alarms: || {
            vec![CloudWatchAlarmInfo {
                alarm_name: "high-cpu".to_string(),
                alarm_arn: Some("arn:aws:cloudwatch:ap-northeast-1:123:alarm:high-cpu".to_string()),
                metric_name: Some("CPUUtilization".to_string()),
                namespace: Some("AWS/EC2".to_string()),
                statistic: Some("Average".to_string()),
                period: Some(300),
                evaluation_periods: Some(2),
                threshold: Some("80.0".to_string()),
                comparison_operator: Some("GreaterThanThreshold".to_string()),
                alarm_actions: vec!["arn:aws:sns:ap-northeast-1:123:alerts".to_string()],
                ok_actions: vec![],
                insufficient_data_actions: vec![],
                alarm_description: Some("High CPU alarm".to_string()),
                state_value: Some("OK".to_string()),
            }]
        },
    };
    let scanner = AwsCloudWatchSNSScanner::new_with_clients(make_test_config("cloudwatch_alarms"), cw, no_sns());
    let mut results = Vec::new();
    scanner.scan_into(&mut results, &mut ScanProgress::new(1)).unwrap();
    let alarms = list(&results, "cloudwatch_alarms");
    assert_eq!(alarms.len(), 1);
    assert_eq!(alarms[0].get("alarm_name"), Some(&s("high-cpu")));
    assert_eq!(alarms[0].get("threshold"), Some(&Json::Number("80.0".to_string())));
    assert_eq!(alarms[0].get("period"), Some(&Json::Number("300".to_string())));
    assert!(alarms[0].get("ok_actions").is_none());
    assert_eq!(list(&results, "sns_topics").len(), 0);
}

#[test]
fn test_scan_sns_topics() {
    let sns = Sns {
        topics: || {
            vec![SNSTopicInfo {
                topic_arn: "arn:aws:sns:ap-northeast-1:123:alerts".to_string(),
                display_name: Some("Alerts".to_string()),
                tags: vec![("env".to_string(), "prod".to_string())],
            }]
        },
        subs: || panic!("subscriptions must not be listed"),
    };
    let scanner = AwsCloudWatchSNSScanner::new_with_clients(make_test_config("sns_topics"), no_cw(), sns);
    let mut results = Vec::new();
    scanner.scan_into(&mut results, &mut ScanProgress::new(1)).unwrap();
    let topics = list(&results, "sns_topics");
    assert_eq!(topics.len(), 1);
    assert_eq!(topics[0].get("display_name"), Some(&s("Alerts")));
}

#[test]
fn test_scan_sns_subscriptions() {
    let sns = Sns {
        topics: || panic!("topics must not be listed"),
        subs: || {
            vec![
                SNSSubscriptionInfo {
                    subscription_arn: "arn:aws:sns:ap-northeast-1:123:alerts:sub-id-1".to_string(),
                    topic_arn: "arn:aws:sns:ap-northeast-1:123:alerts".to_string(),
                    protocol: Some("email".to_string()),
                    endpoint: Some("test@example.com".to_string()),
                },
                SNSSubscriptionInfo {
                    subscription_arn: "PendingConfirmation".to_string(),
                    topic_arn: "arn:aws:sns:ap-northeast-1:123:alerts".to_string(),
                    protocol: Some("email".to_string()),
                    endpoint: Some("pending@example.com".to_string()),
                },
            ]
        },
    };
    let scanner = AwsCloudWatchSNSScanner::new_with_clients(make_test_config("sns_subscriptions"), no_cw(), sns);
    let mut results = Vec::new();
    scanner.scan_into(&mut results, &mut ScanProgress::new(1)).unwrap();
    let subs = list(&results, "sns_subscriptions");
    assert_eq!(subs.len(), 1);
    assert_eq!(subs[0].get("subscription_arn"), Some(&s("arn:aws:sns:ap-northeast-1:123:alerts:sub-id-1")));
    assert_eq!(subs[0].get("protocol"), Some(&s("email")));
    assert_eq!(subs[0].get("endpoint"), Some(&s("test@example.com")));
}

#[test]
fn test_scan_sns_topics_with_no_display_name() {
    let sns = Sns {
        topics: || {
            vec![SNSTopicInfo {
                topic_arn: "arn:aws:sns:ap-northeast-1:123:no-name".to_string(),
                display_name: None,
                tags: Vec::new(),
            }]
        },
        subs: || panic!("subscriptions must not be listed"),
    };
    let scanner = AwsCloudWatchSNSScanner::new_with_clients(make_test_config("sns_topics"), no_cw(), sns);
    let mut results = Vec::new();
    scanner.scan_into(&mut results, &mut ScanProgress::new(1)).unwrap();
    let topics = list(&results, "sns_topics");
    assert_eq!(topics.len(), 1);
    assert_eq!(topics[0].get("topic_arn"), Some(&s("arn:aws:sns:ap-northeast-1:123:no-name")));
    assert!(topics[0].get("display_name").is_none());
    assert!(topics[0].get("tags").is_none());
}

fn listener(arn: &str, lb: &str) -> tfkosmos::aws::elb::ListenerInfo {
    tfkosmos::aws::elb::ListenerInfo {
        listener_arn: arn.to_string(),
        load_balancer_arn: lb.to_string(),
        port: Some(443),
        protocol: Some("HTTPS".to_string()),
        default_actions: Vec::new(),
    }
}

#[test]
fn listeners_from_skips_failed_listings() {
    let lb = |arn: Option<&str>| match arn {
        Some(a) => Json::Object(vec![("load_balancer_arn".to_string(), Json::Str(a.to_string()))]),
        None => Json::Object(vec![("load_balancer_name".to_string(), Json::Str("x".to_string()))]),
    };
    let lbs = vec![lb(Some("lb-1")), lb(Some("lb-2")), lb(None), lb(Some("lb-3"))];
    let found = vec![
        Some(vec![listener("l-1", "lb-1"), listener("l-2", "lb-1")]),
        None,
        Some(vec![listener("ignored", "x")]),
        Some(vec![listener("l-3", "lb-3")]),
    ];
    let out = tfkosmos::aws::elb::listeners_from(&lbs, &found);
    let arns: Vec<Json> = out.iter().map(|l| l.get("listener_arn").cloned().unwrap()).collect();
    assert_eq!(
        arns,
        vec![
            Json::Str("l-1".to_string()),
            Json::Str("l-2".to_string()),
            Json::Str("l-3".to_string())
        ]
    );
    assert_eq!(out[0].get("port"), Some(&Json::Number("443".to_string())));
}

struct Elb;

impl tfkosmos::aws::elb::ELBClientOps for Elb {
    fn describe_load_balancers(&self) -> Result<Vec<tfkosmos::aws::elb::ALBInfo>, String> {
        Ok(Vec::new())
    }
    fn describe_listeners(&self, lb_arn: &str) -> Result<Vec<tfkosmos::aws::elb::ListenerInfo>, String> {
        if lb_arn == "lb-bad" {
            Err("denied".to_string())
        } else {
            Ok(vec![listener(&format!("{}-l", lb_arn), lb_arn)])
        }
    }
    fn describe_target_groups(&self) -> Result<Vec<tfkosmos::aws::elb::TargetGroupInfo>, String> {
        Ok(Vec::new())
    }
}

#[test]
fn listeners_of_lists_each_arn() {
    let scanner = tfkosmos::aws::elb::AwsELBScanner::new_with_client(make_test_config("load_balancers"), Elb);
    let lb = |arn: &str| Json::Object(vec![("load_balancer_arn".to_string(), Json::Str(arn.to_string()))]);
    let lbs = vec![lb("lb-1"), Json::Object(Vec::new()), lb("lb-bad")];
    let (found, _) = scanner.listeners_of(&lbs);
    assert_eq!(found.len(), 3);
    assert_eq!(found[0].as_ref().map(|v| v[0].listener_arn.clone()), Some("lb-1-l".to_string()));
    assert!(found[1].is_none());
    assert!(found[2].is_none());
}
