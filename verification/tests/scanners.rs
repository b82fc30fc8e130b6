use tfkosmos::aws::dynamodb::{
    AttributeDefinitionInfo, AwsDynamoDBScanner, DynamoDBClientOps, DynamoDBTableInfo, KeySchemaElementInfo, TTLInfo,
};
use tfkosmos::aws::ec2::{
    AwsEc2Scanner, AwsVpcScanner, Ec2ClientOps, Ec2InstanceInfo, ElasticIpInfo, InternetGatewayInfo, NatGatewayInfo,
    NetworkAclInfo, RouteTableInfo, SecurityGroupInfo, SubnetInfo, VpcInfo,
};
use tfkosmos::aws::lambda::{AwsLambdaScanner, LambdaClientOps, LambdaFunctionInfo, LambdaLayerInfo};
use tfkosmos::aws::rds::{
    AwsRdsScanner, RdsClientOps, RdsInstanceInfo, RdsParameterGroupInfo, RdsParameterInfo, RdsSubnetGroupInfo,
};
use tfkosmos::aws::s3::{
    AwsS3Scanner, S3BucketDetail, S3BucketInfo, S3BucketPolicyInfo, S3ClientOps, S3LifecycleRuleInfo,
    S3TransitionInfo,
};
use tfkosmos::aws::progress::ScanProgress;
use tfkosmos::aws::targets::{record_targets, TargetOutcome};
use tfkosmos::json::Json;
use tfkosmos::models::request::ScanConfig;
use tfkosmos::providers::AwsProvider;

fn config(targets: &[&str], prefix: Option<&str>) -> ScanConfig {
    ScanConfig {
        provider: "aws".to_string(),
        account_id: None,
        profile: None,
        assume_role_arn: None,
        assume_role_session_name: None,
        subscription_id: None,
        tenant_id: None,
        auth_method: None,
        service_principal_config: None,
        scope_type: None,
        scope_value: None,
        scan_targets: targets.iter().map(|t| (t.to_string(), true)).collect(),
        filters: prefix.map(|p| vec![("name_prefix".to_string(), p.to_string())]).unwrap_or_default(),
        include_tags: true,
    }
}

fn s(v: &str) -> Json {
    Json::Str(v.to_string())
}

fn n(v: i64) -> Json {
    Json::Number(v.to_string())
}

fn list<'a>(results: &'a [(String, Json)], key: &str) -> &'a Vec<Json> {
    match results.iter().find(|(k, _)| k == key) {
        Some((_, Json::Array(a))) => a,
        _ => panic!("no list {}", key),
    }
}

struct S3;

impl S3ClientOps for S3 {
    fn list_buckets(&self) -> Result<Vec<S3BucketInfo>, String> {
        Ok(["app-logs", "app-data", "other"]
            .iter()
            .map(|b| S3BucketInfo {
                name: b.to_string(),
                creation_date: Some("2024-01-01T00:00:00Z".to_string()),
                region: Some("ap-northeast-1".to_string()),
            })
            .collect())
    }
    fn get_bucket_detail(&self, bucket_name: &str) -> Result<S3BucketDetail, String> {
        if bucket_name == "app-data" {
            return Err("AccessDenied".to_string());
        }
        Ok(S3BucketDetail {
            versioning: Some("Enabled".to_string()),
            encryption_algorithm: Some("AES256".to_string()),
            kms_key_id: None,
            tags: vec![("env".to_string(), "prod".to_string())],
        })
    }
    fn get_bucket_policy(&self, bucket_name: &str) -> Result<Option<S3BucketPolicyInfo>, String> {
        if bucket_name == "app-logs" {
            Ok(Some(S3BucketPolicyInfo {
                bucket: bucket_name.to_string(),
                policy: r#"{"Version":"2012-10-17","Statement":[]}"#.to_string(),
            }))
        } else {
            Ok(None)
        }
    }
    fn get_lifecycle_rules(&self, _bucket_name: &str) -> Result<Vec<S3LifecycleRuleInfo>, String> {
        Ok(vec![S3LifecycleRuleInfo {
            id: "expire-old".to_string(),
            status: "Enabled".to_string(),
            prefix: Some("logs/".to_string()),
            expiration_days: Some(30),
            transitions: vec![S3TransitionInfo { days: 7, storage_class: "GLACIER".to_string() }],
        }])
    }
}

#[test]
fn scan_buckets_with_prefix_filter() {
    let scanner = AwsS3Scanner::new_with_client(config(&["buckets"], Some("app-")), S3);
    let buckets = scanner.scan_buckets().unwrap();
    assert_eq!(buckets.len(), 2);
    assert_eq!(buckets[0].get("name"), Some(&s("app-logs")));
    assert_eq!(buckets[1].get("name"), Some(&s("app-data")));
    assert!(scanner.apply_name_filter("app-x"));
    assert!(!scanner.apply_name_filter("other"));
}

#[test]
fn scan_bucket_policies_and_lifecycle_rules() {
    let scanner = AwsS3Scanner::new_with_client(config(&["bucket_policies", "lifecycle_rules"], None), S3);
    let policies = scanner.scan_bucket_policies().unwrap();
    assert_eq!(policies.len(), 1);
    assert_eq!(policies[0].get("bucket"), Some(&s("app-logs")));
    let rules = scanner.scan_lifecycle_rules().unwrap();
    assert_eq!(rules.len(), 3);
    assert_eq!(rules[2].get("bucket"), Some(&s("other")));
    assert_eq!(rules[0].get("id"), Some(&s("expire-old")));
    let mut results = Vec::new();
    scanner.scan_into(&mut results, &mut ScanProgress::new(1)).unwrap();
    assert_eq!(list(&results, "buckets").len(), 0);
    assert_eq!(list(&results, "lifecycle_rules").len(), 3);
}

struct Lambda;

fn function(name: &str) -> LambdaFunctionInfo {
    LambdaFunctionInfo {
        function_name: name.to_string(),
        function_arn: Some(format!("arn:aws:lambda:ap-northeast-1:123:function:{}", name)),
        runtime: Some("python3.12".to_string()),
        handler: Some("app.handler".to_string()),
        role: None,
        description: Some(String::new()),
        memory_size: Some(128),
        timeout: Some(30),
        code_size: Some(1024),
        last_modified: None,
        environment: Vec::new(),
        vpc_subnet_ids: Vec::new(),
        vpc_security_group_ids: Vec::new(),
        layers: Vec::new(),
        tags: Vec::new(),
    }
}

impl LambdaClientOps for Lambda {
    fn list_functions(&self) -> Result<Vec<LambdaFunctionInfo>, String> {
        Ok(vec![function("prod-api"), function("dev-api")])
    }
    fn list_layers(&self) -> Result<Vec<LambdaLayerInfo>, String> {
        Ok(vec![LambdaLayerInfo {
            layer_name: "prod-deps".to_string(),
            layer_arn: None,
            latest_version: Some(3),
            description: None,
            compatible_runtimes: vec!["python3.12".to_string()],
        }])
    }
}

#[test]
fn test_scan_functions_with_name_prefix_filter() {
    let scanner = AwsLambdaScanner::new_with_client(config(&["functions", "lambda_layers"], Some("prod-")), Lambda);
    let functions = scanner.scan_functions().unwrap();
    assert_eq!(functions.len(), 1);
    assert_eq!(functions[0].get("function_name"), Some(&s("prod-api")));
    assert_eq!(functions[0].get("memory_size"), Some(&n(128)));
    assert!(functions[0].get("description").is_none());
    let layers = scanner.scan_layers().unwrap();
    assert_eq!(layers.len(), 1);
}

#[test]
fn test_scan_empty_targets() {
    let scanner = AwsLambdaScanner::new_with_client(config(&[], None), Lambda);
    let mut results = Vec::new();
    scanner.scan_into(&mut results, &mut ScanProgress::new(1)).unwrap();
    assert_eq!(
        results,
        vec![
            ("functions".to_string(), Json::Array(Vec::new())),
            ("lambda_layers".to_string(), Json::Array(Vec::new()))
        ]
    );
}

struct Dynamo;

impl DynamoDBClientOps for Dynamo {
    fn list_table_names(&self) -> Result<Vec<String>, String> {
        Ok(vec!["users".to_string(), "broken".to_string()])
    }
    fn describe_table(&self, table_name: &str) -> Result<DynamoDBTableInfo, String> {
        if table_name == "broken" {
            return Err("ResourceNotFound".to_string());
        }
        Ok(DynamoDBTableInfo {
            table_name: table_name.to_string(),
            table_arn: Some("arn:aws:dynamodb:ap-northeast-1:123:table/users".to_string()),
            status: Some("ACTIVE".to_string()),
            billing_mode: Some("PAY_PER_REQUEST".to_string()),
            read_capacity: None,
            write_capacity: None,
            key_schema: vec![KeySchemaElementInfo { attribute_name: "id".to_string(), key_type: "HASH".to_string() }],
            attribute_definitions: vec![AttributeDefinitionInfo {
                attribute_name: "id".to_string(),
                attribute_type: "S".to_string(),
            }],
            global_secondary_indexes: Vec::new(),
            local_secondary_indexes: Vec::new(),
            stream_enabled: false,
            stream_view_type: None,
            tags: Vec::new(),
        })
    }
    fn describe_ttl(&self, _table_name: &str) -> Result<TTLInfo, String> {
        Ok(TTLInfo { attribute_name: Some("expires_at".to_string()), enabled: true })
    }
}

#[test]
fn scan_dynamodb_tables_skips_failing_describe() {
    let scanner = AwsDynamoDBScanner::new_with_client(config(&["dynamodb_tables"], None), Dynamo);
    let tables = scanner.scan_tables().unwrap();
    assert_eq!(tables.len(), 1);
    assert_eq!(tables[0].get("table_name"), Some(&s("users")));
}

struct Rds;

impl RdsClientOps for Rds {
    fn describe_db_instances(&self) -> Result<Vec<RdsInstanceInfo>, String> {
        Err("throttled".to_string())
    }
    fn describe_db_subnet_groups(&self) -> Result<Vec<RdsSubnetGroupInfo>, String> {
        Ok(vec![RdsSubnetGroupInfo {
            db_subnet_group_name: "main".to_string(),
            description: Some("main group".to_string()),
            vpc_id: Some("vpc-1".to_string()),
            subnet_ids: vec!["subnet-a".to_string(), "subnet-b".to_string()],
            status: Some("Complete".to_string()),
            tags: vec![("env".to_string(), "prod".to_string())],
        }])
    }
    fn describe_db_parameter_groups(&self) -> Result<Vec<RdsParameterGroupInfo>, String> {
        Ok(vec![RdsParameterGroupInfo {
            db_parameter_group_name: "pg".to_string(),
            family: Some("postgres16".to_string()),
            description: None,
            tags: Vec::new(),
        }])
    }
    fn describe_db_parameters(&self, _name: &str) -> Result<Vec<RdsParameterInfo>, String> {
        Ok(vec![RdsParameterInfo {
            name: "max_connections".to_string(),
            value: "100".to_string(),
            apply_method: Some("pending-reboot".to_string()),
        }])
    }
}

#[test]
fn scan_rds_groups_and_errors() {
    let scanner = AwsRdsScanner::new_with_client(config(&["db_instances"], None), Rds);
    assert_eq!(scanner.scan_db_instances().err(), Some("throttled".to_string()));
    let mut results = Vec::new();
    assert!(scanner.scan_into(&mut results, &mut ScanProgress::new(1)).is_err());
    let groups = scanner.scan_db_subnet_groups().unwrap();
    assert_eq!(groups.len(), 1);
    assert_eq!(groups[0].get("db_subnet_group_name"), Some(&s("main")));
    let params = scanner.scan_db_parameter_groups().unwrap();
    assert_eq!(params.len(), 1);
    assert_eq!(params[0].get("db_parameter_group_name"), Some(&s("pg")));
}

struct Ec2;

impl Ec2ClientOps for Ec2 {
    fn describe_instances(&self) -> Result<Vec<Ec2InstanceInfo>, String> {
        Ok(vec![Ec2InstanceInfo {
            instance_id: "i-0abc123".to_string(),
            instance_type: Some("t3.micro".to_string()),
            state: Some("running".to_string()),
            ami_id: Some("ami-123".to_string()),
            vpc_id: Some("vpc-1".to_string()),
            subnet_id: None,
            private_ip: None,
            public_ip: None,
            key_name: None,
            iam_instance_profile: None,
            security_groups: vec!["sg-1".to_string()],
            tags: vec![("Name".to_string(), "web".to_string())],
        }])
    }
    fn describe_vpcs(&self) -> Result<Vec<VpcInfo>, String> {
        Ok(vec![VpcInfo {
            vpc_id: "vpc-12345".to_string(),
            cidr_block: Some("10.0.0.0/16".to_string()),
            state: Some("available".to_string()),
            enable_dns_support: true,
            enable_dns_hostnames: false,
            instance_tenancy: Some("default".to_string()),
            tags: Vec::new(),
        }])
    }
    fn describe_subnets(&self) -> Result<Vec<SubnetInfo>, String> {
        Ok(Vec::new())
    }
    fn describe_route_tables(&self) -> Result<Vec<RouteTableInfo>, String> {
        Ok(Vec::new())
    }
    fn describe_security_groups(&self) -> Result<Vec<SecurityGroupInfo>, String> {
        Ok(Vec::new())
    }
    fn describe_network_acls(&self) -> Result<Vec<NetworkAclInfo>, String> {
        Ok(Vec::new())
    }
    fn describe_internet_gateways(&self) -> Result<Vec<InternetGatewayInfo>, String> {
        Ok(Vec::new())
    }
    fn describe_nat_gateways(&self) -> Result<Vec<NatGatewayInfo>, String> {
        Ok(Vec::new())
    }
    fn describe_addresses(&self) -> Result<Vec<ElasticIpInfo>, String> {
        Ok(Vec::new())
    }
}

#[test]
fn scan_instances_and_vpcs() {
    let scanner = AwsEc2Scanner::new_with_client(config(&["instances"], None), Ec2);
    let instances = scanner.scan_instances().unwrap();
    assert_eq!(instances.len(), 1);
    assert_eq!(instances[0].get("instance_id"), Some(&s("i-0abc123")));
    let vpc = AwsVpcScanner::new_with_client(config(&["vpcs"], None), Ec2);
    let mut results = Vec::new();
    vpc.scan_into(&mut results, &mut ScanProgress::new(1)).unwrap();
    let vpcs = list(&results, "vpcs");
    assert_eq!(vpcs.len(), 1);
    assert_eq!(vpcs[0].get("vpc_id"), Some(&s("vpc-12345")));
    assert_eq!(vpcs[0].get("enable_dns_support"), Some(&Json::Bool(true)));
    assert_eq!(list(&results, "subnets").len(), 0);
    assert_eq!(results.len(), 8);
}

#[test]
fn progress_reports_shared_counter() {
    let mut progress = ScanProgress::new(3);
    let scanner = AwsS3Scanner::new_with_client(config(&["buckets", "bucket_policies", "lifecycle_rules"], None), S3);
    let mut results = Vec::new();
    scanner.scan_into(&mut results, &mut progress).unwrap();
    assert_eq!(progress.completed, 3);
    assert_eq!(
        progress.events,
        vec![
            (0, "S3 Bucketsのスキャン中...".to_string()),
            (33, "S3 Bucketsのスキャン完了: 3件".to_string()),
            (33, "S3 Bucket Policiesのスキャン中...".to_string()),
            (66, "S3 Bucket Policiesのスキャン完了: 1件".to_string()),
            (66, "S3 Lifecycle Rulesのスキャン中...".to_string()),
            (100, "S3 Lifecycle Rulesのスキャン完了: 3件".to_string()),
        ]
    );
}

#[test]
fn progress_percent_with_zero_total() {
    let mut p = ScanProgress::new(0);
    assert_eq!(p.percent(), 0);
    p.finish("X", 0);
    assert_eq!(p.events, vec![(100, "Xのスキャン完了: 0件".to_string())]);
}

#[test]
fn scan_groups_follow_targets() {
    let g = AwsProvider.scan_groups(&config(&["users", "buckets", "vpcs"], None));
    assert!(g.s3);
    assert!(g.vpc);
    assert!(!g.dynamodb);
    assert_eq!(g.non_iam_total, 2);
    let none = AwsProvider.scan_groups(&config(&[], None));
    assert!(!none.s3 && !none.ec2 && !none.vpc && !none.rds && !none.lambda && !none.elb && !none.cw_sns);
    assert_eq!(none.non_iam_total, 0);
}

fn table_info(name: &str) -> DynamoDBTableInfo {
    DynamoDBTableInfo {
        table_name: name.to_string(),
        table_arn: None,
        status: Some("ACTIVE".to_string()),
        billing_mode: None,
        read_capacity: None,
        write_capacity: None,
        key_schema: Vec::new(),
        attribute_definitions: Vec::new(),
        global_secondary_indexes: Vec::new(),
        local_secondary_indexes: Vec::new(),
        stream_enabled: false,
        stream_view_type: None,
        tags: Vec::new(),
    }
}

#[test]
fn test_scan_describe_table_error() {
    let scanner = AwsDynamoDBScanner::new_with_client(config(&["dynamodb_tables"], None), Dynamo);
    let names = vec!["ok-table".to_string(), "error-table".to_string()];
    let described = vec![Some((table_info("ok-table"), None)), None];
    let tables = scanner.tables_from(&names, &described);
    assert_eq!(tables.len(), 1);
    assert_eq!(tables[0].get("table_name"), Some(&s("ok-table")));
}

#[test]
fn table_listing_error_is_the_scan_error() {
    let scanner = AwsDynamoDBScanner::new_with_client(config(&["dynamodb_tables"], None), Dynamo);
    assert_eq!(scanner.tables_of_listing(Err("AccessDenied".to_string())).0.err(), Some("AccessDenied".to_string()));
    let tables = scanner.tables_of_listing(Ok(vec!["broken".to_string(), "users".to_string()])).0.unwrap();
    assert_eq!(tables.len(), 1);
    assert_eq!(tables[0].get("table_name"), Some(&s("users")));
}

#[test]
fn tables_from_applies_prefix_and_ttl() {
    let scanner = AwsDynamoDBScanner::new_with_client(config(&["dynamodb_tables"], Some("app-")), Dynamo);
    let names = vec!["app-a".to_string(), "other".to_string(), "app-b".to_string()];
    let ttl = TTLInfo { attribute_name: Some("expires_at".to_string()), enabled: true };
    let described = vec![
        Some((table_info("app-a"), Some(ttl))),
        Some((table_info("other"), None)),
        Some((table_info("app-b"), None)),
    ];
    let tables = scanner.tables_from(&names, &described);
    assert_eq!(tables.len(), 2);
    assert_eq!(tables[0].get("table_name"), Some(&s("app-a")));
    assert_eq!(tables[0].get("ttl_attribute"), Some(&s("expires_at")));
    assert_eq!(tables[1].get("table_name"), Some(&s("app-b")));
    assert_eq!(tables[1].get("ttl_attribute"), None);
}

fn bucket(name: &str) -> S3BucketInfo {
    S3BucketInfo { name: name.to_string(), creation_date: None, region: None }
}

#[test]
fn buckets_from_keeps_failed_details_as_plain_records() {
    let scanner = AwsS3Scanner::new_with_client(config(&["buckets"], Some("app-")), S3);
    let buckets = vec![bucket("app-a"), bucket("zzz"), bucket("app-b")];
    let detail = S3BucketDetail {
        versioning: Some("Enabled".to_string()),
        encryption_algorithm: None,
        kms_key_id: None,
        tags: Vec::new(),
    };
    let details = vec![None, None, Some(detail)];
    let out = scanner.buckets_from(&buckets, &details);
    assert_eq!(out.len(), 2);
    assert_eq!(out[0].get("name"), Some(&s("app-a")));
    assert_eq!(out[0].get("versioning"), None);
    assert_eq!(out[1].get("name"), Some(&s("app-b")));
    assert_eq!(out[1].get("versioning"), Some(&s("Enabled")));
}

#[test]
fn bucket_listing_errors_are_the_scan_errors() {
    let scanner = AwsS3Scanner::new_with_client(config(&["buckets"], None), S3);
    let e = || Err("ListBuckets denied".to_string());
    assert_eq!(scanner.buckets_of_listing(e()).0.err(), Some("ListBuckets denied".to_string()));
    assert_eq!(scanner.bucket_policies_of_listing(e()).0.err(), Some("ListBuckets denied".to_string()));
    assert_eq!(scanner.lifecycle_rules_of_listing(e()).0.err(), Some("ListBuckets denied".to_string()));
    let ok = scanner.buckets_of_listing(Ok(vec![bucket("app-data"), bucket("x")])).0.unwrap();
    assert_eq!(ok.len(), 2);
}

#[test]
fn bucket_policies_and_rules_from_outcomes() {
    let scanner = AwsS3Scanner::new_with_client(config(&["bucket_policies"], None), S3);
    let buckets = vec![bucket("a"), bucket("b")];
    let policies = vec![None, Some(S3BucketPolicyInfo { bucket: "b".to_string(), policy: "{}".to_string() })];
    let out = scanner.bucket_policies_from(&buckets, &policies);
    assert_eq!(out.len(), 1);
    assert_eq!(out[0].get("bucket"), Some(&s("b")));
    let rule = |id: &str| S3LifecycleRuleInfo {
        id: id.to_string(),
        status: "Enabled".to_string(),
        prefix: None,
        expiration_days: None,
        transitions: Vec::new(),
    };
    let rules = vec![vec![rule("r1"), rule("r2")], vec![rule("r3")]];
    let out = scanner.lifecycle_rules_from(&buckets, &rules);
    assert_eq!(out.len(), 3);
    assert_eq!(out[0].get("bucket"), Some(&s("a")));
    assert_eq!(out[1].get("id"), Some(&s("r2")));
    assert_eq!(out[2].get("bucket"), Some(&s("b")));
}

#[test]
fn parameter_groups_from_outcomes() {
    let groups = vec![
        RdsParameterGroupInfo { db_parameter_group_name: "pg1".to_string(), family: None, description: None, tags: Vec::new() },
        RdsParameterGroupInfo { db_parameter_group_name: "pg2".to_string(), family: None, description: None, tags: Vec::new() },
    ];
    let params = vec![
        Vec::new(),
        vec![RdsParameterInfo { name: "max_connections".to_string(), value: "100".to_string(), apply_method: None }],
    ];
    let out = tfkosmos::aws::rds::parameter_groups_from(&groups, &params);
    assert_eq!(out.len(), 2);
    assert_eq!(out[0].get("db_parameter_group_name"), Some(&s("pg1")));
    assert_eq!(out[0].get("parameters"), None);
    assert!(matches!(out[1].get("parameters"), Some(Json::Array(p)) if p.len() == 1));
    assert_eq!(out[1].get("db_parameter_group_name"), Some(&s("pg2")));
    let scanner = AwsRdsScanner::new_with_client(config(&["db_parameter_groups"], None), Rds);
    assert_eq!(scanner.parameter_groups_of_listing(Err("denied".to_string())).0.err(), Some("denied".to_string()));
}

#[test]
fn scan_into_counts_enabled_targets() {
    let vpc = AwsVpcScanner::new_with_client(config(&["vpcs", "subnets", "elastic_ips"], None), Ec2);
    let mut results = Vec::new();
    let mut progress = ScanProgress::new(3);
    vpc.scan_into(&mut results, &mut progress).unwrap();
    assert_eq!(progress.completed, 3);
    let scanner = AwsS3Scanner::new_with_client(config(&["lifecycle_rules"], None), S3);
    let mut progress = ScanProgress::new(1);
    scanner.scan_into(&mut Vec::new(), &mut progress).unwrap();
    assert_eq!(progress.completed, 1);
}

fn vpc_listings(fail_subnets: bool) -> tfkosmos::aws::ec2::VpcListings {
    tfkosmos::aws::ec2::VpcListings {
        vpcs: Ec2.describe_vpcs(),
        subnets: if fail_subnets { Err("subnets denied".to_string()) } else { Ok(Vec::new()) },
        route_tables: Ok(Vec::new()),
        security_groups: Ok(Vec::new()),
        network_acls: Ok(Vec::new()),
        internet_gateways: Ok(Vec::new()),
        nat_gateways: Ok(Vec::new()),
        elastic_ips: Ok(Vec::new()),
    }
}

#[test]
fn vpc_scan_from_listings() {
    let vpc = AwsVpcScanner::new_with_client(config(&["vpcs", "subnets"], None), Ec2);
    let mut results = vec![("provider".to_string(), s("aws"))];
    let mut progress = ScanProgress::new(2);
    vpc.scan_into_from(&mut results, &mut progress, vpc_listings(false)).unwrap();
    assert_eq!(results.len(), 9);
    assert_eq!(list(&results, "vpcs").len(), 1);
    assert_eq!(list(&results, "route_tables").len(), 0);
    assert_eq!(progress.completed, 2);
    assert_eq!(
        progress.events,
        vec![
            (0, "VPCsのスキャン中...".to_string()),
            (50, "VPCsのスキャン完了: 1件".to_string()),
            (50, "Subnetsのスキャン中...".to_string()),
            (100, "Subnetsのスキャン完了: 0件".to_string()),
        ]
    );
}

#[test]
fn vpc_scan_from_stops_at_failed_listing() {
    let vpc = AwsVpcScanner::new_with_client(config(&["vpcs", "subnets", "nat_gateways"], None), Ec2);
    let mut results = Vec::new();
    let mut progress = ScanProgress::new(3);
    let r = vpc.scan_into_from(&mut results, &mut progress, vpc_listings(true));
    assert_eq!(r, Err("subnets denied".to_string()));
    assert_eq!(results.len(), 1);
    assert_eq!(results[0].0, "vpcs");
    assert_eq!(progress.completed, 1);
    assert_eq!(progress.events.last().unwrap(), &(33, "Subnetsのスキャン中...".to_string()));
}

#[test]
fn record_targets_writes_in_order() {
    let mut results = Vec::new();
    let mut progress = ScanProgress::new(2);
    let targets = vec![("a", "A"), ("b", "B"), ("c", "C")];
    let outs = vec![TargetOutcome::Listed(vec![s("x")]), TargetOutcome::Off, TargetOutcome::Failed("boom".to_string())];
    let r = record_targets(&mut results, &mut progress, &targets, outs);
    assert_eq!(r, Err("boom".to_string()));
    assert_eq!(
        results,
        vec![("a".to_string(), Json::Array(vec![s("x")])), ("b".to_string(), Json::Array(Vec::new()))]
    );
    assert_eq!(
        progress.events,
        vec![
            (0, "Aのスキャン中...".to_string()),
            (50, "Aのスキャン完了: 1件".to_string()),
            (50, "Cのスキャン中...".to_string()),
        ]
    );
}
