use tfkosmos::aws::iam::{
    AwsIamScanner, IamClientOps, IamGroupInfo, IamPolicyInfo, IamRoleInfo, IamUserInfo,
    PolicyAttachment, PolicyDocument, AttachmentLookups, attachments_from, IamFound,
};
use tfkosmos::aws::progress::ScanProgress;
use tfkosmos::json::Json;
use tfkosmos::models::request::ScanConfig;

struct Mock {
    users: fn() -> Vec<IamUserInfo>,
    groups: fn() -> Vec<IamGroupInfo>,
    roles: fn() -> Vec<IamRoleInfo>,
    policies: fn() -> Vec<IamPolicyInfo>,
    fail_users: bool,
}

impl Mock {
    fn empty() -> Mock {
        Mock { users: Vec::new, groups: Vec::new, roles: Vec::new, policies: Vec::new, fail_users: false }
    }
}

impl IamClientOps for Mock {
    fn list_users(&self) -> Result<Vec<IamUserInfo>, String> {
        self.list_users_with_options(true)
    }
    fn list_users_with_options(&self, _include_tags: bool) -> Result<Vec<IamUserInfo>, String> {
        if self.fail_users {
            Err("AccessDenied".to_string())
        } else {
            Ok((self.users)())
        }
    }
    fn list_groups(&self) -> Result<Vec<IamGroupInfo>, String> {
        Ok((self.groups)())
    }
    fn list_roles(&self) -> Result<Vec<IamRoleInfo>, String> {
        Ok((self.roles)())
    }
    fn list_roles_with_options(&self, _include_tags: bool) -> Result<Vec<IamRoleInfo>, String> {
        Ok((self.roles)())
    }
    fn list_policies(&self) -> Result<Vec<IamPolicyInfo>, String> {
        Ok((self.policies)())
    }
    fn list_user_policies(&self, _user_name: &str) -> Result<Vec<String>, String> {
        Ok(vec!["inline-a".to_string()])
    }
    fn list_attached_user_policies(&self, _user_name: &str) -> Result<Vec<PolicyAttachment>, String> {
        Ok(vec![PolicyAttachment {
            policy_arn: "arn:aws:iam::aws:policy/ReadOnlyAccess".to_string(),
            policy_name: Some("ReadOnlyAccess".to_string()),
        }])
    }
    fn list_group_policies(&self, _group_name: &str) -> Result<Vec<String>, String> {
        Ok(Vec::new())
    }
    fn list_attached_group_policies(&self, _group_name: &str) -> Result<Vec<PolicyAttachment>, String> {
        Ok(Vec::new())
    }
    fn list_role_policies(&self, _role_name: &str) -> Result<Vec<String>, String> {
        Err("throttled".to_string())
    }
    fn list_attached_role_policies(&self, _role_name: &str) -> Result<Vec<PolicyAttachment>, String> {
        Ok(Vec::new())
    }
    fn list_groups_for_user(&self, _user_name: &str) -> Result<Vec<String>, String> {
        Ok(vec!["developers".to_string()])
    }
    fn get_policy_version(&self, _arn: &str, _version: &str) -> Result<Option<PolicyDocument>, String> {
        Ok(None)
    }
}

fn create_test_config(filters: Vec<(String, String)>, targets: Vec<(String, bool)>) -> ScanConfig {
    ScanConfig {
        provider: "aws".to_string(),
        account_id: None,
        profile: None,
        assume_role_arn: None,
        assume_role_session_name: None,
        subscription_id: None,
        tenant_id: None,
        auth_method: None,
        service_principal_config: None,
        scope_type: None,
        scope_value: None,
        scan_targets: targets,
        filters,
        include_tags: true,
    }
}

fn prefix(p: &str) -> Vec<(String, String)> {
    vec![("name_prefix".to_string(), p.to_string())]
}

fn s(v: &str) -> Json {
    Json::Str(v.to_string())
}

fn strs(v: &[&str]) -> Json {
    Json::Array(v.iter().map(|x| s(x)).collect())
}

fn field<'a>(j: &'a Json, k: &str) -> &'a Json {
    j.get(k).unwrap_or_else(|| panic!("no field {}", k))
}

fn parse(doc: &str) -> Vec<Json> {
    AwsIamScanner::<Mock>::parse_assume_role_policy(doc)
}

fn user(name: &str, path: &str, tags: Vec<(String, String)>) -> IamUserInfo {
    IamUserInfo {
        user_name: name.to_string(),
        user_id: format!("AIDA-{}", name),
        arn: format!("arn:aws:iam::123456789012:user/{}", name),
        create_date: 1609459200,
        path: path.to_string(),
        tags,
    }
}

#[test]
fn test_parse_assume_role_policy_empty() {
    assert_eq!(parse("").len(), 0);
}

#[test]
fn test_parse_assume_role_policy_service_principal() {
    let result = parse(
        r#"{"Version": "2012-10-17", "Statement": [{"Effect": "Allow",
            "Principal": {"Service": "lambda.amazonaws.com"}, "Action": "sts:AssumeRole"}]}"#,
    );
    assert_eq!(result.len(), 1);
    let stmt = &result[0];
    assert_eq!(field(stmt, "effect"), &s("Allow"));
    assert_eq!(field(stmt, "principal_type"), &s("Service"));
    assert_eq!(field(stmt, "principal_identifiers"), &strs(&["lambda.amazonaws.com"]));
    assert_eq!(field(stmt, "actions"), &strs(&["sts:AssumeRole"]));
}

#[test]
fn test_parse_assume_role_policy_aws_principal() {
    let result = parse(
        r#"{"Version": "2012-10-17", "Statement": [{"Effect": "Allow",
            "Principal": {"AWS": "arn:aws:iam::123456789012:root"}, "Action": "sts:AssumeRole"}]}"#,
    );
    assert_eq!(result.len(), 1);
    let stmt = &result[0];
    assert_eq!(field(stmt, "effect"), &s("Allow"));
    assert_eq!(field(stmt, "principal_type"), &s("AWS"));
    assert_eq!(field(stmt, "principal_identifiers"), &strs(&["arn:aws:iam::123456789012:root"]));
}

#[test]
fn test_parse_assume_role_policy_with_condition() {
    let result = parse(
        r#"{"Version": "2012-10-17", "Statement": [{"Effect": "Allow",
            "Principal": {"Service": "ec2.amazonaws.com"}, "Action": "sts:AssumeRole",
            "Condition": {"StringEquals": {"sts:ExternalId": "unique-external-id"}}}]}"#,
    );
    assert_eq!(result.len(), 1);
    let stmt = &result[0];
    assert_eq!(field(stmt, "effect"), &s("Allow"));
    match field(stmt, "conditions") {
        Json::Array(conds) => {
            assert_eq!(conds.len(), 1);
            assert_eq!(field(&conds[0], "operator"), &s("StringEquals"));
            assert_eq!(field(&conds[0], "key"), &s("sts:ExternalId"));
            assert_eq!(field(&conds[0], "value"), &s("unique-external-id"));
        }
        other => panic!("conditions is not an array: {:?}", other),
    }
}

const ENCODED: &str = "%7B%22Version%22%3A%222012-10-17%22%2C%22Statement%22%3A%5B%7B%22Effect%22%3A%22Allow%22%2C%22Principal%22%3A%7B%22Service%22%3A%22lambda.amazonaws.com%22%7D%2C%22Action%22%3A%22sts%3AAssumeRole%22%7D%5D%7D";
const DECODED: &str = r#"{"Version":"2012-10-17","Statement":[{"Effect":"Allow","Principal":{"Service":"lambda.amazonaws.com"},"Action":"sts:AssumeRole"}]}"#;

#[test]
fn test_parse_assume_role_policy_url_encoded() {
    let result = parse(ENCODED);
    assert_eq!(result.len(), 1);
    let stmt = &result[0];
    assert_eq!(field(stmt, "effect"), &s("Allow"));
    assert_eq!(field(stmt, "principal_type"), &s("Service"));
    assert_eq!(field(stmt, "principal_identifiers"), &strs(&["lambda.amazonaws.com"]));
}

#[test]
fn test_parse_assume_role_policy_multiple_principals() {
    let result = parse(
        r#"{"Version": "2012-10-17", "Statement": [{"Effect": "Allow",
            "Principal": {"Service": ["ec2.amazonaws.com", "lambda.amazonaws.com"]},
            "Action": "sts:AssumeRole"}]}"#,
    );
    assert_eq!(result.len(), 1);
    assert_eq!(
        field(&result[0], "principal_identifiers"),
        &strs(&["ec2.amazonaws.com", "lambda.amazonaws.com"])
    );
}

#[test]
fn test_parse_assume_role_policy_invalid_json() {
    assert_eq!(parse("not a valid json").len(), 0);
}

#[test]
fn test_parse_assume_role_policy_asterisk_principal() {
    let result = parse(
        r#"{"Version": "2012-10-17", "Statement": [{"Effect": "Allow", "Principal": "*",
            "Action": "sts:AssumeRole",
            "Condition": {"StringEquals": {"sts:ExternalId": "unique-external-id"}}}]}"#,
    );
    assert_eq!(result.len(), 1);
    let stmt = &result[0];
    assert_eq!(field(stmt, "effect"), &s("Allow"));
    assert_eq!(field(stmt, "principal_type"), &s("AWS"));
    assert_eq!(field(stmt, "principal_identifiers"), &strs(&["*"]));
    assert_eq!(field(stmt, "actions"), &strs(&["sts:AssumeRole"]));
    match field(stmt, "conditions") {
        Json::Array(c) => assert_eq!(c.len(), 1),
        _ => panic!("conditions is not an array"),
    }
}

#[test]
fn test_parse_assume_role_policy_federated_principal() {
    let result = parse(
        r#"{"Version": "2012-10-17", "Statement": [{"Effect": "Allow",
            "Principal": {"Federated": "arn:aws:iam::123456789012:oidc-provider/token.actions.githubusercontent.com"},
            "Action": "sts:AssumeRoleWithWebIdentity"}]}"#,
    );
    assert_eq!(result.len(), 1);
    let stmt = &result[0];
    assert_eq!(field(stmt, "principal_type"), &s("Federated"));
    assert_eq!(
        field(stmt, "principal_identifiers"),
        &strs(&["arn:aws:iam::123456789012:oidc-provider/token.actions.githubusercontent.com"])
    );
    assert_eq!(field(stmt, "actions"), &strs(&["sts:AssumeRoleWithWebIdentity"]));
}

#[test]
fn test_parse_assume_role_policy_no_statement() {
    assert_eq!(parse(r#"{"Version": "2012-10-17"}"#).len(), 0);
}

#[test]
fn parse_assume_role_policy_skips_statements_without_effect() {
    let result = parse(r#"{"Statement": [{"Principal": "*"}, {"Effect": "Deny"}]}"#);
    assert_eq!(result.len(), 1);
    assert_eq!(field(&result[0], "effect"), &s("Deny"));
    assert_eq!(field(&result[0], "principal_type"), &s("Unknown"));
    assert_eq!(field(&result[0], "principal_identifiers"), &strs(&[]));
}

#[test]
fn test_apply_name_prefix_filter_with_prefix() {
    let scanner = AwsIamScanner::new_with_client(create_test_config(prefix("test-"), Vec::new()), Mock::empty());
    assert!(scanner.apply_name_prefix_filter("test-user"));
    assert!(scanner.apply_name_prefix_filter("test-role-123"));
    assert!(!scanner.apply_name_prefix_filter("prod-user"));
    assert!(!scanner.apply_name_prefix_filter("user"));
}

#[test]
fn test_apply_name_prefix_filter_without_prefix() {
    let scanner = AwsIamScanner::new_with_client(create_test_config(Vec::new(), Vec::new()), Mock::empty());
    assert!(scanner.apply_name_prefix_filter("any-name"));
    assert!(scanner.apply_name_prefix_filter("test-user"));
    assert!(scanner.apply_name_prefix_filter("prod-role"));
}

#[test]
fn test_scan_users_returns_filtered_users() {
    let mock = Mock {
        users: || vec![
            user("test-user-1", "/", Vec::new()),
            user("prod-user", "/", Vec::new()),
            user("test-user-2", "/developers/", vec![("Environment".to_string(), "test".to_string())]),
        ],
        ..Mock::empty()
    };
    let scanner = AwsIamScanner::new_with_client(create_test_config(prefix("test-"), Vec::new()), mock);
    let users = scanner.scan_users().unwrap();
    assert_eq!(users.len(), 2);
    assert_eq!(field(&users[0], "user_name"), &s("test-user-1"));
    assert_eq!(field(&users[1], "user_name"), &s("test-user-2"));
    assert_eq!(field(&users[1], "path"), &s("/developers/"));
    assert!(matches!(field(&users[1], "tags"), Json::Object(_)));
}

#[test]
fn test_scan_groups_returns_all_groups() {
    let mock = Mock {
        groups: || {
            let g = |n: &str, p: &str| IamGroupInfo {
                group_name: n.to_string(),
                group_id: "AGPA".to_string(),
                arn: format!("arn:aws:iam::123456789012:group/{}", n),
                create_date: 1609459200,
                path: p.to_string(),
            };
            vec![g("developers", "/"), g("admins", "/admin/")]
        },
        ..Mock::empty()
    };
    let scanner = AwsIamScanner::new_with_client(create_test_config(Vec::new(), Vec::new()), mock);
    let groups = scanner.scan_groups().unwrap();
    assert_eq!(groups.len(), 2);
    assert_eq!(field(&groups[0], "group_name"), &s("developers"));
    assert_eq!(field(&groups[1], "group_name"), &s("admins"));
}

fn role(doc: Option<&str>) -> IamRoleInfo {
    IamRoleInfo {
        role_name: "lambda-execution-role".to_string(),
        role_id: "AROA1234567890".to_string(),
        arn: "arn:aws:iam::123456789012:role/lambda-execution-role".to_string(),
        create_date: 1609459200,
        path: "/service-role/".to_string(),
        assume_role_policy_document: doc.map(|d| d.to_string()),
        tags: Vec::new(),
    }
}

#[test]
fn test_scan_roles_with_assume_role_policy() {
    let mock = Mock { roles: || vec![role(Some(DECODED))], ..Mock::empty() };
    let scanner = AwsIamScanner::new_with_client(create_test_config(Vec::new(), Vec::new()), mock);
    let roles = scanner.scan_roles().unwrap();
    assert_eq!(roles.len(), 1);
    assert_eq!(field(&roles[0], "role_name"), &s("lambda-execution-role"));
    match field(&roles[0], "assume_role_policy_document") {
        Json::Str(d) => assert!(d.contains("lambda.amazonaws.com")),
        _ => panic!("document is not a string"),
    }
    match field(&roles[0], "assume_role_statements") {
        Json::Array(st) => {
            assert_eq!(st.len(), 1);
            assert_eq!(field(&st[0], "principal_type"), &s("Service"));
        }
        _ => panic!("statements are not an array"),
    }
}

#[test]
fn test_scan_roles_with_url_encoded_policy_document() {
    let mock = Mock { roles: || vec![role(Some(ENCODED))], ..Mock::empty() };
    let scanner = AwsIamScanner::new_with_client(create_test_config(Vec::new(), Vec::new()), mock);
    let roles = scanner.scan_roles().unwrap();
    assert_eq!(roles.len(), 1);
    assert_eq!(field(&roles[0], "assume_role_policy_document"), &s(DECODED));
}

#[test]
fn test_scan_role_without_assume_role_policy() {
    let mock = Mock { roles: || vec![role(None)], ..Mock::empty() };
    let scanner = AwsIamScanner::new_with_client(create_test_config(Vec::new(), Vec::new()), mock);
    let roles = scanner.scan_roles().unwrap();
    assert_eq!(roles.len(), 1);
    assert_eq!(field(&roles[0], "assume_role_statements"), &Json::Array(Vec::new()));
}

#[test]
fn test_scan_policies_returns_local_policies() {
    let mock = Mock {
        policies: || vec![IamPolicyInfo {
            policy_name: "CustomS3Policy".to_string(),
            policy_id: "ANPA1234567890".to_string(),
            arn: "arn:aws:iam::123456789012:policy/CustomS3Policy".to_string(),
            path: "/".to_string(),
            default_version_id: "v1".to_string(),
            attachment_count: 2,
            create_date: 1609459200,
            update_date: 1609459200,
            description: "Custom S3 access policy".to_string(),
        }],
        ..Mock::empty()
    };
    let scanner = AwsIamScanner::new_with_client(create_test_config(Vec::new(), Vec::new()), mock);
    let policies = scanner.scan_policies().unwrap();
    assert_eq!(policies.len(), 1);
    assert_eq!(field(&policies[0], "policy_name"), &s("CustomS3Policy"));
    assert_eq!(field(&policies[0], "attachment_count"), &Json::Number("2".to_string()));
}

#[test]
fn test_scan_users_error_handling() {
    let mock = Mock { fail_users: true, ..Mock::empty() };
    let scanner = AwsIamScanner::new_with_client(create_test_config(Vec::new(), Vec::new()), mock);
    assert_eq!(scanner.scan_users().err(), Some("AccessDenied".to_string()));
    let targets = vec![("users".to_string(), true)];
    let mock = Mock { fail_users: true, ..Mock::empty() };
    let scanner = AwsIamScanner::new_with_client(create_test_config(Vec::new(), targets), mock);
    assert!(scanner.scan(&mut ScanProgress::new(0)).is_err());
}

#[test]
fn test_scan_with_no_targets() {
    let scanner = AwsIamScanner::new_with_client(create_test_config(Vec::new(), Vec::new()), Mock::empty());
    let result = scanner.scan(&mut ScanProgress::new(0)).unwrap();
    assert_eq!(result, Json::Object(vec![("provider".to_string(), s("aws"))]));
}

#[test]
fn scan_multiple_targets_with_attachments() {
    let targets = vec![("users".to_string(), true), ("groups".to_string(), true), ("roles".to_string(), true)];
    let mock = Mock { users: || vec![user("alice", "/", Vec::new())], roles: || vec![role(None)], ..Mock::empty() };
    let scanner = AwsIamScanner::new_with_client(create_test_config(Vec::new(), targets), mock);
    let result = scanner.scan(&mut ScanProgress::new(0)).unwrap();
    assert_eq!(field(&result, "provider"), &s("aws"));
    match field(&result, "users") {
        Json::Array(u) => assert_eq!(u.len(), 1),
        _ => panic!(),
    }
    assert_eq!(field(&result, "policies"), &Json::Array(Vec::new()));
    let att = field(&result, "attachments");
    match field(att, "user_policies") {
        Json::Array(p) => {
            assert_eq!(p.len(), 2);
            assert_eq!(field(&p[0], "policy_type"), &s("inline"));
            assert_eq!(field(&p[1], "policy_arn"), &s("arn:aws:iam::aws:policy/ReadOnlyAccess"));
        }
        _ => panic!(),
    }
    match field(att, "role_policies") {
        Json::Array(p) => assert_eq!(p.len(), 0),
        _ => panic!(),
    }
    match field(att, "user_groups") {
        Json::Array(m) => {
            assert_eq!(m.len(), 1);
            assert_eq!(field(&m[0], "group_name"), &s("developers"));
        }
        _ => panic!(),
    }
}

#[test]
fn scanner_test_scan_progress_callback() {
    let mock = Mock { users: || vec![user("user1", "/", Vec::new())], ..Mock::empty() };
    let scanner = AwsIamScanner::new_with_client(
        create_test_config(Vec::new(), vec![("users".to_string(), true)]),
        mock,
    );
    let mut progress = ScanProgress::new(0);
    let result = scanner.scan(&mut progress).unwrap();
    assert_eq!(field(&result, "provider"), &s("aws"));
    match field(&result, "users") {
        Json::Array(u) => assert_eq!(u.len(), 1),
        _ => panic!(),
    }
    let values = &progress.events;
    assert!(values.len() >= 2);
    assert_eq!(values.last().unwrap().0, 100);
    assert_eq!(
        values.clone(),
        vec![
            (0, "AWS IAMスキャンを開始しています...".to_string()),
            (0, "IAM Usersのスキャン中...".to_string()),
            (100, "IAM Usersのスキャン完了: 1件".to_string()),
            (100, "AWS IAMスキャンが完了しました".to_string()),
        ]
    );
}

#[test]
fn progress_without_targets() {
    let scanner = AwsIamScanner::new_with_client(create_test_config(Vec::new(), Vec::new()), Mock::empty());
    let mut progress = ScanProgress::new(0);
    scanner.scan(&mut progress).unwrap();
    assert_eq!(progress.events.last().unwrap(), &(100, "スキャン対象が選択されていません".to_string()));
}

#[test]
fn progress_without_targets_reports_start_and_end_only() {
    let scanner = AwsIamScanner::new_with_client(create_test_config(Vec::new(), Vec::new()), Mock::empty());
    let mut progress = ScanProgress::new(0);
    scanner.scan(&mut progress).unwrap();
    assert_eq!(
        progress.events,
        vec![
            (0, "AWS IAMスキャンを開始しています...".to_string()),
            (100, "スキャン対象が選択されていません".to_string()),
        ]
    );
    assert_eq!(progress.completed, 0);
}

#[test]
fn scan_counts_finished_targets() {
    let targets = vec![("users".to_string(), true), ("roles".to_string(), true), ("extra".to_string(), true)];
    let scanner = AwsIamScanner::new_with_client(create_test_config(Vec::new(), targets), Mock::empty());
    let mut progress = ScanProgress::new(0);
    scanner.scan(&mut progress).unwrap();
    assert_eq!(progress.total, 3);
    assert_eq!(progress.completed, 2);
    assert_eq!(progress.events.last().unwrap(), &(100, "AWS IAMスキャンが完了しました".to_string()));
}

fn named(key: &str, name: &str) -> Json {
    Json::Object(vec![(key.to_string(), s(name))])
}

#[test]
fn attachments_from_lookups_in_order() {
    let users = vec![named("user_name", "alice"), named("user_name", "bob")];
    let groups = vec![named("group_name", "devs")];
    let roles = vec![named("role_name", "app")];
    let attach = |arn: &str| PolicyAttachment { policy_arn: arn.to_string(), policy_name: None };
    let lookups = AttachmentLookups {
        user_inline: vec![Some(vec!["InlinePolicy1".to_string()]), None],
        user_managed: vec![
            Some(vec![attach("arn:aws:iam::aws:policy/ReadOnlyAccess")]),
            Some(vec![attach("arn:aws:iam::aws:policy/Admin")]),
        ],
        group_inline: vec![None],
        group_managed: vec![Some(vec![attach("arn:g")])],
        role_inline: vec![Some(vec!["r1".to_string(), "r2".to_string()])],
        role_managed: vec![None],
        user_groups: vec![Some(vec!["developers".to_string()]), None],
    };
    let att = attachments_from(&users, &groups, &roles, &lookups);
    let up = match field(&att, "user_policies") {
        Json::Array(p) => p.clone(),
        _ => panic!(),
    };
    assert_eq!(up.len(), 3);
    assert_eq!(
        up[0],
        Json::Object(vec![
            ("user_name".to_string(), s("alice")),
            ("policy_name".to_string(), s("InlinePolicy1")),
            ("policy_type".to_string(), s("inline")),
        ])
    );
    assert_eq!(
        up[1],
        Json::Object(vec![
            ("user_name".to_string(), s("alice")),
            ("policy_arn".to_string(), s("arn:aws:iam::aws:policy/ReadOnlyAccess")),
            ("policy_type".to_string(), s("managed")),
        ])
    );
    assert_eq!(field(&up[2], "user_name"), &s("bob"));
    match field(&att, "group_policies") {
        Json::Array(p) => {
            assert_eq!(p.len(), 1);
            assert_eq!(field(&p[0], "policy_arn"), &s("arn:g"));
        }
        _ => panic!(),
    }
    match field(&att, "role_policies") {
        Json::Array(p) => {
            assert_eq!(p.len(), 2);
            assert_eq!(field(&p[1], "policy_name"), &s("r2"));
        }
        _ => panic!(),
    }
    assert_eq!(
        field(&att, "user_groups"),
        &Json::Array(vec![Json::Object(vec![
            ("user_name".to_string(), s("alice")),
            ("group_name".to_string(), s("developers")),
        ])])
    );
}

fn no_lookups() -> AttachmentLookups {
    AttachmentLookups {
        user_inline: Vec::new(),
        user_managed: Vec::new(),
        group_inline: Vec::new(),
        group_managed: Vec::new(),
        role_inline: Vec::new(),
        role_managed: Vec::new(),
        user_groups: Vec::new(),
    }
}

#[test]
fn scan_from_passes_on_the_listing_error() {
    let targets = vec![("users".to_string(), true), ("groups".to_string(), true)];
    let scanner = AwsIamScanner::new_with_client(create_test_config(Vec::new(), targets), Mock::empty());
    let mut progress = ScanProgress::new(0);
    let found = IamFound {
        users: Err("Access Denied: iam:ListUsers permission required".to_string()),
        groups: Ok(Vec::new()),
        roles: Ok(Vec::new()),
        policies: Ok(Vec::new()),
        lookups: no_lookups(),
    };
    let r = scanner.scan_from(&mut progress, found);
    assert!(r.unwrap_err().contains("Access Denied"));
    assert_eq!(progress.events.last().unwrap(), &(0, "IAM Usersのスキャン中...".to_string()));
}

#[test]
fn scan_from_writes_lists_and_attachments() {
    let targets = vec![("users".to_string(), true)];
    let scanner = AwsIamScanner::new_with_client(create_test_config(Vec::new(), targets), Mock::empty());
    let mut progress = ScanProgress::new(0);
    let mut lookups = no_lookups();
    lookups.user_inline = vec![Some(vec!["p".to_string()])];
    let found = IamFound {
        users: Ok(vec![Json::Object(vec![("user_name".to_string(), s("alice"))])]),
        groups: Ok(vec![s("ignored")]),
        roles: Ok(Vec::new()),
        policies: Ok(Vec::new()),
        lookups,
    };
    let r = scanner.scan_from(&mut progress, found).unwrap();
    assert_eq!(field(&r, "groups"), &Json::Array(Vec::new()));
    match field(field(&r, "attachments"), "user_policies") {
        Json::Array(p) => assert_eq!(p.len(), 1),
        _ => panic!(),
    }
    assert_eq!(progress.completed, 1);
}
