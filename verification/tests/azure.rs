use tfkosmos::azure::factory::AzureClientFactory;
use tfkosmos::azure::{
    app_services_from, function_apps_from, principal_key_of, unique_principal_ids, unique_strings,
    AzureIamScanner,
};
use tfkosmos::json::Json;
use tfkosmos::models::request::ScanConfig;

fn conv(v: &serde_json::Value) -> Json {
    match v {
        serde_json::Value::Null => Json::Null,
        serde_json::Value::Bool(b) => Json::Bool(*b),
        serde_json::Value::Number(n) => Json::Number(n.to_string()),
        serde_json::Value::String(s) => Json::Str(s.clone()),
        serde_json::Value::Array(a) => Json::Array(a.iter().map(conv).collect()),
        serde_json::Value::Object(o) => {
            Json::Object(o.iter().map(|(k, v)| (k.clone(), conv(v))).collect())
        }
    }
}

fn js(text: &str) -> Json {
    conv(&serde_json::from_str::<serde_json::Value>(text).unwrap())
}

fn s(v: &str) -> Json {
    Json::Str(v.to_string())
}

fn field<'a>(j: &'a Json, k: &str) -> &'a Json {
    j.get(k).unwrap_or_else(|| panic!("no field {}", k))
}

fn create_test_config() -> ScanConfig {
    ScanConfig {
        provider: "azure".to_string(),
        account_id: None,
        profile: None,
        assume_role_arn: None,
        assume_role_session_name: None,
        tenant_id: Some("test-tenant-id".to_string()),
        subscription_id: Some("test-subscription-id".to_string()),
        auth_method: Some("az_login".to_string()),
        service_principal_config: None,
        scope_type: Some("subscription".to_string()),
        scope_value: None,
        scan_targets: vec![
            ("role_definitions".to_string(), true),
            ("role_assignments".to_string(), true),
        ],
        filters: Vec::new(),
        include_tags: true,
    }
}

fn transform(text: &str) -> Json {
    AzureIamScanner::transform_role_definition_basic(&js(text))
}

#[test]
fn test_transform_role_definition_basic_full() {
    let r = transform(
        r#"{"id": "/subscriptions/12345/providers/Microsoft.Authorization/roleDefinitions/abcdef",
            "name": "CustomRole", "description": "A custom role for testing", "type": "CustomRole"}"#,
    );
    assert_eq!(
        field(&r, "role_definition_id"),
        &s("/subscriptions/12345/providers/Microsoft.Authorization/roleDefinitions/abcdef")
    );
    assert_eq!(field(&r, "role_name"), &s("CustomRole"));
    assert_eq!(field(&r, "description"), &s("A custom role for testing"));
    assert_eq!(field(&r, "role_type"), &s("CustomRole"));
    assert_eq!(field(&r, "scope"), &s("/subscriptions/12345"));
}

#[test]
fn test_transform_role_definition_basic_minimal() {
    let r = transform(r#"{"id": "/providers/Microsoft.Authorization/roleDefinitions/xyz", "name": "MinimalRole"}"#);
    assert_eq!(field(&r, "role_definition_id"), &s("/providers/Microsoft.Authorization/roleDefinitions/xyz"));
    assert_eq!(field(&r, "role_name"), &s("MinimalRole"));
    assert_eq!(field(&r, "scope"), &s(""));
}

#[test]
fn test_transform_role_definition_basic_with_role_name_fallback() {
    let r = transform(
        r#"{"id": "/subscriptions/12345/providers/Microsoft.Authorization/roleDefinitions/test",
            "roleName": "Role Name from roleName field"}"#,
    );
    assert_eq!(field(&r, "role_name"), &s("Role Name from roleName field"));
}

#[test]
fn test_transform_role_definition_basic_scope_extraction() {
    let cases = [
        (
            "/subscriptions/sub-123/providers/Microsoft.Authorization/roleDefinitions/role-456",
            "/subscriptions/sub-123",
        ),
        (
            "/subscriptions/sub-123/resourceGroups/rg-test/providers/Microsoft.Authorization/roleDefinitions/role-456",
            "/subscriptions/sub-123/resourceGroups/rg-test",
        ),
        (
            "/providers/Microsoft.Management/managementGroups/mg-test/providers/Microsoft.Authorization/roleDefinitions/role-456",
            "/providers/Microsoft.Management/managementGroups/mg-test",
        ),
    ];
    for (id, expected) in cases {
        let r = AzureIamScanner::transform_role_definition_basic(&Json::Object(vec![
            ("id".to_string(), s(id)),
            ("name".to_string(), s("Test")),
        ]));
        assert_eq!(field(&r, "scope"), &s(expected), "Failed for id: {}", id);
    }
}

#[test]
fn test_transform_role_definition_basic_preserves_original_fields() {
    let r = transform(
        r#"{"id": "/subscriptions/12345/providers/Microsoft.Authorization/roleDefinitions/abcdef",
            "name": "CustomRole", "custom_field_1": "value1", "custom_field_2": 12345,
            "nested_object": {"key": "value"}}"#,
    );
    assert_eq!(field(&r, "custom_field_1"), &s("value1"));
    assert_eq!(field(&r, "custom_field_2"), &Json::Number("12345".to_string()));
    assert_eq!(field(field(&r, "nested_object"), "key"), &s("value"));
}

fn args(c: ScanConfig) -> Vec<String> {
    AzureIamScanner::new(c).get_scope_args()
}

#[test]
fn test_get_scope_args_subscription() {
    let mut c = create_test_config();
    c.scope_type = Some("subscription".to_string());
    c.subscription_id = Some("my-sub-123".to_string());
    assert_eq!(args(c), vec!["--subscription", "my-sub-123"]);
}

#[test]
fn test_get_scope_args_resource_group() {
    let mut c = create_test_config();
    c.scope_type = Some("resource_group".to_string());
    c.subscription_id = Some("my-sub-123".to_string());
    c.scope_value = Some("my-rg".to_string());
    assert_eq!(args(c), vec!["--scope", "/subscriptions/my-sub-123/resourceGroups/my-rg"]);
}

#[test]
fn test_get_scope_args_management_group() {
    let mut c = create_test_config();
    c.scope_type = Some("management_group".to_string());
    c.scope_value = Some("my-mg".to_string());
    assert_eq!(args(c), vec!["--scope", "/providers/Microsoft.Management/managementGroups/my-mg"]);
}

#[test]
fn test_get_scope_args_no_scope_type() {
    let mut c = create_test_config();
    c.scope_type = None;
    c.subscription_id = Some("sub-no-type".to_string());
    assert_eq!(args(c), vec!["--subscription", "sub-no-type"]);
}

#[test]
fn test_get_scope_args_unknown_scope_type_falls_back_to_subscription() {
    let mut c = create_test_config();
    c.scope_type = Some("unknown_type".to_string());
    c.subscription_id = Some("sub-fallback".to_string());
    assert_eq!(args(c), vec!["--subscription", "sub-fallback"]);
}

#[test]
fn listing_commands_follow_targets() {
    let scanner = AzureIamScanner::new(create_test_config());
    assert_eq!(
        scanner.role_definition_command().unwrap(),
        vec!["role", "definition", "list", "--output", "json", "--subscription", "test-subscription-id"]
    );
    let mut c = create_test_config();
    c.scan_targets = vec![("role_definitions".to_string(), false)];
    let scanner = AzureIamScanner::new(c);
    assert!(scanner.role_definition_command().is_none());
    assert!(scanner.role_assignment_command().is_none());
    assert!(!scanner.wants_app_services());
    assert_eq!(
        scanner.web_listing_command("webapp"),
        vec!["webapp", "list", "--subscription", "test-subscription-id", "--output", "json"]
    );
}

const DEFINITIONS: &str = r#"[
    {"id": "/subscriptions/sub-123/providers/Microsoft.Authorization/roleDefinitions/role-1", "name": "Custom-Reader", "type": "CustomRole"},
    {"id": "/subscriptions/sub-123/providers/Microsoft.Authorization/roleDefinitions/role-2", "name": "Contributor", "type": "BuiltInRole"},
    {"id": "/subscriptions/sub-123/providers/Microsoft.Authorization/roleDefinitions/role-3", "name": "Custom-Admin", "type": "CustomRole"}]"#;

#[test]
fn test_scan_role_definitions_returns_all_definitions() {
    let scanner = AzureIamScanner::new(create_test_config());
    let result = scanner.scan_role_definitions(&js(DEFINITIONS), None).unwrap();
    assert_eq!(result.len(), 3);
    assert_eq!(field(&result[0], "role_name"), &s("Custom-Reader"));
    assert_eq!(field(&result[1], "role_name"), &s("Contributor"));
}

#[test]
fn test_scan_role_definitions_with_name_filter() {
    let mut c = create_test_config();
    c.filters = vec![("name_prefix".to_string(), "Custom-".to_string())];
    let scanner = AzureIamScanner::new(c);
    let result = scanner.scan_role_definitions(&js(DEFINITIONS), None).unwrap();
    assert_eq!(result.len(), 2);
    assert_eq!(field(&result[0], "role_name"), &s("Custom-Reader"));
    assert_eq!(field(&result[1], "role_name"), &s("Custom-Admin"));
}

#[test]
fn role_definitions_use_display_names() {
    let scanner = AzureIamScanner::new(create_test_config());
    let names = vec![(
        "/subscriptions/sub-123/providers/Microsoft.Authorization/roleDefinitions/role-2".to_string(),
        Some("Contributor (display)".to_string()),
    )];
    let result = scanner.scan_role_definitions(&js(DEFINITIONS), Some(&names)).unwrap();
    assert_eq!(result.len(), 3);
    assert_eq!(field(&result[0], "role_name"), &s("Custom-Reader"));
    assert_eq!(field(&result[1], "role_name"), &s("Contributor (display)"));
    assert_eq!(field(&result[1], "scope"), &s("/subscriptions/sub-123"));
}

#[test]
fn role_definitions_not_an_array() {
    let scanner = AzureIamScanner::new(create_test_config());
    assert_eq!(
        scanner.scan_role_definitions(&js("{}"), None),
        Err("Role Definitions一覧が配列形式ではありません".to_string())
    );
}

const ASSIGNMENTS: &str = r#"[
    {"name": "assignment-1", "roleDefinitionId": "/subscriptions/sub-123/providers/Microsoft.Authorization/roleDefinitions/role-1",
     "principalId": "principal-1", "principalType": "User", "scope": "/subscriptions/sub-123"},
    {"name": "assignment-2", "roleDefinitionId": "/subscriptions/sub-123/providers/Microsoft.Authorization/roleDefinitions/role-2",
     "principalId": "principal-2", "principalType": "ServicePrincipal", "scope": "/subscriptions/sub-123/resourceGroups/rg-1"}]"#;

#[test]
fn test_scan_role_assignments_returns_all_assignments() {
    let scanner = AzureIamScanner::new(create_test_config());
    let result = scanner.scan_role_assignments(&js(ASSIGNMENTS), &Vec::new(), &Vec::new(), false).unwrap();
    assert!(result.is_empty());
}

#[test]
fn role_assignments_with_display_names() {
    let scanner = AzureIamScanner::new(create_test_config());
    let roles = vec![(
        "/subscriptions/sub-123/providers/Microsoft.Authorization/roleDefinitions/role-1".to_string(),
        Some("Reader".to_string()),
    )];
    let principals = vec![(principal_key_of("principal-1", "User"), Some("Alice".to_string()))];
    let result = scanner.scan_role_assignments(&js(ASSIGNMENTS), &roles, &principals, true).unwrap();
    assert_eq!(result.len(), 2);
    assert_eq!(field(&result[0], "assignment_id"), &s("assignment-1"));
    assert_eq!(field(&result[0], "role_definition_name"), &s("Reader"));
    assert_eq!(field(&result[0], "principal_name"), &s("Alice"));
    assert_eq!(field(&result[1], "role_definition_name"), &s("role-2"));
    assert_eq!(field(&result[1], "principal_name"), &s("principal-2"));
    assert_eq!(field(&result[1], "principal_type"), &s("ServicePrincipal"));
}

#[test]
fn lookups_are_distinct() {
    let items = match js(ASSIGNMENTS) {
        Json::Array(a) => a,
        _ => panic!(),
    };
    let mut doubled = items.clone();
    doubled.extend(items.iter().cloned());
    assert_eq!(unique_strings(&doubled, "roleDefinitionId").len(), 2);
    let ids = unique_principal_ids(&doubled);
    assert_eq!(ids.len(), 2);
    assert_eq!(ids[0], ("principal-1".to_string(), "User".to_string()));
}

#[test]
fn test_scan_app_services() {
    let listed = js(r#"[
        {"name": "my-webapp", "id": "/subscriptions/sub-123/resourceGroups/rg-1/providers/Microsoft.Web/sites/my-webapp",
         "resourceGroup": "rg-1", "location": "eastus", "kind": "app", "state": "Running",
         "defaultHostName": "my-webapp.azurewebsites.net",
         "appServicePlanId": "/subscriptions/sub-123/resourceGroups/rg-1/providers/Microsoft.Web/serverfarms/my-plan",
         "httpsOnly": true},
        {"name": "my-functionapp", "id": "/x", "resourceGroup": "rg-1", "location": "eastus",
         "kind": "functionapp", "state": "Running"}]"#);
    let result = app_services_from(&listed);
    assert_eq!(result.len(), 1);
    assert_eq!(field(&result[0], "name"), &s("my-webapp"));
    assert_eq!(field(&result[0], "kind"), &s("app"));
    assert_eq!(field(&result[0], "state"), &s("Running"));
    assert_eq!(field(&result[0], "default_host_name"), &s("my-webapp.azurewebsites.net"));
    assert_eq!(field(&result[0], "https_only"), &Json::Bool(true));
}

#[test]
fn test_scan_app_services_empty() {
    assert!(app_services_from(&js("[]")).is_empty());
}

#[test]
fn test_scan_function_apps_empty() {
    assert!(function_apps_from(&js("[]")).is_empty());
}

#[test]
fn test_scan_function_apps() {
    let listed = js(r#"[{"name": "my-func", "id": "/x/my-func", "resourceGroup": "rg-1", "location": "japaneast",
        "kind": "functionapp", "state": "Running", "appServicePlanId": "/x/plan"}]"#);
    let result = function_apps_from(&listed);
    assert_eq!(result.len(), 1);
    assert_eq!(field(&result[0], "name"), &s("my-func"));
    assert_eq!(field(&result[0], "kind"), &s("functionapp"));
    assert_eq!(field(&result[0], "location"), &s("japaneast"));
}

#[test]
fn az_output_and_factory_records() {
    assert_eq!(
        AzureClientFactory::az_output(false, "", "boom"),
        Err("Azure CLIコマンドが失敗しました: boom".to_string())
    );
    assert_eq!(
        AzureClientFactory::az_output(true, "not json", ""),
        Err("Azure CLIの出力をJSONとして解析できませんでした".to_string())
    );
    assert_eq!(AzureClientFactory::az_output(true, "[1, \"a\"]", ""), Ok(js("[1, \"a\"]")));
    let account = js(r#"{"id": "sub-1", "name": "Main", "tenantId": "t-1", "user": {"name": "me@example.com"}}"#);
    let conn = AzureClientFactory::test_connection(&account);
    assert!(conn.success);
    let subs = AzureClientFactory::list_subscriptions(&js(r#"[{"id": "sub-1", "name": "Main", "state": "Enabled"}]"#)).unwrap();
    assert_eq!(subs.len(), 1);
    assert_eq!(subs[0].subscription_id, "sub-1");
    assert!(AzureClientFactory::list_subscriptions(&js("{}")).is_err());
    let groups = AzureClientFactory::list_resource_groups(&js(r#"[{"name": "rg-1", "location": "eastus"}]"#)).unwrap();
    assert_eq!(groups[0].name, "rg-1");
}

#[test]
fn test_scan_role_assignments_disabled() {
    let mut c = create_test_config();
    c.scan_targets = vec![("role_assignments".to_string(), false)];
    let scanner = AzureIamScanner::new(c);
    let roles = vec![("x".to_string(), Some("Reader".to_string()))];
    let result = scanner.scan_role_assignments(&js(ASSIGNMENTS), &roles, &Vec::new(), true);
    assert_eq!(result, Ok(Vec::new()));
}

#[test]
fn role_definitions_disabled_give_nothing() {
    let mut c = create_test_config();
    c.scan_targets = vec![("role_assignments".to_string(), true)];
    let scanner = AzureIamScanner::new(c);
    assert_eq!(scanner.scan_role_definitions(&js(DEFINITIONS), None), Ok(Vec::new()));
}

#[test]
fn scan_result_keeps_parts_of_enabled_targets() {
    let mut c = create_test_config();
    c.scan_targets.push(("app_services".to_string(), true));
    let scanner = AzureIamScanner::new(c);
    let r = scanner.scan_result(vec![s("d")], Vec::new(), None, Some(vec![s("f")]));
    assert_eq!(
        r,
        Json::Object(vec![
            ("provider".to_string(), s("azure")),
            ("role_definitions".to_string(), Json::Array(vec![s("d")])),
            ("role_assignments".to_string(), Json::Array(Vec::new())),
            ("app_services".to_string(), Json::Array(Vec::new())),
            ("function_apps".to_string(), Json::Array(Vec::new())),
        ])
    );
    let r = scanner.scan_result(Vec::new(), Vec::new(), Some(vec![s("a")]), None);
    assert_eq!(field(&r, "app_services"), &Json::Array(vec![s("a")]));
}

#[test]
fn display_name_lookup_addresses() {
    assert_eq!(
        tfkosmos::azure::role_display_url(
            "/subscriptions/sub-123/providers/Microsoft.Authorization/roleDefinitions/role-1",
            Some("other")
        ),
        Some(
            "https://management.azure.com/subscriptions/sub-123/providers/Microsoft.Authorization/roleDefinitions/role-1?api-version=2022-04-01"
                .to_string()
        )
    );
    assert_eq!(
        tfkosmos::azure::role_display_url("role-1", Some("sub-9")),
        Some(
            "https://management.azure.com/subscriptions/sub-9/providers/Microsoft.Authorization/roleDefinitions/role-1?api-version=2022-04-01"
                .to_string()
        )
    );
    assert_eq!(tfkosmos::azure::role_display_url("role-1", None), None);
    assert_eq!(
        tfkosmos::azure::principal_display_url("p-1", Some("User")),
        Some("https://graph.microsoft.com/v1.0/users/p-1".to_string())
    );
    assert_eq!(
        tfkosmos::azure::principal_display_url("p-2", Some("ServicePrincipal")),
        Some("https://graph.microsoft.com/v1.0/servicePrincipals/p-2".to_string())
    );
    assert_eq!(tfkosmos::azure::principal_display_url("p-3", Some("Group")), None);
}

#[test]
fn display_names_from_replies() {
    assert_eq!(tfkosmos::azure::principal_display_name_in(&js(r#"{"displayName": "Alice"}"#)), Some("Alice".to_string()));
    assert_eq!(tfkosmos::azure::principal_display_name_in(&js(r#"{"appDisplayName": "App"}"#)), Some("App".to_string()));
    assert_eq!(tfkosmos::azure::principal_display_name_in(&js(r#"{"displayName": null, "appDisplayName": "App"}"#)), None);
    assert_eq!(
        tfkosmos::azure::role_display_name_in(&js(r#"{"properties": {"displayName": "閲覧者", "roleName": "Reader"}}"#)),
        Some("閲覧者".to_string())
    );
    assert_eq!(
        tfkosmos::azure::role_display_name_in(&js(r#"{"properties": {"displayName": "", "roleName": "Reader"}}"#)),
        Some("Reader".to_string())
    );
    assert_eq!(tfkosmos::azure::role_display_name_in(&js(r#"{"roleName": "Reader"}"#)), None);
}
