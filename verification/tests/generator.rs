use tfkosmos::generators::templates::TemplateManager;
use tfkosmos::generators::terraform::TerraformGenerator;
use tfkosmos::json::Json;
use tfkosmos::models::request::GenerationConfig;

fn conv(v: &serde_json::Value) -> Json {
    match v {
        serde_json::Value::Null => Json::Null,
        serde_json::Value::Bool(b) => Json::Bool(*b),
        serde_json::Value::Number(n) => Json::Number(n.to_string()),
        serde_json::Value::String(s) => Json::Str(s.clone()),
        serde_json::Value::Array(a) => Json::Array(a.iter().map(conv).collect()),
        serde_json::Value::Object(o) => {
            Json::Object(o.iter().map(|(k, v)| (k.clone(), conv(v))).collect())
        }
    }
}

fn js(text: &str) -> Json {
    conv(&serde_json::from_str::<serde_json::Value>(text).unwrap())
}

fn config(rule: &str, format: &str, readme: bool) -> GenerationConfig {
    GenerationConfig {
        output_path: "out".to_string(),
        file_split_rule: rule.to_string(),
        naming_convention: "snake_case".to_string(),
        import_script_format: format.to_string(),
        generate_readme: readme,
        selected_resources: Vec::new(),
    }
}

#[test]
fn test_get_templates_for_aws() {
    let templates = TerraformGenerator::get_templates_for_provider("aws");
    assert_eq!(templates.len(), 28);
    let types: Vec<&str> = templates.iter().map(|t| t.resource_type).collect();
    for t in [
        "users", "groups", "roles", "policies", "buckets", "bucket_policies", "lifecycle_rules",
        "instances", "vpcs", "subnets", "route_tables", "security_groups", "network_acls",
        "internet_gateways", "nat_gateways", "elastic_ips", "db_instances", "db_subnet_groups",
        "db_parameter_groups", "functions", "lambda_layers", "dynamodb_tables", "load_balancers",
        "lb_listeners", "lb_target_groups", "cloudwatch_alarms", "sns_topics", "sns_subscriptions",
    ] {
        assert!(types.contains(&t), "missing {}", t);
    }
}

#[test]
fn test_get_templates_for_azure() {
    let templates = TerraformGenerator::get_templates_for_provider("azure");
    assert_eq!(templates.len(), 9);
    let types: Vec<&str> = templates.iter().map(|t| t.resource_type).collect();
    for t in [
        "role_definitions", "role_assignments", "virtual_machines", "virtual_networks",
        "network_security_groups", "storage_accounts", "sql_databases", "app_services",
        "function_apps",
    ] {
        assert!(types.contains(&t), "missing {}", t);
    }
}

#[test]
fn test_get_templates_for_unknown_provider() {
    let templates = TerraformGenerator::get_templates_for_provider("unknown");
    assert_eq!(templates.len(), 0);
}

#[test]
fn test_get_resource_name_user() {
    let r = js(r#"{"user_name": "test-user", "arn": "arn:aws:iam::123456789012:user/test-user"}"#);
    assert_eq!(TerraformGenerator::get_resource_name(&r, "users"), Ok("test-user".to_string()));
}

#[test]
fn test_get_resource_name_group() {
    let r = js(r#"{"group_name": "test-group", "arn": "arn:aws:iam::123456789012:group/test-group"}"#);
    assert_eq!(TerraformGenerator::get_resource_name(&r, "groups"), Ok("test-group".to_string()));
}

#[test]
fn test_get_resource_name_role() {
    let r = js(r#"{"role_name": "test-role", "arn": "arn:aws:iam::123456789012:role/test-role"}"#);
    assert_eq!(TerraformGenerator::get_resource_name(&r, "roles"), Ok("test-role".to_string()));
}

#[test]
fn test_get_resource_name_policy() {
    let r = js(r#"{"policy_name": "test-policy", "arn": "arn:aws:iam::123456789012:policy/test-policy"}"#);
    assert_eq!(TerraformGenerator::get_resource_name(&r, "policies"), Ok("test-policy".to_string()));
}

#[test]
fn test_get_resource_name_missing_field() {
    let r = js(r#"{"arn": "arn:aws:iam::123456789012:user/test-user"}"#);
    let result = TerraformGenerator::get_resource_name(&r, "users");
    assert!(result.is_err());
    assert!(result.unwrap_err().contains("Missing user_name"));
}

#[test]
fn test_get_resource_name_generic() {
    let r = js(r#"{"name": "generic-resource"}"#);
    assert_eq!(
        TerraformGenerator::get_resource_name(&r, "unknown_type"),
        Ok("generic-resource".to_string())
    );
}

#[test]
fn test_get_resource_name_ec2_instance() {
    let r = js(r#"{"instance_id": "i-0abc123", "ami_id": "ami-123", "instance_type": "t3.micro"}"#);
    assert_eq!(TerraformGenerator::get_resource_name(&r, "instances"), Ok("i-0abc123".to_string()));
}

#[test]
fn test_get_resource_name_vpc() {
    let r = js(r#"{"vpc_id": "vpc-12345", "cidr_block": "10.0.0.0/16"}"#);
    assert_eq!(TerraformGenerator::get_resource_name(&r, "vpcs"), Ok("vpc-12345".to_string()));
}

#[test]
fn test_get_resource_name_lifecycle_rule() {
    let r = js(r#"{"bucket": "my-bucket", "id": "expire-old", "status": "Enabled"}"#);
    assert_eq!(
        TerraformGenerator::get_resource_name(&r, "lifecycle_rules"),
        Ok("my-bucket_expire-old".to_string())
    );
}

#[test]
fn test_get_resource_name_sql_database_with_server() {
    let r = js(r#"{"name": "appdb", "server_name": "sqlsrv1"}"#);
    assert_eq!(
        TerraformGenerator::get_resource_name(&r, "sql_databases"),
        Ok("sqlsrv1_appdb".to_string())
    );
}

#[test]
fn resource_name_errors_name_the_field() {
    let empty = js("{}");
    assert_eq!(
        TerraformGenerator::get_resource_name(&empty, "lifecycle_rules"),
        Err("Missing bucket for lifecycle rule".to_string())
    );
    assert_eq!(
        TerraformGenerator::get_resource_name(&empty, "security_groups"),
        Err("Missing group_id or group_name for security group".to_string())
    );
    let rd = js(r#"{"role_definition_id": "/subscriptions/s/providers/Microsoft.Authorization/roleDefinitions/abc"}"#);
    assert_eq!(TerraformGenerator::get_resource_name(&rd, "role_definitions"), Ok("abc".to_string()));
}

fn import_cmd(text: &str, rt: &str, provider: &str) -> Result<String, String> {
    TerraformGenerator::generate_import_command(&js(text), rt, provider)
}

#[test]
fn test_generate_import_command_aws_user() {
    let cmd = import_cmd(
        r#"{"user_name": "test-user", "arn": "arn:aws:iam::123456789012:user/test-user"}"#,
        "users",
        "aws",
    )
    .unwrap();
    assert!(cmd.contains("terraform import"));
    assert!(cmd.contains("aws_iam_user.test_user"));
    assert!(cmd.contains("arn:aws:iam::123456789012:user/test-user"));
    assert_eq!(
        cmd,
        "terraform import aws_iam_user.test_user arn:aws:iam::123456789012:user/test-user"
    );
}

#[test]
fn test_generate_import_command_aws_group() {
    let cmd = import_cmd(
        r#"{"group_name": "test-group", "arn": "arn:aws:iam::123456789012:group/test-group"}"#,
        "groups",
        "aws",
    )
    .unwrap();
    assert!(cmd.contains("terraform import"));
    assert!(cmd.contains("aws_iam_group.test_group"));
    assert!(cmd.contains("arn:aws:iam::123456789012:group/test-group"));
}

#[test]
fn test_generate_import_command_aws_role() {
    let cmd = import_cmd(
        r#"{"role_name": "test-role", "arn": "arn:aws:iam::123456789012:role/test-role"}"#,
        "roles",
        "aws",
    )
    .unwrap();
    assert!(cmd.contains("terraform import"));
    assert!(cmd.contains("aws_iam_role.test_role"));
    assert!(cmd.contains("arn:aws:iam::123456789012:role/test-role"));
}

#[test]
fn test_generate_import_command_aws_policy() {
    let cmd = import_cmd(
        r#"{"policy_name": "test-policy", "arn": "arn:aws:iam::123456789012:policy/test-policy"}"#,
        "policies",
        "aws",
    )
    .unwrap();
    assert!(cmd.contains("terraform import"));
    assert!(cmd.contains("aws_iam_policy.test_policy"));
    assert!(cmd.contains("arn:aws:iam::123456789012:policy/test-policy"));
}

#[test]
fn test_generate_import_command_unsupported_provider() {
    let result = import_cmd(
        r#"{"user_name": "test-user", "arn": "arn:aws:iam::123456789012:user/test-user"}"#,
        "users",
        "gcp",
    );
    assert!(result.unwrap_err().contains("Unsupported provider/resource type combination"));
}

#[test]
fn import_command_without_arn_fails() {
    let result = import_cmd(r#"{"user_name": "u"}"#, "users", "aws");
    assert_eq!(result, Err("Missing ARN".to_string()));
}

fn two_commands() -> Vec<String> {
    vec![
        "terraform import aws_iam_user.test_user arn:aws:iam::123456789012:user/test-user".to_string(),
        "terraform import aws_iam_group.test_group arn:aws:iam::123456789012:group/test-group"
            .to_string(),
    ]
}

#[test]
fn test_generate_sh_import_script() {
    let script = TerraformGenerator::generate_sh_import_script(&two_commands());
    assert!(script.contains("#!/bin/bash"));
    assert!(script.contains("set -e"));
    assert!(script.contains("terraform import aws_iam_user.test_user"));
    assert!(script.contains("terraform import aws_iam_group.test_group"));
}

#[test]
fn test_generate_ps1_import_script() {
    let script = TerraformGenerator::generate_ps1_import_script(&two_commands());
    assert!(script.contains("$ErrorActionPreference"));
    assert!(script.contains("terraform import aws_iam_user.test_user"));
    assert!(script.contains("terraform import aws_iam_group.test_group"));
}

#[test]
fn sh_script_exact_text() {
    let script = TerraformGenerator::generate_sh_import_script(&vec!["a".to_string(), "b".to_string()]);
    assert_eq!(
        script,
        "#!/bin/bash\n# Terraform import script\n# Generated by TFKosmos Community Edition\n\nset -e\n\na\nb\n"
    );
}

#[test]
fn test_generate_readme() {
    let readme = TerraformGenerator::readme_content(&vec!["users.tf".to_string(), "groups.tf".to_string()]);
    assert!(readme.contains("# Terraform Code Generation"));
    assert!(readme.contains("- users.tf\n- groups.tf\n"));
    assert!(readme.contains("terraform init"));
}

#[test]
fn test_generate_import_script_with_resources() {
    let scan = js(r#"{"provider": "aws", "users": [{"user_name": "test-user", "arn": "arn:aws:iam::123456789012:user/test-user"}]}"#);
    let script = TerraformGenerator::generate_import_script(&scan, &config("single", "sh", true), &Vec::new()).unwrap();
    assert_eq!(script.file_name, "import.sh");
    assert!(script.content.contains("#!/bin/bash"));
    assert!(script.content.contains("terraform import"));
    assert!(script.content.contains("aws_iam_user.test_user"));
}

#[test]
fn test_generate_import_script_ps1_format() {
    let scan = js(r#"{"provider": "aws", "users": [{"user_name": "test-user", "arn": "arn:aws:iam::123456789012:user/test-user"}]}"#);
    let script = TerraformGenerator::generate_import_script(&scan, &config("single", "ps1", true), &Vec::new()).unwrap();
    assert_eq!(script.file_name, "import.ps1");
    assert!(script.content.contains("$ErrorActionPreference"));
    assert!(script.content.contains("terraform import"));
}

#[test]
fn test_generate_import_script_no_resources() {
    let scan = js(r#"{"provider": "aws", "users": []}"#);
    assert!(TerraformGenerator::generate_import_script(&scan, &config("single", "sh", true), &Vec::new()).is_none());
}

#[test]
fn test_generate_import_script_with_selected_resources() {
    let scan = js(r#"{"provider": "aws", "users": [
        {"user_name": "alice", "arn": "arn:aws:iam::1:user/alice"},
        {"user_name": "bob", "arn": "arn:aws:iam::1:user/bob"}]}"#);
    let sel = vec![("users".to_string(), vec![Json::Str("alice".to_string())])];
    let cmds = TerraformGenerator::import_commands(&scan, &sel);
    assert_eq!(cmds, vec!["terraform import aws_iam_user.alice arn:aws:iam::1:user/alice".to_string()]);
}

const USER_TEMPLATE: &str = "resource \"aws_iam_user\" \"{{ resource_name }}\" {\n  name = \"{{ user.user_name }}\"\n}";

fn two_users() -> Json {
    js(r#"{"provider": "aws", "users": [
        {"user_name": "user-included", "arn": "arn:aws:iam::1:user/user-included", "path": "/", "tags": {}},
        {"user_name": "user-excluded", "arn": "arn:aws:iam::1:user/user-excluded", "path": "/", "tags": {}}]}"#)
}

#[test]
fn test_generate_with_selected_resources_filters_correctly() {
    let sel = vec![("users".to_string(), vec![Json::Str("user-included".to_string())])];
    let plan = TerraformGenerator::generate_plan(&two_users(), &config("single", "sh", false), &sel).unwrap();
    assert_eq!(plan.files, vec!["users.tf".to_string()]);
    assert!(plan.readme.is_none());
    let text = TerraformGenerator::job_text(&plan.jobs[0], USER_TEMPLATE).unwrap();
    assert!(text.contains("user_included"));
    assert!(!text.contains("user_excluded"));
}

#[test]
fn test_generate_with_empty_selection_for_type_skips_type() {
    let sel = vec![("users".to_string(), Vec::new())];
    let result = TerraformGenerator::generate_plan(&two_users(), &config("single", "sh", false), &sel);
    let err = result.err().expect("no files should be an error");
    assert!(err.starts_with("No files were generated."));
}

#[test]
fn test_generate_with_split_by_resource_type() {
    let plan = TerraformGenerator::generate_plan(&two_users(), &config("by_resource_type", "sh", false), &Vec::new()).unwrap();
    assert_eq!(plan.files, vec!["users.tf".to_string()]);
    let text = TerraformGenerator::job_text(&plan.jobs[0], USER_TEMPLATE).unwrap();
    assert!(text.contains("aws_iam_user"));
    assert_eq!(
        text,
        "resource \"aws_iam_user\" \"user_included\" {\n  name = \"user-included\"\n}\n\nresource \"aws_iam_user\" \"user_excluded\" {\n  name = \"user-excluded\"\n}\n\n"
    );
}

#[test]
fn test_generate_with_split_by_resource_name() {
    let plan = TerraformGenerator::generate_plan(&two_users(), &config("by_resource_name", "sh", true), &Vec::new()).unwrap();
    assert_eq!(
        plan.files,
        vec![
            "users_user_included.tf".to_string(),
            "users_user_excluded.tf".to_string(),
            "README.md".to_string()
        ]
    );
    let readme = plan.readme.unwrap();
    assert!(readme.contains("- users_user_included.tf\n"));
    let text = TerraformGenerator::job_text(&plan.jobs[1], USER_TEMPLATE).unwrap();
    assert_eq!(text, "resource \"aws_iam_user\" \"user_excluded\" {\n  name = \"user-excluded\"\n}");
}

#[test]
fn generate_fails_on_unnamed_resource() {
    let scan = js(r#"{"provider": "aws", "users": [{"arn": "x"}]}"#);
    let plan = TerraformGenerator::generate_plan(&scan, &config("single", "sh", true), &Vec::new()).unwrap();
    assert_eq!(plan.failure, Some("Failed to generate single file for type 'users'".to_string()));
    assert!(plan.jobs.is_empty());
    assert!(plan.files.is_empty());
    assert!(plan.readme.is_none());
}

#[test]
fn earlier_type_jobs_come_before_a_later_naming_failure() {
    let scan = js(r#"{"provider": "aws",
        "users": [{"user_name": "alice"}, {"user_name": "bob"}],
        "groups": [{"group_name": "devs"}, {"arn": "x"}, {"group_name": "ops"}]}"#);
    let plan = TerraformGenerator::generate_plan(&scan, &config("by_resource_name", "sh", true), &Vec::new()).unwrap();
    assert_eq!(
        plan.files,
        vec!["users_alice.tf".to_string(), "users_bob.tf".to_string(), "groups_devs.tf".to_string()]
    );
    assert_eq!(plan.failure, Some("Failed to generate files by resource name for type 'groups'".to_string()));
    assert!(plan.readme.is_none());
    let err = TerraformGenerator::job_text(&plan.jobs[0], "{% if %}").unwrap_err();
    assert_eq!(err, "Failed to generate files by resource name for type 'users'");
}

#[test]
fn test_generate_aws_s3_buckets() {
    let scan = js(r#"{"provider": "aws", "buckets": [{"name": "my-bucket", "region": "ap-northeast-1"}]}"#);
    let plan = TerraformGenerator::generate_plan(&scan, &config("single", "sh", false), &Vec::new()).unwrap();
    assert_eq!(plan.files, vec!["buckets.tf".to_string()]);
    let text = TerraformGenerator::job_text(&plan.jobs[0], "bucket = \"{{ bucket.name }}\" as {{ resource_name }}").unwrap();
    assert_eq!(text, "bucket = \"my-bucket\" as my_bucket\n\n");
}

#[test]
fn generate_azure_uses_azure_templates() {
    let scan = js(r#"{"provider": "azure", "virtual_machines": [{"name": "vm-linux"}, {"id": "/x/y/vm-win"}]}"#);
    let plan = TerraformGenerator::generate_plan(&scan, &config("by_resource_name", "sh", false), &Vec::new()).unwrap();
    assert_eq!(
        plan.files,
        vec!["virtual_machines_vm_linux.tf".to_string(), "virtual_machines_vm_win.tf".to_string()]
    );
}

#[test]
fn job_text_reports_render_failure() {
    let plan = TerraformGenerator::generate_plan(&two_users(), &config("single", "sh", false), &Vec::new()).unwrap();
    let err = TerraformGenerator::job_text(&plan.jobs[0], "{% if %}").unwrap_err();
    assert_eq!(err, "Failed to generate single file for type 'users'");
}

#[test]
fn test_render_template() {
    let ctx = js(r#"{"name": "world", "n": 3}"#);
    let out = TemplateManager::render_template("t", "hello {{ name }} {{ n }}", &ctx).unwrap();
    assert_eq!(out, "hello world 3");
}

#[test]
fn test_render_template_with_invalid_syntax() {
    let ctx = js(r#"{"name": "world"}"#);
    assert!(TemplateManager::render_template("t", "{% for x in %}", &ctx).is_none());
}

#[test]
fn render_file_joins_renderings() {
    let ctxs = vec![js(r#"{"v": "a"}"#), js(r#"{"v": "b"}"#)];
    assert_eq!(TemplateManager::render_file("t", "<{{ v }}>", &ctxs, false).unwrap(), "<a><b>");
    assert_eq!(TemplateManager::render_file("t", "<{{ v }}>", &ctxs, true).unwrap(), "<a>\n\n<b>\n\n");
}
