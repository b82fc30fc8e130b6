use tfkosmos::json::Json;
use tfkosmos::terraform::cli::{text_lines, text_words, TerraformCli};
use tfkosmos::terraform::state::TfState;

const VALID_V4_STATE: &str = r#"{
    "version": 4,
    "terraform_version": "1.5.0",
    "serial": 10,
    "lineage": "abc-def",
    "resources": [
        {
            "mode": "managed",
            "type": "aws_s3_bucket",
            "name": "my_bucket",
            "provider": "provider[\"registry.terraform.io/hashicorp/aws\"]",
            "instances": [{"attributes": {"bucket": "my-bucket-name", "acl": "private"}}]
        },
        {
            "mode": "managed",
            "type": "aws_instance",
            "name": "web",
            "provider": "provider[\"registry.terraform.io/hashicorp/aws\"]",
            "instances": [{"attributes": {"id": "i-1234567890", "instance_type": "t3.micro"}}]
        }
    ]
}"#;

#[test]
fn parse_valid_v4_state() {
    let state = TfState::parse(VALID_V4_STATE).unwrap();
    assert_eq!(state.version, 4);
    assert_eq!(state.terraform_version, "1.5.0");
    assert_eq!(state.serial, 10);
    assert_eq!(state.lineage, "abc-def");
    assert_eq!(state.resources.len(), 2);
    assert_eq!(state.resources[0].resource_type, "aws_s3_bucket");
    assert_eq!(state.resources[1].resource_type, "aws_instance");
}

#[test]
fn reject_non_v4_version() {
    let result = TfState::parse(r#"{"version": 3, "resources": []}"#);
    let err = result.unwrap_err();
    assert!(err.contains("サポートされていないstateバージョン"), "Expected version error, got: {}", err);
    assert_eq!(err, "サポートされていないstateバージョン: 3 (v4のみサポート)");
}

#[test]
fn parse_empty_resources() {
    let state = TfState::parse(r#"{"version": 4, "resources": []}"#).unwrap();
    assert_eq!(state.version, 4);
    assert!(state.resources.is_empty());
    assert_eq!(state.terraform_version, "");
    assert_eq!(state.serial, 0);
}

#[test]
fn parse_state_with_multiple_resources() {
    let state = TfState::parse(VALID_V4_STATE).unwrap();
    assert_eq!(state.resources.len(), 2);
    let bucket = &state.resources[0];
    assert_eq!(bucket.mode, "managed");
    assert_eq!(bucket.resource_type, "aws_s3_bucket");
    assert_eq!(bucket.name, "my_bucket");
    assert_eq!(bucket.instances.len(), 1);
    assert_eq!(
        bucket.instances[0].attributes.get("bucket"),
        Some(&Json::Str("my-bucket-name".to_string()))
    );
}

#[test]
fn resources_by_type_groups_correctly() {
    let json = r#"{"version": 4, "resources": [
        {"mode": "managed", "type": "aws_s3_bucket", "name": "a", "provider": "aws", "instances": []},
        {"mode": "managed", "type": "aws_s3_bucket", "name": "b", "provider": "aws", "instances": []},
        {"mode": "managed", "type": "aws_instance", "name": "web", "provider": "aws", "instances": []},
        {"mode": "data", "type": "aws_ami", "name": "latest", "provider": "aws", "instances": []}]}"#;
    let state = TfState::parse(json).unwrap();
    let by_type = state.resources_by_type();
    let group = |t: &str| by_type.iter().find(|(k, _)| k == t).map(|(_, v)| v.len());
    assert_eq!(by_type.len(), 2);
    assert_eq!(group("aws_s3_bucket"), Some(2));
    assert_eq!(group("aws_instance"), Some(1));
    assert_eq!(group("aws_ami"), None);
}

#[test]
fn parse_invalid_json() {
    let result = TfState::parse("not valid json");
    assert!(result.unwrap_err().contains("パースに失敗"));
}

#[test]
fn parse_rejects_missing_fields() {
    assert!(TfState::parse(r#"{"resources": []}"#).is_err());
    assert!(TfState::parse(r#"{"version": 4, "resources": [{"mode": "managed"}]}"#).is_err());
}

#[test]
fn test_terraform_version() {
    let out = r#"{"terraform_version": "1.5.7", "platform": "linux_amd64", "provider_selections": {}}"#;
    let version_info = TerraformCli::version(true, out);
    assert!(version_info.available);
    assert!(!version_info.version.is_empty());
    assert_eq!(version_info.version, "1.5.7");
}

#[test]
fn version_when_terraform_is_missing_or_odd() {
    let v = TerraformCli::version(false, "");
    assert!(!v.available);
    assert_eq!(v.version, "");
    let v = TerraformCli::version(true, "Terraform v1.5.7");
    assert!(v.available);
    assert_eq!(v.version, "unknown");
}

#[test]
fn validate_valid_config_output() {
    let r = TerraformCli::validate(r#"{"valid": true, "error_count": 0, "diagnostics": []}"#);
    assert!(r.valid);
    assert_eq!(r.errors.len(), 0);
}

#[test]
fn validate_invalid_config_output() {
    let out = r#"{"valid": false, "diagnostics": [
        {"severity": "error", "summary": "Unsupported block type", "detail": "Blocks of type \"invalid_block\" are not expected here."},
        {"severity": "warning", "summary": "Deprecated", "detail": ""},
        {"severity": "info", "summary": "ignored"}]}"#;
    let r = TerraformCli::validate(out);
    assert!(!r.valid);
    assert_eq!(
        r.errors,
        vec!["Unsupported block type: Blocks of type \"invalid_block\" are not expected here.".to_string()]
    );
    assert_eq!(r.warnings, vec!["Deprecated".to_string()]);
    let r = TerraformCli::validate("garbage");
    assert!(!r.valid);
    assert!(r.errors.is_empty());
}

#[test]
fn fmt_check_formatted_and_unformatted() {
    let r = TerraformCli::fmt_check(true, "");
    assert!(r.formatted);
    assert!(r.diff.is_none());
    assert_eq!(r.files_changed.len(), 0);
    let diff = "main.tf\n--- old/main.tf\n+++ new/main.tf\n@@ -1,5 +1,5 @@\n";
    let r = TerraformCli::fmt_check(false, diff);
    assert!(!r.formatted);
    assert_eq!(r.diff.as_deref(), Some(diff));
    assert_eq!(r.files_changed, vec!["old/main.tf".to_string(), "new/main.tf".to_string()]);
}

#[test]
fn fmt_auto_format_output() {
    assert_eq!(TerraformCli::fmt(true, "main.tf\n", ""), Ok(vec!["main.tf".to_string()]));
    assert_eq!(
        TerraformCli::fmt(false, "", "bad"),
        Err("terraform fmt failed: bad".to_string())
    );
    assert_eq!(TerraformCli::init(true, ""), Ok(()));
    assert_eq!(
        TerraformCli::init(false, "no config"),
        Err("terraform init failed: no config".to_string())
    );
}

#[test]
fn lines_and_words_like_std() {
    for s in ["", "a", "a\n", "a\r\nb", "a\n\nb\n", "\n"] {
        let expected: Vec<String> = s.lines().map(|l| l.to_string()).collect();
        assert_eq!(text_lines(s), expected, "lines of {:?}", s);
    }
    for s in ["", "  a  b ", "--- x\ty", "one"] {
        let expected: Vec<String> = s.split_whitespace().map(|w| w.to_string()).collect();
        assert_eq!(text_words(s), expected, "words of {:?}", s);
    }
}
