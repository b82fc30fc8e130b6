use tfkosmos::models::request::{
    count_enabled, default_file_split_rule, default_import_script_format, default_naming_convention,
    default_true, lookup_flag, lookup_text, CloudProvider, ProviderConfig, ScanConfig,
};

fn make_aws_config() -> ScanConfig {
    ScanConfig {
        provider: "aws".to_string(),
        account_id: Some("123456789012".to_string()),
        profile: Some("default".to_string()),
        assume_role_arn: None,
        assume_role_session_name: None,
        subscription_id: None,
        tenant_id: None,
        auth_method: None,
        service_principal_config: None,
        scope_type: None,
        scope_value: None,
        scan_targets: Vec::new(),
        filters: Vec::new(),
        include_tags: true,
    }
}

fn make_azure_config() -> ScanConfig {
    ScanConfig {
        provider: "azure".to_string(),
        account_id: None,
        profile: None,
        assume_role_arn: None,
        assume_role_session_name: None,
        subscription_id: Some("sub-123".to_string()),
        tenant_id: Some("tenant-456".to_string()),
        auth_method: Some("az_login".to_string()),
        service_principal_config: None,
        scope_type: Some("subscription".to_string()),
        scope_value: Some("sub-123".to_string()),
        scan_targets: Vec::new(),
        filters: Vec::new(),
        include_tags: true,
    }
}

#[test]
fn test_cloud_provider_aws() {
    let config = make_aws_config();
    assert_eq!(config.cloud_provider(), Some(CloudProvider::Aws));
    assert!(config.is_aws());
    assert!(!config.is_azure());
}

#[test]
fn test_cloud_provider_azure() {
    let config = make_azure_config();
    assert_eq!(config.cloud_provider(), Some(CloudProvider::Azure));
    assert!(!config.is_aws());
    assert!(config.is_azure());
}

#[test]
fn test_cloud_provider_unknown() {
    let mut config = make_aws_config();
    config.provider = "gcp".to_string();
    assert_eq!(config.cloud_provider(), None);
    assert!(!config.is_aws());
    assert!(!config.is_azure());
}

#[test]
fn test_provider_config_aws() {
    let config = make_aws_config();
    match config.provider_config() {
        Some(ProviderConfig::Aws(aws)) => {
            assert_eq!(aws.account_id, Some("123456789012".to_string()));
            assert_eq!(aws.profile, Some("default".to_string()));
            assert!(aws.assume_role_arn.is_none());
        }
        _ => panic!("Expected ProviderConfig::Aws"),
    }
}

#[test]
fn test_provider_config_azure() {
    let config = make_azure_config();
    match config.provider_config() {
        Some(ProviderConfig::Azure(azure)) => {
            assert_eq!(azure.subscription_id, Some("sub-123".to_string()));
            assert_eq!(azure.tenant_id, Some("tenant-456".to_string()));
            assert_eq!(azure.auth_method, Some("az_login".to_string()));
            assert_eq!(azure.scope_type, Some("subscription".to_string()));
        }
        _ => panic!("Expected ProviderConfig::Azure"),
    }
}

#[test]
fn test_provider_config_unknown_returns_none() {
    let mut config = make_aws_config();
    config.provider = "unknown".to_string();
    assert!(config.provider_config().is_none());
}

#[test]
fn test_cloud_provider_display() {
    assert_eq!(CloudProvider::Aws.to_string(), "aws");
    assert_eq!(CloudProvider::Azure.to_string(), "azure");
}

#[test]
fn provider_name_round_trips_through_config() {
    for p in [CloudProvider::Aws, CloudProvider::Azure] {
        let mut config = make_aws_config();
        config.provider = p.to_string();
        assert_eq!(config.cloud_provider(), Some(p));
    }
}

#[test]
fn generation_defaults() {
    assert_eq!(default_file_split_rule(), "single");
    assert_eq!(default_naming_convention(), "snake_case");
    assert_eq!(default_import_script_format(), "sh");
    assert!(default_true());
}

#[test]
fn lookups_take_the_first_entry() {
    let entries = vec![
        ("a".to_string(), "1".to_string()),
        ("b".to_string(), "2".to_string()),
        ("a".to_string(), "3".to_string()),
    ];
    assert_eq!(lookup_text(&entries, "a"), Some(&"1".to_string()));
    assert_eq!(lookup_text(&entries, "c"), None);
    let flags = vec![("users".to_string(), true), ("roles".to_string(), false)];
    assert_eq!(lookup_flag(&flags, "roles"), Some(false));
    assert_eq!(lookup_flag(&flags, "groups"), None);
    assert_eq!(count_enabled(&flags), 1);
}

#[test]
fn targets_and_name_prefix() {
    let mut config = make_aws_config();
    config.scan_targets = vec![("users".to_string(), true), ("roles".to_string(), false)];
    config.filters = vec![("name_prefix".to_string(), "prod-".to_string())];
    assert!(config.target_enabled("users"));
    assert!(!config.target_enabled("roles"));
    assert!(!config.target_enabled("groups"));
    assert!(config.name_passes("prod-app"));
    assert!(!config.name_passes("dev-app"));
    config.filters = Vec::new();
    assert!(config.name_passes("dev-app"));
}
