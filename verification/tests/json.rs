use tfkosmos::json::{insert_entry, push_entry, text, text_array, Json};
use tfkosmos::providers::AwsProvider;

fn s(v: &str) -> Json {
    Json::Str(v.to_string())
}

#[test]
fn insert_then_get_gives_the_value() {
    let mut e: Vec<(String, Json)> = Vec::new();
    push_entry(&mut e, "provider", text("aws"));
    insert_entry(&mut e, "users", Json::Array(vec![s("a")]));
    insert_entry(&mut e, "provider", text("azure"));
    let obj = Json::Object(e.clone());
    assert_eq!(obj.get("provider"), Some(&s("azure")));
    assert_eq!(obj.get("users"), Some(&Json::Array(vec![s("a")])));
    assert_eq!(e[0].0, "provider");
    assert_eq!(e.len(), 2);
}

#[test]
fn text_helpers() {
    assert_eq!(text_array(&vec!["x".to_string(), "y".to_string()]), Json::Array(vec![s("x"), s("y")]));
    let obj = Json::Object(vec![("k".to_string(), s("v")), ("n".to_string(), Json::Number("1".to_string()))]);
    assert_eq!(obj.str_field("k"), Some(&"v".to_string()));
    assert_eq!(obj.str_field("n"), None);
    assert_eq!(obj.clone(), obj);
}

#[test]
fn merge_results_extends_like_a_map() {
    let mut base = vec![("provider".to_string(), s("aws")), ("users".to_string(), Json::Array(Vec::new()))];
    let more = vec![("buckets".to_string(), Json::Array(vec![s("b")])), ("users".to_string(), Json::Array(vec![s("u")]))];
    AwsProvider::merge_results(&mut base, &more);
    assert_eq!(
        base,
        vec![
            ("provider".to_string(), s("aws")),
            ("users".to_string(), Json::Array(vec![s("u")])),
            ("buckets".to_string(), Json::Array(vec![s("b")])),
        ]
    );
}
