use tfkosmos::json::Json;
use tfkosmos::query::evaluator::QueryEvaluator;
use tfkosmos::query::lexer::{Lexer, LogicalOp, Operator, Token};
use tfkosmos::query::parser::{Expr, QueryParser, QueryValue};

fn conv(v: &serde_json::Value) -> Json {
    match v {
        serde_json::Value::Null => Json::Null,
        serde_json::Value::Bool(b) => Json::Bool(*b),
        serde_json::Value::Number(n) => Json::Number(n.to_string()),
        serde_json::Value::String(s) => Json::Str(s.clone()),
        serde_json::Value::Array(a) => Json::Array(a.iter().map(conv).collect()),
        serde_json::Value::Object(o) => {
            Json::Object(o.iter().map(|(k, v)| (k.clone(), conv(v))).collect())
        }
    }
}

fn js(text: &str) -> Json {
    conv(&serde_json::from_str::<serde_json::Value>(text).unwrap())
}

fn parse(q: &str) -> Expr {
    let mut lexer = Lexer::new(q);
    let tokens = lexer.tokenize().unwrap();
    let mut parser = QueryParser::new(tokens);
    parser.parse().unwrap()
}

fn holds(q: &str, resource: &str) -> bool {
    QueryEvaluator::evaluate(&parse(q), &js(resource))
}

#[test]
fn test_evaluate_simple_eq() {
    assert!(holds("user_name == \"admin\"", r#"{"user_name": "admin", "role": "administrator"}"#));
}

#[test]
fn test_evaluate_simple_ne() {
    assert!(holds("user_name != \"user\"", r#"{"user_name": "admin", "role": "administrator"}"#));
}

#[test]
fn test_evaluate_nested_field() {
    assert!(holds(
        "tags.env == \"production\"",
        r#"{"user_name": "admin", "tags": {"env": "production", "team": "platform"}}"#
    ));
}

#[test]
fn test_evaluate_like_wildcard() {
    assert!(holds("path LIKE \"/admin/*\"", r#"{"path": "/admin/users/123"}"#));
}

#[test]
fn test_evaluate_like_no_match() {
    assert!(!holds("path LIKE \"/admin/*\"", r#"{"path": "/user/profile"}"#));
}

#[test]
fn test_evaluate_in_operator() {
    assert!(holds("role IN [\"admin\", \"moderator\"]", r#"{"role": "admin"}"#));
}

#[test]
fn test_evaluate_in_operator_no_match() {
    assert!(!holds("role IN [\"admin\", \"moderator\"]", r#"{"role": "user"}"#));
}

#[test]
fn test_evaluate_and_expression() {
    assert!(holds(
        "user_name == \"admin\" AND role == \"administrator\"",
        r#"{"user_name": "admin", "role": "administrator"}"#
    ));
}

#[test]
fn test_evaluate_or_expression() {
    assert!(holds(
        "role == \"administrator\" OR user_name == \"admin\"",
        r#"{"user_name": "admin", "role": "user"}"#
    ));
}

#[test]
fn test_evaluate_not_expression() {
    assert!(holds("NOT user_name == \"user\"", r#"{"user_name": "admin"}"#));
}

#[test]
fn test_evaluate_complex_expression() {
    assert!(holds(
        "tags.env == \"production\" AND user_name LIKE \"app-*\"",
        r#"{"user_name": "app-user-123", "tags": {"env": "production"}}"#
    ));
}

#[test]
fn evaluate_missing_field_is_false() {
    assert!(!holds("missing == \"x\"", r#"{"user_name": "admin"}"#));
    assert!(!holds("missing != \"x\"", r#"{"user_name": "admin"}"#));
}

#[test]
fn evaluate_numbers_and_booleans() {
    assert!(holds("count == 42", r#"{"count": 42}"#));
    assert!(holds("enabled == true", r#"{"enabled": true}"#));
    assert!(!holds("enabled == false", r#"{"enabled": true}"#));
}

#[test]
fn test_wildcard_match() {
    assert!(QueryEvaluator::wildcard_match("hello world", "hello*"));
    assert!(QueryEvaluator::wildcard_match("hello world", "*world"));
    assert!(QueryEvaluator::wildcard_match("hello world", "hello*world"));
    assert!(QueryEvaluator::wildcard_match("hello world", "*"));
    assert!(QueryEvaluator::wildcard_match("hello", "hello"));
    assert!(!QueryEvaluator::wildcard_match("hello", "world"));
    assert!(QueryEvaluator::wildcard_match("/admin/users/123", "/admin/*"));
}

#[test]
fn wildcard_edge_cases() {
    assert!(QueryEvaluator::wildcard_match("", "*"));
    assert!(QueryEvaluator::wildcard_match("", ""));
    assert!(!QueryEvaluator::wildcard_match("a", ""));
    assert!(QueryEvaluator::wildcard_match("abcabc", "a*c*c"));
    assert!(!QueryEvaluator::wildcard_match("abc", "a*d"));
    assert!(QueryEvaluator::wildcard_match("aXbXc", "a*b*c"));
}

fn tokens(q: &str) -> Vec<Token> {
    Lexer::new(q).tokenize().unwrap()
}

#[test]
fn test_tokenize_simple_comparison() {
    let t = tokens("user_name == \"admin\"");
    assert_eq!(t.len(), 4);
    assert_eq!(t[0], Token::Identifier("user_name".to_string()));
    assert_eq!(t[1], Token::Operator(Operator::Eq));
    assert_eq!(t[2], Token::String("admin".to_string()));
    assert_eq!(t[3], Token::Eof);
}

#[test]
fn test_tokenize_nested_field() {
    let t = tokens("tags.env == \"production\"");
    assert_eq!(t[0], Token::Identifier("tags".to_string()));
    assert_eq!(t[1], Token::Dot);
    assert_eq!(t[2], Token::Identifier("env".to_string()));
    assert_eq!(t[3], Token::Operator(Operator::Eq));
    assert_eq!(t[4], Token::String("production".to_string()));
}

#[test]
fn test_tokenize_like_operator() {
    let t = tokens("path LIKE \"/admin/*\"");
    assert_eq!(t[0], Token::Identifier("path".to_string()));
    assert_eq!(t[1], Token::Operator(Operator::Like));
    assert_eq!(t[2], Token::String("/admin/*".to_string()));
}

#[test]
fn test_tokenize_in_operator() {
    let t = tokens("role IN [\"admin\", \"user\"]");
    assert_eq!(t[0], Token::Identifier("role".to_string()));
    assert_eq!(t[1], Token::Operator(Operator::In));
    assert_eq!(t[2], Token::LBracket);
    assert_eq!(t[3], Token::String("admin".to_string()));
    assert_eq!(t[4], Token::Comma);
    assert_eq!(t[5], Token::String("user".to_string()));
    assert_eq!(t[6], Token::RBracket);
}

#[test]
fn test_tokenize_logical_operators() {
    let t = tokens("a == \"1\" AND b == \"2\" OR NOT c == \"3\"");
    assert!(t.contains(&Token::LogicalOp(LogicalOp::And)));
    assert!(t.contains(&Token::LogicalOp(LogicalOp::Or)));
    assert!(t.contains(&Token::LogicalOp(LogicalOp::Not)));
}

#[test]
fn test_tokenize_parentheses() {
    let t = tokens("(a == \"1\" OR b == \"2\") AND c == \"3\"");
    assert_eq!(t[0], Token::LParen);
    assert!(t.contains(&Token::RParen));
}

#[test]
fn test_tokenize_numbers() {
    let t = tokens("count == 42");
    assert_eq!(t[0], Token::Identifier("count".to_string()));
    assert_eq!(t[1], Token::Operator(Operator::Eq));
    assert_eq!(t[2], Token::Number("42".to_string()));
}

#[test]
fn test_tokenize_boolean() {
    let t = tokens("enabled == true");
    assert_eq!(t[0], Token::Identifier("enabled".to_string()));
    assert_eq!(t[1], Token::Operator(Operator::Eq));
    assert_eq!(t[2], Token::Boolean(true));
}

#[test]
fn test_error_unterminated_string() {
    let result = Lexer::new("name == \"unterminated").tokenize();
    assert!(result.is_err());
    assert!(result.unwrap_err().contains("Unterminated string"));
}

#[test]
fn tokenize_rejects_stray_character() {
    assert!(Lexer::new("a = \"b\"").tokenize().is_err());
    assert!(Lexer::new("a == #").tokenize().is_err());
}

#[test]
fn test_parse_simple_comparison() {
    match parse("user_name == \"admin\"") {
        Expr::Comparison { field, operator, value } => {
            assert_eq!(field, vec!["user_name".to_string()]);
            assert!(matches!(operator, Operator::Eq));
            assert!(matches!(value, QueryValue::String(s) if s == "admin"));
        }
        _ => panic!("Expected Comparison expression"),
    }
}

#[test]
fn test_parse_nested_field() {
    match parse("tags.env == \"production\"") {
        Expr::Comparison { field, .. } => {
            assert_eq!(field, vec!["tags".to_string(), "env".to_string()]);
        }
        _ => panic!("Expected Comparison expression"),
    }
}

#[test]
fn test_parse_and_expression() {
    assert!(matches!(parse("a == \"1\" AND b == \"2\""), Expr::And(_, _)));
}

#[test]
fn test_parse_or_expression() {
    let expr = parse("a == \"1\" OR b == \"2\"");
    assert!(matches!(expr, Expr::Or(_, _)), "Expected Or expression, got: {:?}", expr);
}

#[test]
fn test_parse_not_expression() {
    assert!(matches!(parse("NOT a == \"1\""), Expr::Not(_)));
}

#[test]
fn test_parse_parentheses() {
    match parse("(a == \"1\" OR b == \"2\") AND c == \"3\"") {
        Expr::And(left, _) => assert!(matches!(*left, Expr::Or(_, _))),
        other => panic!("Expected And expression, got: {:?}", other),
    }
}

#[test]
fn test_parse_in_operator() {
    match parse("role IN [\"admin\", \"user\"]") {
        Expr::Comparison { operator, value, .. } => {
            assert!(matches!(operator, Operator::In));
            match value {
                QueryValue::Array(arr) => assert_eq!(arr.len(), 2),
                _ => panic!("Expected Array value"),
            }
        }
        _ => panic!("Expected Comparison expression"),
    }
}

#[test]
fn test_parse_like_operator() {
    match parse("path LIKE \"/admin/*\"") {
        Expr::Comparison { operator, .. } => assert!(matches!(operator, Operator::Like)),
        _ => panic!("Expected Comparison expression"),
    }
}

#[test]
fn parse_errors() {
    let mut p = QueryParser::new(Lexer::new("a ==").tokenize().unwrap());
    assert!(p.parse().is_err());
    let mut p = QueryParser::new(Lexer::new("(a == \"1\"").tokenize().unwrap());
    assert!(p.parse().is_err());
}
