use tfkosmos::generators::naming::NamingGenerator;

#[test]
fn test_with_hyphen() {
    let result = NamingGenerator::to_snake_case("my-resource-name");
    assert_eq!(result, "my_resource_name", "ハイフンをアンダースコアに変換するべき");
}

#[test]
fn test_with_dot() {
    let result = NamingGenerator::to_snake_case("my.resource.name");
    assert_eq!(result, "my_resource_name", "ドットをアンダースコアに変換するべき");
}

#[test]
fn naming_test_with_dot() {
    let result = NamingGenerator::to_kebab_case("my.resource.name");
    assert_eq!(result, "my-resource-name", "ドットをハイフンに変換するべき");
}

#[test]
fn test_with_uppercase() {
    let result = NamingGenerator::to_snake_case("MyResourceName");
    assert_eq!(result, "myresourcename", "大文字を小文字に変換するべき");
}

#[test]
fn naming_test_with_uppercase() {
    let result = NamingGenerator::to_kebab_case("MyResourceName");
    assert_eq!(result, "myresourcename", "大文字を小文字に変換するべき");
}

#[test]
fn test_mixed() {
    let result = NamingGenerator::to_snake_case("My-Resource.Name");
    assert_eq!(result, "my_resource_name", "混合パターンを正しく変換するべき");
}

#[test]
fn naming_test_mixed() {
    let result = NamingGenerator::to_kebab_case("My_Resource.Name");
    assert_eq!(result, "my-resource-name", "混合パターンを正しく変換するべき");
}

#[test]
fn test_empty_string() {
    let result = NamingGenerator::to_snake_case("");
    assert_eq!(result, "", "空文字列は空文字列を返すべき");
}

#[test]
fn naming_test_empty_string() {
    let result = NamingGenerator::to_kebab_case("");
    assert_eq!(result, "", "空文字列は空文字列を返すべき");
}

#[test]
fn test_with_underscore() {
    let result = NamingGenerator::to_kebab_case("my_resource_name");
    assert_eq!(result, "my-resource-name", "アンダースコアをハイフンに変換するべき");
}

#[test]
fn test_snake_case() {
    let result = NamingGenerator::apply_naming_convention("my-name", "snake_case");
    assert_eq!(result, "my_name", "snake_case規約を適用するべき");
}

#[test]
fn test_kebab_case() {
    let result = NamingGenerator::apply_naming_convention("my_name", "kebab-case");
    assert_eq!(result, "my-name", "kebab-case規約を適用するべき");
}

#[test]
fn test_original() {
    let result = NamingGenerator::apply_naming_convention("My-Name_Test", "original");
    assert_eq!(result, "My-Name_Test", "original規約では入力をそのまま返すべき");
}

#[test]
fn test_unknown_returns_original() {
    let result = NamingGenerator::apply_naming_convention("My-Name", "unknown");
    assert_eq!(result, "My-Name", "不明な規約では入力をそのまま返すべき");
}

#[test]
fn test_empty_convention() {
    let result = NamingGenerator::apply_naming_convention("My-Name", "");
    assert_eq!(result, "My-Name", "空の規約では入力をそのまま返すべき");
}

#[test]
fn snake_case_is_idempotent_on_example() {
    let once = NamingGenerator::to_snake_case("My-Resource.Name");
    let twice = NamingGenerator::to_snake_case(&once);
    assert_eq!(once, twice);
}

#[test]
fn kebab_case_is_idempotent_on_example() {
    let once = NamingGenerator::to_kebab_case("My_Resource.Name");
    let twice = NamingGenerator::to_kebab_case(&once);
    assert_eq!(once, twice);
}

#[test]
fn snake_and_kebab_interchange_on_example() {
    let snake = NamingGenerator::to_snake_case("a-b.c_D");
    let kebab = NamingGenerator::to_kebab_case("a-b.c_D");
    assert_eq!(NamingGenerator::to_kebab_case(&snake), kebab);
    assert_eq!(NamingGenerator::to_snake_case(&kebab), snake);
    assert!(!snake.contains('-') && !snake.contains('.'));
}

#[test]
fn naming_keeps_non_ascii_letters() {
    assert_eq!(NamingGenerator::to_snake_case("リソース-名"), "リソース_名");
}
