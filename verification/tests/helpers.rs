use quickstart_lib::tools::{
    to_kebab_case, to_snake_case, HelperError, HelperParam, KebabCaseHelper, LowercaseHelper,
    SnakeCaseHelper, TemplateHelper, UppercaseHelper,
};

fn text(value: &str) -> Vec<HelperParam> {
    vec![HelperParam::Text(value.to_string())]
}

#[test]
fn test_lowercase_helper() {
    let result = LowercaseHelper.apply(&text("TEST-PROJECT")).unwrap();
    assert_eq!(result, "test-project");
}

#[test]
fn test_uppercase_helper() {
    let result = UppercaseHelper.apply(&text("test-project")).unwrap();
    assert_eq!(result, "TEST-PROJECT");
}

#[test]
fn test_snake_case_helper() {
    let result = SnakeCaseHelper.apply(&text("TestProject")).unwrap();
    assert_eq!(result, "test_project");
}

#[test]
fn test_kebab_case_helper() {
    let result = KebabCaseHelper.apply(&text("test_project")).unwrap();
    assert_eq!(result, "test-project");
}

#[test]
fn test_helper_missing_param() {
    let none: Vec<HelperParam> = Vec::new();
    assert_eq!(
        LowercaseHelper.apply(&none),
        Err(HelperError::ParamNotFound { helper: "lowercase", index: 0 })
    );
    assert_eq!(
        UppercaseHelper.apply(&none),
        Err(HelperError::ParamNotFound { helper: "uppercase", index: 0 })
    );
    assert_eq!(
        SnakeCaseHelper.apply(&none),
        Err(HelperError::ParamNotFound { helper: "snake_case", index: 0 })
    );
    assert_eq!(
        KebabCaseHelper.apply(&none),
        Err(HelperError::ParamNotFound { helper: "kebab_case", index: 0 })
    );
}

#[test]
fn test_helper_non_string_param() {
    let number = vec![HelperParam::Other];
    assert_eq!(LowercaseHelper.apply(&number).unwrap(), "");
    assert_eq!(UppercaseHelper.apply(&number).unwrap(), "");
    assert_eq!(SnakeCaseHelper.apply(&number).unwrap(), "");
    assert_eq!(KebabCaseHelper.apply(&number).unwrap(), "");
}

#[test]
fn test_to_snake_case_edge_cases() {
    assert_eq!(to_snake_case("").as_str(), "");
    assert_eq!(to_snake_case("Already_Snake").as_str(), "already_snake");
    assert_eq!(to_snake_case("with-dash").as_str(), "with_dash");
    assert_eq!(to_snake_case("with space").as_str(), "with_space");
    assert_eq!(to_snake_case("123ABC").as_str(), "123_a_b_c");
}

#[test]
fn test_to_kebab_case_edge_cases() {
    assert_eq!(to_kebab_case("").as_str(), "");
    assert_eq!(to_kebab_case("Already-Kebab").as_str(), "already-kebab");
    assert_eq!(to_kebab_case("with_underscore").as_str(), "with-underscore");
    assert_eq!(to_kebab_case("with space").as_str(), "with-space");
    assert_eq!(to_kebab_case("123ABC").as_str(), "123-a-b-c");
}

#[test]
fn helper_names_are_the_names_in_templates() {
    assert_eq!(LowercaseHelper.name(), "lowercase");
    assert_eq!(UppercaseHelper.name(), "uppercase");
    assert_eq!(SnakeCaseHelper.name(), "snake_case");
    assert_eq!(KebabCaseHelper.name(), "kebab_case");
}

#[test]
fn adjacent_delimiters_collapse_to_one_separator() {
    assert_eq!(to_snake_case("a - _b"), "a_b");
    assert_eq!(to_kebab_case("a - _b"), "a-b");
    assert_eq!(to_snake_case("__lead"), "_lead");
    assert_eq!(to_kebab_case("trail  "), "trail-");
}

#[test]
fn uppercase_after_a_delimiter_gets_no_second_separator() {
    assert_eq!(to_snake_case("my Project"), "my_project");
    assert_eq!(to_kebab_case("my_Project"), "my-project");
    assert_eq!(to_snake_case("MyHTTPServer"), "my_h_t_t_p_server");
}

#[test]
fn digits_and_punctuation_pass_through() {
    assert_eq!(to_snake_case("v1.2+x"), "v1.2+x");
    assert_eq!(to_kebab_case("a.b/c"), "a.b/c");
}

#[test]
fn first_character_uppercase_gets_no_separator() {
    assert_eq!(to_snake_case("Project"), "project");
    assert_eq!(to_kebab_case("P"), "p");
}

#[test]
fn only_the_first_parameter_counts() {
    let params = vec![
        HelperParam::Text("One".to_string()),
        HelperParam::Text("Two".to_string()),
    ];
    assert_eq!(LowercaseHelper.apply(&params).unwrap(), "one");
    let params = vec![HelperParam::Other, HelperParam::Text("Two".to_string())];
    assert_eq!(UppercaseHelper.apply(&params).unwrap(), "");
}
