use cs_ts::generator::TypescriptGenerator;

#[test]
fn test_to_pascal_case_snake_case() {
    let generator = TypescriptGenerator::new(None, None);
    assert_eq!(generator.to_pascal_case("snake_case"), "SnakeCase");
    assert_eq!(generator.to_pascal_case("user_profile"), "UserProfile");
    assert_eq!(generator.to_pascal_case("api_key_config"), "ApiKeyConfig");
}

#[test]
fn test_to_pascal_case_kebab_case() {
    let generator = TypescriptGenerator::new(None, None);
    assert_eq!(generator.to_pascal_case("kebab-case"), "KebabCase");
    assert_eq!(generator.to_pascal_case("user-profile"), "UserProfile");
    assert_eq!(generator.to_pascal_case("api-key-config"), "ApiKeyConfig");
}

#[test]
fn test_to_pascal_case_space_separated() {
    let generator = TypescriptGenerator::new(None, None);
    assert_eq!(generator.to_pascal_case("space case"), "SpaceCase");
    assert_eq!(generator.to_pascal_case("user profile"), "UserProfile");
    assert_eq!(generator.to_pascal_case("api key config"), "ApiKeyConfig");
}

#[test]
fn test_to_pascal_case_mixed_separators() {
    let generator = TypescriptGenerator::new(None, None);
    assert_eq!(generator.to_pascal_case("mixed-case_test"), "MixedCaseTest");
    assert_eq!(
        generator.to_pascal_case("api-key_config test"),
        "ApiKeyConfigTest"
    );
}

#[test]
fn test_to_pascal_case_single_word() {
    let generator = TypescriptGenerator::new(None, None);
    assert_eq!(generator.to_pascal_case("user"), "User");
    assert_eq!(generator.to_pascal_case("test"), "Test");
    assert_eq!(generator.to_pascal_case("API"), "Api");
}

#[test]
fn test_to_pascal_case_empty_string() {
    let generator = TypescriptGenerator::new(None, None);
    assert_eq!(generator.to_pascal_case(""), "");
}

#[test]
fn test_to_pascal_case_multiple_separators() {
    let generator = TypescriptGenerator::new(None, None);
    assert_eq!(generator.to_pascal_case("test__case"), "TestCase");
    assert_eq!(generator.to_pascal_case("test--case"), "TestCase");
    assert_eq!(generator.to_pascal_case("test  case"), "TestCase");
}

#[test]
fn test_to_pascal_case_leading_trailing_separators() {
    let generator = TypescriptGenerator::new(None, None);
    assert_eq!(generator.to_pascal_case("_test_case_"), "TestCase");
    assert_eq!(generator.to_pascal_case("-test-case-"), "TestCase");
    assert_eq!(generator.to_pascal_case(" test case "), "TestCase");
}

#[test]
fn normalize_treats_every_separator_alike() {
    assert_eq!(cs_ts::naming::normalize("a-b_c d"), "ABCD");
    assert_eq!(cs_ts::naming::normalize("-_ "), "");
}

#[test]
fn normalize_does_not_keep_inner_capitals() {
    assert_eq!(cs_ts::naming::normalize("apiKey"), "Apikey");
    assert_eq!(cs_ts::naming::normalize("API_KEY"), "ApiKey");
}

#[test]
fn normalize_leaves_a_single_capitalised_word_alone() {
    assert_eq!(cs_ts::naming::normalize("Article"), "Article");
    assert_eq!(
        cs_ts::naming::normalize(&cs_ts::naming::normalize("article")),
        cs_ts::naming::normalize("article")
    );
}

#[test]
fn normalize_is_not_idempotent_on_several_words() {
    assert_eq!(cs_ts::naming::normalize("api_key"), "ApiKey");
    assert_eq!(cs_ts::naming::normalize("ApiKey"), "Apikey");
}

#[test]
fn normalize_splits_at_a_separator() {
    let whole = cs_ts::naming::normalize("blog post_author");
    let parts = format!(
        "{}{}",
        cs_ts::naming::normalize("blog post"),
        cs_ts::naming::normalize("author")
    );
    assert_eq!(whole, parts);
    assert_eq!(whole, "BlogPostAuthor");
}

#[test]
fn normalize_uses_the_full_uppercase_mapping() {
    assert_eq!(cs_ts::naming::normalize("ßa"), "SSa");
    assert_eq!(cs_ts::naming::normalize("éCOLE"), "École");
}
