use docnav::direct::config_paths::{ConfigPathOrigin, ConfigSourceLevel, ConfigSourcePath};
use docnav::direct::config_source::adapter_config_source_issue;
use docnav::json::{JsonNumber, JsonValue};

fn object(members: Vec<(&str, JsonValue)>) -> JsonValue {
    JsonValue::Object(members.into_iter().map(|(k, v)| (k.to_string(), v)).collect())
}

fn source() -> ConfigSourcePath {
    ConfigSourcePath {
        level: ConfigSourceLevel::Project,
        origin: ConfigPathOrigin::Override,
        path: "project.json".to_string(),
    }
}

fn issue_of(value: &JsonValue) -> Option<(String, String)> {
    adapter_config_source_issue(&source(), Some(value)).map(|d| {
        assert_eq!(d.source_level, "project");
        assert_eq!(d.path_origin, "override");
        assert_eq!(d.path, "project.json");
        (d.field.expect("issue names a field"), d.reason_code)
    })
}

fn number(n: u64) -> JsonValue {
    JsonValue::Number(JsonNumber::PosInt(n))
}

#[test]
fn well_formed_config_has_no_issue() {
    let value = object(vec![
        (
            "defaults",
            object(vec![
                ("output", JsonValue::String("text".to_string())),
                ("pagination", object(vec![("enabled", JsonValue::Bool(true)), ("limit", number(300))])),
            ]),
        ),
        ("options", object(vec![("max_heading_level", number(3))])),
    ]);
    assert_eq!(issue_of(&value), None);
    assert_eq!(issue_of(&object(vec![])), None);
}

#[test]
fn missing_or_non_object_content_is_not_a_shape_issue() {
    assert!(adapter_config_source_issue(&source(), None).is_none());
    assert_eq!(issue_of(&JsonValue::Array(vec![])), None);
    assert_eq!(issue_of(&JsonValue::Null), None);
}

#[test]
fn unknown_top_level_key_is_reported_in_key_order() {
    let value = object(vec![("zeta", JsonValue::Null), ("alpha", JsonValue::Null), ("defaults", number(1))]);
    assert_eq!(issue_of(&value), Some(("alpha".to_string(), "unknown_config_field".to_string())));
}

#[test]
fn legacy_defaults_limit_is_an_unknown_field() {
    let value = object(vec![("defaults", object(vec![("limit", number(200))]))]);
    assert_eq!(issue_of(&value), Some(("defaults.limit".to_string(), "unknown_config_field".to_string())));
}

#[test]
fn non_object_sections_are_invalid_fields() {
    let defaults = object(vec![("defaults", JsonValue::String("x".to_string()))]);
    assert_eq!(issue_of(&defaults), Some(("defaults".to_string(), "invalid_config_field".to_string())));

    let pagination = object(vec![("defaults", object(vec![("pagination", number(5))]))]);
    assert_eq!(issue_of(&pagination), Some(("defaults.pagination".to_string(), "invalid_config_field".to_string())));

    let options = object(vec![("options", JsonValue::Bool(false))]);
    assert_eq!(issue_of(&options), Some(("options".to_string(), "invalid_config_field".to_string())));
}

#[test]
fn unknown_pagination_key_is_reported_with_its_path() {
    let value = object(vec![("defaults", object(vec![("pagination", object(vec![("size", number(5))]))]))]);
    assert_eq!(issue_of(&value), Some(("defaults.pagination.size".to_string(), "unknown_config_field".to_string())));
}

#[test]
fn defaults_issue_comes_before_options_issue() {
    let value = object(vec![("options", number(1)), ("defaults", number(2))]);
    assert_eq!(issue_of(&value), Some(("defaults".to_string(), "invalid_config_field".to_string())));
}

#[test]
fn user_level_default_origin_is_named_in_details() {
    let user = ConfigSourcePath {
        level: ConfigSourceLevel::User,
        origin: ConfigPathOrigin::Default,
        path: "user.json".to_string(),
    };
    let value = object(vec![("extra", JsonValue::Null)]);
    let details = adapter_config_source_issue(&user, Some(&value)).expect("issue");
    assert_eq!(details.source_level, "user");
    assert_eq!(details.path_origin, "default");
    assert_eq!(details.path, "user.json");
    assert_eq!(details.field.as_deref(), Some("extra"));
}
