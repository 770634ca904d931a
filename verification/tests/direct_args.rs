use docnav::direct::native_options::{NativeOptionDefault, NativeOptionSpec, NativeOptionValueSpec};
use docnav::direct::options::{parse_operation_options, parse_probe, parse_protocol_only_options, DirectOperationOptions};
use docnav::direct::output_mode::{parse_output, DirectOutputMode};
use docnav::error::Operation;
use docnav::json::{JsonNumber, JsonValue};

const MAX_HEADING_LEVEL_OPERATIONS: &[Operation] = &[Operation::Outline, Operation::Find];
const MAX_HEADING_LEVEL: NativeOptionSpec = NativeOptionSpec {
    flag: "--max-heading-level",
    option_key: "max_heading_level",
    operations: MAX_HEADING_LEVEL_OPERATIONS,
    value: NativeOptionValueSpec::IntegerRange { min: 1, max: 6 },
    default: Some(NativeOptionDefault::Integer(3)),
};

fn args(values: &[&str]) -> Vec<String> {
    values.iter().map(|value| value.to_string()).collect()
}

fn parse_for_test(
    operation: Operation,
    values: &[&str],
    default_limit: u32,
    native_options: &[NativeOptionSpec],
) -> Result<DirectOperationOptions, String> {
    parse_operation_options(operation, &args(values), native_options, default_limit)
}

#[test]
fn unknown_flag_does_not_consume_following_positional() {
    let error = parse_for_test(Operation::Outline, &["--future", "doc.md"], 6000, &[])
        .expect_err("unknown flag must fail");
    assert!(error.contains("unknown argument --future"));
}

#[test]
fn unknown_flag_with_equals_is_one_rejected_token() {
    let error = parse_for_test(Operation::Outline, &["--future=value", "doc.md"], 6000, &[])
        .expect_err("unknown flag must fail");
    assert!(error.contains("unknown argument --future=value"));
}

#[test]
fn extra_positional_fails_after_path_slot_is_filled() {
    let error = parse_for_test(Operation::Outline, &["doc.md", "extra"], 6000, &[])
        .expect_err("extra positional must fail");
    assert!(error.contains("extra positional argument extra"));
}

#[test]
fn operation_only_validates_flags_it_uses() {
    let read_error = parse_for_test(
        Operation::Read,
        &["doc.md", "--ref", "L1:Guide", "--max-heading-level", "nope"],
        6000,
        &[MAX_HEADING_LEVEL],
    )
    .expect_err("unused native value must fail");
    assert!(read_error.contains("--max-heading-level nope is not used by read command"));

    let info_error = parse_for_test(Operation::Info, &["doc.md", "--limit", "nope"], 6000, &[])
        .expect_err("unused core value must fail");
    assert!(info_error.contains("--limit nope is not used by info command"));
}

#[test]
fn unused_value_flag_consumes_value_that_looks_like_flag() {
    let error = parse_for_test(
        Operation::Read,
        &["doc.md", "--ref", "L1:Guide", "--query", "--future-value"],
        6000,
        &[],
    )
    .expect_err("unused query flag must fail");
    assert!(error.contains("--query --future-value is not used by read command"));
}

#[test]
fn used_value_flag_accepts_value_that_looks_like_flag() {
    let options = parse_for_test(Operation::Read, &["doc.md", "--ref", "--future-value"], 6000, &[])
        .expect("parse options");
    assert_eq!(options.ref_id.as_deref(), Some("--future-value"));
}

#[test]
fn protocol_only_command_fails_on_unknown_argv() {
    let error = parse_protocol_only_options(
        "manifest",
        &args(&["--future", "extra", "--output", "protocol-json"]),
        &[],
    )
    .expect_err("protocol-only unknown flag must fail");
    assert!(error.contains("unknown argument --future"));
}

#[test]
fn probe_path_can_follow_unknown_flag() {
    let error = parse_probe(&args(&["--future", "doc.md", "--output", "protocol-json"]), &[])
        .expect_err("probe unknown flag must fail");
    assert!(error.contains("unknown argument --future"));
}

#[test]
fn operation_defaults_fill_page_limit_output_and_native_options() {
    let options = parse_for_test(Operation::Outline, &["doc.md"], 6000, &[MAX_HEADING_LEVEL])
        .expect("parse options");
    assert_eq!(options.path, "doc.md");
    assert_eq!(options.page, 1);
    assert_eq!(options.limit, 6000);
    assert_eq!(options.output, DirectOutputMode::ReadableView);
    assert_eq!(options.ref_id, None);
    assert_eq!(options.query, None);
    assert_eq!(
        options.native_options,
        vec![("max_heading_level".to_string(), JsonValue::Number(JsonNumber::PosInt(3)))]
    );
    assert!(options.protocol_options().is_some());
}

#[test]
fn given_values_override_defaults() {
    let options = parse_for_test(
        Operation::Find,
        &["--query=needle", "doc.md", "--page", "2", "--limit=40", "--output", "readable-json", "--max-heading-level", "5"],
        6000,
        &[MAX_HEADING_LEVEL],
    )
    .expect("parse options");
    assert_eq!(options.page, 2);
    assert_eq!(options.limit, 40);
    assert_eq!(options.output, DirectOutputMode::ReadableJson);
    assert_eq!(options.query.as_deref(), Some("needle"));
    assert_eq!(
        options.native_options,
        vec![("max_heading_level".to_string(), JsonValue::Number(JsonNumber::PosInt(5)))]
    );
}

#[test]
fn info_uses_first_page_and_default_limit() {
    let options = parse_for_test(Operation::Info, &["doc.md"], 250, &[MAX_HEADING_LEVEL]).expect("parse options");
    assert_eq!(options.page, 1);
    assert_eq!(options.limit, 250);
    assert!(options.native_options.is_empty());
    assert!(options.protocol_options().is_none());
}

#[test]
fn missing_path_and_required_flags_are_reported() {
    assert_eq!(parse_for_test(Operation::Outline, &[], 6000, &[]).unwrap_err(), "outline requires <path>");
    assert_eq!(parse_for_test(Operation::Read, &["doc.md"], 6000, &[]).unwrap_err(), "read requires --ref <ref>");
    assert_eq!(parse_for_test(Operation::Find, &["doc.md"], 6000, &[]).unwrap_err(), "find requires --query <text>");
}

#[test]
fn invalid_values_of_used_flags_are_reported() {
    assert_eq!(
        parse_for_test(Operation::Outline, &["doc.md", "--page", "zero"], 6000, &[]).unwrap_err(),
        "--page must be a positive integer"
    );
    assert_eq!(
        parse_for_test(Operation::Outline, &["doc.md", "--page", "0"], 6000, &[]).unwrap_err(),
        "--page must be a positive integer"
    );
    assert_eq!(
        parse_for_test(Operation::Outline, &["doc.md", "--max-heading-level", "9"], 6000, &[MAX_HEADING_LEVEL]).unwrap_err(),
        "--max-heading-level must be an integer from 1 to 6"
    );
    assert_eq!(
        parse_for_test(Operation::Outline, &["doc.md", "--output", "text"], 6000, &[]).unwrap_err(),
        "invalid --output \"text\""
    );
    assert_eq!(
        parse_for_test(Operation::Outline, &["doc.md", "--page"], 6000, &[]).unwrap_err(),
        "--page requires a value"
    );
}

#[test]
fn probe_and_protocol_only_commands_accept_protocol_output() {
    assert_eq!(parse_probe(&args(&["doc.md", "--output", "protocol-json"]), &[]).unwrap(), "doc.md");
    assert_eq!(parse_probe(&args(&[]), &[]).unwrap_err(), "probe requires <path>");
    assert!(parse_protocol_only_options("manifest", &args(&["--output=protocol-json"]), &[]).is_ok());
    assert_eq!(
        parse_protocol_only_options("manifest", &args(&["--output", "readable-view"]), &[]).unwrap_err(),
        "only --output protocol-json is supported for this command"
    );
    assert_eq!(
        parse_protocol_only_options("manifest", &args(&["doc.md"]), &[]).unwrap_err(),
        "extra positional argument doc.md"
    );
}

#[test]
fn output_modes_parse_by_name() {
    assert_eq!(parse_output("readable-view"), Ok(DirectOutputMode::ReadableView));
    assert_eq!(parse_output("readable-json"), Ok(DirectOutputMode::ReadableJson));
    assert_eq!(parse_output("protocol-json"), Ok(DirectOutputMode::ProtocolJson));
    assert_eq!(parse_output("nope"), Err("invalid --output \"nope\"".to_string()));
}

#[test]
fn native_option_values_are_range_checked() {
    assert_eq!(MAX_HEADING_LEVEL.parse_value("4"), Ok(JsonValue::Number(JsonNumber::PosInt(4))));
    assert_eq!(MAX_HEADING_LEVEL.parse_value("+2"), Ok(JsonValue::Number(JsonNumber::PosInt(2))));
    assert_eq!(
        MAX_HEADING_LEVEL.parse_value("0"),
        Err("--max-heading-level must be an integer from 1 to 6".to_string())
    );
    assert!(MAX_HEADING_LEVEL.parse_value("").is_err());
    assert!(MAX_HEADING_LEVEL.supports(Operation::Find));
    assert!(!MAX_HEADING_LEVEL.supports(Operation::Read));
}
