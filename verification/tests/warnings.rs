use docnav::codes::{DiagnosticEffect, ReadableWarningDiagnosticCode};
use docnav::json::JsonValue;
use docnav::record::DiagnosticSource;
use docnav::stack::DiagnosticStack;
use docnav::warning::{
    attach_warnings_to_value, warning_text_line, WarningProjection, ADAPTER_CANDIDATE_FAILURE,
    ADAPTER_CONFIG_SOURCE_SKIPPED, CLI_ARGV_IGNORED,
};
use docnav::warning_id::WarningId;
use docnav::payload::{CliArgvDetails, FieldReasonDetails};
use docnav::record::DiagnosticRecordDraft;
use docnav::typed_codes::protocol::InvalidRequest;
use docnav::typed_codes::readable_warning::CliArgvIgnored;

fn s(value: &str) -> JsonValue {
    JsonValue::String(value.to_string())
}

fn obj(members: Vec<(&str, JsonValue)>) -> JsonValue {
    JsonValue::Object(members.into_iter().map(|(k, v)| (k.to_string(), v)).collect())
}

fn tokens_json(tokens: &[&str]) -> JsonValue {
    obj(vec![("tokens", JsonValue::Array(tokens.iter().map(|t| s(t)).collect()))])
}

#[test]
fn warning_id_strings_match_serialized_names() {
    assert_eq!(CLI_ARGV_IGNORED.as_str(), "cli_argv_ignored");
}

#[test]
fn warning_projection_ids_come_from_diagnostic_codes() {
    assert_eq!(CLI_ARGV_IGNORED.warning_id(), "cli_argv_ignored");
    assert_eq!(ADAPTER_CANDIDATE_FAILURE.warning_id(), "adapter_candidate_failure");
    assert_eq!(ADAPTER_CONFIG_SOURCE_SKIPPED.warning_id(), "adapter_config_source_skipped");
}

#[test]
fn readable_warning_codes_parse_known_warning_ids() {
    assert_eq!(
        ReadableWarningDiagnosticCode::from_warning_id("cli_argv_ignored"),
        Some(ReadableWarningDiagnosticCode::CliArgvIgnored)
    );
    assert_eq!(
        ReadableWarningDiagnosticCode::from_warning_id("adapter_candidate_failure"),
        Some(ReadableWarningDiagnosticCode::AdapterCandidateFailure)
    );
    assert_eq!(ReadableWarningDiagnosticCode::from_warning_id("adapter_owned"), None);
}

#[test]
fn warning_ids_serialize_as_stable_strings() {
    assert_eq!(WarningId::cli_argv_ignored().as_str(), "cli_argv_ignored");
    assert_eq!(WarningId::adapter_candidate_failure().as_str(), "adapter_candidate_failure");
    assert_eq!(WarningId::adapter_config_source_skipped().as_str(), "adapter_config_source_skipped");
    assert_eq!(WarningId::new("adapter_owned").unwrap().as_str(), "adapter_owned");
    assert!(WarningId::new("AdapterOwned").is_err());
    assert!(WarningId::new("").is_err());
    assert_eq!(WarningId::new("Bad").unwrap_err().message(), "invalid warning id \"Bad\"");
}

fn check_argv_constructor_shape() {
    let warning = WarningProjection::unused_operation_flag("--page", Some("nope"), "info");
    assert_eq!(warning.code(), CLI_ARGV_IGNORED);
    assert_eq!(warning.effect(), DiagnosticEffect::OperationContinued);
    assert_eq!(warning.reason(), "flag is not used by info command");
    assert_eq!(warning.details().to_value(), tokens_json(&["--page", "nope"]));
}

#[test]
fn tests_argv_warning_constructors_keep_existing_shape() {
    check_argv_constructor_shape();
}

#[test]
fn warning_argv_warning_constructors_keep_existing_shape() {
    check_argv_constructor_shape();
}

fn check_candidate_shape() {
    let warning = WarningProjection::adapter_candidate_failure("markdown", "probe", "UNSUPPORTED", "no match", true);
    assert_eq!(warning.code(), ADAPTER_CANDIDATE_FAILURE);
    assert_eq!(warning.effect(), DiagnosticEffect::CandidateSkipped);
    assert_eq!(warning.reason(), "preselected adapter was not used: no match");
    assert_eq!(
        warning.details().to_value(),
        obj(vec![
            ("adapter_id", s("markdown")),
            ("stage", s("probe")),
            ("code", s("UNSUPPORTED")),
            ("preselected", JsonValue::Bool(true)),
        ])
    );
}

#[test]
fn tests_adapter_candidate_warning_keeps_existing_shape() {
    check_candidate_shape();
}

#[test]
fn warning_adapter_candidate_warning_keeps_existing_shape() {
    check_candidate_shape();
}

fn check_config_source_shape() {
    let warning = WarningProjection::adapter_config_source_skipped(
        "project",
        "override",
        "D:\\project\\.docnav\\docnav-markdown.json",
        "invalid_json",
    );
    assert_eq!(warning.code(), ADAPTER_CONFIG_SOURCE_SKIPPED);
    assert_eq!(warning.effect(), DiagnosticEffect::OperationContinued);
    assert_eq!(
        warning.details().to_value(),
        obj(vec![
            ("source_level", s("project")),
            ("path_origin", s("override")),
            ("path", s("D:\\project\\.docnav\\docnav-markdown.json")),
            ("reason_code", s("invalid_json")),
        ])
    );
}

#[test]
fn tests_adapter_config_source_warning_keeps_stable_shape() {
    check_config_source_shape();
}

#[test]
fn warning_adapter_config_source_warning_keeps_stable_shape() {
    check_config_source_shape();
}

fn check_roundtrip() {
    let warnings = vec![
        WarningProjection::cli_argv_ignored(vec!["--future".to_string()], "unknown CLI flag ignored"),
        WarningProjection::adapter_candidate_failure("markdown", "probe", "UNSUPPORTED", "no match", true),
        WarningProjection::adapter_config_source_skipped("project", "override", "missing.json", "missing_override"),
    ];

    for warning in warnings {
        let draft = warning.to_record_draft(DiagnosticSource::with_stage("docnav", "test"));
        let mut stack = DiagnosticStack::new();
        let id = stack.push(draft).unwrap();
        let record = stack.get(id).unwrap();

        assert_eq!(WarningProjection::from_record(record), Some(warning));
    }
}

#[test]
fn tests_known_warnings_roundtrip_through_diagnostic_records() {
    check_roundtrip();
}

#[test]
fn warning_known_warnings_roundtrip_through_diagnostic_records() {
    check_roundtrip();
}

fn check_text_line() {
    let cases = [
        (
            WarningProjection::cli_argv_ignored(vec!["--future".to_string()], "unknown\nCLI flag ignored"),
            "{\"tokens\":[\"--future\"]}",
            "warning: id=cli_argv_ignored, effect=operation_continued, reason=unknown CLI flag ignored, details={\"tokens\":[\"--future\"]}",
        ),
        (
            WarningProjection::adapter_config_source_skipped("project", "override", "missing.json", "missing_override"),
            "{\"source_level\":\"project\",\"path_origin\":\"override\",\"path\":\"missing.json\",\"reason_code\":\"missing_override\"}",
            "warning: id=adapter_config_source_skipped, effect=operation_continued, reason=adapter config source skipped, details={\"source_level\":\"project\",\"path_origin\":\"override\",\"path\":\"missing.json\",\"reason_code\":\"missing_override\"}",
        ),
    ];

    for (warning, details, expected) in cases {
        assert_eq!(warning_text_line(&warning, details), expected);
    }
}

#[test]
fn tests_warning_text_line_matches_stderr_contract() {
    check_text_line();
}

#[test]
fn warning_warning_text_line_matches_stderr_contract() {
    check_text_line();
}

fn check_attach() {
    let warning = WarningProjection::cli_argv_ignored(vec!["--future".to_string()], "test warning");
    let warnings = vec![warning];

    let object = attach_warnings_to_value(obj(vec![("ok", JsonValue::Bool(true))]), &warnings);
    let JsonValue::Object(members) = &object else { panic!("object expected") };
    assert_eq!(members[0], ("ok".to_string(), JsonValue::Bool(true)));
    assert_eq!(members[1].0, "warnings");
    let JsonValue::Array(items) = &members[1].1 else { panic!("array expected") };
    let JsonValue::Object(first) = &items[0] else { panic!("object expected") };
    assert_eq!(first[0], ("id".to_string(), s("cli_argv_ignored")));

    let scalar = attach_warnings_to_value(s("ok"), &warnings);
    let JsonValue::Object(members) = &scalar else { panic!("object expected") };
    assert_eq!(members[0], ("value".to_string(), s("ok")));
    assert_eq!(members[1].0, "warnings");

    let unchanged = attach_warnings_to_value(s("ok"), &Vec::new());
    assert_eq!(unchanged, s("ok"));
}

#[test]
fn tests_attach_warnings_keeps_json_payload_shape() {
    check_attach();
}

#[test]
fn warning_attach_warnings_keeps_json_payload_shape() {
    check_attach();
}

#[test]
fn warning_constructors_keep_tokens_and_reasons() {
    let warning = WarningProjection::unknown_flag("--future");
    assert_eq!(warning.code(), CLI_ARGV_IGNORED);
    assert_eq!(warning.reason(), "unknown CLI flag ignored");
    assert_eq!(warning.effect(), DiagnosticEffect::OperationContinued);
    assert_eq!(warning.details().to_value(), tokens_json(&["--future"]));
    assert_eq!(WarningProjection::extra_positional("extra").reason(), "extra positional argument ignored");
    let warning = WarningProjection::unused_operation_flag("--max-heading-level", Some("3"), "read");
    assert_eq!(warning.reason(), "flag is not used by read command");
    assert_eq!(warning.details().to_value(), tokens_json(&["--max-heading-level", "3"]));
}

#[test]
fn new_warning_refuses_empty_reason() {
    assert!(WarningProjection::new::<CliArgvIgnored>("", CliArgvDetails::new(vec![])).is_err());
    let warning = WarningProjection::new::<CliArgvIgnored>("ok", CliArgvDetails::new(vec!["x".to_string()])).unwrap();
    assert_eq!(warning.reason(), "ok");
    assert_eq!(warning.to_value(), obj(vec![
        ("id", s("cli_argv_ignored")),
        ("reason", s("ok")),
        ("effect", s("operation_continued")),
        ("details", tokens_json(&["x"])),
    ]));
}

#[test]
fn non_warning_records_do_not_read_as_warnings() {
    let mut stack = DiagnosticStack::new();
    let id = stack
        .push(DiagnosticRecordDraft::new::<InvalidRequest>("bad", FieldReasonDetails::new("argv", "x"), DiagnosticSource::new("t")))
        .unwrap();
    assert_eq!(WarningProjection::from_record(stack.get(id).unwrap()), None);
}
