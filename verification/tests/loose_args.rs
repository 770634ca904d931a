use docnav::direct::flags::{collect_boundary_args, collect_loose_args, ArgContext};
use docnav::direct::request::{arguments_match_operation, operation_request, OperationArguments, OperationRequest};
use docnav::direct::options::parse_operation_options;
use docnav::error::Operation;
use docnav::warning::CLI_ARGV_IGNORED;

fn args(values: &[&str]) -> Vec<String> {
    values.iter().map(|value| value.to_string()).collect()
}

#[test]
fn lenient_scan_turns_set_aside_arguments_into_warnings() {
    let (retained, warnings) =
        collect_loose_args(ArgContext::Operation(Operation::Info), &args(&["--future", "doc.md", "extra", "--limit", "5"]), &[])
            .unwrap();
    assert_eq!(retained, vec!["doc.md".to_string()]);
    assert_eq!(warnings.len(), 3);
    assert!(warnings.iter().all(|w| w.code() == CLI_ARGV_IGNORED));
    assert_eq!(warnings[0].reason(), "unknown CLI flag ignored");
    assert_eq!(warnings[1].reason(), "extra positional argument ignored");
    assert_eq!(warnings[2].reason(), "flag is not used by info command");
}

#[test]
fn lenient_scan_reports_missing_values() {
    assert_eq!(
        collect_loose_args(ArgContext::Probe, &args(&["doc.md", "--output"]), &[]).unwrap_err(),
        "--output requires a value"
    );
}

#[test]
fn strict_scan_keeps_used_flags_and_values() {
    assert_eq!(
        collect_boundary_args(ArgContext::Operation(Operation::Read), &args(&["doc.md", "--ref", "L1"]), &[]).unwrap(),
        args(&["doc.md", "--ref", "L1"])
    );
    assert_eq!(
        collect_boundary_args(ArgContext::ProtocolOnly { command: "manifest" }, &args(&["--page", "2"]), &[]).unwrap_err(),
        "--page 2 is not used by manifest command"
    );
}

#[test]
fn operation_requests_carry_the_operation_arguments() {
    let options = parse_operation_options(Operation::Read, &args(&["doc.md", "--ref", "L1", "--page", "3"]), &[], 6000).unwrap();
    let request = operation_request(Operation::Read, options, "1.0", "req-1").unwrap();
    assert_eq!(request.path, "doc.md");
    assert_eq!(request.request_id, "req-1");
    assert_eq!(request.protocol_version, "1.0");
    assert_eq!(
        request.arguments,
        OperationArguments::Read { ref_id: "L1".to_string(), limit: 6000, page: 3, options: None }
    );

    let options = parse_operation_options(Operation::Outline, &args(&["doc.md"]), &[], 6000).unwrap();
    let request = operation_request(Operation::Find, options, "1.0", "req-2");
    assert_eq!(request.unwrap_err(), "find requires --query <text>");
}

#[test]
fn requests_are_checked_for_arguments_of_their_operation() {
    let request = OperationRequest {
        protocol_version: "1.0".to_string(),
        request_id: "req-3".to_string(),
        operation: Operation::Outline,
        path: "doc.md".to_string(),
        arguments: OperationArguments::Outline { limit: 10, page: 1, options: None },
    };
    assert!(arguments_match_operation(&request));
    let mismatched = OperationRequest { arguments: OperationArguments::Info { options: None }, ..request };
    assert!(!arguments_match_operation(&mismatched));
}
