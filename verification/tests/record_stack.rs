use docnav::codes::{BoundaryDiagnosticCode, DiagnosticCode, DiagnosticEffect, DiagnosticSeverity, ProtocolDiagnosticCode};
use docnav::payload::{BoundaryDetails, DiagnosticDetails, FieldReasonDetails};
use docnav::record::{DiagnosticRecordDraft, DiagnosticRecordError, DiagnosticSource};
use docnav::stack::DiagnosticStack;
use docnav::typed_codes::boundary::FailedToWriteJson;
use docnav::typed_codes::protocol::InvalidRequest;

fn check_record_validation() {
    let draft = DiagnosticRecordDraft::new::<InvalidRequest>(
        "invalid input",
        FieldReasonDetails::new("argv", "unknown argument --future"),
        DiagnosticSource::with_stage("docnav", "argv"),
    );
    let mut stack = DiagnosticStack::new();
    let id = stack.push(draft).unwrap();
    let record = stack.get(id).unwrap();

    assert_eq!(record.code(), DiagnosticCode::Protocol(ProtocolDiagnosticCode::InvalidRequest));
    assert_eq!(record.severity(), DiagnosticSeverity::Error);
    assert_eq!(record.effect(), DiagnosticEffect::InputRejected);
    assert!(record.guidance().is_none());
    assert!(!record.recoverable());

    let invalid = DiagnosticRecordDraft::from_erased_for_test(
        DiagnosticCode::Protocol(ProtocolDiagnosticCode::InvalidRequest),
        "invalid request",
        DiagnosticDetails::Path { path: "wrong-shape".to_string() },
        DiagnosticSource::new("protocol"),
    );
    assert!(matches!(stack.push(invalid), Err(DiagnosticRecordError::InvalidDetails(_))));
}

#[test]
fn tests_diagnostic_record_validates_details_and_uses_code_defaults() {
    check_record_validation();
}

#[test]
fn record_stack_diagnostic_record_validates_details_and_uses_code_defaults() {
    check_record_validation();
}

fn invalid_request_draft(summary: &str, token: &str) -> DiagnosticRecordDraft {
    DiagnosticRecordDraft::new::<InvalidRequest>(
        summary,
        FieldReasonDetails::new("argv", &format!("unexpected token {token}")),
        DiagnosticSource::new("test"),
    )
}

fn boundary_draft(summary: &str) -> DiagnosticRecordDraft {
    DiagnosticRecordDraft::new::<FailedToWriteJson>(summary, BoundaryDetails::new("stdout closed"), DiagnosticSource::new("test"))
}

fn check_lifo() {
    let mut stack = DiagnosticStack::new();
    let first = stack.push(invalid_request_draft("invalid argv", "--future")).unwrap();
    let mark = stack.mark();
    let second = stack.push(boundary_draft("config failed")).unwrap();
    let third = stack.push(boundary_draft("candidate failed")).unwrap();

    assert_eq!(stack.peek_recent().unwrap().id(), third);
    assert_eq!(stack.snapshot()[0].id(), third);
    assert_eq!(stack.snapshot()[1].id(), second);
    assert_eq!(stack.snapshot()[2].id(), first);

    let drained = stack.drain_after(mark);
    assert_eq!(drained.iter().map(|record| record.id()).collect::<Vec<_>>(), vec![third, second]);
    assert_eq!(stack.len(), 1);
    assert!(stack.get(first).is_some());
}

#[test]
fn tests_diagnostic_stack_id_mark_drain_and_snapshot_are_lifo() {
    check_lifo();
}

#[test]
fn record_stack_diagnostic_stack_id_mark_drain_and_snapshot_are_lifo() {
    check_lifo();
}

fn check_drain_after_event() {
    let mut stack = DiagnosticStack::new();
    let first = stack.push(invalid_request_draft("first", "--one")).unwrap();
    let anchor = stack.push(invalid_request_draft("anchor", "--two")).unwrap();
    let after = stack.push(invalid_request_draft("after", "--three")).unwrap();

    let drained = stack.drain_after_event(anchor, false);
    assert_eq!(drained.iter().map(|record| record.id()).collect::<Vec<_>>(), vec![after]);
    assert!(stack.get(first).is_some());
    assert!(stack.get(anchor).is_some());

    let later = stack.push(invalid_request_draft("later", "--four")).unwrap();
    let drained = stack.drain_after_event(anchor, true);
    assert_eq!(drained.iter().map(|record| record.id()).collect::<Vec<_>>(), vec![later, anchor]);
    assert!(stack.get(first).is_some());
    assert!(stack.get(anchor).is_none());
}

#[test]
fn tests_diagnostic_stack_drains_after_event_with_optional_anchor() {
    check_drain_after_event();
}

#[test]
fn record_stack_diagnostic_stack_drains_after_event_with_optional_anchor() {
    check_drain_after_event();
}

#[test]
fn empty_summary_is_refused_and_still_uses_an_id() {
    let mut stack = DiagnosticStack::new();
    assert_eq!(stack.push(boundary_draft("")), Err(DiagnosticRecordError::EmptySummary));
    let id = stack.push(boundary_draft("written")).unwrap();
    assert_eq!(id.get(), 1);
    assert_eq!(stack.len(), 1);
    assert!(!stack.is_empty());
}

#[test]
fn pop_recent_removes_newest_and_unknown_anchor_drains_nothing() {
    let mut stack = DiagnosticStack::new();
    let first = stack.push(boundary_draft("one")).unwrap();
    let second = stack.push(boundary_draft("two")).unwrap();
    assert_eq!(stack.pop_recent().unwrap().id(), second);
    assert!(stack.drain_after_event(second, true).is_empty());
    assert_eq!(stack.len(), 1);
    assert_eq!(stack.peek_recent().unwrap().id(), first);
    assert!(stack.pop_recent().is_some());
    assert!(stack.pop_recent().is_none());
    assert!(stack.is_empty());
}

#[test]
fn draft_builders_set_their_fields() {
    let draft = boundary_draft("x")
        .with_severity(DiagnosticSeverity::Warning)
        .with_effect(DiagnosticEffect::CandidateSkipped)
        .with_guidance(vec!["retry".to_string()]);
    assert_eq!(draft.severity, DiagnosticSeverity::Warning);
    assert_eq!(draft.effect, DiagnosticEffect::CandidateSkipped);
    assert!(draft.recoverable);
    assert_eq!(draft.guidance, Some(vec!["retry".to_string()]));
    let draft = draft.recoverable(false);
    assert!(!draft.recoverable);
    assert_eq!(draft.code, DiagnosticCode::Boundary(BoundaryDiagnosticCode::FailedToWriteJson));
    assert_eq!(draft.severity, DiagnosticSeverity::Warning);
}

#[test]
fn push_ids_count_every_push_since_new() {
    let mut stack = DiagnosticStack::new();
    let first = stack
        .push(DiagnosticRecordDraft::new::<InvalidRequest>(
            "first",
            FieldReasonDetails::new("argv", "first"),
            DiagnosticSource::new("test"),
        ))
        .unwrap();
    assert_eq!(first.get(), 0);
    let refused = DiagnosticRecordDraft::from_erased_for_test(
        DiagnosticCode::Protocol(ProtocolDiagnosticCode::InvalidRequest),
        "refused",
        DiagnosticDetails::Path { path: "wrong-shape".to_string() },
        DiagnosticSource::new("test"),
    );
    assert!(stack.push(refused).is_err());
    let third = stack
        .push(DiagnosticRecordDraft::new::<InvalidRequest>(
            "third",
            FieldReasonDetails::new("argv", "third"),
            DiagnosticSource::new("test"),
        ))
        .unwrap();
    assert_eq!(third.get(), 2);
    assert_eq!(stack.len(), 2);
}
