use docnav::codes::{BoundaryDiagnosticCode, DiagnosticCode, ProtocolDiagnosticCode, ReadableWarningDiagnosticCode};
use docnav::details::{DetailFieldType, DiagnosticDetailsError, DiagnosticDetailsRule};
use docnav::json::{JsonNumber, JsonValue};
use std::collections::BTreeSet;

#[test]
fn diagnostic_code_rules_cover_each_variant() {
    let codes = DiagnosticCode::all();
    assert!(codes.contains(&DiagnosticCode::Protocol(ProtocolDiagnosticCode::InvalidRequest)));
    assert!(codes.contains(&DiagnosticCode::ReadableWarning(ReadableWarningDiagnosticCode::CliArgvIgnored)));
    assert!(codes.contains(&DiagnosticCode::Boundary(BoundaryDiagnosticCode::RequestSchemaValidationFailed)));

    let mut names = BTreeSet::new();
    for code in codes {
        assert!(!code.as_str().is_empty());
        assert!(names.insert(code.as_str()), "duplicate code {}", code.as_str());
        assert!(!code.details_rule().fields().is_empty(), "{code:?}");
        let projection = code.projection_rule();
        assert!(projection.stderr || projection.protocol_code.is_some() || projection.readable_warning_id.is_some());
        let _ = code.category();
        let _ = code.default_severity();
        let _ = code.default_effect();
    }
}

fn value_for(kind: DetailFieldType) -> JsonValue {
    match kind {
        DetailFieldType::String => JsonValue::String("value".to_string()),
        DetailFieldType::StringArray => JsonValue::Array(vec![JsonValue::String("value".to_string())]),
        DetailFieldType::Boolean => JsonValue::Bool(true),
        DetailFieldType::U32 => JsonValue::Number(JsonNumber::PosInt(1)),
        DetailFieldType::I32 => JsonValue::Number(JsonNumber::NegInt(-1)),
        DetailFieldType::Object => JsonValue::Object(vec![]),
        DetailFieldType::ObjectArray => JsonValue::Array(vec![JsonValue::Object(vec![])]),
        DetailFieldType::Any => JsonValue::Object(vec![("any".to_string(), JsonValue::Bool(true))]),
    }
}

fn wrong_value_for(kind: DetailFieldType) -> JsonValue {
    match kind {
        DetailFieldType::String => JsonValue::Number(JsonNumber::PosInt(1)),
        DetailFieldType::StringArray => JsonValue::String("value".to_string()),
        DetailFieldType::Boolean => JsonValue::String("true".to_string()),
        DetailFieldType::U32 => JsonValue::Number(JsonNumber::NegInt(-1)),
        DetailFieldType::I32 => JsonValue::String("1".to_string()),
        DetailFieldType::Object => JsonValue::String("object".to_string()),
        DetailFieldType::ObjectArray => JsonValue::String("objects".to_string()),
        DetailFieldType::Any => JsonValue::Null,
    }
}

fn valid_details_for(rule: &DiagnosticDetailsRule) -> Vec<(String, JsonValue)> {
    rule.fields()
        .iter()
        .filter(|field| field.required)
        .map(|field| (field.name.to_string(), value_for(field.kind)))
        .collect()
}

fn without(members: &[(String, JsonValue)], name: &str) -> Vec<(String, JsonValue)> {
    members.iter().filter(|(k, _)| k != name).map(|(k, v)| (k.clone(), clone_json(v))).collect()
}

fn clone_json(v: &JsonValue) -> JsonValue {
    match v {
        JsonValue::Null => JsonValue::Null,
        JsonValue::Bool(b) => JsonValue::Bool(*b),
        JsonValue::Number(n) => JsonValue::Number(n.clone()),
        JsonValue::String(s) => JsonValue::String(s.clone()),
        JsonValue::Array(items) => JsonValue::Array(items.iter().map(clone_json).collect()),
        JsonValue::Object(m) => JsonValue::Object(m.iter().map(|(k, v)| (k.clone(), clone_json(v))).collect()),
    }
}

fn with_member(members: &[(String, JsonValue)], name: &str, value: JsonValue) -> Vec<(String, JsonValue)> {
    let mut out = without(members, name);
    out.push((name.to_string(), value));
    out
}

#[test]
fn detail_rules_reject_missing_wrong_and_extra_fields_for_each_code() {
    for code in DiagnosticCode::all() {
        let rule = code.details_rule();
        let required = *rule
            .fields()
            .iter()
            .find(|field| field.required)
            .expect("each diagnostic code has at least one required details field");
        let valid = valid_details_for(&rule);
        assert!(rule.validate_value(&JsonValue::Object(without(&valid, "\u{0}"))).is_ok(), "{code:?}");

        let missing = without(&valid, required.name);
        assert!(
            matches!(
                rule.validate_value(&JsonValue::Object(missing)),
                Err(DiagnosticDetailsError::MissingField { field }) if field == required.name
            ),
            "{code:?}"
        );

        if required.kind != DetailFieldType::Any {
            let wrong = with_member(&valid, required.name, wrong_value_for(required.kind));
            assert!(
                matches!(
                    rule.validate_value(&JsonValue::Object(wrong)),
                    Err(DiagnosticDetailsError::WrongType { field, expected })
                        if field == required.name && expected == required.kind
                ),
                "{code:?}"
            );
        }

        let extra = with_member(&valid, "extra", JsonValue::Bool(true));
        assert!(
            matches!(
                rule.validate_value(&JsonValue::Object(extra)),
                Err(DiagnosticDetailsError::ExtraField { field }) if field == "extra"
            ),
            "{code:?}"
        );
    }
}

#[test]
fn invalid_request_details_accept_known_optional_context_fields() {
    let rule = DiagnosticCode::Protocol(ProtocolDiagnosticCode::InvalidRequest).details_rule();
    let s = |v: &str| JsonValue::String(v.to_string());
    let valid = JsonValue::Object(vec![
        ("field".to_string(), s("defaults.output")),
        ("reason".to_string(), s("invalid output mode")),
        ("path".to_string(), s(".docnav/docnav.json")),
        ("received".to_string(), s("text")),
        ("accepted".to_string(), JsonValue::Array(vec![s("readable-view"), s("readable-json"), s("protocol-json")])),
    ]);
    assert!(rule.validate_value(&valid).is_ok());

    let wrong_accepted = JsonValue::Object(vec![
        ("field".to_string(), s("defaults.output")),
        ("reason".to_string(), s("invalid output mode")),
        ("accepted".to_string(), s("readable-view")),
    ]);
    assert!(matches!(
        rule.validate_value(&wrong_accepted),
        Err(DiagnosticDetailsError::WrongType { field, expected })
            if field == "accepted" && expected == DetailFieldType::StringArray
    ));
}

#[test]
fn protocol_codes_roundtrip_and_required_names() {
    assert_eq!(ProtocolDiagnosticCode::InvalidRequest.protocol_code(), "INVALID_REQUEST");
    assert_eq!(
        ProtocolDiagnosticCode::from_protocol_code("REF_AMBIGUOUS"),
        Some(ProtocolDiagnosticCode::RefAmbiguous)
    );
    assert_eq!(ProtocolDiagnosticCode::from_protocol_code("NOPE"), None);
    assert_eq!(ProtocolDiagnosticCode::InvalidRequest.required_detail_names(), vec!["field", "reason"]);
    assert_eq!(ProtocolDiagnosticCode::RefAmbiguous.required_detail_names(), vec!["ref", "candidate_count"]);
    assert!(!ProtocolDiagnosticCode::RefAmbiguous.details_rule().allows_extra_fields());
    assert_eq!(DetailFieldType::StringArray.as_str(), "array<string>");
    assert!(!BoundaryDiagnosticCode::FailedToWriteJson.as_str().is_empty());
}

#[test]
fn non_object_details_are_refused() {
    let rule = DiagnosticCode::Protocol(ProtocolDiagnosticCode::RefNotFound).details_rule();
    assert_eq!(rule.validate_value(&JsonValue::Null), Err(DiagnosticDetailsError::NotAnObject));
}

#[test]
fn code_texts_are_distinct_and_non_empty() {
    let codes = DiagnosticCode::all();
    for (i, a) in codes.iter().enumerate() {
        assert!(!a.as_str().is_empty());
        for b in codes.iter().skip(i + 1) {
            assert_ne!(a.as_str(), b.as_str());
        }
    }
}

#[test]
fn extra_fields_are_reported_least_key_first() {
    let rule = DiagnosticCode::Protocol(ProtocolDiagnosticCode::DocumentNotFound).details_rule();
    let value = JsonValue::Object(vec![
        ("zeta".to_string(), JsonValue::Null),
        ("path".to_string(), JsonValue::String("doc.md".to_string())),
        ("beta".to_string(), JsonValue::Null),
    ]);
    assert_eq!(
        rule.validate_value(&value),
        Err(DiagnosticDetailsError::ExtraField { field: "beta".to_string() })
    );
}
