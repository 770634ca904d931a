//! How a refused direct operation is reported: the output mode the user
//! asked for, and the invalid-request error made from the message.

use vstd::prelude::*;

use crate::cli_args::strings_view;
use crate::direct::output_mode::DirectOutputMode;
use crate::error::{category_exit_code, normalized, sdk_source, AdapterError};
use crate::codes::{DiagnosticCode, ProtocolDiagnosticCode};
use crate::json::JsonModel;
use crate::markers::DiagnosticDetailsPayload;
use crate::payload::{DiagnosticDetails, FieldReasonDetails};
use crate::record::{effect_is_recoverable, DiagnosticRecordDraft, DiagnosticSource};
use crate::text::{starts_with, text_eq, text_starts_with};
use crate::typed_codes::protocol::InvalidRequest;

verus! {

/// The output mode a value names; anything unknown reads as readable-view.
pub open spec fn output_mode_from_text(value: Seq<char>) -> DirectOutputMode {
    if value == "readable-json"@ {
        DirectOutputMode::ReadableJson
    } else if value == "protocol-json"@ {
        DirectOutputMode::ProtocolJson
    } else {
        DirectOutputMode::ReadableView
    }
}

/// The output mode the arguments ask for, from position `i` on: the first
/// `--output=<mode>` or `--output <mode>`, else readable-view.
pub open spec fn requested_output_from(args: Seq<Seq<char>>, i: int) -> DirectOutputMode
    decreases args.len() - i,
{
    if i < 0 || i >= args.len() {
        DirectOutputMode::ReadableView
    } else if starts_with(args[i], "--output="@) {
        output_mode_from_text(args[i].skip(9))
    } else if args[i] == "--output"@ {
        if i + 1 < args.len() {
            output_mode_from_text(args[i + 1])
        } else {
            DirectOutputMode::ReadableView
        }
    } else {
        requested_output_from(args, i + 1)
    }
}

pub fn output_mode_from_value(value: &str) -> (r: DirectOutputMode)
    ensures
        r == output_mode_from_text(value@),
{
    if text_eq(value, "readable-json") {
        DirectOutputMode::ReadableJson
    } else if text_eq(value, "protocol-json") {
        DirectOutputMode::ProtocolJson
    } else {
        DirectOutputMode::ReadableView
    }
}

/// The output mode the arguments of a refused operation ask for.
pub fn requested_output(args: &[String]) -> (r: DirectOutputMode)
    ensures
        r == requested_output_from(strings_view(args@), 0),
{
    let ghost a = strings_view(args@);
    proof {
        reveal_strlit("--output=");
    }
    let mut index: usize = 0;
    while index < args.len()
        invariant
            a == strings_view(args@),
            a.len() == args@.len(),
            "--output="@.len() == 9,
            requested_output_from(a, 0) == requested_output_from(a, index as int),
        decreases args.len() - index,
    {
        let token = args[index].as_str();
        assert(token@ == a[index as int]);
        if text_starts_with(token, "--output=") {
            let n = token.unicode_len();
            return output_mode_from_value(token.substring_char(9, n));
        }
        if text_eq(token, "--output") {
            if index + 1 < args.len() {
                assert(args@[index + 1]@ == a[index + 1]);
                return output_mode_from_value(args[index + 1].as_str());
            }
            return DirectOutputMode::ReadableView;
        }
        index = index + 1;
    }
    DirectOutputMode::ReadableView
}

/// Whether `pat` occurs in `s` at position `i`.
pub open spec fn occurs_at(s: Seq<char>, pat: Seq<char>, i: int) -> bool {
    0 <= i && i + pat.len() <= s.len() && s.subrange(i, i + pat.len()) == pat
}

/// The first position at which `pat` occurs in `s`, if any.
pub open spec fn find_text(s: Seq<char>, pat: Seq<char>) -> Option<int> {
    if exists|i: int| occurs_at(s, pat, i) {
        Some(choose|i: int| #[trigger] occurs_at(s, pat, i) && forall|j: int| 0 <= j < i ==> !occurs_at(s, pat, j))
    } else {
        None
    }
}

/// Why an argument list was refused, from its message: the reason code and
/// the arguments concerned.
pub open spec fn argv_reason_spec(message: Seq<char>) -> (Seq<char>, Option<Seq<char>>) {
    if starts_with(message, "unknown argument "@) {
        ("unknown_argument"@, Some(message.skip(17)))
    } else if starts_with(message, "extra positional argument "@) {
        ("extra_positional"@, Some(message.skip(26)))
    } else {
        match find_text(message, " is not used by "@) {
            Some(i) => ("operation_inapplicable_argument"@, Some(message.take(i))),
            None => ("invalid_argument"@, None),
        }
    }
}

fn find_subtext(s: &str, pat: &str) -> (r: Option<usize>)
    ensures
        match r {
            Some(i) => find_text(s@, pat@) == Some(i as int) && i + pat@.len() <= s@.len(),
            None => find_text(s@, pat@) is None,
        },
{
    let n = s.unicode_len();
    let m = pat.unicode_len();
    if m > n {
        proof {
            assert forall|i: int| !occurs_at(s@, pat@, i) by {}
        }
        return None;
    }
    if m == 0 {
        proof {
            assert(occurs_at(s@, pat@, 0)) by {
                assert(s@.subrange(0, 0) =~= pat@);
            }
            let c = choose|c: int| #[trigger] occurs_at(s@, pat@, c) && forall|j: int| 0 <= j < c ==> !occurs_at(s@, pat@, j);
            assert(occurs_at(s@, pat@, 0) && forall|j: int| 0 <= j < 0 ==> !occurs_at(s@, pat@, j));
            assert(c == 0) by {
                if c > 0 {
                    assert(occurs_at(s@, pat@, 0));
                }
            }
        }
        return Some(0);
    }
    let mut i: usize = 0;
    while i <= n - m
        invariant
            n == s@.len(),
            m == pat@.len(),
            1 <= m <= n,
            i <= n - m + 1,
            forall|j: int| 0 <= j < i ==> !occurs_at(s@, pat@, j),
        decreases n - m + 1 - i,
    {
        if text_eq(s.substring_char(i, i + m), pat) {
            proof {
                assert(occurs_at(s@, pat@, i as int));
                let c = choose|c: int| #[trigger] occurs_at(s@, pat@, c) && forall|j: int| 0 <= j < c ==> !occurs_at(s@, pat@, j);
                assert(occurs_at(s@, pat@, i as int) && forall|j: int| 0 <= j < i ==> !occurs_at(s@, pat@, j));
                assert(c == i) by {
                    if c < i {
                        assert(!occurs_at(s@, pat@, c));
                    } else if c > i {
                        assert(occurs_at(s@, pat@, i as int));
                    }
                }
            }
            return Some(i);
        }
        i = i + 1;
    }
    proof {
        assert forall|j: int| !occurs_at(s@, pat@, j) by {
            if 0 <= j < i {
            }
        }
    }
    None
}

/// The reason code and arguments of a refused argument list.
#[verifier::rlimit(40)]
pub fn argv_reason(message: &str) -> (r: (&'static str, Option<String>))
    ensures
        (r.0@, match r.1 {
            Some(t) => Some(t@),
            None => None,
        }) == argv_reason_spec(message@),
{
    proof {
        reveal_strlit("unknown argument ");
        reveal_strlit("extra positional argument ");
    }
    let n = message.unicode_len();
    if text_starts_with(message, "unknown argument ") {
        return ("unknown_argument", Some(String::from_str(message.substring_char(17, n))));
    }
    if text_starts_with(message, "extra positional argument ") {
        return ("extra_positional", Some(String::from_str(message.substring_char(26, n))));
    }
    match find_subtext(message, " is not used by ") {
        Some(i) => ("operation_inapplicable_argument", Some(String::from_str(message.substring_char(0, i)))),
        None => ("invalid_argument", None),
    }
}

/// The details of an invalid-request error for a refused argument list.
pub open spec fn input_details_json(message: Seq<char>) -> JsonModel {
    let (reason, received) = argv_reason_spec(message);
    JsonModel::Object(
        seq![("field"@, JsonModel::String("argv"@)), ("reason"@, JsonModel::String(reason))] + match received {
            Some(t) => seq![("received"@, JsonModel::String(t))],
            None => Seq::empty(),
        } + seq![
            ("accepted"@, JsonModel::Array(seq![JsonModel::String("valid document operation arguments"@)])),
        ],
    )
}

/// The details of an invalid-request error for a refused argument list.
pub fn input_details(message: &str) -> (r: FieldReasonDetails)
    ensures
        r.spec_details().spec_json() == input_details_json(message@),
{
    let (reason, received) = argv_reason(message);
    let mut details = FieldReasonDetails::new("argv", reason);
    let ghost rv: Option<Seq<char>> = match &received {
        Some(t) => Some(t@),
        None => None,
    };
    details.received = received;
    let mut accepted: Vec<String> = Vec::new();
    accepted.push(String::from_str("valid document operation arguments"));
    let ghost av = accepted@;
    details.accepted = Some(accepted);
    proof {
        assert(crate::payload::strings_json(av)->Array_0 =~= seq![JsonModel::String("valid document operation arguments"@)]);
        assert(details.spec_details().spec_json()->Object_0 =~= input_details_json(message@)->Object_0);
    }
    details
}

/// The draft of the invalid-request error for a refused argument list.
pub open spec fn input_draft(d: DiagnosticRecordDraft, message: Seq<char>) -> bool {
    &&& d.summary@ == message
    &&& d.code == DiagnosticCode::Protocol(ProtocolDiagnosticCode::InvalidRequest)
    &&& d.severity == d.code.spec_default_severity()
    &&& d.effect == d.code.spec_default_effect()
    &&& d.details is FieldReason
    &&& d.details.spec_json() == input_details_json(message)
    &&& d.guidance is None
    &&& sdk_source(d.source, "direct-cli"@)
    &&& d.recoverable == effect_is_recoverable(d.effect)
}

/// The adapter error for a refused argument list: an invalid-request error
/// whose summary is the message.
pub fn input_adapter_error(message: &str) -> (r: AdapterError)
    ensures
        exists|d: DiagnosticRecordDraft| input_draft(d, message@) && normalized(d, r@.diagnostic),
        r@.exit_code == category_exit_code(r@.diagnostic.code.spec_category()),
{
    let details = input_details(message);
    let draft = DiagnosticRecordDraft::new::<InvalidRequest>(
        message,
        details,
        DiagnosticSource::with_stage("docnav-adapter-sdk", "direct-cli"),
    );
    let ghost d = draft;
    let r = AdapterError::new(draft);
    assert(input_draft(d, message@));
    r
}

} // verus!
