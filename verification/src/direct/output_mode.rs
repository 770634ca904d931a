//! The output modes of the direct command line.

use vstd::prelude::*;

verus! {

/// How a direct command writes its result.
#[derive(Clone, Copy, Debug, PartialEq, Eq, Structural)]
pub enum DirectOutputMode {
    ReadableView,
    ReadableJson,
    ProtocolJson,
}

/// The text of `s` quoted and escaped as `Debug` writes a string.
pub uninterp spec fn debug_text(s: Seq<char>) -> Seq<char>;

/// `format!("{:?}", s)`: `s` quoted and escaped as its `Debug` impl writes
/// it. Nothing is stated of that text beyond that it depends on `s` alone.
#[verifier::external_body]
pub(crate) fn debug_quoted(s: &str) -> (r: String)
    ensures
        r@ == debug_text(s@),
{
    format!("{:?}", s)
}

/// The message for an output mode that is not one of the three.
pub open spec fn invalid_output_text(quoted: Seq<char>) -> Seq<char> {
    "invalid --output "@ + quoted
}

/// The message for an invalid output mode, given the mode quoted.
pub fn invalid_output_message(quoted: &str) -> (r: String)
    ensures
        r@ == invalid_output_text(quoted@),
{
    let mut m = String::from_str("invalid --output ");
    m.append(quoted);
    m
}

/// The output mode a text names.
pub open spec fn output_mode_of(value: Seq<char>) -> Option<DirectOutputMode> {
    if value == "readable-view"@ {
        Some(DirectOutputMode::ReadableView)
    } else if value == "readable-json"@ {
        Some(DirectOutputMode::ReadableJson)
    } else if value == "protocol-json"@ {
        Some(DirectOutputMode::ProtocolJson)
    } else {
        None
    }
}

/// Reads an output mode.
pub fn parse_output(value: &str) -> (r: Result<DirectOutputMode, String>)
    ensures
        match r {
            Ok(m) => output_mode_of(value@) == Some(m),
            Err(e) => output_mode_of(value@) is None && e@ == invalid_output_text(debug_text(value@)),
        },
{
    if crate::text::text_eq(value, "readable-view") {
        Ok(DirectOutputMode::ReadableView)
    } else if crate::text::text_eq(value, "readable-json") {
        Ok(DirectOutputMode::ReadableJson)
    } else if crate::text::text_eq(value, "protocol-json") {
        Ok(DirectOutputMode::ProtocolJson)
    } else {
        let quoted = debug_quoted(value);
        Err(invalid_output_message(quoted.as_str()))
    }
}

/// The message of a command that writes protocol JSON only.
pub open spec fn protocol_output_only_text() -> Seq<char> {
    "only --output protocol-json is supported for this command"@
}

/// Reads an output mode for a command that writes protocol JSON only.
pub fn parse_protocol_output(value: &str) -> (r: Result<(), String>)
    ensures
        match r {
            Ok(()) => output_mode_of(value@) == Some(DirectOutputMode::ProtocolJson),
            Err(e) => match output_mode_of(value@) {
                None => e@ == invalid_output_text(debug_text(value@)),
                Some(m) => m != DirectOutputMode::ProtocolJson && e@ == protocol_output_only_text(),
            },
        },
{
    match parse_output(value) {
        Ok(DirectOutputMode::ProtocolJson) => Ok(()),
        Ok(_) => Err(String::from_str("only --output protocol-json is supported for this command")),
        Err(e) => Err(e),
    }
}

} // verus!
