//! The messages for argument lists that a direct command's parser refused:
//! the first problem found by reading the raw arguments again.

use vstd::prelude::*;

use crate::cli_args::strings_view;
use crate::direct::flags::{is_flag, known_value_flag, operation_uses, operation_uses_flag, split_equals, value_flag_of, ValueFlagKind};
use crate::direct::native_options::{native_value_spec, NativeOptionSpec};
use crate::direct::output_mode::{debug_text, invalid_output_text, output_mode_of, parse_output, parse_protocol_output, protocol_output_only_text, DirectOutputMode};
use crate::error::Operation;
use crate::number::{parse_u32, parse_unsigned};
use crate::text::{after_char, before_char, starts_with, text_eq};

verus! {

/// The first standard value flag, from position `i` on, that ends the list
/// without its value.
pub open spec fn missing_value_from(args: Seq<Seq<char>>, i: int) -> Option<Seq<char>>
    decreases args.len() - i,
{
    if i < 0 || i >= args.len() {
        None
    } else if value_flag_of(args[i], Seq::empty()) is Some {
        let inline = after_char(args[i], '=');
        if inline is None && i + 1 >= args.len() {
            Some(before_char(args[i], '=') + " requires a value"@)
        } else {
            missing_value_from(args, i + if inline is Some { 1int } else { 2int })
        }
    } else {
        missing_value_from(args, i + 1)
    }
}

/// The value of the first occurrence, from position `i` on, of the flag
/// `expected`: after '=' or the next argument.
pub open spec fn flag_value_from(args: Seq<Seq<char>>, expected: Seq<char>, i: int) -> Option<Seq<char>>
    decreases args.len() - i,
{
    if i < 0 || i >= args.len() {
        None
    } else if before_char(args[i], '=') == expected {
        match after_char(args[i], '=') {
            Some(v) => Some(v),
            None => if i + 1 < args.len() {
                Some(args[i + 1])
            } else {
                None
            },
        }
    } else {
        flag_value_from(args, expected, i + 1)
    }
}

/// Whether an argument from position `i` on can be the path: one that is
/// neither a flag nor a flag's value.
pub open spec fn has_path_from(args: Seq<Seq<char>>, natives: Seq<NativeOptionSpec>, i: int) -> bool
    decreases args.len() + 1 - i,
{
    if i < 0 || i >= args.len() {
        false
    } else if value_flag_of(args[i], natives) is Some {
        has_path_from(args, natives, i + if after_char(args[i], '=') is Some { 1int } else { 2int })
    } else if starts_with(args[i], "--"@) {
        has_path_from(args, natives, i + 1)
    } else {
        true
    }
}

/// The message for a value that is no positive `u32`, if it is not one.
pub open spec fn positive_error(flag: Seq<char>, value: Seq<char>) -> Option<Seq<char>> {
    match parse_unsigned(value, u32::MAX as nat) {
        Some(n) => if n > 0 {
            None
        } else {
            Some(flag + " must be a positive integer"@)
        },
        None => Some(flag + " must be a positive integer"@),
    }
}

/// What is wrong with a used value flag and its value, if anything.
pub open spec fn flag_error(flag: ValueFlagKind, flag_token: Seq<char>, value: Option<Seq<char>>) -> Option<Seq<char>> {
    match value {
        None => Some(flag_token + " requires a value"@),
        Some(v) => match flag {
            ValueFlagKind::Page => positive_error("--page"@, v),
            ValueFlagKind::Limit => positive_error("--limit"@, v),
            ValueFlagKind::Output => if output_mode_of(v) is None {
                Some(invalid_output_text(debug_text(v)))
            } else {
                None
            },
            ValueFlagKind::Ref => if v.len() == 0 {
                Some("--ref must not be empty"@)
            } else {
                None
            },
            ValueFlagKind::Query => if v.len() == 0 {
                Some("--query must not be empty"@)
            } else {
                None
            },
            ValueFlagKind::Native(spec) => match native_value_spec(spec, v) {
                Err(e) => Some(e),
                Ok(_) => None,
            },
            _ => None,
        },
    }
}

/// The first problem, from position `i` on, with a value flag that the
/// operation uses.
pub open spec fn first_invalid_from(operation: Operation, args: Seq<Seq<char>>, natives: Seq<NativeOptionSpec>, i: int) -> Option<Seq<char>>
    decreases args.len() + 1 - i,
{
    if i < 0 || i >= args.len() {
        None
    } else {
        match value_flag_of(args[i], natives) {
            None => first_invalid_from(operation, args, natives, i + 1),
            Some(flag) => {
                let inline = after_char(args[i], '=');
                let value = match inline {
                    Some(v) => Some(v),
                    None => if i + 1 < args.len() {
                        Some(args[i + 1])
                    } else {
                        None
                    },
                };
                let consumed: int = if inline is Some { 1 } else { 2 };
                if operation_uses(operation, flag) && flag_error(flag, before_char(args[i], '='), value) is Some {
                    flag_error(flag, before_char(args[i], '='), value)
                } else {
                    first_invalid_from(operation, args, natives, i + consumed)
                }
            },
        }
    }
}

/// The message for an `--output` value that a protocol-only command refuses.
pub open spec fn invalid_protocol_output(args: Seq<Seq<char>>) -> Option<Seq<char>> {
    match flag_value_from(args, "--output"@, 0) {
        Some(v) => if output_mode_of(v) == Some(DirectOutputMode::ProtocolJson) {
            None
        } else {
            Some(protocol_output_only_text())
        },
        None => None,
    }
}

/// The message for refused arguments of a command that takes no path.
pub open spec fn protocol_only_error_text(args: Seq<Seq<char>>) -> Seq<char> {
    match missing_value_from(args, 0) {
        Some(m) => m,
        None => match invalid_protocol_output(args) {
            Some(m) => m,
            None => "invalid protocol-only command arguments"@,
        },
    }
}

/// The message for refused arguments of the probe command.
pub open spec fn probe_error_text(args: Seq<Seq<char>>) -> Seq<char> {
    if !has_path_from(args, Seq::empty(), 0) {
        "probe requires <path>"@
    } else {
        match missing_value_from(args, 0) {
            Some(m) => m,
            None => match invalid_protocol_output(args) {
                Some(m) => m,
                None => "invalid probe arguments"@,
            },
        }
    }
}

/// The message for refused arguments of an operation.
pub open spec fn operation_error_text(operation: Operation, args: Seq<Seq<char>>, natives: Seq<NativeOptionSpec>) -> Seq<char> {
    if !has_path_from(args, natives, 0) {
        operation.spec_as_str() + " requires <path>"@
    } else if operation == Operation::Read && flag_value_from(args, "--ref"@, 0) is None {
        "read requires --ref <ref>"@
    } else if operation == Operation::Find && flag_value_from(args, "--query"@, 0) is None {
        "find requires --query <text>"@
    } else {
        match first_invalid_from(operation, args, natives, 0) {
            Some(m) => m,
            None => "invalid operation arguments"@,
        }
    }
}

fn missing_value_error(args: &[String]) -> (r: Option<String>)
    ensures
        match r {
            Some(m) => missing_value_from(strings_view(args@), 0) == Some(m@),
            None => missing_value_from(strings_view(args@), 0) is None,
        },
{
    let ghost a = strings_view(args@);
    let mut index: usize = 0;
    while index < args.len()
        invariant
            a == strings_view(args@),
            a.len() == args@.len(),
            missing_value_from(a, 0) == missing_value_from(a, index as int),
        decreases args.len() - index,
    {
        let token = args[index].as_str();
        assert(token@ == a[index as int]);
        let none: Vec<NativeOptionSpec> = Vec::new();
        if known_value_flag(token, none.as_slice()).is_some() {
            let (flag, inline_value) = split_equals(token);
            if inline_value.is_none() && index + 1 >= args.len() {
                let mut m = flag;
                m.append(" requires a value");
                return Some(m);
            }
            index = if inline_value.is_some() { index + 1 } else { index + 2 };
        } else {
            index = index + 1;
        }
    }
    None
}

/// The value of the first occurrence of the flag `expected`.
fn flag_value<'a>(args: &'a [String], expected: &str) -> (r: Option<&'a str>)
    ensures
        match r {
            Some(v) => flag_value_from(strings_view(args@), expected@, 0) == Some(v@),
            None => flag_value_from(strings_view(args@), expected@, 0) is None,
        },
{
    let ghost a = strings_view(args@);
    let mut index: usize = 0;
    while index < args.len()
        invariant
            a == strings_view(args@),
            a.len() == args@.len(),
            flag_value_from(a, expected@, 0) == flag_value_from(a, expected@, index as int),
        decreases args.len() - index,
    {
        let token = args[index].as_str();
        assert(token@ == a[index as int]);
        let (flag, inline_value) = split_equals(token);
        if text_eq(flag.as_str(), expected) {
            match inline_value {
                Some(_) => {
                    let tl = token.unicode_len();
                    let n = crate::text::find_char(token, '=');
                    proof {
                        crate::text::lemma_index_of(token@, '=');
                    }
                    let at = n.unwrap();
                    return Some(token.substring_char(at + 1, tl));
                },
                None => {
                    if index + 1 < args.len() {
                        assert(args@[index + 1]@ == a[index + 1]);
                        return Some(args[index + 1].as_str());
                    }
                    return None;
                },
            }
        }
        index = index + 1;
    }
    None
}

fn invalid_protocol_output_error(args: &[String]) -> (r: Option<String>)
    ensures
        match r {
            Some(m) => invalid_protocol_output(strings_view(args@)) == Some(m@),
            None => invalid_protocol_output(strings_view(args@)) is None,
        },
{
    match flag_value(args, "--output") {
        Some(value) => match parse_protocol_output(value) {
            Ok(()) => None,
            Err(_) => Some(String::from_str("only --output protocol-json is supported for this command")),
        },
        None => None,
    }
}

fn has_path_candidate(args: &[String], natives: &[NativeOptionSpec]) -> (r: bool)
    ensures
        r == has_path_from(strings_view(args@), natives@, 0),
{
    let ghost a = strings_view(args@);
    let mut index: usize = 0;
    while index < args.len()
        invariant
            a == strings_view(args@),
            a.len() == args@.len(),
            has_path_from(a, natives@, 0) == has_path_from(a, natives@, index as int),
        decreases args.len() - index,
    {
        let token = args[index].as_str();
        assert(token@ == a[index as int]);
        assert(has_path_from(a, natives@, a.len() as int + 1) == has_path_from(a, natives@, a.len() as int));
        if known_value_flag(token, natives).is_some() {
            let (_flag, inline_value) = split_equals(token);
            index = if inline_value.is_some() {
                index + 1
            } else if index + 1 < args.len() {
                index + 2
            } else {
                args.len()
            };
        } else if is_flag(token) {
            index = index + 1;
        } else {
            return true;
        }
    }
    false
}

fn positive_flag_error(flag: &str, value: &str) -> (r: Option<String>)
    ensures
        match r {
            Some(m) => positive_error(flag@, value@) == Some(m@),
            None => positive_error(flag@, value@) is None,
        },
{
    match parse_u32(value) {
        Some(n) => if n > 0 {
            return None;
        },
        None => {},
    }
    let mut m = String::from_str(flag);
    m.append(" must be a positive integer");
    Some(m)
}

fn direct_value_flag_error(flag: ValueFlagKind, flag_token: &str, value: Option<&str>) -> (r: Option<String>)
    ensures
        match r {
            Some(m) => flag_error(flag, flag_token@, match value {
                Some(v) => Some(v@),
                None => None,
            }) == Some(m@),
            None => flag_error(flag, flag_token@, match value {
                Some(v) => Some(v@),
                None => None,
            }) is None,
        },
{
    match value {
        None => {
            let mut m = String::from_str(flag_token);
            m.append(" requires a value");
            Some(m)
        },
        Some(v) => match flag {
            ValueFlagKind::Page => positive_flag_error("--page", v),
            ValueFlagKind::Limit => positive_flag_error("--limit", v),
            ValueFlagKind::Output => match parse_output(v) {
                Ok(_) => None,
                Err(e) => Some(e),
            },
            ValueFlagKind::Ref => if v.unicode_len() == 0 {
                Some(String::from_str("--ref must not be empty"))
            } else {
                None
            },
            ValueFlagKind::Query => if v.unicode_len() == 0 {
                Some(String::from_str("--query must not be empty"))
            } else {
                None
            },
            ValueFlagKind::Native(spec) => match spec.parse_value(v) {
                Ok(_) => None,
                Err(e) => Some(e),
            },
            _ => None,
        },
    }
}

fn first_invalid_used_flag(operation: Operation, args: &[String], natives: &[NativeOptionSpec]) -> (r: Option<String>)
    ensures
        match r {
            Some(m) => first_invalid_from(operation, strings_view(args@), natives@, 0) == Some(m@),
            None => first_invalid_from(operation, strings_view(args@), natives@, 0) is None,
        },
{
    let ghost a = strings_view(args@);
    let mut index: usize = 0;
    while index < args.len()
        invariant
            a == strings_view(args@),
            a.len() == args@.len(),
            first_invalid_from(operation, a, natives@, 0) == first_invalid_from(operation, a, natives@, index as int),
        decreases args.len() - index,
    {
        let token = args[index].as_str();
        assert(token@ == a[index as int]);
        assert(first_invalid_from(operation, a, natives@, a.len() as int + 1) == first_invalid_from(operation, a, natives@, a.len() as int));
        let flag = match known_value_flag(token, natives) {
            Some(f) => f,
            None => {
                index = index + 1;
                continue;
            },
        };
        let (flag_token, inline_value) = split_equals(token);
        let consumed: usize = if inline_value.is_some() || index + 1 >= args.len() { 1 } else { 2 };
        let value: Option<&str> = match &inline_value {
            Some(v) => Some(v.as_str()),
            None => if index + 1 < args.len() {
                assert(args@[index + 1]@ == a[index + 1]);
                Some(args[index + 1].as_str())
            } else {
                None
            },
        };
        if operation_uses_flag(operation, flag) {
            match direct_value_flag_error(flag, flag_token.as_str(), value) {
                Some(e) => {
                    return Some(e);
                },
                None => {},
            }
        }
        index = index + consumed;
    }
    None
}

/// The message for refused arguments of a command that takes no path.
pub fn protocol_only_parse_error(args: &[String]) -> (r: String)
    ensures
        r@ == protocol_only_error_text(strings_view(args@)),
{
    match missing_value_error(args) {
        Some(m) => m,
        None => match invalid_protocol_output_error(args) {
            Some(m) => m,
            None => String::from_str("invalid protocol-only command arguments"),
        },
    }
}

/// The message for refused arguments of the probe command.
pub fn probe_parse_error(args: &[String]) -> (r: String)
    ensures
        r@ == probe_error_text(strings_view(args@)),
{
    let none: Vec<NativeOptionSpec> = Vec::new();
    assert(none@ =~= Seq::<NativeOptionSpec>::empty());
    if !has_path_candidate(args, none.as_slice()) {
        return String::from_str("probe requires <path>");
    }
    match missing_value_error(args) {
        Some(m) => m,
        None => match invalid_protocol_output_error(args) {
            Some(m) => m,
            None => String::from_str("invalid probe arguments"),
        },
    }
}

/// The message for refused arguments of an operation.
pub fn operation_parse_error(operation: Operation, args: &[String], natives: &[NativeOptionSpec]) -> (r: String)
    ensures
        r@ == operation_error_text(operation, strings_view(args@), natives@),
{
    if !has_path_candidate(args, natives) {
        let mut m = String::from_str(operation.as_str());
        m.append(" requires <path>");
        return m;
    }
    if operation == Operation::Read && flag_value(args, "--ref").is_none() {
        return String::from_str("read requires --ref <ref>");
    }
    if operation == Operation::Find && flag_value(args, "--query").is_none() {
        return String::from_str("find requires --query <text>");
    }
    match first_invalid_used_flag(operation, args, natives) {
        Some(m) => m,
        None => String::from_str("invalid operation arguments"),
    }
}

} // verus!
