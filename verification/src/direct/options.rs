//! The options a direct operation runs with: the arguments that pass the
//! strict check are read by the command's grammar, and the values are
//! resolved against the defaults.

use vstd::prelude::*;

use crate::cli_args::strings_view;
use crate::direct::flags::{collect_boundary_args, known_value_flag, operation_uses, operation_uses_flag, value_flag_of, ArgContext, ValueFlagKind, boundary_outcome};
use crate::direct::native_options::{native_value_spec, NativeOptionDefault, NativeOptionSpec};
use crate::direct::output_mode::{debug_quoted, debug_text, output_mode_of, DirectOutputMode};
use crate::direct::parse_errors::{operation_error_text, operation_parse_error, probe_error_text, probe_parse_error, protocol_only_error_text, protocol_only_parse_error};
use crate::error::Operation;
use crate::json::{set_member, JsonModel, JsonNumber, JsonValue, NumberModel};
use crate::number::{parse_u32, parse_unsigned};
use crate::payload::{members_view, set_member_in};
use crate::text::{after_char, before_char, find_char, lemma_index_of, split_once_char, starts_with, text_eq};

verus! {

/// The values that the grammar of an operation read, by flag.
pub struct MatchModel {
    pub path: Option<Seq<char>>,
    pub page: Option<Seq<char>>,
    pub limit: Option<Seq<char>>,
    pub pagination: Option<Seq<char>>,
    pub output: Option<Seq<char>>,
    pub ref_id: Option<Seq<char>>,
    pub query: Option<Seq<char>>,
    pub project_config_path: Option<Seq<char>>,
    pub user_config_path: Option<Seq<char>>,
    pub native: Seq<(Seq<char>, Seq<char>)>,
}

pub open spec fn empty_match() -> MatchModel {
    MatchModel {
        path: None,
        page: None,
        limit: None,
        pagination: None,
        output: None,
        ref_id: None,
        query: None,
        project_config_path: None,
        user_config_path: None,
        native: Seq::empty(),
    }
}

/// Whether the native option `key` was already given.
pub open spec fn has_native_key(native: Seq<(Seq<char>, Seq<char>)>, key: Seq<char>) -> bool {
    exists|i: int| 0 <= i < native.len() && (#[trigger] native[i]).0 == key
}

/// A flag's value taken into the values read: each flag may come once, and
/// its value must be one it accepts.
pub open spec fn take_value(m: MatchModel, flag: ValueFlagKind, v: Seq<char>) -> Option<MatchModel> {
    match flag {
        ValueFlagKind::Page => if m.page is Some || parse_unsigned(v, u32::MAX as nat) is None {
            None
        } else {
            Some(MatchModel { page: Some(v), ..m })
        },
        ValueFlagKind::Limit => if m.limit is Some || parse_unsigned(v, u32::MAX as nat) is None {
            None
        } else {
            Some(MatchModel { limit: Some(v), ..m })
        },
        ValueFlagKind::Pagination => if m.pagination is Some || !(v == "enabled"@ || v == "disabled"@) {
            None
        } else {
            Some(MatchModel { pagination: Some(v), ..m })
        },
        ValueFlagKind::Output => if m.output is Some || output_mode_of(v) is None {
            None
        } else {
            Some(MatchModel { output: Some(v), ..m })
        },
        ValueFlagKind::Ref => if m.ref_id is Some || v.len() == 0 {
            None
        } else {
            Some(MatchModel { ref_id: Some(v), ..m })
        },
        ValueFlagKind::Query => if m.query is Some || v.len() == 0 {
            None
        } else {
            Some(MatchModel { query: Some(v), ..m })
        },
        ValueFlagKind::ProjectConfigPath => if m.project_config_path is Some || v.len() == 0 {
            None
        } else {
            Some(MatchModel { project_config_path: Some(v), ..m })
        },
        ValueFlagKind::UserConfigPath => if m.user_config_path is Some || v.len() == 0 {
            None
        } else {
            Some(MatchModel { user_config_path: Some(v), ..m })
        },
        ValueFlagKind::Native(spec) => if has_native_key(m.native, spec.option_key@) || v.len() == 0 {
            None
        } else {
            Some(MatchModel { native: m.native.push((spec.option_key@, v)), ..m })
        },
    }
}

/// The grammar of an operation's checked arguments, from position `i` on:
/// a value flag of the operation with its value after '=' or next, or the
/// path, which may come once, is not empty and does not start like a short
/// flag.
pub open spec fn match_from(operation: Operation, tokens: Seq<Seq<char>>, natives: Seq<NativeOptionSpec>, i: int, m: MatchModel) -> Option<MatchModel>
    decreases tokens.len() + 1 - i,
{
    if i < 0 || i >= tokens.len() {
        Some(m)
    } else {
        let t = tokens[i];
        if starts_with(t, "--"@) {
            match value_flag_of(t, natives) {
                None => None,
                Some(flag) => if !operation_uses(operation, flag) {
                    None
                } else {
                    let inline = after_char(t, '=');
                    if inline is None && i + 1 >= tokens.len() {
                        None
                    } else {
                        let v = match inline {
                            Some(x) => x,
                            None => tokens[i + 1],
                        };
                        let next: int = if inline is Some { i + 1 } else { i + 2 };
                        match take_value(m, flag, v) {
                            None => None,
                            Some(m2) => match_from(operation, tokens, natives, next, m2),
                        }
                    }
                },
            }
        } else if t.len() >= 2 && t[0] == '-' {
            None
        } else if m.path is Some || t.len() == 0 {
            None
        } else {
            match_from(operation, tokens, natives, i + 1, MatchModel { path: Some(t), ..m })
        }
    }
}

/// What the grammar reads: the values, when every argument is well formed
/// and the required ones are there.
pub open spec fn operation_match(operation: Operation, tokens: Seq<Seq<char>>, natives: Seq<NativeOptionSpec>) -> Option<MatchModel> {
    match match_from(operation, tokens, natives, 0, empty_match()) {
        Some(m) => if m.path is None || (operation == Operation::Read && m.ref_id is None) || (operation == Operation::Find
            && m.query is None) {
            None
        } else {
            Some(m)
        },
        None => None,
    }
}

/// The options of an operation as the model sees them.
pub struct OptionsModel {
    pub path: Seq<char>,
    pub page: u32,
    pub limit: u32,
    pub output: DirectOutputMode,
    pub ref_id: Option<Seq<char>>,
    pub query: Option<Seq<char>>,
    pub native: Seq<(Seq<char>, JsonModel)>,
}

/// The defaults of the native options that the operation uses.
pub open spec fn native_defaults(operation: Operation, natives: Seq<NativeOptionSpec>) -> Seq<(Seq<char>, JsonModel)>
    decreases natives.len(),
{
    if natives.len() == 0 {
        Seq::empty()
    } else {
        let rest = native_defaults(operation, natives.drop_last());
        let spec = natives.last();
        match spec.default {
            Some(NativeOptionDefault::Integer(n)) => if spec.spec_supports(operation) {
                set_member(rest, spec.option_key@, JsonModel::Number(NumberModel::PosInt(n)))
            } else {
                rest
            },
            None => rest,
        }
    }
}

/// The native option whose key is `key`.
pub open spec fn native_by_key(natives: Seq<NativeOptionSpec>, key: Seq<char>) -> Option<NativeOptionSpec>
    decreases natives.len(),
{
    if natives.len() == 0 {
        None
    } else if natives[0].option_key@ == key {
        Some(natives[0])
    } else {
        native_by_key(natives.drop_first(), key)
    }
}

/// The given native values read over the defaults, in the order given.
pub open spec fn native_values(operation: Operation, given: Seq<(Seq<char>, Seq<char>)>, natives: Seq<NativeOptionSpec>, base: Seq<(Seq<char>, JsonModel)>) -> Result<Seq<(Seq<char>, JsonModel)>, Seq<char>>
    decreases given.len(),
{
    if given.len() == 0 {
        Ok(base)
    } else {
        match native_values(operation, given.drop_last(), natives, base) {
            Err(e) => Err(e),
            Ok(acc) => {
                let (key, value) = given.last();
                match native_by_key(natives, key) {
                    None => Err("unknown native option "@ + debug_text(key)),
                    Some(spec) => if !spec.spec_supports(operation) {
                        Err("native option "@ + debug_text(key) + " is not supported by "@ + operation.spec_as_str())
                    } else {
                        match native_value_spec(spec, value) {
                            Err(e) => Err(e),
                            Ok(j) => Ok(set_member(acc, key, j)),
                        }
                    },
                }
            },
        }
    }
}

/// A positive count read from `text`, or the message for `flag`.
pub open spec fn positive_count(text: Seq<char>, flag: Seq<char>) -> Result<u32, Seq<char>> {
    match parse_unsigned(text, u32::MAX as nat) {
        Some(n) => if n > 0 {
            Ok(n as u32)
        } else {
            Err(flag + " must be a positive integer"@)
        },
        None => Err(flag + " must be a positive integer"@),
    }
}

/// The options from what the grammar read: the info operation always shows
/// page 1 with the default limit; the default page is 1, the default limit
/// the adapter's, the default output readable-view.
pub open spec fn resolve_options(operation: Operation, m: MatchModel, natives: Seq<NativeOptionSpec>, default_limit: u32, default_limit_text: Seq<char>) -> Result<OptionsModel, Seq<char>> {
    let page = if operation == Operation::Info {
        Ok(1u32)
    } else {
        positive_count(
            match m.page {
                Some(p) => p,
                None => "1"@,
            },
            "--page"@,
        )
    };
    let limit = if operation == Operation::Info {
        positive_count(default_limit_text, "--limit"@)
    } else {
        positive_count(
            match m.limit {
                Some(l) => l,
                None => default_limit_text,
            },
            "--limit"@,
        )
    };
    match page {
        Err(e) => Err(e),
        Ok(p) => match limit {
            Err(e) => Err(e),
            Ok(l) => match native_values(operation, m.native, natives, native_defaults(operation, natives)) {
                Err(e) => Err(e),
                Ok(n) => Ok(
                    OptionsModel {
                        path: m.path.unwrap(),
                        page: p,
                        limit: l,
                        output: output_mode_of(
                            match m.output {
                                Some(o) => o,
                                None => "readable-view"@,
                            },
                        ).unwrap(),
                        ref_id: m.ref_id,
                        query: m.query,
                        native: n,
                    },
                ),
            },
        },
    }
}

/// What reading an operation's arguments gives: the strict check's message,
/// the grammar's message, or the resolved options.
pub open spec fn operation_outcome(operation: Operation, args: Seq<Seq<char>>, natives: Seq<NativeOptionSpec>, default_limit: u32, default_limit_text: Seq<char>) -> Result<OptionsModel, Seq<char>> {
    match boundary_outcome(args, ArgContext::Operation(operation), natives) {
        Err(e) => Err(e),
        Ok(tokens) => match operation_match(operation, tokens, natives) {
            None => Err(operation_error_text(operation, args, natives)),
            Some(m) => resolve_options(operation, m, natives, default_limit, default_limit_text),
        },
    }
}

/// The options of a direct operation.
#[derive(Debug, PartialEq)]
pub struct DirectOperationOptions {
    pub path: String,
    pub page: u32,
    pub limit: u32,
    pub output: DirectOutputMode,
    pub ref_id: Option<String>,
    pub query: Option<String>,
    pub native_options: Vec<(String, JsonValue)>,
}

pub open spec fn opt_text(o: Option<String>) -> Option<Seq<char>> {
    match o {
        Some(s) => Some(s@),
        None => None,
    }
}

impl View for DirectOperationOptions {
    type V = OptionsModel;

    open spec fn view(&self) -> OptionsModel {
        OptionsModel {
            path: self.path@,
            page: self.page,
            limit: self.limit,
            output: self.output,
            ref_id: opt_text(self.ref_id),
            query: opt_text(self.query),
            native: members_view(self.native_options@),
        }
    }
}

impl DirectOperationOptions {
    /// The native options to hand to the operation, unless there are none.
    pub fn protocol_options(&self) -> (r: Option<&Vec<(String, JsonValue)>>)
        ensures
            match r {
                Some(v) => self.native_options@.len() > 0 && v == &self.native_options,
                None => self.native_options@.len() == 0,
            },
    {
        if self.native_options.len() == 0 {
            None
        } else {
            Some(&self.native_options)
        }
    }
}

/// The values read so far, as plain values.
struct Matches {
    path: Option<String>,
    page: Option<String>,
    limit: Option<String>,
    pagination: Option<String>,
    output: Option<String>,
    ref_id: Option<String>,
    query: Option<String>,
    project_config_path: Option<String>,
    user_config_path: Option<String>,
    native: Vec<(String, String)>,
}

spec fn pairs_view(v: Seq<(String, String)>) -> Seq<(Seq<char>, Seq<char>)> {
    Seq::new(v.len(), |i: int| (v[i].0@, v[i].1@))
}

impl Matches {
    spec fn model(&self) -> MatchModel {
        MatchModel {
            path: opt_text(self.path),
            page: opt_text(self.page),
            limit: opt_text(self.limit),
            pagination: opt_text(self.pagination),
            output: opt_text(self.output),
            ref_id: opt_text(self.ref_id),
            query: opt_text(self.query),
            project_config_path: opt_text(self.project_config_path),
            user_config_path: opt_text(self.user_config_path),
            native: pairs_view(self.native@),
        }
    }
}

fn has_native(native: &Vec<(String, String)>, key: &str) -> (r: bool)
    ensures
        r == has_native_key(pairs_view(native@), key@),
{
    let mut i: usize = 0;
    while i < native.len()
        invariant
            i <= native@.len(),
            forall|j: int| 0 <= j < i ==> (#[trigger] pairs_view(native@)[j]).0 != key@,
        decreases native.len() - i,
    {
        if text_eq(native[i].0.as_str(), key) {
            assert(pairs_view(native@)[i as int].0 == key@);
            return true;
        }
        i = i + 1;
    }
    false
}

fn take_flag_value(m: &mut Matches, flag: ValueFlagKind, v: &str) -> (ok: bool)
    ensures
        ok == take_value(old(m).model(), flag, v@) is Some,
        ok ==> take_value(old(m).model(), flag, v@) == Some(final(m).model()),
{
    match flag {
        ValueFlagKind::Page => {
            if m.page.is_some() || parse_u32(v).is_none() {
                return false;
            }
            m.page = Some(String::from_str(v));
        },
        ValueFlagKind::Limit => {
            if m.limit.is_some() || parse_u32(v).is_none() {
                return false;
            }
            m.limit = Some(String::from_str(v));
        },
        ValueFlagKind::Pagination => {
            if m.pagination.is_some() || !(text_eq(v, "enabled") || text_eq(v, "disabled")) {
                return false;
            }
            m.pagination = Some(String::from_str(v));
        },
        ValueFlagKind::Output => {
            if m.output.is_some() || crate::direct::output_mode::parse_output(v).is_err() {
                return false;
            }
            m.output = Some(String::from_str(v));
        },
        ValueFlagKind::Ref => {
            if m.ref_id.is_some() || v.unicode_len() == 0 {
                return false;
            }
            m.ref_id = Some(String::from_str(v));
        },
        ValueFlagKind::Query => {
            if m.query.is_some() || v.unicode_len() == 0 {
                return false;
            }
            m.query = Some(String::from_str(v));
        },
        ValueFlagKind::ProjectConfigPath => {
            if m.project_config_path.is_some() || v.unicode_len() == 0 {
                return false;
            }
            m.project_config_path = Some(String::from_str(v));
        },
        ValueFlagKind::UserConfigPath => {
            if m.user_config_path.is_some() || v.unicode_len() == 0 {
                return false;
            }
            m.user_config_path = Some(String::from_str(v));
        },
        ValueFlagKind::Native(spec) => {
            if has_native(&m.native, spec.option_key) || v.unicode_len() == 0 {
                return false;
            }
            let ghost before = m.native@;
            m.native.push((String::from_str(spec.option_key), String::from_str(v)));
            assert(pairs_view(m.native@) =~= pairs_view(before).push((spec.option_key@, v@)));
        },
    }
    true
}

/// The value after the first '=' of a token that has one.
fn inline_value(token: &str) -> (r: Option<String>)
    ensures
        match r {
            Some(v) => after_char(token@, '=') == Some(v@),
            None => after_char(token@, '=') is None,
        },
{
    split_once_char(token, '=').1
}

/// Reads checked arguments by the operation's grammar.
fn match_operation_args(operation: Operation, tokens: &Vec<String>, natives: &[NativeOptionSpec]) -> (r: Option<Matches>)
    ensures
        match r {
            Some(m) => operation_match(operation, strings_view(tokens@), natives@) == Some(m.model()),
            None => operation_match(operation, strings_view(tokens@), natives@) is None,
        },
{
    let ghost t = strings_view(tokens@);
    let mut m = Matches {
        path: None,
        page: None,
        limit: None,
        pagination: None,
        output: None,
        ref_id: None,
        query: None,
        project_config_path: None,
        user_config_path: None,
        native: Vec::new(),
    };
    assert(m.model() == empty_match()) by {
        assert(pairs_view(m.native@) =~= Seq::<(Seq<char>, Seq<char>)>::empty());
    }
    let mut i: usize = 0;
    while i < tokens.len()
        invariant
            t == strings_view(tokens@),
            t.len() == tokens@.len(),
            i <= tokens@.len(),
            match_from(operation, t, natives@, 0, empty_match()) == match_from(operation, t, natives@, i as int, m.model()),
        decreases tokens.len() - i,
    {
        let token = tokens[i].as_str();
        assert(token@ == t[i as int]);
        if crate::text::text_starts_with(token, "--") {
            let flag = match known_value_flag(token, natives) {
                Some(f) => f,
                None => {
                    return None;
                },
            };
            if !operation_uses_flag(operation, flag) {
                return None;
            }
            let inline = inline_value(token);
            if inline.is_none() && i + 1 >= tokens.len() {
                return None;
            }
            let next: usize = if inline.is_some() { i + 1 } else { i + 2 };
            let ok = match &inline {
                Some(v) => take_flag_value(&mut m, flag, v.as_str()),
                None => {
                    assert(tokens@[i + 1]@ == t[i + 1]);
                    take_flag_value(&mut m, flag, tokens[i + 1].as_str())
                },
            };
            if !ok {
                return None;
            }
            i = next;
        } else {
            let n = token.unicode_len();
            if n >= 2 && token.get_char(0) == '-' {
                return None;
            }
            if m.path.is_some() || n == 0 {
                return None;
            }
            m.path = Some(String::from_str(token));
            i = i + 1;
        }
    }
    if m.path.is_none() {
        return None;
    }
    if operation == Operation::Read && m.ref_id.is_none() {
        return None;
    }
    if operation == Operation::Find && m.query.is_none() {
        return None;
    }
    Some(m)
}

fn positive_count_of(text: &str, flag: &str) -> (r: Result<u32, String>)
    ensures
        match r {
            Ok(n) => positive_count(text@, flag@) == Ok::<u32, Seq<char>>(n),
            Err(e) => positive_count(text@, flag@) == Err::<u32, Seq<char>>(e@),
        },
{
    match parse_u32(text) {
        Some(n) => if n > 0 {
            return Ok(n);
        },
        None => {},
    }
    let mut m = String::from_str(flag);
    m.append(" must be a positive integer");
    Err(m)
}

fn native_option_defaults(operation: Operation, natives: &[NativeOptionSpec]) -> (r: Vec<(String, JsonValue)>)
    ensures
        members_view(r@) == native_defaults(operation, natives@),
{
    let mut out: Vec<(String, JsonValue)> = Vec::new();
    let mut i: usize = 0;
    assert(members_view(out@) =~= native_defaults(operation, natives@.take(0)));
    while i < natives.len()
        invariant
            i <= natives@.len(),
            members_view(out@) == native_defaults(operation, natives@.take(i as int)),
        decreases natives.len() - i,
    {
        let spec = natives[i];
        assert(natives@.take(i + 1).drop_last() =~= natives@.take(i as int));
        assert(natives@.take(i + 1).last() == spec);
        if spec.supports(operation) {
            match spec.default {
                Some(NativeOptionDefault::Integer(n)) => {
                    set_member_in(&mut out, spec.option_key, JsonValue::Number(JsonNumber::PosInt(n)));
                },
                None => {},
            }
        }
        i = i + 1;
    }
    assert(natives@.take(natives@.len() as int) =~= natives@);
    out
}

fn find_native_by_key(natives: &[NativeOptionSpec], key: &str) -> (r: Option<NativeOptionSpec>)
    ensures
        r == native_by_key(natives@, key@),
{
    let mut i: usize = 0;
    assert(natives@.skip(0) =~= natives@);
    while i < natives.len()
        invariant
            i <= natives@.len(),
            native_by_key(natives@, key@) == native_by_key(natives@.skip(i as int), key@),
        decreases natives.len() - i,
    {
        assert(natives@.skip(i as int)[0] == natives@[i as int]);
        if text_eq(natives[i].option_key, key) {
            return Some(natives[i]);
        }
        assert(natives@.skip(i as int).drop_first() =~= natives@.skip(i + 1));
        i = i + 1;
    }
    None
}

fn native_option_values(operation: Operation, given: &Vec<(String, String)>, natives: &[NativeOptionSpec], base: Vec<(String, JsonValue)>) -> (r: Result<Vec<(String, JsonValue)>, String>)
    ensures
        match r {
            Ok(v) => native_values(operation, pairs_view(given@), natives@, members_view(base@)) == Ok::<Seq<(Seq<char>, JsonModel)>, Seq<char>>(members_view(v@)),
            Err(e) => native_values(operation, pairs_view(given@), natives@, members_view(base@)) == Err::<Seq<(Seq<char>, JsonModel)>, Seq<char>>(e@),
        },
{
    let ghost g = pairs_view(given@);
    let ghost b = members_view(base@);
    let mut out = base;
    let mut i: usize = 0;
    assert(g.take(0) =~= Seq::<(Seq<char>, Seq<char>)>::empty());
    while i < given.len()
        invariant
            g == pairs_view(given@),
            b == members_view(base@),
            g.len() == given@.len(),
            i <= given@.len(),
            native_values(operation, g.take(i as int), natives@, b) == Ok::<Seq<(Seq<char>, JsonModel)>, Seq<char>>(members_view(out@)),
        decreases given.len() - i,
    {
        assert(g.take(i + 1).drop_last() =~= g.take(i as int));
        assert(g.take(i + 1).last() == (given@[i as int].0@, given@[i as int].1@));
        let key = given[i].0.as_str();
        let value = given[i].1.as_str();
        match find_native_by_key(natives, key) {
            None => {
                let mut m = String::from_str("unknown native option ");
                m.append(debug_quoted(key).as_str());
                proof {
                    lemma_native_values_error_stays(operation, g, natives@, b, i as int + 1, m@);
                }
                return Err(m);
            },
            Some(spec) => if !spec.supports(operation) {
                let mut m = String::from_str("native option ");
                m.append(debug_quoted(key).as_str());
                m.append(" is not supported by ");
                m.append(operation.as_str());
                proof {
                    lemma_native_values_error_stays(operation, g, natives@, b, i as int + 1, m@);
                }
                return Err(m);
            } else {
                match spec.parse_value(value) {
                Err(e) => {
                    proof {
                        lemma_native_values_error_stays(operation, g, natives@, b, i as int + 1, e@);
                    }
                    return Err(e);
                },
                Ok(j) => {
                    set_member_in(&mut out, key, j);
                },
            }
            },
        }
        i = i + 1;
    }
    assert(g.take(given@.len() as int) =~= g);
    Ok(out)
}

/// Every output mode the grammar reads is one of the three.
proof fn lemma_match_output_valid(operation: Operation, tokens: Seq<Seq<char>>, natives: Seq<NativeOptionSpec>, i: int, m: MatchModel)
    requires
        m.output matches Some(o) ==> output_mode_of(o) is Some,
    ensures
        match_from(operation, tokens, natives, i, m) matches Some(r) ==> (r.output matches Some(o) ==> output_mode_of(o) is Some),
    decreases tokens.len() + 1 - i,
{
    if 0 <= i < tokens.len() {
        let t = tokens[i];
        if starts_with(t, "--"@) {
            match value_flag_of(t, natives) {
                None => {},
                Some(flag) => {
                    let inline = after_char(t, '=');
                    if operation_uses(operation, flag) && !(inline is None && i + 1 >= tokens.len()) {
                        let v = match inline {
                            Some(x) => x,
                            None => tokens[i + 1],
                        };
                        let next: int = if inline is Some { i + 1 } else { i + 2 };
                        match take_value(m, flag, v) {
                            None => {},
                            Some(m2) => {
                                lemma_match_output_valid(operation, tokens, natives, next, m2);
                            },
                        }
                    }
                },
            }
        } else if !(t.len() >= 2 && t[0] == '-') && !(m.path is Some || t.len() == 0) {
            lemma_match_output_valid(operation, tokens, natives, i + 1, MatchModel { path: Some(t), ..m });
        }
    }
}

/// Once reading the given native values fails, reading more of them fails
/// the same way.
proof fn lemma_native_values_error_stays(operation: Operation, g: Seq<(Seq<char>, Seq<char>)>, natives: Seq<NativeOptionSpec>, base: Seq<(Seq<char>, JsonModel)>, i: int, e: Seq<char>)
    requires
        0 <= i <= g.len(),
        native_values(operation, g.take(i), natives, base) == Err::<Seq<(Seq<char>, JsonModel)>, Seq<char>>(e),
    ensures
        native_values(operation, g, natives, base) == Err::<Seq<(Seq<char>, JsonModel)>, Seq<char>>(e),
    decreases g.len() - i,
{
    if i < g.len() {
        assert(g.take(i + 1).drop_last() =~= g.take(i));
        lemma_native_values_error_stays(operation, g, natives, base, i + 1, e);
    } else {
        assert(g.take(i) =~= g);
    }
}

/// Without `--limit`, and always for info, an operation runs with the
/// adapter's default limit; without `--page`, and always for info, on the
/// first page. A positive default limit always reads back as itself.
pub proof fn law_defaults_apply(operation: Operation, m: MatchModel, natives: Seq<NativeOptionSpec>, default_limit: u32)
    requires
        default_limit > 0,
    ensures
        positive_count(crate::number::decimal_text(default_limit as nat), "--limit"@) == Ok::<u32, Seq<char>>(default_limit),
        resolve_options(operation, m, natives, default_limit, crate::number::decimal_text(default_limit as nat)) matches Ok(o)
            ==> (m.limit is None || operation == Operation::Info ==> o.limit == default_limit)
                && (m.page is None || operation == Operation::Info ==> o.page == 1),
{
    crate::number::law_decimal_text_reads_back(default_limit as nat, u32::MAX as nat);
    crate::number::law_decimal_text_reads_back(1, u32::MAX as nat);
    reveal_strlit("1");
    assert("1"@ == crate::number::decimal_text(1));
}

/// An operation other than info runs with the `--limit` and `--page` that
/// were given: the resolved limit and page are the numbers those values
/// read as, and a value that does not read as a positive number is refused.
pub proof fn law_given_values_apply(operation: Operation, m: MatchModel, natives: Seq<NativeOptionSpec>, default_limit: u32, default_limit_text: Seq<char>)
    requires
        operation != Operation::Info,
    ensures
        resolve_options(operation, m, natives, default_limit, default_limit_text) matches Ok(o) ==> {
            &&& (m.limit matches Some(t) ==> parse_unsigned(t, u32::MAX as nat) == Some(o.limit as nat) && o.limit > 0)
            &&& (m.page matches Some(t) ==> parse_unsigned(t, u32::MAX as nat) == Some(o.page as nat) && o.page > 0)
        },
        m.limit matches Some(t) && !(parse_unsigned(t, u32::MAX as nat) matches Some(n) && n > 0)
            ==> resolve_options(operation, m, natives, default_limit, default_limit_text) is Err,
        m.page matches Some(t) && !(parse_unsigned(t, u32::MAX as nat) matches Some(n) && n > 0)
            ==> resolve_options(operation, m, natives, default_limit, default_limit_text) is Err,
{
}

/// `outline <path> --limit <value>` runs on that path, on the first page,
/// with the limit the value reads as, whatever the adapter's default limit:
/// the strict check keeps all three arguments, the grammar reads the path
/// and the value, and nothing else is resolved from defaults but the page,
/// the output mode and the native options. Native option flags are long
/// flags and the path is no flag.
#[verifier::rlimit(50)]
pub proof fn law_outline_takes_given_limit(p: Seq<char>, v: Seq<char>, natives: Seq<NativeOptionSpec>, default_limit: u32, default_limit_text: Seq<char>)
    requires
        p.len() > 0,
        p[0] != '-',
        crate::text::index_of(p, '=') < 0,
        parse_unsigned(v, u32::MAX as nat) matches Some(n) && n > 0,
        forall|k: int| 0 <= k < natives.len() ==> (#[trigger] natives[k]).flag@.len() > 0 && natives[k].flag@[0] == '-',
    ensures
        operation_outcome(Operation::Outline, seq![p, "--limit"@, v], natives, default_limit, default_limit_text) matches Ok(o)
            && parse_unsigned(v, u32::MAX as nat) == Some(o.limit as nat) && o.path == p && o.page == 1,
{
    reveal_strlit("--page");
    reveal_strlit("--limit");
    reveal_strlit("--pagination");
    reveal_strlit("--project-config-path");
    reveal_strlit("--ref");
    reveal_strlit("--query");
    reveal_strlit("--output");
    reveal_strlit("--user-config-path");
    reveal_strlit("1");
    reveal_strlit("readable-view");
    let args = seq![p, "--limit"@, v];
    let context = ArgContext::Operation(Operation::Outline);
    let model = crate::direct::flags::boundary_model(context, natives);
    let flags = model.flags;
    // The path is no flag.
    assert(before_char(p, '=') == p);
    assert forall|j: int| 0 <= j < flags.len() implies (#[trigger] flags[j]).0 != p by {
        if j >= 8 {
            assert(flags[j].0 == natives[j - 8].flag@);
        }
        assert(flags[j].0[0] == '-');
    }
    crate::cli_args::lemma_find_flag(flags, p);
    assert(!starts_with(p, crate::cli_args::long_flag_prefix()));
    // `--limit` is the second value flag, and the operation uses it.
    assert(crate::text::index_of("--limit"@, '=') < 0) by {
        crate::text::lemma_index_of("--limit"@, '=');
    }
    assert(before_char("--limit"@, '=') == "--limit"@);
    assert(flags[0].0 != "--limit"@);
    assert(flags[1].0 == "--limit"@);
    assert("--page"@.len() == 6 && "--limit"@.len() == 7);
    assert(flags.drop_first()[0] == flags[1]);
    assert(crate::cli_args::find_flag(flags.drop_first(), "--limit"@) == 0);
    assert(crate::cli_args::find_flag(flags, "--limit"@) == 1);
    assert(flags[1].1);
    assert(model.switches =~= Seq::<Seq<char>>::empty());
    assert(crate::cli_args::scan_from(args, model, 3, 1) == Ok::<(Seq<Seq<char>>, Seq<crate::cli_args::IgnoredArgModel>), Seq<char>>((Seq::empty(), Seq::empty())));
    let none = Seq::<crate::cli_args::IgnoredArgModel>::empty();
    assert(!model.switches.contains("--limit"@));
    assert(!model.switches.contains(p));
    assert(args[1] == "--limit"@ && args[2] == v && args[0] == p);
    assert(seq!["--limit"@, v] + Seq::<Seq<char>>::empty() =~= seq!["--limit"@, v]);
    assert(none + none =~= none);
    assert(crate::cli_args::scan_from(args, model, 1, 1) == Ok::<(Seq<Seq<char>>, Seq<crate::cli_args::IgnoredArgModel>), Seq<char>>((seq!["--limit"@, v], none)));
    assert(seq![p] + seq!["--limit"@, v] =~= args);
    assert(crate::cli_args::scan_from(args, model, 0, 0) == Ok::<(Seq<Seq<char>>, Seq<crate::cli_args::IgnoredArgModel>), Seq<char>>((args, none)));
    assert(boundary_outcome(args, context, natives) == Ok::<Seq<Seq<char>>, Seq<char>>(args));
    // The grammar reads the path, then the limit.
    reveal_strlit("--");
    assert("--"@.len() == 2 && "--"@[0] == '-');
    assert(p.take(2) != "--"@ || p.len() < 2) by {
        if p.len() >= 2 {
            assert(p.take(2)[0] == p[0]);
        }
    }
    assert(!starts_with(p, "--"@));
    assert("--limit"@.take(2) =~= "--"@);
    assert(starts_with("--limit"@, "--"@));
    assert(crate::direct::flags::standard_flag("--limit"@) == Some(ValueFlagKind::Limit));
    assert(value_flag_of("--limit"@, natives) == Some(ValueFlagKind::Limit));
    assert(after_char("--limit"@, '=') is None);
    let m1 = MatchModel { path: Some(p), ..empty_match() };
    let m2 = MatchModel { limit: Some(v), ..m1 };
    assert(take_value(m1, ValueFlagKind::Limit, v) == Some(m2));
    assert(match_from(Operation::Outline, args, natives, 3, m2) == Some(m2));
    assert(match_from(Operation::Outline, args, natives, 1, m1) == Some(m2));
    assert(match_from(Operation::Outline, args, natives, 0, empty_match()) == Some(m2));
    assert(operation_match(Operation::Outline, args, natives) == Some(m2));
    // The rest comes from defaults.
    crate::number::law_decimal_text_reads_back(1, u32::MAX as nat);
    assert("1"@ == crate::number::decimal_text(1));
    assert(output_mode_of("readable-view"@) == Some(DirectOutputMode::ReadableView));
    assert(m2.native =~= Seq::<(Seq<char>, Seq<char>)>::empty());
    assert(native_values(Operation::Outline, m2.native, natives, native_defaults(Operation::Outline, natives)) is Ok);
}

/// Reads an operation's arguments: the strict check, the operation's
/// grammar, then the values resolved against the defaults, the adapter's
/// default limit given as a number and as its text.
pub fn parse_operation_options(operation: Operation, args: &[String], natives: &[NativeOptionSpec], default_limit: u32) -> (r: Result<DirectOperationOptions, String>)
    ensures
        match r {
            Ok(o) => operation_outcome(operation, strings_view(args@), natives@, default_limit, crate::number::decimal_text(default_limit as nat)) == Ok::<OptionsModel, Seq<char>>(o@),
            Err(e) => operation_outcome(operation, strings_view(args@), natives@, default_limit, crate::number::decimal_text(default_limit as nat)) == Err::<OptionsModel, Seq<char>>(e@),
        },
{
    let tokens = match collect_boundary_args(ArgContext::Operation(operation), args, natives) {
        Ok(t) => t,
        Err(e) => {
            return Err(e);
        },
    };
    let m = match match_operation_args(operation, &tokens, natives) {
        Some(m) => m,
        None => {
            return Err(operation_parse_error(operation, args, natives));
        },
    };
    let limit_text = crate::number::u64_text(default_limit as u64);
    let page = if operation == Operation::Info {
        1u32
    } else {
        match &m.page {
            Some(p) => positive_count_of(p.as_str(), "--page")?,
            None => positive_count_of("1", "--page")?,
        }
    };
    let limit = if operation == Operation::Info {
        positive_count_of(limit_text.as_str(), "--limit")?
    } else {
        match &m.limit {
            Some(l) => positive_count_of(l.as_str(), "--limit")?,
            None => positive_count_of(limit_text.as_str(), "--limit")?,
        }
    };
    let defaults = native_option_defaults(operation, natives);
    let native_options = native_option_values(operation, &m.native, natives, defaults)?;
    proof {
        lemma_match_output_valid(operation, strings_view(tokens@), natives@, 0, empty_match());
    }
    let output = match &m.output {
        Some(o) => crate::direct::output_mode::parse_output(o.as_str()),
        None => crate::direct::output_mode::parse_output("readable-view"),
    };
    let output = match output {
        Ok(o) => o,
        Err(e) => {
            return Err(e);
        },
    };
    let path = match m.path {
        Some(p) => p,
        None => {
            return Err(operation_parse_error(operation, args, natives));
        },
    };
    Ok(DirectOperationOptions { path, page, limit, output, ref_id: m.ref_id, query: m.query, native_options })
}

/// Reads the arguments of a command that takes no path: only `--output
/// protocol-json` is accepted.
pub fn parse_protocol_only_options(command: &str, args: &[String], natives: &[NativeOptionSpec]) -> (r: Result<(), String>)
    ensures
        match r {
            Ok(()) => boundary_outcome(strings_view(args@), ArgContext::ProtocolOnly { command }, natives@) matches Ok(tokens)
                && protocol_only_match(tokens) is Some,
            Err(e) => match boundary_outcome(strings_view(args@), ArgContext::ProtocolOnly { command }, natives@) {
                Err(b) => e@ == b,
                Ok(tokens) => protocol_only_match(tokens) is None && e@ == protocol_only_error_text(strings_view(args@)),
            },
        },
{
    let tokens = match collect_boundary_args(ArgContext::ProtocolOnly { command }, args, natives) {
        Ok(t) => t,
        Err(e) => {
            return Err(e);
        },
    };
    match match_output_only(&tokens, false) {
        Some(_) => Ok(()),
        None => Err(protocol_only_parse_error(args)),
    }
}

/// Reads the arguments of the probe command: the path and at most
/// `--output protocol-json`.
pub fn parse_probe(args: &[String], natives: &[NativeOptionSpec]) -> (r: Result<String, String>)
    ensures
        match r {
            Ok(path) => boundary_outcome(strings_view(args@), ArgContext::Probe, natives@) matches Ok(tokens)
                && probe_match(tokens) == Some(path@),
            Err(e) => match boundary_outcome(strings_view(args@), ArgContext::Probe, natives@) {
                Err(b) => e@ == b,
                Ok(tokens) => probe_match(tokens) is None && e@ == probe_error_text(strings_view(args@)),
            },
        },
{
    let tokens = match collect_boundary_args(ArgContext::Probe, args, natives) {
        Ok(t) => t,
        Err(e) => {
            return Err(e);
        },
    };
    match match_output_only(&tokens, true) {
        Some(Some(path)) => Ok(path),
        _ => Err(probe_parse_error(args)),
    }
}

/// The grammar of a command that takes `--output protocol-json` at most once
/// and, where `with_path`, one path, from position `i` on.
pub open spec fn output_only_from(tokens: Seq<Seq<char>>, with_path: bool, i: int, output_seen: bool, path: Option<Seq<char>>) -> Option<Option<Seq<char>>>
    decreases tokens.len() + 1 - i,
{
    if i < 0 || i >= tokens.len() {
        if with_path && path is None {
            None
        } else {
            Some(path)
        }
    } else {
        let t = tokens[i];
        if starts_with(t, "--"@) {
            if before_char(t, '=') != "--output"@ || output_seen {
                None
            } else {
                let inline = after_char(t, '=');
                if inline is None && i + 1 >= tokens.len() {
                    None
                } else {
                    let v = match inline {
                        Some(x) => x,
                        None => tokens[i + 1],
                    };
                    if v != "protocol-json"@ {
                        None
                    } else {
                        output_only_from(tokens, with_path, if inline is Some { i + 1 } else { i + 2 }, true, path)
                    }
                }
            }
        } else if !with_path || path is Some || t.len() == 0 || (t.len() >= 2 && t[0] == '-') {
            None
        } else {
            output_only_from(tokens, with_path, i + 1, output_seen, Some(t))
        }
    }
}

pub open spec fn protocol_only_match(tokens: Seq<Seq<char>>) -> Option<Option<Seq<char>>> {
    output_only_from(tokens, false, 0, false, None)
}

pub open spec fn probe_match(tokens: Seq<Seq<char>>) -> Option<Seq<char>> {
    match output_only_from(tokens, true, 0, false, None) {
        Some(Some(p)) => Some(p),
        _ => None,
    }
}

fn match_output_only(tokens: &Vec<String>, with_path: bool) -> (r: Option<Option<String>>)
    ensures
        match r {
            Some(p) => output_only_from(strings_view(tokens@), with_path, 0, false, None) == Some(opt_text(p)),
            None => output_only_from(strings_view(tokens@), with_path, 0, false, None) is None,
        },
{
    let ghost t = strings_view(tokens@);
    let mut output_seen = false;
    let mut path: Option<String> = None;
    let mut i: usize = 0;
    while i < tokens.len()
        invariant
            t == strings_view(tokens@),
            t.len() == tokens@.len(),
            i <= tokens@.len(),
            output_only_from(t, with_path, 0, false, None) == output_only_from(t, with_path, i as int, output_seen, opt_text(path)),
        decreases tokens.len() - i,
    {
        let token = tokens[i].as_str();
        assert(token@ == t[i as int]);
        if crate::text::text_starts_with(token, "--") {
            let (flag, inline) = split_once_char(token, '=');
            if !text_eq(flag.as_str(), "--output") || output_seen {
                return None;
            }
            if inline.is_none() && i + 1 >= tokens.len() {
                return None;
            }
            let next: usize = if inline.is_some() { i + 1 } else { i + 2 };
            let protocol = match &inline {
                Some(v) => text_eq(v.as_str(), "protocol-json"),
                None => {
                    assert(tokens@[i + 1]@ == t[i + 1]);
                    text_eq(tokens[i + 1].as_str(), "protocol-json")
                },
            };
            if !protocol {
                return None;
            }
            output_seen = true;
            i = next;
        } else {
            let n = token.unicode_len();
            if !with_path || path.is_some() || n == 0 || (n >= 2 && token.get_char(0) == '-') {
                return None;
            }
            path = Some(String::from_str(token));
            i = i + 1;
        }
    }
    if with_path && path.is_none() {
        return None;
    }
    Some(path)
}

} // verus!
