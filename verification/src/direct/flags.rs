//! The value flags of the direct command line and the strict check of an
//! argument list against them.

use vstd::prelude::*;

use crate::cli_args::{
    flags_view, scan_loose_args, scan_spec, strings_view, IgnoredArg, IgnoredArgModel, KnownValueFlag,
    LooseArgScan, LooseArgScanModel,
};
use crate::direct::native_options::NativeOptionSpec;
use crate::error::Operation;
use crate::text::{before_char, split_once_char, starts_with, text_eq, text_starts_with};
use crate::warning::{tokens_json, WarningModel, WarningProjection};
use crate::codes::{DiagnosticEffect, ReadableWarningDiagnosticCode};

verus! {

/// A value flag of the direct command line.
#[derive(Clone, Copy, Debug)]
pub enum ValueFlagKind {
    Page,
    Limit,
    Pagination,
    ProjectConfigPath,
    Ref,
    Query,
    Output,
    UserConfigPath,
    Native(NativeOptionSpec),
}

/// Where an argument list is read: a command that takes no path, the probe
/// command, or an operation.
#[derive(Clone, Copy, Debug)]
pub enum ArgContext<'a> {
    ProtocolOnly { command: &'a str },
    Probe,
    Operation(Operation),
}

/// The standard value flag that `name` names.
pub open spec fn standard_flag(name: Seq<char>) -> Option<ValueFlagKind> {
    if name == "--page"@ {
        Some(ValueFlagKind::Page)
    } else if name == "--limit"@ {
        Some(ValueFlagKind::Limit)
    } else if name == "--pagination"@ {
        Some(ValueFlagKind::Pagination)
    } else if name == "--project-config-path"@ {
        Some(ValueFlagKind::ProjectConfigPath)
    } else if name == "--ref"@ {
        Some(ValueFlagKind::Ref)
    } else if name == "--query"@ {
        Some(ValueFlagKind::Query)
    } else if name == "--output"@ {
        Some(ValueFlagKind::Output)
    } else if name == "--user-config-path"@ {
        Some(ValueFlagKind::UserConfigPath)
    } else {
        None
    }
}

/// The first native option whose flag is exactly `token`.
pub open spec fn find_native(natives: Seq<NativeOptionSpec>, token: Seq<char>) -> Option<NativeOptionSpec>
    decreases natives.len(),
{
    if natives.len() == 0 {
        None
    } else if natives[0].flag@ == token {
        Some(natives[0])
    } else {
        find_native(natives.drop_first(), token)
    }
}

/// The value flag a token starts: a standard flag named by the token up to
/// its first '=', else a native option whose flag is the whole token.
pub open spec fn value_flag_of(token: Seq<char>, natives: Seq<NativeOptionSpec>) -> Option<ValueFlagKind> {
    match standard_flag(before_char(token, '=')) {
        Some(k) => Some(k),
        None => match find_native(natives, token) {
            Some(n) => Some(ValueFlagKind::Native(n)),
            None => None,
        },
    }
}

/// Whether an operation uses a value flag.
pub open spec fn operation_uses(operation: Operation, flag: ValueFlagKind) -> bool {
    match flag {
        ValueFlagKind::Page | ValueFlagKind::Limit | ValueFlagKind::Pagination => operation != Operation::Info,
        ValueFlagKind::ProjectConfigPath | ValueFlagKind::UserConfigPath => true,
        ValueFlagKind::Ref => operation == Operation::Read,
        ValueFlagKind::Query => operation == Operation::Find,
        ValueFlagKind::Output => true,
        ValueFlagKind::Native(spec) => spec.spec_supports(operation),
    }
}

/// Whether a context uses a value flag: only `--output` outside operations.
pub open spec fn context_uses(context: ArgContext, flag: ValueFlagKind) -> bool {
    match context {
        ArgContext::Operation(operation) => operation_uses(operation, flag),
        _ => flag is Output,
    }
}

pub open spec fn context_label(context: ArgContext) -> Seq<char> {
    match context {
        ArgContext::ProtocolOnly { command } => command@,
        ArgContext::Probe => "probe"@,
        ArgContext::Operation(operation) => operation.spec_as_str(),
    }
}

/// A context takes a path unless its command takes none.
pub open spec fn context_positional_limit(context: ArgContext) -> nat {
    match context {
        ArgContext::ProtocolOnly { .. } => 0,
        _ => 1,
    }
}

/// The value flags of a context, with whether it uses each: the standard
/// flags, then the native options.
pub open spec fn boundary_flags(context: ArgContext, natives: Seq<NativeOptionSpec>) -> Seq<(Seq<char>, bool)> {
    seq![
        ("--page"@, context_uses(context, ValueFlagKind::Page)),
        ("--limit"@, context_uses(context, ValueFlagKind::Limit)),
        ("--pagination"@, context_uses(context, ValueFlagKind::Pagination)),
        ("--project-config-path"@, context_uses(context, ValueFlagKind::ProjectConfigPath)),
        ("--ref"@, context_uses(context, ValueFlagKind::Ref)),
        ("--query"@, context_uses(context, ValueFlagKind::Query)),
        ("--output"@, context_uses(context, ValueFlagKind::Output)),
        ("--user-config-path"@, context_uses(context, ValueFlagKind::UserConfigPath)),
    ] + Seq::new(natives.len(), |i: int| (natives[i].flag@, context_uses(context, ValueFlagKind::Native(natives[i]))))
}

pub open spec fn boundary_model(context: ArgContext, natives: Seq<NativeOptionSpec>) -> LooseArgScanModel {
    LooseArgScanModel {
        command: context_label(context),
        positional_limit: context_positional_limit(context),
        flags: boundary_flags(context, natives),
        switches: Seq::empty(),
    }
}

/// The message that refuses an argument the scan set aside.
pub open spec fn rejected_text(a: IgnoredArgModel) -> Seq<char> {
    match a {
        IgnoredArgModel::UnknownFlag { token } => "unknown argument "@ + token,
        IgnoredArgModel::ExtraPositional { token } => "extra positional argument "@ + token,
        IgnoredArgModel::UnusedValueFlag { flag, value, command } => flag + match value {
            Some(v) => " "@ + v,
            None => Seq::empty(),
        } + " is not used by "@ + command + " command"@,
    }
}

/// The strict check of an argument list: a flag without its value fails,
/// the first argument the scan sets aside fails, else the scan's retained
/// arguments go on to the command's parser.
pub open spec fn boundary_outcome(args: Seq<Seq<char>>, context: ArgContext, natives: Seq<NativeOptionSpec>) -> Result<Seq<Seq<char>>, Seq<char>> {
    match scan_spec(args, boundary_model(context, natives)) {
        Err(flag) => Err(flag + " requires a value"@),
        Ok((retained, ignored)) => if ignored.len() > 0 {
            Err(rejected_text(ignored[0]))
        } else {
            Ok(retained)
        },
    }
}

/// Splits a token at its first '='.
pub fn split_equals(token: &str) -> (r: (String, Option<String>))
    ensures
        r.0@ == before_char(token@, '='),
        match r.1 {
            Some(v) => crate::text::after_char(token@, '=') == Some(v@),
            None => crate::text::after_char(token@, '=') is None,
        },
{
    split_once_char(token, '=')
}

/// Whether a token is a long flag.
pub fn is_flag(value: &str) -> (r: bool)
    ensures
        r == starts_with(value@, "--"@),
{
    text_starts_with(value, "--")
}

fn standard_value_flag(name: &str) -> (r: Option<ValueFlagKind>)
    ensures
        r == standard_flag(name@),
{
    if text_eq(name, "--page") {
        Some(ValueFlagKind::Page)
    } else if text_eq(name, "--limit") {
        Some(ValueFlagKind::Limit)
    } else if text_eq(name, "--pagination") {
        Some(ValueFlagKind::Pagination)
    } else if text_eq(name, "--project-config-path") {
        Some(ValueFlagKind::ProjectConfigPath)
    } else if text_eq(name, "--ref") {
        Some(ValueFlagKind::Ref)
    } else if text_eq(name, "--query") {
        Some(ValueFlagKind::Query)
    } else if text_eq(name, "--output") {
        Some(ValueFlagKind::Output)
    } else if text_eq(name, "--user-config-path") {
        Some(ValueFlagKind::UserConfigPath)
    } else {
        None
    }
}

/// The value flag a token starts, if any.
pub fn known_value_flag(token: &str, natives: &[NativeOptionSpec]) -> (r: Option<ValueFlagKind>)
    ensures
        r == value_flag_of(token@, natives@),
{
    let (flag, _value) = split_equals(token);
    match standard_value_flag(flag.as_str()) {
        Some(k) => {
            return Some(k);
        },
        None => {},
    }
    let mut i: usize = 0;
    assert(natives@.skip(0) =~= natives@);
    while i < natives.len()
        invariant
            i <= natives@.len(),
            standard_flag(before_char(token@, '=')) is None,
            find_native(natives@, token@) == find_native(natives@.skip(i as int), token@),
        decreases natives.len() - i,
    {
        assert(natives@.skip(i as int)[0] == natives@[i as int]);
        if text_eq(natives[i].flag, token) {
            return Some(ValueFlagKind::Native(natives[i]));
        }
        assert(natives@.skip(i as int).drop_first() =~= natives@.skip(i + 1));
        i = i + 1;
    }
    None
}

/// Whether an operation uses a value flag.
pub fn operation_uses_flag(operation: Operation, flag: ValueFlagKind) -> (r: bool)
    ensures
        r == operation_uses(operation, flag),
{
    match flag {
        ValueFlagKind::Page | ValueFlagKind::Limit | ValueFlagKind::Pagination => operation != Operation::Info,
        ValueFlagKind::ProjectConfigPath | ValueFlagKind::UserConfigPath => true,
        ValueFlagKind::Ref => operation == Operation::Read,
        ValueFlagKind::Query => operation == Operation::Find,
        ValueFlagKind::Output => true,
        ValueFlagKind::Native(spec) => spec.supports(operation),
    }
}

impl<'a> ArgContext<'a> {
    pub fn uses_flag(self, flag: ValueFlagKind) -> (r: bool)
        ensures
            r == context_uses(self, flag),
    {
        match self {
            ArgContext::Operation(operation) => operation_uses_flag(operation, flag),
            _ => match flag {
                ValueFlagKind::Output => true,
                _ => false,
            },
        }
    }

    pub fn command_label(&self) -> (r: &'a str)
        ensures
            r@ == context_label(*self),
    {
        match self {
            ArgContext::ProtocolOnly { command } => command,
            ArgContext::Probe => "probe",
            ArgContext::Operation(operation) => operation.as_str(),
        }
    }
}

/// The value flags of a context with whether it uses each.
pub fn boundary_known_value_flags(context: ArgContext, natives: &[NativeOptionSpec]) -> (r: Vec<KnownValueFlag>)
    ensures
        flags_view(r@) == boundary_flags(context, natives@),
{
    let mut flags: Vec<KnownValueFlag> = Vec::new();
    flags.push(KnownValueFlag { flag: String::from_str("--page"), used: context.uses_flag(ValueFlagKind::Page) });
    flags.push(KnownValueFlag { flag: String::from_str("--limit"), used: context.uses_flag(ValueFlagKind::Limit) });
    flags.push(KnownValueFlag { flag: String::from_str("--pagination"), used: context.uses_flag(ValueFlagKind::Pagination) });
    flags.push(
        KnownValueFlag { flag: String::from_str("--project-config-path"), used: context.uses_flag(ValueFlagKind::ProjectConfigPath) },
    );
    flags.push(KnownValueFlag { flag: String::from_str("--ref"), used: context.uses_flag(ValueFlagKind::Ref) });
    flags.push(KnownValueFlag { flag: String::from_str("--query"), used: context.uses_flag(ValueFlagKind::Query) });
    flags.push(KnownValueFlag { flag: String::from_str("--output"), used: context.uses_flag(ValueFlagKind::Output) });
    flags.push(
        KnownValueFlag { flag: String::from_str("--user-config-path"), used: context.uses_flag(ValueFlagKind::UserConfigPath) },
    );
    let ghost fixed = flags_view(flags@);
    let mut i: usize = 0;
    while i < natives.len()
        invariant
            i <= natives@.len(),
            flags@.len() == 8 + i,
            flags_view(flags@) =~= fixed + Seq::new(
                i as nat,
                |j: int| (natives@[j].flag@, context_uses(context, ValueFlagKind::Native(natives@[j]))),
            ),
        decreases natives.len() - i,
    {
        let spec = natives[i];
        let ghost before = flags@;
        let f = KnownValueFlag { flag: String::from_str(spec.flag), used: context.uses_flag(ValueFlagKind::Native(spec)) };
        assert(f@ == (natives@[i as int].flag@, context_uses(context, ValueFlagKind::Native(natives@[i as int]))));
        flags.push(f);
        assert(flags_view(flags@) =~= flags_view(before).push(f@));
        i = i + 1;
    }
    proof {
        assert(fixed =~= boundary_flags(context, natives@).take(8));
        assert(flags_view(flags@) =~= boundary_flags(context, natives@));
    }
    flags
}

/// The message that refuses an argument the scan set aside.
pub fn strict_rejected_arg_error(rejected: &IgnoredArg) -> (r: String)
    ensures
        r@ == rejected_text(rejected@),
{
    match rejected {
        IgnoredArg::UnknownFlag { token } => {
            let mut m = String::from_str("unknown argument ");
            m.append(token.as_str());
            m
        },
        IgnoredArg::ExtraPositional { token } => {
            let mut m = String::from_str("extra positional argument ");
            m.append(token.as_str());
            m
        },
        IgnoredArg::UnusedValueFlag { flag, value, command } => {
            let mut m = String::from_str(flag.as_str());
            match value {
                Some(v) => {
                    m.append(" ");
                    m.append(v.as_str());
                },
                None => {},
            }
            m.append(" is not used by ");
            m.append(command.as_str());
            m.append(" command");
            m
        },
    }
}

/// Checks an argument list strictly and returns the arguments for the
/// command's parser.
pub fn collect_boundary_args(context: ArgContext, args: &[String], natives: &[NativeOptionSpec]) -> (r: Result<Vec<String>, String>)
    ensures
        match r {
            Ok(v) => boundary_outcome(strings_view(args@), context, natives@) == Ok::<Seq<Seq<char>>, Seq<char>>(strings_view(v@)),
            Err(e) => boundary_outcome(strings_view(args@), context, natives@) == Err::<Seq<Seq<char>>, Seq<char>>(e@),
        },
{
    let flags = boundary_known_value_flags(context, natives);
    let positional_limit: usize = match context {
        ArgContext::ProtocolOnly { .. } => 0,
        _ => 1,
    };
    let scan_config = LooseArgScan::new(context.command_label(), positional_limit, flags);
    assert(scan_config@ == boundary_model(context, natives@));
    match scan_loose_args(args, &scan_config) {
        Err(missing) => {
            let mut m = String::from_str(missing.flag());
            m.append(" requires a value");
            Err(m)
        },
        Ok(scan) => {
            if scan.ignored.len() > 0 {
                Err(strict_rejected_arg_error(&scan.ignored[0]))
            } else {
                Ok(scan.retained_args)
            }
        },
    }
}

/// The value flags of a context for the lenient scan, with whether it uses
/// each: the standard flags but `--pagination`, then the native options.
pub open spec fn loose_flags(context: ArgContext, natives: Seq<NativeOptionSpec>) -> Seq<(Seq<char>, bool)> {
    seq![
        ("--page"@, context_uses(context, ValueFlagKind::Page)),
        ("--limit"@, context_uses(context, ValueFlagKind::Limit)),
        ("--project-config-path"@, context_uses(context, ValueFlagKind::ProjectConfigPath)),
        ("--ref"@, context_uses(context, ValueFlagKind::Ref)),
        ("--query"@, context_uses(context, ValueFlagKind::Query)),
        ("--output"@, context_uses(context, ValueFlagKind::Output)),
        ("--user-config-path"@, context_uses(context, ValueFlagKind::UserConfigPath)),
    ] + Seq::new(natives.len(), |i: int| (natives[i].flag@, context_uses(context, ValueFlagKind::Native(natives[i]))))
}

pub open spec fn loose_model(context: ArgContext, natives: Seq<NativeOptionSpec>) -> LooseArgScanModel {
    LooseArgScanModel {
        command: context_label(context),
        positional_limit: context_positional_limit(context),
        flags: loose_flags(context, natives),
        switches: Seq::empty(),
    }
}

/// The warning for an argument that the lenient scan set aside.
pub open spec fn ignored_warning(a: IgnoredArgModel) -> WarningModel {
    match a {
        IgnoredArgModel::UnknownFlag { token } => WarningModel {
            code: ReadableWarningDiagnosticCode::CliArgvIgnored,
            reason: "unknown CLI flag ignored"@,
            effect: DiagnosticEffect::OperationContinued,
            details: tokens_json(seq![token]),
        },
        IgnoredArgModel::ExtraPositional { token } => WarningModel {
            code: ReadableWarningDiagnosticCode::CliArgvIgnored,
            reason: "extra positional argument ignored"@,
            effect: DiagnosticEffect::OperationContinued,
            details: tokens_json(seq![token]),
        },
        IgnoredArgModel::UnusedValueFlag { flag, value, command } => WarningModel {
            code: ReadableWarningDiagnosticCode::CliArgvIgnored,
            reason: "flag is not used by "@ + command + " command"@,
            effect: DiagnosticEffect::OperationContinued,
            details: tokens_json(
                match value {
                    Some(v) => seq![flag, v],
                    None => seq![flag],
                },
            ),
        },
    }
}

/// The lenient check of an argument list: a flag without its value fails;
/// every argument the scan sets aside becomes a warning, and the retained
/// arguments go on to the command's parser.
pub open spec fn loose_outcome(args: Seq<Seq<char>>, context: ArgContext, natives: Seq<NativeOptionSpec>) -> Result<(Seq<Seq<char>>, Seq<WarningModel>), Seq<char>> {
    match scan_spec(args, loose_model(context, natives)) {
        Err(flag) => Err(flag + " requires a value"@),
        Ok((retained, ignored)) => Ok((retained, ignored.map_values(|a: IgnoredArgModel| ignored_warning(a)))),
    }
}

/// The warning for an argument that the lenient scan set aside.
pub fn warning_from_ignored_arg(ignored: &IgnoredArg) -> (r: WarningProjection)
    ensures
        r@ == ignored_warning(ignored@),
{
    match ignored {
        IgnoredArg::UnknownFlag { token } => WarningProjection::unknown_flag(token.as_str()),
        IgnoredArg::ExtraPositional { token } => WarningProjection::extra_positional(token.as_str()),
        IgnoredArg::UnusedValueFlag { flag, value, command } => {
            let v: Option<&str> = match value {
                Some(v) => Some(v.as_str()),
                None => None,
            };
            WarningProjection::unused_operation_flag(flag.as_str(), v, command.as_str())
        },
    }
}

/// The value flags of a context for the lenient scan.
pub fn loose_known_value_flags(context: ArgContext, natives: &[NativeOptionSpec]) -> (r: Vec<KnownValueFlag>)
    ensures
        flags_view(r@) == loose_flags(context, natives@),
{
    let mut flags: Vec<KnownValueFlag> = Vec::new();
    flags.push(KnownValueFlag { flag: String::from_str("--page"), used: context.uses_flag(ValueFlagKind::Page) });
    flags.push(KnownValueFlag { flag: String::from_str("--limit"), used: context.uses_flag(ValueFlagKind::Limit) });
    flags.push(
        KnownValueFlag { flag: String::from_str("--project-config-path"), used: context.uses_flag(ValueFlagKind::ProjectConfigPath) },
    );
    flags.push(KnownValueFlag { flag: String::from_str("--ref"), used: context.uses_flag(ValueFlagKind::Ref) });
    flags.push(KnownValueFlag { flag: String::from_str("--query"), used: context.uses_flag(ValueFlagKind::Query) });
    flags.push(KnownValueFlag { flag: String::from_str("--output"), used: context.uses_flag(ValueFlagKind::Output) });
    flags.push(
        KnownValueFlag { flag: String::from_str("--user-config-path"), used: context.uses_flag(ValueFlagKind::UserConfigPath) },
    );
    let ghost fixed = flags_view(flags@);
    let mut i: usize = 0;
    while i < natives.len()
        invariant
            i <= natives@.len(),
            flags@.len() == 7 + i,
            flags_view(flags@) =~= fixed + Seq::new(
                i as nat,
                |j: int| (natives@[j].flag@, context_uses(context, ValueFlagKind::Native(natives@[j]))),
            ),
        decreases natives.len() - i,
    {
        let spec = natives[i];
        let ghost before = flags@;
        let f = KnownValueFlag { flag: String::from_str(spec.flag), used: context.uses_flag(ValueFlagKind::Native(spec)) };
        assert(f@ == (natives@[i as int].flag@, context_uses(context, ValueFlagKind::Native(natives@[i as int]))));
        flags.push(f);
        assert(flags_view(flags@) =~= flags_view(before).push(f@));
        i = i + 1;
    }
    proof {
        assert(fixed =~= loose_flags(context, natives@).take(7));
        assert(flags_view(flags@) =~= loose_flags(context, natives@));
    }
    flags
}

/// Checks an argument list leniently: the arguments for the command's
/// parser, and a warning for each argument set aside.
pub fn collect_loose_args(context: ArgContext, args: &[String], natives: &[NativeOptionSpec]) -> (r: Result<(Vec<String>, Vec<WarningProjection>), String>)
    ensures
        match r {
            Ok((retained, warnings)) => loose_outcome(strings_view(args@), context, natives@) == Ok::<
                (Seq<Seq<char>>, Seq<WarningModel>),
                Seq<char>,
            >((strings_view(retained@), warnings@.map_values(|w: WarningProjection| w@))),
            Err(e) => loose_outcome(strings_view(args@), context, natives@) == Err::<(Seq<Seq<char>>, Seq<WarningModel>), Seq<char>>(e@),
        },
{
    let flags = loose_known_value_flags(context, natives);
    let positional_limit: usize = match context {
        ArgContext::ProtocolOnly { .. } => 0,
        _ => 1,
    };
    let scan_config = LooseArgScan::new(context.command_label(), positional_limit, flags);
    assert(scan_config@ == loose_model(context, natives@));
    match scan_loose_args(args, &scan_config) {
        Err(missing) => {
            let mut m = String::from_str(missing.flag());
            m.append(" requires a value");
            Err(m)
        },
        Ok(scan) => {
            let ghost iv = crate::cli_args::ignored_view(scan.ignored@);
            let mut warnings: Vec<WarningProjection> = Vec::new();
            let mut i: usize = 0;
            while i < scan.ignored.len()
                invariant
                    i <= scan.ignored@.len(),
                    iv == crate::cli_args::ignored_view(scan.ignored@),
                    warnings@.map_values(|w: WarningProjection| w@) =~= iv.take(i as int).map_values(|a: IgnoredArgModel| ignored_warning(a)),
                decreases scan.ignored.len() - i,
            {
                let ghost before = warnings@;
                let w = warning_from_ignored_arg(&scan.ignored[i]);
                warnings.push(w);
                assert(warnings@.map_values(|w: WarningProjection| w@) =~= before.map_values(|w: WarningProjection| w@).push(w@));
                assert(iv.take(i + 1) =~= iv.take(i as int).push(iv[i as int]));
                i = i + 1;
            }
            assert(iv.take(iv.len() as int) =~= iv);
            Ok((scan.retained_args, warnings))
        },
    }
}

} // verus!
