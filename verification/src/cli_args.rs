//! Loose scanning of command-line arguments: known switches and value flags
//! are retained, unknown flags, surplus positionals and value flags that the
//! command does not use are set aside as ignored arguments.

use vstd::prelude::*;

use crate::text::{
    after_char, before_char, index_of, lemma_index_of, split_once_char, starts_with, text_eq,
    text_starts_with,
};

verus! {

/// A value-taking flag that the scanner recognises, and whether the command uses it.
#[derive(Clone, Debug, PartialEq, Eq)]
pub struct KnownValueFlag {
    pub flag: String,
    pub used: bool,
}

impl View for KnownValueFlag {
    type V = (Seq<char>, bool);

    open spec fn view(&self) -> (Seq<char>, bool) {
        (self.flag@, self.used)
    }
}

impl KnownValueFlag {
    pub fn used(flag: &str) -> (r: Self)
        ensures
            r@ == (flag@, true),
    {
        KnownValueFlag { flag: String::from_str(flag), used: true }
    }

    pub fn unused(flag: &str) -> (r: Self)
        ensures
            r@ == (flag@, false),
    {
        KnownValueFlag { flag: String::from_str(flag), used: false }
    }
}

/// The abstract configuration of a scan.
pub struct LooseArgScanModel {
    pub command: Seq<char>,
    pub positional_limit: nat,
    pub flags: Seq<(Seq<char>, bool)>,
    pub switches: Seq<Seq<char>>,
}

/// What a scan knows: the command label, how many positionals it keeps,
/// its value flags and its switch flags.
#[derive(Clone, Debug, PartialEq, Eq)]
pub struct LooseArgScan {
    pub command: String,
    pub positional_limit: usize,
    pub known_value_flags: Vec<KnownValueFlag>,
    pub known_switch_flags: Vec<String>,
}

pub open spec fn strings_view(v: Seq<String>) -> Seq<Seq<char>> {
    v.map_values(|s: String| s@)
}

pub open spec fn flags_view(v: Seq<KnownValueFlag>) -> Seq<(Seq<char>, bool)> {
    v.map_values(|f: KnownValueFlag| f@)
}

impl View for LooseArgScan {
    type V = LooseArgScanModel;

    open spec fn view(&self) -> LooseArgScanModel {
        LooseArgScanModel {
            command: self.command@,
            positional_limit: self.positional_limit as nat,
            flags: flags_view(self.known_value_flags@),
            switches: strings_view(self.known_switch_flags@),
        }
    }
}

impl LooseArgScan {
    pub fn new(command: &str, positional_limit: usize, known_value_flags: Vec<KnownValueFlag>) -> (r:
        Self)
        ensures
            r@.command == command@,
            r@.positional_limit == positional_limit,
            r@.flags == flags_view(known_value_flags@),
            r@.switches == Seq::<Seq<char>>::empty(),
    {
        let r = LooseArgScan {
            command: String::from_str(command),
            positional_limit,
            known_value_flags,
            known_switch_flags: Vec::new(),
        };
        assert(strings_view(r.known_switch_flags@) =~= Seq::<Seq<char>>::empty());
        r
    }

    pub fn with_known_switch_flags(self, known_switch_flags: Vec<String>) -> (r: Self)
        ensures
            r@.command == self@.command,
            r@.positional_limit == self@.positional_limit,
            r@.flags == self@.flags,
            r@.switches == strings_view(known_switch_flags@),
    {
        LooseArgScan { known_switch_flags, ..self }
    }
}

/// Abstract form of an ignored argument.
pub enum IgnoredArgModel {
    UnknownFlag { token: Seq<char> },
    ExtraPositional { token: Seq<char> },
    UnusedValueFlag { flag: Seq<char>, value: Option<Seq<char>>, command: Seq<char> },
}

/// An argument that the scan set aside.
#[derive(Clone, Debug, PartialEq, Eq)]
pub enum IgnoredArg {
    UnknownFlag { token: String },
    ExtraPositional { token: String },
    UnusedValueFlag { flag: String, value: Option<String>, command: String },
}

pub open spec fn opt_view(o: Option<String>) -> Option<Seq<char>> {
    match o {
        Some(s) => Some(s@),
        None => None,
    }
}

impl View for IgnoredArg {
    type V = IgnoredArgModel;

    open spec fn view(&self) -> IgnoredArgModel {
        match self {
            IgnoredArg::UnknownFlag { token } => IgnoredArgModel::UnknownFlag { token: token@ },
            IgnoredArg::ExtraPositional { token } => IgnoredArgModel::ExtraPositional {
                token: token@,
            },
            IgnoredArg::UnusedValueFlag { flag, value, command } =>
                IgnoredArgModel::UnusedValueFlag {
                flag: flag@,
                value: opt_view(*value),
                command: command@,
            },
        }
    }
}

pub open spec fn ignored_view(v: Seq<IgnoredArg>) -> Seq<IgnoredArgModel> {
    v.map_values(|a: IgnoredArg| a@)
}

/// The outcome of a scan: retained arguments and ignored arguments, or the
/// flag whose value is missing.
#[derive(Clone, Debug, PartialEq, Eq)]
pub struct LooseArgScanResult {
    pub retained_args: Vec<String>,
    pub ignored: Vec<IgnoredArg>,
}

/// A value flag that ended the argument list without its value.
#[derive(Clone, Debug, PartialEq, Eq)]
pub struct MissingValue {
    flag: String,
}

impl MissingValue {
    pub closed spec fn flag_view(&self) -> Seq<char> {
        self.flag@
    }

    pub fn flag(&self) -> (r: &str)
        ensures
            r@ == self.flag_view(),
    {
        self.flag.as_str()
    }
}

pub type ScanOutcome = Result<(Seq<Seq<char>>, Seq<IgnoredArgModel>), Seq<char>>;

/// First position in `flags` whose name is `name`, or `-1`.
pub open spec fn find_flag(flags: Seq<(Seq<char>, bool)>, name: Seq<char>) -> int
    decreases flags.len(),
{
    if flags.len() == 0 {
        -1
    } else if flags[0].0 == name {
        0
    } else {
        let rest = find_flag(flags.drop_first(), name);
        if rest < 0 {
            -1
        } else {
            rest + 1
        }
    }
}

pub open spec fn long_flag_prefix() -> Seq<char> {
    seq!['-', '-']
}

/// Prepends already-scanned arguments to the outcome of the rest of a scan.
pub open spec fn prefix_outcome(
    retained: Seq<Seq<char>>,
    ignored: Seq<IgnoredArgModel>,
    rest: ScanOutcome,
) -> ScanOutcome {
    match rest {
        Ok((r, i)) => Ok((retained + r, ignored + i)),
        Err(e) => Err(e),
    }
}

/// The scan of `args` from position `idx`, having seen `positional` positionals.
pub open spec fn scan_from(args: Seq<Seq<char>>, m: LooseArgScanModel, idx: int, positional: int) -> ScanOutcome
    decreases args.len() - idx,
{
    if idx < 0 || idx >= args.len() {
        Ok((Seq::empty(), Seq::empty()))
    } else {
        let token = args[idx];
        let flag_token = before_char(token, '=');
        let found = find_flag(m.flags, flag_token);
        if m.switches.contains(token) {
            prefix_outcome(seq![token], Seq::empty(), scan_from(args, m, idx + 1, positional))
        } else if found >= 0 {
            let used = m.flags[found].1;
            if index_of(token, '=') >= 0 {
                if used {
                    prefix_outcome(seq![token], Seq::empty(), scan_from(args, m, idx + 1, positional))
                } else {
                    prefix_outcome(
                        Seq::empty(),
                        seq![
                            IgnoredArgModel::UnusedValueFlag {
                                flag: token,
                                value: after_char(token, '='),
                                command: m.command,
                            },
                        ],
                        scan_from(args, m, idx + 1, positional),
                    )
                }
            } else if idx + 1 < args.len() {
                if used {
                    prefix_outcome(
                        seq![token, args[idx + 1]],
                        Seq::empty(),
                        scan_from(args, m, idx + 2, positional),
                    )
                } else {
                    prefix_outcome(
                        Seq::empty(),
                        seq![
                            IgnoredArgModel::UnusedValueFlag {
                                flag: token,
                                value: Some(args[idx + 1]),
                                command: m.command,
                            },
                        ],
                        scan_from(args, m, idx + 2, positional),
                    )
                }
            } else {
                Err(flag_token)
            }
        } else if starts_with(token, long_flag_prefix()) {
            prefix_outcome(
                Seq::empty(),
                seq![IgnoredArgModel::UnknownFlag { token }],
                scan_from(args, m, idx + 1, positional),
            )
        } else if positional < m.positional_limit {
            prefix_outcome(seq![token], Seq::empty(), scan_from(args, m, idx + 1, positional + 1))
        } else {
            prefix_outcome(
                Seq::empty(),
                seq![IgnoredArgModel::ExtraPositional { token }],
                scan_from(args, m, idx + 1, positional + 1),
            )
        }
    }
}

/// The whole scan of `args` under `m`.
pub open spec fn scan_spec(args: Seq<Seq<char>>, m: LooseArgScanModel) -> ScanOutcome {
    scan_from(args, m, 0, 0)
}

proof fn lemma_prefix_outcome_assoc(
    r1: Seq<Seq<char>>,
    i1: Seq<IgnoredArgModel>,
    r2: Seq<Seq<char>>,
    i2: Seq<IgnoredArgModel>,
    x: ScanOutcome,
)
    ensures
        prefix_outcome(r1, i1, prefix_outcome(r2, i2, x)) == prefix_outcome(r1 + r2, i1 + i2, x),
{
    match x {
        Ok((a, b)) => {
            assert(r1 + (r2 + a) =~= (r1 + r2) + a);
            assert(i1 + (i2 + b) =~= (i1 + i2) + b);
        },
        Err(_) => {},
    }
}

pub(crate) proof fn lemma_find_flag(flags: Seq<(Seq<char>, bool)>, name: Seq<char>)
    ensures
        find_flag(flags, name) == -1 <==> (forall|j: int| 0 <= j < flags.len() ==> flags[j].0 != name),
        find_flag(flags, name) >= 0 ==> {
            &&& find_flag(flags, name) < flags.len()
            &&& flags[find_flag(flags, name)].0 == name
            &&& forall|j: int| 0 <= j < find_flag(flags, name) ==> flags[j].0 != name
        },
        find_flag(flags, name) >= -1,
    decreases flags.len(),
{
    if flags.len() > 0 && flags[0].0 != name {
        lemma_find_flag(flags.drop_first(), name);
        assert forall|j: int| 0 < j < flags.len() implies flags[j] == flags.drop_first()[j - 1] by {}
        if find_flag(flags.drop_first(), name) >= 0 {
            let k = find_flag(flags.drop_first(), name);
            assert(flags[k + 1] == flags.drop_first()[k]);
        }
    }
}

fn find_known_value_flag(flags: &Vec<KnownValueFlag>, name: &str) -> (r: Option<usize>)
    ensures
        match r {
            Some(i) => find_flag(flags_view(flags@), name@) == i as int,
            None => find_flag(flags_view(flags@), name@) == -1,
        },
{
    let ghost fv = flags_view(flags@);
    proof {
        lemma_find_flag(fv, name@);
    }
    let mut i: usize = 0;
    while i < flags.len()
        invariant
            fv == flags_view(flags@),
            i <= flags.len(),
            forall|j: int| 0 <= j < i ==> fv[j].0 != name@,
        decreases flags.len() - i,
    {
        if text_eq(flags[i].flag.as_str(), name) {
            assert(fv[i as int].0 == name@);
            proof {
                lemma_find_flag(fv, name@);
            }
            assert(find_flag(fv, name@) != -1);
            assert(find_flag(fv, name@) == i as int);
            return Some(i);
        }
        assert(fv[i as int] == flags@[i as int]@);
        i = i + 1;
    }
    None
}

fn is_known_switch_flag(switches: &Vec<String>, token: &str) -> (r: bool)
    ensures
        r == strings_view(switches@).contains(token@),
{
    let ghost sv = strings_view(switches@);
    let mut i: usize = 0;
    while i < switches.len()
        invariant
            sv == strings_view(switches@),
            i <= switches.len(),
            forall|j: int| 0 <= j < i ==> sv[j] != token@,
        decreases switches.len() - i,
    {
        if text_eq(switches[i].as_str(), token) {
            assert(sv[i as int] == token@);
            return true;
        }
        i = i + 1;
    }
    false
}

/// Scans `args` under `config`. Known switches and used value flags (with
/// their values) are retained in order, together with positionals up to the
/// positional limit; everything else is reported as ignored. Fails only when a
/// known value flag written without `=` is the last argument.
pub fn scan_loose_args(args: &[String], config: &LooseArgScan) -> (r: Result<
    LooseArgScanResult,
    MissingValue,
>)
    ensures
        match r {
            Ok(res) => scan_spec(strings_view(args@), config@) == Ok::<
                (Seq<Seq<char>>, Seq<IgnoredArgModel>),
                Seq<char>,
            >((strings_view(res.retained_args@), ignored_view(res.ignored@))),
            Err(e) => scan_spec(strings_view(args@), config@) == Err::<
                (Seq<Seq<char>>, Seq<IgnoredArgModel>),
                Seq<char>,
            >(e.flag_view()),
        },
{
    let ghost av = strings_view(args@);
    let ghost m = config@;
    let mut retained: Vec<String> = Vec::new();
    let mut ignored: Vec<IgnoredArg> = Vec::new();
    let mut positional: usize = 0;
    let mut index: usize = 0;
    assert(strings_view(retained@) =~= Seq::<Seq<char>>::empty());
    assert(ignored_view(ignored@) =~= Seq::<IgnoredArgModel>::empty());
    assert(prefix_outcome(Seq::empty(), Seq::empty(), scan_from(av, m, 0, 0)) =~= scan_from(
        av,
        m,
        0,
        0,
    )) by {
        match scan_from(av, m, 0, 0) {
            Ok((a, b)) => {
                assert(Seq::<Seq<char>>::empty() + a =~= a);
                assert(Seq::<IgnoredArgModel>::empty() + b =~= b);
            },
            Err(_) => {},
        }
    }
    while index < args.len()
        invariant
            av == strings_view(args@),
            m == config@,
            av.len() == args@.len(),
            positional <= index <= args.len(),
            scan_spec(av, m) == prefix_outcome(
                strings_view(retained@),
                ignored_view(ignored@),
                scan_from(av, m, index as int, positional as int),
            ),
        decreases args.len() - index,
    {
        let ghost old_retained = strings_view(retained@);
        let ghost old_ignored = ignored_view(ignored@);
        let ghost idx = index as int;
        let token = &args[index];
        let (flag_token, inline_value) = split_once_char(token.as_str(), '=');
        proof {
            lemma_index_of(token@, '=');
            assert(av[idx] == token@);
        }
        if is_known_switch_flag(&config.known_switch_flags, token.as_str()) {
            retained.push(token.clone());
            index = index + 1;
            proof {
                lemma_prefix_outcome_assoc(
                    old_retained,
                    old_ignored,
                    seq![token@],
                    Seq::empty(),
                    scan_from(av, m, index as int, positional as int),
                );
                assert(strings_view(retained@) =~= old_retained + seq![token@]);
                assert(old_ignored + Seq::<IgnoredArgModel>::empty() =~= old_ignored);
            }
        } else {
            match find_known_value_flag(&config.known_value_flags, flag_token.as_str()) {
                Some(fi) => {
                    proof {
                        lemma_find_flag(m.flags, flag_token@);
                        assert(m.flags.len() == config.known_value_flags@.len());
                        assert(m.flags[fi as int] == config.known_value_flags@[fi as int]@);
                    }
                    let used = config.known_value_flags[fi].used;
                    proof {
                        assert(m.flags[fi as int].1 == used);
                    }
                    match inline_value {
                        Some(value) => {
                            if used {
                                retained.push(token.clone());
                                proof {
                                    lemma_prefix_outcome_assoc(
                                        old_retained,
                                        old_ignored,
                                        seq![token@],
                                        Seq::empty(),
                                        scan_from(av, m, idx + 1, positional as int),
                                    );
                                    assert(strings_view(retained@) =~= old_retained + seq![token@]);
                                    assert(old_ignored + Seq::<IgnoredArgModel>::empty()
                                        =~= old_ignored);
                                }
                            } else {
                                let item = IgnoredArg::UnusedValueFlag {
                                    flag: token.clone(),
                                    value: Some(value),
                                    command: config.command.clone(),
                                };
                                ignored.push(item);
                                proof {
                                    lemma_prefix_outcome_assoc(
                                        old_retained,
                                        old_ignored,
                                        Seq::empty(),
                                        seq![item@],
                                        scan_from(av, m, idx + 1, positional as int),
                                    );
                                    assert(ignored_view(ignored@) =~= old_ignored + seq![item@]);
                                    assert(old_retained + Seq::<Seq<char>>::empty()
                                        =~= old_retained);
                                }
                            }
                            index = index + 1;
                        },
                        None => {
                            if index + 1 >= args.len() {
                                return Err(MissingValue { flag: flag_token });
                            }
                            let value = &args[index + 1];
                            proof {
                                assert(av[idx + 1] == value@);
                            }
                            if used {
                                retained.push(token.clone());
                                retained.push(value.clone());
                                proof {
                                    lemma_prefix_outcome_assoc(
                                        old_retained,
                                        old_ignored,
                                        seq![token@, value@],
                                        Seq::empty(),
                                        scan_from(av, m, idx + 2, positional as int),
                                    );
                                    assert(strings_view(retained@) =~= old_retained + seq![
                                        token@,
                                        value@,
                                    ]);
                                    assert(old_ignored + Seq::<IgnoredArgModel>::empty()
                                        =~= old_ignored);
                                }
                            } else {
                                let item = IgnoredArg::UnusedValueFlag {
                                    flag: token.clone(),
                                    value: Some(value.clone()),
                                    command: config.command.clone(),
                                };
                                ignored.push(item);
                                proof {
                                    lemma_prefix_outcome_assoc(
                                        old_retained,
                                        old_ignored,
                                        Seq::empty(),
                                        seq![item@],
                                        scan_from(av, m, idx + 2, positional as int),
                                    );
                                    assert(ignored_view(ignored@) =~= old_ignored + seq![item@]);
                                    assert(old_retained + Seq::<Seq<char>>::empty()
                                        =~= old_retained);
                                }
                            }
                            index = index + 2;
                        },
                    }
                },
                None => {
                    if text_starts_with(token.as_str(), "--") {
                        proof {
                            reveal_strlit("--");
                            assert("--"@ =~= long_flag_prefix());
                        }
                        let item = IgnoredArg::UnknownFlag { token: token.clone() };
                        ignored.push(item);
                        proof {
                            lemma_prefix_outcome_assoc(
                                old_retained,
                                old_ignored,
                                Seq::empty(),
                                seq![item@],
                                scan_from(av, m, idx + 1, positional as int),
                            );
                            assert(ignored_view(ignored@) =~= old_ignored + seq![item@]);
                            assert(old_retained + Seq::<Seq<char>>::empty() =~= old_retained);
                        }
                    } else {
                        proof {
                            reveal_strlit("--");
                            assert("--"@ =~= long_flag_prefix());
                        }
                        if positional < config.positional_limit {
                            retained.push(token.clone());
                            proof {
                                lemma_prefix_outcome_assoc(
                                    old_retained,
                                    old_ignored,
                                    seq![token@],
                                    Seq::empty(),
                                    scan_from(av, m, idx + 1, positional + 1),
                                );
                                assert(strings_view(retained@) =~= old_retained + seq![token@]);
                                assert(old_ignored + Seq::<IgnoredArgModel>::empty()
                                    =~= old_ignored);
                            }
                        } else {
                            let item = IgnoredArg::ExtraPositional { token: token.clone() };
                            ignored.push(item);
                            proof {
                                lemma_prefix_outcome_assoc(
                                    old_retained,
                                    old_ignored,
                                    Seq::empty(),
                                    seq![item@],
                                    scan_from(av, m, idx + 1, positional + 1),
                                );
                                assert(ignored_view(ignored@) =~= old_ignored + seq![item@]);
                                assert(old_retained + Seq::<Seq<char>>::empty() =~= old_retained);
                            }
                        }
                        positional = positional + 1;
                    }
                    index = index + 1;
                },
            }
        }
    }
    proof {
        match scan_from(av, m, index as int, positional as int) {
            Ok((a, b)) => {
                assert(a =~= Seq::<Seq<char>>::empty());
                assert(strings_view(retained@) + a =~= strings_view(retained@));
                assert(ignored_view(ignored@) + b =~= ignored_view(ignored@));
            },
            Err(_) => {},
        }
    }
    Ok(LooseArgScanResult { retained_args: retained, ignored })
}

/// How many arguments an ignored entry stands for: an unused value flag
/// written without `=` stands for itself and its value.
pub open spec fn ignored_width(a: IgnoredArgModel) -> int {
    match a {
        IgnoredArgModel::UnusedValueFlag { flag, .. } => if index_of(flag, '=') >= 0 {
            1
        } else {
            2
        },
        _ => 1,
    }
}

/// How many arguments the ignored entries stand for together.
pub open spec fn ignored_total(s: Seq<IgnoredArgModel>) -> int
    decreases s.len(),
{
    if s.len() == 0 {
        0
    } else {
        ignored_width(s[0]) + ignored_total(s.drop_first())
    }
}

proof fn lemma_ignored_total_prefix(a: Seq<IgnoredArgModel>, b: Seq<IgnoredArgModel>)
    ensures
        ignored_total(a + b) == ignored_total(a) + ignored_total(b),
    decreases a.len(),
{
    if a.len() > 0 {
        assert((a + b).drop_first() =~= a.drop_first() + b);
        lemma_ignored_total_prefix(a.drop_first(), b);
    } else {
        assert(a + b =~= b);
    }
}

proof fn lemma_one_ignored(a: IgnoredArgModel, i: Seq<IgnoredArgModel>)
    ensures
        ignored_total(seq![a] + i) == ignored_width(a) + ignored_total(i),
{
    lemma_ignored_total_prefix(seq![a], i);
    assert(seq![a].drop_first() =~= Seq::<IgnoredArgModel>::empty());
    assert(ignored_total(Seq::<IgnoredArgModel>::empty()) == 0);
    assert(ignored_total(seq![a]) == ignored_width(a) + ignored_total(seq![a].drop_first()));
}

proof fn lemma_scan_accounts(args: Seq<Seq<char>>, m: LooseArgScanModel, idx: int, positional: int)
    requires
        0 <= idx <= args.len(),
    ensures
        scan_from(args, m, idx, positional) matches Ok((r, i)) ==> r.len() + ignored_total(i) == args.len() - idx,
    decreases args.len() - idx,
{
    if idx < args.len() {
        let token = args[idx];
        let flag_token = before_char(token, '=');
        let found = find_flag(m.flags, flag_token);
        if m.switches.contains(token) {
            lemma_scan_accounts(args, m, idx + 1, positional);
            lemma_ignored_total_prefix(Seq::empty(), scan_from(args, m, idx + 1, positional)->Ok_0.1);
            assert(Seq::<IgnoredArgModel>::empty() + scan_from(args, m, idx + 1, positional)->Ok_0.1 =~= scan_from(args, m, idx + 1, positional)->Ok_0.1);
        } else if found >= 0 {
            let used = m.flags[found].1;
            if index_of(token, '=') >= 0 {
                lemma_scan_accounts(args, m, idx + 1, positional);
                let rest = scan_from(args, m, idx + 1, positional);
                if let Ok((r, i)) = rest {
                    assert(Seq::<IgnoredArgModel>::empty() + i =~= i);
                    lemma_one_ignored(IgnoredArgModel::UnusedValueFlag { flag: token, value: after_char(token, '='), command: m.command }, i);
                }
            } else if idx + 1 < args.len() {
                lemma_scan_accounts(args, m, idx + 2, positional);
                let rest = scan_from(args, m, idx + 2, positional);
                if let Ok((r, i)) = rest {
                    assert(Seq::<IgnoredArgModel>::empty() + i =~= i);
                    lemma_one_ignored(IgnoredArgModel::UnusedValueFlag { flag: token, value: Some(args[idx + 1]), command: m.command }, i);
                }
            }
        } else if starts_with(token, long_flag_prefix()) {
            lemma_scan_accounts(args, m, idx + 1, positional);
            let rest = scan_from(args, m, idx + 1, positional);
            if let Ok((r, i)) = rest {
                lemma_one_ignored(IgnoredArgModel::UnknownFlag { token }, i);
            }
        } else {
            lemma_scan_accounts(args, m, idx + 1, positional + 1);
            let rest = scan_from(args, m, idx + 1, positional + 1);
            if let Ok((r, i)) = rest {
                assert(Seq::<IgnoredArgModel>::empty() + i =~= i);
                lemma_one_ignored(IgnoredArgModel::ExtraPositional { token }, i);
            }
        }
    }
}

/// Nothing is lost in a scan: every argument is either retained or stands
/// in exactly one ignored entry.
pub proof fn law_scan_accounts_for_every_arg(args: Seq<Seq<char>>, m: LooseArgScanModel)
    ensures
        scan_spec(args, m) matches Ok((r, i)) ==> r.len() + ignored_total(i) == args.len(),
{
    lemma_scan_accounts(args, m, 0, 0);
}

/// The extra-positional entries of some tokens.
pub open spec fn extra_positionals(tokens: Seq<Seq<char>>) -> Seq<IgnoredArgModel> {
    tokens.map_values(|t: Seq<char>| IgnoredArgModel::ExtraPositional { token: t })
}

proof fn lemma_scan_positionals(args: Seq<Seq<char>>, m: LooseArgScanModel, idx: int)
    requires
        0 <= idx <= args.len(),
        forall|i: int|
            0 <= i < args.len() ==> !m.switches.contains(#[trigger] args[i]) && find_flag(m.flags, before_char(args[i], '=')) < 0
                && !starts_with(args[i], long_flag_prefix()),
    ensures
        ({
            let lim: int = if m.positional_limit < args.len() { m.positional_limit as int } else { args.len() as int };
            let a: int = if idx < lim { lim } else { idx };
            scan_from(args, m, idx, idx) == Ok::<(Seq<Seq<char>>, Seq<IgnoredArgModel>), Seq<char>>(
                (args.subrange(idx, a), extra_positionals(args.subrange(a, args.len() as int))),
            )
        }),
    decreases args.len() - idx,
{
    let lim: int = if m.positional_limit < args.len() { m.positional_limit as int } else { args.len() as int };
    if idx < args.len() {
        lemma_scan_positionals(args, m, idx + 1);
        let t = args[idx];
        assert(!m.switches.contains(t) && find_flag(m.flags, before_char(t, '=')) < 0 && !starts_with(t, long_flag_prefix()));
        let a1: int = if idx + 1 < lim { lim } else { idx + 1 };
        if idx < m.positional_limit {
            assert(seq![t] + args.subrange(idx + 1, a1) =~= args.subrange(idx, if idx < lim { lim } else { idx }));
            assert(Seq::<IgnoredArgModel>::empty() + extra_positionals(args.subrange(a1, args.len() as int)) =~= extra_positionals(args.subrange(a1, args.len() as int)));
        } else {
            assert(args.subrange(idx, idx) =~= Seq::<Seq<char>>::empty());
            assert(args.subrange(idx + 1, idx + 1) =~= Seq::<Seq<char>>::empty());
            assert(Seq::<Seq<char>>::empty() + Seq::<Seq<char>>::empty() =~= Seq::<Seq<char>>::empty());
            assert(seq![IgnoredArgModel::ExtraPositional { token: t }] + extra_positionals(args.subrange(idx + 1, args.len() as int))
                =~= extra_positionals(args.subrange(idx, args.len() as int)));
        }
    } else {
        assert(args.subrange(idx, idx) =~= Seq::<Seq<char>>::empty());
        assert(extra_positionals(args.subrange(idx, idx)) =~= Seq::<IgnoredArgModel>::empty());
    }
}

/// Arguments that are neither switches, value flags nor long flags are
/// positionals: the scan keeps the first `positional_limit` of them, in
/// order, and reports each of the rest as an extra positional, in order.
pub proof fn law_scan_keeps_positionals_up_to_the_limit(args: Seq<Seq<char>>, m: LooseArgScanModel)
    requires
        forall|i: int|
            0 <= i < args.len() ==> !m.switches.contains(#[trigger] args[i]) && find_flag(m.flags, before_char(args[i], '=')) < 0
                && !starts_with(args[i], long_flag_prefix()),
    ensures
        ({
            let lim: int = if m.positional_limit < args.len() { m.positional_limit as int } else { args.len() as int };
            scan_spec(args, m) == Ok::<(Seq<Seq<char>>, Seq<IgnoredArgModel>), Seq<char>>(
                (args.take(lim), extra_positionals(args.skip(lim))),
            )
        }),
{
    lemma_scan_positionals(args, m, 0);
    let lim: int = if m.positional_limit < args.len() { m.positional_limit as int } else { args.len() as int };
    assert(args.subrange(0, lim) =~= args.take(lim));
    assert(args.subrange(lim, args.len() as int) =~= args.skip(lim));
    if lim == 0 {
        assert(args.subrange(0, 0) =~= args.take(0));
    }
}

} // verus!
