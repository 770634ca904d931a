//! Which commands the direct command line has, and which help a command
//! line asks for.

use vstd::prelude::*;

use crate::text::text_eq;

verus! {

/// The commands of the direct command line.
pub open spec fn command_names() -> Seq<Seq<char>> {
    seq!["manifest"@, "probe"@, "invoke"@, "outline"@, "read"@, "find"@, "info"@]
}

/// Whether the direct command line has a command of this name.
pub fn is_known_command(command: &str) -> (r: bool)
    ensures
        r == command_names().contains(command@),
{
    let names: [&'static str; 7] = ["manifest", "probe", "invoke", "outline", "read", "find", "info"];
    assert(names@.map_values(|s: &'static str| s@) =~= command_names());
    let mut i: usize = 0;
    while i < 7
        invariant
            i <= 7,
            names@.map_values(|s: &'static str| s@) == command_names(),
            forall|j: int| 0 <= j < i ==> command_names()[j] != command@,
        decreases 7 - i,
    {
        if text_eq(names[i], command) {
            assert(command_names()[i as int] == command@);
            return true;
        }
        i = i + 1;
    }
    false
}

/// Whether an argument asks for help.
pub open spec fn is_help_flag(arg: Seq<char>) -> bool {
    arg == "--help"@ || arg == "-h"@
}

/// The help a command line asks for, when it asks for any.
#[derive(Debug, PartialEq, Eq)]
pub enum HelpTarget {
    /// The help of the whole command line.
    Root,
    /// The help of the named command.
    Command(String),
}

/// Which help the arguments ask for: none without `--help` or `-h`; that of
/// the command named first when it is a command, else that of the whole
/// command line.
pub open spec fn help_target_spec(args: Seq<Seq<char>>) -> Option<Option<Seq<char>>> {
    if !(exists|i: int| 0 <= i < args.len() && is_help_flag(#[trigger] args[i])) {
        None
    } else if !is_help_flag(args[0]) && command_names().contains(args[0]) {
        Some(Some(args[0]))
    } else {
        Some(None)
    }
}

fn is_help_arg(arg: &str) -> (r: bool)
    ensures
        r == is_help_flag(arg@),
{
    text_eq(arg, "--help") || text_eq(arg, "-h")
}

/// The help that the arguments ask for.
pub fn help_target(args: &[String]) -> (r: Option<HelpTarget>)
    ensures
        match r {
            None => help_target_spec(args@.map_values(|a: String| a@)) is None,
            Some(HelpTarget::Root) => help_target_spec(args@.map_values(|a: String| a@)) == Some(None::<Seq<char>>),
            Some(HelpTarget::Command(c)) => help_target_spec(args@.map_values(|a: String| a@)) == Some(Some(c@)),
        },
{
    let ghost av = args@.map_values(|a: String| a@);
    let mut asked = false;
    let mut i: usize = 0;
    while i < args.len()
        invariant
            av == args@.map_values(|a: String| a@),
            i <= args@.len(),
            asked <==> exists|j: int| 0 <= j < i && is_help_flag(#[trigger] av[j]),
        decreases args.len() - i,
    {
        if is_help_arg(args[i].as_str()) {
            assert(is_help_flag(av[i as int]));
            asked = true;
        }
        i = i + 1;
    }
    if !asked {
        return None;
    }
    let first = args[0].as_str();
    assert(av[0] == first@);
    if !is_help_arg(first) && is_known_command(first) {
        Some(HelpTarget::Command(String::from_str(first)))
    } else {
        Some(HelpTarget::Root)
    }
}

} // verus!
