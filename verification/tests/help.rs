use docnav::direct::help::{help_target, is_known_command, HelpTarget};

fn args(values: &[&str]) -> Vec<String> {
    values.iter().map(|value| value.to_string()).collect()
}

#[test]
fn known_commands_are_the_seven_commands() {
    for name in ["manifest", "probe", "invoke", "outline", "read", "find", "info"] {
        assert!(is_known_command(name));
    }
    assert!(!is_known_command("help"));
    assert!(!is_known_command("Outline"));
    assert!(!is_known_command(""));
}

#[test]
fn help_goes_to_the_command_named_first_else_to_the_root() {
    assert_eq!(help_target(&args(&["outline", "doc.md"])), None);
    assert_eq!(help_target(&args(&["outline", "--help"])), Some(HelpTarget::Command("outline".to_string())));
    assert_eq!(help_target(&args(&["-h"])), Some(HelpTarget::Root));
    assert_eq!(help_target(&args(&["nope", "--help"])), Some(HelpTarget::Root));
    assert_eq!(help_target(&args(&["--help", "read"])), Some(HelpTarget::Root));
    assert_eq!(help_target(&args(&[])), None);
}
