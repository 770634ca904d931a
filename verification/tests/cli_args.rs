use docnav::cli_args::{scan_loose_args, IgnoredArg, KnownValueFlag, LooseArgScan};

fn args(values: &[&str]) -> Vec<String> {
    values.iter().map(|value| value.to_string()).collect()
}

fn scan_config() -> LooseArgScan {
    LooseArgScan::new(
        "outline",
        1,
        vec![KnownValueFlag::used("--limit"), KnownValueFlag::unused("--query")],
    )
    .with_known_switch_flags(vec!["--help".to_string()])
}

fn width(ignored: &IgnoredArg) -> usize {
    match ignored {
        IgnoredArg::UnusedValueFlag { flag, .. } if !flag.contains('=') => 2,
        _ => 1,
    }
}

#[test]
fn scan_retains_switches_used_flags_and_positionals_up_to_the_limit() {
    let input = args(&["doc.md", "--help", "--limit", "30", "extra.md"]);
    let result = scan_loose_args(&input, &scan_config()).expect("scan succeeds");
    assert_eq!(result.retained_args, args(&["doc.md", "--help", "--limit", "30"]));
    assert_eq!(
        result.ignored,
        vec![IgnoredArg::ExtraPositional {
            token: "extra.md".to_string()
        }]
    );
}

#[test]
fn scan_sets_aside_unknown_and_unused_flags_with_their_values() {
    let input = args(&["--future", "--query", "intro", "--query=x=y", "--limit=5"]);
    let result = scan_loose_args(&input, &scan_config()).expect("scan succeeds");
    assert_eq!(result.retained_args, args(&["--limit=5"]));
    assert_eq!(
        result.ignored,
        vec![
            IgnoredArg::UnknownFlag {
                token: "--future".to_string()
            },
            IgnoredArg::UnusedValueFlag {
                flag: "--query".to_string(),
                value: Some("intro".to_string()),
                command: "outline".to_string(),
            },
            IgnoredArg::UnusedValueFlag {
                flag: "--query=x=y".to_string(),
                value: Some("x=y".to_string()),
                command: "outline".to_string(),
            },
        ]
    );
}

#[test]
fn scan_fails_when_a_value_flag_ends_the_arguments() {
    let error = scan_loose_args(&args(&["doc.md", "--limit"]), &scan_config()).expect_err("missing value");
    assert_eq!(error.flag(), "--limit");
    let error = scan_loose_args(&args(&["--query"]), &scan_config()).expect_err("missing value");
    assert_eq!(error.flag(), "--query");
}

#[test]
fn scan_accounts_for_every_argument() {
    let input = args(&["a.md", "b.md", "--x", "--query", "q", "--limit", "2", "--help", "--query=z"]);
    let result = scan_loose_args(&input, &scan_config()).expect("scan succeeds");
    let ignored: usize = result.ignored.iter().map(width).sum();
    assert_eq!(result.retained_args.len() + ignored, input.len());
}
