use bananagrabber::argparse::{get_args, ArgError, SubCommand};

fn argv(parts: &[&str]) -> Vec<String> {
    parts.iter().map(|s| s.to_string()).collect()
}

#[test]
fn args_extract_media_url() {
    let opts = get_args(&argv(&["extract-media-url", "https://v.redd.it/dkczbt15n2r71"])).unwrap();
    assert_eq!(opts.verbose, 0);
    match opts.subcmd {
        SubCommand::ExtractMediaUrl(e) => {
            assert_eq!(e.url, "https://v.redd.it/dkczbt15n2r71")
        }
        other => panic!("unexpected subcommand: {:?}", other),
    }
}

#[test]
fn args_bot_with_verbosity() {
    let opts = get_args(&argv(&["-v", "-vv", "--verbose", "bot"])).unwrap();
    assert_eq!(opts.verbose, 4);
    assert!(matches!(opts.subcmd, SubCommand::Bot(_)));
}

#[test]
fn args_test_directory() {
    let opts = get_args(&argv(&["test", "saved_payloads"])).unwrap();
    assert_eq!(opts.verbose, 0);
    match opts.subcmd {
        SubCommand::Test(t) => assert_eq!(t.file, "saved_payloads"),
        other => panic!("unexpected subcommand: {:?}", other),
    }
}

#[test]
fn args_empty_line_misses_subcommand() {
    assert_eq!(get_args(&argv(&[])).unwrap_err(), ArgError::MissingSubcommand);
    assert_eq!(get_args(&argv(&["-vv"])).unwrap_err(), ArgError::MissingSubcommand);
}

#[test]
fn args_unknown_subcommand() {
    assert_eq!(get_args(&argv(&["frobnicate"])).unwrap_err(), ArgError::UnknownSubcommand);
}

#[test]
fn args_unknown_flag() {
    assert_eq!(get_args(&argv(&["-x", "bot"])).unwrap_err(), ArgError::UnknownFlag);
    assert_eq!(get_args(&argv(&["--loud", "bot"])).unwrap_err(), ArgError::UnknownFlag);
}

#[test]
fn args_missing_argument() {
    assert_eq!(get_args(&argv(&["extract-media-url"])).unwrap_err(), ArgError::MissingArgument);
    assert_eq!(get_args(&argv(&["test"])).unwrap_err(), ArgError::MissingArgument);
}

#[test]
fn args_unexpected_argument() {
    assert_eq!(
        get_args(&argv(&["bot", "surplus"])).unwrap_err(),
        ArgError::UnexpectedArgument
    );
    assert_eq!(
        get_args(&argv(&["extract-media-url", "a", "b"])).unwrap_err(),
        ArgError::UnexpectedArgument
    );
}

#[test]
fn args_verbosity_saturates() {
    let many_vs = format!("-{}", "v".repeat(300));
    let opts = get_args(&argv(&[many_vs.as_str(), "bot"])).unwrap();
    assert_eq!(opts.verbose, 255);
}
