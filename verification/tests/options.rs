use ocean::error::{Error, ErrorKind};
use ocean::flags::BuildMode;
use ocean::options::{parse_build_args, BuildOptions, BuildRequest};

fn strings(items: &[&str]) -> Vec<String> {
    items.iter().map(|s| s.to_string()).collect()
}

fn options(args: &[&str]) -> BuildOptions {
    match parse_build_args(&strings(args)) {
        Ok(BuildRequest::Build(options)) => options,
        Ok(BuildRequest::Help) => panic!("{:?} asked for the usage", args),
        Err(e) => panic!("{:?} was refused: {}", args, e.message()),
    }
}

#[test]
fn no_arguments_is_a_plain_debug_build() {
    let o = options(&[]);
    assert_eq!(o.mode, BuildMode::Debug);
    assert!(!o.verbose);
    assert_eq!(o.flags, "");
    assert!(o.bins.is_empty());
    let d = BuildOptions::default();
    assert_eq!(d.mode, BuildMode::Debug);
    assert!(!d.verbose && d.flags.is_empty() && d.bins.is_empty());
}

#[test]
fn mode_flags_and_the_last_one_wins() {
    assert_eq!(options(&["-r"]).mode, BuildMode::Release);
    assert_eq!(options(&["--release"]).mode, BuildMode::Release);
    assert_eq!(options(&["-d"]).mode, BuildMode::Debug);
    assert_eq!(options(&["--debug"]).mode, BuildMode::Debug);
    assert_eq!(options(&["-r", "-d"]).mode, BuildMode::Debug);
    assert_eq!(options(&["-d", "--release"]).mode, BuildMode::Release);
}

#[test]
fn verbose_flag() {
    assert!(options(&["-v"]).verbose);
    assert!(options(&["--verbose"]).verbose);
    assert!(!options(&["-r"]).verbose);
}

#[test]
fn flags_are_all_that_follows_the_option() {
    assert_eq!(options(&["-f", "-O2", "-DX=1"]).flags, "-O2 -DX=1");
    assert_eq!(options(&["--flags", "-pipe"]).flags, "-pipe");
    assert_eq!(options(&["-r", "-f"]).flags, "");
    assert_eq!(options(&["-f", "a", "-f", "b"]).flags, "b");
}

#[test]
fn what_follows_the_flags_option_is_still_read() {
    let o = options(&["-f", "-v", "-r"]);
    assert_eq!(o.flags, "-v -r");
    assert!(o.verbose);
    assert_eq!(o.mode, BuildMode::Release);
}

#[test]
fn bin_takes_the_next_argument_as_a_name() {
    assert_eq!(options(&["--bin", "all"]).bins, strings(&["all"]));
    assert_eq!(options(&["--bin", "one", "--bin", "two"]).bins, strings(&["one", "two"]));
    let o = options(&["--bin", "-r"]);
    assert_eq!(o.bins, strings(&["-r"]));
    assert_eq!(o.mode, BuildMode::Release);
}

#[test]
fn bin_without_a_name_is_a_config_error() {
    for args in [&["--bin"][..], &["-r", "--bin"], &["--bin", "one", "--bin"]] {
        match parse_build_args(&strings(args)) {
            Err(e) => {
                assert_eq!(e.kind(), ErrorKind::Config);
                assert!(matches!(e, Error::MissingBinName));
                assert_eq!(
                    e.message(),
                    "Did not provide binary name or all as paramater to --bin"
                );
            },
            Ok(_) => panic!("{:?} was accepted", args),
        }
    }
}

#[test]
fn help_ends_the_reading() {
    assert!(matches!(parse_build_args(&strings(&["--help"])), Ok(BuildRequest::Help)));
    assert!(matches!(parse_build_args(&strings(&["-r", "--help", "--bin"])), Ok(BuildRequest::Help)));
    assert!(matches!(
        parse_build_args(&strings(&["--bin", "--help"])),
        Ok(BuildRequest::Help)
    ));
    assert!(matches!(
        parse_build_args(&strings(&["--bin", "x", "--bin", "--help"])),
        Ok(BuildRequest::Help)
    ));
}

#[test]
fn unknown_arguments_are_passed_over() {
    let o = options(&["what", "-x", "--release", "ever"]);
    assert_eq!(o.mode, BuildMode::Release);
    assert!(o.bins.is_empty());
    assert_eq!(o.flags, "");
}

#[test]
fn options_can_be_copied() {
    let o = options(&["-r", "-v", "--bin", "x", "-f", "-O1"]);
    let c = o.clone();
    assert_eq!(c.mode, o.mode);
    assert_eq!(c.verbose, o.verbose);
    assert_eq!(c.flags, o.flags);
    assert_eq!(c.bins, o.bins);
}
