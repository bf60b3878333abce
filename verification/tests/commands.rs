use ocean::commands::{parse_args, parse_run_args, Command, Commands, RunRequest};
use ocean::error::{Error, ErrorKind};
use ocean::flags::BuildMode;
use ocean::language::Language;
use ocean::platform::Host;
use ocean::project::{Binary, Project};
use ocean::usage::USAGE;

fn strings(items: &[&str]) -> Vec<String> {
    items.iter().map(|s| s.to_string()).collect()
}

fn linux() -> Host {
    Host { os: "linux".to_string(), exe_suffix: String::new() }
}

fn demo_with_binaries() -> Project {
    let mut project = Project::default();
    project.set_name("demo".to_string());
    project.bins = Some(
        ["one", "two", "one"]
            .iter()
            .map(|n| Binary {
                name: n.to_string(),
                path: format!("./src/{}.c", n),
                language: Language::C,
                flags: Vec::new(),
            })
            .collect(),
    );
    project
}

fn std_pretty(toml_content: &str) -> String {
    let mut split: Vec<&str> = toml_content.split('\n').collect();
    for i in (0..split.len() - 1).rev() {
        if !split[i].is_empty() && split[i + 1].starts_with('[') {
            split.insert(i + 1, "")
        }
    }
    split.join("\n")
}

#[test]
fn pretty_toml_puts_an_empty_line_before_table_headers() {
    assert_eq!(
        Commands::pretty_toml("[project]\nname = \"x\"\n[directories]\nbuild_dir = \"./build\"\n".to_string()),
        "[project]\nname = \"x\"\n\n[directories]\nbuild_dir = \"./build\"\n"
    );
    assert_eq!(
        Commands::pretty_toml("a = 1\n\n[t]\nb = 2".to_string()),
        "a = 1\n\n[t]\nb = 2"
    );
    assert_eq!(Commands::pretty_toml("[a]\n[b]\n[c]".to_string()), "[a]\n\n[b]\n\n[c]");
    assert_eq!(Commands::pretty_toml("".to_string()), "");
    assert_eq!(Commands::pretty_toml("[only]".to_string()), "[only]");
    assert_eq!(Commands::pretty_toml("x = [\n1]".to_string()), "x = [\n1]");
}

#[test]
fn pretty_toml_agrees_with_insertion_from_the_end() {
    for s in ["", "\n", "[a]", "a\n[b]", "a\n\n[b]", "[a]\n[b]\nc\n[d]\n", "x\ny = [1]\n[[arr]]\nz"] {
        assert_eq!(Commands::pretty_toml(s.to_string()), std_pretty(s), "{:?}", s);
    }
}

#[test]
fn extension_from_filename() {
    assert_eq!(Commands::get_extension_from_filename("./src/main.c"), Some("c"));
    assert_eq!(Commands::get_extension_from_filename("./src/main"), None);
}

#[test]
fn help_text() {
    assert_eq!(Commands::help(None), USAGE);
    assert!(USAGE.starts_with("\nUsage: ocean [OPTION]\n"));
    assert!(USAGE.contains("    build           Builds the current project\n"));
    let word = "frobnicate".to_string();
    assert_eq!(
        Commands::help(Some(&word)),
        format!("Command \"frobnicate\" not found.\n{}", USAGE)
    );
}

#[test]
fn clean_removes_all_but_the_sources() {
    let project = Project::default();
    let plan = Commands::clean(&project);
    assert!(plan.remove_lock);
    assert_eq!(plan.dirs, strings(&["./build", "./obj"]));

    let mut odd = Project::default();
    odd.directories.set_build_dir("./src".to_string());
    let plan = Commands::clean(&odd);
    assert_eq!(plan.dirs, strings(&["./obj"]));

    let mut flat = Project::default();
    flat.directories.set_build_dir(".".to_string());
    flat.directories.set_objects_dir(".".to_string());
    flat.directories.set_source_dir(".".to_string());
    let plan = Commands::clean(&flat);
    assert!(plan.dirs.is_empty());
    assert!(!plan.remove_lock);
}

#[test]
fn run_arguments() {
    let o = parse_run_args(&strings(&[])).unwrap().unwrap();
    assert_eq!(o.mode, BuildMode::Debug);
    assert!(o.bins.is_empty() && o.program_args.is_empty());
    let o = parse_run_args(&strings(&["-r", "--bin", "one", "--", "x", "y"])).unwrap().unwrap();
    assert_eq!(o.mode, BuildMode::Release);
    assert_eq!(o.bins, strings(&["one"]));
    assert_eq!(o.program_args, strings(&["x", "y"]));
    let o = parse_run_args(&strings(&["--", "-r", "--", "z"])).unwrap().unwrap();
    assert_eq!(o.mode, BuildMode::Release);
    assert_eq!(o.program_args, strings(&["z"]));
    assert!(parse_run_args(&strings(&["-v", "--help"])).unwrap().is_none());
    match parse_run_args(&strings(&["--bin"])) {
        Err(e) => {
            assert_eq!(e.kind(), ErrorKind::Config);
            assert!(matches!(e, Error::MissingBinName));
        },
        Ok(_) => panic!("`--bin` without a name was accepted"),
    }
}

#[test]
fn run_of_the_project() {
    let project = demo_with_binaries();
    match Commands::run(&project, &linux(), &strings(&["-r", "--", "a", "b"])).unwrap() {
        RunRequest::Run(targets) => {
            assert_eq!(targets.len(), 1);
            assert_eq!(targets[0].name, "demo");
            assert_eq!(targets[0].path, "./build/release/demo");
            assert_eq!(targets[0].call.program, "././build/release/demo");
            assert_eq!(targets[0].call.args, strings(&["a", "b"]));
        },
        RunRequest::Help => panic!("the usage was not asked for"),
    }
}

#[test]
fn run_of_binaries() {
    let project = demo_with_binaries();
    let names = |args: &[&str]| -> Vec<String> {
        match Commands::run(&project, &linux(), &strings(args)).unwrap() {
            RunRequest::Run(targets) => targets.into_iter().map(|t| t.path).collect(),
            RunRequest::Help => panic!("the usage was not asked for"),
        }
    };
    assert_eq!(
        names(&["--bin", "all"]),
        strings(&["./build/debug/one", "./build/debug/two", "./build/debug/one"])
    );
    assert_eq!(names(&["--bin", "two"]), strings(&["./build/debug/two"]));
    assert_eq!(
        names(&["--bin", "two", "--bin", "one"]),
        strings(&["./build/debug/two", "./build/debug/one", "./build/debug/one"])
    );
    assert_eq!(names(&["--bin", "none"]), strings(&[]));
}

#[test]
fn run_help_and_failure() {
    let project = demo_with_binaries();
    assert!(matches!(
        Commands::run(&project, &linux(), &strings(&["--help"])),
        Ok(RunRequest::Help)
    ));
    assert!(matches!(
        Commands::run(&project, &linux(), &strings(&["--bin"])),
        Err(Error::MissingBinName)
    ));
    let gone = Error::MissingExecutable { name: "demo".to_string() };
    assert_eq!(gone.kind(), ErrorKind::Build);
    assert_eq!(gone.message(), "Cannot find the \"demo\" executable. Did it compile properly?");
    assert_eq!(gone.clone().message(), gone.message());
}

#[test]
fn command_line() {
    assert!(parse_args(&strings(&[])).is_none());
    assert!(parse_args(&strings(&["ocean"])).is_none());
    assert!(matches!(
        parse_args(&strings(&["ocean", "build", "-r", "-v"])),
        Some(Command::Build(ref rest)) if *rest == strings(&["-r", "-v"])
    ));
    assert!(matches!(parse_args(&strings(&["ocean", "clean", "x"])), Some(Command::Clean)));
    assert!(matches!(parse_args(&strings(&["ocean", "help"])), Some(Command::Help(None))));
    assert!(matches!(parse_args(&strings(&["ocean", "--help"])), Some(Command::Help(None))));
    assert!(matches!(
        parse_args(&strings(&["ocean", "frob"])),
        Some(Command::Help(Some(ref w))) if w == "frob"
    ));
    assert!(matches!(
        parse_args(&strings(&["ocean", "new", "demo", "-CXX"])),
        Some(Command::New(ref rest)) if *rest == strings(&["demo", "-CXX"])
    ));
    assert!(matches!(
        parse_args(&strings(&["ocean", "run"])),
        Some(Command::Run(ref rest)) if rest.is_empty()
    ));
    assert!(matches!(
        parse_args(&strings(&["ocean", "get", "name"])),
        Some(Command::GetData(ref rest)) if *rest == strings(&["name"])
    ));
    assert!(matches!(
        parse_args(&strings(&["ocean", "get"])),
        Some(Command::GetData(ref rest)) if rest.is_empty()
    ));
    assert!(matches!(
        parse_args(&strings(&["ocean", "get", "linux", "flags"])),
        Some(Command::GetDataPlatform { ref args, ref platform })
            if *args == strings(&["flags"]) && platform == "linux"
    ));
    assert!(matches!(
        parse_args(&strings(&["ocean", "set", "windows"])),
        Some(Command::SetDataPlatform { ref args, ref platform })
            if args.is_empty() && platform == "windows"
    ));
    assert!(matches!(
        parse_args(&strings(&["ocean", "set", "bsd", "flags", "-a"])),
        Some(Command::SetData(ref rest)) if *rest == strings(&["bsd", "flags", "-a"])
    ));
}
