use ocean::commands::Commands;
use ocean::data::{parse_language, DataError, SetOutcome, Shown};
use ocean::language::Language;
use ocean::platform::{PlatformOptions, Platforms};
use ocean::project::{Binary, Project};

fn strings(items: &[&str]) -> Vec<String> {
    items.iter().map(|s| s.to_string()).collect()
}

fn set(project: &mut Project, args: &[&str]) -> Result<SetOutcome, DataError> {
    Commands::set_data(project, &strings(args))
}

fn text(project: &Project, key: &str) -> String {
    match Commands::get_data(project, "linux", &strings(&[key])) {
        Ok(Shown::Text(t)) => t,
        other => panic!("{} is not shown as text: {:?}", key, other),
    }
}

fn list(project: &Project, key: &str) -> Vec<String> {
    match Commands::get_data(project, "linux", &strings(&[key])) {
        Ok(Shown::List(l)) => l,
        other => panic!("{} is not shown as a list: {:?}", key, other),
    }
}

#[test]
fn setting_the_name_needs_no_cleaning() {
    let mut project = Project::default();
    assert_eq!(set(&mut project, &["name", "demo"]), Ok(SetOutcome::Changed { clean: false }));
    assert_eq!(project.get_name(), "demo");
}

#[test]
fn setting_the_language_reads_the_name_in_any_case() {
    let mut project = Project::default();
    assert_eq!(set(&mut project, &["lang", "CXX"]), Ok(SetOutcome::Changed { clean: true }));
    assert_eq!(*project.get_language(), Language::CXX);
    assert_eq!(set(&mut project, &["language", "C"]), Ok(SetOutcome::Changed { clean: true }));
    assert_eq!(*project.get_language(), Language::C);
    assert_eq!(set(&mut project, &["lang", "c++"]), Ok(SetOutcome::Changed { clean: true }));
    assert_eq!(*project.get_language(), Language::CXX);
    assert_eq!(set(&mut project, &["lang", "Cxx"]), Ok(SetOutcome::Changed { clean: true }));
    assert_eq!(*project.get_language(), Language::CXX);
    assert_eq!(set(&mut project, &["lang", "rust"]), Err(DataError::InvalidLanguage));
    assert_eq!(*project.get_language(), Language::CXX);
    assert_eq!(parse_language("c"), Some(Language::C));
    assert_eq!(parse_language("cxx"), Some(Language::CXX));
    assert_eq!(parse_language("c++"), Some(Language::CXX));
    assert_eq!(parse_language("C"), None);
    assert_eq!(parse_language(""), None);
}

#[test]
fn setting_lists_splits_at_commas() {
    let mut project = Project::default();
    project.add_library("m".to_string());
    assert_eq!(set(&mut project, &["libs", "z,dl"]), Ok(SetOutcome::Changed { clean: true }));
    assert_eq!(project.get_libraries("linux"), &strings(&["m", "z", "dl"]));
    assert!(set(&mut project, &["libraries", "x"]).is_ok());
    assert_eq!(project.get_libraries("linux"), &strings(&["m", "z", "dl", "x"]));
    assert!(set(&mut project, &["lib_dirs", "/a,/b"]).is_ok());
    assert!(set(&mut project, &["library_directories", ""]).is_ok());
    assert_eq!(project.get_library_dirs("linux"), &strings(&["/a", "/b", ""]));
    assert!(set(&mut project, &["flags", "-a,-b"]).is_ok());
    assert_eq!(project.get_compiler().get_compiler_flags(&Language::C), &strings(&["-a", "-b"]));
    assert!(set(&mut project, &["flags", "-c"]).is_ok());
    assert_eq!(project.get_compiler().get_compiler_flags(&Language::C), &strings(&["-c"]));
    assert!(project.get_compiler().get_compiler_flags(&Language::CXX).is_empty());
}

#[test]
fn setting_compilers_and_directories() {
    let mut project = Project::default();
    assert!(set(&mut project, &["c_compiler", "clang"]).is_ok());
    assert!(set(&mut project, &["c++_compiler", "clang++"]).is_ok());
    assert_eq!(project.get_compiler().get_compiler_command(&Language::C), "clang");
    assert_eq!(project.get_compiler().get_compiler_command(&Language::CXX), "clang++");
    assert!(set(&mut project, &["cxx_compiler", "g++-12"]).is_ok());
    assert!(set(&mut project, &["compiler", "tcc"]).is_ok());
    assert_eq!(project.get_compiler().get_compiler_command(&Language::C), "tcc");
    assert_eq!(project.get_compiler().get_compiler_command(&Language::CXX), "g++-12");
    project.set_language(Language::CXX);
    assert!(set(&mut project, &["current_compiler", "icpc"]).is_ok());
    assert_eq!(project.get_compiler().get_compiler_command(&Language::CXX), "icpc");
    assert!(set(&mut project, &["object_dir", "o"]).is_ok());
    assert!(set(&mut project, &["source_dir", "s"]).is_ok());
    assert!(set(&mut project, &["build_dir", "b"]).is_ok());
    assert_eq!(project.get_directories().get_all_dirs(), strings(&["b", "o", "s"]));
}

#[test]
fn setting_fails_and_changes_nothing() {
    let mut project = Project::default();
    assert_eq!(set(&mut project, &[]), Err(DataError::NoKey));
    assert_eq!(set(&mut project, &["name"]), Err(DataError::NoData));
    assert_eq!(set(&mut project, &["name", "a", "b"]), Err(DataError::TooManyValues));
    assert_eq!(set(&mut project, &["colour", "blue"]), Err(DataError::IncorrectKey));
    assert_eq!(set(&mut project, &["--help"]), Ok(SetOutcome::Help));
    assert_eq!(set(&mut project, &["--help", "a", "b"]), Ok(SetOutcome::Help));
    assert_eq!(project.get_name(), "Ocean Project");
    assert_eq!(DataError::NoKey.message(), "No key given");
    assert_eq!(DataError::NoData.message(), "No data provided to set key with");
    assert_eq!(DataError::TooManyValues.message(), "No value supplied for given key");
    assert_eq!(DataError::IncorrectKey.message(), "Incorrect data key.");
    assert_eq!(DataError::InvalidLanguage.message(), "Invalid language.");
    assert_eq!(DataError::NoValueGiven.message(), "No value given");
    assert_eq!(DataError::InvalidPlatform.message(), "Invalid platform");
    assert_eq!(DataError::NoPlatforms.message(), "Could not find platform");
    assert_eq!(DataError::NoLinuxKeys.message(), "Could not find any keys for Linux");
    assert_eq!(DataError::NoOsxKeys.message(), "Could not find any keys for OSX");
    assert_eq!(DataError::NoWindowsKeys.message(), "Could not find any keys for Windows");
    assert_eq!(DataError::UnknownPlatform.message(), "Could not find the specified platform");
}

#[test]
fn getting_values() {
    let mut project = Project::default();
    project.set_name("demo".to_string());
    project.add_library("m".to_string());
    project.compiler.set_compiler_flags(Language::C, strings(&["-a"]));
    project.bins = Some(vec![Binary {
        name: "tool".to_string(),
        path: "./src/tool.c".to_string(),
        language: Language::C,
        flags: Vec::new(),
    }]);
    assert_eq!(text(&project, "name"), "demo");
    assert_eq!(text(&project, "lang"), "C");
    assert_eq!(text(&project, "language"), "C");
    assert_eq!(text(&project, "compiler"), "gcc");
    assert_eq!(text(&project, "current_compiler"), "gcc");
    assert_eq!(text(&project, "c_compiler"), "gcc");
    assert_eq!(text(&project, "c++_compiler"), "g++");
    assert_eq!(text(&project, "cxx_compiler"), "g++");
    assert_eq!(text(&project, "build_dir"), "./build");
    assert_eq!(text(&project, "source_dir"), "./src");
    assert_eq!(text(&project, "object_dir"), "./obj");
    assert_eq!(list(&project, "libs"), strings(&["m"]));
    assert_eq!(list(&project, "libraries"), strings(&["m"]));
    assert_eq!(list(&project, "flags"), strings(&["-a"]));
    assert_eq!(list(&project, "lib_dirs"), strings(&["./build", "./obj", "./src"]));
    assert_eq!(list(&project, "library_directories"), strings(&["./build", "./obj", "./src"]));
    project.set_language(Language::CXX);
    assert_eq!(text(&project, "lang"), "C++");
    assert_eq!(text(&project, "compiler"), "g++");
    assert!(list(&project, "flags").is_empty());
    match Commands::get_data(&project, "linux", &strings(&["bins"])) {
        Ok(Shown::Binaries(b)) => {
            assert_eq!(b.len(), 1);
            assert_eq!(b[0].name, "tool");
        },
        other => panic!("the binaries are not shown: {:?}", other),
    }
    assert!(matches!(
        Commands::get_data(&project, "linux", &strings(&["binaries"])),
        Ok(Shown::Binaries(_))
    ));
    assert!(matches!(Commands::get_data(&project, "linux", &strings(&["--help"])), Ok(Shown::Help)));
    assert!(matches!(
        Commands::get_data(&project, "linux", &strings(&["colour"])),
        Ok(Shown::UnknownKey)
    ));
    assert!(matches!(
        Commands::get_data(&project, "linux", &strings(&[])),
        Err(DataError::NoValueGiven)
    ));
}

#[test]
fn setting_for_a_platform_starts_from_fresh_settings() {
    let mut project = Project::default();
    let args = strings(&["libs", "pthread,dl"]);
    assert_eq!(
        Commands::set_data_platform(&mut project, &args, "linux".to_string()),
        Ok(SetOutcome::Changed { clean: true })
    );
    let linux = project.platforms.as_ref().unwrap().linux.as_ref().unwrap();
    assert_eq!(linux.platform_name, "linux");
    assert_eq!(linux.libraries, strings(&["pthread", "dl"]));
    assert!(linux.library_directories.is_empty());

    let args = strings(&["flags", "-pthread"]);
    assert!(Commands::set_data_platform(&mut project, &args, "linux".to_string()).is_ok());
    let linux = project.platforms.as_ref().unwrap().linux.as_ref().unwrap();
    assert!(linux.libraries.is_empty());
    assert_eq!(linux.compiler.get_compiler_flags(&Language::C), &strings(&["-pthread"]));

    let args = strings(&["lib_dirs", "/w"]);
    assert!(Commands::set_data_platform(&mut project, &args, "windows".to_string()).is_ok());
    let platforms = project.platforms.as_ref().unwrap();
    assert!(platforms.linux.is_some());
    assert_eq!(platforms.windows.as_ref().unwrap().library_directories, strings(&["/w"]));
    assert!(platforms.osx.is_none() && platforms.bsd.is_none());
}

#[test]
fn setting_compilers_for_a_platform() {
    let mut project = Project::default();
    let args = strings(&["cxx_compiler", "clang++"]);
    assert!(Commands::set_data_platform(&mut project, &args, "osx".to_string()).is_ok());
    let osx = project.platforms.as_ref().unwrap().osx.as_ref().unwrap();
    assert_eq!(osx.compiler.get_compiler_command(&Language::CXX), "clang++");
    assert_eq!(osx.compiler.get_compiler_command(&Language::C), "gcc");

    let args = strings(&["compiler", "clang"]);
    assert!(Commands::set_data_platform(&mut project, &args, "osx".to_string()).is_ok());
    let osx = project.platforms.as_ref().unwrap().osx.as_ref().unwrap();
    assert_eq!(osx.compiler.get_compiler_command(&Language::C), "clang");
    assert_eq!(osx.compiler.get_compiler_command(&Language::CXX), "g++");

    let args = strings(&["c_compiler", "tcc"]);
    assert!(Commands::set_data_platform(&mut project, &args, "osx".to_string()).is_ok());
    assert_eq!(project.get_compiler().get_compiler_command(&Language::C), "tcc");
    let osx = project.platforms.as_ref().unwrap().osx.as_ref().unwrap();
    assert_eq!(osx.compiler.get_compiler_command(&Language::C), "gcc");
}

#[test]
fn setting_for_a_platform_fails_and_changes_nothing() {
    let mut project = Project::default();
    let set = |project: &mut Project, args: &[&str], platform: &str| {
        Commands::set_data_platform(project, &strings(args), platform.to_string())
    };
    assert_eq!(set(&mut project, &[], "linux"), Err(DataError::NoKey));
    assert_eq!(set(&mut project, &["--help"], "linux"), Ok(SetOutcome::Help));
    assert_eq!(set(&mut project, &["libs"], "linux"), Err(DataError::NoData));
    assert_eq!(set(&mut project, &["libs", "a", "b"], "linux"), Err(DataError::TooManyValues));
    assert_eq!(set(&mut project, &["name", "x"], "linux"), Err(DataError::IncorrectKey));
    assert_eq!(set(&mut project, &["libs", "a"], "bsd"), Err(DataError::InvalidPlatform));
    assert_eq!(set(&mut project, &["c_compiler", "tcc"], "bsd"), Err(DataError::InvalidPlatform));
    assert_eq!(set(&mut project, &["name", "x"], "bsd"), Err(DataError::IncorrectKey));
    assert!(project.platforms.is_none());
    assert_eq!(project.get_compiler().get_compiler_command(&Language::C), "gcc");
}

#[test]
fn getting_values_of_a_platform() {
    let mut project = Project::default();
    let get = |project: &Project, args: &[&str], platform: &str| {
        Commands::get_data_platform(project, &strings(args), platform.to_string())
    };
    assert!(matches!(get(&project, &["libs"], "linux"), Err(DataError::NoPlatforms)));
    let mut over = PlatformOptions::for_host("linux");
    over.add_library("pthread".to_string());
    over.add_library_directories("/opt/lib".to_string());
    over.set_compiler(Language::CXX, "clang++".to_string());
    over.compiler.set_compiler_flags(Language::C, strings(&["-a"]));
    let mut platforms = Platforms::default();
    platforms.linux = Some(over);
    project.platforms = Some(platforms);

    assert!(matches!(get(&project, &["libs"], "osx"), Err(DataError::NoOsxKeys)));
    assert!(matches!(get(&project, &["libs"], "windows"), Err(DataError::NoWindowsKeys)));
    assert!(matches!(get(&project, &["libs"], "bsd"), Err(DataError::UnknownPlatform)));
    assert!(matches!(get(&project, &[], "osx"), Err(DataError::NoOsxKeys)));
    assert!(matches!(get(&project, &[], "linux"), Err(DataError::NoKey)));
    assert!(matches!(get(&project, &["--help"], "linux"), Ok(Shown::Help)));
    assert!(matches!(get(&project, &["name"], "linux"), Ok(Shown::UnknownKey)));
    assert!(matches!(
        get(&project, &["libs"], "linux"),
        Ok(Shown::List(ref l)) if *l == strings(&["pthread"])
    ));
    assert!(matches!(
        get(&project, &["library_directories"], "linux"),
        Ok(Shown::List(ref l)) if *l == strings(&["/opt/lib"])
    ));
    assert!(matches!(
        get(&project, &["flags"], "linux"),
        Ok(Shown::List(ref l)) if *l == strings(&["-a"])
    ));
    assert!(matches!(get(&project, &["compiler"], "linux"), Ok(Shown::Text(ref t)) if t == "gcc"));
    assert!(matches!(get(&project, &["c_compiler"], "linux"), Ok(Shown::Text(ref t)) if t == "gcc"));
    assert!(matches!(
        get(&project, &["cxx_compiler"], "linux"),
        Ok(Shown::Text(ref t)) if t == "clang++"
    ));
    project.platforms.as_mut().unwrap().linux = None;
    assert!(matches!(get(&project, &["libs"], "linux"), Err(DataError::NoLinuxKeys)));
}
