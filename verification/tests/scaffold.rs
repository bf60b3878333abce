use ocean::commands::Commands;
use ocean::git::ignore::{write_ignore, IGNORE_CONTENT};
use ocean::language::Language;
use ocean::project::Project;
use ocean::scaffold::{NewProject, Scaffold, ScaffoldError, Site, HELLO_C, HELLO_CXX};

fn strings(items: &[&str]) -> Vec<String> {
    items.iter().map(|s| s.to_string()).collect()
}

const FREE: Site = Site { has_description: false, is_empty_dir: false };

fn scaffold(args: &[&str]) -> Scaffold {
    match Commands::new_project(&strings(args), FREE) {
        Ok(NewProject::Create(s)) => s,
        other => panic!("{:?} makes no project: {:?}", args, other.map(|_| ())),
    }
}

#[test]
fn a_plain_new_project() {
    let s = scaffold(&["demo"]);
    assert_eq!(s.project.get_name(), "demo");
    assert_eq!(*s.project.get_language(), Language::C);
    assert_eq!(s.source_dir, "demo/src");
    assert_eq!(s.description_path, "demo/Ocean.toml");
    assert_eq!(s.code_path, "demo/./src/main.c");
    assert_eq!(s.code, HELLO_C);
    assert_eq!(
        s.code,
        "#include <stdio.h>\n\nint main() {\n    printf(\"Hello, world\\n\");\n}\n"
    );
    assert_eq!(s.ccls_path, None);
    assert!(!s.vscode);
    assert_eq!(s.message, "Created a new C project \"demo\"");
}

#[test]
fn a_new_project_with_options() {
    let s = scaffold(&[
        "demo", "-CXX", "-c", "clang++", "-b", "out", "-s", "code", "-o", "tmp", "--ccls", "--vscode",
    ]);
    assert_eq!(*s.project.get_language(), Language::CXX);
    assert_eq!(s.project.get_compiler().get_compiler_command(&Language::CXX), "clang++");
    assert_eq!(s.project.get_compiler().get_compiler_command(&Language::C), "gcc");
    assert_eq!(s.project.get_directories().get_all_dirs(), strings(&["out", "tmp", "code"]));
    assert_eq!(s.source_dir, "demo/src");
    assert_eq!(s.code_path, "demo/code/main.cpp");
    assert_eq!(s.code, HELLO_CXX);
    assert_eq!(
        s.code,
        "#include <iostream>\n\nint main() {\n    std::cout << \"Hello, world\" << std::endl;\n}\n"
    );
    assert_eq!(s.ccls_path, Some("demo/.ccls".to_string()));
    assert!(s.vscode);
    assert_eq!(s.message, "Created a new C++ project \"demo\"");
}

#[test]
fn the_compiler_is_set_for_the_language_chosen_so_far() {
    let s = scaffold(&["demo", "-c", "tcc", "-CXX"]);
    assert_eq!(*s.project.get_language(), Language::CXX);
    assert_eq!(s.project.get_compiler().get_compiler_command(&Language::C), "tcc");
    assert_eq!(s.project.get_compiler().get_compiler_command(&Language::CXX), "g++");
    let s = scaffold(&["demo", "--build-dir", "-CXX", "--source-dir", "x", "--obj-dir", "y", "--compiler", "z"]);
    assert_eq!(*s.project.get_language(), Language::CXX);
    assert_eq!(s.project.get_directories().get_build_dir(), "-CXX");
    assert_eq!(s.project.get_compiler().get_compiler_command(&Language::CXX), "z");
}

#[test]
fn new_project_failures() {
    let refuse = |args: &[&str], site: Site| match Commands::new_project(&strings(args), site) {
        Err(e) => e,
        Ok(_) => panic!("{:?} was accepted", args),
    };
    assert_eq!(refuse(&[], FREE), ScaffoldError::NoName);
    assert_eq!(refuse(&[""], FREE), ScaffoldError::NoName);
    assert_eq!(
        refuse(&["demo"], Site { has_description: true, is_empty_dir: true }),
        ScaffoldError::DescriptionExists
    );
    assert_eq!(
        refuse(&["demo"], Site { has_description: false, is_empty_dir: true }),
        ScaffoldError::DirectoryRefused
    );
    assert_eq!(refuse(&["demo", "-b"], FREE), ScaffoldError::NoBuildDir);
    assert_eq!(refuse(&["demo", "--ccls", "-s"], FREE), ScaffoldError::NoSourceDir);
    assert_eq!(refuse(&["demo", "-o"], FREE), ScaffoldError::NoObjectsDir);
    assert_eq!(refuse(&["demo", "-CXX", "--compiler"], FREE), ScaffoldError::NoCompiler);
    assert_eq!(ScaffoldError::NoName.message(), "Did not specify project name");
    assert_eq!(
        ScaffoldError::DescriptionExists.message(),
        "Cannot create a new project, Ocean.toml already exists in this directory."
    );
    assert_eq!(
        ScaffoldError::DirectoryRefused.message(),
        "Cannot create a new project, directory is not empty"
    );
    assert_eq!(ScaffoldError::NoBuildDir.message(), "Did not specify a build directory");
    assert_eq!(ScaffoldError::NoSourceDir.message(), "Did not specify a source directory");
    assert_eq!(ScaffoldError::NoObjectsDir.message(), "Did not specify an objects directory");
    assert_eq!(ScaffoldError::NoCompiler.message(), "Did not specify custom compiler");
}

#[test]
fn new_project_help_and_name() {
    assert!(matches!(
        Commands::new_project(&strings(&["--help", "-b"]), Site { has_description: true, is_empty_dir: true }),
        Ok(NewProject::Help)
    ));
    assert_eq!(Commands::new_project_name(&strings(&["--help"])), Ok(None));
    assert_eq!(Commands::new_project_name(&strings(&["demo", "-b"])), Ok(Some("demo".to_string())));
    assert_eq!(Commands::new_project_name(&strings(&[])), Err(ScaffoldError::NoName));
    assert_eq!(Commands::new_project_name(&strings(&[""])), Err(ScaffoldError::NoName));
}

#[test]
fn ignore_list() {
    let mut project = Project::default();
    project.set_name("demo".to_string());
    let file = write_ignore(&project);
    assert_eq!(file.path, "demo/.gitignore");
    assert_eq!(file.content, "/build/\n/obj/\nOcean.lock");
    assert_eq!(file.content, IGNORE_CONTENT);
}
