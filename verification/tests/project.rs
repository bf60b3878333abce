use ocean::compiler::{Compiler, CompilerOptions};
use ocean::language::Language;
use ocean::platform::{is_supported_os, PlatformOptions, Platforms};
use ocean::project::{clone_binaries, Binary, DirectoryHashMap, Inner, Project};

fn strings(items: &[&str]) -> Vec<String> {
    items.iter().map(|s| s.to_string()).collect()
}

fn project_with_linux_override() -> Project {
    let mut project = Project::default();
    project.add_library("m".to_string());
    project.add_library_directories("/usr/lib".to_string());
    let mut over = PlatformOptions::for_host("linux");
    over.add_library("pthread".to_string());
    over.add_library("dl".to_string());
    over.add_library_directories("/opt/lib".to_string());
    let mut platforms = Platforms::default();
    platforms.linux = Some(over);
    project.platforms = Some(platforms);
    project
}

#[test]
fn language_names() {
    assert_eq!(Language::C.as_string(), "C");
    assert_eq!(Language::CXX.as_string(), "CXX");
    assert_eq!(Language::C.get_extension(), "c");
    assert_eq!(Language::CXX.get_extension(), "cpp");
    assert_eq!(Language::C.display(), "C");
    assert_eq!(Language::CXX.display(), "C++");
}

#[test]
fn a_fresh_compiler_is_gcc_and_gxx() {
    for compiler in [Compiler::new(), Compiler::default()] {
        assert_eq!(compiler.get_compiler_command(&Language::C), "gcc");
        assert_eq!(compiler.get_compiler_command(&Language::CXX), "g++");
        assert!(compiler.get_compiler_flags(&Language::C).is_empty());
        assert!(compiler.get_compiler_flags(&Language::CXX).is_empty());
    }
}

#[test]
fn compiler_settings_are_kept_by_language() {
    let mut compiler = Compiler::new();
    compiler.set_compiler_command(Language::C, "clang".to_string());
    compiler.set_compiler_flags(Language::CXX, strings(&["-std=c++17"]));
    assert_eq!(compiler.get_compiler_command(&Language::C), "clang");
    assert_eq!(compiler.get_compiler_command(&Language::CXX), "g++");
    assert!(compiler.get_compiler_flags(&Language::C).is_empty());
    assert_eq!(compiler.get_compiler_flags(&Language::CXX), &strings(&["-std=c++17"]));
    let copy = compiler.clone();
    assert_eq!(copy.get_compiler_command(&Language::C), "clang");
    assert_eq!(copy.get_compiler_flags(&Language::CXX), &strings(&["-std=c++17"]));
}

#[test]
fn compiler_from_a_pair_takes_cxx_first() {
    let pair = [
        CompilerOptions { command: "clang++".to_string(), flags: strings(&["-a"]) },
        CompilerOptions { command: "clang".to_string(), flags: strings(&["-b", "-c"]) },
    ];
    let compiler = Compiler::from(pair);
    assert_eq!(compiler.get_compiler_command(&Language::CXX), "clang++");
    assert_eq!(compiler.get_compiler_flags(&Language::CXX), &strings(&["-a"]));
    assert_eq!(compiler.get_compiler_command(&Language::C), "clang");
    assert_eq!(compiler.get_compiler_flags(&Language::C), &strings(&["-b", "-c"]));
}

#[test]
fn a_fresh_override_is_named_after_the_host() {
    let linux = PlatformOptions::for_host("linux");
    assert_eq!(linux.platform_name, "Linux");
    assert!(linux.get_libraries().is_empty());
    assert!(linux.get_library_dirs().is_empty());
    assert_eq!(linux.get_compiler().get_compiler_command(&Language::C), "gcc");
    assert_eq!(PlatformOptions::for_host("windows").platform_name, "Windows");
    assert_eq!(PlatformOptions::for_host("Osx").platform_name, "Osx");
    assert_eq!(PlatformOptions::for_host("9front").platform_name, "9front");
    assert_eq!(PlatformOptions::for_host("").platform_name, "");
    assert_eq!(PlatformOptions::for_host("z").platform_name, "Z");
    assert_eq!(PlatformOptions::for_host("élan").platform_name, "élan");
}

#[test]
fn override_settings() {
    let mut over = PlatformOptions::for_host("linux");
    over.add_library("m".to_string());
    over.add_library("dl".to_string());
    over.add_library_directories("/opt/lib".to_string());
    over.set_compiler(Language::CXX, "clang++".to_string());
    over.get_compiler_mut().set_compiler_command(Language::C, "tcc".to_string());
    assert_eq!(over.get_libraries(), &strings(&["m", "dl"]));
    assert_eq!(over.get_library_dirs(), &strings(&["/opt/lib"]));
    assert_eq!(over.get_compiler().get_compiler_command(&Language::CXX), "clang++");
    assert_eq!(over.get_compiler().get_compiler_command(&Language::C), "tcc");
    let copy = over.clone();
    assert_eq!(copy.platform_name, "Linux");
    assert_eq!(copy.libraries, over.libraries);
}

#[test]
fn overrides_are_found_by_the_name_of_the_host() {
    let mut platforms = Platforms::default();
    assert!(platforms.for_os("linux").is_none());
    platforms.linux = Some(PlatformOptions::for_host("linux"));
    platforms.bsd = Some(PlatformOptions::for_host("bsd"));
    platforms.windows = Some(PlatformOptions::for_host("windows"));
    assert_eq!(platforms.for_os("linux").as_ref().unwrap().platform_name, "Linux");
    assert_eq!(platforms.for_os("windows").as_ref().unwrap().platform_name, "Windows");
    assert!(platforms.for_os("osx").is_none());
    assert!(platforms.for_os("bsd").is_none());
    assert!(platforms.for_os("macos").is_none());
    assert!(is_supported_os("linux") && is_supported_os("osx") && is_supported_os("windows"));
    assert!(!is_supported_os("bsd") && !is_supported_os("") && !is_supported_os("linux "));
    let copy = platforms.clone();
    assert!(copy.linux.is_some() && copy.bsd.is_some() && copy.osx.is_none());
}

#[test]
fn a_fresh_project() {
    let project = Project::default();
    assert_eq!(project.get_name(), "Ocean Project");
    assert_eq!(*project.get_language(), Language::C);
    assert!(project.get_libraries("linux").is_empty());
    assert!(project.get_library_dirs("linux").is_empty());
    assert_eq!(project.get_directories().get_build_dir(), "./build");
    assert_eq!(project.get_directories().get_objects_dir(), "./obj");
    assert_eq!(project.get_directories().get_source_dir(), "./src");
    assert_eq!(project.get_compiler().get_compiler_command(&Language::C), "gcc");
    assert!(project.get_platform().is_none());
    assert!(project.get_binaries().is_empty());
    let inner = Inner::default();
    assert_eq!(inner.name, "Ocean Project");
    assert_eq!(inner.language, Language::C);
}

#[test]
fn directories() {
    let mut dirs = DirectoryHashMap::new();
    assert_eq!(dirs.get_all_dirs(), strings(&["./build", "./obj", "./src"]));
    dirs.set_build_dir("out".to_string());
    dirs.set_objects_dir("tmp".to_string());
    dirs.set_source_dir("code".to_string());
    assert_eq!(dirs.get_build_dir(), "out");
    assert_eq!(dirs.get_objects_dir(), "tmp");
    assert_eq!(dirs.get_source_dir(), "code");
    assert_eq!(dirs.get_all_dirs(), strings(&["out", "tmp", "code"]));
    assert_eq!(dirs.clone().get_all_dirs(), strings(&["out", "tmp", "code"]));
}

#[test]
fn project_settings() {
    let mut project = Project::default();
    project.set_name("demo".to_string());
    project.set_language(Language::CXX);
    project.add_library("m".to_string());
    project.add_library("z".to_string());
    project.add_library_directories("/usr/lib".to_string());
    project.set_compiler(Language::C, "clang".to_string());
    project.set_current_compiler("clang++".to_string());
    project.get_directories_mut().set_build_dir("out".to_string());
    project.get_compiler_mut().set_compiler_flags(Language::C, strings(&["-a"]));
    *project.get_platform_mut() = Some(Platforms::default());
    assert_eq!(project.get_name(), "demo");
    assert_eq!(*project.get_language(), Language::CXX);
    assert_eq!(project.get_libraries("linux"), &strings(&["m", "z"]));
    assert_eq!(project.get_library_dirs("linux"), &strings(&["/usr/lib"]));
    assert_eq!(project.get_compiler().get_compiler_command(&Language::C), "clang");
    assert_eq!(project.get_compiler().get_compiler_command(&Language::CXX), "clang++");
    assert_eq!(project.get_compiler().get_compiler_flags(&Language::C), &strings(&["-a"]));
    assert_eq!(project.get_directories().get_build_dir(), "out");
    assert!(project.get_platform().is_some());
}

#[test]
fn libraries_of_an_override_replace_those_of_the_project() {
    let project = project_with_linux_override();
    assert_eq!(project.get_libraries("linux"), &strings(&["pthread", "dl"]));
    assert_eq!(project.get_library_dirs("linux"), &strings(&["/opt/lib"]));
    assert_eq!(project.get_libraries("windows"), &strings(&["m"]));
    assert_eq!(project.get_library_dirs("windows"), &strings(&["/usr/lib"]));
    assert_eq!(project.get_libraries("plan9"), &strings(&["m"]));
    assert!(project.get_override("linux").is_some());
    assert!(project.get_override("osx").is_none());
}

#[test]
fn binaries_are_handed_out_as_copies() {
    let mut project = Project::default();
    let bins = vec![
        Binary {
            name: "one".to_string(),
            path: "./src/one.c".to_string(),
            language: Language::C,
            flags: strings(&["-DONE"]),
        },
        Binary {
            name: "two".to_string(),
            path: "./src/two.cpp".to_string(),
            language: Language::CXX,
            flags: Vec::new(),
        },
    ];
    project.bins = Some(clone_binaries(&bins));
    let got = project.get_binaries();
    assert_eq!(got.len(), 2);
    assert_eq!(got[0].name, "one");
    assert_eq!(got[0].path, "./src/one.c");
    assert_eq!(got[0].language, Language::C);
    assert_eq!(got[0].flags, strings(&["-DONE"]));
    assert_eq!(got[1].name, "two");
    assert_eq!(got[1].language, Language::CXX);
    assert_eq!(bins[1].clone().path, "./src/two.cpp");
}
