use ocean::compiler::Compiler;
use ocean::error::{Error, ErrorKind};
use ocean::flags::{resolve_binary_flags, resolve_flags, BuildMode};
use ocean::language::Language;
use ocean::platform::{PlatformOptions, Platforms};
use ocean::project::{Binary, Project};

fn strings(items: &[&str]) -> Vec<String> {
    items.iter().map(|s| s.to_string()).collect()
}

fn with_override(flags: &[&str]) -> Project {
    let mut project = Project::default();
    project.compiler.set_compiler_flags(Language::C, strings(&["-std=c99"]));
    let mut over = PlatformOptions::for_host("linux");
    over.compiler.set_compiler_flags(Language::C, strings(flags));
    let mut platforms = Platforms::default();
    platforms.linux = Some(over);
    project.platforms = Some(platforms);
    project
}

#[test]
fn presets_of_the_modes() {
    assert_eq!(BuildMode::Debug.as_str(), "debug");
    assert_eq!(BuildMode::Release.as_str(), "release");
    assert_eq!(BuildMode::Debug.preset_flags(), "-g -ggdb -Wall -Wextra -Og");
    assert_eq!(BuildMode::Release.preset_flags(), "-Wall -Wextra -O3");
}

#[test]
fn no_extra_flags_gives_the_preset_alone() {
    let project = Project::default();
    assert_eq!(
        resolve_flags(&project, BuildMode::Debug, "linux", "").unwrap(),
        "-g -ggdb -Wall -Wextra -Og"
    );
    assert_eq!(
        resolve_flags(&project, BuildMode::Release, "linux", "").unwrap(),
        "-Wall -Wextra -O3"
    );
    assert_eq!(
        resolve_flags(&project, BuildMode::Release, "windows", "   ").unwrap(),
        "-Wall -Wextra -O3"
    );
}

#[test]
fn release_and_debug_resolve_to_different_flags() {
    let mut project = Project::default();
    project.compiler.set_compiler_flags(Language::C, strings(&["-std=c11", "-pedantic"]));
    let debug = resolve_flags(&project, BuildMode::Debug, "linux", "-DX").unwrap();
    let release = resolve_flags(&project, BuildMode::Release, "linux", "-DX").unwrap();
    assert_eq!(debug, "-g -ggdb -Wall -Wextra -Og -std=c11 -pedantic -DX");
    assert_eq!(release, "-Wall -Wextra -O3 -std=c11 -pedantic -DX");
    assert_ne!(debug, release);
}

#[test]
fn language_flags_come_before_user_flags_and_all_is_trimmed() {
    let mut project = Project::default();
    project.compiler.set_compiler_flags(Language::C, strings(&[" -std=c11", "-pedantic "]));
    assert_eq!(
        resolve_flags(&project, BuildMode::Release, "osx", "  -DX=1 -pipe ").unwrap(),
        "-Wall -Wextra -O3 -std=c11 -pedantic -DX=1 -pipe"
    );
    assert_eq!(
        resolve_flags(&project, BuildMode::Release, "osx", "").unwrap(),
        "-Wall -Wextra -O3 -std=c11 -pedantic"
    );
    let plain = Project::default();
    assert_eq!(
        resolve_flags(&plain, BuildMode::Release, "osx", " -DX=1 ").unwrap(),
        "-Wall -Wextra -O3 -DX=1"
    );
}

#[test]
fn flags_follow_the_language_of_the_project() {
    let mut project = Project::default();
    project.compiler.set_compiler_flags(Language::C, strings(&["-std=c11"]));
    project.compiler.set_compiler_flags(Language::CXX, strings(&["-std=c++20"]));
    assert_eq!(
        resolve_flags(&project, BuildMode::Release, "linux", "").unwrap(),
        "-Wall -Wextra -O3 -std=c11"
    );
    project.set_language(Language::CXX);
    assert_eq!(
        resolve_flags(&project, BuildMode::Release, "linux", "").unwrap(),
        "-Wall -Wextra -O3 -std=c++20"
    );
}

#[test]
fn platform_override_replaces_the_language_flags() {
    let project = with_override(&["-pthread"]);
    assert_eq!(
        resolve_flags(&project, BuildMode::Release, "linux", "").unwrap(),
        "-Wall -Wextra -O3 -pthread"
    );
    assert_eq!(
        resolve_flags(&project, BuildMode::Release, "windows", "").unwrap(),
        "-Wall -Wextra -O3 -std=c99"
    );
    let emptied = with_override(&[]);
    assert_eq!(
        resolve_flags(&emptied, BuildMode::Release, "linux", "").unwrap(),
        "-Wall -Wextra -O3"
    );
}

#[test]
fn bsd_settings_are_no_override() {
    let mut project = Project::default();
    project.compiler.set_compiler_flags(Language::C, strings(&["-std=c99"]));
    let mut over = PlatformOptions::for_host("bsd");
    over.compiler.set_compiler_flags(Language::C, strings(&["-pthread"]));
    let mut platforms = Platforms::default();
    platforms.bsd = Some(over);
    project.platforms = Some(platforms);
    assert!(matches!(
        resolve_flags(&project, BuildMode::Release, "bsd", ""),
        Err(Error::UnsupportedPlatform)
    ));
    assert_eq!(
        resolve_flags(&project, BuildMode::Release, "linux", "").unwrap(),
        "-Wall -Wextra -O3 -std=c99"
    );
}

#[test]
fn unsupported_host_is_a_config_error() {
    let project = Project::default();
    for os in ["freebsd", "macos", "", "Linux"] {
        match resolve_flags(&project, BuildMode::Debug, os, "") {
            Err(e) => {
                assert_eq!(e.kind(), ErrorKind::Config);
                assert!(matches!(e, Error::UnsupportedPlatform));
            },
            Ok(_) => panic!("flags were resolved for the host {:?}", os),
        }
    }
    for os in ["linux", "osx", "windows"] {
        assert!(resolve_flags(&project, BuildMode::Debug, os, "").is_ok());
    }
}

#[test]
fn flags_of_a_binary_are_its_own_after_the_preset() {
    let mut binary = Binary {
        name: "tool".to_string(),
        path: "./src/tool.c".to_string(),
        language: Language::C,
        flags: strings(&["-DTOOL", "-lm"]),
    };
    assert_eq!(resolve_binary_flags(&binary, BuildMode::Release), "-Wall -Wextra -O3 -DTOOL -lm");
    assert_eq!(
        resolve_binary_flags(&binary, BuildMode::Debug),
        "-g -ggdb -Wall -Wextra -Og -DTOOL -lm"
    );
    binary.flags.clear();
    assert_eq!(resolve_binary_flags(&binary, BuildMode::Release), "-Wall -Wextra -O3");
    binary.flags = strings(&["  -a ", ""]);
    assert_eq!(resolve_binary_flags(&binary, BuildMode::Release), "-Wall -Wextra -O3   -a");
}

#[test]
fn a_fresh_compiler_has_no_flags() {
    let project = Project::default();
    assert!(project.get_compiler().get_compiler_flags(&Language::C).is_empty());
    assert!(Compiler::new().get_compiler_flags(&Language::CXX).is_empty());
}
