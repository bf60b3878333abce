use ocean::editors::{Editor, EditorError, PathEntry, VsCode, CCLS, TASKS};
use ocean::language::Language;
use ocean::project::Project;

fn entry(dir: &str, has_exe: bool, has_plain: bool) -> PathEntry {
    PathEntry { dir: dir.to_string(), has_exe, has_plain }
}

fn find(entries: Option<Vec<PathEntry>>, os: &str, unix: bool) -> Result<String, EditorError> {
    <CCLS as Editor<String>>::get_compiler_path(&entries, os, unix)
}

#[test]
fn the_last_directory_with_the_compiler_is_taken() {
    let path = || {
        Some(vec![
            entry("/usr/local/bin", false, true),
            entry("/usr/bin", false, true),
            entry("/mnt/c/tools", true, false),
            entry("/bin", false, false),
        ])
    };
    assert_eq!(find(path(), "linux", true), Ok("/usr/bin".to_string()));
    assert_eq!(find(path(), "windows", false), Ok("/mnt/c/tools".to_string()));
    assert_eq!(find(path(), "plan9", false), Err(EditorError::CompilerNotFound));
}

#[test]
fn the_compiler_may_not_be_found() {
    assert_eq!(find(None, "linux", true), Err(EditorError::NoSearchPath));
    assert_eq!(find(Some(vec![]), "linux", true), Err(EditorError::CompilerNotFound));
    assert_eq!(
        find(Some(vec![entry("/bin", true, false)]), "linux", true),
        Err(EditorError::CompilerNotFound)
    );
    assert_eq!(
        find(Some(vec![entry("/bin", false, true), entry("", false, true)]), "linux", true),
        Err(EditorError::CompilerNotFound)
    );
    assert_eq!(EditorError::NoSearchPath.message(), "Cannot find PATH environment variable");
    assert_eq!(
        EditorError::CompilerNotFound.message(),
        "Cannot find compiler in PATH. Did you add the compiler's directory to the PATH?"
    );
}

#[test]
fn ccls_settings_are_empty() {
    let ccls = CCLS::new();
    assert_eq!(ccls.get_config_dir(), "");
    assert_eq!(ccls.get_config(), "");
}

#[test]
fn vscode_settings_for_a_c_project() {
    let mut project = Project::default();
    project.set_name("demo".to_string());
    let vscode = VsCode::new(&project, "linux", "/usr/bin");
    assert_eq!(vscode.get_config_dir(), "demo/.vscode");
    let configs = vscode.get_config();
    assert_eq!(
        configs.c_cpp_properties,
        "{\n    \"configurations\": [\n        {\n            \"name\": \"linux\",\n            \
         \"includePath\": [\n                \"${workspaceFolder}/**\"\n            ],\n            \
         \"defines\": [\n                \"_DEBUG\",\n                \"UNICODE\",\n                \
         \"_UNICODE\"\n            ],\n            \"compilerPath\": \"/usr/bin/gcc\",\n            \
         \"cStandard\": \"c11\",\n            \"cppStandard\": \"c++20\",\n            \
         \"intelliSenseMode\": \"gcc-x64\"\n        }\n    ],\n    \"version\": 4\n}"
    );
    assert_eq!(
        configs.launch,
        "{\n    \"version\": \"0.2.0\",\n    \"configurations\": [\n        {\n            \
         \"name\": \"Debug\",\n            \"type\": \"cppdbg\",\n            \"request\": \
         \"launch\",\n            \"program\": \"${workspaceFolder}/build/debug/demo\",\n            \
         \"args\": [],\n            \"stopAtEntry\": false,\n            \"cwd\": \
         \"${workspaceFolder}\",\n            \"environment\": [],\n            \
         \"externalConsole\": false,\n            \"MIMode\": \"gdb\",\n            \
         \"preLaunchTask\": \"build\",\n            \"setupCommands\": [\n                {\n                    \
         \"description\": \"Enable pretty-printing for gdb\",\n                    \"text\": \
         \"-enable-pretty-printing\",\n                    \"ignoreFailures\": true\n                \
         }\n            ]\n        }\n    ]\n}"
    );
    assert_eq!(configs.tasks, TASKS);
    assert!(TASKS.starts_with("{\n    \"tasks\": [\n        {\n            \"type\": \"shell\",\n"));
    assert!(TASKS.ends_with("    ],\n    \"version\": \"2.0.0\"\n}"));
    assert_eq!(TASKS.matches("\"command\": \"ocean run\"").count(), 2);
    assert_eq!(TASKS.matches("\"command\": \"ocean build\"").count(), 2);
}

#[test]
fn vscode_settings_name_the_analysis_after_gcc_for_gxx() {
    let mut project = Project::default();
    project.set_name("demo".to_string());
    project.set_language(Language::CXX);
    let vscode = VsCode::new(&project, "windows", "C:/mingw/bin");
    let configs = vscode.get_config();
    assert!(configs.c_cpp_properties.contains("\"name\": \"windows\","));
    assert!(configs.c_cpp_properties.contains("\"compilerPath\": \"C:/mingw/bin/g++\","));
    assert!(configs.c_cpp_properties.contains("\"intelliSenseMode\": \"gcc-x64\""));
    assert!(configs.launch.contains("\"program\": \"${workspaceFolder}/build/debug/demo.exe\","));

    project.set_current_compiler("clang++".to_string());
    let configs = VsCode::new(&project, "linux", "/usr/bin").get_config();
    assert!(configs.c_cpp_properties.contains("\"compilerPath\": \"/usr/bin/clang++\","));
    assert!(configs.c_cpp_properties.contains("\"intelliSenseMode\": \"clang++-x64\""));
}
