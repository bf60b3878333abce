use ocean::commands::Commands;
use ocean::flags::BuildMode;
use ocean::invocation::{
    compile_invocation, chain, executable_path_of, link_invocation, object_dir_of,
    object_name_of, output_dir_of, path_inside, push_all, push_inside, push_prefixed,
};
use ocean::language::Language;
use ocean::platform::{Host, PlatformOptions, Platforms};
use ocean::project::{Binary, Project};

fn strings(items: &[&str]) -> Vec<String> {
    items.iter().map(|s| s.to_string()).collect()
}

fn demo() -> Project {
    let mut project = Project::default();
    project.set_name("demo".to_string());
    project.add_library("m".to_string());
    project.add_library("z".to_string());
    project.add_library_directories("/opt/lib".to_string());
    project
}

#[test]
fn where_things_are_put() {
    let project = demo();
    assert_eq!(object_dir_of(&project, BuildMode::Debug), "./obj/debug");
    assert_eq!(object_dir_of(&project, BuildMode::Release), "./obj/release");
    assert_eq!(output_dir_of(&project, BuildMode::Debug), "./build/debug");
    assert_eq!(output_dir_of(&project, BuildMode::Release), "./build/release");
    assert_eq!(executable_path_of(&project, BuildMode::Debug, "demo", ""), "./build/debug/demo");
    assert_eq!(
        executable_path_of(&project, BuildMode::Release, "demo", ".exe"),
        "./build/release/demo.exe"
    );
    assert_ne!(output_dir_of(&project, BuildMode::Debug), output_dir_of(&project, BuildMode::Release));
    assert_eq!(object_name_of("./src/main.c"), "main.o");
    assert_eq!(object_name_of("./src/a.b.cpp"), "a.b.o");
    assert_eq!(object_name_of("plain"), "plain.o");
    assert_eq!(path_inside("a", "b"), "a/b");
    assert_eq!(chain("a", "b"), "ab");
}

#[test]
fn pushing_strings() {
    let mut out = strings(&["x"]);
    push_all(&mut out, &strings(&["a", "b"]));
    push_prefixed(&mut out, "-l", &strings(&["m", "z"]));
    push_inside(&mut out, "./obj", &strings(&["a.o"]));
    push_all(&mut out, &strings(&[]));
    assert_eq!(out, strings(&["x", "a", "b", "-lm", "-lz", "./obj/a.o"]));
}

#[test]
fn compile_call_has_flags_then_the_file() {
    let project = demo();
    let call = compile_invocation(&project, false, "-Wall -O3", "./src/main.c");
    assert_eq!(call.program, "gcc");
    assert_eq!(call.args, strings(&["-Wall", "-O3", "-c", "./src/main.c"]));
    let call = compile_invocation(&project, true, "-Wall  -O3", "./src/main.c");
    assert_eq!(call.args, strings(&["-v", "-Wall", "", "-O3", "-c", "./src/main.c"]));
    let copy = call.clone();
    assert_eq!(copy.program, call.program);
    assert_eq!(copy.args, call.args);
}

#[test]
fn compile_call_uses_the_compiler_of_the_language() {
    let mut project = demo();
    project.set_language(Language::CXX);
    project.set_current_compiler("clang++".to_string());
    let call = compile_invocation(&project, false, "-O3", "./src/main.cpp");
    assert_eq!(call.program, "clang++");
}

#[test]
fn link_call_has_objects_flags_output_directories_libraries() {
    let project = demo();
    let call = link_invocation(
        &project,
        BuildMode::Release,
        "linux",
        "",
        false,
        "-Wall -Wextra -O3",
        &strings(&["a.o", "main.o"]),
    );
    assert_eq!(call.program, "gcc");
    assert_eq!(
        call.args,
        strings(&[
            "./obj/release/a.o",
            "./obj/release/main.o",
            "-Wall",
            "-Wextra",
            "-O3",
            "-o",
            "./build/release/demo",
            "-L/opt/lib",
            "-lm",
            "-lz"
        ])
    );
    let call = link_invocation(&project, BuildMode::Debug, "windows", ".exe", true, "-g", &strings(&[]));
    assert_eq!(
        call.args,
        strings(&["-v", "-g", "-o", "./build/debug/demo.exe", "-L/opt/lib", "-lm", "-lz"])
    );
}

#[test]
fn link_call_takes_the_libraries_of_the_override() {
    let mut project = demo();
    let mut over = PlatformOptions::for_host("linux");
    over.add_library("pthread".to_string());
    over.add_library_directories("/usr/local/lib".to_string());
    let mut platforms = Platforms::default();
    platforms.linux = Some(over);
    project.platforms = Some(platforms);
    let call = link_invocation(&project, BuildMode::Release, "linux", "", false, "-O3", &strings(&["m.o"]));
    assert_eq!(
        call.args,
        strings(&[
            "./obj/release/m.o",
            "-O3",
            "-o",
            "./build/release/demo",
            "-L/usr/local/lib",
            "-lpthread"
        ])
    );
}

#[test]
fn binary_call_compiles_in_one_step() {
    let project = demo();
    let binary = Binary {
        name: "tool".to_string(),
        path: "./src/tool.cpp".to_string(),
        language: Language::CXX,
        flags: strings(&["-DTOOL"]),
    };
    let host = Host { os: "linux".to_string(), exe_suffix: String::new() };
    let call = Commands::build_file(&project, &binary, BuildMode::Release, &host);
    assert_eq!(call.program, "g++");
    assert_eq!(
        call.args,
        strings(&[
            "-Wall",
            "-Wextra",
            "-O3",
            "-DTOOL",
            "-L/opt/lib",
            "-lm",
            "-lz",
            "./src/tool.cpp",
            "-o",
            "./build/release/tool"
        ])
    );
    let windows = Host { os: "windows".to_string(), exe_suffix: ".exe".to_string() };
    let call = Commands::build_file(&project, &binary, BuildMode::Debug, &windows);
    assert_eq!(call.args.last().unwrap(), "./build/debug/tool.exe");
    assert_eq!(call.args[0], "-g");
}
