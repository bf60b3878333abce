//! The commands of a build: how the compiler is called to compile one file,
//! to link the object files, and to compile a standalone binary; and where
//! the object files and the executables are put.

use crate::flags::{binary_flags, resolve_binary_flags, BuildMode};
use crate::commands::Commands;
use crate::paths::{file_stem, stem_of};
use crate::platform::Host;
use crate::project::{Binary, BinaryView, Project, ProjectView};
use crate::text::{
    clone_strings, lemma_texts_push, no_strings, push_string, split, split_on, texts,
};
use vstd::prelude::*;
use vstd::string::*;

verus! {

/// A call of a program: the program and its arguments, in order.
#[derive(Debug)]
pub struct Invocation {
    pub program: String,
    pub args: Vec<String>,
}

/// What an `Invocation` holds, as text.
pub struct InvocationView {
    pub program: Seq<char>,
    pub args: Seq<Seq<char>>,
}

impl View for Invocation {
    type V = InvocationView;

    open spec fn view(&self) -> InvocationView {
        InvocationView { program: self.program@, args: texts(self.args@) }
    }
}

impl Clone for Invocation {
    fn clone(&self) -> (r: Self)
        ensures
            r@ == self@,
    {
        Invocation { program: self.program.clone(), args: clone_strings(&self.args) }
    }
}

/// `name` inside the directory `dir`.
pub open spec fn inside(dir: Seq<char>, name: Seq<char>) -> Seq<char> {
    dir + "/"@ + name
}

/// The directory for the object files of a build in `mode`.
pub open spec fn object_dir(project: ProjectView, mode: BuildMode) -> Seq<char> {
    inside(project.directories.object_dir, mode.name())
}

/// The directory for the executables of a build in `mode`.
pub open spec fn output_dir(project: ProjectView, mode: BuildMode) -> Seq<char> {
    inside(project.directories.build_dir, mode.name())
}

/// The path of the executable called `name`, built in `mode`, on a host
/// whose executables end in `exe_suffix`.
pub open spec fn executable_path(
    project: ProjectView,
    mode: BuildMode,
    name: Seq<char>,
    exe_suffix: Seq<char>,
) -> Seq<char> {
    inside(output_dir(project, mode), name + exe_suffix)
}

/// The name of the object file that the compiler writes for the source `file`.
pub open spec fn object_name(file: Seq<char>) -> Seq<char> {
    stem_of(file) + ".o"@
}

/// Each of `items` with `prefix` before it.
pub open spec fn prefixed(prefix: Seq<char>, items: Seq<Seq<char>>) -> Seq<Seq<char>> {
    items.map_values(|s: Seq<char>| prefix + s)
}

/// Each of `names` inside the directory `dir`.
pub open spec fn all_inside(dir: Seq<char>, names: Seq<Seq<char>>) -> Seq<Seq<char>> {
    names.map_values(|n: Seq<char>| inside(dir, n))
}

/// `-v` where the compiler is to be verbose, else nothing.
pub open spec fn verbose_args(verbose: bool) -> Seq<Seq<char>> {
    if verbose {
        seq!["-v"@]
    } else {
        Seq::empty()
    }
}

/// The arguments that compile `file` to an object file: `-v` if asked for,
/// the flags as separated by single spaces, `-c`, the file.
pub open spec fn compile_args(verbose: bool, flags: Seq<char>, file: Seq<char>) -> Seq<Seq<char>> {
    verbose_args(verbose) + split_on(flags, ' ') + seq!["-c"@, file]
}

/// The arguments that link `objects` into `output`: `-v` if asked for, the
/// object files, the flags as separated by single spaces, `-o` and the
/// output, `-L` with each library directory, `-l` with each library.
pub open spec fn link_args(
    verbose: bool,
    objects: Seq<Seq<char>>,
    flags: Seq<char>,
    output: Seq<char>,
    library_dirs: Seq<Seq<char>>,
    libraries: Seq<Seq<char>>,
) -> Seq<Seq<char>> {
    verbose_args(verbose) + objects + split_on(flags, ' ') + seq!["-o"@, output] + prefixed(
        "-L"@,
        library_dirs,
    ) + prefixed("-l"@, libraries)
}

/// The arguments that compile the standalone binary at `path` into
/// `output` in one call: the flags as separated by single spaces, `-L` with
/// each library directory, `-l` with each library, the source, `-o` and the
/// output.
pub open spec fn binary_args(
    flags: Seq<char>,
    library_dirs: Seq<Seq<char>>,
    libraries: Seq<Seq<char>>,
    path: Seq<char>,
    output: Seq<char>,
) -> Seq<Seq<char>> {
    split_on(flags, ' ') + prefixed("-L"@, library_dirs) + prefixed("-l"@, libraries) + seq![
        path,
        "-o"@,
        output,
    ]
}

/// The call that compiles `file` in a build of `project`.
pub open spec fn compile_call(
    project: ProjectView,
    verbose: bool,
    flags: Seq<char>,
    file: Seq<char>,
) -> InvocationView {
    InvocationView { program: project.compiler_command(), args: compile_args(verbose, flags, file) }
}

/// The call that links the object files called `objects` in the object
/// directory of the mode into the project's executable.
pub open spec fn link_call(
    project: ProjectView,
    mode: BuildMode,
    os: Seq<char>,
    exe_suffix: Seq<char>,
    verbose: bool,
    flags: Seq<char>,
    objects: Seq<Seq<char>>,
) -> InvocationView {
    InvocationView {
        program: project.compiler_command(),
        args: link_args(
            verbose,
            all_inside(object_dir(project, mode), objects),
            flags,
            executable_path(project, mode, project.name, exe_suffix),
            project.library_dirs_on(os),
            project.libraries_on(os),
        ),
    }
}

/// The call that compiles the standalone binary `binary` of `project`.
pub open spec fn binary_call(
    project: ProjectView,
    binary: BinaryView,
    mode: BuildMode,
    os: Seq<char>,
    exe_suffix: Seq<char>,
) -> InvocationView {
    InvocationView {
        program: project.compiler.options(binary.language).command,
        args: binary_args(
            binary_flags(binary, mode),
            project.library_dirs_on(os),
            project.libraries_on(os),
            binary.path,
            executable_path(project, mode, binary.name, exe_suffix),
        ),
    }
}

/// The two modes never share a directory: a debug build and a release build
/// of the same project keep their object files and their executables apart.
pub proof fn law_modes_build_apart(project: ProjectView, name: Seq<char>, exe_suffix: Seq<char>)
    ensures
        object_dir(project, BuildMode::Debug) != object_dir(project, BuildMode::Release),
        output_dir(project, BuildMode::Debug) != output_dir(project, BuildMode::Release),
        executable_path(project, BuildMode::Debug, name, exe_suffix) != executable_path(
            project,
            BuildMode::Release,
            name,
            exe_suffix,
        ),
{
    reveal_strlit("debug");
    reveal_strlit("release");
    assert(object_dir(project, BuildMode::Debug).len() != object_dir(
        project,
        BuildMode::Release,
    ).len());
    assert(output_dir(project, BuildMode::Debug).len() != output_dir(
        project,
        BuildMode::Release,
    ).len());
    assert(executable_path(project, BuildMode::Debug, name, exe_suffix).len() != executable_path(
        project,
        BuildMode::Release,
        name,
        exe_suffix,
    ).len());
}

/// `name` inside the directory `dir`.
pub fn path_inside(dir: &str, name: &str) -> (r: String)
    ensures
        r@ == inside(dir@, name@),
{
    let mut out = dir.to_owned();
    out.append("/");
    out.append(name);
    out
}

/// `a` followed by `b`.
pub fn chain(a: &str, b: &str) -> (r: String)
    ensures
        r@ == a@ + b@,
{
    let mut out = a.to_owned();
    out.append(b);
    out
}

/// Appends a copy of each of `items` to `out`.
pub fn push_all(out: &mut Vec<String>, items: &Vec<String>)
    ensures
        texts(final(out)@) == texts(old(out)@) + texts(items@),
{
    let ghost before = texts(out@);
    let mut i: usize = 0;
    assert(before + texts(items@).take(0) == before);
    while i < items.len()
        invariant
            i <= items.len(),
            texts(out@) == before + texts(items@).take(i as int),
        decreases items.len() - i,
    {
        let item = items[i].clone();
        proof {
            lemma_texts_push(out@, item);
            assert((before + texts(items@).take(i as int)).push(item@) == before + texts(
                items@,
            ).take(i + 1));
        }
        out.push(item);
        i += 1;
    }
    assert(texts(items@).take(items.len() as int) == texts(items@));
}

/// Appends each of `items`, with `prefix` before it, to `out`.
pub fn push_prefixed(out: &mut Vec<String>, prefix: &str, items: &Vec<String>)
    ensures
        texts(final(out)@) == texts(old(out)@) + prefixed(prefix@, texts(items@)),
{
    let ghost before = texts(out@);
    let ghost all = prefixed(prefix@, texts(items@));
    let mut i: usize = 0;
    assert(before + all.take(0) == before);
    while i < items.len()
        invariant
            i <= items.len(),
            all == prefixed(prefix@, texts(items@)),
            texts(out@) == before + all.take(i as int),
        decreases items.len() - i,
    {
        let item = chain(prefix, items[i].as_str());
        proof {
            lemma_texts_push(out@, item);
            assert((before + all.take(i as int)).push(item@) == before + all.take(i + 1));
        }
        out.push(item);
        i += 1;
    }
    assert(all.take(items.len() as int) == all);
}

/// Appends each of `names`, as a path inside `dir`, to `out`.
pub fn push_inside(out: &mut Vec<String>, dir: &str, names: &Vec<String>)
    ensures
        texts(final(out)@) == texts(old(out)@) + all_inside(dir@, texts(names@)),
{
    let ghost before = texts(out@);
    let ghost all = all_inside(dir@, texts(names@));
    let mut i: usize = 0;
    assert(before + all.take(0) == before);
    while i < names.len()
        invariant
            i <= names.len(),
            all == all_inside(dir@, texts(names@)),
            texts(out@) == before + all.take(i as int),
        decreases names.len() - i,
    {
        let item = path_inside(dir, names[i].as_str());
        proof {
            lemma_texts_push(out@, item);
            assert((before + all.take(i as int)).push(item@) == before + all.take(i + 1));
        }
        out.push(item);
        i += 1;
    }
    assert(all.take(names.len() as int) == all);
}

fn push_text(out: &mut Vec<String>, s: &str)
    ensures
        texts(final(out)@) == texts(old(out)@).push(s@),
{
    push_string(out, s.to_owned());
}

fn start_args(verbose: bool) -> (r: Vec<String>)
    ensures
        texts(r@) == verbose_args(verbose),
{
    let mut args = no_strings();
    if verbose {
        push_text(&mut args, "-v");
        assert(texts(args@) =~= seq!["-v"@]);
    }
    args
}

/// The directory for the object files of a build of `project` in `mode`.
pub fn object_dir_of(project: &Project, mode: BuildMode) -> (r: String)
    ensures
        r@ == object_dir(project@, mode),
{
    path_inside(project.get_directories().get_objects_dir().as_str(), mode.as_str())
}

/// The directory for the executables of a build of `project` in `mode`.
pub fn output_dir_of(project: &Project, mode: BuildMode) -> (r: String)
    ensures
        r@ == output_dir(project@, mode),
{
    path_inside(project.get_directories().get_build_dir().as_str(), mode.as_str())
}

/// The path of the executable called `name`, built in `mode`.
pub fn executable_path_of(project: &Project, mode: BuildMode, name: &str, exe_suffix: &str) -> (r:
    String)
    ensures
        r@ == executable_path(project@, mode, name@, exe_suffix@),
{
    let file = chain(name, exe_suffix);
    path_inside(output_dir_of(project, mode).as_str(), file.as_str())
}

/// The name of the object file that the compiler writes for the source `file`.
pub fn object_name_of(file: &str) -> (r: String)
    ensures
        r@ == object_name(file@),
{
    chain(file_stem(file), ".o")
}

/// The call that compiles `file` in a build of `project`.
pub fn compile_invocation(project: &Project, verbose: bool, flags: &str, file: &str) -> (r:
    Invocation)
    ensures
        r@ == compile_call(project@, verbose, flags@, file@),
{
    let language = *project.get_language();
    let program = project.get_compiler().get_compiler_command(&language).clone();
    let mut args = start_args(verbose);
    push_all(&mut args, &split(flags, ' '));
    push_text(&mut args, "-c");
    push_text(&mut args, file);
    assert(texts(args@) =~= compile_args(verbose, flags@, file@));
    Invocation { program, args }
}

/// The call that links the object files called `objects` in the object
/// directory of the mode into the project's executable.
pub fn link_invocation(
    project: &Project,
    mode: BuildMode,
    os: &str,
    exe_suffix: &str,
    verbose: bool,
    flags: &str,
    objects: &Vec<String>,
) -> (r: Invocation)
    ensures
        r@ == link_call(project@, mode, os@, exe_suffix@, verbose, flags@, texts(objects@)),
{
    let language = *project.get_language();
    let program = project.get_compiler().get_compiler_command(&language).clone();
    let output = executable_path_of(project, mode, project.get_name().as_str(), exe_suffix);
    let mut args = start_args(verbose);
    push_inside(&mut args, object_dir_of(project, mode).as_str(), objects);
    push_all(&mut args, &split(flags, ' '));
    push_text(&mut args, "-o");
    push_text(&mut args, output.as_str());
    push_prefixed(&mut args, "-L", project.get_library_dirs(os));
    push_prefixed(&mut args, "-l", project.get_libraries(os));
    assert(texts(args@) =~= link_args(
        verbose,
        all_inside(object_dir(project@, mode), texts(objects@)),
        flags@,
        output@,
        project@.library_dirs_on(os@),
        project@.libraries_on(os@),
    ));
    Invocation { program, args }
}

impl Commands {
    /// The call that compiles the standalone binary `binary` of `project` in
    /// one step, without object files.
    pub fn build_file(project: &Project, binary: &Binary, build_mode: BuildMode, host: &Host) -> (r:
        Invocation)
        ensures
            r@ == binary_call(project@, binary@, build_mode, host.os@, host.exe_suffix@),
    {
        let mode = build_mode;
        let os = host.os.as_str();
        let exe_suffix = host.exe_suffix.as_str();
        let program = project.get_compiler().get_compiler_command(&binary.language).clone();
        let flags = resolve_binary_flags(binary, mode);
        let output = executable_path_of(project, mode, binary.name.as_str(), exe_suffix);
        let mut args = no_strings();
        push_all(&mut args, &split(flags.as_str(), ' '));
        push_prefixed(&mut args, "-L", project.get_library_dirs(os));
        push_prefixed(&mut args, "-l", project.get_libraries(os));
        push_text(&mut args, binary.path.as_str());
        push_text(&mut args, "-o");
        push_text(&mut args, output.as_str());
        assert(texts(args@) =~= binary_args(
            flags@,
            project@.library_dirs_on(os@),
            project@.libraries_on(os@),
            binary@.path,
            output@,
        ));
        Invocation { program, args }
    }
}

} // verus!
