//! The commands of the tool, as far as they decide anything.

use crate::error::{Error, ErrorView};
use crate::flags::BuildMode;
use crate::invocation::{
    chain, executable_path, executable_path_of, Invocation, InvocationView,
};
use crate::platform::{is_supported_os, supported_os, Host};
use crate::project::{
    binaries_view, BinaryView, DirectoriesView, Project, ProjectView,
};
use crate::text::{
    clone_strings, join, joined, lemma_texts_push, split, split_on, starts_with_char,
    strings_from, text_eq, texts,
};
use crate::usage::USAGE;
use vstd::prelude::*;
use vstd::string::*;

verus! {

/// The commands of the tool. Each command is an associated function; what a
/// command has to read or to run is handed to it, and what it wants read or
/// run is in what it returns.
pub struct Commands;

/// The lines of a project description with an empty line before every table
/// header that follows a line with something on it.
pub open spec fn spaced(lines: Seq<Seq<char>>) -> Seq<Seq<char>>
    decreases lines.len(),
{
    if lines.len() <= 1 {
        lines
    } else {
        let before = spaced(lines.drop_last());
        if lines[lines.len() - 2].len() > 0 && lines.last().len() > 0 && lines.last()[0] == '[' {
            before.push(Seq::empty()).push(lines.last())
        } else {
            before.push(lines.last())
        }
    }
}

/// A project description set out for reading: with an empty line before
/// every table header that follows a line with something on it.
pub open spec fn pretty(content: Seq<char>) -> Seq<char> {
    joined(spaced(split_on(content, '\n')), "\n"@)
}

/// The directories that cleaning removes: the project's directories but
/// the one that holds the sources, and any that is written like it.
pub open spec fn removable(dirs: DirectoriesView) -> Seq<Seq<char>> {
    dirs.all().filter(|d: Seq<char>| d != dirs.source_dir)
}

/// What cleaning a project removes.
#[derive(Debug)]
pub struct CleanPlan {
    /// Whether the lock file goes.
    pub remove_lock: bool,
    /// The directories that go, with all that is in them.
    pub dirs: Vec<String>,
}

/// What the arguments of the run command ask for.
#[derive(Debug)]
pub struct RunOptions {
    pub mode: BuildMode,
    /// The names that followed `--bin`, in the order given.
    pub bins: Vec<String>,
    /// What followed `--`: the arguments for the program that is run.
    pub program_args: Vec<String>,
}

/// What a `RunOptions` holds, as text.
pub struct RunOptionsView {
    pub mode: BuildMode,
    pub bins: Seq<Seq<char>>,
    pub program_args: Seq<Seq<char>>,
}

impl RunOptionsView {
    /// What a run is asked for when it is given no argument.
    pub open spec fn initial() -> Self {
        RunOptionsView { mode: BuildMode::Debug, bins: Seq::empty(), program_args: Seq::empty() }
    }
}

impl View for RunOptions {
    type V = RunOptionsView;

    open spec fn view(&self) -> RunOptionsView {
        RunOptionsView {
            mode: self.mode,
            bins: texts(self.bins@),
            program_args: texts(self.program_args@),
        }
    }
}

/// An executable to run once the build has succeeded.
#[derive(Debug)]
pub struct RunTarget {
    /// The file name of the executable.
    pub name: String,
    /// Where the build puts it.
    pub path: String,
    /// How it is called.
    pub call: Invocation,
}

/// What a `RunTarget` holds, as text.
pub struct RunTargetView {
    pub name: Seq<char>,
    pub path: Seq<char>,
    pub call: InvocationView,
}

impl View for RunTarget {
    type V = RunTargetView;

    open spec fn view(&self) -> RunTargetView {
        RunTargetView { name: self.name@, path: self.path@, call: self.call@ }
    }
}

/// The views of a sequence of targets, in order.
pub open spec fn targets_view(targets: Seq<RunTarget>) -> Seq<RunTargetView> {
    targets.map_values(|t: RunTarget| t@)
}

/// What the run command is to do: show its usage, or build with the same
/// arguments and then run these executables one after the other.
#[derive(Debug)]
pub enum RunRequest {
    Help,
    Run(Vec<RunTarget>),
}

/// What a `RunRequest` holds, as text.
pub enum RunRequestView {
    Help,
    Run(Seq<RunTargetView>),
}

impl View for RunRequest {
    type V = RunRequestView;

    open spec fn view(&self) -> RunRequestView {
        match self {
            RunRequest::Help => RunRequestView::Help,
            RunRequest::Run(targets) => RunRequestView::Run(targets_view(targets@)),
        }
    }
}

/// What the arguments of a run from position `i` on ask for, given that
/// those before it have asked for `so_far`. They are read as those of a
/// build are, but that `--` hands all that follows it to the program, and
/// that `-v` and `-f` are left to the build.
pub open spec fn run_parsed_from(args: Seq<Seq<char>>, i: int, so_far: RunOptionsView) -> Result<
    Option<RunOptionsView>,
    ErrorView,
>
    decreases args.len() - i,
{
    if i < 0 || i >= args.len() {
        Ok(Some(so_far))
    } else if args[i] == "--help"@ {
        Ok(None)
    } else if args[i] == "-r"@ || args[i] == "--release"@ {
        run_parsed_from(args, i + 1, RunOptionsView { mode: BuildMode::Release, ..so_far })
    } else if args[i] == "-d"@ || args[i] == "--debug"@ {
        run_parsed_from(args, i + 1, RunOptionsView { mode: BuildMode::Debug, ..so_far })
    } else if args[i] == "--bin"@ {
        if i + 1 < args.len() {
            run_parsed_from(
                args,
                i + 1,
                RunOptionsView { bins: so_far.bins.push(args[i + 1]), ..so_far },
            )
        } else {
            Err(ErrorView::MissingBinName)
        }
    } else if args[i] == "--"@ {
        run_parsed_from(args, i + 1, RunOptionsView { program_args: args.skip(i + 1), ..so_far })
    } else {
        run_parsed_from(args, i + 1, so_far)
    }
}

/// The names of the programs that a run is for: with `--bin`, the chosen
/// standalone binaries; else the project's executable.
pub open spec fn run_names(
    project: ProjectView,
    bins: Seq<Seq<char>>,
    exe_suffix: Seq<char>,
) -> Seq<Seq<char>> {
    if bins.len() > 0 {
        crate::session::chosen_binaries(project.binaries(), bins).map_values(
            |b: BinaryView| b.name,
        )
    } else {
        seq![project.name + exe_suffix]
    }
}

/// The executable that is run for the program called `name`.
pub open spec fn run_target(
    project: ProjectView,
    mode: BuildMode,
    exe_suffix: Seq<char>,
    program_args: Seq<Seq<char>>,
    name: Seq<char>,
) -> RunTargetView {
    let path = executable_path(project, mode, name, exe_suffix);
    RunTargetView {
        name: name + exe_suffix,
        path,
        call: InvocationView { program: "./"@ + path, args: program_args },
    }
}

/// What a run of `project` with the arguments `args` is to do.
pub open spec fn run_request(
    project: ProjectView,
    exe_suffix: Seq<char>,
    args: Seq<Seq<char>>,
) -> Result<RunRequestView, ErrorView> {
    match run_parsed_from(args, 0, RunOptionsView::initial()) {
        Err(e) => Err(e),
        Ok(None) => Ok(RunRequestView::Help),
        Ok(Some(options)) => Ok(
            RunRequestView::Run(
                run_names(project, options.bins, exe_suffix).map_values(
                    |name: Seq<char>|
                        run_target(project, options.mode, exe_suffix, options.program_args, name),
                ),
            ),
        ),
    }
}

/// The view of the outcome of planning a run.
pub open spec fn run_result(r: Result<RunRequest, Error>) -> Result<RunRequestView, ErrorView> {
    match r {
        Ok(request) => Ok(request@),
        Err(e) => Err(e@),
    }
}

/// What the tool is asked to do.
#[derive(Debug)]
pub enum Command {
    /// Build, with these arguments.
    Build(Vec<String>),
    /// Remove what was built.
    Clean,
    /// Show a value of the project.
    GetData(Vec<String>),
    /// Show a value that the project has for a platform.
    GetDataPlatform { args: Vec<String>, platform: String },
    /// Show the usage; after a word that is no command, say so first.
    Help(Option<String>),
    /// Make a new project.
    New(Vec<String>),
    /// Build, then run.
    Run(Vec<String>),
    /// Set a value of the project.
    SetData(Vec<String>),
    /// Set a value that the project has for a platform.
    SetDataPlatform { args: Vec<String>, platform: String },
}

/// What a `Command` holds, as text.
pub enum CommandView {
    Build(Seq<Seq<char>>),
    Clean,
    GetData(Seq<Seq<char>>),
    GetDataPlatform { args: Seq<Seq<char>>, platform: Seq<char> },
    Help(Option<Seq<char>>),
    New(Seq<Seq<char>>),
    Run(Seq<Seq<char>>),
    SetData(Seq<Seq<char>>),
    SetDataPlatform { args: Seq<Seq<char>>, platform: Seq<char> },
}

impl View for Command {
    type V = CommandView;

    open spec fn view(&self) -> CommandView {
        match self {
            Command::Build(args) => CommandView::Build(texts(args@)),
            Command::Clean => CommandView::Clean,
            Command::GetData(args) => CommandView::GetData(texts(args@)),
            Command::GetDataPlatform { args, platform } => CommandView::GetDataPlatform {
                args: texts(args@),
                platform: platform@,
            },
            Command::Help(word) => CommandView::Help(
                match word {
                    Some(w) => Some(w@),
                    None => None,
                },
            ),
            Command::New(args) => CommandView::New(texts(args@)),
            Command::Run(args) => CommandView::Run(texts(args@)),
            Command::SetData(args) => CommandView::SetData(texts(args@)),
            Command::SetDataPlatform { args, platform } => CommandView::SetDataPlatform {
                args: texts(args@),
                platform: platform@,
            },
        }
    }
}

/// What the command line `args` asks for. Its first word is the name of
/// the tool; the second names the command; what follows is for the command.
/// `get` and `set` are for a platform where the next word names one.
/// Nothing is asked for by a command line without a second word.
pub open spec fn command_of(args: Seq<Seq<char>>) -> Option<CommandView> {
    if args.len() <= 1 {
        None
    } else {
        let word = args[1];
        let rest = args.skip(2);
        Some(
            if word == "build"@ {
                CommandView::Build(rest)
            } else if word == "clean"@ {
                CommandView::Clean
            } else if word == "get"@ {
                if rest.len() > 0 && supported_os(rest[0]) {
                    CommandView::GetDataPlatform { args: args.skip(3), platform: rest[0] }
                } else {
                    CommandView::GetData(rest)
                }
            } else if word == "help"@ || word == "--help"@ {
                CommandView::Help(None)
            } else if word == "new"@ {
                CommandView::New(rest)
            } else if word == "run"@ {
                CommandView::Run(rest)
            } else if word == "set"@ {
                if rest.len() > 0 && supported_os(rest[0]) {
                    CommandView::SetDataPlatform { args: args.skip(3), platform: rest[0] }
                } else {
                    CommandView::SetData(rest)
                }
            } else {
                CommandView::Help(Some(word))
            },
        )
    }
}

/// What is shown as help: after a word that is no command, a line that
/// says so; then the usage of the tool.
pub open spec fn help_text(word: Option<Seq<char>>) -> Seq<char> {
    match word {
        Some(w) => "Command \""@ + w + "\" not found.\n"@ + USAGE@,
        None => USAGE@,
    }
}

/// What the command line `args` asks for; nothing where it names no command.
pub fn parse_args(args: &Vec<String>) -> (r: Option<Command>)
    ensures
        match r {
            Some(command) => command_of(texts(args@)) == Some(command@),
            None => command_of(texts(args@)) is None,
        },
{
    if args.len() <= 1 {
        return None;
    }
    let ghost all = texts(args@);
    let word = args[1].as_str();
    assert(all[1] == word@);
    proof {
        assert(all.skip(2).len() == all.len() - 2);
        if args.len() > 2 {
            assert(all.skip(2)[0] == args@[2]@);
        }
    }
    let for_platform = args.len() > 2 && is_supported_os(args[2].as_str());
    Some(
        if text_eq(word, "build") {
            Command::Build(strings_from(args, 2))
        } else if text_eq(word, "clean") {
            Command::Clean
        } else if text_eq(word, "get") {
            if for_platform {
                Command::GetDataPlatform { args: strings_from(args, 3), platform: args[2].clone() }
            } else {
                Command::GetData(strings_from(args, 2))
            }
        } else if text_eq(word, "help") || text_eq(word, "--help") {
            Command::Help(None)
        } else if text_eq(word, "new") {
            Command::New(strings_from(args, 2))
        } else if text_eq(word, "run") {
            Command::Run(strings_from(args, 2))
        } else if text_eq(word, "set") {
            if for_platform {
                Command::SetDataPlatform { args: strings_from(args, 3), platform: args[2].clone() }
            } else {
                Command::SetData(strings_from(args, 2))
            }
        } else {
            Command::Help(Some(args[1].clone()))
        },
    )
}

/// The view of the outcome of reading the arguments of a run.
pub open spec fn run_options_result(r: Result<Option<RunOptions>, Error>) -> Result<
    Option<RunOptionsView>,
    ErrorView,
> {
    match r {
        Ok(Some(options)) => Ok(Some(options@)),
        Ok(None) => Ok(None),
        Err(e) => Err(e@),
    }
}

/// Reads the arguments of a run; `None` where they ask for the usage.
pub fn parse_run_args(args: &Vec<String>) -> (r: Result<Option<RunOptions>, Error>)
    ensures
        run_options_result(r) == run_parsed_from(texts(args@), 0, RunOptionsView::initial()),
{
    let mut options = RunOptions {
        mode: BuildMode::Debug,
        bins: Vec::new(),
        program_args: Vec::new(),
    };
    proof {
        assert(texts(options.bins@) =~= Seq::<Seq<char>>::empty());
        assert(texts(options.program_args@) =~= Seq::<Seq<char>>::empty());
    }
    let mut i: usize = 0;
    while i < args.len()
        invariant
            i <= args.len(),
            run_parsed_from(texts(args@), 0, RunOptionsView::initial()) == run_parsed_from(
                texts(args@),
                i as int,
                options@,
            ),
        decreases args.len() - i,
    {
        let arg = args[i].as_str();
        assert(texts(args@)[i as int] == arg@);
        if text_eq(arg, "--help") {
            return Ok(None);
        } else if text_eq(arg, "-r") || text_eq(arg, "--release") {
            options.mode = BuildMode::Release;
        } else if text_eq(arg, "-d") || text_eq(arg, "--debug") {
            options.mode = BuildMode::Debug;
        } else if text_eq(arg, "--bin") {
            if i + 1 < args.len() {
                let name = args[i + 1].clone();
                proof {
                    lemma_texts_push(options.bins@, name);
                    assert(texts(args@)[i + 1] == name@);
                }
                options.bins.push(name);
            } else {
                return Err(Error::MissingBinName);
            }
        } else if text_eq(arg, "--") {
            options.program_args = strings_from(args, i + 1);
        }
        i += 1;
    }
    Ok(Some(options))
}

impl Commands {
    /// What is shown as help.
    pub fn help(argument: Option<&String>) -> (r: String)
        ensures
            r@ == help_text(
                match argument {
                    Some(w) => Some(w@),
                    None => None,
                },
            ),
    {
        match argument {
            Some(word) => {
                let mut out = "Command \"".to_owned();
                out.append(word.as_str());
                out.append("\" not found.\n");
                out.append(USAGE);
                out
            },
            None => USAGE.to_owned(),
        }
    }

    /// A project description set out for reading.
    pub fn pretty_toml(toml_content: String) -> (r: String)
        ensures
            r@ == pretty(toml_content@),
    {
        let lines = split(toml_content.as_str(), '\n');
        let mut out: Vec<String> = Vec::new();
        let mut i: usize = 0;
        proof {
            assert(texts(lines@).take(0) =~= Seq::<Seq<char>>::empty());
            assert(texts(out@) =~= Seq::<Seq<char>>::empty());
        }
        while i < lines.len()
            invariant
                i <= lines.len(),
                texts(out@) == spaced(texts(lines@).take(i as int)),
            decreases lines.len() - i,
        {
            let ghost so_far = texts(lines@).take(i + 1);
            proof {
                assert(so_far.drop_last() == texts(lines@).take(i as int));
                assert(so_far.last() == lines@[i as int]@);
                if i > 0 {
                    assert(so_far[so_far.len() - 2] == lines@[i - 1]@);
                } else {
                    assert(so_far =~= Seq::<Seq<char>>::empty().push(lines@[0]@));
                }
            }
            if i > 0 && !lines[i - 1].as_str().is_empty() && starts_with_char(
                lines[i].as_str(),
                '[',
            ) {
                let blank = String::new();
                proof {
                    lemma_texts_push(out@, blank);
                }
                out.push(blank);
            }
            let line = lines[i].clone();
            proof {
                lemma_texts_push(out@, line);
            }
            out.push(line);
            i += 1;
        }
        assert(texts(lines@).take(lines.len() as int) == texts(lines@));
        join(&out, "\n")
    }

    /// What cleaning `project` removes: every directory of the project but
    /// the source directory, and the lock file with them.
    pub fn clean(project: &Project) -> (r: CleanPlan)
        ensures
            texts(r.dirs@) == removable(project@.directories),
            r.remove_lock == (removable(project@.directories).len() > 0),
    {
        let all = project.get_directories().get_all_dirs();
        let source = project.get_directories().get_source_dir();
        let ghost kept = |d: Seq<char>| d != project@.directories.source_dir;
        let mut dirs: Vec<String> = Vec::new();
        let mut i: usize = 0;
        proof {
            reveal(Seq::filter);
            assert(texts(dirs@) =~= texts(all@).take(0).filter(kept));
        }
        while i < all.len()
            invariant
                i <= all.len(),
                texts(all@) == project@.directories.all(),
                source@ == project@.directories.source_dir,
                kept == |d: Seq<char>| d != project@.directories.source_dir,
                texts(dirs@) == texts(all@).take(i as int).filter(kept),
            decreases all.len() - i,
        {
            proof {
                reveal(Seq::filter);
                assert(texts(all@).take(i + 1).drop_last() == texts(all@).take(i as int));
                assert(texts(all@).take(i + 1).last() == all@[i as int]@);
            }
            if !text_eq(all[i].as_str(), source.as_str()) {
                let dir = all[i].clone();
                proof {
                    lemma_texts_push(dirs@, dir);
                }
                dirs.push(dir);
            }
            i += 1;
        }
        assert(texts(all@).take(all.len() as int) == texts(all@));
        CleanPlan { remove_lock: dirs.len() > 0, dirs }
    }

    /// What a run of `project` with the arguments `args` is to do. The
    /// build that comes before the run is given the same arguments.
    pub fn run(project: &Project, host: &Host, args: &Vec<String>) -> (r: Result<RunRequest, Error>)
        ensures
            run_result(r) == run_request(project@, host.exe_suffix@, texts(args@)),
    {
        let options = match parse_run_args(args) {
            Err(e) => {
                return Err(e);
            },
            Ok(None) => {
                return Ok(RunRequest::Help);
            },
            Ok(Some(options)) => options,
        };
        let mut names: Vec<String> = Vec::new();
        if options.bins.len() > 0 {
            let chosen = crate::session::choose_binaries(&project.get_binaries(), &options.bins);
            let ghost wanted = binaries_view(chosen@).map_values(|b: BinaryView| b.name);
            let mut k: usize = 0;
            assert(texts(names@) =~= wanted.take(0));
            while k < chosen.len()
                invariant
                    k <= chosen.len(),
                    wanted == binaries_view(chosen@).map_values(|b: BinaryView| b.name),
                    texts(names@) == wanted.take(k as int),
                decreases chosen.len() - k,
            {
                let name = chosen[k].name.clone();
                proof {
                    lemma_texts_push(names@, name);
                    assert(wanted.take(k as int).push(name@) == wanted.take(k + 1));
                }
                names.push(name);
                k += 1;
            }
            assert(wanted.take(chosen.len() as int) == wanted);
        } else {
            let name = chain(project.get_name().as_str(), host.exe_suffix.as_str());
            proof {
                lemma_texts_push(names@, name);
                assert(texts(names@.push(name)) =~= seq![name@]);
            }
            names.push(name);
        }
        let ghost all = run_names(project@, options@.bins, host.exe_suffix@);
        let ghost target_of = |name: Seq<char>|
            run_target(project@, options@.mode, host.exe_suffix@, options@.program_args, name);
        let mut targets: Vec<RunTarget> = Vec::new();
        let mut i: usize = 0;
        assert(targets_view(targets@) =~= all.map_values(target_of).take(0));
        while i < names.len()
            invariant
                i <= names.len(),
                texts(names@) == all,
                target_of == |name: Seq<char>|
                    run_target(
                        project@,
                        options@.mode,
                        host.exe_suffix@,
                        options@.program_args,
                        name,
                    ),
                targets_view(targets@) == all.map_values(target_of).take(i as int),
            decreases names.len() - i,
        {
            let path = executable_path_of(
                project,
                options.mode,
                names[i].as_str(),
                host.exe_suffix.as_str(),
            );
            let target = RunTarget {
                name: chain(names[i].as_str(), host.exe_suffix.as_str()),
                call: Invocation {
                    program: chain("./", path.as_str()),
                    args: clone_strings(&options.program_args),
                },
                path,
            };
            proof {
                assert(texts(names@)[i as int] == names@[i as int]@);
                assert(target@ == target_of(all[i as int]));
                assert(targets_view(targets@.push(target)) =~= targets_view(targets@).push(
                    target@,
                ));
                assert(all.map_values(target_of).take(i as int).push(target@) =~= all.map_values(
                    target_of,
                ).take(i + 1));
            }
            targets.push(target);
            i += 1;
        }
        assert(all.map_values(target_of).take(names.len() as int) == all.map_values(target_of));
        Ok(RunRequest::Run(targets))
    }
}

} // verus!
