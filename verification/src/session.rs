//! The build as a sequence of decisions.
//!
//! A build alternates between work that only its surroundings can do (list a
//! directory, read the sources, run the compiler, move a file, write the lock
//! file) and decisions on what to do next. The decisions are made here: a
//! `BuildSession` is the state of one build, `BuildSession::start` and
//! `Commands::build` take what the surroundings have found (a
//! `BuildEvent`) and give what they are to do next (a `BuildAction`). The
//! surroundings carry out each action and come back with the event that
//! answers it, until the action is `Succeed` or `Fail`.

use crate::cache::{
    changed_paths, get_all_files, snapshot_of, snapshot_view, Cache, FileData, FileDataView,
    SourceTree,
};
use crate::error::{Error, ErrorView};
use crate::flags::{resolve_flags, resolved_flags, BuildMode};
use crate::invocation::{
    binary_call, compile_call, compile_invocation, executable_path, executable_path_of, inside,
    link_call, link_invocation, object_dir, object_dir_of, object_name, object_name_of, output_dir,
    output_dir_of, path_inside, Invocation, InvocationView,
};
use crate::options::{
    parse_build_args, parsed, BuildOptions, BuildOptionsView, BuildRequest, BuildRequestView,
};
use crate::commands::Commands;
use crate::platform::Host;
use crate::project::{binaries_view, Binary, BinaryView, Project, ProjectView};
use crate::selector::{
    changed_units, entries_view, select, select_changed, selected, DirEntry, DirEntryView,
};
use crate::text::{no_strings, push_string, text_eq, texts};
use vstd::prelude::*;

verus! {

/// What is known of the lock file when a build starts.
#[derive(Debug)]
pub enum LockState {
    /// There is no lock file: this is a first build.
    Missing,
    /// There is a lock file, but no snapshot could be read from it.
    Unreadable,
    /// The snapshot that the lock file held.
    Loaded(Cache),
}

/// Where a build stands: what it is waiting for.
#[derive(Clone, Copy, Debug, PartialEq, Eq, Structural)]
pub enum Phase {
    /// Waiting for the source tree, for a first snapshot.
    Snapshotting,
    /// Waiting for the project's directories to be there.
    ProjectDirs,
    /// Waiting for the listing of the source directory.
    Selecting,
    /// Waiting for the source tree, to compare it with the last snapshot.
    Diffing,
    /// Waiting to hear whether the executable is there.
    Probing,
    /// Waiting for the directories of the mode to be there.
    OutputDirs,
    /// Waiting for the compiler to end on the unit at this position.
    Compiling(usize),
    /// Waiting for the object file of the unit at this position to be moved.
    Moving(usize),
    /// Waiting for the listing of the object directory.
    Collecting,
    /// Waiting for the linker to end.
    Linking,
    /// Waiting for the lock file to be created.
    CreatingLock,
    /// Waiting for the source tree, for the snapshot to leave behind.
    Refreshing,
    /// Waiting for the lock file to be written or removed.
    Persisting,
    /// Waiting for the output directory of the standalone binaries to be there.
    BinaryDirs,
    /// Waiting for the compiler to end on the binary at this position.
    BinaryCompiling(usize),
    /// The build has succeeded.
    Done,
    /// The build has failed.
    Failed,
}

impl Phase {
    /// Whether the build is over.
    pub open spec fn is_terminal(self) -> bool {
        self == Phase::Done || self == Phase::Failed
    }

    /// How far the build is from its end, counted in the kinds of work
    /// that are still before it.
    pub open spec fn stage(self) -> nat {
        match self {
            Phase::Snapshotting => 13,
            Phase::ProjectDirs => 12,
            Phase::Selecting => 11,
            Phase::BinaryDirs => 11,
            Phase::Diffing => 10,
            Phase::Probing => 9,
            Phase::OutputDirs => 8,
            Phase::Compiling(_) => 7,
            Phase::Moving(_) => 7,
            Phase::BinaryCompiling(_) => 7,
            Phase::Collecting => 6,
            Phase::Linking => 5,
            Phase::CreatingLock => 4,
            Phase::Refreshing => 3,
            Phase::Persisting => 2,
            Phase::Done => 0,
            Phase::Failed => 0,
        }
    }

    /// Whether a process has been started by the time the build is in this phase.
    pub open spec fn after_spawn(self) -> bool {
        match self {
            Phase::Compiling(_) => true,
            Phase::Moving(_) => true,
            Phase::Collecting => true,
            Phase::Linking => true,
            Phase::CreatingLock => true,
            Phase::Refreshing => true,
            Phase::Persisting => true,
            Phase::BinaryCompiling(_) => true,
            _ => false,
        }
    }
}

/// How a build has succeeded.
#[derive(Clone, Copy, Debug, PartialEq, Eq, Structural)]
pub enum Outcome {
    /// The project was compiled, as far as needed, and linked, and the new
    /// snapshot is in the lock file.
    Built,
    /// Nothing has changed and the executable is there: nothing was compiled.
    UpToDate,
    /// The usage text was asked for.
    Help,
    /// Every chosen standalone binary was compiled.
    Binaries,
}

/// What the surroundings have found.
#[derive(Debug)]
pub enum BuildEvent {
    /// The action is carried out, and there is nothing to tell of it.
    Done,
    /// The source tree as it is now.
    Scanned(SourceTree),
    /// The entries directly in the source directory.
    Listed(Vec<DirEntry>),
    /// Whether the file asked for is there.
    Found(bool),
    /// The process has ended: with this exit code, or without one.
    Exited(Option<i32>),
    /// The file was moved, or could not be moved for this reason.
    Moved(Result<(), String>),
    /// The names of the files in the object directory.
    Objects(Vec<String>),
}

/// What a `BuildEvent` holds, as text.
pub enum BuildEventView {
    Done,
    Scanned(SourceTree),
    Listed(Seq<DirEntryView>),
    Found(bool),
    Exited(Option<i32>),
    Moved(Result<(), Seq<char>>),
    Objects(Seq<Seq<char>>),
}

impl View for BuildEvent {
    type V = BuildEventView;

    open spec fn view(&self) -> BuildEventView {
        match self {
            BuildEvent::Done => BuildEventView::Done,
            BuildEvent::Scanned(tree) => BuildEventView::Scanned(*tree),
            BuildEvent::Listed(entries) => BuildEventView::Listed(entries_view(entries@)),
            BuildEvent::Found(found) => BuildEventView::Found(*found),
            BuildEvent::Exited(code) => BuildEventView::Exited(*code),
            BuildEvent::Moved(moved) => BuildEventView::Moved(
                match moved {
                    Ok(_) => Ok(()),
                    Err(reason) => Err(reason@),
                },
            ),
            BuildEvent::Objects(names) => BuildEventView::Objects(texts(names@)),
        }
    }
}

/// What the surroundings are to do next.
#[derive(Debug)]
pub enum BuildAction {
    /// Walk the source directory and read every file in it; answer `Scanned`.
    Scan,
    /// Create each of these directories that is not there, and tell the user
    /// of each that cannot be created; answer `Done`.
    MakeDirs(Vec<String>),
    /// List the entries directly in this directory; answer `Listed`.
    ListSources(String),
    /// Look whether this file is there; answer `Found`.
    Probe(String),
    /// Run this command in the working directory and wait for it; answer `Exited`.
    Run(Invocation),
    /// Move the file `from` to `to`; answer `Moved`.
    Move { from: String, to: String },
    /// List the names of the files in this directory; answer `Objects`.
    ListObjects(String),
    /// Create the lock file, empty; answer `Done`.
    CreateLock,
    /// Write this snapshot to the lock file; answer `Done`.
    WriteLock(Vec<FileData>),
    /// Remove the lock file, and warn that the source directory holds no
    /// file; answer `Done`.
    RemoveLock,
    /// The build has succeeded: there is nothing more to do.
    Succeed(Outcome),
    /// The build has failed: tell the user why.
    Fail(Error),
    /// The build was over before: there is nothing to do.
    Stop,
}

/// What a `BuildAction` holds, as text.
pub enum BuildActionView {
    Scan,
    MakeDirs(Seq<Seq<char>>),
    ListSources(Seq<char>),
    Probe(Seq<char>),
    Run(InvocationView),
    Move { from: Seq<char>, to: Seq<char> },
    ListObjects(Seq<char>),
    CreateLock,
    WriteLock(Seq<FileDataView>),
    RemoveLock,
    Succeed(Outcome),
    Fail(ErrorView),
    Stop,
}

impl View for BuildAction {
    type V = BuildActionView;

    open spec fn view(&self) -> BuildActionView {
        match self {
            BuildAction::Scan => BuildActionView::Scan,
            BuildAction::MakeDirs(dirs) => BuildActionView::MakeDirs(texts(dirs@)),
            BuildAction::ListSources(dir) => BuildActionView::ListSources(dir@),
            BuildAction::Probe(path) => BuildActionView::Probe(path@),
            BuildAction::Run(call) => BuildActionView::Run(call@),
            BuildAction::Move { from, to } => BuildActionView::Move { from: from@, to: to@ },
            BuildAction::ListObjects(dir) => BuildActionView::ListObjects(dir@),
            BuildAction::CreateLock => BuildActionView::CreateLock,
            BuildAction::WriteLock(files) => BuildActionView::WriteLock(snapshot_view(files@)),
            BuildAction::RemoveLock => BuildActionView::RemoveLock,
            BuildAction::Succeed(outcome) => BuildActionView::Succeed(*outcome),
            BuildAction::Fail(e) => BuildActionView::Fail(e@),
            BuildAction::Stop => BuildActionView::Stop,
        }
    }
}

impl BuildActionView {
    /// Whether the action starts a process.
    pub open spec fn runs(self) -> bool {
        self is Run
    }

    /// Whether the action changes the lock file's snapshot.
    pub open spec fn persists(self) -> bool {
        self is WriteLock || self is RemoveLock
    }
}

/// The binaries of `all` with the name `name`, in order.
pub open spec fn binaries_named(all: Seq<BinaryView>, name: Seq<char>) -> Seq<BinaryView> {
    all.filter(|b: BinaryView| b.name == name)
}

/// For each of `names` in turn, the binaries of `all` with that name.
pub open spec fn binaries_by_names(all: Seq<BinaryView>, names: Seq<Seq<char>>) -> Seq<BinaryView>
    decreases names.len(),
{
    if names.len() == 0 {
        Seq::empty()
    } else {
        binaries_by_names(all, names.drop_last()) + binaries_named(all, names.last())
    }
}

/// The standalone binaries that `names` choose among `all`: all of them
/// where the first name is `all`; else, for each name in turn, those of
/// that name.
pub open spec fn chosen_binaries(all: Seq<BinaryView>, names: Seq<Seq<char>>) -> Seq<BinaryView> {
    if names.len() > 0 && names[0] == "all"@ {
        all
    } else {
        binaries_by_names(all, names)
    }
}

/// The views of a sequence of failures, in order.
pub open spec fn errors_view(v: Seq<Error>) -> Seq<ErrorView> {
    v.map_values(|e: Error| e@)
}

/// The state of one build.
#[derive(Debug)]
pub struct BuildSession {
    pub phase: Phase,
    pub project: Project,
    pub host: Host,
    /// The arguments of the build command.
    pub args: Vec<String>,
    /// Whether there was a lock file when the build started.
    pub lock_exists: bool,
    /// The last snapshot.
    pub cache: Cache,
    /// What the arguments ask for, once they are read.
    pub options: BuildOptions,
    /// The files to compile, once they are chosen.
    pub units: Vec<String>,
    /// The standalone binaries to compile, once they are chosen.
    pub binaries: Vec<Binary>,
    /// The flags for the compiler, once they are resolved.
    pub flags: String,
    /// The failures among the standalone binaries so far, in order.
    pub failures: Vec<Error>,
}

/// What a `BuildSession` holds, as text.
pub struct BuildSessionView {
    pub phase: Phase,
    pub project: ProjectView,
    pub os: Seq<char>,
    pub exe_suffix: Seq<char>,
    pub args: Seq<Seq<char>>,
    pub lock_exists: bool,
    pub cache: Seq<FileDataView>,
    pub options: BuildOptionsView,
    pub units: Seq<Seq<char>>,
    pub binaries: Seq<BinaryView>,
    pub flags: Seq<char>,
    pub failures: Seq<ErrorView>,
}

impl View for BuildSession {
    type V = BuildSessionView;

    open spec fn view(&self) -> BuildSessionView {
        BuildSessionView {
            phase: self.phase,
            project: self.project@,
            os: self.host.os@,
            exe_suffix: self.host.exe_suffix@,
            args: texts(self.args@),
            lock_exists: self.lock_exists,
            cache: self.cache@,
            options: self.options@,
            units: texts(self.units@),
            binaries: binaries_view(self.binaries@),
            flags: self.flags@,
            failures: errors_view(self.failures@),
        }
    }
}

impl BuildSessionView {
    /// What holds of every state that a build reaches: it compares and
    /// refreshes snapshots only with a lock file, it waits only for the
    /// compilation of units and binaries that it has chosen, and the
    /// failures that it keeps are those of a compiler.
    pub open spec fn inv(self) -> bool {
        &&& forall|k: int| 0 <= k < self.failures.len() ==> (#[trigger] self.failures[k]) is Compile
        &&& self.phase is Diffing ==> self.lock_exists
        &&& self.phase is Refreshing ==> self.lock_exists
        &&& self.phase matches Phase::Compiling(i) ==> i < self.units.len()
        &&& self.phase matches Phase::Moving(i) ==> i < self.units.len()
        &&& self.phase matches Phase::BinaryCompiling(j) ==> j < self.binaries.len()
    }

    /// How much is left to do of the work of the present stage: the units
    /// or binaries that are still to be compiled, and the object file that
    /// is still to be moved.
    pub open spec fn left_in_stage(self) -> int {
        match self.phase {
            Phase::Compiling(i) => 2 * (self.units.len() - i),
            Phase::Moving(i) => 2 * (self.units.len() - i) - 1,
            Phase::BinaryCompiling(j) => self.binaries.len() - j,
            _ => 0,
        }
    }

    /// The build fails with `e`.
    pub open spec fn fail(self, e: ErrorView) -> (Self, BuildActionView) {
        (BuildSessionView { phase: Phase::Failed, ..self }, BuildActionView::Fail(e))
    }

    /// The build succeeds.
    pub open spec fn succeed(self, outcome: Outcome) -> (Self, BuildActionView) {
        (BuildSessionView { phase: Phase::Done, ..self }, BuildActionView::Succeed(outcome))
    }

    /// The directory for the object files of this build.
    pub open spec fn object_dir(self) -> Seq<char> {
        object_dir(self.project, self.options.mode)
    }

    /// The directory for the executables of this build.
    pub open spec fn output_dir(self) -> Seq<char> {
        output_dir(self.project, self.options.mode)
    }

    /// The path of the project's executable in this build.
    pub open spec fn executable(self) -> Seq<char> {
        executable_path(self.project, self.options.mode, self.project.name, self.exe_suffix)
    }

    /// The state in which a build starts, before any decision.
    pub open spec fn initial(
        project: ProjectView,
        os: Seq<char>,
        exe_suffix: Seq<char>,
        args: Seq<Seq<char>>,
        lock_exists: bool,
        cache: Seq<FileDataView>,
    ) -> Self {
        BuildSessionView {
            phase: Phase::Snapshotting,
            project,
            os,
            exe_suffix,
            args,
            lock_exists,
            cache,
            options: BuildOptionsView::initial(),
            units: Seq::empty(),
            binaries: Seq::empty(),
            flags: Seq::empty(),
            failures: Seq::empty(),
        }
    }

    /// The first decision: with a snapshot from the lock file the build goes
    /// on to its directories; without one it first takes a snapshot.
    pub open spec fn begin(self, loaded: bool) -> (Self, BuildActionView) {
        if loaded {
            self.make_project_dirs()
        } else {
            (BuildSessionView { phase: Phase::Snapshotting, ..self }, BuildActionView::Scan)
        }
    }

    /// All of the project's directories are to be there.
    pub open spec fn make_project_dirs(self) -> (Self, BuildActionView) {
        (
            BuildSessionView { phase: Phase::ProjectDirs, ..self },
            BuildActionView::MakeDirs(self.project.directories.all()),
        )
    }

    /// The arguments are read. A usage request ends the build; `--bin`,
    /// in a project that declares standalone binaries, builds those; else
    /// the project is built, starting with the listing of its sources.
    pub open spec fn read_args(self) -> (Self, BuildActionView) {
        match parsed(self.args) {
            Err(e) => self.fail(e),
            Ok(BuildRequestView::Help) => self.succeed(Outcome::Help),
            Ok(BuildRequestView::Build(options)) => {
                let next = BuildSessionView { options, ..self };
                if self.project.binaries().len() > 0 && options.bins.len() > 0 {
                    next.choose_binaries()
                } else {
                    (
                        BuildSessionView { phase: Phase::Selecting, ..next },
                        BuildActionView::ListSources(self.project.directories.source_dir),
                    )
                }
            },
        }
    }

    /// The standalone binaries are chosen. With none chosen the build is
    /// done; else their output directory is to be there.
    pub open spec fn choose_binaries(self) -> (Self, BuildActionView) {
        let chosen = chosen_binaries(self.project.binaries(), self.options.bins);
        let next = BuildSessionView { binaries: chosen, ..self };
        if chosen.len() == 0 {
            next.succeed(Outcome::Binaries)
        } else {
            (
                BuildSessionView { phase: Phase::BinaryDirs, ..next },
                BuildActionView::MakeDirs(seq![self.output_dir()]),
            )
        }
    }

    /// The binary at position `j` is compiled; after the last one the build
    /// ends, and fails, with the first failure, if any of them has failed.
    pub open spec fn next_binary(self, j: int) -> (Self, BuildActionView) {
        if 0 <= j < self.binaries.len() {
            (
                BuildSessionView { phase: Phase::BinaryCompiling(j as usize), ..self },
                BuildActionView::Run(
                    binary_call(
                        self.project,
                        self.binaries[j],
                        self.options.mode,
                        self.os,
                        self.exe_suffix,
                    ),
                ),
            )
        } else if self.failures.len() > 0 {
            self.fail(self.failures[0])
        } else {
            self.succeed(Outcome::Binaries)
        }
    }

    /// The compiler has ended on the binary at position `j`. A failure is
    /// kept for the report, and the build goes on to the next binary.
    pub open spec fn binary_compiled(self, j: int, code: Option<i32>) -> (Self, BuildActionView) {
        if 0 <= j < self.binaries.len() {
            let failures = if code != Some(0i32) {
                self.failures.push(ErrorView::Compile { file: self.binaries[j].path, code })
            } else {
                self.failures
            };
            BuildSessionView { failures, ..self }.next_binary(j + 1)
        } else {
            self.fail(ErrorView::Unexpected)
        }
    }

    /// The source directory is listed. Without a compilation unit the build
    /// fails. With a lock file the source tree is compared with the last
    /// snapshot; without one every unit is compiled.
    pub open spec fn sources_listed(self, entries: Seq<DirEntryView>) -> (Self, BuildActionView) {
        let units = selected(entries, self.project.language.extension(), self.project.binaries());
        if units.len() == 0 {
            self.fail(ErrorView::NoCompilableFiles)
        } else {
            let next = BuildSessionView { units, ..self };
            if self.lock_exists {
                (BuildSessionView { phase: Phase::Diffing, ..next }, BuildActionView::Scan)
            } else {
                next.prepare()
            }
        }
    }

    /// The source tree is there to be compared with the snapshot of the lock
    /// file. With changed files, only
    /// the units at their positions are compiled, whether or not the
    /// executable is there; without any, the next question is whether the
    /// executable is there.
    pub open spec fn sources_compared(self, tree: SourceTree) -> (Self, BuildActionView) {
        match snapshot_of(tree) {
            _ if !self.lock_exists => self.fail(ErrorView::NoLock),
            Err(e) => self.fail(e),
            Ok(current) => {
                let changed = changed_paths(self.cache, current);
                if changed.len() > 0 {
                    BuildSessionView { units: changed_units(self.units, changed), ..self }.prepare()
                } else {
                    (
                        BuildSessionView { phase: Phase::Probing, ..self },
                        BuildActionView::Probe(self.executable()),
                    )
                }
            },
        }
    }

    /// Nothing has changed. With the executable there, there is nothing to
    /// do; without it, every unit is compiled.
    pub open spec fn executable_probed(self, found: bool) -> (Self, BuildActionView) {
        if found {
            self.succeed(Outcome::UpToDate)
        } else {
            self.prepare()
        }
    }

    /// The flags are resolved, and the directories of the mode are to be there.
    pub open spec fn prepare(self) -> (Self, BuildActionView) {
        match resolved_flags(self.project, self.options.mode, self.os, self.options.flags) {
            Err(e) => self.fail(e),
            Ok(flags) => (
                BuildSessionView { phase: Phase::OutputDirs, flags, ..self },
                BuildActionView::MakeDirs(seq![self.object_dir(), self.output_dir()]),
            ),
        }
    }

    /// The unit at position `i` is compiled; after the last one the object
    /// directory is listed.
    pub open spec fn next_unit(self, i: int) -> (Self, BuildActionView) {
        if 0 <= i < self.units.len() {
            (
                BuildSessionView { phase: Phase::Compiling(i as usize), ..self },
                BuildActionView::Run(
                    compile_call(self.project, self.options.verbose, self.flags, self.units[i]),
                ),
            )
        } else {
            (
                BuildSessionView { phase: Phase::Collecting, ..self },
                BuildActionView::ListObjects(self.object_dir()),
            )
        }
    }

    /// The compiler has ended on the unit at position `i`. Unless it has
    /// succeeded the build fails; else the object file is moved from the
    /// working directory to the object directory.
    pub open spec fn unit_compiled(self, i: int, code: Option<i32>) -> (Self, BuildActionView) {
        if !(0 <= i < self.units.len()) {
            self.fail(ErrorView::Unexpected)
        } else if code != Some(0i32) {
            self.fail(ErrorView::Compile { file: self.units[i], code })
        } else {
            (
                BuildSessionView { phase: Phase::Moving(i as usize), ..self },
                BuildActionView::Move {
                    from: object_name(self.units[i]),
                    to: inside(self.object_dir(), object_name(self.units[i])),
                },
            )
        }
    }

    /// The object file of the unit at position `i` is moved, or the build fails.
    pub open spec fn object_moved(self, i: int, moved: Result<(), Seq<char>>) -> (
        Self,
        BuildActionView,
    ) {
        match moved {
            Ok(_) => if 0 <= i < self.units.len() {
                self.next_unit(i + 1)
            } else {
                self.fail(ErrorView::Unexpected)
            },
            Err(reason) => self.fail(ErrorView::MoveObject { reason }),
        }
    }

    /// The object directory is listed: all that it holds is linked.
    pub open spec fn objects_listed(self, names: Seq<Seq<char>>) -> (Self, BuildActionView) {
        (
            BuildSessionView { phase: Phase::Linking, ..self },
            BuildActionView::Run(
                link_call(
                    self.project,
                    self.options.mode,
                    self.os,
                    self.exe_suffix,
                    self.options.verbose,
                    self.flags,
                    names,
                ),
            ),
        )
    }

    /// The linker has ended. Unless it has succeeded the build fails; else
    /// the lock file is created.
    pub open spec fn linked(self, code: Option<i32>) -> (Self, BuildActionView) {
        if code != Some(0i32) {
            self.fail(ErrorView::Link { code })
        } else {
            (BuildSessionView { phase: Phase::CreatingLock, ..self }, BuildActionView::CreateLock)
        }
    }

    /// The source tree is there for the snapshot to leave behind, and so is
    /// the lock file. The snapshot goes to the lock file; an empty one
    /// removes the lock file.
    pub open spec fn refreshed(self, tree: SourceTree) -> (Self, BuildActionView) {
        match snapshot_of(tree) {
            _ if !self.lock_exists => self.fail(ErrorView::NoLock),
            Err(e) => self.fail(e),
            Ok(current) => (
                BuildSessionView { phase: Phase::Persisting, cache: current, ..self },
                if current.len() == 0 {
                    BuildActionView::RemoveLock
                } else {
                    BuildActionView::WriteLock(current)
                },
            ),
        }
    }

    /// What the build decides when it hears of `event`: its next state, and
    /// what is to be done next. A build that is over stays as it is; an
    /// event that the state does not wait for makes the build fail.
    pub open spec fn step(self, event: BuildEventView) -> (Self, BuildActionView) {
        match (self.phase, event) {
            (Phase::Done, _) => (self, BuildActionView::Stop),
            (Phase::Failed, _) => (self, BuildActionView::Stop),
            (Phase::Snapshotting, BuildEventView::Scanned(tree)) => match snapshot_of(tree) {
                Ok(current) => BuildSessionView { cache: current, ..self }.make_project_dirs(),
                Err(e) => self.fail(e),
            },
            (Phase::ProjectDirs, BuildEventView::Done) => self.read_args(),
            (Phase::BinaryDirs, BuildEventView::Done) => self.next_binary(0),
            (Phase::BinaryCompiling(j), BuildEventView::Exited(code)) => self.binary_compiled(
                j as int,
                code,
            ),
            (Phase::Selecting, BuildEventView::Listed(entries)) => self.sources_listed(entries),
            (Phase::Diffing, BuildEventView::Scanned(tree)) => self.sources_compared(tree),
            (Phase::Probing, BuildEventView::Found(found)) => self.executable_probed(found),
            (Phase::OutputDirs, BuildEventView::Done) => self.next_unit(0),
            (Phase::Compiling(i), BuildEventView::Exited(code)) => self.unit_compiled(
                i as int,
                code,
            ),
            (Phase::Moving(i), BuildEventView::Moved(moved)) => self.object_moved(i as int, moved),
            (Phase::Collecting, BuildEventView::Objects(names)) => self.objects_listed(names),
            (Phase::Linking, BuildEventView::Exited(code)) => self.linked(code),
            (Phase::CreatingLock, BuildEventView::Done) => (
                BuildSessionView { phase: Phase::Refreshing, lock_exists: true, ..self },
                BuildActionView::Scan,
            ),
            (Phase::Refreshing, BuildEventView::Scanned(tree)) => self.refreshed(tree),
            (Phase::Persisting, BuildEventView::Done) => self.succeed(Outcome::Built),
            _ => self.fail(ErrorView::Unexpected),
        }
    }
}

/// A build starts in a state that satisfies the invariant.
pub proof fn law_start_establishes_invariant(
    project: ProjectView,
    os: Seq<char>,
    exe_suffix: Seq<char>,
    args: Seq<Seq<char>>,
    lock_exists: bool,
    cache: Seq<FileDataView>,
    loaded: bool,
)
    ensures
        BuildSessionView::initial(project, os, exe_suffix, args, lock_exists, cache).begin(
            loaded,
        ).0.inv(),
{
}

/// Every decision keeps the invariant.
pub proof fn law_step_keeps_invariant(s: BuildSessionView, event: BuildEventView)
    requires
        s.inv(),
    ensures
        s.step(event).0.inv(),
{
}

/// Every decision brings the build nearer to its end: it goes on to a
/// later stage, or it stays in the stage of compiling with less left to
/// compile. So no build goes on for ever, whatever it hears of. (The state
/// is that of a session: its units and binaries are those of vectors.)
pub proof fn law_every_decision_makes_progress(s: BuildSessionView, event: BuildEventView)
    requires
        s.inv(),
        !s.phase.is_terminal(),
        s.units.len() <= usize::MAX,
        s.binaries.len() <= usize::MAX,
    ensures
        ({
            let next = s.step(event).0;
            ||| next.phase.stage() < s.phase.stage()
            ||| next.phase.stage() == s.phase.stage() && 0 <= next.left_in_stage()
                < s.left_in_stage()
        }),
{
}

/// A build that is over stays over: whatever it hears of, it changes
/// nothing and asks for nothing.
pub proof fn law_over_stays_over(s: BuildSessionView, event: BuildEventView)
    requires
        s.phase.is_terminal(),
    ensures
        s.step(event) == (s, BuildActionView::Stop),
{
}

/// A failure of the configuration or of the command line is found before
/// any process is started: once one has been started, the build never fails
/// for such a reason, and it never goes back to where none had been started.
pub proof fn law_config_failures_come_first(s: BuildSessionView, event: BuildEventView)
    requires
        s.inv(),
        s.phase.after_spawn(),
    ensures
        s.step(event).0.phase.after_spawn() || s.step(event).0.phase.is_terminal(),
        s.step(event).1 matches BuildActionView::Fail(e) ==> e.kind()
            != crate::error::ErrorKind::Config,
{
}

/// A compiler that does not succeed on a unit ends the build: it fails
/// with that unit and that exit code, nothing is linked, and the lock file
/// stays as it was.
pub proof fn law_failed_compile_ends_build(s: BuildSessionView, i: usize, code: Option<i32>)
    requires
        s.inv(),
        s.phase == Phase::Compiling(i),
        code != Some(0i32),
    ensures
        s.step(BuildEventView::Exited(code)) == s.fail(
            ErrorView::Compile { file: s.units[i as int], code },
        ),
        s.step(BuildEventView::Exited(code)).0.phase.is_terminal(),
{
}

/// A linker that does not succeed ends the build: it fails with that exit
/// code, and the lock file stays as it was.
pub proof fn law_failed_link_ends_build(s: BuildSessionView, code: Option<i32>)
    requires
        s.phase == Phase::Linking,
        code != Some(0i32),
    ensures
        s.step(BuildEventView::Exited(code)) == s.fail(ErrorView::Link { code }),
        s.step(BuildEventView::Exited(code)).0.phase.is_terminal(),
{
}

/// The snapshot in the lock file changes only after full success: it is
/// written or removed only in answer to the source tree that the build has
/// asked for after creating the lock file, and the lock file is created only
/// in answer to a linker that has succeeded.
pub proof fn law_lock_changes_only_after_link(s: BuildSessionView, event: BuildEventView)
    ensures
        s.step(event).1.persists() ==> s.phase == Phase::Refreshing,
        s.step(event).0.phase == Phase::Refreshing ==> s.phase == Phase::CreatingLock,
        s.step(event).1 is CreateLock ==> s.phase == Phase::Linking && event
            == BuildEventView::Exited(Some(0i32)),
        s.step(event).0.phase == Phase::CreatingLock ==> s.step(event).1 is CreateLock,
{
}

/// A process is started only where the build then waits for it to end: the
/// compiler for a unit or for a standalone binary, or the linker.
pub proof fn law_every_process_is_waited_for(s: BuildSessionView, event: BuildEventView)
    ensures
        s.step(event).1.runs() ==> {
            ||| s.step(event).0.phase is Compiling
            ||| s.step(event).0.phase is BinaryCompiling
            ||| s.step(event).0.phase is Linking
        },
{
}

/// One standalone binary that fails does not keep the next from being
/// compiled: whatever the exit code, the build goes on to the next binary.
pub proof fn law_binaries_do_not_stop_each_other(s: BuildSessionView, j: usize, code: Option<i32>)
    requires
        s.phase == Phase::BinaryCompiling(j),
        j + 1 < s.binaries.len(),
    ensures
        s.step(BuildEventView::Exited(code)).0.phase == Phase::BinaryCompiling((j + 1) as usize),
        s.step(BuildEventView::Exited(code)).1 == BuildActionView::Run(
            binary_call(s.project, s.binaries[j + 1], s.options.mode, s.os, s.exe_suffix),
        ),
{
}

/// After the last standalone binary the build fails exactly if one of them
/// has failed, and then with the first that has; every failure is kept for
/// the report.
pub proof fn law_binaries_report_every_failure(s: BuildSessionView, j: usize, code: Option<i32>)
    requires
        s.phase == Phase::BinaryCompiling(j),
        j + 1 == s.binaries.len(),
    ensures
        s.step(BuildEventView::Exited(code)).0.failures == if code == Some(0i32) {
            s.failures
        } else {
            s.failures.push(ErrorView::Compile { file: s.binaries[j as int].path, code })
        },
        s.step(BuildEventView::Exited(code)).1 == if s.failures.len() > 0 {
            BuildActionView::Fail(s.failures[0])
        } else if code == Some(0i32) {
            BuildActionView::Succeed(Outcome::Binaries)
        } else {
            BuildActionView::Fail(ErrorView::Compile { file: s.binaries[j as int].path, code })
        },
{
}

/// Without a lock file the source tree is not read to be compared: the
/// build goes from the listing of its sources straight to compiling.
pub proof fn law_no_lock_no_comparison(s: BuildSessionView, entries: Seq<DirEntryView>)
    requires
        s.phase == Phase::Selecting,
        !s.lock_exists,
    ensures
        !(s.step(BuildEventView::Listed(entries)).1 is Scan),
        s.step(BuildEventView::Listed(entries)).0.phase != Phase::Diffing,
{
}

/// A source tree that has not changed since the last snapshot, with the
/// executable in place, is not compiled again: the build asks whether the
/// executable is there, and on hearing that it is, ends with success
/// without having started a process.
pub proof fn law_unchanged_build_is_skipped(s: BuildSessionView, tree: SourceTree)
    requires
        s.phase == Phase::Diffing,
        s.lock_exists,
        snapshot_of(tree) == Ok::<Seq<FileDataView>, ErrorView>(s.cache),
    ensures
        s.step(BuildEventView::Scanned(tree)).0.phase == Phase::Probing,
        s.step(BuildEventView::Scanned(tree)).1 == BuildActionView::Probe(s.executable()),
        s.step(BuildEventView::Scanned(tree)).0.step(BuildEventView::Found(true)).1
            == BuildActionView::Succeed(Outcome::UpToDate),
{
    crate::cache::law_same_snapshot_no_diff(s.cache);
}

proof fn lemma_binaries_push(v: Seq<Binary>, b: Binary)
    ensures
        binaries_view(v.push(b)) == binaries_view(v).push(b@),
{
    assert(binaries_view(v.push(b)) =~= binaries_view(v).push(b@));
}

/// Appends to `out` a copy of each of `all` that is called `name`.
fn push_named(out: &mut Vec<Binary>, all: &Vec<Binary>, name: &str)
    ensures
        binaries_view(final(out)@) == binaries_view(old(out)@) + binaries_named(
            binaries_view(all@),
            name@,
        ),
{
    let ghost before = binaries_view(out@);
    let ghost views = binaries_view(all@);
    let ghost named = |b: BinaryView| b.name == name@;
    let mut j: usize = 0;
    proof {
        reveal(Seq::filter);
        assert(before + views.take(0).filter(named) == before);
    }
    while j < all.len()
        invariant
            j <= all.len(),
            views == binaries_view(all@),
            named == |b: BinaryView| b.name == name@,
            binaries_view(out@) == before + views.take(j as int).filter(named),
        decreases all.len() - j,
    {
        proof {
            reveal(Seq::filter);
            assert(views.take(j + 1).drop_last() == views.take(j as int));
            assert(views.take(j + 1).last() == all@[j as int]@);
        }
        if text_eq(all[j].name.as_str(), name) {
            let b = all[j].clone();
            proof {
                lemma_binaries_push(out@, b);
                assert((before + views.take(j as int).filter(named)).push(b@) == before
                    + views.take(j as int).filter(named).push(b@));
            }
            out.push(b);
        }
        j += 1;
    }
    assert(views.take(all.len() as int) == views);
}

/// The standalone binaries that `names` choose among `all`.
pub fn choose_binaries(all: &Vec<Binary>, names: &Vec<String>) -> (r: Vec<Binary>)
    ensures
        binaries_view(r@) == chosen_binaries(binaries_view(all@), texts(names@)),
{
    if names.len() > 0 && text_eq(names[0].as_str(), "all") {
        return crate::project::clone_binaries(all);
    }
    let mut out: Vec<Binary> = Vec::new();
    let mut i: usize = 0;
    proof {
        assert(texts(names@).take(0) == Seq::<Seq<char>>::empty());
        assert(binaries_view(out@) =~= Seq::<BinaryView>::empty());
    }
    while i < names.len()
        invariant
            i <= names.len(),
            binaries_view(out@) == binaries_by_names(
                binaries_view(all@),
                texts(names@).take(i as int),
            ),
        decreases names.len() - i,
    {
        proof {
            assert(texts(names@).take(i + 1).drop_last() == texts(names@).take(i as int));
            assert(texts(names@).take(i + 1).last() == names@[i as int]@);
        }
        push_named(&mut out, all, names[i].as_str());
        i += 1;
    }
    assert(texts(names@).take(names.len() as int) == texts(names@));
    out
}

fn clone_files(files: &Vec<FileData>) -> (r: Vec<FileData>)
    ensures
        snapshot_view(r@) == snapshot_view(files@),
{
    let mut out: Vec<FileData> = Vec::new();
    let mut i: usize = 0;
    assert(snapshot_view(out@) =~= snapshot_view(files@).take(0));
    while i < files.len()
        invariant
            i <= files.len(),
            snapshot_view(out@) == snapshot_view(files@).take(i as int),
        decreases files.len() - i,
    {
        let f = files[i].clone();
        assert(snapshot_view(out@.push(f)) =~= snapshot_view(out@).push(f@));
        assert(snapshot_view(files@).take(i as int).push(files@[i as int]@) =~= snapshot_view(
            files@,
        ).take(i + 1));
        out.push(f);
        i += 1;
    }
    assert(snapshot_view(files@).take(files.len() as int) == snapshot_view(files@));
    out
}

fn one(a: String) -> (r: Vec<String>)
    ensures
        texts(r@) == seq![a@],
{
    let mut v = no_strings();
    push_string(&mut v, a);
    assert(texts(v@) =~= seq![a@]);
    v
}

fn two(a: String, b: String) -> (r: Vec<String>)
    ensures
        texts(r@) == seq![a@, b@],
{
    let mut v = no_strings();
    push_string(&mut v, a);
    push_string(&mut v, b);
    assert(texts(v@) =~= seq![a@, b@]);
    v
}

impl BuildSession {
    /// Starts a build of `project` on `host` with the arguments `args`, given
    /// what is known of the lock file, and says what is to be done first.
    pub fn start(project: Project, host: Host, args: Vec<String>, lock: LockState) -> (r: (
        BuildSession,
        BuildAction,
    ))
        ensures
            (r.0@, r.1@) == BuildSessionView::initial(
                project@,
                host.os@,
                host.exe_suffix@,
                texts(args@),
                !(lock is Missing),
                match lock {
                    LockState::Loaded(cache) => cache@,
                    _ => Seq::empty(),
                },
            ).begin(lock is Loaded),
            r.0@.inv(),
    {
        let (lock_exists, loaded, cache) = match lock {
            LockState::Missing => (false, false, Cache { files: Vec::new() }),
            LockState::Unreadable => (true, false, Cache { files: Vec::new() }),
            LockState::Loaded(cache) => (true, true, cache),
        };
        let units: Vec<String> = Vec::new();
        let binaries: Vec<Binary> = Vec::new();
        let failures: Vec<Error> = Vec::new();
        proof {
            assert(texts(units@) =~= Seq::<Seq<char>>::empty());
            assert(binaries_view(binaries@) =~= Seq::<BinaryView>::empty());
            assert(errors_view(failures@) =~= Seq::<ErrorView>::empty());
            if !loaded {
                assert(cache@ =~= Seq::<FileDataView>::empty());
            }
        }
        let mut session = BuildSession {
            phase: Phase::Snapshotting,
            project,
            host,
            args,
            lock_exists,
            cache,
            options: BuildOptions::default(),
            units,
            binaries,
            flags: String::new(),
            failures,
        };
        let action = if loaded {
            session.make_project_dirs()
        } else {
            BuildAction::Scan
        };
        (session, action)
    }

    fn fail(&mut self, e: Error) -> (r: BuildAction)
        ensures
            (final(self)@, r@) == old(self)@.fail(e@),
    {
        self.phase = Phase::Failed;
        BuildAction::Fail(e)
    }

    fn succeed(&mut self, outcome: Outcome) -> (r: BuildAction)
        ensures
            (final(self)@, r@) == old(self)@.succeed(outcome),
    {
        self.phase = Phase::Done;
        BuildAction::Succeed(outcome)
    }

    fn make_project_dirs(&mut self) -> (r: BuildAction)
        ensures
            (final(self)@, r@) == old(self)@.make_project_dirs(),
    {
        self.phase = Phase::ProjectDirs;
        BuildAction::MakeDirs(self.project.get_directories().get_all_dirs())
    }

    fn read_args(&mut self) -> (r: BuildAction)
        ensures
            (final(self)@, r@) == old(self)@.read_args(),
    {
        match parse_build_args(&self.args) {
            Err(e) => self.fail(e),
            Ok(BuildRequest::Help) => self.succeed(Outcome::Help),
            Ok(BuildRequest::Build(options)) => {
                let to_binaries = self.project.get_binaries().len() > 0 && options.bins.len() > 0;
                self.options = options;
                if to_binaries {
                    self.choose_binaries()
                } else {
                    self.phase = Phase::Selecting;
                    BuildAction::ListSources(
                        self.project.get_directories().get_source_dir().clone(),
                    )
                }
            },
        }
    }

    fn choose_binaries(&mut self) -> (r: BuildAction)
        ensures
            (final(self)@, r@) == old(self)@.choose_binaries(),
    {
        let chosen = choose_binaries(&self.project.get_binaries(), &self.options.bins);
        self.binaries = chosen;
        if self.binaries.len() == 0 {
            self.succeed(Outcome::Binaries)
        } else {
            self.phase = Phase::BinaryDirs;
            BuildAction::MakeDirs(one(output_dir_of(&self.project, self.options.mode)))
        }
    }

    fn next_binary(&mut self, j: usize) -> (r: BuildAction)
        ensures
            (final(self)@, r@) == old(self)@.next_binary(j as int),
    {
        if j < self.binaries.len() {
            self.phase = Phase::BinaryCompiling(j);
            BuildAction::Run(
                Commands::build_file(
                    &self.project,
                    &self.binaries[j],
                    self.options.mode,
                    &self.host,
                ),
            )
        } else if self.failures.len() > 0 {
            let first = self.failures[0].clone();
            self.fail(first)
        } else {
            self.succeed(Outcome::Binaries)
        }
    }

    fn binary_compiled(&mut self, j: usize, code: Option<i32>) -> (r: BuildAction)
        ensures
            (final(self)@, r@) == old(self)@.binary_compiled(j as int, code),
    {
        if j < self.binaries.len() {
            let succeeded = match code {
                Some(c) => c == 0,
                None => false,
            };
            if !succeeded {
                let failure = Error::Compile { file: self.binaries[j].path.clone(), code };
                assert(errors_view(self.failures@.push(failure)) =~= errors_view(
                    self.failures@,
                ).push(failure@));
                self.failures.push(failure);
            }
            self.next_binary(j + 1)
        } else {
            self.fail(Error::Unexpected)
        }
    }

    fn sources_listed(&mut self, entries: Vec<DirEntry>) -> (r: BuildAction)
        ensures
            (final(self)@, r@) == old(self)@.sources_listed(entries_view(entries@)),
    {
        let ext = self.project.get_language().get_extension();
        match select(&entries, ext.as_str(), &self.project.get_binaries()) {
            Err(e) => self.fail(e),
            Ok(units) => {
                self.units = units;
                if self.lock_exists {
                    self.phase = Phase::Diffing;
                    BuildAction::Scan
                } else {
                    self.prepare()
                }
            },
        }
    }

    fn sources_compared(&mut self, tree: SourceTree) -> (r: BuildAction)
        ensures
            (final(self)@, r@) == old(self)@.sources_compared(tree),
    {
        match self.cache.get_changed(self.lock_exists, &tree) {
            Err(e) => self.fail(e),
            Ok(changed) => {
                if changed.len() > 0 {
                    let units = select_changed(&self.units, &changed);
                    self.units = units;
                    self.prepare()
                } else {
                    self.phase = Phase::Probing;
                    BuildAction::Probe(
                        executable_path_of(
                            &self.project,
                            self.options.mode,
                            self.project.get_name().as_str(),
                            self.host.exe_suffix.as_str(),
                        ),
                    )
                }
            },
        }
    }

    fn executable_probed(&mut self, found: bool) -> (r: BuildAction)
        ensures
            (final(self)@, r@) == old(self)@.executable_probed(found),
    {
        if found {
            self.succeed(Outcome::UpToDate)
        } else {
            self.prepare()
        }
    }

    fn prepare(&mut self) -> (r: BuildAction)
        ensures
            (final(self)@, r@) == old(self)@.prepare(),
    {
        match resolve_flags(
            &self.project,
            self.options.mode,
            self.host.os.as_str(),
            self.options.flags.as_str(),
        ) {
            Err(e) => self.fail(e),
            Ok(flags) => {
                self.flags = flags;
                self.phase = Phase::OutputDirs;
                BuildAction::MakeDirs(
                    two(
                        object_dir_of(&self.project, self.options.mode),
                        output_dir_of(&self.project, self.options.mode),
                    ),
                )
            },
        }
    }

    fn next_unit(&mut self, i: usize) -> (r: BuildAction)
        ensures
            (final(self)@, r@) == old(self)@.next_unit(i as int),
    {
        if i < self.units.len() {
            self.phase = Phase::Compiling(i);
            BuildAction::Run(
                compile_invocation(
                    &self.project,
                    self.options.verbose,
                    self.flags.as_str(),
                    self.units[i].as_str(),
                ),
            )
        } else {
            self.phase = Phase::Collecting;
            BuildAction::ListObjects(object_dir_of(&self.project, self.options.mode))
        }
    }

    fn unit_compiled(&mut self, i: usize, code: Option<i32>) -> (r: BuildAction)
        ensures
            (final(self)@, r@) == old(self)@.unit_compiled(i as int, code),
    {
        if i >= self.units.len() {
            return self.fail(Error::Unexpected);
        }
        let succeeded = match code {
            Some(c) => c == 0,
            None => false,
        };
        if !succeeded {
            let file = self.units[i].clone();
            return self.fail(Error::Compile { file, code });
        }
        self.phase = Phase::Moving(i);
        let from = object_name_of(self.units[i].as_str());
        let to = path_inside(
            object_dir_of(&self.project, self.options.mode).as_str(),
            from.as_str(),
        );
        BuildAction::Move { from, to }
    }

    fn object_moved(&mut self, i: usize, moved: Result<(), String>) -> (r: BuildAction)
        ensures
            (final(self)@, r@) == old(self)@.object_moved(
                i as int,
                match moved {
                    Ok(_) => Ok(()),
                    Err(reason) => Err(reason@),
                },
            ),
    {
        match moved {
            Ok(_) => {
                if i < self.units.len() {
                    self.next_unit(i + 1)
                } else {
                    self.fail(Error::Unexpected)
                }
            },
            Err(reason) => self.fail(Error::MoveObject { reason }),
        }
    }

    fn objects_listed(&mut self, names: Vec<String>) -> (r: BuildAction)
        ensures
            (final(self)@, r@) == old(self)@.objects_listed(texts(names@)),
    {
        self.phase = Phase::Linking;
        BuildAction::Run(
            link_invocation(
                &self.project,
                self.options.mode,
                self.host.os.as_str(),
                self.host.exe_suffix.as_str(),
                self.options.verbose,
                self.flags.as_str(),
                &names,
            ),
        )
    }

    fn linked(&mut self, code: Option<i32>) -> (r: BuildAction)
        ensures
            (final(self)@, r@) == old(self)@.linked(code),
    {
        let succeeded = match code {
            Some(c) => c == 0,
            None => false,
        };
        if !succeeded {
            self.fail(Error::Link { code })
        } else {
            self.phase = Phase::CreatingLock;
            BuildAction::CreateLock
        }
    }

    fn refreshed(&mut self, tree: SourceTree) -> (r: BuildAction)
        ensures
            (final(self)@, r@) == old(self)@.refreshed(tree),
    {
        match self.cache.update_cache(self.lock_exists, &tree) {
            Err(e) => self.fail(e),
            Ok(()) => {
                self.phase = Phase::Persisting;
                if self.cache.get_files().len() == 0 {
                    BuildAction::RemoveLock
                } else {
                    BuildAction::WriteLock(clone_files(self.cache.get_files()))
                }
            },
        }
    }
}

impl Commands {
    /// One decision of a build: takes what the surroundings have found, and
    /// says what is to be done next.
    pub fn build(session: &mut BuildSession, event: BuildEvent) -> (r: BuildAction)
        ensures
            (final(session)@, r@) == old(session)@.step(event@),
            old(session)@.inv() ==> final(session)@.inv(),
    {
        proof {
            if session@.inv() {
                law_step_keeps_invariant(session@, event@);
            }
        }
        match (session.phase, event) {
            (Phase::Done, _) => BuildAction::Stop,
            (Phase::Failed, _) => BuildAction::Stop,
            (Phase::Snapshotting, BuildEvent::Scanned(tree)) => {
                match Cache::new(&tree) {
                    Ok(cache) => {
                        session.cache = cache;
                        session.make_project_dirs()
                    },
                    Err(e) => session.fail(e),
                }
            },
            (Phase::ProjectDirs, BuildEvent::Done) => session.read_args(),
            (Phase::BinaryDirs, BuildEvent::Done) => session.next_binary(0),
            (Phase::BinaryCompiling(j), BuildEvent::Exited(code)) => session.binary_compiled(
                j,
                code,
            ),
            (Phase::Selecting, BuildEvent::Listed(entries)) => session.sources_listed(entries),
            (Phase::Diffing, BuildEvent::Scanned(tree)) => session.sources_compared(tree),
            (Phase::Probing, BuildEvent::Found(found)) => session.executable_probed(found),
            (Phase::OutputDirs, BuildEvent::Done) => session.next_unit(0),
            (Phase::Compiling(i), BuildEvent::Exited(code)) => session.unit_compiled(i, code),
            (Phase::Moving(i), BuildEvent::Moved(moved)) => session.object_moved(i, moved),
            (Phase::Collecting, BuildEvent::Objects(names)) => session.objects_listed(names),
            (Phase::Linking, BuildEvent::Exited(code)) => session.linked(code),
            (Phase::CreatingLock, BuildEvent::Done) => {
                session.lock_exists = true;
                session.phase = Phase::Refreshing;
                BuildAction::Scan
            },
            (Phase::Refreshing, BuildEvent::Scanned(tree)) => session.refreshed(tree),
            (Phase::Persisting, BuildEvent::Done) => session.succeed(Outcome::Built),
            _ => session.fail(Error::Unexpected),
        }
    }
}

} // verus!
