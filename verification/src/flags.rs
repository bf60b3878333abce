//! The flags handed to the compiler: the preset of the build mode, then the
//! flags configured for the language, then the flags given on the command line.

use crate::error::{Error, ErrorView};
use crate::platform::{is_supported_os, supported_os};
use crate::project::{Binary, BinaryView, Project, ProjectView};
use crate::text::{join, joined, texts, trim, trimmed};
use vstd::prelude::*;
use vstd::string::*;

verus! {

/// The two ways to build: for debugging, which is the default, or for release.
#[derive(Clone, Copy, Debug, PartialEq, Eq, Hash, Structural)]
pub enum BuildMode {
    Debug,
    Release,
}

impl BuildMode {
    /// The mode's name, which is also the name of its output directories.
    pub open spec fn name(self) -> Seq<char> {
        match self {
            BuildMode::Debug => "debug"@,
            BuildMode::Release => "release"@,
        }
    }

    /// The flags that the mode stands for: debug symbols and `-Og` for
    /// debugging, `-O3` for release, and warnings for both.
    pub open spec fn preset(self) -> Seq<char> {
        match self {
            BuildMode::Debug => "-g -ggdb -Wall -Wextra -Og"@,
            BuildMode::Release => "-Wall -Wextra -O3"@,
        }
    }

    /// The mode's name.
    pub fn as_str(&self) -> (r: &'static str)
        ensures
            r@ == self.name(),
    {
        match self {
            BuildMode::Debug => "debug",
            BuildMode::Release => "release",
        }
    }

    /// The flags that the mode stands for.
    pub fn preset_flags(&self) -> (r: &'static str)
        ensures
            r@ == self.preset(),
    {
        match self {
            BuildMode::Debug => "-g -ggdb -Wall -Wextra -Og",
            BuildMode::Release => "-Wall -Wextra -O3",
        }
    }
}

/// The flags configured for the project's language on the host named `os`:
/// those of the override in force there, which replace the project's own
/// entirely; else the project's own.
pub open spec fn language_flags(project: ProjectView, os: Seq<char>) -> Seq<Seq<char>> {
    match project.override_for(os) {
        Some(over) => over.compiler.options(project.language).flags,
        None => project.compiler.options(project.language).flags,
    }
}

/// What is added to the preset: the language's flags joined by spaces, then
/// the flags given on the command line, each trimmed, and the whole trimmed.
pub open spec fn extra_flags(language: Seq<Seq<char>>, user: Seq<char>) -> Seq<char> {
    trimmed(trimmed(joined(language, " "@)) + " "@ + trimmed(user))
}

/// `preset`, followed by a space and `extra` where `extra` is not empty.
pub open spec fn with_extra(preset: Seq<char>, extra: Seq<char>) -> Seq<char> {
    if extra.len() > 0 {
        preset + " "@ + extra
    } else {
        preset
    }
}

/// The flags of a project build. A host that is none of the supported
/// platforms cannot build a project.
pub open spec fn resolved_flags(
    project: ProjectView,
    mode: BuildMode,
    os: Seq<char>,
    user: Seq<char>,
) -> Result<Seq<char>, ErrorView> {
    if supported_os(os) {
        Ok(with_extra(mode.preset(), extra_flags(language_flags(project, os), user)))
    } else {
        Err(ErrorView::UnsupportedPlatform)
    }
}

/// The flags of a standalone binary: the preset of the mode, then the
/// binary's own flags joined by spaces, the whole trimmed.
pub open spec fn binary_flags(binary: BinaryView, mode: BuildMode) -> Seq<char> {
    trimmed(mode.preset() + " "@ + joined(binary.flags, " "@))
}

/// The two modes never resolve to the same flags: whatever the project, the
/// host and the command line add, a debug build and a release build of the
/// same project call the compiler differently.
pub proof fn law_modes_resolve_differently(project: ProjectView, os: Seq<char>, user: Seq<char>)
    requires
        supported_os(os),
    ensures
        resolved_flags(project, BuildMode::Debug, os, user) is Ok,
        resolved_flags(project, BuildMode::Release, os, user) is Ok,
        resolved_flags(project, BuildMode::Debug, os, user) != resolved_flags(
            project,
            BuildMode::Release,
            os,
            user,
        ),
{
    reveal_strlit("-g -ggdb -Wall -Wextra -Og");
    reveal_strlit("-Wall -Wextra -O3");
    let extra = extra_flags(language_flags(project, os), user);
    let debug = with_extra(BuildMode::Debug.preset(), extra);
    let release = with_extra(BuildMode::Release.preset(), extra);
    assert(debug[1] == 'g');
    assert(release[1] == 'W');
}

/// The view of the outcome of resolving flags.
pub open spec fn flags_result(r: Result<String, Error>) -> Result<Seq<char>, ErrorView> {
    match r {
        Ok(flags) => Ok(flags@),
        Err(e) => Err(e@),
    }
}

/// The flags of a build of `project` in `mode` on the host named `os`, with
/// `user_flags` given on the command line.
pub fn resolve_flags(project: &Project, mode: BuildMode, os: &str, user_flags: &str) -> (r: Result<
    String,
    Error,
>)
    ensures
        flags_result(r) == resolved_flags(project@, mode, os@, user_flags@),
{
    if !is_supported_os(os) {
        return Err(Error::UnsupportedPlatform);
    }
    let language = *project.get_language();
    let configured = match project.get_override(os) {
        Some(over) => over.get_compiler().get_compiler_flags(&language),
        None => project.get_compiler().get_compiler_flags(&language),
    };
    let mut both = trim(join(configured, " ").as_str());
    both.append(" ");
    both.append(trim(user_flags).as_str());
    let extra = trim(both.as_str());
    let mut flags = mode.preset_flags().to_owned();
    if !extra.as_str().is_empty() {
        flags.append(" ");
        flags.append(extra.as_str());
    }
    Ok(flags)
}

/// The flags with which `binary` is compiled in `mode`.
pub fn resolve_binary_flags(binary: &Binary, mode: BuildMode) -> (r: String)
    ensures
        r@ == binary_flags(binary@, mode),
{
    let mut all = mode.preset_flags().to_owned();
    all.append(" ");
    all.append(join(&binary.flags, " ").as_str());
    trim(all.as_str())
}

} // verus!
