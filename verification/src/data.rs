//! Reading and changing single settings of a project by key.

use crate::commands::Commands;
use crate::compiler::{Compiler, CompilerOptionsView, CompilerView};
use crate::language::Language;
use crate::platform::{
    option_view, PlatformOptions, PlatformOptionsView, Platforms, PlatformsView,
};
use crate::project::{binaries_view, Binary, BinaryView, Project, ProjectView};
use crate::text::{clone_strings, lemma_texts_push, split, split_on, text_eq, texts};
use vstd::prelude::*;

verus! {

/// Why a setting could not be read or changed.
#[derive(Clone, Copy, Debug, PartialEq, Eq, Structural)]
pub enum DataError {
    /// No key was given to set.
    NoKey,
    /// No key was given to get.
    NoValueGiven,
    /// More than a key and a value were given.
    TooManyValues,
    /// A key was given without a value.
    NoData,
    /// The key is none that can be set.
    IncorrectKey,
    /// The value names no language.
    InvalidLanguage,
    /// The platform is none that can have settings of its own.
    InvalidPlatform,
    /// The project has no settings for any platform.
    NoPlatforms,
    /// The project has no settings for Linux.
    NoLinuxKeys,
    /// The project has no settings for OSX.
    NoOsxKeys,
    /// The project has no settings for Windows.
    NoWindowsKeys,
    /// The platform is none that the project can have settings for.
    UnknownPlatform,
}

impl DataError {
    /// The message that tells the user of the failure.
    pub open spec fn text(self) -> Seq<char> {
        match self {
            DataError::NoKey => "No key given"@,
            DataError::NoValueGiven => "No value given"@,
            DataError::TooManyValues => "No value supplied for given key"@,
            DataError::NoData => "No data provided to set key with"@,
            DataError::IncorrectKey => "Incorrect data key."@,
            DataError::InvalidLanguage => "Invalid language."@,
            DataError::InvalidPlatform => "Invalid platform"@,
            DataError::NoPlatforms => "Could not find platform"@,
            DataError::NoLinuxKeys => "Could not find any keys for Linux"@,
            DataError::NoOsxKeys => "Could not find any keys for OSX"@,
            DataError::NoWindowsKeys => "Could not find any keys for Windows"@,
            DataError::UnknownPlatform => "Could not find the specified platform"@,
        }
    }

    /// The message that tells the user of the failure.
    pub fn message(&self) -> (r: &'static str)
        ensures
            r@ == self.text(),
    {
        match self {
            DataError::NoKey => "No key given",
            DataError::NoValueGiven => "No value given",
            DataError::TooManyValues => "No value supplied for given key",
            DataError::NoData => "No data provided to set key with",
            DataError::IncorrectKey => "Incorrect data key.",
            DataError::InvalidLanguage => "Invalid language.",
            DataError::InvalidPlatform => "Invalid platform",
            DataError::NoPlatforms => "Could not find platform",
            DataError::NoLinuxKeys => "Could not find any keys for Linux",
            DataError::NoOsxKeys => "Could not find any keys for OSX",
            DataError::NoWindowsKeys => "Could not find any keys for Windows",
            DataError::UnknownPlatform => "Could not find the specified platform",
        }
    }
}

/// What a call that sets a value has done.
#[derive(Clone, Copy, Debug, PartialEq, Eq, Structural)]
pub enum SetOutcome {
    /// The usage text was asked for; nothing is changed.
    Help,
    /// The project is changed and is to be saved. With `clean`, what was
    /// built before no longer fits and is to be removed first.
    Changed { clean: bool },
}

/// What the standard library's `str::to_lowercase` gives for `s`: its
/// lower-case equivalent in the sense of Unicode.
pub uninterp spec fn lowercase(s: Seq<char>) -> Seq<char>;

/// The lower-case equivalent of `s`.
///
/// Calls `str::to_lowercase`. The contract claims no more than that the
/// result is what that function gives for these characters.
#[verifier::external_body]
fn to_lowercase(s: &str) -> (r: String)
    ensures
        r@ == lowercase(s@),
{
    s.to_lowercase()
}

/// The language that a name in lower case stands for: `c` for C, `c++` or
/// `cxx` for C++.
pub open spec fn language_named(lowered: Seq<char>) -> Option<Language> {
    if lowered == "c++"@ || lowered == "cxx"@ {
        Some(Language::CXX)
    } else if lowered == "c"@ {
        Some(Language::C)
    } else {
        None
    }
}

/// The language that a name in lower case stands for.
pub fn parse_language(lowered: &str) -> (r: Option<Language>)
    ensures
        r == language_named(lowered@),
{
    if text_eq(lowered, "c++") || text_eq(lowered, "cxx") {
        Some(Language::CXX)
    } else if text_eq(lowered, "c") {
        Some(Language::C)
    } else {
        None
    }
}

/// A compiler configuration with `command` as the command for `lang`.
pub open spec fn with_command(
    compiler: CompilerView,
    lang: Language,
    command: Seq<char>,
) -> CompilerView {
    compiler.with_options(lang, CompilerOptionsView { command, ..compiler.options(lang) })
}

/// A compiler configuration with `flags` as the flags for `lang`.
pub open spec fn with_flags(
    compiler: CompilerView,
    lang: Language,
    flags: Seq<Seq<char>>,
) -> CompilerView {
    compiler.with_options(lang, CompilerOptionsView { flags, ..compiler.options(lang) })
}

/// The project after `value` is set for `key`. A name replaces the name, a
/// language the language, a directory the directory, a compiler the command
/// for its language, flags (separated by commas) the flags of the project's
/// language; libraries and library directories (separated by commas) are
/// added to those that are there.
pub open spec fn set_applied(project: ProjectView, key: Seq<char>, value: Seq<char>) -> Result<
    ProjectView,
    DataError,
> {
    if key == "name"@ {
        Ok(ProjectView { name: value, ..project })
    } else if key == "lang"@ || key == "language"@ {
        match language_named(lowercase(value)) {
            Some(language) => Ok(ProjectView { language, ..project }),
            None => Err(DataError::InvalidLanguage),
        }
    } else if key == "libs"@ || key == "libraries"@ {
        Ok(ProjectView { libraries: project.libraries + split_on(value, ','), ..project })
    } else if key == "lib_dirs"@ || key == "library_directories"@ {
        Ok(
            ProjectView {
                library_directories: project.library_directories + split_on(value, ','),
                ..project
            },
        )
    } else if key == "c_compiler"@ {
        Ok(ProjectView { compiler: with_command(project.compiler, Language::C, value), ..project })
    } else if key == "c++_compiler"@ || key == "cxx_compiler"@ {
        Ok(
            ProjectView {
                compiler: with_command(project.compiler, Language::CXX, value),
                ..project
            },
        )
    } else if key == "compiler"@ || key == "current_compiler"@ {
        Ok(
            ProjectView {
                compiler: with_command(project.compiler, project.language, value),
                ..project
            },
        )
    } else if key == "object_dir"@ {
        Ok(
            ProjectView {
                directories: crate::project::DirectoriesView {
                    object_dir: value,
                    ..project.directories
                },
                ..project
            },
        )
    } else if key == "source_dir"@ {
        Ok(
            ProjectView {
                directories: crate::project::DirectoriesView {
                    source_dir: value,
                    ..project.directories
                },
                ..project
            },
        )
    } else if key == "build_dir"@ {
        Ok(
            ProjectView {
                directories: crate::project::DirectoriesView {
                    build_dir: value,
                    ..project.directories
                },
                ..project
            },
        )
    } else if key == "flags"@ {
        Ok(
            ProjectView {
                compiler: with_flags(project.compiler, project.language, split_on(value, ',')),
                ..project
            },
        )
    } else {
        Err(DataError::IncorrectKey)
    }
}

/// What setting a value with the arguments `args` does to `project`: the
/// project after it, and what is to follow. Only a change of the name needs
/// no cleaning.
pub open spec fn set_outcome(project: ProjectView, args: Seq<Seq<char>>) -> Result<
    (ProjectView, SetOutcome),
    DataError,
> {
    if args.len() == 0 {
        Err(DataError::NoKey)
    } else if args[0] == "--help"@ {
        Ok((project, SetOutcome::Help))
    } else if args.len() > 2 {
        Err(DataError::TooManyValues)
    } else if args.len() < 2 {
        Err(DataError::NoData)
    } else {
        match set_applied(project, args[0], args[1]) {
            Ok(changed) => Ok((changed, SetOutcome::Changed { clean: args[0] != "name"@ })),
            Err(e) => Err(e),
        }
    }
}

fn add_libraries(project: &mut Project, items: &Vec<String>)
    ensures
        final(project)@ == (ProjectView {
            libraries: old(project)@.libraries + texts(items@),
            ..old(project)@
        }),
{
    let ghost before = project@;
    let mut i: usize = 0;
    assert(before.libraries + texts(items@).take(0) == before.libraries);
    while i < items.len()
        invariant
            i <= items.len(),
            project@ == (ProjectView {
                libraries: before.libraries + texts(items@).take(i as int),
                ..before
            }),
        decreases items.len() - i,
    {
        let item = items[i].clone();
        assert((before.libraries + texts(items@).take(i as int)).push(item@) == before.libraries
            + texts(items@).take(i + 1));
        project.add_library(item);
        i += 1;
    }
    assert(texts(items@).take(items.len() as int) == texts(items@));
}

fn add_library_dirs(project: &mut Project, items: &Vec<String>)
    ensures
        final(project)@ == (ProjectView {
            library_directories: old(project)@.library_directories + texts(items@),
            ..old(project)@
        }),
{
    let ghost before = project@;
    let mut i: usize = 0;
    assert(before.library_directories + texts(items@).take(0) == before.library_directories);
    while i < items.len()
        invariant
            i <= items.len(),
            project@ == (ProjectView {
                library_directories: before.library_directories + texts(items@).take(i as int),
                ..before
            }),
        decreases items.len() - i,
    {
        let item = items[i].clone();
        assert((before.library_directories + texts(items@).take(i as int)).push(item@)
            == before.library_directories + texts(items@).take(i + 1));
        project.add_library_directories(item);
        i += 1;
    }
    assert(texts(items@).take(items.len() as int) == texts(items@));
}

fn apply_set(project: &mut Project, key: &str, value: &String) -> (r: Result<(), DataError>)
    ensures
        match r {
            Ok(()) => set_applied(old(project)@, key@, value@) == Ok::<ProjectView, DataError>(
                final(project)@,
            ),
            Err(e) => {
                &&& set_applied(old(project)@, key@, value@) == Err::<ProjectView, DataError>(e)
                &&& final(project)@ == old(project)@
            },
        },
{
    if text_eq(key, "name") {
        project.set_name(value.clone());
    } else if text_eq(key, "lang") || text_eq(key, "language") {
        match parse_language(to_lowercase(value.as_str()).as_str()) {
            Some(language) => project.set_language(language),
            None => {
                return Err(DataError::InvalidLanguage);
            },
        }
    } else if text_eq(key, "libs") || text_eq(key, "libraries") {
        add_libraries(project, &split(value.as_str(), ','));
    } else if text_eq(key, "lib_dirs") || text_eq(key, "library_directories") {
        add_library_dirs(project, &split(value.as_str(), ','));
    } else if text_eq(key, "c_compiler") {
        project.set_compiler(Language::C, value.clone());
    } else if text_eq(key, "c++_compiler") || text_eq(key, "cxx_compiler") {
        project.set_compiler(Language::CXX, value.clone());
    } else if text_eq(key, "compiler") || text_eq(key, "current_compiler") {
        project.set_current_compiler(value.clone());
    } else if text_eq(key, "object_dir") {
        project.directories.set_objects_dir(value.clone());
    } else if text_eq(key, "source_dir") {
        project.directories.set_source_dir(value.clone());
    } else if text_eq(key, "build_dir") {
        project.directories.set_build_dir(value.clone());
    } else if text_eq(key, "flags") {
        let language = *project.get_language();
        project.compiler.set_compiler_flags(language, split(value.as_str(), ','));
    } else {
        return Err(DataError::IncorrectKey);
    }
    Ok(())
}

/// What a call that reads a value shows to the user.
#[derive(Debug)]
pub enum Shown {
    /// The usage text.
    Help,
    /// One value.
    Text(String),
    /// A list of values.
    List(Vec<String>),
    /// The standalone binaries.
    Binaries(Vec<Binary>),
    /// The key is none that can be read: the user is told so, and that is no failure.
    UnknownKey,
}

/// What a `Shown` holds, as text.
pub enum ShownView {
    Help,
    Text(Seq<char>),
    List(Seq<Seq<char>>),
    Binaries(Seq<BinaryView>),
    UnknownKey,
}

impl View for Shown {
    type V = ShownView;

    open spec fn view(&self) -> ShownView {
        match self {
            Shown::Help => ShownView::Help,
            Shown::Text(s) => ShownView::Text(s@),
            Shown::List(v) => ShownView::List(texts(v@)),
            Shown::Binaries(b) => ShownView::Binaries(binaries_view(b@)),
            Shown::UnknownKey => ShownView::UnknownKey,
        }
    }
}

/// What is shown for `key` in `project` on the host named `os`. The
/// libraries are those in force on the host; the library directories are
/// shown as the project's three directories.
pub open spec fn shown_for(project: ProjectView, os: Seq<char>, key: Seq<char>) -> ShownView {
    if key == "--help"@ {
        ShownView::Help
    } else if key == "name"@ {
        ShownView::Text(project.name)
    } else if key == "lang"@ || key == "language"@ {
        ShownView::Text(project.language.shown())
    } else if key == "libs"@ || key == "libraries"@ {
        ShownView::List(project.libraries_on(os))
    } else if key == "lib_dirs"@ || key == "library_directories"@ {
        ShownView::List(project.directories.all())
    } else if key == "compiler"@ || key == "current_compiler"@ {
        ShownView::Text(project.compiler.options(project.language).command)
    } else if key == "c_compiler"@ {
        ShownView::Text(project.compiler.options(Language::C).command)
    } else if key == "c++_compiler"@ || key == "cxx_compiler"@ {
        ShownView::Text(project.compiler.options(Language::CXX).command)
    } else if key == "build_dir"@ {
        ShownView::Text(project.directories.build_dir)
    } else if key == "source_dir"@ {
        ShownView::Text(project.directories.source_dir)
    } else if key == "object_dir"@ {
        ShownView::Text(project.directories.object_dir)
    } else if key == "flags"@ {
        ShownView::List(project.compiler.options(project.language).flags)
    } else if key == "bins"@ || key == "binaries"@ {
        ShownView::Binaries(project.binaries())
    } else {
        ShownView::UnknownKey
    }
}

/// The settings of `project` for the platform called `platform_name`, or
/// why there are none.
pub open spec fn platform_settings(project: ProjectView, platform_name: Seq<char>) -> Result<
    PlatformOptionsView,
    DataError,
> {
    match project.platforms {
        None => Err(DataError::NoPlatforms),
        Some(platforms) => if platform_name == "linux"@ {
            match platforms.linux {
                Some(p) => Ok(p),
                None => Err(DataError::NoLinuxKeys),
            }
        } else if platform_name == "osx"@ {
            match platforms.osx {
                Some(p) => Ok(p),
                None => Err(DataError::NoOsxKeys),
            }
        } else if platform_name == "windows"@ {
            match platforms.windows {
                Some(p) => Ok(p),
                None => Err(DataError::NoWindowsKeys),
            }
        } else {
            Err(DataError::UnknownPlatform)
        },
    }
}

/// What is shown for `key` among the settings `settings` of a platform.
pub open spec fn shown_for_platform(
    settings: PlatformOptionsView,
    language: Language,
    key: Seq<char>,
) -> ShownView {
    if key == "--help"@ {
        ShownView::Help
    } else if key == "libs"@ || key == "libraries"@ {
        ShownView::List(settings.libraries)
    } else if key == "lib_dirs"@ || key == "library_directories"@ {
        ShownView::List(settings.library_directories)
    } else if key == "compiler"@ || key == "current_compiler"@ {
        ShownView::Text(settings.compiler.options(language).command)
    } else if key == "c_compiler"@ {
        ShownView::Text(settings.compiler.options(Language::C).command)
    } else if key == "c++_compiler"@ || key == "cxx_compiler"@ {
        ShownView::Text(settings.compiler.options(Language::CXX).command)
    } else if key == "flags"@ {
        ShownView::List(settings.compiler.options(language).flags)
    } else {
        ShownView::UnknownKey
    }
}

/// The settings that a call which sets `value` for `key` gives the
/// platform called `platform_name`: fresh settings under that name, with
/// only this value in them. The command of the C compiler is the one
/// setting that is not the platform's: it is the project's.
pub open spec fn platform_applied(
    project: ProjectView,
    platform_name: Seq<char>,
    key: Seq<char>,
    value: Seq<char>,
) -> Result<(ProjectView, PlatformOptionsView), DataError> {
    let fresh = PlatformOptionsView {
        platform_name,
        libraries: Seq::empty(),
        library_directories: Seq::empty(),
        compiler: CompilerView::initial(),
    };
    if key == "libs"@ || key == "libraries"@ {
        Ok((project, PlatformOptionsView { libraries: split_on(value, ','), ..fresh }))
    } else if key == "lib_dirs"@ || key == "library_directories"@ {
        Ok((project, PlatformOptionsView { library_directories: split_on(value, ','), ..fresh }))
    } else if key == "c_compiler"@ {
        Ok(
            (
                ProjectView {
                    compiler: with_command(project.compiler, Language::C, value),
                    ..project
                },
                fresh,
            ),
        )
    } else if key == "c++_compiler"@ || key == "cxx_compiler"@ {
        Ok(
            (
                project,
                PlatformOptionsView {
                    compiler: with_command(fresh.compiler, Language::CXX, value),
                    ..fresh
                },
            ),
        )
    } else if key == "compiler"@ || key == "current_compiler"@ {
        Ok(
            (
                project,
                PlatformOptionsView {
                    compiler: with_command(fresh.compiler, project.language, value),
                    ..fresh
                },
            ),
        )
    } else if key == "flags"@ {
        Ok(
            (
                project,
                PlatformOptionsView {
                    compiler: with_flags(fresh.compiler, project.language, split_on(value, ',')),
                    ..fresh
                },
            ),
        )
    } else {
        Err(DataError::IncorrectKey)
    }
}

/// The platform settings of a project with `settings` in place of those
/// for the platform called `platform_name`.
pub open spec fn with_platform(
    platforms: PlatformsView,
    platform_name: Seq<char>,
    settings: PlatformOptionsView,
) -> Result<PlatformsView, DataError> {
    if platform_name == "linux"@ {
        Ok(PlatformsView { linux: Some(settings), ..platforms })
    } else if platform_name == "osx"@ {
        Ok(PlatformsView { osx: Some(settings), ..platforms })
    } else if platform_name == "windows"@ {
        Ok(PlatformsView { windows: Some(settings), ..platforms })
    } else {
        Err(DataError::InvalidPlatform)
    }
}

/// What setting a value for a platform with the arguments `args` does to
/// `project`.
pub open spec fn set_platform_outcome(
    project: ProjectView,
    args: Seq<Seq<char>>,
    platform_name: Seq<char>,
) -> Result<(ProjectView, SetOutcome), DataError> {
    if args.len() == 0 {
        Err(DataError::NoKey)
    } else if args[0] == "--help"@ {
        Ok((project, SetOutcome::Help))
    } else if args.len() > 2 {
        Err(DataError::TooManyValues)
    } else if args.len() < 2 {
        Err(DataError::NoData)
    } else {
        match platform_applied(project, platform_name, args[0], args[1]) {
            Err(e) => Err(e),
            Ok((changed, settings)) => {
                let platforms = match project.platforms {
                    Some(p) => p,
                    None => PlatformsView::none(),
                };
                match with_platform(platforms, platform_name, settings) {
                    Err(e) => Err(e),
                    Ok(replaced) => Ok(
                        (
                            ProjectView { platforms: Some(replaced), ..changed },
                            SetOutcome::Changed { clean: true },
                        ),
                    ),
                }
            },
        }
    }
}

fn fresh_settings(platform_name: &String) -> (r: PlatformOptions)
    ensures
        r@ == (PlatformOptionsView {
            platform_name: platform_name@,
            libraries: Seq::empty(),
            library_directories: Seq::empty(),
            compiler: CompilerView::initial(),
        }),
{
    let r = PlatformOptions {
        platform_name: platform_name.clone(),
        libraries: Vec::new(),
        library_directories: Vec::new(),
        compiler: Compiler::default(),
    };
    assert(texts(r.libraries@) =~= Seq::<Seq<char>>::empty());
    assert(texts(r.library_directories@) =~= Seq::<Seq<char>>::empty());
    r
}

impl Commands {
    /// Sets one value of `project`: `args` holds the key and the value.
    ///
    /// A call that fails leaves the project as it was.
    pub fn set_data(project: &mut Project, args: &Vec<String>) -> (r: Result<SetOutcome, DataError>)
        ensures
            match r {
                Ok(outcome) => set_outcome(old(project)@, texts(args@)) == Ok::<
                    (ProjectView, SetOutcome),
                    DataError,
                >((final(project)@, outcome)),
                Err(e) => {
                    &&& set_outcome(old(project)@, texts(args@)) == Err::<
                        (ProjectView, SetOutcome),
                        DataError,
                    >(e)
                    &&& final(project)@ == old(project)@
                },
            },
    {
        if args.len() == 0 {
            return Err(DataError::NoKey);
        }
        assert(texts(args@)[0] == args@[0]@);
        if text_eq(args[0].as_str(), "--help") {
            return Ok(SetOutcome::Help);
        }
        if args.len() > 2 {
            return Err(DataError::TooManyValues);
        }
        if args.len() < 2 {
            return Err(DataError::NoData);
        }
        assert(texts(args@)[1] == args@[1]@);
        match apply_set(project, args[0].as_str(), &args[1]) {
            Ok(()) => Ok(SetOutcome::Changed { clean: !text_eq(args[0].as_str(), "name") }),
            Err(e) => Err(e),
        }
    }

    /// What is to be shown for the key in `args`, in `project` on the host
    /// named `os`.
    pub fn get_data(project: &Project, os: &str, args: &Vec<String>) -> (r: Result<
        Shown,
        DataError,
    >)
        ensures
            match r {
                Ok(shown) => args@.len() > 0 && shown@ == shown_for(project@, os@, args@[0]@),
                Err(e) => args@.len() == 0 && e == DataError::NoValueGiven,
            },
    {
        if args.len() == 0 {
            return Err(DataError::NoValueGiven);
        }
        let key = args[0].as_str();
        let language = *project.get_language();
        if text_eq(key, "--help") {
            Ok(Shown::Help)
        } else if text_eq(key, "name") {
            Ok(Shown::Text(project.get_name().clone()))
        } else if text_eq(key, "lang") || text_eq(key, "language") {
            Ok(Shown::Text(language.display()))
        } else if text_eq(key, "libs") || text_eq(key, "libraries") {
            Ok(Shown::List(clone_strings(project.get_libraries(os))))
        } else if text_eq(key, "lib_dirs") || text_eq(key, "library_directories") {
            Ok(Shown::List(project.get_directories().get_all_dirs()))
        } else if text_eq(key, "compiler") || text_eq(key, "current_compiler") {
            Ok(Shown::Text(project.get_compiler().get_compiler_command(&language).clone()))
        } else if text_eq(key, "c_compiler") {
            Ok(Shown::Text(project.get_compiler().get_compiler_command(&Language::C).clone()))
        } else if text_eq(key, "c++_compiler") || text_eq(key, "cxx_compiler") {
            Ok(Shown::Text(project.get_compiler().get_compiler_command(&Language::CXX).clone()))
        } else if text_eq(key, "build_dir") {
            Ok(Shown::Text(project.get_directories().get_build_dir().clone()))
        } else if text_eq(key, "source_dir") {
            Ok(Shown::Text(project.get_directories().get_source_dir().clone()))
        } else if text_eq(key, "object_dir") {
            Ok(Shown::Text(project.get_directories().get_objects_dir().clone()))
        } else if text_eq(key, "flags") {
            Ok(Shown::List(clone_strings(project.get_compiler().get_compiler_flags(&language))))
        } else if text_eq(key, "bins") || text_eq(key, "binaries") {
            Ok(Shown::Binaries(project.get_binaries()))
        } else {
            Ok(Shown::UnknownKey)
        }
    }

    /// Sets one value of `project` for the platform called `platform_name`:
    /// `args` holds the key and the value.
    ///
    /// A call that fails leaves the project as it was.
    pub fn set_data_platform(
        project: &mut Project,
        args: &Vec<String>,
        platform_name: String,
    ) -> (r: Result<SetOutcome, DataError>)
        ensures
            match r {
                Ok(outcome) => set_platform_outcome(old(project)@, texts(args@), platform_name@)
                    == Ok::<(ProjectView, SetOutcome), DataError>((final(project)@, outcome)),
                Err(e) => {
                    &&& set_platform_outcome(old(project)@, texts(args@), platform_name@) == Err::<
                        (ProjectView, SetOutcome),
                        DataError,
                    >(e)
                    &&& final(project)@ == old(project)@
                },
            },
    {
        if args.len() == 0 {
            return Err(DataError::NoKey);
        }
        assert(texts(args@)[0] == args@[0]@);
        if text_eq(args[0].as_str(), "--help") {
            return Ok(SetOutcome::Help);
        }
        if args.len() > 2 {
            return Err(DataError::TooManyValues);
        }
        if args.len() < 2 {
            return Err(DataError::NoData);
        }
        assert(texts(args@)[1] == args@[1]@);
        let key = args[0].as_str();
        let value = &args[1];
        let language = *project.get_language();
        let mut settings = fresh_settings(&platform_name);
        let mut c_command: Option<String> = None;
        if text_eq(key, "libs") || text_eq(key, "libraries") {
            settings.libraries = split(value.as_str(), ',');
        } else if text_eq(key, "lib_dirs") || text_eq(key, "library_directories") {
            settings.library_directories = split(value.as_str(), ',');
        } else if text_eq(key, "c_compiler") {
            c_command = Some(value.clone());
        } else if text_eq(key, "c++_compiler") || text_eq(key, "cxx_compiler") {
            settings.set_compiler(Language::CXX, value.clone());
        } else if text_eq(key, "compiler") || text_eq(key, "current_compiler") {
            settings.set_compiler(language, value.clone());
        } else if text_eq(key, "flags") {
            settings.compiler.set_compiler_flags(language, split(value.as_str(), ','));
        } else {
            return Err(DataError::IncorrectKey);
        }
        let linux = text_eq(platform_name.as_str(), "linux");
        let osx = text_eq(platform_name.as_str(), "osx");
        let windows = text_eq(platform_name.as_str(), "windows");
        if !linux && !osx && !windows {
            return Err(DataError::InvalidPlatform);
        }
        let mut platforms = match &project.platforms {
            Some(p) => p.clone(),
            None => Platforms::default(),
        };
        if linux {
            platforms.linux = Some(settings);
        } else if osx {
            platforms.osx = Some(settings);
        } else {
            platforms.windows = Some(settings);
        }
        match c_command {
            Some(command) => project.set_compiler(Language::C, command),
            None => {},
        }
        project.platforms = Some(platforms);
        Ok(SetOutcome::Changed { clean: true })
    }

    /// What is to be shown for the key in `args` among the settings of
    /// `project` for the platform called `platform_name`.
    pub fn get_data_platform(project: &Project, args: &Vec<String>, platform_name: String) -> (r:
        Result<Shown, DataError>)
        ensures
            match r {
                Ok(shown) => {
                    &&& platform_settings(project@, platform_name@) is Ok
                    &&& args@.len() > 0
                    &&& shown@ == shown_for_platform(
                        platform_settings(project@, platform_name@)->Ok_0,
                        project@.language,
                        args@[0]@,
                    )
                },
                Err(e) => match platform_settings(project@, platform_name@) {
                    Err(found) => e == found,
                    Ok(_) => args@.len() == 0 && e == DataError::NoKey,
                },
            },
    {
        let settings = match &project.platforms {
            None => {
                return Err(DataError::NoPlatforms);
            },
            Some(platforms) => {
                if text_eq(platform_name.as_str(), "linux") {
                    match &platforms.linux {
                        Some(p) => p,
                        None => {
                            return Err(DataError::NoLinuxKeys);
                        },
                    }
                } else if text_eq(platform_name.as_str(), "osx") {
                    match &platforms.osx {
                        Some(p) => p,
                        None => {
                            return Err(DataError::NoOsxKeys);
                        },
                    }
                } else if text_eq(platform_name.as_str(), "windows") {
                    match &platforms.windows {
                        Some(p) => p,
                        None => {
                            return Err(DataError::NoWindowsKeys);
                        },
                    }
                } else {
                    return Err(DataError::UnknownPlatform);
                }
            },
        };
        if args.len() == 0 {
            return Err(DataError::NoKey);
        }
        let key = args[0].as_str();
        let language = *project.get_language();
        if text_eq(key, "--help") {
            Ok(Shown::Help)
        } else if text_eq(key, "libs") || text_eq(key, "libraries") {
            Ok(Shown::List(clone_strings(settings.get_libraries())))
        } else if text_eq(key, "lib_dirs") || text_eq(key, "library_directories") {
            Ok(Shown::List(clone_strings(settings.get_library_dirs())))
        } else if text_eq(key, "compiler") || text_eq(key, "current_compiler") {
            Ok(Shown::Text(settings.get_compiler().get_compiler_command(&language).clone()))
        } else if text_eq(key, "c_compiler") {
            Ok(Shown::Text(settings.get_compiler().get_compiler_command(&Language::C).clone()))
        } else if text_eq(key, "c++_compiler") || text_eq(key, "cxx_compiler") {
            Ok(Shown::Text(settings.get_compiler().get_compiler_command(&Language::CXX).clone()))
        } else if text_eq(key, "flags") {
            Ok(Shown::List(clone_strings(settings.get_compiler().get_compiler_flags(&language))))
        } else {
            Ok(Shown::UnknownKey)
        }
    }
}

} // verus!
