//! The making of a new project: what its description holds, and which files
//! are written where.

use crate::commands::Commands;
use crate::data::with_command;
use crate::invocation::{chain, inside, path_inside};
use crate::language::Language;
use crate::project::{DirectoriesView, Project, ProjectView};
use crate::text::text_eq;
use vstd::prelude::*;
use vstd::string::*;

verus! {

/// The program that a new C project starts with.
pub const HELLO_C: &'static str =
    "#include <stdio.h>\n\nint main() {\n    printf(\"Hello, world\\n\");\n}\n";

/// The program that a new C++ project starts with.
pub const HELLO_CXX: &'static str =
    "#include <iostream>\n\nint main() {\n    std::cout << \"Hello, world\" << std::endl;\n}\n";

/// The name of the file that describes a project.
pub const DESCRIPTION_FILE: &'static str = "Ocean.toml";

/// Why a new project could not be made.
#[derive(Clone, Copy, Debug, PartialEq, Eq, Structural)]
pub enum ScaffoldError {
    /// No name was given, or an empty one.
    NoName,
    /// The directory of that name already holds a project description.
    DescriptionExists,
    /// The directory of that name is there and may not be used.
    DirectoryRefused,
    /// `-b` or `--build-dir` was the last argument.
    NoBuildDir,
    /// `-s` or `--source-dir` was the last argument.
    NoSourceDir,
    /// `-o` or `--obj-dir` was the last argument.
    NoObjectsDir,
    /// `-c` or `--compiler` was the last argument.
    NoCompiler,
}

impl ScaffoldError {
    /// The message that tells the user of the failure.
    pub open spec fn text(self) -> Seq<char> {
        match self {
            ScaffoldError::NoName => "Did not specify project name"@,
            ScaffoldError::DescriptionExists =>
                "Cannot create a new project, Ocean.toml already exists in this directory."@,
            ScaffoldError::DirectoryRefused =>
                "Cannot create a new project, directory is not empty"@,
            ScaffoldError::NoBuildDir => "Did not specify a build directory"@,
            ScaffoldError::NoSourceDir => "Did not specify a source directory"@,
            ScaffoldError::NoObjectsDir => "Did not specify an objects directory"@,
            ScaffoldError::NoCompiler => "Did not specify custom compiler"@,
        }
    }

    /// The message that tells the user of the failure.
    pub fn message(&self) -> (r: &'static str)
        ensures
            r@ == self.text(),
    {
        match self {
            ScaffoldError::NoName => "Did not specify project name",
            ScaffoldError::DescriptionExists =>
                "Cannot create a new project, Ocean.toml already exists in this directory.",
            ScaffoldError::DirectoryRefused =>
                "Cannot create a new project, directory is not empty",
            ScaffoldError::NoBuildDir => "Did not specify a build directory",
            ScaffoldError::NoSourceDir => "Did not specify a source directory",
            ScaffoldError::NoObjectsDir => "Did not specify an objects directory",
            ScaffoldError::NoCompiler => "Did not specify custom compiler",
        }
    }
}

/// What was found where the new project is to be.
#[derive(Clone, Copy, Debug)]
pub struct Site {
    /// Whether the directory of the project's name holds a project description.
    pub has_description: bool,
    /// Whether the directory of the project's name is there and holds nothing.
    pub is_empty_dir: bool,
}

/// What the options of a new project have asked for.
pub struct Wanted {
    pub project: ProjectView,
    pub ccls: bool,
    pub vscode: bool,
}

/// What the arguments from position `i` on ask of a new project, given
/// that those before it have asked for `so_far`. `-C` and `-CXX` choose the
/// language; `-b`, `-s` and `-o` name the build, source and object
/// directory; `-c` names the compiler of the language chosen so far;
/// `--ccls` and `--vscode` ask for editor files. The value of an option is
/// then read as an argument in its own right.
pub open spec fn wanted_from(args: Seq<Seq<char>>, i: int, so_far: Wanted) -> Result<
    Wanted,
    ScaffoldError,
>
    decreases args.len() - i,
{
    let project = so_far.project;
    if i < 1 || i >= args.len() {
        Ok(so_far)
    } else if args[i] == "-C"@ {
        wanted_from(
            args,
            i + 1,
            Wanted { project: ProjectView { language: Language::C, ..project }, ..so_far },
        )
    } else if args[i] == "-CXX"@ {
        wanted_from(
            args,
            i + 1,
            Wanted { project: ProjectView { language: Language::CXX, ..project }, ..so_far },
        )
    } else if args[i] == "-b"@ || args[i] == "--build-dir"@ {
        if i + 1 < args.len() {
            wanted_from(
                args,
                i + 1,
                Wanted {
                    project: ProjectView {
                        directories: DirectoriesView {
                            build_dir: args[i + 1],
                            ..project.directories
                        },
                        ..project
                    },
                    ..so_far
                },
            )
        } else {
            Err(ScaffoldError::NoBuildDir)
        }
    } else if args[i] == "-s"@ || args[i] == "--source-dir"@ {
        if i + 1 < args.len() {
            wanted_from(
                args,
                i + 1,
                Wanted {
                    project: ProjectView {
                        directories: DirectoriesView {
                            source_dir: args[i + 1],
                            ..project.directories
                        },
                        ..project
                    },
                    ..so_far
                },
            )
        } else {
            Err(ScaffoldError::NoSourceDir)
        }
    } else if args[i] == "-o"@ || args[i] == "--obj-dir"@ {
        if i + 1 < args.len() {
            wanted_from(
                args,
                i + 1,
                Wanted {
                    project: ProjectView {
                        directories: DirectoriesView {
                            object_dir: args[i + 1],
                            ..project.directories
                        },
                        ..project
                    },
                    ..so_far
                },
            )
        } else {
            Err(ScaffoldError::NoObjectsDir)
        }
    } else if args[i] == "-c"@ || args[i] == "--compiler"@ {
        if i + 1 < args.len() {
            wanted_from(
                args,
                i + 1,
                Wanted {
                    project: ProjectView {
                        compiler: with_command(project.compiler, project.language, args[i + 1]),
                        ..project
                    },
                    ..so_far
                },
            )
        } else {
            Err(ScaffoldError::NoCompiler)
        }
    } else if args[i] == "--ccls"@ {
        wanted_from(args, i + 1, Wanted { ccls: true, ..so_far })
    } else if args[i] == "--vscode"@ {
        wanted_from(args, i + 1, Wanted { vscode: true, ..so_far })
    } else {
        wanted_from(args, i + 1, so_far)
    }
}

/// The program that a new project in `language` starts with.
pub open spec fn hello(language: Language) -> Seq<char> {
    match language {
        Language::C => HELLO_C@,
        Language::CXX => HELLO_CXX@,
    }
}

/// What is to be written for a new project.
#[derive(Debug)]
pub struct Scaffold {
    /// The project, for its description.
    pub project: Project,
    /// The directory to create, with those above it.
    pub source_dir: String,
    /// Where the description goes.
    pub description_path: String,
    /// Where the first program goes.
    pub code_path: String,
    /// The first program.
    pub code: String,
    /// Where the settings for ccls go, empty, if they are asked for.
    pub ccls_path: Option<String>,
    /// Whether settings for Visual Studio Code are asked for.
    pub vscode: bool,
    /// What to tell the user once all is written.
    pub message: String,
}

/// What a `Scaffold` holds, as text.
pub struct ScaffoldView {
    pub project: ProjectView,
    pub source_dir: Seq<char>,
    pub description_path: Seq<char>,
    pub code_path: Seq<char>,
    pub code: Seq<char>,
    pub ccls_path: Option<Seq<char>>,
    pub vscode: bool,
    pub message: Seq<char>,
}

impl View for Scaffold {
    type V = ScaffoldView;

    open spec fn view(&self) -> ScaffoldView {
        ScaffoldView {
            project: self.project@,
            source_dir: self.source_dir@,
            description_path: self.description_path@,
            code_path: self.code_path@,
            code: self.code@,
            ccls_path: match self.ccls_path {
                Some(p) => Some(p@),
                None => None,
            },
            vscode: self.vscode,
            message: self.message@,
        }
    }
}

/// What the command that makes a project is to do: show its usage, or write
/// a project.
#[derive(Debug)]
pub enum NewProject {
    Help,
    Create(Scaffold),
}

/// What a `NewProject` holds, as text.
pub enum NewProjectView {
    Help,
    Create(ScaffoldView),
}

impl View for NewProject {
    type V = NewProjectView;

    open spec fn view(&self) -> NewProjectView {
        match self {
            NewProject::Help => NewProjectView::Help,
            NewProject::Create(s) => NewProjectView::Create(s@),
        }
    }
}

/// What is written for the project that `wanted` describes. The directory
/// that is created is always `src` under the project's name; the first
/// program goes to the project's source directory under the project's name.
pub open spec fn scaffold_of(wanted: Wanted) -> ScaffoldView {
    let project = wanted.project;
    let name = project.name;
    ScaffoldView {
        project,
        source_dir: inside(name, "src"@),
        description_path: inside(name, DESCRIPTION_FILE@),
        code_path: inside(
            inside(name, project.directories.source_dir),
            "main."@ + project.language.extension(),
        ),
        code: hello(project.language),
        ccls_path: if wanted.ccls {
            Some(inside(name, ".ccls"@))
        } else {
            None
        },
        vscode: wanted.vscode,
        message: "Created a new "@ + project.language.shown() + " project \""@ + name + "\""@,
    }
}

/// What the name among the arguments asks for: nothing to name where the
/// usage is asked for; else the name, which may not be missing or empty.
pub open spec fn named(args: Seq<Seq<char>>) -> Result<Option<Seq<char>>, ScaffoldError> {
    if args.len() == 0 {
        Err(ScaffoldError::NoName)
    } else if args[0] == "--help"@ {
        Ok(None)
    } else if args[0].len() == 0 {
        Err(ScaffoldError::NoName)
    } else {
        Ok(Some(args[0]))
    }
}

/// What making a project with the arguments `args` is to do, given what
/// was found at its site. A site that holds a description is refused, and
/// so is a site that is an empty directory.
pub open spec fn new_project_request(args: Seq<Seq<char>>, site: Site) -> Result<
    NewProjectView,
    ScaffoldError,
> {
    match named(args) {
        Err(e) => Err(e),
        Ok(None) => Ok(NewProjectView::Help),
        Ok(Some(name)) => if site.has_description {
            Err(ScaffoldError::DescriptionExists)
        } else if site.is_empty_dir {
            Err(ScaffoldError::DirectoryRefused)
        } else {
            match wanted_from(
                args,
                1,
                Wanted {
                    project: ProjectView { name, ..ProjectView::initial() },
                    ccls: false,
                    vscode: false,
                },
            ) {
                Err(e) => Err(e),
                Ok(wanted) => Ok(NewProjectView::Create(scaffold_of(wanted))),
            }
        },
    }
}

/// The view of the outcome of planning a new project.
pub open spec fn new_project_result(r: Result<NewProject, ScaffoldError>) -> Result<
    NewProjectView,
    ScaffoldError,
> {
    match r {
        Ok(request) => Ok(request@),
        Err(e) => Err(e),
    }
}

impl Commands {
    /// The name of the project that the arguments ask for; none where they
    /// ask for the usage.
    pub fn new_project_name(args: &Vec<String>) -> (r: Result<Option<String>, ScaffoldError>)
        ensures
            match r {
                Ok(Some(name)) => named(crate::text::texts(args@)) == Ok::<
                    Option<Seq<char>>,
                    ScaffoldError,
                >(Some(name@)),
                Ok(None) => named(crate::text::texts(args@)) == Ok::<
                    Option<Seq<char>>,
                    ScaffoldError,
                >(None),
                Err(e) => named(crate::text::texts(args@)) == Err::<
                    Option<Seq<char>>,
                    ScaffoldError,
                >(e),
            },
    {
        if args.len() == 0 {
            return Err(ScaffoldError::NoName);
        }
        assert(crate::text::texts(args@)[0] == args@[0]@);
        if text_eq(args[0].as_str(), "--help") {
            Ok(None)
        } else if args[0].as_str().is_empty() {
            Err(ScaffoldError::NoName)
        } else {
            Ok(Some(args[0].clone()))
        }
    }

    /// What making a project with the arguments `args` is to do, given
    /// what was found at its site.
    pub fn new_project(args: &Vec<String>, site: Site) -> (r: Result<NewProject, ScaffoldError>)
        ensures
            new_project_result(r) == new_project_request(crate::text::texts(args@), site),
    {
        let name = match Commands::new_project_name(args) {
            Err(e) => {
                return Err(e);
            },
            Ok(None) => {
                return Ok(NewProject::Help);
            },
            Ok(Some(name)) => name,
        };
        if site.has_description {
            return Err(ScaffoldError::DescriptionExists);
        }
        if site.is_empty_dir {
            return Err(ScaffoldError::DirectoryRefused);
        }
        let ghost all = crate::text::texts(args@);
        let ghost first = Wanted {
            project: ProjectView { name: name@, ..ProjectView::initial() },
            ccls: false,
            vscode: false,
        };
        let mut project = Project::default();
        project.set_name(name);
        let mut ccls = false;
        let mut vscode = false;
        let mut i: usize = 1;
        while i < args.len()
            invariant
                1 <= i,
                all == crate::text::texts(args@),
                !site.has_description,
                !site.is_empty_dir,
                named(all) == Ok::<Option<Seq<char>>, ScaffoldError>(Some(first.project.name)),
                first == (Wanted {
                    project: ProjectView { name: first.project.name, ..ProjectView::initial() },
                    ccls: false,
                    vscode: false,
                }),
                wanted_from(all, 1, first) == wanted_from(
                    all,
                    i as int,
                    Wanted { project: project@, ccls, vscode },
                ),
            decreases args.len() - i,
        {
            let arg = args[i].as_str();
            assert(all[i as int] == arg@);
            if i + 1 < args.len() {
                assert(all[i + 1] == args@[i + 1]@);
            }
            if text_eq(arg, "-C") {
                project.set_language(Language::C);
            } else if text_eq(arg, "-CXX") {
                project.set_language(Language::CXX);
            } else if text_eq(arg, "-b") || text_eq(arg, "--build-dir") {
                if i + 1 < args.len() {
                    project.directories.set_build_dir(args[i + 1].clone());
                } else {
                    return Err(ScaffoldError::NoBuildDir);
                }
            } else if text_eq(arg, "-s") || text_eq(arg, "--source-dir") {
                if i + 1 < args.len() {
                    project.directories.set_source_dir(args[i + 1].clone());
                } else {
                    return Err(ScaffoldError::NoSourceDir);
                }
            } else if text_eq(arg, "-o") || text_eq(arg, "--obj-dir") {
                if i + 1 < args.len() {
                    project.directories.set_objects_dir(args[i + 1].clone());
                } else {
                    return Err(ScaffoldError::NoObjectsDir);
                }
            } else if text_eq(arg, "-c") || text_eq(arg, "--compiler") {
                if i + 1 < args.len() {
                    project.set_current_compiler(args[i + 1].clone());
                } else {
                    return Err(ScaffoldError::NoCompiler);
                }
            } else if text_eq(arg, "--ccls") {
                ccls = true;
            } else if text_eq(arg, "--vscode") {
                vscode = true;
            }
            i += 1;
        }
        let language = *project.get_language();
        let name = project.get_name().as_str();
        let code = match language {
            Language::C => HELLO_C.to_owned(),
            Language::CXX => HELLO_CXX.to_owned(),
        };
        let main_file = chain("main.", language.get_extension().as_str());
        let code_path = path_inside(
            path_inside(name, project.get_directories().get_source_dir().as_str()).as_str(),
            main_file.as_str(),
        );
        let mut message = "Created a new ".to_owned();
        message.append(language.display().as_str());
        message.append(" project \"");
        message.append(name);
        message.append("\"");
        let scaffold = Scaffold {
            source_dir: path_inside(name, "src"),
            description_path: path_inside(name, DESCRIPTION_FILE),
            code_path,
            code,
            ccls_path: if ccls {
                Some(path_inside(name, ".ccls"))
            } else {
                None
            },
            vscode,
            message,
            project,
        };
        Ok(NewProject::Create(scaffold))
    }
}

} // verus!
