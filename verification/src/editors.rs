//! Settings files for editors.

use crate::invocation::{inside, path_inside};
use crate::project::{Project, ProjectView};
use crate::text::text_eq;
use vstd::prelude::*;
use vstd::string::*;

verus! {

/// The properties for the C and C++ extension, up to the name of the configuration.
pub const PROPERTIES_HEAD: &'static str =
    "{\n    \"configurations\": [\n        {\n            \"name\": \"";

/// The properties from the name of the configuration to the path of the compiler.
pub const PROPERTIES_AFTER_NAME: &'static str =
    "\",\n            \"includePath\": [\n                \"${workspaceFolder}/**\"\n            ],\n            \"defines\": [\n                \"_DEBUG\",\n                \"UNICODE\",\n                \"_UNICODE\"\n            ],\n            \"compilerPath\": \"";

/// The properties from the path of the compiler to the mode of the code analysis.
pub const PROPERTIES_AFTER_PATH: &'static str =
    "\",\n            \"cStandard\": \"c11\",\n            \"cppStandard\": \"c++20\",\n            \"intelliSenseMode\": \"";

/// The end of the properties.
pub const PROPERTIES_TAIL: &'static str =
    "-x64\"\n        }\n    ],\n    \"version\": 4\n}";

/// The tasks: to run and to build, for debugging and for release.
pub const TASKS: &'static str =
    "{\n    \"tasks\": [\n        {\n            \"type\": \"shell\",\n            \"label\": \"run\",\n            \"command\": \"ocean run\",\n            \"problemMatcher\": [\n                \"$gcc\"\n            ],\n            \"group\": {\n                \"kind\": \"build\",\n                \"isDefault\": true\n            }\n        },\n        {\n            \"type\": \"shell\",\n            \"label\": \"run (release)\",\n            \"command\": \"ocean run\",\n            \"args\": [\n                \"--release\",\n            ],\n            \"problemMatcher\": [\n                \"$gcc\"\n            ],\n            \"group\": \"build\",\n        },\n        {\n            \"type\": \"shell\",\n            \"label\": \"build\",\n            \"command\": \"ocean build\",\n            \"problemMatcher\": [\n                \"$gcc\"\n            ],\n            \"group\": \"build\",\n            \n        },\n        {\n            \"type\": \"shell\",\n            \"label\": \"build (release)\",\n            \"command\": \"ocean build\",\n            \"args\": [\n                \"--release\",\n            ],\n            \"problemMatcher\": [\n                \"$gcc\"\n            ],\n            \"group\": \"build\",\n            \n        },\n    ],\n    \"version\": \"2.0.0\"\n}";

/// The launch settings, up to the name of the program.
pub const LAUNCH_HEAD: &'static str =
    "{\n    \"version\": \"0.2.0\",\n    \"configurations\": [\n        {\n            \"name\": \"Debug\",\n            \"type\": \"cppdbg\",\n            \"request\": \"launch\",\n            \"program\": \"${workspaceFolder}/build/debug/";

/// The launch settings after the name of the program.
pub const LAUNCH_TAIL: &'static str =
    "\",\n            \"args\": [],\n            \"stopAtEntry\": false,\n            \"cwd\": \"${workspaceFolder}\",\n            \"environment\": [],\n            \"externalConsole\": false,\n            \"MIMode\": \"gdb\",\n            \"preLaunchTask\": \"build\",\n            \"setupCommands\": [\n                {\n                    \"description\": \"Enable pretty-printing for gdb\",\n                    \"text\": \"-enable-pretty-printing\",\n                    \"ignoreFailures\": true\n                }\n            ]\n        }\n    ]\n}";

/// A directory of the search path, and what was found in it of the
/// project's compiler.
#[derive(Debug)]
pub struct PathEntry {
    pub dir: String,
    /// Whether the directory holds a file with the compiler's name and `.exe`.
    pub has_exe: bool,
    /// Whether the directory holds a file with the compiler's name.
    pub has_plain: bool,
}

/// What a `PathEntry` holds, as text.
pub struct PathEntryView {
    pub dir: Seq<char>,
    pub has_exe: bool,
    pub has_plain: bool,
}

impl View for PathEntry {
    type V = PathEntryView;

    open spec fn view(&self) -> PathEntryView {
        PathEntryView { dir: self.dir@, has_exe: self.has_exe, has_plain: self.has_plain }
    }
}

/// The views of a sequence of path entries, in order.
pub open spec fn path_view(entries: Seq<PathEntry>) -> Seq<PathEntryView> {
    entries.map_values(|e: PathEntry| e@)
}

/// Why the compiler was not found.
#[derive(Clone, Copy, Debug, PartialEq, Eq, Structural)]
pub enum EditorError {
    /// There is no search path.
    NoSearchPath,
    /// No directory of the search path holds the compiler.
    CompilerNotFound,
}

impl EditorError {
    /// The message that tells the user of the failure.
    pub open spec fn text(self) -> Seq<char> {
        match self {
            EditorError::NoSearchPath => "Cannot find PATH environment variable"@,
            EditorError::CompilerNotFound =>
                "Cannot find compiler in PATH. Did you add the compiler's directory to the PATH?"@,
        }
    }

    /// The message that tells the user of the failure.
    pub fn message(&self) -> (r: &'static str)
        ensures
            r@ == self.text(),
    {
        match self {
            EditorError::NoSearchPath => "Cannot find PATH environment variable",
            EditorError::CompilerNotFound =>
                "Cannot find compiler in PATH. Did you add the compiler's directory to the PATH?",
        }
    }
}

/// Whether `entry` holds the compiler as the host names it: with `.exe` on
/// Windows, without it on a host of the Unix family.
pub open spec fn holds_compiler(entry: PathEntryView, os: Seq<char>, unix: bool) -> bool {
    (entry.has_exe && os == "windows"@) || (entry.has_plain && unix)
}

/// The last directory of the search path that holds the compiler; empty
/// if none does.
pub open spec fn compiler_dir(entries: Seq<PathEntryView>, os: Seq<char>, unix: bool) -> Seq<char>
    decreases entries.len(),
{
    if entries.len() == 0 {
        Seq::empty()
    } else if holds_compiler(entries.last(), os, unix) {
        entries.last().dir
    } else {
        compiler_dir(entries.drop_last(), os, unix)
    }
}

/// Where the compiler is, given what was found along the search path.
pub open spec fn compiler_path(
    entries: Option<Seq<PathEntryView>>,
    os: Seq<char>,
    unix: bool,
) -> Result<Seq<char>, EditorError> {
    match entries {
        None => Err(EditorError::NoSearchPath),
        Some(entries) => if compiler_dir(entries, os, unix).len() == 0 {
            Err(EditorError::CompilerNotFound)
        } else {
            Ok(compiler_dir(entries, os, unix))
        },
    }
}

/// An editor for which settings can be written.
pub trait Editor<T> {
    /// The directory in which the compiler is, given what was found of it
    /// in each directory of the search path, or `None` where there is no
    /// search path, on the host named `os`, which is of the Unix family or not.
    fn get_compiler_path(entries: &Option<Vec<PathEntry>>, os: &str, unix: bool) -> (r: Result<
        String,
        EditorError,
    >)
        ensures
            match r {
                Ok(dir) => compiler_path(
                    match entries {
                        Some(e) => Some(path_view(e@)),
                        None => None,
                    },
                    os@,
                    unix,
                ) == Ok::<Seq<char>, EditorError>(dir@),
                Err(e) => compiler_path(
                    match entries {
                        Some(e) => Some(path_view(e@)),
                        None => None,
                    },
                    os@,
                    unix,
                ) == Err::<Seq<char>, EditorError>(e),
            },
    {
        let entries = match entries {
            None => {
                return Err(EditorError::NoSearchPath);
            },
            Some(entries) => entries,
        };
        let windows = text_eq(os, "windows");
        let mut found = String::new();
        let mut i: usize = 0;
        assert(path_view(entries@).take(0) == Seq::<PathEntryView>::empty());
        while i < entries.len()
            invariant
                i <= entries.len(),
                windows == (os@ == "windows"@),
                found@ == compiler_dir(path_view(entries@).take(i as int), os@, unix),
            decreases entries.len() - i,
        {
            proof {
                assert(path_view(entries@).take(i + 1).drop_last() == path_view(entries@).take(
                    i as int,
                ));
                assert(path_view(entries@).take(i + 1).last() == entries@[i as int]@);
            }
            if (entries[i].has_exe && windows) || (entries[i].has_plain && unix) {
                found = entries[i].dir.clone();
            }
            i += 1;
        }
        assert(path_view(entries@).take(entries.len() as int) == path_view(entries@));
        if found.as_str().is_empty() {
            Err(EditorError::CompilerNotFound)
        } else {
            Ok(found)
        }
    }

    /// The directory of the editor's settings.
    spec fn config_dir(&self) -> Seq<char>;

    /// The directory of the editor's settings.
    fn get_config_dir(&self) -> (r: String)
        ensures
            r@ == self.config_dir(),
    ;

    /// The editor's settings.
    fn get_config(&self) -> T;
}

/// The settings for ccls.
#[derive(Debug)]
pub struct CCLS {
    pub config_dir: String,
    pub config: String,
}

impl CCLS {
    pub fn new() -> (r: Self)
        ensures
            r.config_dir@.len() == 0,
            r.config@.len() == 0,
    {
        Self { config_dir: String::new(), config: String::new() }
    }
}

impl Editor<String> for CCLS {
    open spec fn config_dir(&self) -> Seq<char> {
        self.config_dir@
    }

    fn get_config_dir(&self) -> (r: String) {
        self.config_dir.clone()
    }

    fn get_config(&self) -> (r: String)
        ensures
            r@ == self.config@,
    {
        self.config.clone()
    }
}

/// The settings files for Visual Studio Code.
#[derive(Debug)]
pub struct VscConfigs {
    pub c_cpp_properties: String,
    pub tasks: String,
    pub launch: String,
}

/// What a `VscConfigs` holds, as text.
pub struct VscConfigsView {
    pub c_cpp_properties: Seq<char>,
    pub tasks: Seq<char>,
    pub launch: Seq<char>,
}

impl View for VscConfigs {
    type V = VscConfigsView;

    open spec fn view(&self) -> VscConfigsView {
        VscConfigsView {
            c_cpp_properties: self.c_cpp_properties@,
            tasks: self.tasks@,
            launch: self.launch@,
        }
    }
}

/// The settings for Visual Studio Code.
#[derive(Debug)]
pub struct VsCode {
    pub config_dir: String,
    pub configs: VscConfigs,
}

/// The compiler after which the code analysis is named: `gcc` for `g++`,
/// else the compiler's command.
pub open spec fn analysis_mode(command: Seq<char>) -> Seq<char> {
    if command == "g++"@ {
        "gcc"@
    } else {
        command
    }
}

/// The properties for the C and C++ extension: a configuration named
/// after the host, with the path of the project's compiler in the
/// directory `compiler_dir`.
pub open spec fn properties_text(
    project: ProjectView,
    os: Seq<char>,
    compiler_dir: Seq<char>,
) -> Seq<char> {
    PROPERTIES_HEAD@ + os + PROPERTIES_AFTER_NAME@ + compiler_dir + "/"@
        + project.compiler_command() + PROPERTIES_AFTER_PATH@ + analysis_mode(
        project.compiler_command(),
    ) + PROPERTIES_TAIL@
}

/// The launch settings: the program is the project's debug executable,
/// which on Windows ends in `.exe`.
pub open spec fn launch_text(project: ProjectView, os: Seq<char>) -> Seq<char> {
    LAUNCH_HEAD@ + project.name + (if os == "windows"@ {
        ".exe"@
    } else {
        Seq::empty()
    }) + LAUNCH_TAIL@
}

impl VsCode {
    /// The settings for `project` on the host named `os`, where the
    /// project's compiler is in the directory `compiler_dir`.
    pub fn new(project: &Project, os: &str, compiler_dir: &str) -> (r: Self)
        ensures
            r.config_dir@ == inside(project@.name, ".vscode"@),
            r.configs@ == (VscConfigsView {
                c_cpp_properties: properties_text(project@, os@, compiler_dir@),
                tasks: TASKS@,
                launch: launch_text(project@, os@),
            }),
    {
        Self {
            config_dir: path_inside(project.get_name().as_str(), ".vscode"),
            configs: VscConfigs {
                c_cpp_properties: String::new(),
                tasks: String::new(),
                launch: String::new(),
            },
        }.init(project, os, compiler_dir)
    }

    fn init(self, project: &Project, os: &str, compiler_dir: &str) -> (r: Self)
        ensures
            r.config_dir == self.config_dir,
            r.configs@ == (VscConfigsView {
                c_cpp_properties: properties_text(project@, os@, compiler_dir@),
                tasks: TASKS@,
                launch: launch_text(project@, os@),
            }),
    {
        let language = *project.get_language();
        let command = project.get_compiler().get_compiler_command(&language);
        let mode = if text_eq(command.as_str(), "g++") {
            "gcc".to_owned()
        } else {
            command.clone()
        };
        let mut properties = PROPERTIES_HEAD.to_owned();
        properties.append(os);
        properties.append(PROPERTIES_AFTER_NAME);
        properties.append(compiler_dir);
        properties.append("/");
        properties.append(command.as_str());
        properties.append(PROPERTIES_AFTER_PATH);
        properties.append(mode.as_str());
        properties.append(PROPERTIES_TAIL);
        let mut launch = LAUNCH_HEAD.to_owned();
        launch.append(project.get_name().as_str());
        if text_eq(os, "windows") {
            launch.append(".exe");
        }
        launch.append(LAUNCH_TAIL);
        proof {
            assert(project@.name + Seq::<char>::empty() == project@.name);
        }
        Self {
            config_dir: self.config_dir,
            configs: VscConfigs { c_cpp_properties: properties, tasks: TASKS.to_owned(), launch },
        }
    }
}

impl Editor<VscConfigs> for VsCode {
    open spec fn config_dir(&self) -> Seq<char> {
        self.config_dir@
    }

    fn get_config_dir(&self) -> (r: String) {
        self.config_dir.clone()
    }

    fn get_config(&self) -> (r: VscConfigs)
        ensures
            r@ == self.configs@,
    {
        VscConfigs {
            c_cpp_properties: self.configs.c_cpp_properties.clone(),
            tasks: self.configs.tasks.clone(),
            launch: self.configs.launch.clone(),
        }
    }
}

} // verus!
