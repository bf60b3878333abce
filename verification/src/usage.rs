//! The usage texts of the commands.

use vstd::prelude::*;

verus! {

/// The usage of the tool.
pub const USAGE: &'static str =
    "\nUsage: ocean [OPTION]\n\nCreate and manage C and C++ projects.\n\n    build           Builds the current project\n    clean           Cleans the current project's build artifacts\n    get             Returns the values set in the Ocean.toml\n    set             Sets the values in side Ocean.toml\n    help, --help    Shows this help text\n    new             Creates a new C/C++ project in a new directory\n    run             Runs the current project, builds if no build is present\n        ";

/// The usage of the build command.
pub const BUILD_USAGE: &'static str =
    "\nUsage: ocean build [OPTIONS] [-f [FLAGS]]\n\nBy default, this builds projects in debug mode.\n\nOptions:\n    -d, --debug                 Builds the current project in debug mode (this is turned on by default).\n    -r, --release               Builds the current project in release mode.\n    --bin [all, <bin_name>]     Builds a single file as a single executable.\n    -v, --verbose               Makes the compiler output verbose.\n    -f, --flags                 Passes custom flags to the compiler.\n            ";

/// The usage of the run command.
pub const RUN_USAGE: &'static str =
    "\nUsage: ocean run [OPTIONS]\n\nBy default, this run projects in debug mode.\n\nOptions:\n    -d, --debug                 Runs the current project in debug mode (this is turned on by default)\n    -r, --release               Runs the current project in release mode\n    --bin [all, <bin_name>]     Builds a single file as a single executable.\n    -v, --verbose               Makes the compiler output verbose.\n    -f, --flags                 Passes custom flags to the compiler.\n            ";

/// The usage of the command that makes a project.
pub const NEW_USAGE: &'static str =
    "\nUsage: ocean new [NAME] [OPTIONS]\n\nThis creates a new project with a generated Ocean.toml in a new directory with a specified NAME.\nOptions:\n    -C                  Creates a new C project (default).\n    -CXX                Creates a new C++ project.\n    -b, --build-dir     Sets the build directory (default is \"./build\").\n    -s, --source-dir    Sets the source directory (default is \"./src\").\n    -o, --obj-dir       Sets the objects directory (default is \"./obj\").\n    -c, --compiler      Sets the compiler for the current project (default is gcc for C and g++ for C++).\n    --ccls              Outputs a .ccls file to be used with ccls. Allows a language server to be used with an editor like Vim, for example.\n    --vscode            Outputs Visual Studio Code config files to make writing C/C++ easier.\n            ";

/// The usage of the command that sets a value.
pub const SET_USAGE: &'static str =
    "\nUsage: ocean set [KEY]\n\nThis sets values inside the Ocean project file to a value specified by the user. When provided with a platform name, it allows the user to set specific keys for a specified platform.\n\nOption:\n    build_dir [DIRECTORY]                               Sets the build directory for the project.\n    c++_compiler [COMPILER], cxx_compiler [COMPILER]    Set the compiler being used for the C++ project.\n    c_compiler [COMPILER]                               Sets the compiler being used for the C project.\n    compiler [COMPILER], current_compiler [COMPILER]    Sets the current compiler being used for the project.\n    flags [FLAGS]                                       Sets the flags of the current compiler, split by commas.\n    lang [LANG], language [LANG]                        Set the current language of the project.\n    lib_dirs [DIRS], library_directories [DIRS]         Sets the library directories that would be searched by the linker, split by commas.\n    libs [LIBS], libraries [LIBS]                       Sets the libraries being compiled with the project, split by commas.\n    name [NAME]                                         Sets the name of the project.\n    object_dir [DIRECTORY]                              Sets the object output directory.\n    source_dir [DIRECTORY]                              Sets the source code directory.\n    ";

/// The usage of the command that shows a value.
pub const GET_USAGE: &'static str =
    "\nUsage: ocean get [KEY]\n\nThis gets the current values inside the Ocean project file related to a data key entered by the user. When given a platform name, it will get specific keys for a specified platform.\n\nOption:\n    bins, binaries                  Prints the names of the individual binaries for the current project.\n    build_dir                       Prints the build directory for the current project.\n    c++_compiler, cxx_compiler      Prints the compiler being used for the C++ project.\n    c_compiler                      Prints the compiler being used for the C project.\n    compiler, current_compiler      Prints the current compiler being used for the project.\n    flags                           Prints the flags of the current compiler.\n    lang, language                  Prints the current language of the project.\n    lib_dirs, library_directories   Prints the library directories that would be searched by the linker.\n    libs, libraries                 Prints the libraries being compiled with the project.  \n    name                            Prints the name of the project.\n    object_dir                      Prints the object output directory.\n    source_dir                      Prints the source code directory.\n    ";

/// The usage of the command that sets a value for a platform.
pub const SET_PLATFORM_USAGE: &'static str =
    "\nUsage: ocean set [PLATFORM] [KEY]\n\nThis set values inside the Ocean project file to a value for a specified platform.\n\nOption:\n    c++_compiler [COMPILER], cxx_compiler [COMPILER]    Set the compiler being used for the C++ project.\n    c_compiler [COMPILER]                               Sets the compiler being used for the C project.\n    compiler [COMPILER], current_compiler [COMPILER]    Sets the current compiler being used for the project.\n    flags [FLAGS]                                       Sets the flags of the current compiler, split by commas.\n    lib_dirs [DIRS], library_directories [DIRS]         Sets the library directories that would be searched by the linker, split by commas.\n    libs [LIBS], libraries [LIBS]                       Sets the libraries being compiled with the project, split by commas.\n    ";

/// The usage of the command that shows a value of a platform.
pub const GET_PLATFORM_USAGE: &'static str =
    "\nUsage: ocean get [PLATFORM] [KEY]\n\nThis get values inside the Ocean project file to a value for a specified platform.\n\nOption:\n    c++_compiler , cxx_compiler    Get the compiler being used for the C++ project.\n    c_compiler                     Get the compiler being used for the C project.\n    compiler, current_compiler     Get the current compiler being used for the project.\n    flags                          Get the flags of the current compiler, split by commas.\n    lib_dirs, library_directories  Get the library directories that would be searched by the linker, split by commas.\n    libs, libraries                Get the libraries being compiled with the project, split by commas.\n    ";

} // verus!
