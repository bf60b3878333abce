//! The description of a project: its name and language, its directories,
//! libraries and compilers, its platform overrides and its standalone binaries.

use crate::compiler::{Compiler, CompilerOptionsView, CompilerView};
use crate::language::Language;
use crate::platform::{option_view, PlatformOptions, Platforms, PlatformsView};
use crate::text::{clone_strings, lemma_texts_push, texts};
use vstd::prelude::*;

verus! {

/// The directories of a project: where its sources lie, where object files
/// are kept, and where executables are put.
#[derive(Debug)]
pub struct DirectoryHashMap {
    pub build_dir: String,
    pub object_dir: String,
    pub source_dir: String,
}

/// What a `DirectoryHashMap` holds, as text.
pub struct DirectoriesView {
    pub build_dir: Seq<char>,
    pub object_dir: Seq<char>,
    pub source_dir: Seq<char>,
}

impl DirectoriesView {
    /// The directories a fresh project starts with.
    pub open spec fn initial() -> Self {
        DirectoriesView { build_dir: "./build"@, object_dir: "./obj"@, source_dir: "./src"@ }
    }

    /// All three directories: build, object, source.
    pub open spec fn all(self) -> Seq<Seq<char>> {
        seq![self.build_dir, self.object_dir, self.source_dir]
    }
}

impl View for DirectoryHashMap {
    type V = DirectoriesView;

    open spec fn view(&self) -> DirectoriesView {
        DirectoriesView {
            build_dir: self.build_dir@,
            object_dir: self.object_dir@,
            source_dir: self.source_dir@,
        }
    }
}

impl Clone for DirectoryHashMap {
    fn clone(&self) -> (r: Self)
        ensures
            r@ == self@,
    {
        DirectoryHashMap {
            build_dir: self.build_dir.clone(),
            object_dir: self.object_dir.clone(),
            source_dir: self.source_dir.clone(),
        }
    }
}

impl DirectoryHashMap {
    pub fn new() -> (r: Self)
        ensures
            r@ == DirectoriesView::initial(),
    {
        Self {
            build_dir: "./build".to_owned(),
            object_dir: "./obj".to_owned(),
            source_dir: "./src".to_owned(),
        }
    }

    /// All three directories, in the order build, object, source.
    pub fn get_all_dirs(&self) -> (r: Vec<String>)
        ensures
            texts(r@) == self@.all(),
    {
        let mut r: Vec<String> = Vec::new();
        r.push(self.build_dir.clone());
        r.push(self.object_dir.clone());
        r.push(self.source_dir.clone());
        assert(texts(r@) =~= self@.all());
        r
    }

    pub fn get_build_dir(&self) -> (r: &String)
        ensures
            r@ == self@.build_dir,
    {
        &self.build_dir
    }

    pub fn get_objects_dir(&self) -> (r: &String)
        ensures
            r@ == self@.object_dir,
    {
        &self.object_dir
    }

    pub fn get_source_dir(&self) -> (r: &String)
        ensures
            r@ == self@.source_dir,
    {
        &self.source_dir
    }

    pub fn set_build_dir(&mut self, dir: String)
        ensures
            final(self)@ == (DirectoriesView { build_dir: dir@, ..old(self)@ }),
    {
        self.build_dir = dir;
    }

    pub fn set_source_dir(&mut self, dir: String)
        ensures
            final(self)@ == (DirectoriesView { source_dir: dir@, ..old(self)@ }),
    {
        self.source_dir = dir;
    }

    pub fn set_objects_dir(&mut self, dir: String)
        ensures
            final(self)@ == (DirectoriesView { object_dir: dir@, ..old(self)@ }),
    {
        self.object_dir = dir;
    }
}

/// A source file that is compiled on its own into an executable of its own.
#[derive(Debug)]
pub struct Binary {
    pub name: String,
    pub path: String,
    pub language: Language,
    pub flags: Vec<String>,
}

/// What a `Binary` holds, as text.
pub struct BinaryView {
    pub name: Seq<char>,
    pub path: Seq<char>,
    pub language: Language,
    pub flags: Seq<Seq<char>>,
}

impl View for Binary {
    type V = BinaryView;

    open spec fn view(&self) -> BinaryView {
        BinaryView {
            name: self.name@,
            path: self.path@,
            language: self.language,
            flags: texts(self.flags@),
        }
    }
}

impl Clone for Binary {
    fn clone(&self) -> (r: Self)
        ensures
            r@ == self@,
    {
        Binary {
            name: self.name.clone(),
            path: self.path.clone(),
            language: self.language,
            flags: clone_strings(&self.flags),
        }
    }
}

/// The views of a sequence of binaries, in order.
pub open spec fn binaries_view(v: Seq<Binary>) -> Seq<BinaryView> {
    v.map_values(|b: Binary| b@)
}

/// A copy of `v` that holds binaries with the same contents.
pub fn clone_binaries(v: &Vec<Binary>) -> (r: Vec<Binary>)
    ensures
        binaries_view(r@) == binaries_view(v@),
{
    let mut out: Vec<Binary> = Vec::new();
    let mut i: usize = 0;
    while i < v.len()
        invariant
            i <= v.len(),
            binaries_view(out@) == binaries_view(v@).take(i as int),
        decreases v.len() - i,
    {
        let b = v[i].clone();
        assert(binaries_view(out@.push(b)) =~= binaries_view(out@).push(b@));
        assert(binaries_view(v@).take(i as int).push(v@[i as int]@) =~= binaries_view(v@).take(
            i + 1,
        ));
        out.push(b);
        i += 1;
    }
    assert(binaries_view(v@).take(v.len() as int) == binaries_view(v@));
    out
}

/// The name, the language and the libraries of a project.
#[derive(Debug)]
pub struct Inner {
    pub name: String,
    pub language: Language,
    pub libraries: Vec<String>,
    pub library_directories: Vec<String>,
}

impl Default for Inner {
    fn default() -> (r: Self)
        ensures
            r.name@ == "Ocean Project"@,
            r.language == Language::C,
            r.libraries@.len() == 0,
            r.library_directories@.len() == 0,
    {
        Self {
            name: "Ocean Project".to_owned(),
            language: Language::C,
            libraries: Vec::new(),
            library_directories: Vec::new(),
        }
    }
}

/// A project as its description file states it.
#[derive(Debug)]
pub struct Project {
    pub project: Inner,
    pub directories: DirectoryHashMap,
    pub compiler: Compiler,
    pub platforms: Option<Platforms>,
    pub bins: Option<Vec<Binary>>,
}

/// What a `Project` holds, as text.
pub struct ProjectView {
    pub name: Seq<char>,
    pub language: Language,
    pub libraries: Seq<Seq<char>>,
    pub library_directories: Seq<Seq<char>>,
    pub directories: DirectoriesView,
    pub compiler: CompilerView,
    pub platforms: Option<PlatformsView>,
    pub bins: Option<Seq<BinaryView>>,
}

impl ProjectView {
    /// The project that is there before anything is configured.
    pub open spec fn initial() -> Self {
        ProjectView {
            name: "Ocean Project"@,
            language: Language::C,
            libraries: Seq::empty(),
            library_directories: Seq::empty(),
            directories: DirectoriesView::initial(),
            compiler: CompilerView::initial(),
            platforms: None,
            bins: None,
        }
    }

    /// The override in force on the host named `os`, if there is one.
    pub open spec fn override_for(self, os: Seq<char>) -> Option<
        crate::platform::PlatformOptionsView,
    > {
        match self.platforms {
            Some(platforms) => platforms.for_os(os),
            None => None,
        }
    }

    /// The libraries to link on the host named `os`: those of the override in
    /// force there, which replace the project's own; else the project's own.
    pub open spec fn libraries_on(self, os: Seq<char>) -> Seq<Seq<char>> {
        match self.override_for(os) {
            Some(over) => over.libraries,
            None => self.libraries,
        }
    }

    /// The directories to search for libraries on the host named `os`: those
    /// of the override in force there, which replace the project's own; else
    /// the project's own.
    pub open spec fn library_dirs_on(self, os: Seq<char>) -> Seq<Seq<char>> {
        match self.override_for(os) {
            Some(over) => over.library_directories,
            None => self.library_directories,
        }
    }

    /// The standalone binaries of the project; none where none are declared.
    pub open spec fn binaries(self) -> Seq<BinaryView> {
        match self.bins {
            Some(bins) => bins,
            None => Seq::empty(),
        }
    }

    /// The command that compiles the project's language.
    pub open spec fn compiler_command(self) -> Seq<char> {
        self.compiler.options(self.language).command
    }
}

impl View for Project {
    type V = ProjectView;

    open spec fn view(&self) -> ProjectView {
        ProjectView {
            name: self.project.name@,
            language: self.project.language,
            libraries: texts(self.project.libraries@),
            library_directories: texts(self.project.library_directories@),
            directories: self.directories@,
            compiler: self.compiler@,
            platforms: match self.platforms {
                Some(p) => Some(p@),
                None => None,
            },
            bins: match self.bins {
                Some(b) => Some(binaries_view(b@)),
                None => None,
            },
        }
    }
}

impl Project {
    pub fn get_compiler(&self) -> (r: &Compiler)
        ensures
            *r == self.compiler,
    {
        &self.compiler
    }

    pub fn get_compiler_mut(&mut self) -> (r: &mut Compiler)
        ensures
            *r == old(self).compiler,
            *final(self) == (Project { compiler: *final(r), ..*old(self) }),
    {
        &mut self.compiler
    }

    pub fn get_directories(&self) -> (r: &DirectoryHashMap)
        ensures
            *r == self.directories,
    {
        &self.directories
    }

    pub fn get_directories_mut(&mut self) -> (r: &mut DirectoryHashMap)
        ensures
            *r == old(self).directories,
            *final(self) == (Project { directories: *final(r), ..*old(self) }),
    {
        &mut self.directories
    }

    pub fn get_language(&self) -> (r: &Language)
        ensures
            *r == self@.language,
    {
        &self.project.language
    }

    /// The override in force on the host named `os`, if there is one.
    pub fn get_override(&self, os: &str) -> (r: &Option<PlatformOptions>)
        ensures
            option_view(*r) == self@.override_for(os@),
    {
        match &self.platforms {
            Some(platforms) => platforms.for_os(os),
            None => &None,
        }
    }

    /// The libraries to link on the host named `os`.
    pub fn get_libraries(&self, os: &str) -> (r: &Vec<String>)
        ensures
            texts(r@) == self@.libraries_on(os@),
    {
        match self.get_override(os) {
            Some(over) => &over.libraries,
            None => &self.project.libraries,
        }
    }

    /// The directories to search for libraries on the host named `os`.
    pub fn get_library_dirs(&self, os: &str) -> (r: &Vec<String>)
        ensures
            texts(r@) == self@.library_dirs_on(os@),
    {
        match self.get_override(os) {
            Some(over) => &over.library_directories,
            None => &self.project.library_directories,
        }
    }

    pub fn get_name(&self) -> (r: &String)
        ensures
            r@ == self@.name,
    {
        &self.project.name
    }

    pub fn get_platform(&self) -> (r: &Option<Platforms>)
        ensures
            *r == self.platforms,
    {
        &self.platforms
    }

    pub fn get_platform_mut(&mut self) -> (r: &mut Option<Platforms>)
        ensures
            *r == old(self).platforms,
            *final(self) == (Project { platforms: *final(r), ..*old(self) }),
    {
        &mut self.platforms
    }

    pub fn set_language(&mut self, lang: Language)
        ensures
            final(self)@ == (ProjectView { language: lang, ..old(self)@ }),
    {
        self.project.language = lang;
    }

    pub fn set_name(&mut self, name: String)
        ensures
            final(self)@ == (ProjectView { name: name@, ..old(self)@ }),
    {
        self.project.name = name;
    }

    pub fn add_library(&mut self, lib_path: String)
        ensures
            final(self)@ == (ProjectView {
                libraries: old(self)@.libraries.push(lib_path@),
                ..old(self)@
            }),
    {
        proof {
            lemma_texts_push(self.project.libraries@, lib_path);
        }
        self.project.libraries.push(lib_path);
    }

    pub fn add_library_directories(&mut self, lib_dir: String)
        ensures
            final(self)@ == (ProjectView {
                library_directories: old(self)@.library_directories.push(lib_dir@),
                ..old(self)@
            }),
    {
        proof {
            lemma_texts_push(self.project.library_directories@, lib_dir);
        }
        self.project.library_directories.push(lib_dir);
    }

    /// Sets the command that compiles `language`.
    pub fn set_compiler(&mut self, language: Language, compiler_command: String)
        ensures
            final(self)@ == (ProjectView {
                compiler: old(self)@.compiler.with_options(
                    language,
                    CompilerOptionsView {
                        command: compiler_command@,
                        ..old(self)@.compiler.options(language)
                    },
                ),
                ..old(self)@
            }),
    {
        self.compiler.set_compiler_command(language, compiler_command);
    }

    /// Sets the command that compiles the project's own language.
    pub fn set_current_compiler(&mut self, compiler_command: String)
        ensures
            final(self)@ == (ProjectView {
                compiler: old(self)@.compiler.with_options(
                    old(self)@.language,
                    CompilerOptionsView {
                        command: compiler_command@,
                        ..old(self)@.compiler.options(old(self)@.language)
                    },
                ),
                ..old(self)@
            }),
    {
        let language = self.project.language;
        self.compiler.set_compiler_command(language, compiler_command);
    }

    pub fn get_binaries(&self) -> (r: Vec<Binary>)
        ensures
            binaries_view(r@) == self@.binaries(),
    {
        match &self.bins {
            Some(bins) => clone_binaries(bins),
            None => {
                let r: Vec<Binary> = Vec::new();
                assert(binaries_view(r@) =~= Seq::empty());
                r
            },
        }
    }
}

impl Default for Project {
    fn default() -> (r: Self)
        ensures
            r@ == ProjectView::initial(),
    {
        let r = Self {
            project: Inner::default(),
            directories: DirectoryHashMap::new(),
            compiler: Compiler::default(),
            platforms: None,
            bins: None,
        };
        assert(texts(r.project.libraries@) =~= Seq::empty());
        assert(texts(r.project.library_directories@) =~= Seq::empty());
        r
    }
}

} // verus!
