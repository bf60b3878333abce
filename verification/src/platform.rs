//! Per-platform overrides of a project's libraries and compiler.

use crate::compiler::{Compiler, CompilerOptionsView, CompilerView};
use crate::language::Language;
use crate::text::{clone_strings, lemma_texts_push, text_eq, texts, to_chars};
use vstd::prelude::*;
use vstd::string::*;

verus! {

/// What a build has to know of the machine it runs on.
#[derive(Debug)]
pub struct Host {
    /// The name of the operating system: `linux`, `osx`, `windows`, or another.
    pub os: String,
    /// What the names of executables end in: `.exe`, or nothing.
    pub exe_suffix: String,
}

/// The upper-case form of an ASCII lower-case letter; any other character unchanged.
pub open spec fn upper_ascii(c: char) -> char {
    if 'a' <= c <= 'z' {
        ((c as u8 - 32) as u8) as char
    } else {
        c
    }
}

/// `s` with its first character in upper case, if that is an ASCII letter.
pub open spec fn capitalized(s: Seq<char>) -> Seq<char> {
    if s.len() == 0 {
        s
    } else {
        seq![upper_ascii(s[0])] + s.drop_first()
    }
}

/// What overrides the project's settings on one platform.
#[derive(Debug)]
pub struct PlatformOptions {
    pub platform_name: String,
    pub libraries: Vec<String>,
    pub library_directories: Vec<String>,
    pub compiler: Compiler,
}

/// What a `PlatformOptions` holds, as text.
pub struct PlatformOptionsView {
    pub platform_name: Seq<char>,
    pub libraries: Seq<Seq<char>>,
    pub library_directories: Seq<Seq<char>>,
    pub compiler: CompilerView,
}

impl View for PlatformOptions {
    type V = PlatformOptionsView;

    open spec fn view(&self) -> PlatformOptionsView {
        PlatformOptionsView {
            platform_name: self.platform_name@,
            libraries: texts(self.libraries@),
            library_directories: texts(self.library_directories@),
            compiler: self.compiler@,
        }
    }
}

impl Clone for PlatformOptions {
    fn clone(&self) -> (r: Self)
        ensures
            r@ == self@,
    {
        PlatformOptions {
            platform_name: self.platform_name.clone(),
            libraries: clone_strings(&self.libraries),
            library_directories: clone_strings(&self.library_directories),
            compiler: self.compiler.clone(),
        }
    }
}

fn capitalize(s: &str) -> (r: String)
    ensures
        r@ == capitalized(s@),
{
    let chars = to_chars(s);
    if chars.len() == 0 {
        return String::new();
    }
    let first = chars[0];
    if 'a' <= first && first <= 'z' {
        let k: usize = (first as u32 - 'a' as u32) as usize;
        let upper = "ABCDEFGHIJKLMNOPQRSTUVWXYZ";
        proof {
            reveal_strlit("ABCDEFGHIJKLMNOPQRSTUVWXYZ");
            assert(upper@.subrange(k as int, k + 1) == seq![upper_ascii(first)]);
        }
        let mut out = upper.substring_char(k, k + 1).to_owned();
        out.append(s.substring_char(1, chars.len()));
        assert(s@.subrange(1, s@.len() as int) == s@.drop_first());
        out
    } else {
        assert(seq![first] + s@.drop_first() == s@);
        s.to_owned()
    }
}

impl PlatformOptions {
    /// The override that a host named `os` starts with: named after the host,
    /// first letter in upper case, with no libraries and the initial compilers.
    pub open spec fn initial(os: Seq<char>) -> PlatformOptionsView {
        PlatformOptionsView {
            platform_name: capitalized(os),
            libraries: Seq::empty(),
            library_directories: Seq::empty(),
            compiler: CompilerView::initial(),
        }
    }

    /// The override that a host named `os` starts with.
    pub fn for_host(os: &str) -> (r: Self)
        ensures
            r@ == Self::initial(os@),
    {
        let r = PlatformOptions {
            platform_name: capitalize(os),
            libraries: Vec::new(),
            library_directories: Vec::new(),
            compiler: Compiler::default(),
        };
        assert(texts(r.libraries@) =~= Seq::empty());
        assert(texts(r.library_directories@) =~= Seq::empty());
        r
    }

    pub fn get_compiler(&self) -> (r: &Compiler)
        ensures
            *r == self.compiler,
    {
        &self.compiler
    }

    pub fn get_compiler_mut(&mut self) -> (r: &mut Compiler)
        ensures
            *r == old(self).compiler,
            *final(self) == (PlatformOptions { compiler: *final(r), ..*old(self) }),
    {
        &mut self.compiler
    }

    pub fn get_libraries(&self) -> (r: &Vec<String>)
        ensures
            *r == self.libraries,
    {
        &self.libraries
    }

    pub fn get_library_dirs(&self) -> (r: &Vec<String>)
        ensures
            *r == self.library_directories,
    {
        &self.library_directories
    }

    pub fn add_library(&mut self, lib_path: String)
        ensures
            final(self)@ == (PlatformOptionsView {
                libraries: old(self)@.libraries.push(lib_path@),
                ..old(self)@
            }),
    {
        proof {
            lemma_texts_push(self.libraries@, lib_path);
        }
        self.libraries.push(lib_path);
    }

    pub fn add_library_directories(&mut self, lib_dir: String)
        ensures
            final(self)@ == (PlatformOptionsView {
                library_directories: old(self)@.library_directories.push(lib_dir@),
                ..old(self)@
            }),
    {
        proof {
            lemma_texts_push(self.library_directories@, lib_dir);
        }
        self.library_directories.push(lib_dir);
    }

    pub fn set_compiler(&mut self, language: Language, compiler_command: String)
        ensures
            final(self)@ == (PlatformOptionsView {
                compiler: old(self)@.compiler.with_options(
                    language,
                    CompilerOptionsView {
                        command: compiler_command@,
                        ..old(self)@.compiler.options(language)
                    },
                ),
                ..old(self)@
            }),
    {
        self.compiler.set_compiler_command(language, compiler_command);
    }
}

/// The overrides of a project, one for each platform that can have one.
#[derive(Debug)]
pub struct Platforms {
    pub linux: Option<PlatformOptions>,
    pub bsd: Option<PlatformOptions>,
    pub osx: Option<PlatformOptions>,
    pub windows: Option<PlatformOptions>,
}

/// The view of an optional override.
pub open spec fn option_view(o: Option<PlatformOptions>) -> Option<PlatformOptionsView> {
    match o {
        Some(p) => Some(p@),
        None => None,
    }
}

/// What a `Platforms` holds, as text.
pub struct PlatformsView {
    pub linux: Option<PlatformOptionsView>,
    pub bsd: Option<PlatformOptionsView>,
    pub osx: Option<PlatformOptionsView>,
    pub windows: Option<PlatformOptionsView>,
}

/// Whether a host of this name can have an override: `linux`, `osx` or `windows`.
pub open spec fn supported_os(os: Seq<char>) -> bool {
    os == "linux"@ || os == "osx"@ || os == "windows"@
}

impl PlatformsView {
    /// The override for the host named `os`, if the host can have one and has one.
    pub open spec fn for_os(self, os: Seq<char>) -> Option<PlatformOptionsView> {
        if os == "linux"@ {
            self.linux
        } else if os == "osx"@ {
            self.osx
        } else if os == "windows"@ {
            self.windows
        } else {
            None
        }
    }

    /// No override for any platform.
    pub open spec fn none() -> Self {
        PlatformsView { linux: None, bsd: None, osx: None, windows: None }
    }
}

impl View for Platforms {
    type V = PlatformsView;

    open spec fn view(&self) -> PlatformsView {
        PlatformsView {
            linux: option_view(self.linux),
            bsd: option_view(self.bsd),
            osx: option_view(self.osx),
            windows: option_view(self.windows),
        }
    }
}

fn clone_override(o: &Option<PlatformOptions>) -> (r: Option<PlatformOptions>)
    ensures
        option_view(r) == option_view(*o),
{
    match o {
        Some(p) => Some(p.clone()),
        None => None,
    }
}

impl Clone for Platforms {
    fn clone(&self) -> (r: Self)
        ensures
            r@ == self@,
    {
        Platforms {
            linux: clone_override(&self.linux),
            bsd: clone_override(&self.bsd),
            osx: clone_override(&self.osx),
            windows: clone_override(&self.windows),
        }
    }
}

/// Whether a host of this name can have an override.
pub fn is_supported_os(os: &str) -> (r: bool)
    ensures
        r == supported_os(os@),
{
    text_eq(os, "linux") || text_eq(os, "osx") || text_eq(os, "windows")
}

impl Platforms {
    /// The override for the host named `os`, if the host can have one and has one.
    pub fn for_os(&self, os: &str) -> (r: &Option<PlatformOptions>)
        ensures
            option_view(*r) == self@.for_os(os@),
    {
        if text_eq(os, "linux") {
            &self.linux
        } else if text_eq(os, "osx") {
            &self.osx
        } else if text_eq(os, "windows") {
            &self.windows
        } else {
            &None
        }
    }
}

impl Default for Platforms {
    fn default() -> (r: Self)
        ensures
            r@ == PlatformsView::none(),
    {
        Self { linux: None, bsd: None, osx: None, windows: None }
    }
}

} // verus!
