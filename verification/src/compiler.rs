//! Compiler configuration: for each language, the command to run and the
//! flags to hand to it.

use crate::language::Language;
use crate::text::{clone_strings, texts};
use vstd::prelude::*;

verus! {

/// The command and the flags configured for one language.
#[derive(Debug)]
pub struct CompilerOptions {
    pub command: String,
    pub flags: Vec<String>,
}

/// What a `CompilerOptions` holds, as text.
pub struct CompilerOptionsView {
    pub command: Seq<char>,
    pub flags: Seq<Seq<char>>,
}

impl View for CompilerOptions {
    type V = CompilerOptionsView;

    open spec fn view(&self) -> CompilerOptionsView {
        CompilerOptionsView { command: self.command@, flags: texts(self.flags@) }
    }
}

impl Clone for CompilerOptions {
    fn clone(&self) -> (r: Self)
        ensures
            r@ == self@,
    {
        CompilerOptions { command: self.command.clone(), flags: clone_strings(&self.flags) }
    }
}

/// The compiler configuration of a project or of a platform override.
#[derive(Debug)]
pub struct Compiler {
    pub c: CompilerOptions,
    pub cxx: CompilerOptions,
}

/// What a `Compiler` holds, as text.
pub struct CompilerView {
    pub c: CompilerOptionsView,
    pub cxx: CompilerOptionsView,
}

impl CompilerView {
    /// The options configured for `lang`.
    pub open spec fn options(self, lang: Language) -> CompilerOptionsView {
        match lang {
            Language::C => self.c,
            Language::CXX => self.cxx,
        }
    }

    /// `self` with `options` in place of those configured for `lang`.
    pub open spec fn with_options(self, lang: Language, options: CompilerOptionsView) -> Self {
        match lang {
            Language::C => CompilerView { c: options, ..self },
            Language::CXX => CompilerView { cxx: options, ..self },
        }
    }

    /// The configuration a fresh project starts with: `gcc` for C, `g++` for
    /// C++, and no flags for either.
    pub open spec fn initial() -> Self {
        CompilerView {
            c: CompilerOptionsView { command: "gcc"@, flags: Seq::empty() },
            cxx: CompilerOptionsView { command: "g++"@, flags: Seq::empty() },
        }
    }
}

impl View for Compiler {
    type V = CompilerView;

    open spec fn view(&self) -> CompilerView {
        CompilerView { c: self.c@, cxx: self.cxx@ }
    }
}

impl Clone for Compiler {
    fn clone(&self) -> (r: Self)
        ensures
            r@ == self@,
    {
        Compiler { c: self.c.clone(), cxx: self.cxx.clone() }
    }
}

impl Compiler {
    pub fn new() -> (r: Self)
        ensures
            r@ == CompilerView::initial(),
    {
        let r = Self {
            cxx: CompilerOptions { command: "g++".to_owned(), flags: Vec::new() },
            c: CompilerOptions { command: "gcc".to_owned(), flags: Vec::new() },
        };
        assert(texts(r.c.flags@) =~= Seq::empty());
        assert(texts(r.cxx.flags@) =~= Seq::empty());
        r
    }

    pub fn get_compiler_command(&self, lang: &Language) -> (r: &String)
        ensures
            r@ == self@.options(*lang).command,
    {
        match lang {
            Language::C => &self.c.command,
            Language::CXX => &self.cxx.command,
        }
    }

    pub fn set_compiler_command(&mut self, lang: Language, compiler_command: String)
        ensures
            final(self)@ == old(self)@.with_options(
                lang,
                CompilerOptionsView { command: compiler_command@, ..old(self)@.options(lang) },
            ),
    {
        match lang {
            Language::C => self.c.command = compiler_command,
            Language::CXX => self.cxx.command = compiler_command,
        }
    }

    pub fn get_compiler_flags(&self, lang: &Language) -> (r: &Vec<String>)
        ensures
            texts(r@) == self@.options(*lang).flags,
    {
        match lang {
            Language::C => &self.c.flags,
            Language::CXX => &self.cxx.flags,
        }
    }

    pub fn set_compiler_flags(&mut self, lang: Language, flags: Vec<String>)
        ensures
            final(self)@ == old(self)@.with_options(
                lang,
                CompilerOptionsView { flags: texts(flags@), ..old(self)@.options(lang) },
            ),
    {
        match lang {
            Language::C => self.c.flags = flags,
            Language::CXX => self.cxx.flags = flags,
        }
    }
}

impl Default for Compiler {
    fn default() -> (r: Self)
        ensures
            r@ == CompilerView::initial(),
    {
        Self::new()
    }
}

/// A configuration from a pair of options: those for C++ first, those for C second.
impl From<[CompilerOptions; 2]> for Compiler {
    fn from(co: [CompilerOptions; 2]) -> (r: Self)
        ensures
            r@ == (CompilerView { cxx: co[0]@, c: co[1]@ }),
    {
        Self { cxx: co[0].clone(), c: co[1].clone() }
    }
}

impl vstd::std_specs::convert::FromSpecImpl<[CompilerOptions; 2]> for Compiler {
    /// The conversion copies its argument, so its result is stated up to the
    /// view and not as a value.
    open spec fn obeys_from_spec() -> bool {
        false
    }

    open spec fn from_spec(co: [CompilerOptions; 2]) -> Self {
        Compiler { cxx: co[0], c: co[1] }
    }
}

} // verus!
