//! The languages a project can be written in.

use vstd::prelude::*;

verus! {

/// The source language of a project or of a standalone binary.
#[derive(Clone, Copy, Debug, PartialEq, Eq, Hash, Structural)]
pub enum Language {
    C,
    CXX,
}

impl Language {
    /// The key under which the language is configured: `C` or `CXX`.
    pub open spec fn key(self) -> Seq<char> {
        match self {
            Language::C => "C"@,
            Language::CXX => "CXX"@,
        }
    }

    /// The file extension of the language's sources, without the dot.
    pub open spec fn extension(self) -> Seq<char> {
        match self {
            Language::C => "c"@,
            Language::CXX => "cpp"@,
        }
    }

    /// The language's name as it is shown to the user: `C` or `C++`.
    pub open spec fn shown(self) -> Seq<char> {
        match self {
            Language::C => "C"@,
            Language::CXX => "C++"@,
        }
    }

    pub fn as_string(&self) -> (r: String)
        ensures
            r@ == self.key(),
    {
        match self {
            Language::C => "C".to_owned(),
            Language::CXX => "CXX".to_owned(),
        }
    }

    pub fn get_extension(&self) -> (r: String)
        ensures
            r@ == self.extension(),
    {
        match self {
            Language::C => "c".to_owned(),
            Language::CXX => "cpp".to_owned(),
        }
    }

    /// The language's name as it is shown to the user.
    pub fn display(&self) -> (r: String)
        ensures
            r@ == self.shown(),
    {
        match self {
            Language::C => "C".to_owned(),
            Language::CXX => "C++".to_owned(),
        }
    }
}

} // verus!
