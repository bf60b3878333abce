//! The arguments of the build command.
//!
//! `-d`, `--debug` and `-r`, `--release` choose the mode; `--bin` names a
//! standalone binary, or `all` of them; `-v`, `--verbose` makes the compiler
//! verbose; `-f`, `--flags` hands all that follows it to the compiler;
//! `--help` asks for the usage text.

use crate::error::{Error, ErrorView};
use crate::flags::BuildMode;
use crate::text::{clone_strings, join_from, joined, lemma_texts_push, text_eq, texts};
use vstd::prelude::*;

verus! {

/// What the arguments of a build ask for.
#[derive(Debug)]
pub struct BuildOptions {
    pub mode: BuildMode,
    pub verbose: bool,
    /// The flags for the compiler, joined by spaces; empty where none were given.
    pub flags: String,
    /// The names that followed `--bin`, in the order given.
    pub bins: Vec<String>,
}

/// What a `BuildOptions` holds, as text.
pub struct BuildOptionsView {
    pub mode: BuildMode,
    pub verbose: bool,
    pub flags: Seq<char>,
    pub bins: Seq<Seq<char>>,
}

impl BuildOptionsView {
    /// What a build is asked for when it is given no argument: a debug build
    /// of the project, not verbose, with no further flags.
    pub open spec fn initial() -> Self {
        BuildOptionsView {
            mode: BuildMode::Debug,
            verbose: false,
            flags: Seq::empty(),
            bins: Seq::empty(),
        }
    }
}

impl View for BuildOptions {
    type V = BuildOptionsView;

    open spec fn view(&self) -> BuildOptionsView {
        BuildOptionsView {
            mode: self.mode,
            verbose: self.verbose,
            flags: self.flags@,
            bins: texts(self.bins@),
        }
    }
}

impl Clone for BuildOptions {
    fn clone(&self) -> (r: Self)
        ensures
            r@ == self@,
    {
        BuildOptions {
            mode: self.mode,
            verbose: self.verbose,
            flags: self.flags.clone(),
            bins: clone_strings(&self.bins),
        }
    }
}

impl Default for BuildOptions {
    fn default() -> (r: Self)
        ensures
            r@ == BuildOptionsView::initial(),
    {
        let r = BuildOptions {
            mode: BuildMode::Debug,
            verbose: false,
            flags: String::new(),
            bins: Vec::new(),
        };
        assert(texts(r.bins@) =~= Seq::empty());
        r
    }
}

/// What the build command is to do: show its usage, or build.
#[derive(Debug)]
pub enum BuildRequest {
    Help,
    Build(BuildOptions),
}

/// What a `BuildRequest` holds, as text.
pub enum BuildRequestView {
    Help,
    Build(BuildOptionsView),
}

impl View for BuildRequest {
    type V = BuildRequestView;

    open spec fn view(&self) -> BuildRequestView {
        match self {
            BuildRequest::Help => BuildRequestView::Help,
            BuildRequest::Build(options) => BuildRequestView::Build(options@),
        }
    }
}

/// What the arguments from position `i` on ask for, given that those before
/// it have asked for `so_far`. The arguments are read from left to right:
/// `--help` ends the reading, and so does a `--bin` that nothing follows.
/// A later choice of mode or of flags replaces an earlier one. The argument
/// after `--bin` is the name of a binary, and is then read as an argument
/// in its own right; so are the arguments after `-f`.
pub open spec fn parsed_from(args: Seq<Seq<char>>, i: int, so_far: BuildOptionsView) -> Result<
    BuildRequestView,
    ErrorView,
>
    decreases args.len() - i,
{
    if i < 0 || i >= args.len() {
        Ok(BuildRequestView::Build(so_far))
    } else if args[i] == "--help"@ {
        Ok(BuildRequestView::Help)
    } else if args[i] == "-r"@ || args[i] == "--release"@ {
        parsed_from(args, i + 1, BuildOptionsView { mode: BuildMode::Release, ..so_far })
    } else if args[i] == "-d"@ || args[i] == "--debug"@ {
        parsed_from(args, i + 1, BuildOptionsView { mode: BuildMode::Debug, ..so_far })
    } else if args[i] == "--bin"@ {
        if i + 1 < args.len() {
            parsed_from(
                args,
                i + 1,
                BuildOptionsView { bins: so_far.bins.push(args[i + 1]), ..so_far },
            )
        } else {
            Err(ErrorView::MissingBinName)
        }
    } else if args[i] == "-v"@ || args[i] == "--verbose"@ {
        parsed_from(args, i + 1, BuildOptionsView { verbose: true, ..so_far })
    } else if args[i] == "-f"@ || args[i] == "--flags"@ {
        parsed_from(
            args,
            i + 1,
            BuildOptionsView { flags: joined(args.skip(i + 1), " "@), ..so_far },
        )
    } else {
        parsed_from(args, i + 1, so_far)
    }
}

/// What the arguments of a build ask for.
pub open spec fn parsed(args: Seq<Seq<char>>) -> Result<BuildRequestView, ErrorView> {
    parsed_from(args, 0, BuildOptionsView::initial())
}

/// The view of the outcome of reading the arguments.
pub open spec fn request_result(r: Result<BuildRequest, Error>) -> Result<
    BuildRequestView,
    ErrorView,
> {
    match r {
        Ok(request) => Ok(request@),
        Err(e) => Err(e@),
    }
}

/// Reads the arguments of a build.
pub fn parse_build_args(args: &Vec<String>) -> (r: Result<BuildRequest, Error>)
    ensures
        request_result(r) == parsed(texts(args@)),
{
    let mut options = BuildOptions::default();
    let mut i: usize = 0;
    while i < args.len()
        invariant
            i <= args.len(),
            parsed(texts(args@)) == parsed_from(texts(args@), i as int, options@),
        decreases args.len() - i,
    {
        let arg = args[i].as_str();
        assert(texts(args@)[i as int] == arg@);
        if text_eq(arg, "--help") {
            return Ok(BuildRequest::Help);
        } else if text_eq(arg, "-r") || text_eq(arg, "--release") {
            options.mode = BuildMode::Release;
        } else if text_eq(arg, "-d") || text_eq(arg, "--debug") {
            options.mode = BuildMode::Debug;
        } else if text_eq(arg, "--bin") {
            if i + 1 < args.len() {
                let name = args[i + 1].clone();
                proof {
                    lemma_texts_push(options.bins@, name);
                    assert(texts(args@)[i + 1] == name@);
                }
                options.bins.push(name);
            } else {
                return Err(Error::MissingBinName);
            }
        } else if text_eq(arg, "-v") || text_eq(arg, "--verbose") {
            options.verbose = true;
        } else if text_eq(arg, "-f") || text_eq(arg, "--flags") {
            options.flags = join_from(args, i + 1, " ");
        }
        i += 1;
    }
    Ok(BuildRequest::Build(options))
}

} // verus!
