//! The submodules of a project: repositories of others, each kept in a
//! directory of its own under one common directory.

use crate::invocation::{inside, path_inside, Invocation, InvocationView};
use crate::text::{no_strings, push_string, text_eq, texts};
use vstd::prelude::*;
use vstd::string::*;

verus! {

/// Why the `url` crate could not read a text as a URL. Nothing is stated
/// of its values: a value only says that there was a failure.
#[verifier::external_type_specification]
#[verifier::external_body]
pub struct ExParseError(url::ParseError);

/// The path segments of the URL that `origin` is read as by the `url`
/// crate: `None` where `origin` is not read as a URL; `Some(None)` where it
/// is, but the URL cannot be a base and so has no path segments;
/// `Some(Some(segments))` else.
pub uninterp spec fn url_path_segments(origin: Seq<char>) -> Option<Option<Seq<Seq<char>>>>;

/// The view of what was found of the path segments of a URL.
pub open spec fn segments_view(found: Option<Vec<String>>) -> Option<Seq<Seq<char>>> {
    match found {
        Some(segments) => Some(texts(segments@)),
        None => None,
    }
}

/// The path segments of the URL that `origin` is.
///
/// Calls `url::Url::parse` and, on the URL that it gives, `Url::path_segments`,
/// whose items are copied into a vector. The contract claims that the
/// outcome is a function of the characters of `origin`, and what the
/// documentation of `path_segments` states: that where there are path
/// segments, there is at least one.
#[verifier::external_body]
fn path_segments_of(origin: &str) -> (r: Result<Option<Vec<String>>, url::ParseError>)
    ensures
        match r {
            Ok(found) => url_path_segments(origin@) == Some(segments_view(found)),
            Err(_) => url_path_segments(origin@) is None,
        },
        r matches Ok(Some(segments)) ==> segments@.len() >= 1,
{
    match url::Url::parse(origin) {
        Ok(parsed) => match parsed.path_segments() {
            Some(segments) => Ok(Some(segments.map(str::to_owned).collect())),
            None => Ok(None),
        },
        Err(e) => Err(e),
    }
}

/// Why an origin cannot name a submodule.
#[derive(Clone, Copy, Debug, PartialEq, Eq, Structural)]
pub enum SubmoduleError {
    /// The origin is not a URL.
    NotAUrl,
    /// The origin is a URL without path segments.
    NoPathSegments,
}

/// The name of the directory of the submodule that comes from `origin`: the
/// first path segment of that URL, if `origin` is a URL that has path segments.
pub open spec fn directory_of(origin: Seq<char>) -> Result<Seq<char>, SubmoduleError> {
    match url_path_segments(origin) {
        None => Err(SubmoduleError::NotAUrl),
        Some(None) => Err(SubmoduleError::NoPathSegments),
        Some(Some(segments)) => Ok(segments[0]),
    }
}

/// The name of the directory for what was found of the path segments of an
/// origin: the first segment.
pub fn first_segment(found: Option<Vec<String>>) -> (r: Result<String, SubmoduleError>)
    requires
        found matches Some(segments) ==> segments@.len() >= 1,
    ensures
        match r {
            Ok(name) => found is Some && name@ == found->Some_0@[0]@,
            Err(e) => found is None && e == SubmoduleError::NoPathSegments,
        },
{
    match found {
        Some(segments) => Ok(segments[0].clone()),
        None => Err(SubmoduleError::NoPathSegments),
    }
}

/// The directory under which submodules are kept unless another is named.
pub fn default_path() -> (r: String)
    ensures
        r@ == "third_party"@,
{
    "third_party".to_owned()
}

/// The branch that a submodule follows unless another is named.
pub fn default_branch() -> (r: String)
    ensures
        r@ == "master"@,
{
    "master".to_owned()
}

/// A repository of others that is kept inside the project.
#[derive(Debug)]
pub struct Submodule {
    pub origin: String,
    pub branch: String,
    pub directory_name: String,
}

/// What a `Submodule` holds, as text.
pub struct SubmoduleView {
    pub origin: Seq<char>,
    pub branch: Seq<char>,
    pub directory_name: Seq<char>,
}

impl View for Submodule {
    type V = SubmoduleView;

    open spec fn view(&self) -> SubmoduleView {
        SubmoduleView {
            origin: self.origin@,
            branch: self.branch@,
            directory_name: self.directory_name@,
        }
    }
}

impl Submodule {
    /// The submodule that comes from `origin` and follows `branch`.
    ///
    /// `origin` has to be a URL with path segments; `Submodule::try_new`
    /// finds out whether it is.
    pub fn new(origin: String, branch: String) -> (r: Self)
        requires
            directory_of(origin@) is Ok,
        ensures
            r@ == (SubmoduleView {
                origin: origin@,
                branch: branch@,
                directory_name: directory_of(origin@)->Ok_0,
            }),
    {
        match path_segments_of(origin.as_str()) {
            Ok(Some(segments)) => Submodule {
                directory_name: segments[0].clone(),
                origin,
                branch,
            },
            _ => vstd::pervasive::unreached(),
        }
    }

    /// The submodule that comes from `origin` and follows `branch`, if
    /// `origin` is a URL with path segments.
    pub fn try_new(origin: String, branch: String) -> (r: Result<Self, SubmoduleError>)
        ensures
            match r {
                Ok(submodule) => {
                    &&& directory_of(origin@) is Ok
                    &&& submodule@ == (SubmoduleView {
                        origin: origin@,
                        branch: branch@,
                        directory_name: directory_of(origin@)->Ok_0,
                    })
                },
                Err(e) => directory_of(origin@) == Err::<Seq<char>, SubmoduleError>(e),
            },
    {
        match path_segments_of(origin.as_str()) {
            Err(_) => Err(SubmoduleError::NotAUrl),
            Ok(found) => match first_segment(found) {
                Err(e) => Err(e),
                Ok(_) => Ok(Submodule::new(origin, branch)),
            },
        }
    }
}

/// The submodules of a project, and the directory under which they are kept.
/// No two submodules have the same directory name.
#[derive(Debug)]
pub struct Submodules {
    pub path: String,
    pub submodules: Vec<Submodule>,
}

/// The views of a sequence of submodules, in order.
pub open spec fn submodules_view(v: Seq<Submodule>) -> Seq<SubmoduleView> {
    v.map_values(|s: Submodule| s@)
}

/// What a `Submodules` holds, as text.
pub struct SubmodulesView {
    pub path: Seq<char>,
    pub submodules: Seq<SubmoduleView>,
}

/// The position in `v` of the first submodule whose directory is called
/// `name`, or the length of `v` if there is none.
pub open spec fn position_of(v: Seq<SubmoduleView>, name: Seq<char>) -> int
    decreases v.len(),
{
    if v.len() == 0 {
        0
    } else if v[0].directory_name == name {
        0
    } else {
        1 + position_of(v.drop_first(), name)
    }
}

impl SubmodulesView {
    /// Whether no two submodules have the same directory name.
    pub open spec fn wf(self) -> bool {
        forall|i: int, j: int|
            0 <= i < j < self.submodules.len() ==> (#[trigger] self.submodules[i]).directory_name
                != (#[trigger] self.submodules[j]).directory_name
    }

    /// The submodules with `submodule` among them: in place of the one
    /// with the same directory name, or as the last.
    pub open spec fn with(self, submodule: SubmoduleView) -> Self {
        let at = position_of(self.submodules, submodule.directory_name);
        SubmodulesView {
            submodules: if at < self.submodules.len() {
                self.submodules.update(at, submodule)
            } else {
                self.submodules.push(submodule)
            },
            ..self
        }
    }

    /// The submodules without the one whose directory is called `name`.
    pub open spec fn without(self, name: Seq<char>) -> Self {
        let at = position_of(self.submodules, name);
        SubmodulesView {
            submodules: if at < self.submodules.len() {
                self.submodules.remove(at)
            } else {
                self.submodules
            },
            ..self
        }
    }

    /// The directory of the submodule called `name`.
    pub open spec fn directory(self, name: Seq<char>) -> Seq<char> {
        inside(self.path, name)
    }
}

impl View for Submodules {
    type V = SubmodulesView;

    open spec fn view(&self) -> SubmodulesView {
        SubmodulesView { path: self.path@, submodules: submodules_view(self.submodules@) }
    }
}

pub proof fn lemma_position_of(v: Seq<SubmoduleView>, name: Seq<char>)
    ensures
        0 <= position_of(v, name) <= v.len(),
        position_of(v, name) < v.len() ==> v[position_of(v, name)].directory_name == name,
        forall|k: int| 0 <= k < position_of(v, name) ==> (#[trigger] v[k]).directory_name != name,
    decreases v.len(),
{
    if v.len() > 0 && v[0].directory_name != name {
        let rest = v.drop_first();
        lemma_position_of(rest, name);
        assert forall|k: int| 0 <= k < position_of(v, name) implies (#[trigger] v[k]).directory_name
            != name by {
            if k > 0 {
                assert(rest[k - 1] == v[k]);
            }
        }
    }
}

/// Adding a submodule keeps the directory names distinct.
pub proof fn law_with_keeps_names_distinct(s: SubmodulesView, submodule: SubmoduleView)
    requires
        s.wf(),
    ensures
        s.with(submodule).wf(),
{
    lemma_position_of(s.submodules, submodule.directory_name);
    let at = position_of(s.submodules, submodule.directory_name);
    let after = s.with(submodule).submodules;
    assert forall|i: int, j: int| 0 <= i < j < after.len() implies (#[trigger] after[i])
        .directory_name != (#[trigger] after[j]).directory_name by {
        if at < s.submodules.len() {
            if i != at && j != at {
                assert(after[i] == s.submodules[i]);
                assert(after[j] == s.submodules[j]);
            } else if i == at {
                assert(after[j] == s.submodules[j]);
                assert(s.submodules[at].directory_name != s.submodules[j].directory_name);
            } else {
                assert(after[i] == s.submodules[i]);
            }
        } else {
            if j < s.submodules.len() {
                assert(after[i] == s.submodules[i]);
                assert(after[j] == s.submodules[j]);
            } else {
                assert(after[i] == s.submodules[i]);
            }
        }
    }
}

/// Removing a submodule keeps the directory names distinct, and leaves no
/// submodule of that name.
pub proof fn law_without_removes_the_name(s: SubmodulesView, name: Seq<char>)
    requires
        s.wf(),
    ensures
        s.without(name).wf(),
        forall|k: int|
            0 <= k < s.without(name).submodules.len() ==> (#[trigger] s.without(
                name,
            ).submodules[k]).directory_name != name,
{
    lemma_position_of(s.submodules, name);
    let at = position_of(s.submodules, name);
    let after = s.without(name).submodules;
    if at < s.submodules.len() {
        assert forall|k: int| 0 <= k < after.len() implies (#[trigger] after[k]).directory_name
            != name by {
            if k < at {
                assert(after[k] == s.submodules[k]);
            } else {
                assert(after[k] == s.submodules[k + 1]);
                assert(s.submodules[at].directory_name != s.submodules[k + 1].directory_name);
            }
        }
        assert forall|i: int, j: int| 0 <= i < j < after.len() implies (#[trigger] after[i])
            .directory_name != (#[trigger] after[j]).directory_name by {
            let oi = if i < at { i } else { i + 1 };
            let oj = if j < at { j } else { j + 1 };
            assert(after[i] == s.submodules[oi]);
            assert(after[j] == s.submodules[oj]);
        }
    }
}

/// What is to be run to remove a submodule.
#[derive(Debug)]
pub struct Removal {
    /// The calls to make, in order, each with its output discarded.
    pub calls: Vec<Invocation>,
}

/// What is to be done to add a submodule.
#[derive(Debug)]
pub struct Addition {
    /// The directory to create if it is not there.
    pub directory: String,
    /// The call to make, with its errors discarded.
    pub call: Invocation,
}

/// The call that adds the submodule from `origin`, following `branch`, in
/// the directory `directory`.
pub open spec fn add_call(
    origin: Seq<char>,
    directory: Seq<char>,
    branch: Seq<char>,
) -> InvocationView {
    InvocationView {
        program: "git"@,
        args: seq!["submodule"@, "add"@, origin, directory, "-b"@, branch],
    }
}

/// The calls that remove the submodule in `directory`, whose data version
/// control keeps in `kept`: it is unregistered, what is kept of it is
/// removed by the host's own command, and it is removed from the index.
pub open spec fn remove_calls(os: Seq<char>, directory: Seq<char>, kept: Seq<char>) -> Seq<
    InvocationView,
> {
    seq![
        InvocationView { program: "git"@, args: seq!["submodule"@, "deinit"@, "-f"@, directory] },
        if os == "windows"@ {
            InvocationView { program: "rmdir"@, args: seq!["/S"@, "/Q"@, kept] }
        } else {
            InvocationView { program: "rm"@, args: seq!["-rf"@, kept] }
        },
        InvocationView { program: "git"@, args: seq!["rm"@, "-f"@, directory] },
    ]
}

/// Where version control keeps the data of the submodule called `name`
/// under `path`, as the host named `os` writes paths.
pub open spec fn kept_at(os: Seq<char>, path: Seq<char>, name: Seq<char>) -> Seq<char> {
    if os == "windows"@ {
        ".git\\modules\\"@ + path + "\\"@ + name
    } else {
        ".git/modules/"@ + path + "/"@ + name
    }
}

/// The views of a sequence of calls, in order.
pub open spec fn calls_view(v: Seq<Invocation>) -> Seq<InvocationView> {
    v.map_values(|c: Invocation| c@)
}

fn call(program: &str, args: Vec<String>) -> (r: Invocation)
    ensures
        r@ == (InvocationView { program: program@, args: texts(args@) }),
{
    Invocation { program: program.to_owned(), args }
}

fn strings3(a: &str, b: &str, c: &str) -> (r: Vec<String>)
    ensures
        texts(r@) == seq![a@, b@, c@],
{
    let mut v = no_strings();
    push_string(&mut v, a.to_owned());
    push_string(&mut v, b.to_owned());
    push_string(&mut v, c.to_owned());
    assert(texts(v@) =~= seq![a@, b@, c@]);
    v
}

impl Submodules {
    /// A path as the host writes it: the path itself.
    pub fn make_path(path: &str) -> (r: String)
        ensures
            r@ == path@,
    {
        path.to_owned()
    }

    fn find(&self, name: &str) -> (r: usize)
        ensures
            r == position_of(self@.submodules, name@),
    {
        let ghost all = self@.submodules;
        let mut i: usize = 0;
        assert(all.skip(0) == all);
        while i < self.submodules.len()
            invariant
                i <= self.submodules.len(),
                all == submodules_view(self.submodules@),
                position_of(all, name@) == i + position_of(all.skip(i as int), name@),
            decreases self.submodules.len() - i,
        {
            proof {
                assert(all.skip(i as int)[0] == self.submodules@[i as int]@);
                assert(all.skip(i as int).drop_first() == all.skip(i + 1));
            }
            if text_eq(self.submodules[i].directory_name.as_str(), name) {
                return i;
            }
            i += 1;
        }
        proof {
            assert(all.skip(i as int).len() == 0);
        }
        i
    }

    /// Forgets the submodule whose directory is called `directory_name`, and
    /// gives what is to be run on the host named `os` to remove it.
    pub fn remove_submodule(&mut self, directory_name: String, os: &str) -> (r: Removal)
        ensures
            final(self)@ == old(self)@.without(directory_name@),
            old(self)@.wf() ==> final(self)@.wf(),
            calls_view(r.calls@) == remove_calls(
                os@,
                old(self)@.directory(directory_name@),
                kept_at(os@, old(self)@.path, directory_name@),
            ),
    {
        let at = self.find(directory_name.as_str());
        proof {
            if self@.wf() {
                law_without_removes_the_name(self@, directory_name@);
            }
        }
        if at < self.submodules.len() {
            let ghost before = submodules_view(self.submodules@);
            self.submodules.remove(at);
            assert(submodules_view(self.submodules@) =~= before.remove(at as int));
        }
        let directory = Self::make_path(
            path_inside(self.path.as_str(), directory_name.as_str()).as_str(),
        );
        let windows = text_eq(os, "windows");
        let mut kept = if windows {
            ".git\\modules\\".to_owned()
        } else {
            ".git/modules/".to_owned()
        };
        kept.append(self.path.as_str());
        kept.append(if windows {
            "\\"
        } else {
            "/"
        });
        kept.append(directory_name.as_str());
        let kept = Self::make_path(kept.as_str());
        let mut first = strings3("submodule", "deinit", "-f");
        push_string(&mut first, directory.clone());
        let second = if windows {
            call("rmdir", strings3("/S", "/Q", kept.as_str()))
        } else {
            let mut args = no_strings();
            push_string(&mut args, "-rf".to_owned());
            push_string(&mut args, kept.clone());
            assert(texts(args@) =~= seq!["-rf"@, kept@]);
            call("rm", args)
        };
        let third = call("git", strings3("rm", "-f", directory.as_str()));
        assert(texts(first@) =~= seq!["submodule"@, "deinit"@, "-f"@, directory@]);
        let mut calls: Vec<Invocation> = Vec::new();
        calls.push(call("git", first));
        calls.push(second);
        calls.push(third);
        assert(calls_view(calls@) =~= remove_calls(
            os@,
            old(self)@.directory(directory_name@),
            kept_at(os@, old(self)@.path, directory_name@),
        ));
        Removal { calls }
    }

    /// Takes up the submodule that comes from `origin`, and gives what is to
    /// be done to add it. It follows `branch`, or the default branch; it
    /// goes to the directory called `directory_name`, or to the one named
    /// after the first path segment of `origin`, under which it is kept
    /// here in either case.
    ///
    /// `origin` has to be a URL with path segments;
    /// `Submodules::try_add_submodule` finds out whether it is.
    pub fn add_submodule(
        &mut self,
        origin: String,
        branch: Option<String>,
        directory_name: Option<String>,
    ) -> (r: Addition)
        requires
            directory_of(origin@) is Ok,
        ensures
            final(self)@ == old(self)@.with(
                SubmoduleView {
                    origin: origin@,
                    branch: match branch {
                        Some(b) => b@,
                        None => "master"@,
                    },
                    directory_name: directory_of(origin@)->Ok_0,
                },
            ),
            old(self)@.wf() ==> final(self)@.wf(),
            r.directory@ == old(self)@.path,
            r.call@ == add_call(
                origin@,
                old(self)@.directory(
                    match directory_name {
                        Some(d) => d@,
                        None => directory_of(origin@)->Ok_0,
                    },
                ),
                match branch {
                    Some(b) => b@,
                    None => "master"@,
                },
            ),
    {
        let followed = match &branch {
            Some(b) => b.clone(),
            None => default_branch(),
        };
        let submodule = Submodule::new(origin.clone(), followed.clone());
        let target = match &directory_name {
            Some(d) => path_inside(self.path.as_str(), d.as_str()),
            None => path_inside(self.path.as_str(), submodule.directory_name.as_str()),
        };
        let mut args = strings3("submodule", "add", origin.as_str());
        let ghost wanted = seq!["submodule"@, "add"@, origin@, target@, "-b"@, followed@];
        push_string(&mut args, target);
        push_string(&mut args, "-b".to_owned());
        push_string(&mut args, followed);
        assert(texts(args@) =~= wanted);
        let at = self.find(submodule.directory_name.as_str());
        let ghost before = submodules_view(self.submodules@);
        proof {
            if self@.wf() {
                law_with_keeps_names_distinct(self@, submodule@);
            }
        }
        if at < self.submodules.len() {
            self.submodules.set(at, submodule);
            assert(submodules_view(self.submodules@) =~= before.update(at as int, submodule@));
        } else {
            self.submodules.push(submodule);
            assert(submodules_view(self.submodules@) =~= before.push(submodule@));
        }
        Addition { directory: self.path.clone(), call: call("git", args) }
    }

    /// Takes up the submodule that comes from `origin`, if `origin` is a URL
    /// with path segments; else changes nothing.
    pub fn try_add_submodule(
        &mut self,
        origin: String,
        branch: Option<String>,
        directory_name: Option<String>,
    ) -> (r: Result<Addition, SubmoduleError>)
        ensures
            match r {
                Ok(_) => {
                    &&& directory_of(origin@) is Ok
                    &&& old(self)@.wf() ==> final(self)@.wf()
                    &&& final(self)@ == old(self)@.with(
                        SubmoduleView {
                            origin: origin@,
                            branch: match branch {
                                Some(b) => b@,
                                None => "master"@,
                            },
                            directory_name: directory_of(origin@)->Ok_0,
                        },
                    )
                },
                Err(e) => {
                    &&& directory_of(origin@) == Err::<Seq<char>, SubmoduleError>(e)
                    &&& *final(self) == *old(self)
                },
            },
    {
        match path_segments_of(origin.as_str()) {
            Err(_) => Err(SubmoduleError::NotAUrl),
            Ok(found) => match first_segment(found) {
                Err(e) => Err(e),
                Ok(_) => Ok(self.add_submodule(origin, branch, directory_name)),
            },
        }
    }
}

impl Default for Submodules {
    fn default() -> (r: Self)
        ensures
            r@.path == "third_party"@,
            r@.submodules.len() == 0,
            r@.wf(),
    {
        Self { path: default_path(), submodules: Vec::new() }
    }
}

} // verus!
