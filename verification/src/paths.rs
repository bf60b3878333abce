//! Paths as text: the final component of a path, its stem and its extension.
//!
//! Components are separated by `/`. A path is taken as it is written: nothing
//! is normalised, and nothing is looked up on disk.

use crate::commands::Commands;
use crate::text::to_chars;
use vstd::prelude::*;
use vstd::string::*;

verus! {

/// The index of the last occurrence of `c` in `s`, or `-1` if there is none.
pub open spec fn last_index_of(s: Seq<char>, c: char) -> int
    decreases s.len(),
{
    if s.len() == 0 {
        -1
    } else if s.last() == c {
        s.len() - 1
    } else {
        last_index_of(s.drop_last(), c)
    }
}

/// The final component of `path`: what follows its last `/`, or all of it.
pub open spec fn file_name_of(path: Seq<char>) -> Seq<char> {
    path.subrange(last_index_of(path, '/') + 1, path.len() as int)
}

/// Whether the file name `name` splits into a stem and an extension: it holds
/// a `.` that is not its first character, and it is not `..`.
pub open spec fn has_extension(name: Seq<char>) -> bool {
    last_index_of(name, '.') > 0 && name != seq!['.', '.']
}

/// What follows the last `.` of the final component of `path`, if that
/// component has an extension.
pub open spec fn extension_of(path: Seq<char>) -> Option<Seq<char>> {
    let name = file_name_of(path);
    if has_extension(name) {
        Some(name.subrange(last_index_of(name, '.') + 1, name.len() as int))
    } else {
        None
    }
}

/// The final component of `path` without its extension.
pub open spec fn stem_of(path: Seq<char>) -> Seq<char> {
    let name = file_name_of(path);
    if has_extension(name) {
        name.subrange(0, last_index_of(name, '.'))
    } else {
        name
    }
}

pub proof fn lemma_last_index_of(s: Seq<char>, c: char)
    ensures
        -1 <= last_index_of(s, c) < s.len(),
        last_index_of(s, c) >= 0 ==> s[last_index_of(s, c)] == c,
        forall|k: int| last_index_of(s, c) < k < s.len() ==> s[k] != c,
    decreases s.len(),
{
    if s.len() > 0 && s.last() != c {
        let t = s.drop_last();
        lemma_last_index_of(t, c);
        assert forall|k: int| last_index_of(s, c) < k < s.len() implies s[k] != c by {
            if k < t.len() {
                assert(t[k] == s[k]);
            }
        }
    }
}

proof fn lemma_last_index_unique(s: Seq<char>, c: char, i: int)
    requires
        -1 <= i < s.len(),
        i >= 0 ==> s[i] == c,
        forall|k: int| i < k < s.len() ==> s[k] != c,
    ensures
        last_index_of(s, c) == i,
{
    lemma_last_index_of(s, c);
}

/// One past the last occurrence of `c` in `chars[lo..]`, counted from `lo`;
/// zero if there is none.
fn after_last(chars: &Vec<char>, lo: usize, c: char) -> (r: usize)
    requires
        lo <= chars.len(),
    ensures
        r == last_index_of(chars@.subrange(lo as int, chars.len() as int), c) + 1,
{
    let ghost tail = chars@.subrange(lo as int, chars.len() as int);
    let mut j: usize = chars.len();
    while j > lo && chars[j - 1] != c
        invariant
            lo <= j <= chars.len(),
            tail == chars@.subrange(lo as int, chars.len() as int),
            forall|k: int| j - lo <= k < tail.len() ==> tail[k] != c,
        decreases j,
    {
        j -= 1;
    }
    proof {
        lemma_last_index_unique(tail, c, j - lo - 1);
    }
    j - lo
}

struct NameParts {
    /// Where the final component starts.
    start: usize,
    /// Where its stem ends: at the last `.` if it has an extension, else at the end.
    stem_end: usize,
    /// Whether it has an extension.
    dotted: bool,
    /// The length of the path.
    end: usize,
}

fn name_parts(path: &str) -> (p: NameParts)
    ensures
        p.start <= p.stem_end <= p.end == path@.len(),
        path@.subrange(p.start as int, p.end as int) == file_name_of(path@),
        p.dotted == has_extension(file_name_of(path@)),
        path@.subrange(p.start as int, p.stem_end as int) == stem_of(path@),
        p.dotted ==> p.stem_end < p.end && extension_of(path@) == Some(
            path@.subrange(p.stem_end + 1, p.end as int),
        ),
        !p.dotted ==> extension_of(path@) is None,
{
    let chars = to_chars(path);
    let end = chars.len();
    assert(chars@.subrange(0, end as int) == chars@);
    let start = after_last(&chars, 0, '/');
    proof {
        lemma_last_index_of(path@, '/');
    }
    let ghost name = file_name_of(path@);
    let dot_next = after_last(&chars, start, '.');
    proof {
        lemma_last_index_of(name, '.');
    }
    let is_dots = end - start == 2 && chars[start] == '.' && chars[start + 1] == '.';
    proof {
        if is_dots {
            assert(name =~= seq!['.', '.']);
        } else if name == seq!['.', '.'] {
            assert(name.len() == 2);
            assert(name[0] == '.');
            assert(name[1] == '.');
        }
    }
    if dot_next >= 2 && !is_dots {
        let stem_end = start + dot_next - 1;
        proof {
            assert(name.subrange(0, dot_next - 1) == path@.subrange(start as int, stem_end as int));
            assert(name.subrange(dot_next as int, name.len() as int) == path@.subrange(
                stem_end + 1,
                end as int,
            ));
        }
        NameParts { start, stem_end, dotted: true, end }
    } else {
        NameParts { start, stem_end: end, dotted: false, end }
    }
}

/// The final component of `path`.
pub fn file_name(path: &str) -> (r: &str)
    ensures
        r@ == file_name_of(path@),
{
    let p = name_parts(path);
    path.substring_char(p.start, p.end)
}

/// The final component of `path` without its extension.
pub fn file_stem(path: &str) -> (r: &str)
    ensures
        r@ == stem_of(path@),
{
    let p = name_parts(path);
    path.substring_char(p.start, p.stem_end)
}

/// The view of an extension that was found or not.
pub open spec fn extension_view(found: Option<&str>) -> Option<Seq<char>> {
    match found {
        Some(e) => Some(e@),
        None => None,
    }
}

impl Commands {
    /// The extension of the file called `filename`, if it has one.
    pub fn get_extension_from_filename(filename: &str) -> (r: Option<&str>)
        ensures
            extension_view(r) == extension_of(filename@),
    {
        let p = name_parts(filename);
        if p.dotted {
            Some(filename.substring_char(p.stem_end + 1, p.end))
        } else {
            None
        }
    }
}

} // verus!
