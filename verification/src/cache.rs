//! The fingerprint cache: a digest of the content of every file under the
//! source directory, taken in the order in which the directory is walked, and
//! the comparison of two such snapshots, position by position.

use crate::error::{Error, ErrorView};
use crate::text::{hex, hex_lower, lemma_hex_lower_injective, lemma_texts_push, texts};
use std::collections::hash_map::DefaultHasher;
use std::hash::Hasher;
use vstd::prelude::*;
use vstd::std_specs::hash::DefaultHasherAdditionalSpecFns;

verus! {

/// The digest of a file's content: what the standard library's default hasher
/// gives for the content, written to it in one piece.
pub open spec fn digest(content: Seq<u8>) -> u64 {
    DefaultHasher::spec_finish(seq![content])
}

/// The fingerprint of a file's content: its digest in lower-case hexadecimal.
pub open spec fn fingerprint(content: Seq<u8>) -> Seq<char> {
    hex_lower(digest(content) as nat)
}

/// The fingerprint of `content`.
pub fn hash_content(content: &Vec<u8>) -> (r: String)
    ensures
        r@ == fingerprint(content@),
{
    let mut hasher = DefaultHasher::new();
    hasher.write(content.as_slice());
    assert(hasher@ == seq![content@]);
    hex(hasher.finish())
}

/// A file's path and the fingerprint of its content.
#[derive(Debug)]
pub struct FileData {
    pub path: String,
    pub hash: String,
}

/// What a `FileData` holds, as text.
pub struct FileDataView {
    pub path: Seq<char>,
    pub hash: Seq<char>,
}

impl View for FileData {
    type V = FileDataView;

    open spec fn view(&self) -> FileDataView {
        FileDataView { path: self.path@, hash: self.hash@ }
    }
}

impl Clone for FileData {
    fn clone(&self) -> (r: Self)
        ensures
            r@ == self@,
    {
        FileData { path: self.path.clone(), hash: self.hash.clone() }
    }
}

/// The views of a sequence of file records, in order.
pub open spec fn snapshot_view(files: Seq<FileData>) -> Seq<FileDataView> {
    files.map_values(|f: FileData| f@)
}

/// One entry of a directory as it was found on disk: a file with its
/// content, or with the reason why the content could not be read; or a
/// directory with its own entries.
#[derive(Debug)]
pub enum SourceEntry {
    File { path: String, content: Result<Vec<u8>, String> },
    Dir { path: String, entries: Vec<SourceEntry> },
}

/// The source directory as it was found on disk: its entries in the order in
/// which the directory listed them, or the reason why it could not be listed.
#[derive(Debug)]
pub struct SourceTree {
    pub dir: String,
    pub listing: Result<Vec<SourceEntry>, String>,
}

/// A file of the source tree: its path, and its content or the reason why
/// the content could not be read.
pub struct FoundFile {
    pub path: Seq<char>,
    pub content: Result<Seq<u8>, Seq<char>>,
}

/// The files at and below `entry`, in the order of the walk: a file is itself;
/// a directory is the files below its entries and is not itself among them.
pub open spec fn files_below(entry: SourceEntry) -> Seq<FoundFile>
    decreases entry,
{
    match entry {
        SourceEntry::File { path, content } => seq![
            FoundFile {
                path: path@,
                content: match content {
                    Ok(bytes) => Ok(bytes@),
                    Err(reason) => Err(reason@),
                },
            },
        ],
        SourceEntry::Dir { path, entries } => files_among(entries@),
    }
}

/// The files at and below each of `entries`, in order.
pub open spec fn files_among(entries: Seq<SourceEntry>) -> Seq<FoundFile>
    decreases entries,
{
    if entries.len() == 0 {
        Seq::empty()
    } else {
        files_among(entries.drop_last()) + files_below(entries.last())
    }
}

/// The fingerprint record of each of `files`, in order; for use where all of
/// them were read.
pub open spec fn fingerprints(files: Seq<FoundFile>) -> Seq<FileDataView> {
    files.map_values(
        |f: FoundFile|
            FileDataView {
                path: f.path,
                hash: match f.content {
                    Ok(bytes) => fingerprint(bytes),
                    Err(_) => Seq::empty(),
                },
            },
    )
}

/// The index of the first of `files` that could not be read, or the number of
/// files if all were read.
pub open spec fn first_unread(files: Seq<FoundFile>) -> int
    decreases files.len(),
{
    if files.len() == 0 {
        0
    } else {
        let before = first_unread(files.drop_last());
        if before < files.len() - 1 {
            before
        } else if files.last().content is Ok {
            files.len() as int
        } else {
            files.len() - 1
        }
    }
}

/// The snapshot of a source tree: the fingerprint records of all its files in
/// the order of the walk. There is none if the directory could not be listed,
/// and none if any file could not be read: then the first such file is the
/// failure.
pub open spec fn snapshot_of(tree: SourceTree) -> Result<Seq<FileDataView>, ErrorView> {
    match tree.listing {
        Err(reason) => Err(ErrorView::SourceDir { dir: tree.dir@, reason: reason@ }),
        Ok(entries) => {
            let files = files_among(entries@);
            let bad = first_unread(files);
            if bad < files.len() {
                Err(
                    ErrorView::SourceFile {
                        path: files[bad].path,
                        reason: files[bad].content->Err_0,
                    },
                )
            } else {
                Ok(fingerprints(files))
            }
        },
    }
}

/// The positions below `n` at which both snapshots have a record and the two
/// records differ in their fingerprint, in increasing order.
pub open spec fn changed_below(old: Seq<FileDataView>, new: Seq<FileDataView>, n: int) -> Seq<int>
    decreases n,
{
    if n <= 0 {
        Seq::empty()
    } else {
        let before = changed_below(old, new, n - 1);
        if n <= old.len() && n <= new.len() && old[n - 1].hash != new[n - 1].hash {
            before.push(n - 1)
        } else {
            before
        }
    }
}

/// The positions at which `old` and `new` both have a record and the two
/// differ in their fingerprint. Records are compared by position, not by
/// path; what one snapshot has beyond the length of the other is not compared.
pub open spec fn changed_indices(old: Seq<FileDataView>, new: Seq<FileDataView>) -> Seq<int> {
    changed_below(old, new, new.len() as int)
}

/// The paths that `new` has at the changed positions.
pub open spec fn changed_paths(old: Seq<FileDataView>, new: Seq<FileDataView>) -> Seq<Seq<char>> {
    changed_indices(old, new).map_values(|i: int| new[i].path)
}

/// The files of a source tree in the order of the walk; none if the source
/// directory could not be listed.
pub open spec fn files_of(tree: SourceTree) -> Seq<FoundFile> {
    match tree.listing {
        Ok(entries) => files_among(entries@),
        Err(_) => Seq::empty(),
    }
}

/// Whether every file of the tree was read: whether a snapshot can be taken.
pub open spec fn readable(tree: SourceTree) -> bool {
    tree.listing is Ok && first_unread(files_of(tree)) == files_of(tree).len()
}

proof fn lemma_unchanged_below(s: Seq<FileDataView>, n: int)
    ensures
        changed_below(s, s, n) == Seq::<int>::empty(),
    decreases n,
{
    if n > 0 {
        lemma_unchanged_below(s, n - 1);
    }
}

/// The changed positions are exactly those at which both snapshots have a
/// record and the fingerprints differ, and they come in increasing order.
pub proof fn law_changed_positions(old: Seq<FileDataView>, new: Seq<FileDataView>)
    ensures
        forall|i: int|
            changed_indices(old, new).contains(i) <==> (0 <= i < old.len() && i < new.len()
                && old[i].hash != new[i].hash),
        forall|a: int, b: int|
            0 <= a < b < changed_indices(old, new).len() ==> changed_indices(old, new)[a]
                < changed_indices(old, new)[b],
{
    lemma_changed_below(old, new, new.len() as int);
}

proof fn lemma_changed_below(old: Seq<FileDataView>, new: Seq<FileDataView>, n: int)
    requires
        n <= new.len(),
    ensures
        forall|i: int|
            changed_below(old, new, n).contains(i) <==> (0 <= i < n && i < old.len()
                && old[i].hash != new[i].hash),
        forall|a: int, b: int|
            0 <= a < b < changed_below(old, new, n).len() ==> changed_below(old, new, n)[a]
                < changed_below(old, new, n)[b],
        forall|a: int|
            0 <= a < changed_below(old, new, n).len() ==> changed_below(old, new, n)[a] < n,
    decreases n,
{
    let here = changed_below(old, new, n);
    if n > 0 {
        let before = changed_below(old, new, n - 1);
        lemma_changed_below(old, new, n - 1);
        if n <= old.len() && old[n - 1].hash != new[n - 1].hash {
            assert(here == before.push(n - 1));
            assert(here[here.len() - 1] == n - 1);
            assert forall|i: int|
                here.contains(i) <==> (0 <= i < n && i < old.len() && old[i].hash
                    != new[i].hash) by {
                if here.contains(i) {
                    let k = choose|k: int| 0 <= k < here.len() && here[k] == i;
                    if k < before.len() {
                        assert(before[k] == i);
                        assert(before.contains(i));
                    }
                }
                if 0 <= i < n && i < old.len() && old[i].hash != new[i].hash {
                    if i < n - 1 {
                        assert(before.contains(i));
                        let k = choose|k: int| 0 <= k < before.len() && before[k] == i;
                        assert(here[k] == i);
                    }
                }
            }
            assert forall|a: int, b: int| 0 <= a < b < here.len() implies here[a] < here[b] by {
                assert(here[a] == before[a]);
                if b < before.len() {
                    assert(here[b] == before[b]);
                }
            }
        } else {
            assert(here == before);
        }
    } else {
        assert forall|i: int| !here.contains(i) by {
            if here.contains(i) {
                let k = choose|k: int| 0 <= k < here.len() && here[k] == i;
            }
        }
    }
}

/// A snapshot compared with itself has no changed position.
pub proof fn law_same_snapshot_no_diff(s: Seq<FileDataView>)
    ensures
        changed_indices(s, s) == Seq::<int>::empty(),
        changed_paths(s, s) == Seq::<Seq<char>>::empty(),
{
    lemma_unchanged_below(s, s.len() as int);
    assert(changed_paths(s, s) =~= Seq::<Seq<char>>::empty());
}

/// A source tree whose snapshot is compared with a snapshot of the same tree,
/// with nothing changed in between, has no changed file.
pub proof fn law_no_change_no_diff(tree: SourceTree)
    requires
        readable(tree),
    ensures
        snapshot_of(tree) is Ok,
        changed_indices(snapshot_of(tree)->Ok_0, snapshot_of(tree)->Ok_0) == Seq::<int>::empty(),
        changed_paths(snapshot_of(tree)->Ok_0, snapshot_of(tree)->Ok_0) == Seq::<
            Seq<char>,
        >::empty(),
{
    law_same_snapshot_no_diff(snapshot_of(tree)->Ok_0);
}

/// Equal contents have equal fingerprints, and two fingerprints are equal
/// only where the two digests are: distinct contents share a fingerprint
/// exactly when their digests collide.
pub proof fn law_fingerprint_of_content(a: Seq<u8>, b: Seq<u8>)
    ensures
        a == b ==> fingerprint(a) == fingerprint(b),
        fingerprint(a) == fingerprint(b) <==> digest(a) == digest(b),
{
    if fingerprint(a) == fingerprint(b) {
        lemma_hex_lower_injective(digest(a) as nat, digest(b) as nat);
    }
}

proof fn lemma_one_change_below(old: Seq<FileDataView>, new: Seq<FileDataView>, k: int, n: int)
    requires
        old.len() == new.len(),
        0 <= k < new.len(),
        0 <= n <= new.len(),
        forall|i: int| 0 <= i < new.len() && i != k ==> old[i].hash == new[i].hash,
        old[k].hash != new[k].hash,
    ensures
        changed_below(old, new, n) == if n <= k {
            Seq::<int>::empty()
        } else {
            seq![k]
        },
    decreases n,
{
    if n > 0 {
        lemma_one_change_below(old, new, k, n - 1);
        if n - 1 == k {
            assert(Seq::<int>::empty().push(k) == seq![k]);
        }
    }
}

/// Where the content of exactly one file changes between two snapshots, and
/// the digest of its new content is not that of its old content, the changed
/// set is exactly that file's position, and its path.
pub proof fn law_one_change_one_diff(before: SourceTree, after: SourceTree, k: int)
    requires
        readable(before),
        readable(after),
        files_of(before).len() == files_of(after).len(),
        0 <= k < files_of(after).len(),
        forall|i: int|
            0 <= i < files_of(after).len() && i != k ==> files_of(before)[i] == files_of(after)[i],
        files_of(before)[k].path == files_of(after)[k].path,
        digest(files_of(before)[k].content->Ok_0) != digest(files_of(after)[k].content->Ok_0),
    ensures
        snapshot_of(before) is Ok,
        snapshot_of(after) is Ok,
        changed_indices(snapshot_of(before)->Ok_0, snapshot_of(after)->Ok_0) == seq![k],
        changed_paths(snapshot_of(before)->Ok_0, snapshot_of(after)->Ok_0) == seq![
            files_of(after)[k].path,
        ],
{
    let old = snapshot_of(before)->Ok_0;
    let new = snapshot_of(after)->Ok_0;
    lemma_first_unread(files_of(before));
    lemma_first_unread(files_of(after));
    law_fingerprint_of_content(
        files_of(before)[k].content->Ok_0,
        files_of(after)[k].content->Ok_0,
    );
    lemma_one_change_below(old, new, k, new.len() as int);
    assert(changed_paths(old, new) =~= seq![files_of(after)[k].path]);
}

/// The first unread file is what its name says: it could not be read, and
/// every file before it was read.
pub proof fn lemma_first_unread(files: Seq<FoundFile>)
    ensures
        0 <= first_unread(files) <= files.len(),
        first_unread(files) < files.len() ==> files[first_unread(files)].content is Err,
        forall|k: int| 0 <= k < first_unread(files) ==> (#[trigger] files[k]).content is Ok,
    decreases files.len(),
{
    if files.len() > 0 {
        let init = files.drop_last();
        lemma_first_unread(init);
        if first_unread(init) < init.len() {
            assert(init[first_unread(init)] == files[first_unread(init)]);
        }
        assert forall|k: int| 0 <= k < first_unread(files) implies (#[trigger] files[k]).content
            is Ok by {
            if k < init.len() {
                assert(init[k] == files[k]);
            }
        }
    }
}

proof fn lemma_first_unread_concat(a: Seq<FoundFile>, b: Seq<FoundFile>)
    ensures
        first_unread(a + b) == if first_unread(a) < a.len() {
            first_unread(a)
        } else {
            a.len() + first_unread(b)
        },
    decreases b.len(),
{
    lemma_first_unread(a);
    lemma_first_unread(b);
    if b.len() == 0 {
        assert(a + b == a);
    } else {
        assert((a + b).drop_last() == a + b.drop_last());
        assert((a + b).last() == b.last());
        lemma_first_unread_concat(a, b.drop_last());
        lemma_first_unread(b.drop_last());
    }
}

proof fn lemma_files_among_concat(a: Seq<SourceEntry>, b: Seq<SourceEntry>)
    ensures
        files_among(a + b) == files_among(a) + files_among(b),
    decreases b.len(),
{
    if b.len() == 0 {
        assert(a + b == a);
        assert(files_among(a) + files_among(b) == files_among(a));
    } else {
        assert((a + b).drop_last() == a + b.drop_last());
        assert((a + b).last() == b.last());
        lemma_files_among_concat(a, b.drop_last());
        assert(files_among(a) + (files_among(b.drop_last()) + files_below(b.last())) == (
        files_among(a) + files_among(b.drop_last())) + files_below(b.last()));
    }
}

/// What the walk has found once it has gone through the first `i` entries
/// and is at the entry `i`.
proof fn lemma_walk_step(entries: Seq<SourceEntry>, i: int)
    requires
        0 <= i < entries.len(),
    ensures
        files_among(entries.take(i + 1)) == files_among(entries.take(i)) + files_below(entries[i]),
        files_among(entries) == files_among(entries.take(i + 1)) + files_among(
            entries.skip(i + 1),
        ),
{
    assert(entries.take(i + 1).drop_last() == entries.take(i));
    assert(entries.take(i + 1).last() == entries[i]);
    assert(entries == entries.take(i + 1) + entries.skip(i + 1));
    lemma_files_among_concat(entries.take(i + 1), entries.skip(i + 1));
}

/// Appends to `out` the fingerprint records of the files at and below
/// `entries`, in the order of the walk, and stops at the first file that
/// could not be read.
fn scan_entries(entries: &Vec<SourceEntry>, out: &mut Vec<FileData>) -> (r: Result<(), Error>)
    ensures
        match r {
            Ok(()) => {
                &&& first_unread(files_among(entries@)) == files_among(entries@).len()
                &&& snapshot_view(final(out)@) == snapshot_view(old(out)@) + fingerprints(
                    files_among(entries@),
                )
            },
            Err(e) => {
                let files = files_among(entries@);
                let bad = first_unread(files);
                &&& bad < files.len()
                &&& e@ == (ErrorView::SourceFile {
                    path: files[bad].path,
                    reason: files[bad].content->Err_0,
                })
            },
        },
    decreases entries,
{
    let ghost before = snapshot_view(out@);
    let mut i: usize = 0;
    proof {
        assert(entries@.take(0) == Seq::<SourceEntry>::empty());
        assert(before + fingerprints(Seq::empty()) == before);
    }
    while i < entries.len()
        invariant
            i <= entries.len(),
            first_unread(files_among(entries@.take(i as int))) == files_among(
                entries@.take(i as int),
            ).len(),
            snapshot_view(out@) == before + fingerprints(files_among(entries@.take(i as int))),
        decreases entries.len() - i,
    {
        let ghost done = files_among(entries@.take(i as int));
        let ghost here = files_below(entries@[i as int]);
        let ghost rest = files_among(entries@.skip(i + 1));
        proof {
            lemma_walk_step(entries@, i as int);
            lemma_first_unread_concat(done, here);
            lemma_first_unread_concat(done + here, rest);
            lemma_first_unread(here);
            assert(fingerprints(done + here) == fingerprints(done) + fingerprints(here));
            assert(before + (fingerprints(done) + fingerprints(here)) == (before + fingerprints(
                done,
            )) + fingerprints(here));
        }
        match &entries[i] {
            SourceEntry::File { path, content } => {
                match content {
                    Ok(bytes) => {
                        let record = FileData { path: path.clone(), hash: hash_content(bytes) };
                        proof {
                            assert(snapshot_view(out@.push(record)) == snapshot_view(out@).push(
                                record@,
                            ));
                            assert(fingerprints(here) == seq![record@]);
                            assert(snapshot_view(out@).push(record@) == snapshot_view(out@)
                                + seq![record@]);
                            assert(first_unread(here) == 1) by {
                                assert(here.drop_last().len() == 0);
                            }
                        }
                        out.push(record);
                    },
                    Err(reason) => {
                        proof {
                            assert(first_unread(here) == 0) by {
                                assert(here.drop_last().len() == 0);
                            }
                            assert((done + here + rest)[done.len() as int] == here[0]);
                        }
                        return Err(
                            Error::SourceFile { path: path.clone(), reason: reason.clone() },
                        );
                    },
                }
            },
            SourceEntry::Dir { path, entries: below } => {
                match scan_entries(below, out) {
                    Ok(()) => {},
                    Err(e) => {
                        proof {
                            let bad = first_unread(here);
                            assert((done + here + rest)[done.len() + bad] == here[bad]);
                        }
                        return Err(e);
                    },
                }
            },
        }
        i += 1;
    }
    proof {
        assert(entries@.take(entries.len() as int) == entries@);
    }
    Ok(())
}

/// The view of the outcome of taking a snapshot.
pub open spec fn snapshot_result(r: Result<Vec<FileData>, Error>) -> Result<
    Seq<FileDataView>,
    ErrorView,
> {
    match r {
        Ok(files) => Ok(snapshot_view(files@)),
        Err(e) => Err(e@),
    }
}

/// The snapshot of a source tree: the fingerprint record of every file in it,
/// in the order of the walk. Fails if the source directory could not be
/// listed, or if any file could not be read: there is no partial snapshot.
pub fn get_all_files(tree: &SourceTree) -> (r: Result<Vec<FileData>, Error>)
    ensures
        snapshot_result(r) == snapshot_of(*tree),
{
    match &tree.listing {
        Err(reason) => Err(Error::SourceDir { dir: tree.dir.clone(), reason: reason.clone() }),
        Ok(entries) => {
            let mut out: Vec<FileData> = Vec::new();
            assert(snapshot_view(out@) == Seq::<FileDataView>::empty());
            match scan_entries(entries, &mut out) {
                Ok(()) => {
                    assert(Seq::<FileDataView>::empty() + fingerprints(files_among(entries@))
                        == fingerprints(files_among(entries@)));
                    Ok(out)
                },
                Err(e) => Err(e),
            }
        },
    }
}

/// The fingerprints of a source tree as they were at one moment: the state
/// that a build leaves behind for the next one.
#[derive(Debug)]
pub struct Cache {
    pub files: Vec<FileData>,
}

impl View for Cache {
    type V = Seq<FileDataView>;

    open spec fn view(&self) -> Seq<FileDataView> {
        snapshot_view(self.files@)
    }
}

impl Cache {
    /// The snapshot of `tree`.
    pub fn new(tree: &SourceTree) -> (r: Result<Self, Error>)
        ensures
            match r {
                Ok(cache) => snapshot_of(*tree) == Ok::<Seq<FileDataView>, ErrorView>(cache@),
                Err(e) => snapshot_of(*tree) == Err::<Seq<FileDataView>, ErrorView>(e@),
            },
    {
        match get_all_files(tree) {
            Ok(files) => Ok(Self { files }),
            Err(e) => Err(e),
        }
    }

    /// The records of the snapshot, in the order of the walk.
    pub fn get_files(&self) -> (r: &Vec<FileData>)
        ensures
            *r == self.files,
    {
        &self.files
    }

    /// The paths, in `tree`, of the files whose fingerprint is not the one
    /// that this snapshot has at the same position.
    ///
    /// Without a lock file there is no prior build state and the call fails,
    /// whatever `tree` holds. Otherwise it fails exactly when no snapshot of
    /// `tree` can be taken.
    pub fn get_changed(&self, lock_exists: bool, tree: &SourceTree) -> (r: Result<
        Vec<String>,
        Error,
    >)
        ensures
            match r {
                Ok(changed) => {
                    &&& lock_exists
                    &&& snapshot_of(*tree) is Ok
                    &&& texts(changed@) == changed_paths(self@, snapshot_of(*tree)->Ok_0)
                },
                Err(e) => if lock_exists {
                    snapshot_of(*tree) == Err::<Seq<FileDataView>, ErrorView>(e@)
                } else {
                    e@ == ErrorView::NoLock
                },
            },
    {
        if !lock_exists {
            return Err(Error::NoLock);
        }
        let current = match get_all_files(tree) {
            Ok(files) => files,
            Err(e) => {
                return Err(e);
            },
        };
        let ghost old_view = self@;
        let ghost new_view = snapshot_view(current@);
        let mut changed: Vec<String> = Vec::new();
        let mut i: usize = 0;
        assert(texts(changed@) == changed_below(old_view, new_view, 0).map_values(
            |k: int| new_view[k].path,
        ));
        while i < current.len()
            invariant
                i <= current.len(),
                old_view == snapshot_view(self.files@),
                new_view == snapshot_view(current@),
                texts(changed@) == changed_below(old_view, new_view, i as int).map_values(
                    |k: int| new_view[k].path,
                ),
            decreases current.len() - i,
        {
            if i < self.files.len() && !(self.files[i].hash == current[i].hash) {
                let path = current[i].path.clone();
                proof {
                    lemma_texts_push(changed@, path);
                    let before = changed_below(old_view, new_view, i as int);
                    assert(before.push(i as int).map_values(|k: int| new_view[k].path)
                        == before.map_values(|k: int| new_view[k].path).push(path@));
                }
                changed.push(path);
            }
            i += 1;
        }
        Ok(changed)
    }

    /// Replaces this snapshot by the snapshot of `tree`.
    ///
    /// Without a lock file the call fails, whatever `tree` holds. Otherwise it
    /// fails exactly when no snapshot of `tree` can be taken. A call that
    /// fails leaves the snapshot as it was.
    pub fn update_cache(&mut self, lock_exists: bool, tree: &SourceTree) -> (r: Result<(), Error>)
        ensures
            match r {
                Ok(()) => {
                    &&& lock_exists
                    &&& snapshot_of(*tree) == Ok::<Seq<FileDataView>, ErrorView>(final(self)@)
                },
                Err(e) => {
                    &&& final(self)@ == old(self)@
                    &&& if lock_exists {
                        snapshot_of(*tree) == Err::<Seq<FileDataView>, ErrorView>(e@)
                    } else {
                        e@ == ErrorView::NoLock
                    }
                },
            },
    {
        if !lock_exists {
            return Err(Error::NoLock);
        }
        match get_all_files(tree) {
            Ok(files) => {
                self.files = files;
                Ok(())
            },
            Err(e) => Err(e),
        }
    }
}

} // verus!
