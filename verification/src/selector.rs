//! The choice of what to compile: the files directly in the source directory
//! that are written in the project's language and are not the source of a
//! standalone binary; and, among those, the ones that a comparison of
//! snapshots has found changed.

use crate::error::{Error, ErrorView};
use crate::commands::Commands;
use crate::paths::extension_of;
use crate::project::{binaries_view, Binary, BinaryView};
use crate::text::{lemma_texts_push, text_eq, texts};
use vstd::prelude::*;

verus! {

/// An entry directly in a directory: its path, and whether it is a directory.
#[derive(Debug)]
pub struct DirEntry {
    pub path: String,
    pub is_dir: bool,
}

/// What a `DirEntry` holds, as text.
pub struct DirEntryView {
    pub path: Seq<char>,
    pub is_dir: bool,
}

impl View for DirEntry {
    type V = DirEntryView;

    open spec fn view(&self) -> DirEntryView {
        DirEntryView { path: self.path@, is_dir: self.is_dir }
    }
}

/// The views of a sequence of entries, in order.
pub open spec fn entries_view(entries: Seq<DirEntry>) -> Seq<DirEntryView> {
    entries.map_values(|e: DirEntry| e@)
}

/// Whether `path` is, letter for letter, the source path of one of `bins`.
pub open spec fn is_binary_source(path: Seq<char>, bins: Seq<BinaryView>) -> bool {
    exists|j: int| 0 <= j < bins.len() && (#[trigger] bins[j]).path == path
}

/// Whether `entry` is a compilation unit of the project: a file, not the
/// source of a standalone binary, with the extension of the project's language.
pub open spec fn is_unit(entry: DirEntryView, ext: Seq<char>, bins: Seq<BinaryView>) -> bool {
    &&& !entry.is_dir
    &&& !is_binary_source(entry.path, bins)
    &&& extension_of(entry.path) == Some(ext)
}

/// The paths of the compilation units among `entries`, in the order of the listing.
pub open spec fn selected(entries: Seq<DirEntryView>, ext: Seq<char>, bins: Seq<BinaryView>) -> Seq<
    Seq<char>,
> {
    entries.filter(|e: DirEntryView| is_unit(e, ext, bins)).map_values(|e: DirEntryView| e.path)
}

/// The files to compile where a comparison of snapshots has found `changed`:
/// each of `files` at whose position `changed` holds that same path.
pub open spec fn changed_units(files: Seq<Seq<char>>, changed: Seq<Seq<char>>) -> Seq<Seq<char>>
    decreases files.len(),
{
    if files.len() == 0 {
        Seq::empty()
    } else {
        let before = changed_units(files.drop_last(), changed);
        if files.len() <= changed.len() && changed[files.len() - 1] == files.last() {
            before.push(files.last())
        } else {
            before
        }
    }
}

/// Whether `path` is the source path of one of `bins`.
pub fn is_source_of_binary(path: &str, bins: &Vec<Binary>) -> (r: bool)
    ensures
        r == is_binary_source(path@, binaries_view(bins@)),
{
    let mut j: usize = 0;
    while j < bins.len()
        invariant
            j <= bins.len(),
            forall|k: int| 0 <= k < j ==> (#[trigger] binaries_view(bins@)[k]).path != path@,
        decreases bins.len() - j,
    {
        if text_eq(bins[j].path.as_str(), path) {
            assert(binaries_view(bins@)[j as int].path == path@);
            return true;
        }
        j += 1;
    }
    false
}

/// Whether the extension of `path` is `ext`.
pub fn has_extension(path: &str, ext: &str) -> (r: bool)
    ensures
        r == (extension_of(path@) == Some(ext@)),
{
    match Commands::get_extension_from_filename(path) {
        Some(found) => text_eq(found, ext),
        None => false,
    }
}

/// The compilation units among the entries of the source directory.
///
/// Fails with `Error::NoCompilableFiles` exactly when there is none.
pub fn select(entries: &Vec<DirEntry>, ext: &str, bins: &Vec<Binary>) -> (r: Result<
    Vec<String>,
    Error,
>)
    ensures
        match r {
            Ok(files) => {
                &&& files@.len() > 0
                &&& texts(files@) == selected(entries_view(entries@), ext@, binaries_view(bins@))
            },
            Err(e) => {
                &&& e@ == ErrorView::NoCompilableFiles
                &&& selected(entries_view(entries@), ext@, binaries_view(bins@)).len() == 0
            },
        },
{
    let ghost all = entries_view(entries@);
    let ghost unit = |e: DirEntryView| is_unit(e, ext@, binaries_view(bins@));
    let ghost path_of = |e: DirEntryView| e.path;
    let mut files: Vec<String> = Vec::new();
    let mut i: usize = 0;
    proof {
        reveal(Seq::filter);
        assert(all.take(0).filter(unit).map_values(path_of) =~= texts(files@));
    }
    while i < entries.len()
        invariant
            i <= entries.len(),
            all == entries_view(entries@),
            unit == |e: DirEntryView| is_unit(e, ext@, binaries_view(bins@)),
            path_of == |e: DirEntryView| e.path,
            texts(files@) == all.take(i as int).filter(unit).map_values(path_of),
        decreases entries.len() - i,
    {
        let entry = &entries[i];
        proof {
            reveal(Seq::filter);
            assert(all.take(i + 1).drop_last() == all.take(i as int));
            assert(all.take(i + 1).last() == entry@);
        }
        if !entry.is_dir && !is_source_of_binary(entry.path.as_str(), bins) && has_extension(
            entry.path.as_str(),
            ext,
        ) {
            let path = entry.path.clone();
            proof {
                lemma_texts_push(files@, path);
                let kept = all.take(i as int).filter(unit);
                assert(kept.push(entry@).map_values(path_of) =~= kept.map_values(path_of).push(
                    path@,
                ));
            }
            files.push(path);
        }
        i += 1;
    }
    assert(all.take(entries.len() as int) == all);
    if files.len() == 0 {
        Err(Error::NoCompilableFiles)
    } else {
        Ok(files)
    }
}

/// Each of `files` at whose position `changed` holds that same path.
pub fn select_changed(files: &Vec<String>, changed: &Vec<String>) -> (r: Vec<String>)
    ensures
        texts(r@) == changed_units(texts(files@), texts(changed@)),
{
    let mut out: Vec<String> = Vec::new();
    let mut i: usize = 0;
    assert(texts(files@).take(0) == Seq::<Seq<char>>::empty());
    assert(texts(out@) =~= Seq::<Seq<char>>::empty());
    while i < files.len()
        invariant
            i <= files.len(),
            texts(out@) == changed_units(texts(files@).take(i as int), texts(changed@)),
        decreases files.len() - i,
    {
        proof {
            assert(texts(files@).take(i + 1).drop_last() == texts(files@).take(i as int));
            assert(texts(files@).take(i + 1).last() == files@[i as int]@);
        }
        if i < changed.len() && text_eq(changed[i].as_str(), files[i].as_str()) {
            let path = files[i].clone();
            proof {
                lemma_texts_push(out@, path);
            }
            out.push(path);
        }
        i += 1;
    }
    assert(texts(files@).take(files.len() as int) == texts(files@));
    out
}

} // verus!
