//! The listing of a directory: its entries as the enumeration found them,
//! and the regular files among them.

use vstd::prelude::*;

verus! {

/// One entry of a directory as the enumeration found it.
#[derive(Clone, Debug, PartialEq, Eq)]
pub struct DirEntry {
    /// The path of the entry.
    pub path: String,
    /// Whether the entry is a regular file.
    pub is_file: bool,
}

/// The mathematical content of a `DirEntry`.
pub struct DirEntryView {
    pub path: Seq<char>,
    pub is_file: bool,
}

impl View for DirEntry {
    type V = DirEntryView;

    open spec fn view(&self) -> DirEntryView {
        DirEntryView { path: self.path@, is_file: self.is_file }
    }
}

/// The paths of the entries that are regular files, in the order of the
/// entries.
pub open spec fn regular_files(entries: Seq<DirEntryView>) -> Seq<Seq<char>>
    decreases entries.len(),
{
    if entries.len() == 0 {
        Seq::empty()
    } else if entries.last().is_file {
        regular_files(entries.drop_last()).push(entries.last().path)
    } else {
        regular_files(entries.drop_last())
    }
}

/// The mathematical content of a list of paths.
pub open spec fn paths_view(paths: Seq<String>) -> Seq<Seq<char>> {
    paths.map_values(|p: String| p@)
}

/// The mathematical content of a list of entries.
pub open spec fn entries_view(entries: Seq<DirEntry>) -> Seq<DirEntryView> {
    entries.map_values(|e: DirEntry| e@)
}

/// The paths of the entries that are regular files, in the order of the
/// entries.
pub fn regular_file_paths(entries: &Vec<DirEntry>) -> (paths: Vec<String>)
    ensures
        paths_view(paths@) == regular_files(entries_view(entries@)),
        paths@.len() <= entries@.len(),
        forall|path: Seq<char>| #[trigger]
            paths_view(paths@).contains(path) <==> exists|i: int|
                0 <= i < entries@.len() && (#[trigger] entries@[i]).is_file && entries@[i].path@
                    == path,
{
    proof {
        lemma_regular_files(entries_view(entries@));
        assert forall|path: Seq<char>| #[trigger]
            regular_files(entries_view(entries@)).contains(path) <==> exists|i: int|
                0 <= i < entries@.len() && (#[trigger] entries@[i]).is_file && entries@[i].path@
                    == path by {
            let views = entries_view(entries@);
            if regular_files(views).contains(path) {
                let i = choose|i: int|
                    0 <= i < views.len() && (#[trigger] views[i]).is_file && views[i].path == path;
                assert(entries@[i].is_file && entries@[i].path@ == path);
            }
            if exists|i: int|
                0 <= i < entries@.len() && (#[trigger] entries@[i]).is_file && entries@[i].path@
                    == path {
                let i = choose|i: int|
                    0 <= i < entries@.len() && (#[trigger] entries@[i]).is_file
                        && entries@[i].path@ == path;
                assert(views[i].is_file && views[i].path == path);
            }
        }
    }
    let mut paths: Vec<String> = Vec::new();
    let mut i: usize = 0;
    while i < entries.len()
        invariant
            i <= entries.len(),
            paths_view(paths@) == regular_files(entries_view(entries@).take(i as int)),
        decreases entries.len() - i,
    {
        assert(entries_view(entries@).take(i + 1).drop_last() == entries_view(entries@).take(
            i as int,
        ));
        if entries[i].is_file {
            paths.push(entries[i].path.clone());
        }
        i += 1;
    }
    assert(entries_view(entries@).take(i as int) == entries_view(entries@));
    paths
}

/// The regular files of a listing are the paths of its entries that are
/// regular files, and no others.
pub proof fn lemma_regular_files(entries: Seq<DirEntryView>)
    ensures
        regular_files(entries).len() <= entries.len(),
        forall|path: Seq<char>| #[trigger]
            regular_files(entries).contains(path) <==> exists|i: int|
                0 <= i < entries.len() && (#[trigger] entries[i]).is_file && entries[i].path
                    == path,
    decreases entries.len(),
{
    if entries.len() > 0 {
        let rest = entries.drop_last();
        lemma_regular_files(rest);
        assert forall|path: Seq<char>| #[trigger]
            regular_files(entries).contains(path) <==> exists|i: int|
                0 <= i < entries.len() && (#[trigger] entries[i]).is_file && entries[i].path
                    == path by {
            if regular_files(entries).contains(path) {
                if regular_files(rest).contains(path) {
                    let i = choose|i: int|
                        0 <= i < rest.len() && (#[trigger] rest[i]).is_file && rest[i].path == path;
                    assert(entries[i].is_file && entries[i].path == path);
                } else {
                    assert(entries[entries.len() - 1].is_file);
                }
            }
            if exists|i: int|
                0 <= i < entries.len() && (#[trigger] entries[i]).is_file && entries[i].path
                    == path {
                let i = choose|i: int|
                    0 <= i < entries.len() && (#[trigger] entries[i]).is_file && entries[i].path
                        == path;
                if i < rest.len() {
                    assert(rest[i].is_file && rest[i].path == path);
                    assert(regular_files(rest).contains(path));
                    let at = choose|at: int|
                        0 <= at < regular_files(rest).len() && regular_files(rest)[at] == path;
                    assert(regular_files(entries)[at] == path);
                } else {
                    assert(regular_files(entries)[regular_files(entries).len() - 1] == path);
                }
            }
        }
    }
}

} // verus!
