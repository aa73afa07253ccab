//! Discovery of repositories under a chosen root directory.
//!
//! The caller lists the directory (that is the only I/O) and hands the
//! listing in as a [`DirListing`]; [`scan`] decides which paths are
//! repository candidates. A directory qualifies when it is a directory and
//! holds a `.git` subdirectory; bare repositories and `.git`-file worktree
//! links are not recognized.

use vstd::prelude::*;
use crate::paths::{joined_path, join_path};

verus! {

/// One immediate child of the root, with the two facts the scan reads:
/// whether it is a directory and whether it holds a `.git` subdirectory.
#[derive(Debug, Clone)]
pub struct FsEntry {
    pub name: String,
    pub is_dir: bool,
    pub has_git_dir: bool,
}

/// What listing the root directory gave: the same two facts about the
/// root itself, and its children — `None` when the root could not be read
/// (missing, unreadable, or not a directory).
#[derive(Debug)]
pub struct DirListing {
    pub root_is_dir: bool,
    pub root_has_git_dir: bool,
    pub entries: Option<Vec<FsEntry>>,
}

/// Whether an entry is a repository candidate.
pub open spec fn is_repository(e: FsEntry) -> bool {
    e.is_dir && e.has_git_dir
}

/// The candidate paths among `entries`, in listing order.
pub open spec fn scanned_paths(root: Seq<char>, entries: Seq<FsEntry>) -> Seq<Seq<char>> {
    entries.filter(|e: FsEntry| is_repository(e)).map_values(
        |e: FsEntry| joined_path(root, e.name@),
    )
}

/// What a scan of `root` yields: the root alone when the root is itself a
/// repository, nothing when the root could not be read, and otherwise the
/// qualifying children in listing order.
pub open spec fn scan_result(root: Seq<char>, listing: DirListing) -> Seq<Seq<char>> {
    if listing.root_is_dir && listing.root_has_git_dir {
        seq![root]
    } else {
        match listing.entries {
            Some(entries) => scanned_paths(root, entries@),
            None => Seq::empty(),
        }
    }
}

/// Extending the listing by one entry extends the candidates by that
/// entry's path exactly when it qualifies.
proof fn lemma_scanned_paths_push(root: Seq<char>, entries: Seq<FsEntry>, e: FsEntry)
    ensures
        scanned_paths(root, entries.push(e)) == if is_repository(e) {
            scanned_paths(root, entries).push(joined_path(root, e.name@))
        } else {
            scanned_paths(root, entries)
        },
{
    reveal(Seq::filter);
    assert(entries.push(e).drop_last() =~= entries);
    assert(entries.push(e).last() == e);
    if is_repository(e) {
        assert(scanned_paths(root, entries.push(e)) =~= scanned_paths(root, entries).push(
            joined_path(root, e.name@),
        ));
    } else {
        assert(scanned_paths(root, entries.push(e)) =~= scanned_paths(root, entries));
    }
}

/// The paths of the repositories found under `root`, in listing order.
pub fn scan(root: &String, listing: &DirListing) -> (r: Vec<String>)
    ensures
        r.deep_view() == scan_result(root@, *listing),
{
    let mut out: Vec<String> = Vec::new();
    if listing.root_is_dir && listing.root_has_git_dir {
        out.push(root.clone());
        proof {
            assert(out.deep_view() =~= scan_result(root@, *listing));
        }
        return out;
    }
    match &listing.entries {
        None => {
            proof {
                assert(out.deep_view() =~= scan_result(root@, *listing));
            }
            out
        },
        Some(entries) => {
            let n = entries.len();
            let mut i: usize = 0;
            while i < n
                invariant
                    n == entries@.len(),
                    0 <= i <= n,
                    out.deep_view() == scanned_paths(root@, entries@.subrange(0, i as int)),
                decreases n - i,
            {
                let ghost pre = entries@.subrange(0, i as int);
                let e = &entries[i];
                proof {
                    assert(entries@.subrange(0, i + 1int) =~= pre.push(entries@[i as int]));
                    lemma_scanned_paths_push(root@, pre, entries@[i as int]);
                }
                if e.is_dir && e.has_git_dir {
                    let ghost before = out.deep_view();
                    let p = join_path(root.as_str(), e.name.as_str());
                    out.push(p);
                    proof {
                        assert(out.deep_view() =~= before.push(
                            joined_path(root@, entries@[i as int].name@),
                        ));
                    }
                }
                i = i + 1;
            }
            proof {
                assert(entries@.subrange(0, n as int) =~= entries@);
            }
            out
        },
    }
}

/// Whether `p` is the path of some qualifying child among `entries`.
pub open spec fn from_qualifying_child(root: Seq<char>, entries: Seq<FsEntry>, p: Seq<char>) -> bool {
    exists|j: int|
        0 <= j < entries.len() && is_repository(#[trigger] entries[j]) && p == joined_path(
            root,
            entries[j].name@,
        )
}

/// A scan never reports a path it made up: it yields exactly as many
/// candidates as there are qualifying children, and each result is the
/// path of one qualifying child.
pub proof fn lemma_scan_yields_qualifying_children(root: Seq<char>, entries: Seq<FsEntry>)
    ensures
        scanned_paths(root, entries).len() == entries.filter(
            |e: FsEntry| is_repository(e),
        ).len(),
        forall|i: int|
            0 <= i < scanned_paths(root, entries).len() ==> from_qualifying_child(
                root,
                entries,
                #[trigger] scanned_paths(root, entries)[i],
            ),
    decreases entries.len(),
{
    reveal(Seq::filter);
    let found = scanned_paths(root, entries);
    if entries.len() > 0 {
        let prefix = entries.drop_last();
        let e = entries.last();
        lemma_scan_yields_qualifying_children(root, prefix);
        assert(prefix.push(e) =~= entries);
        lemma_scanned_paths_push(root, prefix, e);
        assert forall|i: int| 0 <= i < found.len() implies from_qualifying_child(
            root,
            entries,
            found[i],
        ) by {
            if i < scanned_paths(root, prefix).len() {
                let j = choose|j: int|
                    0 <= j < prefix.len() && is_repository(#[trigger] prefix[j]) && scanned_paths(
                        root,
                        prefix,
                    )[i] == joined_path(root, prefix[j].name@);
                assert(entries[j] == prefix[j]);
                assert(found[i] == joined_path(root, entries[j].name@));
            } else {
                let j = entries.len() - 1;
                assert(is_repository(entries[j]) && found[i] == joined_path(
                    root,
                    entries[j].name@,
                ));
            }
        }
    }
}

/// A root that could not be read yields no candidates — and never an
/// error.
pub proof fn lemma_scan_unreadable_root(root: Seq<char>, listing: DirListing)
    requires
        !(listing.root_is_dir && listing.root_has_git_dir),
        listing.entries is None,
    ensures
        scan_result(root, listing) == Seq::<Seq<char>>::empty(),
{
}

/// A root that is itself a repository yields exactly one candidate, the
/// root itself — its children are not scanned.
pub proof fn lemma_scan_repository_root(root: Seq<char>, listing: DirListing)
    requires
        listing.root_is_dir,
        listing.root_has_git_dir,
    ensures
        scan_result(root, listing) == seq![root],
{
}

} // verus!
