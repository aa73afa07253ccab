//! Paths as plain strings: joining a directory entry onto its parent and
//! taking the base name (the part after the last `/`).

use vstd::prelude::*;
use vstd::string::StrSliceExecFns;
use vstd::string::StringExecFns;

verus! {

/// The characters of `path` after its last `/`; all of `path` when it
/// holds no `/`.
pub open spec fn base_name_of(path: Seq<char>) -> Seq<char>
    decreases path.len(),
{
    if path.len() == 0 {
        path
    } else if path.last() == '/' {
        Seq::empty()
    } else {
        base_name_of(path.drop_last()).push(path.last())
    }
}

/// `root`, a separator, and `name`.
pub open spec fn joined_path(root: Seq<char>, name: Seq<char>) -> Seq<char> {
    root + seq!['/'] + name
}

/// The base name of `path`: what a card shows when no richer summary is
/// available.
pub fn base_name(path: &str) -> (r: String)
    ensures
        r@ == base_name_of(path@),
{
    let n = path.unicode_len();
    let mut start: usize = 0;
    let mut i: usize = 0;
    while i < n
        invariant
            n == path@.len(),
            0 <= start <= i <= n,
            base_name_of(path@.subrange(0, i as int)) == path@.subrange(start as int, i as int),
        decreases n - i,
    {
        let c = path.get_char(i);
        proof {
            let pre = path@.subrange(0, i as int);
            let ext = path@.subrange(0, i + 1int);
            assert(ext.drop_last() =~= pre);
            assert(ext.last() == c);
            if c == '/' {
                assert(base_name_of(ext) =~= path@.subrange(i + 1int, i + 1int));
            } else {
                assert(base_name_of(ext) =~= path@.subrange(start as int, i + 1int));
            }
        }
        if c == '/' {
            start = i + 1;
        }
        i = i + 1;
    }
    proof {
        assert(path@.subrange(0, n as int) =~= path@);
    }
    let tail = path.substring_char(start, n);
    tail.to_owned()
}

/// The path of a directory entry named `name` inside the directory `root`.
pub fn join_path(root: &str, name: &str) -> (r: String)
    ensures
        r@ == joined_path(root@, name@),
{
    let mut p = root.to_owned();
    p.append("/");
    p.append(name);
    proof {
        reveal_strlit("/");
        assert(p@ =~= joined_path(root@, name@));
    }
    p
}

} // verus!
