//! In-memory model of a directory tree, and the size aggregator.
//!
//! A `DirTree` is a point-in-time snapshot of one directory: its base name,
//! the byte lengths of the regular files directly inside it, and its
//! subdirectories. Symbolic links and unreadable entries are absent from a
//! snapshot by construction, so sizes computed here never follow links.
use vstd::prelude::*;

verus! {

/// Snapshot of one directory: base name, direct regular-file sizes, subdirectories.
pub struct DirTree {
    /// Base name of this directory (one path component).
    pub name: String,
    /// Byte length of each regular file directly in this directory.
    pub files: Vec<u64>,
    /// Subdirectories, each a full snapshot of its own subtree.
    pub subdirs: Vec<DirTree>,
}

/// Sum of a sequence of file sizes, as an unbounded integer.
pub open spec fn files_sum(s: Seq<u64>) -> nat
    decreases s.len(),
{
    if s.len() == 0 {
        0
    } else {
        (files_sum(s.drop_last()) + s.last()) as nat
    }
}

/// Total recursive size of a directory tree: every regular file reachable
/// under it, summed, as an unbounded integer.
pub open spec fn tree_size(t: DirTree) -> nat
    decreases t,
{
    files_sum(t.files@) + forest_size(t.subdirs@)
}

/// Total size of a sequence of directory trees.
pub open spec fn forest_size(ts: Seq<DirTree>) -> nat
    decreases ts,
{
    if ts.len() == 0 {
        0
    } else {
        forest_size(ts.drop_last()) + tree_size(ts.last())
    }
}

/// Computes the total recursive size in bytes of the snapshot `t`.
pub fn dir_size_recursive(t: &DirTree) -> (size: u64)
    requires
        tree_size(*t) <= u64::MAX,
    ensures
        size == tree_size(*t),
    decreases *t,
{
    let mut size: u64 = 0;
    let mut i: usize = 0;
    assert(files_sum(t.files@.subrange(0, 0)) == 0);
    while i < t.files.len()
        invariant
            0 <= i <= t.files.len(),
            size == files_sum(t.files@.subrange(0, i as int)),
            files_sum(t.files@) + forest_size(t.subdirs@) <= u64::MAX,
        decreases t.files.len() - i,
    {
        proof {
            lemma_files_sum_monotone(t.files@, i + 1);
            assert(t.files@.subrange(0, i + 1).drop_last() =~= t.files@.subrange(0, i as int));
            assert(t.files@.subrange(0, i + 1).last() == t.files@[i as int]);
        }
        size = size + t.files[i];
        i = i + 1;
    }
    proof {
        assert(t.files@.subrange(0, t.files@.len() as int) =~= t.files@);
    }
    let mut j: usize = 0;
    while j < t.subdirs.len()
        invariant
            0 <= j <= t.subdirs.len(),
            size == files_sum(t.files@) + forest_size(t.subdirs@.subrange(0, j as int)),
            files_sum(t.files@) + forest_size(t.subdirs@) <= u64::MAX,
        decreases t.subdirs.len() - j,
    {
        proof {
            lemma_forest_size_monotone(t.subdirs@, j + 1);
            assert(t.subdirs@.subrange(0, j + 1).drop_last() =~= t.subdirs@.subrange(0, j as int));
            assert(t.subdirs@.subrange(0, j + 1).last() == t.subdirs@[j as int]);
        }
        let sub = dir_size_recursive(&t.subdirs[j]);
        size = size + sub;
        j = j + 1;
    }
    proof {
        assert(t.subdirs@.subrange(0, t.subdirs@.len() as int) =~= t.subdirs@);
    }
    size
}

/// The sum of a prefix of file sizes never exceeds the sum of the whole.
proof fn lemma_files_sum_monotone(s: Seq<u64>, n: int)
    requires
        0 <= n <= s.len(),
    ensures
        files_sum(s.subrange(0, n)) <= files_sum(s),
    decreases s.len(),
{
    if n < s.len() {
        assert(s.drop_last().subrange(0, n) =~= s.subrange(0, n));
        lemma_files_sum_monotone(s.drop_last(), n);
    } else {
        assert(s.subrange(0, n) =~= s);
    }
}

/// The size of one member of a forest never exceeds the size of the whole forest.
pub(crate) proof fn lemma_forest_member_size(ts: Seq<DirTree>, j: int)
    requires
        0 <= j < ts.len(),
    ensures
        tree_size(ts[j]) <= forest_size(ts),
    decreases ts.len(),
{
    if j == ts.len() - 1 {
        assert(ts.last() == ts[j]);
    } else {
        lemma_forest_member_size(ts.drop_last(), j);
        assert(ts.drop_last()[j] == ts[j]);
    }
}

/// The size of a prefix of a forest never exceeds the size of the whole forest.
proof fn lemma_forest_size_monotone(ts: Seq<DirTree>, n: int)
    requires
        0 <= n <= ts.len(),
    ensures
        forest_size(ts.subrange(0, n)) <= forest_size(ts),
    decreases ts.len(),
{
    if n < ts.len() {
        assert(ts.drop_last().subrange(0, n) =~= ts.subrange(0, n));
        lemma_forest_size_monotone(ts.drop_last(), n);
    } else {
        assert(ts.subrange(0, n) =~= ts);
    }
}

} // verus!
