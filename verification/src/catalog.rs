//! The entry catalog: one entry per matched directory, with its total size,
//! built by running the scanner and the size aggregator over a snapshot and
//! sorting the result by size, largest first.
use vstd::prelude::*;

use crate::tree::{dir_size_recursive, lemma_forest_member_size, tree_size, DirTree};
use crate::scan::{clone_path, scan_spec};

verus! {

broadcast use vstd::seq_lib::group_to_multiset_ensures;

/// One discovered target directory: its path (root first, one component per
/// directory name) and the total size of its subtree in bytes, as measured
/// when the catalog was built.
pub struct NodeModuleEntry {
    /// Path of the directory, one component per directory name.
    pub path: Vec<String>,
    /// Total recursive size in bytes at catalog-build time.
    pub size_bytes: u64,
}

/// Mathematical model of an entry: the path's character sequences and the size.
pub open spec fn entry_model(e: NodeModuleEntry) -> (Seq<Seq<char>>, nat) {
    (e.path.deep_view(), e.size_bytes as nat)
}

/// Model of a sequence of entries.
pub open spec fn entry_models(s: Seq<NodeModuleEntry>) -> Seq<(Seq<Seq<char>>, nat)> {
    s.map_values(|e: NodeModuleEntry| entry_model(e))
}

/// The entries that the scan-and-aggregate pass over `t` yields, in traversal
/// order: for each match, its path and the total size of its subtree.
pub open spec fn entries_spec(t: DirTree, prefix: Seq<Seq<char>>, target: Seq<char>) -> Seq<
    (Seq<Seq<char>>, nat),
>
    decreases t,
{
    if t.name@ == target {
        seq![(prefix.push(t.name@), tree_size(t))]
    } else {
        entries_forest_spec(t.subdirs@, prefix.push(t.name@), target)
    }
}

/// The concatenated entries of a sequence of sibling directories.
pub open spec fn entries_forest_spec(
    ts: Seq<DirTree>,
    prefix: Seq<Seq<char>>,
    target: Seq<char>,
) -> Seq<(Seq<Seq<char>>, nat)>
    decreases ts,
{
    if ts.len() == 0 {
        Seq::empty()
    } else {
        entries_forest_spec(ts.drop_last(), prefix, target) + entries_spec(
            ts.last(),
            prefix,
            target,
        )
    }
}

/// The paths of the scan-and-aggregate entries are exactly the scanner's paths.
pub proof fn lemma_entries_paths(t: DirTree, prefix: Seq<Seq<char>>, target: Seq<char>)
    ensures
        entries_spec(t, prefix, target).map_values(|m: (Seq<Seq<char>>, nat)| m.0) == scan_spec(
            t,
            prefix,
            target,
        ),
    decreases t,
{
    if t.name@ == target {
        assert(entries_spec(t, prefix, target).map_values(|m: (Seq<Seq<char>>, nat)| m.0)
            =~= scan_spec(t, prefix, target));
    } else {
        lemma_entries_forest_paths(t.subdirs@, prefix.push(t.name@), target);
    }
}

/// Forest version of `lemma_entries_paths`.
proof fn lemma_entries_forest_paths(ts: Seq<DirTree>, prefix: Seq<Seq<char>>, target: Seq<char>)
    ensures
        entries_forest_spec(ts, prefix, target).map_values(|m: (Seq<Seq<char>>, nat)| m.0)
            == crate::scan::scan_forest_spec(ts, prefix, target),
    decreases ts,
{
    if ts.len() == 0 {
        assert(entries_forest_spec(ts, prefix, target).map_values(
            |m: (Seq<Seq<char>>, nat)| m.0,
        ) =~= crate::scan::scan_forest_spec(ts, prefix, target));
    } else {
        lemma_entries_forest_paths(ts.drop_last(), prefix, target);
        lemma_entries_paths(ts.last(), prefix, target);
        assert(entries_forest_spec(ts, prefix, target).map_values(|m: (Seq<Seq<char>>, nat)| m.0)
            =~= crate::scan::scan_forest_spec(ts, prefix, target));
    }
}

/// Runs the scanner and the size aggregator in one pass over the snapshot
/// `t`: one entry per matched directory, in traversal order, each carrying
/// the total size of its subtree.
pub fn collect_entries(t: &DirTree, prefix: &Vec<String>, target: &String) -> (r: Vec<
    NodeModuleEntry,
>)
    requires
        tree_size(*t) <= u64::MAX,
    ensures
        entry_models(r@) == entries_spec(*t, prefix.deep_view(), target@),
    decreases *t,
{
    let mut r: Vec<NodeModuleEntry> = Vec::new();
    if t.name == *target {
        let mut path: Vec<String> = clone_path(prefix);
        path.push(t.name.clone());
        proof {
            assert(path.deep_view() =~= prefix.deep_view().push(t.name@));
        }
        let size_bytes = dir_size_recursive(t);
        r.push(NodeModuleEntry { path, size_bytes });
        proof {
            assert(entry_models(r@) =~= entries_spec(*t, prefix.deep_view(), target@));
        }
    } else {
        let mut child_prefix: Vec<String> = clone_path(prefix);
        child_prefix.push(t.name.clone());
        proof {
            assert(child_prefix.deep_view() =~= prefix.deep_view().push(t.name@));
        }
        let ghost pre2 = child_prefix.deep_view();
        let mut i: usize = 0;
        while i < t.subdirs.len()
            invariant
                0 <= i <= t.subdirs.len(),
                tree_size(*t) <= u64::MAX,
                child_prefix.deep_view() == pre2,
                entry_models(r@) == entries_forest_spec(
                    t.subdirs@.subrange(0, i as int),
                    pre2,
                    target@,
                ),
            decreases t.subdirs.len() - i,
        {
            proof {
                lemma_forest_member_size(t.subdirs@, i as int);
            }
            let ghost r0 = entry_models(r@);
            let mut sub = collect_entries(&t.subdirs[i], &child_prefix, target);
            let ghost subm = entry_models(sub@);
            r.append(&mut sub);
            proof {
                assert(entry_models(r@) =~= r0 + subm);
                assert(t.subdirs@.subrange(0, i + 1).drop_last() =~= t.subdirs@.subrange(
                    0,
                    i as int,
                ));
                assert(t.subdirs@.subrange(0, i + 1).last() == t.subdirs@[i as int]);
            }
            i = i + 1;
        }
        proof {
            assert(t.subdirs@.subrange(0, t.subdirs@.len() as int) =~= t.subdirs@);
        }
    }
    r
}

/// Entries ordered by size, largest first.
pub open spec fn sorted_desc(s: Seq<NodeModuleEntry>) -> bool {
    forall|a: int, b: int| 0 <= a < b < s.len() ==> s[a].size_bytes >= s[b].size_bytes
}

/// Models of a removed-element sequence: removing commutes with taking models.
proof fn lemma_models_remove(s: Seq<NodeModuleEntry>, i: int)
    requires
        0 <= i < s.len(),
    ensures
        entry_models(s.remove(i)) == entry_models(s).remove(i),
{
    assert(entry_models(s.remove(i)) =~= entry_models(s).remove(i));
}

/// Models of an inserted-element sequence: inserting commutes with taking models.
proof fn lemma_models_insert(s: Seq<NodeModuleEntry>, i: int, e: NodeModuleEntry)
    requires
        0 <= i <= s.len(),
    ensures
        entry_models(s.insert(i, e)) == entry_models(s).insert(i, entry_model(e)),
{
    assert(entry_models(s.insert(i, e)) =~= entry_models(s).insert(i, entry_model(e)));
}

/// Sorts the entries by size in non-increasing order. The result holds the
/// same entries (same multiset of models) as the input.
pub fn sort_entries_desc(entries: &mut Vec<NodeModuleEntry>)
    ensures
        sorted_desc(final(entries)@),
        entry_models(final(entries)@).to_multiset() == entry_models(old(entries)@).to_multiset(),
        final(entries)@.len() == old(entries)@.len(),
{
    let mut i: usize = 1;
    while i < entries.len()
        invariant
            1 <= i,
            entries@.len() == old(entries)@.len(),
            i <= entries@.len() || i == 1,
            forall|a: int, b: int|
                0 <= a < b < i && b < entries@.len() ==> entries@[a].size_bytes
                    >= entries@[b].size_bytes,
            entry_models(entries@).to_multiset() == entry_models(old(entries)@).to_multiset(),
        decreases entries@.len() - i,
    {
        let ghost s0 = entries@;
        let e = entries.remove(i);
        proof {
            lemma_models_remove(s0, i as int);
        }
        let ghost s1 = entries@;
        let mut p: usize = 0;
        while p < i && entries[p].size_bytes >= e.size_bytes
            invariant
                0 <= p <= i,
                i < s0.len(),
                entries@ == s1,
                s1.len() == s0.len() - 1,
                forall|k: int| 0 <= k < p ==> entries@[k].size_bytes >= e.size_bytes,
            decreases i - p,
        {
            p = p + 1;
        }
        entries.insert(p, e);
        proof {
            lemma_models_insert(s1, p as int, e);
            assert(entry_models(entries@).to_multiset() =~= entry_models(s0).to_multiset());
            assert forall|a: int, b: int|
                0 <= a < b < i + 1 && b < entries@.len() implies entries@[a].size_bytes
                >= entries@[b].size_bytes by {
                if b < p {
                    assert(entries@[a] == s1[a] && entries@[b] == s1[b]);
                } else if b == p {
                    assert(entries@[a] == s1[a]);
                } else if a < p {
                    assert(entries@[a] == s1[a] && entries@[b] == s1[b - 1]);
                } else if a == p {
                    assert(entries@[b] == s1[b - 1]);
                } else {
                    assert(entries@[a] == s1[a - 1] && entries@[b] == s1[b - 1]);
                }
            }
        }
        i = i + 1;
    }
}

/// Builds the catalog's entry list from the snapshot `t`: scans for
/// directories named `target` (pruning), sizes each match, and sorts the
/// result by size, largest first.
pub fn build_entries(t: &DirTree, prefix: &Vec<String>, target: &String) -> (r: Vec<
    NodeModuleEntry,
>)
    requires
        tree_size(*t) <= u64::MAX,
    ensures
        sorted_desc(r@),
        entry_models(r@).to_multiset() == entries_spec(
            *t,
            prefix.deep_view(),
            target@,
        ).to_multiset(),
        r@.len() == entries_spec(*t, prefix.deep_view(), target@).len(),
{
    let mut r = collect_entries(t, prefix, target);
    sort_entries_desc(&mut r);
    proof {
        assert(entry_models(r@).len() == r@.len());
        assert(entries_spec(*t, prefix.deep_view(), target@).to_multiset().len() == entry_models(
            r@,
        ).to_multiset().len());
    }
    r
}

} // verus!
