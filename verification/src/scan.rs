//! The tree scanner: finds every directory whose base name equals the target
//! name, without descending into the interior of a match (pruning).
//!
//! A path is a sequence of directory names, root first. The scanner's result
//! therefore never contains a path that is a strict descendant of another
//! result: descent stops at every match.
use vstd::prelude::*;

use crate::tree::DirTree;

verus! {

/// The paths that a pruning scan of `t` yields, in traversal order.
/// `prefix` is the path of `t`'s parent; a match contributes the single path
/// `prefix + [t.name]` and hides its whole subtree.
pub open spec fn scan_spec(t: DirTree, prefix: Seq<Seq<char>>, target: Seq<char>) -> Seq<
    Seq<Seq<char>>,
>
    decreases t,
{
    if t.name@ == target {
        seq![prefix.push(t.name@)]
    } else {
        scan_forest_spec(t.subdirs@, prefix.push(t.name@), target)
    }
}

/// The concatenated scan results of a sequence of sibling directories.
pub open spec fn scan_forest_spec(
    ts: Seq<DirTree>,
    prefix: Seq<Seq<char>>,
    target: Seq<char>,
) -> Seq<Seq<Seq<char>>>
    decreases ts,
{
    if ts.len() == 0 {
        Seq::empty()
    } else {
        scan_forest_spec(ts.drop_last(), prefix, target) + scan_spec(ts.last(), prefix, target)
    }
}

/// Shape of every scanned path: it strictly extends `prefix`, its last
/// component is the target name, and no component added between `prefix` and
/// the end is the target name (descent never passes through a match).
pub open spec fn scan_path_ok(prefix: Seq<Seq<char>>, target: Seq<char>, p: Seq<Seq<char>>) -> bool {
    &&& p.len() > prefix.len()
    &&& p.subrange(0, prefix.len() as int) == prefix
    &&& p.last() == target
    &&& forall|k: int| prefix.len() <= k < p.len() - 1 ==> p[k] != target
}

/// `a` names a strict ancestor of `b`: `b` is a path inside the directory `a`.
pub open spec fn is_strict_prefix(a: Seq<Seq<char>>, b: Seq<Seq<char>>) -> bool {
    a.len() < b.len() && b.subrange(0, a.len() as int) == a
}

/// A path that is ok for an extended prefix whose added component is not the
/// target is also ok for the shorter prefix.
proof fn lemma_path_ok_weaken(
    prefix: Seq<Seq<char>>,
    name: Seq<char>,
    target: Seq<char>,
    q: Seq<Seq<char>>,
)
    requires
        name != target,
        scan_path_ok(prefix.push(name), target, q),
    ensures
        scan_path_ok(prefix, target, q),
{
    let pre2 = prefix.push(name);
    assert(q.subrange(0, pre2.len() as int) == pre2);
    assert forall|k: int| 0 <= k < pre2.len() implies q[k] == pre2[k] by {
        assert(q.subrange(0, pre2.len() as int)[k] == q[k]);
    }
    assert(q.subrange(0, prefix.len() as int) =~= prefix);
    assert forall|k: int| prefix.len() <= k < q.len() - 1 implies q[k] != target by {
        if k == prefix.len() {
            assert(q[k] == pre2[prefix.len() as int]);
        }
    }
}

/// Every path in a scan result has the `scan_path_ok` shape.
proof fn lemma_scan_paths_ok(t: DirTree, prefix: Seq<Seq<char>>, target: Seq<char>)
    ensures
        forall|n: int|
            0 <= n < scan_spec(t, prefix, target).len() ==> scan_path_ok(
                prefix,
                target,
                #[trigger] scan_spec(t, prefix, target)[n],
            ),
    decreases t,
{
    let r = scan_spec(t, prefix, target);
    if t.name@ == target {
        let p = prefix.push(t.name@);
        assert(p.subrange(0, prefix.len() as int) =~= prefix);
        assert(scan_path_ok(prefix, target, p));
    } else {
        let pre2 = prefix.push(t.name@);
        lemma_scan_forest_paths_ok(t.subdirs@, pre2, target);
        assert(r == scan_forest_spec(t.subdirs@, pre2, target));
        assert forall|n: int| 0 <= n < r.len() implies scan_path_ok(prefix, target, r[n]) by {
            assert(scan_path_ok(pre2, target, scan_forest_spec(t.subdirs@, pre2, target)[n]));
            lemma_path_ok_weaken(prefix, t.name@, target, r[n]);
        }
    }
}

/// Every path in a forest scan result has the `scan_path_ok` shape.
proof fn lemma_scan_forest_paths_ok(ts: Seq<DirTree>, prefix: Seq<Seq<char>>, target: Seq<char>)
    ensures
        forall|n: int|
            0 <= n < scan_forest_spec(ts, prefix, target).len() ==> scan_path_ok(
                prefix,
                target,
                #[trigger] scan_forest_spec(ts, prefix, target)[n],
            ),
    decreases ts,
{
    if ts.len() > 0 {
        lemma_scan_forest_paths_ok(ts.drop_last(), prefix, target);
        lemma_scan_paths_ok(ts.last(), prefix, target);
        let a = scan_forest_spec(ts.drop_last(), prefix, target);
        let b = scan_spec(ts.last(), prefix, target);
        assert(scan_forest_spec(ts, prefix, target) == a + b);
        assert forall|n: int| 0 <= n < scan_forest_spec(ts, prefix, target).len() implies scan_path_ok(
            prefix,
            target,
            scan_forest_spec(ts, prefix, target)[n],
        ) by {
            if n < a.len() {
                assert((a + b)[n] == a[n]);
            } else {
                assert((a + b)[n] == b[n - a.len()]);
            }
        }
    }
}

/// Pruning invariant: the scan result contains no path that is a strict
/// descendant of another path in the same result. A match is recorded and its
/// interior is never visited, so no result can lie inside another.
pub proof fn lemma_scan_no_nested_results(t: DirTree, prefix: Seq<Seq<char>>, target: Seq<char>)
    ensures
        forall|i: int, j: int|
            0 <= i < scan_spec(t, prefix, target).len() && 0 <= j < scan_spec(
                t,
                prefix,
                target,
            ).len() ==> !is_strict_prefix(
                #[trigger] scan_spec(t, prefix, target)[i],
                #[trigger] scan_spec(t, prefix, target)[j],
            ),
{
    lemma_scan_paths_ok(t, prefix, target);
    let r = scan_spec(t, prefix, target);
    assert forall|i: int, j: int|
        0 <= i < r.len() && 0 <= j < r.len() implies !is_strict_prefix(r[i], r[j]) by {
        if is_strict_prefix(r[i], r[j]) {
            let a = r[i];
            let b = r[j];
            assert(b.subrange(0, a.len() as int)[a.len() - 1] == b[a.len() - 1]);
            assert(b[a.len() - 1] == a.last());
            assert(prefix.len() <= a.len() - 1 < b.len() - 1);
            assert(false);
        }
    }
}

/// Scans the snapshot `t` for directories named `target`, pruning descent
/// into every match; `prefix` is the path of `t`'s parent. Returns the
/// matches' paths in traversal order.
pub fn find_node_modules(t: &DirTree, prefix: &Vec<String>, target: &String) -> (r: Vec<
    Vec<String>,
>)
    ensures
        r.deep_view() == scan_spec(*t, prefix.deep_view(), target@),
    decreases *t,
{
    let mut r: Vec<Vec<String>> = Vec::new();
    if t.name == *target {
        let mut path: Vec<String> = clone_path(prefix);
        path.push(t.name.clone());
        proof {
            assert(path.deep_view() =~= prefix.deep_view().push(t.name@));
        }
        r.push(path);
        proof {
            assert(r.deep_view() =~= scan_spec(*t, prefix.deep_view(), target@));
        }
    } else {
        let mut child_prefix: Vec<String> = clone_path(prefix);
        child_prefix.push(t.name.clone());
        proof {
            assert(child_prefix.deep_view() =~= prefix.deep_view().push(t.name@));
        }
        let ghost pre2 = child_prefix.deep_view();
        let mut i: usize = 0;
        while i < t.subdirs.len()
            invariant
                0 <= i <= t.subdirs.len(),
                child_prefix.deep_view() == pre2,
                r.deep_view() == scan_forest_spec(t.subdirs@.subrange(0, i as int), pre2, target@),
            decreases t.subdirs.len() - i,
        {
            let ghost r0 = r.deep_view();
            let mut sub = find_node_modules(&t.subdirs[i], &child_prefix, target);
            let ghost subdv = sub.deep_view();
            r.append(&mut sub);
            proof {
                assert(r.deep_view() =~= r0 + subdv);
                assert(t.subdirs@.subrange(0, i + 1).drop_last() =~= t.subdirs@.subrange(
                    0,
                    i as int,
                ));
                assert(t.subdirs@.subrange(0, i + 1).last() == t.subdirs@[i as int]);
            }
            i = i + 1;
        }
        proof {
            assert(t.subdirs@.subrange(0, t.subdirs@.len() as int) =~= t.subdirs@);
        }
    }
    r
}

/// Copies a path, component by component.
pub fn clone_path(p: &Vec<String>) -> (r: Vec<String>)
    ensures
        r.deep_view() == p.deep_view(),
        r@.len() == p@.len(),
{
    let mut r: Vec<String> = Vec::new();
    let mut i: usize = 0;
    while i < p.len()
        invariant
            0 <= i <= p.len(),
            r@.len() == i,
            forall|k: int| 0 <= k < i ==> r@[k]@ == p@[k]@,
        decreases p.len() - i,
    {
        r.push(p[i].clone());
        i = i + 1;
    }
    proof {
        assert(r.deep_view() =~= p.deep_view());
    }
    r
}

} // verus!
