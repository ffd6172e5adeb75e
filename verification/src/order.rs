//! Ordering of relative song paths.
//!
//! A path is held as its raw bytes. Paths are compared component-wise
//! (components are separated by `/`), byte-wise within a component: the
//! separator sorts below every other byte, which makes the byte-level
//! comparison agree with comparing the component sequences. The scanned
//! songs of a group are sorted ascending in this order, which is the
//! canonical order used for default track numbering and playlist order.

use vstd::multiset::Multiset;
use vstd::prelude::*;
use vstd::relations::{sorted_by, total_ordering};
use vstd::seq_lib::lemma_sorted_unique;

verus! {

/// The path separator byte, `/`.
pub const PATH_SEP: u8 = 47;

/// Rank of a byte in the path order: the separator sorts below
/// every other byte.
pub open spec fn byte_rank(b: u8) -> int {
    if b == PATH_SEP {
        -1
    } else {
        b as int
    }
}

/// Strict component-wise lexicographic order on path bytes.
pub open spec fn path_lt(a: Seq<u8>, b: Seq<u8>) -> bool
    decreases a.len(),
{
    if b.len() == 0 {
        false
    } else if a.len() == 0 {
        true
    } else if a[0] == b[0] {
        path_lt(a.skip(1), b.skip(1))
    } else {
        byte_rank(a[0]) < byte_rank(b[0])
    }
}

/// The reflexive path order.
pub open spec fn path_le(a: Seq<u8>, b: Seq<u8>) -> bool {
    !path_lt(b, a)
}

/// `path_le` as a relation value, for `sort_by` and `sorted_by`.
pub open spec fn path_le_fn() -> spec_fn(Seq<u8>, Seq<u8>) -> bool {
    |a: Seq<u8>, b: Seq<u8>| path_le(a, b)
}

/// The canonical ascending order of a group's relative paths.
pub open spec fn sorted_rel_paths(paths: Seq<Seq<u8>>) -> Seq<Seq<u8>> {
    paths.sort_by(path_le_fn())
}

/// The deep view of a byte vector is its plain view.
pub broadcast proof fn lemma_bytes_deep_view(v: Vec<u8>)
    ensures
        #[trigger] v.deep_view() == v@,
{
    assert(v.deep_view() =~= v@);
}

/// Indexing the deep view of a vector gives the element's deep view.
pub broadcast proof fn lemma_vec_deep_view_index<T: DeepView>(v: Vec<T>, i: int)
    requires
        0 <= i < v@.len(),
    ensures
        #[trigger] v.deep_view()[i] == v@[i].deep_view(),
{
}

/// Indexing the deep view of a path list gives the element's bytes.
pub broadcast proof fn lemma_paths_deep_view_index(v: Vec<Vec<u8>>, i: int)
    requires
        0 <= i < v@.len(),
    ensures
        #[trigger] v.deep_view()[i] == v@[i]@,
{
    assert(v.deep_view()[i] =~= v@[i]@);
}

pub proof fn lemma_path_lt_asymmetric(a: Seq<u8>, b: Seq<u8>)
    ensures
        path_lt(a, b) ==> !path_lt(b, a),
    decreases a.len(),
{
    if a.len() > 0 && b.len() > 0 && a[0] == b[0] {
        lemma_path_lt_asymmetric(a.skip(1), b.skip(1));
    }
}

pub proof fn lemma_path_lt_connected(a: Seq<u8>, b: Seq<u8>)
    ensures
        !path_lt(a, b) && !path_lt(b, a) ==> a == b,
    decreases a.len(),
{
    if a.len() > 0 && b.len() > 0 && a[0] == b[0] {
        lemma_path_lt_connected(a.skip(1), b.skip(1));
        if !path_lt(a, b) && !path_lt(b, a) {
            assert(a.skip(1) == b.skip(1));
            assert(a.len() == b.len()) by {
                assert(a.skip(1).len() == b.skip(1).len());
            }
            assert forall|i: int| 0 <= i < a.len() implies a[i] == b[i] by {
                if i > 0 {
                    assert(a[i] == a.skip(1)[i - 1]);
                    assert(b[i] == b.skip(1)[i - 1]);
                }
            }
            assert(a =~= b);
        }
    } else if a.len() > 0 && b.len() > 0 {
        assert(byte_rank(a[0]) != byte_rank(b[0]));
    }
}

pub proof fn lemma_path_lt_transitive(a: Seq<u8>, b: Seq<u8>, c: Seq<u8>)
    ensures
        path_lt(a, b) && path_lt(b, c) ==> path_lt(a, c),
    decreases a.len(),
{
    if a.len() > 0 && b.len() > 0 && c.len() > 0 && a[0] == b[0] && b[0] == c[0] {
        lemma_path_lt_transitive(a.skip(1), b.skip(1), c.skip(1));
    }
}

pub proof fn lemma_path_le_total_ordering()
    ensures
        total_ordering(path_le_fn()),
{
    let leq = path_le_fn();
    assert forall|a: Seq<u8>| #[trigger] leq(a, a) by {
        lemma_path_lt_asymmetric(a, a);
    }
    assert forall|a: Seq<u8>, b: Seq<u8>| #[trigger] leq(a, b) && #[trigger] leq(b, a) implies a
        == b by {
        lemma_path_lt_connected(a, b);
    }
    assert forall|a: Seq<u8>, b: Seq<u8>, c: Seq<u8>|
        #[trigger] leq(a, b) && #[trigger] leq(b, c) implies leq(a, c) by {
        if path_lt(c, a) {
            lemma_path_lt_connected(b, c);
            if path_lt(b, c) {
                lemma_path_lt_transitive(b, c, a);
            }
        }
    }
    assert forall|a: Seq<u8>, b: Seq<u8>| #[trigger] leq(a, b) || #[trigger] leq(b, a) by {
        lemma_path_lt_asymmetric(a, b);
    }
}

/// Byte-level comparison in the component-wise path order.
pub fn path_lt_exec(a: &Vec<u8>, b: &Vec<u8>) -> (r: bool)
    ensures
        r == path_lt(a@, b@),
{
    let mut i: usize = 0;
    proof {
        assert(a@.skip(0) =~= a@);
        assert(b@.skip(0) =~= b@);
    }
    loop
        invariant
            i <= a.len(),
            i <= b.len(),
            path_lt(a@, b@) == path_lt(a@.skip(i as int), b@.skip(i as int)),
        decreases a@.len() - i,
    {
        if i >= a.len() || i >= b.len() {
            return i >= a.len() && i < b.len();
        }
        let x = a[i];
        let y = b[i];
        if x == y {
            proof {
                assert(a@.skip(i as int).skip(1) =~= a@.skip(i + 1));
                assert(b@.skip(i as int).skip(1) =~= b@.skip(i + 1));
            }
            i = i + 1;
        } else if x == PATH_SEP {
            return true;
        } else if y == PATH_SEP {
            return false;
        } else {
            return x < y;
        }
    }
}

/// Byte equality of two paths.
pub fn path_eq_exec(a: &Vec<u8>, b: &Vec<u8>) -> (r: bool)
    ensures
        r == (a@ == b@),
{
    if a.len() != b.len() {
        return false;
    }
    let mut i: usize = 0;
    while i < a.len()
        invariant
            i <= a.len(),
            a@.len() == b@.len(),
            forall|k: int| 0 <= k < i ==> a@[k] == b@[k],
        decreases a@.len() - i,
    {
        if a[i] != b[i] {
            return false;
        }
        i = i + 1;
    }
    proof {
        assert(a@ =~= b@);
    }
    true
}

/// Sorts a group's relative paths ascending in the canonical path order.
#[verifier::loop_isolation(false)]
pub fn sort_paths(paths: Vec<Vec<u8>>) -> (r: Vec<Vec<u8>>)
    ensures
        r.deep_view() == sorted_rel_paths(paths.deep_view()),
{
    broadcast use lemma_paths_deep_view_index;
    broadcast use lemma_bytes_deep_view;
    broadcast use vstd::seq_lib::group_to_multiset_ensures;

    proof {
        lemma_path_le_total_ordering();
        paths.deep_view().lemma_sort_by_ensures(path_le_fn());
    }
    let ghost orig = paths.deep_view();
    let mut rest = paths;
    let mut out: Vec<Vec<u8>> = Vec::new();
    proof {
        assert(out.deep_view() =~= Seq::<Seq<u8>>::empty());
        assert(out.deep_view().to_multiset() =~= Multiset::<Seq<u8>>::empty());
        assert(out.deep_view().to_multiset().add(rest.deep_view().to_multiset())
            =~= orig.to_multiset());
    }
    loop
        invariant
            sorted_by(out.deep_view(), path_le_fn()),
            out.deep_view().to_multiset().add(rest.deep_view().to_multiset())
                =~= orig.to_multiset(),
        decreases rest.len(),
    {
        if rest.len() == 0 {
            proof {
                lemma_path_le_total_ordering();
                orig.lemma_sort_by_ensures(path_le_fn());
                rest.deep_view().to_multiset_ensures();
                assert(rest.deep_view() =~= Seq::<Seq<u8>>::empty());
                assert(rest.deep_view().to_multiset().len() == 0);
                assert(rest.deep_view().to_multiset() =~= Multiset::<Seq<u8>>::empty());
                assert(out.deep_view().to_multiset() =~= orig.to_multiset());
                lemma_sorted_unique(out.deep_view(), orig.sort_by(path_le_fn()), path_le_fn());
            }
            return out;
        }
        let ghost rest0 = rest.deep_view();
        let x = rest.pop().unwrap();
        proof {
            rest0.to_multiset_ensures();
            assert(x@ == rest0[rest0.len() - 1]);
            assert(rest.deep_view() =~= rest0.drop_last());
            assert(rest0.drop_last() =~= rest0.remove(rest0.len() - 1));
            assert(rest0.remove(rest0.len() - 1).to_multiset() =~= rest0.to_multiset().remove(
                rest0[rest0.len() - 1],
            ));
            assert(rest.deep_view().to_multiset() =~= rest0.to_multiset().remove(x@));
        }
        let mut j: usize = 0;
        while j < out.len() && !path_lt_exec(&x, &out[j])
            invariant
                j <= out.len(),
                forall|k: int| 0 <= k < j ==> !path_lt(x@, #[trigger] out.deep_view()[k]),
            decreases out.len() - j,
        {
            proof {
                assert(out.deep_view()[j as int] == out@[j as int]@);
            }
            j = j + 1;
        }
        let ghost out0 = out.deep_view();
        let ghost xv = x@;
        let ghost jj = j as int;
        out.insert(j, x);
        proof {
            assert(out.deep_view() =~= out0.insert(jj, xv));
            let out1 = out.deep_view();
            // the inserted element keeps the order
            let ghost f = path_le_fn();
            assert forall|p: int, q: int| 0 <= p < q < out1.len() implies path_le_fn()(
                out1[p],
                out1[q],
            ) by {
                if jj < out0.len() {
                    assert(path_lt(xv, out0[jj]));
                    lemma_path_lt_asymmetric(xv, out0[jj]);
                }
                if q < jj {
                    assert(out1[p] == out0[p] && out1[q] == out0[q]);
                    assert(f(out0[p], out0[q]));
                } else if q == jj {
                    assert(out1[p] == out0[p]);
                    assert(!path_lt(xv, out0[p]));
                } else {
                    assert(out1[q] == out0[q - 1]);
                    if p < jj {
                        assert(out1[p] == out0[p]);
                        assert(!path_lt(xv, out0[p]));
                        if p < q - 1 {
                            assert(f(out0[p], out0[q - 1]));
                        }
                    } else if p == jj {
                        if path_lt(out0[q - 1], xv) {
                            lemma_path_lt_transitive(out0[q - 1], xv, out0[jj]);
                            if jj < q - 1 {
                                assert(f(out0[jj], out0[q - 1]));
                            }
                            assert(false);
                        }
                    } else {
                        assert(out1[p] == out0[p - 1]);
                        assert(f(out0[p - 1], out0[q - 1]));
                    }
                }
            }
            assert(sorted_by(out1, path_le_fn()));
            // multiset bookkeeping for the insertion
            out1.to_multiset_ensures();
            assert(out1.remove(jj) =~= out0);
            assert(out1.remove(jj).to_multiset() =~= out1.to_multiset().remove(out1[jj]));
            assert(out0.to_multiset() =~= out1.to_multiset().remove(out1[jj]));
            assert(out1[jj] == xv);
            assert(out1.contains(out1[jj]));
            assert(out1.to_multiset() =~= out0.to_multiset().insert(xv));
            assert(out1.to_multiset().add(rest.deep_view().to_multiset())
                =~= orig.to_multiset());
        }
    }
}

/// Whether `full` lies strictly below `root`: `full` is `root`, then the
/// separator, then a non-empty relative path.
pub open spec fn is_under_root(root: Seq<u8>, full: Seq<u8>) -> bool {
    &&& full.len() > root.len() + 1
    &&& full.subrange(0, root.len() as int) == root
    &&& full[root.len() as int] == PATH_SEP
}

/// The relative path of `full` below `root`.
pub open spec fn rel_of(root: Seq<u8>, full: Seq<u8>) -> Seq<u8> {
    full.skip(root.len() as int + 1)
}

/// Strips the group root from a scanned absolute path, if it lies below it.
pub fn strip_root_prefix(root: &Vec<u8>, full: &Vec<u8>) -> (r: Option<Vec<u8>>)
    ensures
        r is Some <==> is_under_root(root@, full@),
        r matches Some(rel) ==> rel@ == rel_of(root@, full@),
{
    if full.len() < 2 || root.len() > full.len() - 2 {
        return None;
    }
    let mut i: usize = 0;
    while i < root.len()
        invariant
            i <= root.len(),
            full@.len() > root@.len() + 1,
            forall|k: int| 0 <= k < i ==> full@[k] == root@[k],
        decreases root@.len() - i,
    {
        if full[i] != root[i] {
            proof {
                assert(full@.subrange(0, root@.len() as int) != root@);
            }
            return None;
        }
        i = i + 1;
    }
    if full[root.len()] != PATH_SEP {
        proof {
            assert(full@.subrange(0, root@.len() as int) =~= root@);
        }
        return None;
    }
    let mut rel: Vec<u8> = Vec::new();
    let mut k: usize = root.len() + 1;
    while k < full.len()
        invariant
            root@.len() + 1 <= k <= full@.len(),
            rel@ =~= full@.subrange(root@.len() as int + 1, k as int),
        decreases full@.len() - k,
    {
        rel.push(full[k]);
        k = k + 1;
    }
    proof {
        assert(full@.subrange(0, root@.len() as int) =~= root@);
        assert(rel@ =~= rel_of(root@, full@));
    }
    Some(rel)
}

/// Finds the first duplicate in a sorted path list; `None` means all
/// paths are distinct.
pub fn find_adjacent_duplicate(paths: &Vec<Vec<u8>>) -> (r: Option<usize>)
    requires
        sorted_by(paths.deep_view(), path_le_fn()),
    ensures
        r matches Some(i) ==> i + 1 < paths@.len() && paths.deep_view()[i as int]
            == paths.deep_view()[i + 1],
        r is None ==> paths.deep_view().no_duplicates(),
{
    broadcast use lemma_paths_deep_view_index;

    let ghost dv = paths.deep_view();
    let mut i: usize = 0;
    while paths.len() > 0 && i < paths.len() - 1
        invariant
            dv == paths.deep_view(),
            i <= paths@.len(),
            forall|k: int| 0 <= k < i ==> #[trigger] dv[k] != dv[k + 1],
        decreases paths@.len() - i,
    {
        proof {
            assert(paths.deep_view()[i as int] == paths@[i as int]@);
            assert(paths.deep_view()[i + 1] == paths@[i + 1]@);
        }
        if path_eq_exec(&paths[i], &paths[i + 1]) {
            return Some(i);
        }
        i = i + 1;
    }
    proof {
        assert forall|p: int, q: int| 0 <= p < q < dv.len() implies dv[p] != dv[q] by {
            if dv[p] == dv[q] {
                // sortedness squeezes everything between two equal
                // entries, contradicting the adjacent distinctness
                assert(path_le_fn()(dv[p], dv[p + 1]));
                if p + 1 < q {
                    assert(path_le_fn()(dv[p + 1], dv[q]));
                }
                lemma_path_lt_connected(dv[p], dv[p + 1]);
            }
        }
    }
    None
}

} // verus!
