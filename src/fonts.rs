//! The list of font families offered in the settings: the names the system
//! reports, sorted, each name once.
use vstd::prelude::*;

verus! {

/// `a` comes no later than `b` when names are compared character by
/// character by code point, a proper prefix first.
pub open spec fn name_le(a: Seq<char>, b: Seq<char>) -> bool {
    exists|i: int|
        0 <= i <= a.len() && i <= b.len() && a.subrange(0, i) == b.subrange(0, i) && (i == a.len()
            || (i < b.len() && (a[i] as u32) < (b[i] as u32)))
}

/// The names are in ascending order.
pub open spec fn names_sorted(v: Seq<Seq<char>>) -> bool {
    forall|i: int, j: int| 0 <= i < j < v.len() ==> name_le(#[trigger] v[i], #[trigger] v[j])
}

/// No name equals the one just before it.
pub open spec fn no_adjacent_repeats(v: Seq<Seq<char>>) -> bool {
    forall|i: int| 0 < i < v.len() ==> #[trigger] v[i] != v[i - 1]
}

/// No name occurs twice.
pub open spec fn names_distinct(v: Seq<Seq<char>>) -> bool {
    forall|i: int, j: int| 0 <= i < j < v.len() ==> #[trigger] v[i] != #[trigger] v[j]
}

/// `v` with every name that equals the one just before it left out.
pub open spec fn dedup_adjacent(v: Seq<Seq<char>>) -> Seq<Seq<char>>
    decreases v.len(),
{
    if v.len() == 0 {
        seq![]
    } else {
        let p = dedup_adjacent(v.drop_last());
        if v.len() >= 2 && v[v.len() - 1] == v[v.len() - 2] {
            p
        } else {
            p.push(v.last())
        }
    }
}

/// Relies on `slice::sort` on `String`s: the same names in ascending order.
/// `String` orders by its UTF-8 bytes, which is the order of code points.
#[verifier::external_body]
fn sort_names(names: &mut Vec<String>)
    ensures
        final(names).deep_view().to_multiset() == old(names).deep_view().to_multiset(),
        names_sorted(final(names).deep_view()),
{
    names.sort();
}

proof fn lemma_name_le_antisymmetric(a: Seq<char>, b: Seq<char>)
    requires
        name_le(a, b),
        name_le(b, a),
    ensures
        a == b,
{
    let i = choose|i: int|
        0 <= i <= a.len() && i <= b.len() && a.subrange(0, i) == b.subrange(0, i) && (i == a.len()
            || (i < b.len() && (a[i] as u32) < (b[i] as u32)));
    let j = choose|j: int|
        0 <= j <= b.len() && j <= a.len() && b.subrange(0, j) == a.subrange(0, j) && (j == b.len()
            || (j < a.len() && (b[j] as u32) < (a[j] as u32)));
    assert forall|k: int| 0 <= k < i implies a[k] == b[k] by {
        assert(a.subrange(0, i)[k] == b.subrange(0, i)[k]);
    }
    assert forall|k: int| 0 <= k < j implies a[k] == b[k] by {
        assert(a.subrange(0, j)[k] == b.subrange(0, j)[k]);
    }
    assert(a.len() == b.len());
    assert(a =~= b);
}

/// In ascending order without adjacent repeats, no name occurs twice.
proof fn lemma_sorted_distinct(v: Seq<Seq<char>>)
    requires
        names_sorted(v),
        no_adjacent_repeats(v),
    ensures
        names_distinct(v),
{
    assert forall|i: int, j: int| 0 <= i < j < v.len() implies #[trigger] v[i] != #[trigger] v[j] by {
        if v[i] == v[j] {
            assert(name_le(v[i], v[i + 1]));
            assert(name_le(v[i + 1], v[j]));
            lemma_name_le_antisymmetric(v[i], v[i + 1]);
            assert(v[i + 1] != v[i + 1 - 1]);
        }
    }
}

proof fn lemma_dedup_adjacent(v: Seq<Seq<char>>)
    ensures
        forall|x: Seq<char>| dedup_adjacent(v).contains(x) <==> v.contains(x),
        no_adjacent_repeats(dedup_adjacent(v)),
        names_sorted(v) ==> names_sorted(dedup_adjacent(v)),
        v.len() > 0 ==> dedup_adjacent(v).len() > 0 && dedup_adjacent(v).last() == v.last(),
    decreases v.len(),
{
    if v.len() > 0 {
        let w = v.drop_last();
        lemma_dedup_adjacent(w);
        let p = dedup_adjacent(w);
        assert forall|x: Seq<char>| dedup_adjacent(v).contains(x) <==> v.contains(x) by {
            let d = dedup_adjacent(v);
            // v holds exactly w's names and its last one
            assert(v.contains(x) <==> (w.contains(x) || x == v.last())) by {
                if v.contains(x) {
                    let k = choose|k: int| 0 <= k < v.len() && v[k] == x;
                    if k < v.len() - 1 {
                        assert(w[k] == x);
                    }
                }
                if w.contains(x) {
                    let k = choose|k: int| 0 <= k < w.len() && w[k] == x;
                    assert(v[k] == x);
                }
                assert(v[v.len() - 1] == v.last());
            }
            if d != p {
                assert(d == p.push(v.last()));
                assert(d.contains(x) <==> (p.contains(x) || x == v.last())) by {
                    if d.contains(x) {
                        let k = choose|k: int| 0 <= k < d.len() && d[k] == x;
                        if k < p.len() {
                            assert(p[k] == x);
                        }
                    }
                    if p.contains(x) {
                        let k = choose|k: int| 0 <= k < p.len() && p[k] == x;
                        assert(d[k] == x);
                    }
                    assert(d[d.len() - 1] == v.last());
                }
            } else {
                assert(v.len() >= 2);
                assert(w.last() == v.last());
                assert(w[w.len() - 1] == v.last());
                assert(w.contains(v.last()));
            }
        }
        if names_sorted(v) {
            assert(names_sorted(w)) by {
                assert forall|i: int, j: int| 0 <= i < j < w.len() implies name_le(#[trigger] w[i], #[trigger] w[j]) by {
                    assert(w[i] == v[i] && w[j] == v[j]);
                }
            }
            if dedup_adjacent(v) != p {
                let d = dedup_adjacent(v);
                assert forall|i: int, j: int| 0 <= i < j < d.len() implies name_le(#[trigger] d[i], #[trigger] d[j]) by {
                    if j == d.len() - 1 {
                        assert(p.contains(d[i])) by {
                            assert(p[i] == d[i]);
                        }
                        assert(w.contains(d[i]));
                        let k = choose|k: int| 0 <= k < w.len() && w[k] == d[i];
                        assert(v[k] == d[i]);
                        assert(name_le(v[k], v[v.len() - 1]));
                    } else {
                        assert(d[i] == p[i] && d[j] == p[j]);
                    }
                }
            }
        }
        if dedup_adjacent(v) != p {
            let d = dedup_adjacent(v);
            assert forall|i: int| 0 < i < d.len() implies #[trigger] d[i] != d[i - 1] by {
                if i == d.len() - 1 {
                    if w.len() > 0 {
                        assert(d[i - 1] == p.last());
                    }
                } else {
                    assert(d[i] == p[i] && d[i - 1] == p[i - 1]);
                }
            }
        }
    }
}

/// Leaves out every name that equals the one just before it.
pub fn dedup_names(names: &Vec<String>) -> (r: Vec<String>)
    ensures
        r.deep_view() == dedup_adjacent(names.deep_view()),
{
    let mut r: Vec<String> = Vec::new();
    let mut i: usize = 0;
    while i < names.len()
        invariant
            i <= names.len(),
            r.deep_view() == dedup_adjacent(names.deep_view().take(i as int)),
        decreases names.len() - i,
    {
        let ghost v = names.deep_view();
        assert(v.take(i + 1).drop_last() == v.take(i as int));
        if i == 0 || names[i] != names[i - 1] {
            let name = names[i].clone();
            r.push(name);
            assert(r.deep_view() =~= dedup_adjacent(v.take(i as int)).push(v[i as int]));
        }
        i = i + 1;
    }
    assert(names.deep_view().take(names.len() as int) == names.deep_view());
    r
}

/// The font families to offer: the reported names in ascending order, each
/// name once.
pub fn font_families(reported: Vec<String>) -> (r: Vec<String>)
    ensures
        names_sorted(r.deep_view()),
        names_distinct(r.deep_view()),
        forall|x: Seq<char>| r.deep_view().contains(x) <==> reported.deep_view().contains(x),
{
    let mut names = reported;
    sort_names(&mut names);
    let r = dedup_names(&names);
    proof {
        lemma_dedup_adjacent(names.deep_view());
        lemma_sorted_distinct(r.deep_view());
        broadcast use vstd::seq_lib::group_to_multiset_ensures;
        assert forall|x: Seq<char>| names.deep_view().contains(x) <==> reported.deep_view().contains(x) by {
            assert(names.deep_view().to_multiset().count(x) == reported.deep_view().to_multiset().count(x));
        }
    }
    r
}

} // verus!
