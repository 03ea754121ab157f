//! String-keyed association lists with map and set views.
//!
//! The in-memory host stores its tables as vectors of pairs; these helpers
//! give such vectors a `Map` view (a later entry wins) and a `Set` view,
//! with exact contracts for lookup, insertion, filtering and listing.

use vstd::prelude::*;

use crate::paths::{is_under, is_under_or_eq, under, under_or_eq};
use crate::state::seq_views;

verus! {

/// A value that can be duplicated without changing its view.
pub trait DupView: View + Sized {
    /// An equal-viewed copy of the value.
    fn dup(&self) -> (r: Self)
        ensures
            r@ == self@,
    ;
}

impl DupView for String {
    fn dup(&self) -> (r: String) {
        self.clone()
    }
}

/// Looks a key up in a map, as an optional value.
pub open spec fn opt_get<X>(m: Map<Seq<char>, X>, k: Seq<char>) -> Option<X> {
    if m.dom().contains(k) {
        Some(m[k])
    } else {
        None
    }
}

/// The map an association list denotes: a later entry shadows an earlier
/// one with the same key.
pub open spec fn assoc_view<V: View>(s: Seq<(String, V)>) -> Map<Seq<char>, V::V>
    decreases s.len(),
{
    if s.len() == 0 {
        Map::empty()
    } else {
        assoc_view(s.drop_last()).insert(s.last().0@, s.last().1@)
    }
}

/// One more entry at the end denotes one map insertion.
pub proof fn lemma_assoc_take_succ<V: View>(s: Seq<(String, V)>, i: int)
    requires
        0 <= i < s.len(),
    ensures
        assoc_view(s.take(i + 1)) == assoc_view(s.take(i)).insert(s[i].0@, s[i].1@),
{
    assert(s.take(i + 1).drop_last() =~= s.take(i));
    assert(s.take(i + 1).last() == s[i]);
}

/// The denoted map's domain holds exactly the key views of the list.
pub proof fn lemma_assoc_dom<V: View>(s: Seq<(String, V)>)
    ensures
        forall|q: Seq<char>|
            #![trigger assoc_view(s).dom().contains(q)]
            assoc_view(s).dom().contains(q) <==> (exists|i: int|
                0 <= i < s.len() && (#[trigger] s[i].0@) == q),
    decreases s.len(),
{
    if s.len() > 0 {
        lemma_assoc_dom(s.drop_last());
        assert forall|q: Seq<char>| assoc_view(s).dom().contains(q) implies (exists|i: int|
            0 <= i < s.len() && (#[trigger] s[i].0@) == q) by {
            if q == s.last().0@ {
                assert(s[s.len() - 1].0@ == q);
            } else {
                assert(assoc_view(s.drop_last()).dom().contains(q));
                let j = choose|j: int| 0 <= j < s.drop_last().len() && (#[trigger] s.drop_last()[j].0@)
                    == q;
                assert(s.drop_last()[j] == s[j]);
                assert(s[j].0@ == q);
            }
        }
        assert forall|q: Seq<char>|
            (exists|i: int| 0 <= i < s.len() && (#[trigger] s[i].0@) == q) implies assoc_view(
            s,
        ).dom().contains(q) by {
            let i = choose|i: int| 0 <= i < s.len() && (#[trigger] s[i].0@) == q;
            if i < s.len() - 1 {
                assert(s.drop_last()[i].0@ == q);
                assert(exists|j: int|
                    0 <= j < s.drop_last().len() && (#[trigger] s.drop_last()[j].0@) == q);
                assert(assoc_view(s.drop_last()).dom().contains(q));
            }
        }
    }
}

/// Looks a key up in an association list.
pub fn assoc_get<'a, V: View>(entries: &'a Vec<(String, V)>, k: &String) -> (r: Option<&'a V>)
    ensures
        match r {
            Some(v) => assoc_view(entries@).dom().contains(k@) && v@ == assoc_view(entries@)[k@],
            None => !assoc_view(entries@).dom().contains(k@),
        },
{
    let ghost full = entries@;
    let mut i: usize = entries.len();
    assert(full.take(i as int) =~= full);
    while i > 0
        invariant
            0 <= i <= entries.len(),
            entries@ == full,
            opt_get(assoc_view(full), k@) == opt_get(assoc_view(full.take(i as int)), k@),
        decreases i,
    {
        i = i - 1;
        proof {
            lemma_assoc_take_succ(full, i as int);
        }
        if entries[i].0 == *k {
            assert(opt_get(assoc_view(full), k@) == Some(entries@[i as int].1@));
            return Some(&entries[i].1);
        }
    }
    assert(full.take(0) =~= Seq::<(String, V)>::empty());
    None
}

/// Appends an entry; the view gains one insertion.
pub fn assoc_insert<V: View>(entries: &mut Vec<(String, V)>, k: String, v: V)
    ensures
        assoc_view(final (entries)@) == assoc_view(old(entries)@).insert(k@, v@),
{
    let ghost k0 = k@;
    let ghost v0 = v@;
    let ghost before = entries@;
    entries.push((k, v));
    proof {
        assert(entries@.drop_last() =~= before);
        assert(entries@.last().0@ == k0 && entries@.last().1@ == v0);
    }
}

/// The list without any entry for the key; the view loses the key.
pub fn assoc_remove_key<V: DupView>(entries: &Vec<(String, V)>, k: &String) -> (r: Vec<
    (String, V),
>)
    ensures
        assoc_view(r@) == assoc_view(entries@).remove(k@),
{
    let mut out: Vec<(String, V)> = Vec::new();
    let mut i: usize = 0;
    assert(entries@.take(0) =~= Seq::<(String, V)>::empty());
    assert(assoc_view(out@) =~= assoc_view(entries@.take(0)).remove(k@));
    while i < entries.len()
        invariant
            0 <= i <= entries.len(),
            assoc_view(out@) == assoc_view(entries@.take(i as int)).remove(k@),
        decreases entries.len() - i,
    {
        proof {
            lemma_assoc_take_succ(entries@, i as int);
        }
        let ghost out_before = out@;
        if entries[i].0 != *k {
            out.push((entries[i].0.clone(), entries[i].1.dup()));
            proof {
                assert(out@.drop_last() =~= out_before);
                assert(assoc_view(out@) == assoc_view(out_before).insert(
                    entries@[i as int].0@,
                    entries@[i as int].1@,
                ));
                assert(assoc_view(entries@.take(i as int)).remove(k@).insert(
                    entries@[i as int].0@,
                    entries@[i as int].1@,
                ) =~= assoc_view(entries@.take(i as int)).insert(
                    entries@[i as int].0@,
                    entries@[i as int].1@,
                ).remove(k@));
            }
        } else {
            proof {
                assert(assoc_view(entries@.take(i as int)).remove(k@) =~= assoc_view(
                    entries@.take(i as int),
                ).insert(entries@[i as int].0@, entries@[i as int].1@).remove(k@));
            }
        }
        i = i + 1;
    }
    assert(entries@.take(i as int) =~= entries@);
    out
}

/// The keys the removal of a subtree takes away.
pub open spec fn under_keys(dir: Seq<char>) -> Set<Seq<char>> {
    Set::new(|q: Seq<char>| under_or_eq(dir, q))
}

/// The list without every entry at or below the directory.
pub fn assoc_remove_under<V: DupView>(entries: &Vec<(String, V)>, dir: &String) -> (r: Vec<
    (String, V),
>)
    ensures
        assoc_view(r@) == assoc_view(entries@).remove_keys(under_keys(dir@)),
{
    let mut out: Vec<(String, V)> = Vec::new();
    let mut i: usize = 0;
    assert(entries@.take(0) =~= Seq::<(String, V)>::empty());
    assert(assoc_view(out@) =~= assoc_view(entries@.take(0)).remove_keys(under_keys(dir@)));
    while i < entries.len()
        invariant
            0 <= i <= entries.len(),
            assoc_view(out@) == assoc_view(entries@.take(i as int)).remove_keys(under_keys(dir@)),
        decreases entries.len() - i,
    {
        proof {
            lemma_assoc_take_succ(entries@, i as int);
        }
        let ghost out_before = out@;
        if !is_under_or_eq(dir, &entries[i].0) {
            out.push((entries[i].0.clone(), entries[i].1.dup()));
            proof {
                assert(out@.drop_last() =~= out_before);
                assert(assoc_view(out@) == assoc_view(out_before).insert(
                    entries@[i as int].0@,
                    entries@[i as int].1@,
                ));
                assert(assoc_view(entries@.take(i as int)).remove_keys(under_keys(dir@)).insert(
                    entries@[i as int].0@,
                    entries@[i as int].1@,
                ) =~= assoc_view(entries@.take(i as int)).insert(
                    entries@[i as int].0@,
                    entries@[i as int].1@,
                ).remove_keys(under_keys(dir@)));
            }
        } else {
            proof {
                assert(assoc_view(entries@.take(i as int)).remove_keys(under_keys(dir@))
                    =~= assoc_view(entries@.take(i as int)).insert(
                    entries@[i as int].0@,
                    entries@[i as int].1@,
                ).remove_keys(under_keys(dir@)));
            }
        }
        i = i + 1;
    }
    assert(entries@.take(i as int) =~= entries@);
    out
}

/// Whether a string with this view is in the vector.
pub fn strvec_contains(v: &Vec<String>, k: &String) -> (r: bool)
    ensures
        r == seq_views(v@).contains(k@),
{
    let mut i: usize = 0;
    while i < v.len()
        invariant
            0 <= i <= v.len(),
            forall|j: int| 0 <= j < i ==> seq_views(v@)[j] != k@,
        decreases v.len() - i,
    {
        if v[i] == *k {
            assert(seq_views(v@)[i as int] == k@);
            return true;
        }
        i = i + 1;
    }
    false
}

/// Whether a string with this view is in the set view of the vector.
pub fn strset_contains(v: &Vec<String>, k: &String) -> (r: bool)
    ensures
        r == strset(v@).contains(k@),
{
    let mut i: usize = 0;
    while i < v.len()
        invariant
            0 <= i <= v.len(),
            forall|j: int| 0 <= j < i ==> (#[trigger] v@[j]@) != k@,
        decreases v.len() - i,
    {
        if v[i] == *k {
            assert(v@[i as int]@ == k@);
            return true;
        }
        i = i + 1;
    }
    false
}

/// The view sequence of a vector grows by the view of a pushed element.
pub proof fn lemma_seq_views_push(s: Seq<String>, x: String)
    ensures
        seq_views(s.push(x)) == seq_views(s).push(x@),
{
    assert(seq_views(s.push(x)) =~= seq_views(s).push(x@));
}

/// The set of string views a vector denotes.
pub open spec fn strset(s: Seq<String>) -> Set<Seq<char>> {
    Set::new(|q: Seq<char>| exists|i: int| 0 <= i < s.len() && (#[trigger] s[i]@) == q)
}

/// The set view of a vector grows by the view of a pushed element.
pub proof fn lemma_strset_push(s: Seq<String>, x: String)
    ensures
        strset(s.push(x)) == strset(s).insert(x@),
{
    let t = s.push(x);
    assert forall|q: Seq<char>| strset(t).contains(q) implies strset(s).insert(x@).contains(q) by {
        let i = choose|i: int| 0 <= i < t.len() && (#[trigger] t[i]@) == q;
        if i < s.len() {
            assert(s[i]@ == q);
        }
    }
    assert forall|q: Seq<char>| strset(s).insert(x@).contains(q) implies strset(t).contains(q) by {
        if q == x@ {
            assert(t[t.len() - 1]@ == q);
        } else {
            let i = choose|i: int| 0 <= i < s.len() && (#[trigger] s[i]@) == q;
            assert(t[i]@ == q);
        }
    }
    assert(strset(t) =~= strset(s).insert(x@));
}

/// An element of a vector is in its set view.
pub proof fn lemma_strset_elem(s: Seq<String>, i: int)
    requires
        0 <= i < s.len(),
    ensures
        strset(s).contains(s[i]@),
{
}

/// The distinct keys of an association list lying strictly below the
/// directory, each exactly once.
pub fn assoc_keys_under<V: View>(entries: &Vec<(String, V)>, dir: &String) -> (r: Vec<String>)
    ensures
        seq_views(r@).no_duplicates(),
        forall|i: int|
            0 <= i < r@.len() ==> under(dir@, #[trigger] r@[i]@) && assoc_view(
                entries@,
            ).dom().contains(r@[i]@),
        forall|q: Seq<char>|
            assoc_view(entries@).dom().contains(q) && under(dir@, q) ==> seq_views(r@).contains(q),
{
    proof {
        lemma_assoc_dom(entries@);
    }
    let mut out: Vec<String> = Vec::new();
    let mut i: usize = 0;
    while i < entries.len()
        invariant
            0 <= i <= entries.len(),
            seq_views(out@).no_duplicates(),
            forall|j: int|
                0 <= j < out@.len() ==> under(dir@, #[trigger] out@[j]@) && assoc_view(
                    entries@,
                ).dom().contains(out@[j]@),
            forall|t: int|
                0 <= t < i && under(dir@, #[trigger] entries@[t].0@) ==> seq_views(out@).contains(
                    entries@[t].0@,
                ),
        decreases entries.len() - i,
    {
        let key = &entries[i].0;
        if is_under(dir, key) && !strvec_contains(&out, key) {
            let ghost before = out@;
            out.push(key.clone());
            proof {
                lemma_seq_views_push(before, entries@[i as int].0);
                assert(seq_views(out@) =~= seq_views(before).push(key@));
                assert(entries@[i as int].0@ == key@);
                lemma_assoc_dom(entries@);
                assert(exists|t: int| 0 <= t < entries@.len() && (#[trigger] entries@[t].0@) == key@);
                assert(assoc_view(entries@).dom().contains(key@));
                assert forall|t: int|
                    0 <= t < i + 1 && under(dir@, #[trigger] entries@[t].0@) implies seq_views(
                    out@,
                ).contains(entries@[t].0@) by {
                    if t < i {
                        assert(seq_views(before).contains(entries@[t].0@));
                        let j = choose|j: int|
                            0 <= j < before.len() && seq_views(before)[j] == entries@[t].0@;
                        assert(seq_views(out@)[j] == entries@[t].0@);
                    } else {
                        assert(seq_views(out@)[out@.len() - 1] == key@);
                    }
                }
            }
        } else {
            proof {
                assert forall|t: int|
                    0 <= t < i + 1 && under(dir@, #[trigger] entries@[t].0@) implies seq_views(
                    out@,
                ).contains(entries@[t].0@) by {
                    if t == i {
                        assert(under(dir@, key@) ==> seq_views(out@).contains(key@));
                    }
                }
            }
        }
        i = i + 1;
    }
    out
}

/// Appends a string; the set view gains it.
pub fn strset_insert(v: &mut Vec<String>, k: String)
    ensures
        strset(final (v)@) == strset(old(v)@).insert(k@),
{
    let ghost k0 = k;
    let ghost before = v@;
    v.push(k);
    proof {
        lemma_strset_push(before, k0);
        assert(v@ == before.push(k0));
    }
}

/// The vector without every string of the given view; the set view loses it.
pub fn strset_remove(v: &Vec<String>, k: &String) -> (r: Vec<String>)
    ensures
        strset(r@) == strset(v@).remove(k@),
{
    let mut out: Vec<String> = Vec::new();
    let mut i: usize = 0;
    while i < v.len()
        invariant
            0 <= i <= v.len(),
            forall|j: int|
                0 <= j < out@.len() ==> (#[trigger] out@[j]@) != k@ && strset(v@).contains(
                    out@[j]@,
                ),
            forall|t: int|
                0 <= t < i && (#[trigger] v@[t]@) != k@ ==> strset(out@).contains(v@[t]@),
        decreases v.len() - i,
    {
        let ghost before = out@;
        if v[i] != *k {
            out.push(v[i].clone());
            proof {
                lemma_strset_push(before, v@[i as int]);
                lemma_strset_elem(v@, i as int);
                assert(out@[out@.len() - 1]@ == v@[i as int]@);
                assert(forall|j: int| 0 <= j < before.len() ==> out@[j] == before[j]);
                assert forall|t: int|
                    0 <= t < i + 1 && (#[trigger] v@[t]@) != k@ implies strset(out@).contains(
                    v@[t]@,
                ) by {
                    if t < i {
                        assert(strset(before).contains(v@[t]@));
                        assert(strset(out@) == strset(before).insert(v@[i as int]@));
                    }
                }
            }
        } else {
            proof {
                assert forall|t: int|
                    0 <= t < i + 1 && (#[trigger] v@[t]@) != k@ implies strset(out@).contains(
                    v@[t]@,
                ) by {}
            }
        }
        i = i + 1;
    }
    proof {
        assert forall|q: Seq<char>| strset(out@).contains(q) implies strset(v@).remove(k@).contains(
            q,
        ) by {
            let j = choose|j: int| 0 <= j < out@.len() && (#[trigger] out@[j]@) == q;
        }
        assert forall|q: Seq<char>| strset(v@).remove(k@).contains(q) implies strset(
            out@,
        ).contains(q) by {
            let t = choose|t: int| 0 <= t < v@.len() && (#[trigger] v@[t]@) == q;
        }
        assert(strset(out@) =~= strset(v@).remove(k@));
    }
    out
}

/// The vector without every string at or below the directory; the set view
/// keeps only what lies outside the subtree.
pub fn strset_remove_under(v: &Vec<String>, dir: &String) -> (r: Vec<String>)
    ensures
        strset(r@) == strset(v@).difference(under_keys(dir@)),
{
    let mut out: Vec<String> = Vec::new();
    let mut i: usize = 0;
    while i < v.len()
        invariant
            0 <= i <= v.len(),
            forall|j: int|
                0 <= j < out@.len() ==> !under_or_eq(dir@, #[trigger] out@[j]@) && strset(
                    v@,
                ).contains(out@[j]@),
            forall|t: int|
                0 <= t < i && !under_or_eq(dir@, #[trigger] v@[t]@) ==> strset(out@).contains(
                    v@[t]@,
                ),
        decreases v.len() - i,
    {
        let ghost before = out@;
        if !is_under_or_eq(dir, &v[i]) {
            out.push(v[i].clone());
            proof {
                lemma_strset_push(before, v@[i as int]);
                lemma_strset_elem(v@, i as int);
                assert(out@[out@.len() - 1]@ == v@[i as int]@);
                assert(forall|j: int| 0 <= j < before.len() ==> out@[j] == before[j]);
                assert forall|t: int|
                    0 <= t < i + 1 && !under_or_eq(dir@, #[trigger] v@[t]@) implies strset(
                    out@,
                ).contains(v@[t]@) by {
                    if t < i {
                        assert(strset(before).contains(v@[t]@));
                        assert(strset(out@) == strset(before).insert(v@[i as int]@));
                    }
                }
            }
        } else {
            proof {
                assert forall|t: int|
                    0 <= t < i + 1 && !under_or_eq(dir@, #[trigger] v@[t]@) implies strset(
                    out@,
                ).contains(v@[t]@) by {}
            }
        }
        i = i + 1;
    }
    proof {
        assert forall|q: Seq<char>| strset(out@).contains(q) implies strset(v@).difference(
            under_keys(dir@),
        ).contains(q) by {
            let j = choose|j: int| 0 <= j < out@.len() && (#[trigger] out@[j]@) == q;
        }
        assert forall|q: Seq<char>|
            strset(v@).difference(under_keys(dir@)).contains(q) implies strset(out@).contains(
            q,
        ) by {
            let t = choose|t: int| 0 <= t < v@.len() && (#[trigger] v@[t]@) == q;
        }
        assert(strset(out@) =~= strset(v@).difference(under_keys(dir@)));
    }
    out
}

/// An equal copy of a string vector.
pub fn dup_string_vec(v: &Vec<String>) -> (r: Vec<String>)
    ensures
        r@ == v@,
{
    let mut out: Vec<String> = Vec::new();
    let mut i: usize = 0;
    while i < v.len()
        invariant
            0 <= i <= v.len(),
            out@ == v@.take(i as int),
        decreases v.len() - i,
    {
        out.push(v[i].clone());
        proof {
            assert(out@ =~= v@.take(i + 1));
        }
        i = i + 1;
    }
    proof {
        assert(v@.take(v@.len() as int) =~= v@);
    }
    out
}

/// An equal copy of an optional string.
pub fn dup_opt_string(v: &Option<String>) -> (r: Option<String>)
    ensures
        r == *v,
{
    match v {
        Some(s) => Some(s.clone()),
        None => None,
    }
}

} // verus!
