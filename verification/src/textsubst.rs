//! Literal text substitution for configuration files.
//!
//! Substitution scans left to right, replaces each non-overlapping
//! occurrence of the key and continues after the inserted value. An empty
//! key leaves the text unchanged.

use vstd::prelude::*;

use crate::manifest::KeyValue;

verus! {

/// The text with every occurrence of `k` replaced by `v`, scanning left to
/// right and skipping over each inserted value. With an empty key the text
/// is unchanged.
pub open spec fn replaced(s: Seq<char>, k: Seq<char>, v: Seq<char>) -> Seq<char>
    decreases s.len(),
{
    if k.len() == 0 || s.len() < k.len() {
        s
    } else if s.subrange(0, k.len() as int) == k {
        v + replaced(s.skip(k.len() as int), k, v)
    } else {
        seq![s[0]] + replaced(s.skip(1), k, v)
    }
}

/// Whether the key occurs in the text starting at `i`.
fn matches_at(s: &String, i: usize, k: &String) -> (r: bool)
    requires
        i + k@.len() <= s@.len(),
    ensures
        r == (s@.subrange(i as int, i + k@.len()) == k@),
{
    let n = s.as_str().unicode_len();
    let kn = k.as_str().unicode_len();
    let mut j: usize = 0;
    while j < kn
        invariant
            0 <= j <= kn,
            kn == k@.len(),
            n == s@.len(),
            i + kn <= n,
            forall|t: int| 0 <= t < j ==> s@[i + t] == k@[t],
        decreases kn - j,
    {
        if s.as_str().get_char(i + j) != k.as_str().get_char(j) {
            assert(s@.subrange(i as int, i + k@.len())[j as int] != k@[j as int]);
            return false;
        }
        j = j + 1;
    }
    assert(s@.subrange(i as int, i + k@.len()) =~= k@);
    true
}

/// Replaces every occurrence of `k` in `s` by `v`.
pub fn replace_literal(s: &String, k: &String, v: &String) -> (r: String)
    ensures
        r@ == replaced(s@, k@, v@),
{
    let n = s.as_str().unicode_len();
    let kn = k.as_str().unicode_len();
    if kn == 0 {
        return s.clone();
    }
    let mut out = String::new();
    let mut i: usize = 0;
    proof {
        assert(s@.skip(0) =~= s@);
        assert(out@ + replaced(s@.skip(0), k@, v@) =~= replaced(s@, k@, v@));
    }
    while i < n
        invariant
            0 <= i <= n,
            n == s@.len(),
            kn == k@.len(),
            kn > 0,
            replaced(s@, k@, v@) == out@ + replaced(s@.skip(i as int), k@, v@),
        decreases n - i,
    {
        let ghost tail = s@.skip(i as int);
        if kn <= n - i && matches_at(s, i, k) {
            proof {
                assert(tail.subrange(0, kn as int) =~= s@.subrange(i as int, i + kn));
                assert(tail.len() >= kn);
                assert(replaced(tail, k@, v@) == v@ + replaced(tail.skip(kn as int), k@, v@));
                assert(tail.skip(kn as int) =~= s@.skip(i + kn));
            }
            out.append(v.as_str());
            i = i + kn;
            proof {
                assert(replaced(s@, k@, v@) == out@ + replaced(s@.skip(i as int), k@, v@));
            }
        } else {
            proof {
                if tail.len() >= kn {
                    assert(tail.subrange(0, kn as int) =~= s@.subrange(i as int, i + kn));
                    assert(tail.subrange(0, kn as int) != k@);
                }
                assert(tail[0] == s@[i as int]);
                assert(replaced(tail, k@, v@) == seq![s@[i as int]] + replaced(
                    tail.skip(1),
                    k@,
                    v@,
                ));
                assert(tail.skip(1) =~= s@.skip(i + 1));
            }
            let piece = s.as_str().substring_char(i, i + 1);
            proof {
                assert(piece@ =~= seq![s@[i as int]]);
            }
            out.append(piece);
            i = i + 1;
            proof {
                assert(replaced(s@, k@, v@) == out@ + replaced(s@.skip(i as int), k@, v@));
            }
        }
    }
    proof {
        assert(s@.skip(n as int) =~= Seq::<char>::empty());
        assert(replaced(Seq::<char>::empty(), k@, v@) == Seq::<char>::empty());
        assert(out@ + Seq::<char>::empty() =~= out@);
    }
    out
}

/// The text after applying a list of substitutions in order.
pub open spec fn replaced_all(s: Seq<char>, kvs: Seq<KeyValue>) -> Seq<char>
    decreases kvs.len(),
{
    if kvs.len() == 0 {
        s
    } else {
        replaced_all(replaced(s, kvs[0].key@, kvs[0].value@), kvs.skip(1))
    }
}

/// Applies each substitution of the list in order.
pub fn apply_replacements(content: &String, kvs: &Vec<KeyValue>) -> (r: String)
    ensures
        r@ == replaced_all(content@, kvs@),
{
    let mut cur = content.clone();
    let mut i: usize = 0;
    proof {
        assert(kvs@.skip(0) =~= kvs@);
    }
    while i < kvs.len()
        invariant
            0 <= i <= kvs@.len(),
            replaced_all(content@, kvs@) == replaced_all(cur@, kvs@.skip(i as int)),
        decreases kvs@.len() - i,
    {
        let ghost rest = kvs@.skip(i as int);
        proof {
            assert(rest[0] == kvs@[i as int]);
            assert(replaced_all(cur@, rest) == replaced_all(
                replaced(cur@, kvs@[i as int].key@, kvs@[i as int].value@),
                rest.skip(1),
            ));
            assert(rest.skip(1) =~= kvs@.skip(i + 1));
        }
        cur = replace_literal(&cur, &kvs[i].key, &kvs[i].value);
        i = i + 1;
    }
    proof {
        assert(kvs@.skip(kvs@.len() as int) =~= Seq::<KeyValue>::empty());
    }
    cur
}

} // verus!
