//! Episode lists: ordered sequences of episode numbers.
//!
//! Episode numbers are carried in hundredths, so fractional specials such
//! as 12.5 stay exact integers (1250). A list handed to the episode screen
//! is strictly ascending with no duplicates, whatever the provider
//! delivered.

use vstd::prelude::*;

verus! {

/// Strictly ascending: each episode number is greater than every earlier
/// one, so the sequence also holds no duplicates.
pub open spec fn strictly_ascending(s: Seq<u64>) -> bool {
    forall|i: int, j: int| 0 <= i < j < s.len() ==> s[i] < s[j]
}

/// A strictly ascending sequence never repeats a value.
pub proof fn lemma_strictly_ascending_no_duplicates(s: Seq<u64>)
    requires
        strictly_ascending(s),
    ensures
        forall|i: int, j: int| 0 <= i < j < s.len() ==> s[i] != s[j],
{
}

/// The two sequences hold exactly the same values.
pub open spec fn same_values(a: Seq<u64>, b: Seq<u64>) -> bool {
    forall|v: u64| #![trigger a.contains(v)] #![trigger b.contains(v)] a.contains(v) <==> b.contains(
        v,
    )
}

/// A strictly ascending sequence is determined by its values: the
/// normalized episode list is the one and only ordering of what the
/// provider delivered.
pub proof fn lemma_ascending_unique(a: Seq<u64>, b: Seq<u64>)
    requires
        strictly_ascending(a),
        strictly_ascending(b),
        same_values(a, b),
    ensures
        a == b,
    decreases a.len(),
{
    if a.len() == 0 {
        if b.len() > 0 {
            assert(b.contains(b[0]));
            assert(a.contains(b[0]));
        }
        assert(a =~= b);
    } else if b.len() == 0 {
        assert(a.contains(a[0]));
        assert(b.contains(a[0]));
    } else {
        // both heads are the least value, so they agree
        assert(a.contains(a[0]) && b.contains(b[0]));
        assert(a.contains(b[0]) && b.contains(a[0]));
        let ia = choose|i: int| 0 <= i < a.len() && a[i] == b[0];
        let ib = choose|i: int| 0 <= i < b.len() && b[i] == a[0];
        assert(a[0] <= a[ia] && b[0] <= b[ib]);
        assert(a[0] == b[0]);
        // the tails hold the remaining values
        assert forall|v: u64| #![trigger a.drop_first().contains(v)]
            #![trigger b.drop_first().contains(v)]
            a.drop_first().contains(v) <==> b.drop_first().contains(v) by {
            if a.drop_first().contains(v) {
                let i = choose|i: int|
                    0 <= i < a.drop_first().len() && #[trigger] a.drop_first()[i] == v;
                assert(a[i + 1] == v);
                assert(a.contains(v));
                assert(v > a[0]);
                assert(b.contains(v));
                let j = choose|j: int| 0 <= j < b.len() && #[trigger] b[j] == v;
                assert(j > 0);
                assert(b.drop_first()[j - 1] == v);
                assert(b.drop_first().contains(v));
            }
            if b.drop_first().contains(v) {
                let i = choose|i: int|
                    0 <= i < b.drop_first().len() && #[trigger] b.drop_first()[i] == v;
                assert(b[i + 1] == v);
                assert(b.contains(v));
                assert(v > b[0]);
                assert(a.contains(v));
                let j = choose|j: int| 0 <= j < a.len() && #[trigger] a[j] == v;
                assert(j > 0);
                assert(a.drop_first()[j - 1] == v);
                assert(a.drop_first().contains(v));
            }
        }
        lemma_ascending_unique(a.drop_first(), b.drop_first());
        assert(a.len() == b.len());
        assert forall|i: int| 0 <= i < a.len() implies a[i] == b[i] by {
            if i > 0 {
                assert(a.drop_first()[i - 1] == b.drop_first()[i - 1]);
            }
        }
        assert(a =~= b);
    }
}

/// Orders raw episode numbers strictly ascending and drops duplicates;
/// the result holds exactly the values the provider delivered.
pub fn normalize_episodes(raw: &Vec<u64>) -> (r: Vec<u64>)
    ensures
        strictly_ascending(r@),
        same_values(r@, raw@),
        r@.to_set() == raw@.to_set(),
{
    let mut r: Vec<u64> = Vec::new();
    let mut i: usize = 0;
    while i < raw.len()
        invariant
            i <= raw@.len(),
            strictly_ascending(r@),
            same_values(r@, raw@.take(i as int)),
        decreases raw@.len() - i,
    {
        let x = raw[i];
        let mut j: usize = 0;
        while j < r.len() && r[j] < x
            invariant
                j <= r@.len(),
                forall|k: int| 0 <= k < j ==> r@[k] < x,
                strictly_ascending(r@),
            decreases r@.len() - j,
        {
            j = j + 1;
        }
        let ghost before = r@;
        let ghost cur = raw@.take(i as int);
        let ghost ext = raw@.take(i + 1);
        proof {
            assert(ext =~= cur.push(x));
        }
        if j < r.len() && r[j] == x {
            // already present: nothing to insert
            proof {
                assert(before[j as int] == x);
                assert(before.contains(x));
            }
        } else {
            r.insert(j, x);
            proof {
                assert forall|v: u64| #![trigger r@.contains(v)] #![trigger before.contains(v)]
                    r@.contains(v) <==> before.contains(v) || v == x by {
                    if r@.contains(v) {
                        let idx = choose|idx: int| 0 <= idx < r@.len() && #[trigger] r@[idx] == v;
                        if idx < j {
                            assert(before[idx] == v);
                            assert(before.contains(v));
                        } else if idx > j {
                            assert(before[idx - 1] == v);
                            assert(before.contains(v));
                        }
                    }
                    if before.contains(v) {
                        let idx = choose|idx: int|
                            0 <= idx < before.len() && #[trigger] before[idx] == v;
                        if idx < j {
                            assert(r@[idx] == v);
                        } else {
                            assert(r@[idx + 1] == v);
                        }
                        assert(r@.contains(v));
                    }
                    if v == x {
                        assert(r@[j as int] == v);
                        assert(r@.contains(v));
                    }
                }
            }
        }
        proof {
            assert forall|v: u64| #![trigger ext.contains(v)] ext.contains(v) <==> cur.contains(v)
                || v == x by {
                if ext.contains(v) {
                    let idx = choose|idx: int| 0 <= idx < ext.len() && #[trigger] ext[idx] == v;
                    if idx < i {
                        assert(cur[idx] == v);
                        assert(cur.contains(v));
                    } else {
                        assert(v == x);
                    }
                }
                if cur.contains(v) {
                    let idx = choose|idx: int| 0 <= idx < cur.len() && #[trigger] cur[idx] == v;
                    assert(ext[idx] == v);
                    assert(ext.contains(v));
                }
                if v == x {
                    assert(ext[i as int] == v);
                    assert(ext.contains(v));
                }
            }
            assert forall|v: u64| #![trigger r@.contains(v)] #![trigger ext.contains(v)]
                r@.contains(v) <==> ext.contains(v) by {
                assert(before.contains(v) <==> cur.contains(v));
                assert(ext.contains(v) <==> cur.contains(v) || v == x);
            }
        }
        i = i + 1;
    }
    proof {
        assert(raw@.take(raw@.len() as int) =~= raw@);
        assert(r@.to_set() =~= raw@.to_set()) by {
            assert forall|v: u64| #[trigger] r@.to_set().contains(v) implies raw@.to_set().contains(
                v,
            ) by {
                assert(r@.contains(v));
            }
            assert forall|v: u64| #[trigger] raw@.to_set().contains(v) implies r@.to_set().contains(
                v,
            ) by {
                assert(raw@.contains(v));
            }
        }
    }
    r
}

} // verus!
