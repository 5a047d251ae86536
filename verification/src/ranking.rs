//! Picking the largest entries of a list by an integer key, as the
//! process list does when it is sorted by memory.
use vstd::prelude::*;
use vstd::multiset::Multiset;

verus! {

/// The entries of `s` come in order of non-increasing key.
pub open spec fn sorted_by_key_desc<T>(s: Seq<(u64, T)>) -> bool {
    forall|i: int, j: int| 0 <= i < j < s.len() ==> s[i].0 >= s[j].0
}

/// The `limit` entries of `items` with the largest keys, largest first.
/// Which of several entries with equal keys make the cut is left open; every
/// entry left out has a key no larger than any kept one.
pub fn top_by_key<T>(items: Vec<(u64, T)>, limit: usize) -> (r: Vec<(u64, T)>)
    ensures
        r@.len() == (if limit < items@.len() {
            limit as int
        } else {
            items@.len() as int
        }),
        sorted_by_key_desc(r@),
        r@.to_multiset().subset_of(items@.to_multiset()),
        forall|x: (u64, T)|
            items@.to_multiset().count(x) > r@.to_multiset().count(x) ==> forall|i: int|
                0 <= i < r@.len() ==> x.0 <= #[trigger] r@[i].0,
{
    broadcast use vstd::seq_lib::group_to_multiset_ensures;

    let ghost all = items@.to_multiset();
    let mut rest = items;
    let mut out: Vec<(u64, T)> = Vec::new();
    assert(out@.to_multiset() =~= Multiset::<(u64, T)>::empty());
    assert(out@.to_multiset().add(rest@.to_multiset()) =~= all);
    while out.len() < limit && rest.len() > 0
        invariant
            out@.to_multiset().add(rest@.to_multiset()) == all,
            all.len() == out@.len() + rest@.len(),
            out@.len() <= limit,
            sorted_by_key_desc(out@),
            forall|i: int, j: int|
                0 <= i < out@.len() && 0 <= j < rest@.len() ==> rest@[j].0 <= out@[i].0,
        decreases rest@.len(),
    {
        let mut m: usize = 0;
        let mut k: usize = 1;
        while k < rest.len()
            invariant
                0 <= m < rest@.len(),
                1 <= k <= rest@.len(),
                forall|j: int| 0 <= j < k ==> rest@[j].0 <= rest@[m as int].0,
            decreases rest@.len() - k,
        {
            if rest[k].0 > rest[m].0 {
                m = k;
            }
            k += 1;
        }
        let ghost old_rest = rest@;
        let ghost old_out = out@;
        let x = rest.remove(m);
        assert(x == old_rest[m as int]);
        assert(rest@ == old_rest.remove(m as int));
        out.push(x);
        proof {
            assert(out@ == old_out.push(x));
            old_rest.to_multiset_ensures();
            old_out.to_multiset_ensures();
            assert(old_rest[m as int] == x);
            assert(old_rest.remove(m as int).to_multiset() =~= old_rest.to_multiset().remove(x));
            assert(old_rest.to_multiset().count(x) > 0) by {
                assert(old_rest.contains(x));
            }
            assert(out@.to_multiset().add(rest@.to_multiset()) =~= all);
            assert forall|i: int, j: int| 0 <= i < j < out@.len() implies out@[i].0 >= out@[j].0 by {
                if j == out@.len() - 1 {
                    assert(out@[i] == old_out[i]);
                    assert(out@[j] == old_rest[m as int]);
                } else {
                    assert(out@[i] == old_out[i] && out@[j] == old_out[j]);
                }
            }
            assert forall|i: int, j: int| 0 <= i < out@.len() && 0 <= j < rest@.len() implies rest@[j].0
                <= out@[i].0 by {
                let oj = if j < m { j } else { j + 1 };
                assert(rest@[j] == old_rest[oj]);
                if i < old_out.len() {
                    assert(out@[i] == old_out[i]);
                }
            }
        }
    }
    proof {
        assert forall|x: (u64, T)| all.count(x) > out@.to_multiset().count(x) implies forall|i: int|
            0 <= i < out@.len() ==> x.0 <= #[trigger] out@[i].0 by {
            assert(rest@.to_multiset().count(x) > 0);
            assert(rest@.contains(x));
            let j = choose|j: int| 0 <= j < rest@.len() && rest@[j] == x;
            assert forall|i: int| 0 <= i < out@.len() implies x.0 <= #[trigger] out@[i].0 by {
                assert(rest@[j].0 <= out@[i].0);
            }
        }
        assert(out@.to_multiset().subset_of(all)) by {
            assert forall|x: (u64, T)| out@.to_multiset().count(x) <= all.count(x) by {}
        }
    }
    out
}

} // verus!
