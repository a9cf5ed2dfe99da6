//! Initiative order: who acts first in a round, by the mastery level of
//! their initiative.
use vstd::prelude::*;

use vstd::string::StringExecFns;

use crate::being::ShockState;
use crate::text::{append_decimal, append_filled, decimal, fill_to};

verus! {

/// Whether the entry at `a` acts before the entry at `b`: a higher level
/// acts first, and of two equal levels the one listed later.
pub open spec fn acts_before(levels: Seq<u32>, a: int, b: int) -> bool {
    levels[a] > levels[b] || (levels[a] == levels[b] && a > b)
}

/// Whether `order` lists every entry of `levels` once, in the order of
/// acting.
pub open spec fn is_initiative_order(levels: Seq<u32>, order: Seq<usize>) -> bool {
    &&& order.len() == levels.len()
    &&& forall|i: int| 0 <= i < order.len() ==> (#[trigger] order[i]) < levels.len()
    &&& order.no_duplicates()
    &&& forall|i: int, j: int|
        0 <= i < j < order.len() ==> acts_before(levels, #[trigger] order[i] as int, #[trigger] order[j] as int)
}

/// The entries in the order they act: highest initiative first, and among
/// equal levels the one listed later first.
pub fn initiative_order(levels: &Vec<u32>) -> (order: Vec<usize>)
    ensures
        is_initiative_order(levels@, order@),
{
    let mut order: Vec<usize> = Vec::new();
    let mut i: usize = 0;
    while i < levels.len()
        invariant
            i <= levels@.len(),
            order@.len() == i,
            forall|k: int| 0 <= k < order@.len() ==> (#[trigger] order@[k]) < i,
            order@.no_duplicates(),
            forall|k: int, m: int|
                0 <= k < m < order@.len() ==> acts_before(
                    levels@,
                    #[trigger] order@[k] as int,
                    #[trigger] order@[m] as int,
                ),
        decreases levels@.len() - i,
    {
        let mut p: usize = 0;
        while p < order.len() && levels[order[p]] > levels[i]
            invariant
                p <= order@.len(),
                i < levels@.len(),
                forall|k: int| 0 <= k < order@.len() ==> (#[trigger] order@[k]) < i,
                forall|k: int| 0 <= k < p ==> levels@[#[trigger] order@[k] as int] > levels@[i as int],
            decreases order@.len() - p,
        {
            p = p + 1;
        }
        let ghost before = order@;
        proof {
            before.insert_ensures(p as int, i);
            if p < before.len() {
                assert(levels@[before[p as int] as int] <= levels@[i as int]);
                assert forall|m: int| p <= m < before.len() implies levels@[before[m] as int]
                    <= levels@[i as int] by {
                    if m > p {
                        assert(acts_before(levels@, before[p as int] as int, before[m] as int));
                    }
                }
            }
        }
        order.insert(p, i);
        proof {
            let after = order@;
            assert forall|k: int| 0 <= k < after.len() implies (#[trigger] after[k]) < i + 1 by {
                if k < p {
                    assert(after[k] == before[k]);
                } else if k > p {
                    assert(after[k] == before[k - 1]);
                }
            }
            assert forall|k: int, m: int| 0 <= k < m < after.len() implies acts_before(
                levels@,
                #[trigger] after[k] as int,
                #[trigger] after[m] as int,
            ) by {
                if m < p {
                    assert(after[k] == before[k] && after[m] == before[m]);
                } else if m == p {
                    assert(after[k] == before[k]);
                } else if k < p {
                    assert(after[k] == before[k] && after[m] == before[m - 1]);
                } else if k == p {
                    assert(after[m] == before[m - 1]);
                    assert(levels@[before[m - 1] as int] <= levels@[i as int]);
                } else {
                    assert(after[k] == before[k - 1] && after[m] == before[m - 1]);
                }
            }
            assert forall|k: int, m: int| 0 <= k < after.len() && 0 <= m < after.len() && k != m implies after[k] != after[m] by {
                if k != p && m != p {
                    let k0 = if k < p { k } else { k - 1 };
                    let m0 = if m < p { m } else { m - 1 };
                    assert(after[k] == before[k0] && after[m] == before[m0]);
                } else if k == p {
                    let m0 = if m < p { m } else { m - 1 };
                    assert(after[m] == before[m0]);
                } else {
                    let k0 = if k < p { k } else { k - 1 };
                    assert(after[k] == before[k0]);
                }
            }
        }
        i = i + 1;
    }
    order
}

/// A line of the initiative list: the name padded to 10 columns, the
/// level, and the shock state when there is one.
pub open spec fn initiative_line(name: Seq<char>, level: u8, shock: Option<ShockState>) -> Seq<char> {
    fill_to(name, ' ', 10) + " "@ + decimal(level as nat) + " "@ + match shock {
        Some(state) => state.spec_label(),
        None => Seq::empty(),
    }
}

/// Writes a line of the initiative list.
pub fn render_initiative_line(name: &str, level: u8, shock: Option<ShockState>) -> (s: String)
    ensures
        s@ == initiative_line(name@, level, shock),
{
    proof {
        reveal_strlit(" ");
    }
    let mut s = String::new();
    append_filled(&mut s, name, " ", 10);
    s.append(" ");
    append_decimal(&mut s, level as u64);
    s.append(" ");
    match shock {
        Some(state) => s.append(state.label()),
        None => {},
    }
    proof {
        assert(s@ =~= initiative_line(name@, level, shock));
    }
    s
}

/// Two lists of the same entries, each without repeats and each in acting
/// order, are the same list.
proof fn lemma_sorted_lists_agree(levels: Seq<u32>, a: Seq<usize>, b: Seq<usize>)
    requires
        a.no_duplicates(),
        b.no_duplicates(),
        forall|x: usize| a.contains(x) <==> b.contains(x),
        forall|i: int, j: int|
            0 <= i < j < a.len() ==> acts_before(levels, #[trigger] a[i] as int, #[trigger] a[j] as int),
        forall|i: int, j: int|
            0 <= i < j < b.len() ==> acts_before(levels, #[trigger] b[i] as int, #[trigger] b[j] as int),
    ensures
        a == b,
    decreases a.len(),
{
    if a.len() == 0 {
        if b.len() > 0 {
            assert(b.contains(b[0]));
        }
        assert(a =~= b);
    } else {
        assert(a.contains(a[0]));
        let m = choose|m: int| 0 <= m < b.len() && b[m] == a[0];
        if m > 0 {
            assert(b.contains(b[0]));
            let k = choose|k: int| 0 <= k < a.len() && a[k] == b[0];
            assert(k != 0);
            assert(acts_before(levels, a[0] as int, a[k] as int));
            assert(acts_before(levels, b[0] as int, b[m] as int));
        }
        let x = a[0];
        let ra = a.drop_first();
        let rb = b.drop_first();
        assert forall|y: usize| ra.contains(y) <==> rb.contains(y) by {
            if ra.contains(y) {
                let k = choose|k: int| 0 <= k < ra.len() && ra[k] == y;
                assert(a[k + 1] == y && y != x);
                assert(a.contains(y));
                let n = choose|n: int| 0 <= n < b.len() && b[n] == y;
                assert(n != 0);
                assert(rb[n - 1] == y);
            }
            if rb.contains(y) {
                let k = choose|k: int| 0 <= k < rb.len() && rb[k] == y;
                assert(b[k + 1] == y && y != x);
                assert(b.contains(y));
                let n = choose|n: int| 0 <= n < a.len() && a[n] == y;
                assert(n != 0);
                assert(ra[n - 1] == y);
            }
        }
        assert forall|i: int, j: int| 0 <= i < j < ra.len() implies acts_before(
            levels,
            #[trigger] ra[i] as int,
            #[trigger] ra[j] as int,
        ) by {
            assert(ra[i] == a[i + 1] && ra[j] == a[j + 1]);
        }
        assert forall|i: int, j: int| 0 <= i < j < rb.len() implies acts_before(
            levels,
            #[trigger] rb[i] as int,
            #[trigger] rb[j] as int,
        ) by {
            assert(rb[i] == b[i + 1] && rb[j] == b[j + 1]);
        }
        lemma_sorted_lists_agree(levels, ra, rb);
        assert(a =~= seq![x] + ra);
        assert(b =~= seq![x] + rb);
    }
}

/// There is only one initiative order for a list of levels, so the order
/// `initiative_order` gives is determined by the levels alone.
pub proof fn initiative_order_is_unique(levels: Seq<u32>, a: Seq<usize>, b: Seq<usize>)
    requires
        levels.len() <= usize::MAX,
        is_initiative_order(levels, a),
        is_initiative_order(levels, b),
    ensures
        a == b,
{
    assert forall|x: usize| a.contains(x) <==> b.contains(x) by {
        if a.contains(x) {
            lemma_all_listed(levels, b, x);
        }
        if b.contains(x) {
            lemma_all_listed(levels, a, x);
        }
    }
    lemma_sorted_lists_agree(levels, a, b);
}

/// An initiative order lists every entry.
proof fn lemma_all_listed(levels: Seq<u32>, order: Seq<usize>, x: usize)
    requires
        is_initiative_order(levels, order),
        x < levels.len(),
        levels.len() <= usize::MAX,
    ensures
        order.contains(x),
{
    let set = order.to_set();
    order.unique_seq_to_set();
    assert(set.subset_of(Set::new(|v: usize| v < levels.len())));
    if !order.contains(x) {
        let full = Set::new(|v: usize| v < levels.len());
        assert(set.subset_of(full.remove(x)));
        lemma_full_len(levels.len());
        vstd::set_lib::lemma_len_subset(set, full.remove(x));
    }
}

/// The set of indices below `n` has `n` members.
proof fn lemma_full_len(n: nat)
    requires
        n <= usize::MAX,
    ensures
        Set::new(|v: usize| v < n).finite(),
        Set::new(|v: usize| v < n).len() == n,
    decreases n,
{
    if n == 0 {
        assert(Set::new(|v: usize| v < n) =~= Set::<usize>::empty());
    } else {
        lemma_full_len((n - 1) as nat);
        assert(Set::new(|v: usize| v < n) =~= Set::new(|v: usize| v < (n - 1) as nat).insert(
            (n - 1) as usize,
        ));
    }
}

} // verus!
