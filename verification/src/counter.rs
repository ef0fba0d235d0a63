use vstd::prelude::*;

verus! {

/// Addition saturating at `u32::MAX`: the counter's overflow policy.
pub open spec fn sat_add(a: u32, b: u32) -> u32 {
    if a + b > u32::MAX {
        u32::MAX
    } else {
        (a + b) as u32
    }
}

/// The shared counter: a single non-negative integer, starting at zero and
/// only ever increased. Increments saturate at `u32::MAX` rather than wrap.
pub struct Counter {
    value: u32,
}

impl Counter {
    /// The current value of the counter, for use in contracts.
    pub closed spec fn spec_value(&self) -> u32 {
        self.value
    }

    /// A fresh counter holds zero.
    pub fn new() -> (c: Counter)
        ensures
            c.spec_value() == 0,
    {
        Counter { value: 0 }
    }

    /// Reads the current value without changing it.
    pub fn read(&self) -> (v: u32)
        ensures
            v == self.spec_value(),
    {
        self.value
    }

    /// Adds `by` to the counter, saturating at `u32::MAX`, and returns the
    /// new value. The counter never decreases.
    pub fn increment(&mut self, by: u32) -> (v: u32)
        ensures
            final(self).spec_value() == sat_add(old(self).spec_value(), by),
            v == final(self).spec_value(),
            old(self).spec_value() <= final(self).spec_value(),
    {
        self.value = self.value.saturating_add(by);
        self.value
    }
}

/// The counter value reached by applying the increments of `amounts`, in
/// order, starting from `v`.
pub open spec fn apply_increments(v: u32, amounts: Seq<u32>) -> u32
    decreases amounts.len(),
{
    if amounts.len() == 0 {
        v
    } else {
        apply_increments(sat_add(v, amounts[0]), amounts.subrange(1, amounts.len() as int))
    }
}

/// The mathematical sum of the amounts of `s`.
pub open spec fn seq_sum(s: Seq<u32>) -> int
    decreases s.len(),
{
    if s.len() == 0 {
        0
    } else {
        s[0] + seq_sum(s.subrange(1, s.len() as int))
    }
}

proof fn lemma_seq_sum_nonneg(s: Seq<u32>)
    ensures
        seq_sum(s) >= 0,
    decreases s.len(),
{
    if s.len() > 0 {
        lemma_seq_sum_nonneg(s.subrange(1, s.len() as int));
    }
}

/// Sequential accumulation: as long as the total stays within `u32::MAX`,
/// applying a sequence of increments adds exactly their sum — no amount is
/// lost and none is applied twice.
pub proof fn lemma_apply_increments_sum(v: u32, amounts: Seq<u32>)
    requires
        v + seq_sum(amounts) <= u32::MAX,
    ensures
        apply_increments(v, amounts) == v + seq_sum(amounts),
    decreases amounts.len(),
{
    if amounts.len() > 0 {
        let rest = amounts.subrange(1, amounts.len() as int);
        lemma_seq_sum_nonneg(rest);
        lemma_apply_increments_sum(sat_add(v, amounts[0]), rest);
    }
}

proof fn lemma_seq_sum_remove(s: Seq<u32>, i: int)
    requires
        0 <= i < s.len(),
    ensures
        seq_sum(s) == s[i] + seq_sum(s.remove(i)),
    decreases s.len(),
{
    let tail = s.subrange(1, s.len() as int);
    if i == 0 {
        assert(s.remove(0) =~= tail);
    } else {
        lemma_seq_sum_remove(tail, i - 1);
        assert(s.remove(i).subrange(1, s.remove(i).len() as int) =~= tail.remove(i - 1));
    }
}

/// The sum of a sequence of amounts depends only on which amounts occur, not
/// on their order.
pub proof fn lemma_seq_sum_permutation(s1: Seq<u32>, s2: Seq<u32>)
    requires
        s1.to_multiset() == s2.to_multiset(),
    ensures
        seq_sum(s1) == seq_sum(s2),
    decreases s1.len(),
{
    s1.to_multiset_ensures();
    s2.to_multiset_ensures();
    if s1.len() == 0 {
        assert(s2.len() == 0);
    } else {
        let a = s1[0];
        assert(s1.contains(a));
        assert(s2.to_multiset().count(a) > 0);
        assert(s2.contains(a));
        let j = choose|j: int| 0 <= j < s2.len() && s2[j] == a;
        assert(s1.remove(0).to_multiset() == s2.remove(j).to_multiset()) by {
            assert(s1.remove(0).to_multiset() =~= s1.to_multiset().remove(a));
            assert(s2.remove(j).to_multiset() =~= s2.to_multiset().remove(a));
        }
        lemma_seq_sum_permutation(s1.remove(0), s2.remove(j));
        lemma_seq_sum_remove(s1, 0);
        lemma_seq_sum_remove(s2, j);
    }
}

/// The counter only ever grows: applying any sequence of increments, even
/// ones that saturate, never lowers the value.
pub proof fn lemma_apply_increments_monotone(v: u32, amounts: Seq<u32>)
    ensures
        v <= apply_increments(v, amounts),
    decreases amounts.len(),
{
    if amounts.len() > 0 {
        lemma_apply_increments_monotone(
            sat_add(v, amounts[0]),
            amounts.subrange(1, amounts.len() as int),
        );
    }
}

/// Concurrent accumulation: increments are applied atomically, one at a
/// time, in some unspecified order. Whatever order `applied` the store saw
/// for the issued amounts, as long as the total stays within `u32::MAX` the
/// final value is the initial value plus the sum of all issued amounts — no
/// update is lost.
pub proof fn lemma_concurrent_accumulation(v: u32, issued: Seq<u32>, applied: Seq<u32>)
    requires
        applied.to_multiset() == issued.to_multiset(),
        v + seq_sum(issued) <= u32::MAX,
    ensures
        apply_increments(v, applied) == v + seq_sum(issued),
{
    lemma_seq_sum_permutation(applied, issued);
    lemma_apply_increments_sum(v, applied);
}

} // verus!
