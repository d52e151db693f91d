use vstd::prelude::*;

verus! {

/// Sum of a sequence of observations.
pub open spec fn sum_of(s: Seq<u64>) -> int
    decreases s.len(),
{
    if s.len() == 0 {
        0
    } else {
        sum_of(s.drop_last()) + s.last()
    }
}

/// Arithmetic mean of a sequence of observations, rounded down; zero when empty.
pub open spec fn mean_of(s: Seq<u64>) -> int {
    if s.len() == 0 {
        0
    } else {
        sum_of(s) / (s.len() as int)
    }
}

/// Whether the exact mean of `s` is strictly above `bound`.
pub open spec fn mean_above(s: Seq<u64>, bound: int) -> bool {
    s.len() > 0 && sum_of(s) > bound * s.len()
}

proof fn lemma_sum_concat(a: Seq<u64>, b: Seq<u64>)
    ensures
        sum_of(a + b) == sum_of(a) + sum_of(b),
    decreases b.len(),
{
    if b.len() > 0 {
        assert((a + b).drop_last() =~= a + b.drop_last());
        lemma_sum_concat(a, b.drop_last());
    } else {
        assert(a + b =~= a);
    }
}

proof fn lemma_sum_remove(b: Seq<u64>, i: int)
    requires
        0 <= i < b.len(),
    ensures
        sum_of(b) == sum_of(b.remove(i)) + b[i],
{
    let front = b.take(i);
    let back = b.skip(i + 1);
    assert(b =~= (front + seq![b[i]]) + back);
    assert(b.remove(i) =~= front + back);
    lemma_sum_concat(front + seq![b[i]], back);
    lemma_sum_concat(front, seq![b[i]]);
    lemma_sum_concat(front, back);
    assert(seq![b[i]].drop_last() =~= Seq::<u64>::empty());
    assert(sum_of(seq![b[i]]) == b[i]) by {
        reveal_with_fuel(sum_of, 2);
    }
}

proof fn lemma_sum_permutation(a: Seq<u64>, b: Seq<u64>)
    requires
        a.to_multiset() == b.to_multiset(),
    ensures
        sum_of(a) == sum_of(b),
    decreases a.len(),
{
    broadcast use vstd::seq_lib::group_to_multiset_ensures;
    broadcast use vstd::multiset::group_multiset_axioms;

    if a.len() == 0 {
        assert(a.to_multiset().len() == a.len());
        assert(b.to_multiset().len() == b.len());
        assert(b =~= Seq::<u64>::empty());
    } else {
        let x = a.last();
        let rest = a.drop_last();
        assert(rest.push(x) =~= a);
        assert(a.to_multiset() =~= rest.to_multiset().insert(x));
        assert(b.to_multiset().count(x) > 0);
        assert(b.contains(x));
        let i = choose|i: int| 0 <= i < b.len() && b[i] == x;
        assert(b.remove(i).to_multiset() =~= b.to_multiset().remove(x));
        assert(rest.to_multiset() =~= rest.to_multiset().insert(x).remove(x));
        lemma_sum_permutation(rest, b.remove(i));
        lemma_sum_remove(b, i);
    }
}

/// The mean of observations does not depend on the order in which they were
/// pushed: any rearrangement of them has the same sum and the same mean.
pub proof fn mean_ignores_order(a: Seq<u64>, b: Seq<u64>)
    requires
        a.to_multiset() == b.to_multiset(),
    ensures
        sum_of(a) == sum_of(b),
        mean_of(a) == mean_of(b),
{
    broadcast use vstd::seq_lib::group_to_multiset_ensures;

    lemma_sum_permutation(a, b);
    assert(a.len() == a.to_multiset().len());
    assert(b.len() == b.to_multiset().len());
}

/// Tracks the mean of a stream of observations in constant space.
pub struct AccumulatingMean {
    count: u32,
    total: u128,
    pushed: Ghost<Seq<u64>>,
}

impl View for AccumulatingMean {
    type V = Seq<u64>;

    /// The observations pushed so far, oldest first.
    closed spec fn view(&self) -> Seq<u64> {
        self.pushed@
    }
}

proof fn lemma_sum_bounded(s: Seq<u64>)
    ensures
        0 <= sum_of(s) <= s.len() * 0xffff_ffff_ffff_ffff,
    decreases s.len(),
{
    if s.len() > 0 {
        lemma_sum_bounded(s.drop_last());
    }
}

impl AccumulatingMean {
    pub closed spec fn wf(&self) -> bool {
        &&& self.count as int == self.pushed@.len()
        &&& self.total as int == sum_of(self.pushed@)
    }

    pub fn new() -> (r: AccumulatingMean)
        ensures
            r.wf(),
            r@ == Seq::<u64>::empty(),
    {
        AccumulatingMean { count: 0, total: 0, pushed: Ghost(Seq::empty()) }
    }

    /// Number of observations pushed so far.
    pub fn count(&self) -> (r: u32)
        requires
            self.wf(),
        ensures
            r == self@.len(),
    {
        self.count
    }

    pub fn push(&mut self, item: u64)
        requires
            old(self).wf(),
            old(self)@.len() < u32::MAX,
        ensures
            final(self).wf(),
            final(self)@ == old(self)@.push(item),
    {
        let ghost s = self.pushed@.push(item);
        proof {
            assert(s.drop_last() =~= self.pushed@);
            lemma_sum_bounded(self.pushed@);
            assert(self.pushed@.len() * 0xffff_ffff_ffff_ffff <= 0xffff_ffff * 0xffff_ffff_ffff_ffff)
                by (nonlinear_arith)
                requires self.pushed@.len() < 0xffff_ffff;
        }
        self.count = self.count + 1;
        self.total = self.total + item as u128;
        self.pushed = Ghost(s);
    }

    /// The mean of the pushed observations, rounded down; zero when none were pushed.
    pub fn mean(&self) -> (r: u64)
        requires
            self.wf(),
        ensures
            r == mean_of(self@),
    {
        if self.count == 0 {
            0
        } else {
            proof {
                lemma_sum_bounded(self.pushed@);
                let n = self.pushed@.len() as int;
                let t = sum_of(self.pushed@);
                assert(t / n <= 0xffff_ffff_ffff_ffff) by (nonlinear_arith)
                    requires t <= n * 0xffff_ffff_ffff_ffff, n > 0, t >= 0;
            }
            (self.total / self.count as u128) as u64
        }
    }

    /// Whether the exact mean is strictly above `bound`; never when empty.
    pub fn exceeds(&self, bound: u64) -> (r: bool)
        requires
            self.wf(),
        ensures
            r == mean_above(self@, bound as int),
    {
        proof {
            lemma_sum_bounded(self.pushed@);
            assert(bound * self.pushed@.len() <= 0xffff_ffff_ffff_ffff * 0xffff_ffff) by (nonlinear_arith)
                requires self.pushed@.len() <= 0xffff_ffff, bound <= 0xffff_ffff_ffff_ffff;
        }
        self.count > 0 && self.total > bound as u128 * self.count as u128
    }
}

} // verus!
