//! A running average over the most recent values of a series.

use vstd::prelude::*;

verus! {

/// The sum of `values`.
pub open spec fn sum_of(values: Seq<u64>) -> nat
    decreases values.len(),
{
    if values.len() == 0 {
        0
    } else {
        sum_of(values.drop_last()) + values.last() as nat
    }
}

/// What a window that holds `values` and can hold `capacity` values holds once `value`
/// has been added: the value stands behind the others, and only the newest `capacity`
/// values stay.
pub open spec fn window_after(values: Seq<u64>, capacity: nat, value: u64) -> Seq<u64> {
    let all = values.push(value);
    if all.len() <= capacity {
        all
    } else {
        all.subrange(all.len() - capacity, all.len() as int)
    }
}

/// Whether `gap` is more than five quarters of the average of `values`.
pub open spec fn outruns(gap: u64, values: Seq<u64>) -> bool {
    4 * gap * values.len() > 5 * sum_of(values)
}

/// The sum of some values is at most their number times the largest of all values.
pub proof fn lemma_sum_bound(values: Seq<u64>)
    ensures
        sum_of(values) <= values.len() * u64::MAX,
    decreases values.len(),
{
    if values.len() > 0 {
        lemma_sum_bound(values.drop_last());
        assert(values.drop_last().len() * u64::MAX + u64::MAX == values.len() * u64::MAX)
            by (nonlinear_arith)
            requires
                values.drop_last().len() + 1 == values.len(),
        ;
    }
}

/// The most recent values of a series, at most `capacity` of them, oldest first.
pub struct RunningAverage {
    values: Vec<u64>,
    capacity: u16,
}

impl View for RunningAverage {
    type V = Seq<u64>;

    closed spec fn view(&self) -> Seq<u64> {
        self.values@
    }
}

impl RunningAverage {
    #[verifier::type_invariant]
    spec fn within_capacity(self) -> bool {
        self.values@.len() <= self.capacity
    }

    /// How many values the window can hold.
    pub closed spec fn capacity(&self) -> nat {
        self.capacity as nat
    }

    /// A window without values that can hold `capacity` of them.
    pub fn new(capacity: u16) -> (average: RunningAverage)
        ensures
            average@ == Seq::<u64>::empty(),
            average.capacity() == capacity,
    {
        RunningAverage { values: Vec::new(), capacity }
    }

    /// How many values the window holds.
    pub fn len(&self) -> (count: usize)
        ensures
            count == self@.len(),
            count <= self.capacity(),
    {
        proof {
            use_type_invariant(self);
        }
        self.values.len()
    }

    /// Adds a value. Where the window is full, its oldest value leaves.
    pub fn add(&mut self, value: u64)
        ensures
            final(self)@ == window_after(old(self)@, old(self).capacity(), value),
            final(self).capacity() == old(self).capacity(),
    {
        proof {
            use_type_invariant(&*self);
        }
        let capacity: u16 = self.capacity;
        if capacity == 0 {
            assert(self.values@ =~= window_after(old(self)@, 0, value));
            return ;
        }
        let n: usize = self.values.len();
        let first: usize = if n == capacity as usize {
            1
        } else {
            0
        };
        let mut values: Vec<u64> = Vec::new();
        let mut i: usize = first;
        while i < n
            invariant
                n == self.values@.len(),
                first <= i <= n,
                values@ == self.values@.subrange(first as int, i as int),
            decreases n - i,
        {
            values.push(self.values[i]);
            i = i + 1;
            assert(values@ =~= self.values@.subrange(first as int, i as int));
        }
        values.push(value);
        assert(values@ =~= window_after(old(self)@, old(self).capacity(), value));
        *self = RunningAverage { values, capacity };
    }

    /// The sum of the values in the window.
    pub fn sum(&self) -> (total: u128)
        ensures
            total == sum_of(self@),
            total <= self@.len() * u64::MAX,
    {
        proof {
            use_type_invariant(self);
        }
        let n: usize = self.values.len();
        let mut total: u128 = 0;
        let mut i: usize = 0;
        while i < n
            invariant
                n == self.values@.len(),
                n <= u16::MAX,
                i <= n,
                total == sum_of(self.values@.subrange(0, i as int)),
                total <= i * u64::MAX,
            decreases n - i,
        {
            let ghost head = self.values@.subrange(0, i as int);
            let ghost next = self.values@.subrange(0, i + 1);
            assert(next.drop_last() =~= head);
            assert(next.last() == self.values@[i as int]);
            assert(i * u64::MAX + u64::MAX == (i + 1) * u64::MAX) by (nonlinear_arith);
            assert((i + 1) * u64::MAX <= u16::MAX * u64::MAX) by (nonlinear_arith)
                requires
                    i + 1 <= u16::MAX,
            ;
            total = total + self.values[i] as u128;
            i = i + 1;
        }
        assert(self.values@.subrange(0, n as int) =~= self.values@);
        total
    }

    /// Whether `gap` is more than five quarters of the average of the values in the window.
    pub fn is_outrun_by(&self, gap: u64) -> (late: bool)
        ensures
            late == outruns(gap, self@),
    {
        let count: usize = self.len();
        let total: u128 = self.sum();
        assert(4 * gap * count <= 4 * u64::MAX * u16::MAX) by (nonlinear_arith)
            requires
                gap <= u64::MAX,
                count <= u16::MAX,
        ;
        assert(count * u64::MAX <= u16::MAX * u64::MAX) by (nonlinear_arith)
            requires
                count <= u16::MAX,
        ;
        let scaled_gap: u128 = 4 * (gap as u128) * (count as u128);
        let scaled_sum: u128 = 5 * total;
        scaled_gap > scaled_sum
    }
}

} // verus!
