//! Fixed-cardinality per-joint scalar vectors and their elementwise
//! arithmetic.
//!
//! A [`Joints`] value holds one scalar per joint of the robot, in a fixed
//! order shared by every vector that takes part in the same control cycle
//! (positions, stiffnesses, currents, directions, offsets).  Scalars are
//! plain `i64` values; callers pick the unit.

use vstd::prelude::*;

verus! {

use vstd::pervasive::VecAdditionalExecFns;

/// Number of controllable joints: two head joints, six per arm, six per leg.
pub const JOINT_COUNT: usize = 26;

/// Largest scalar magnitude the squared-magnitude reduction accepts without
/// overflowing: with every entry in `[-ENTRY_LIMIT, ENTRY_LIMIT]` the sum of
/// `JOINT_COUNT` squares stays far below `i64::MAX`.
pub const ENTRY_LIMIT: i64 = 0x1000_0000;

/// Integer division rounding toward zero, as the `/` operator of `i64` does
/// for a positive divisor.
pub open spec fn div_toward_zero(x: int, d: int) -> int {
    if x >= 0 {
        x / d
    } else {
        -((-x) / d)
    }
}

/// Sum of the squares of the entries of `s`.
pub open spec fn squared_sum_spec(s: Seq<int>) -> int
    decreases s.len(),
{
    if s.len() == 0 {
        0
    } else {
        squared_sum_spec(s.drop_last()) + s.last() * s.last()
    }
}

/// Largest entry of `s`, clamped below by zero: the fold of `max` with an
/// initial accumulator of `0`.
pub open spec fn max_entry_spec(s: Seq<int>) -> int
    decreases s.len(),
{
    if s.len() == 0 {
        0
    } else if s.last() > max_entry_spec(s.drop_last()) {
        s.last()
    } else {
        max_entry_spec(s.drop_last())
    }
}

/// Elementwise sum of two equally long sequences.
pub open spec fn add_spec(a: Seq<int>, b: Seq<int>) -> Seq<int> {
    Seq::new(a.len(), |i: int| a[i] + b[i])
}

/// Every entry divided by `d`, rounding toward zero.
pub open spec fn decay_spec(s: Seq<int>, d: int) -> Seq<int> {
    Seq::new(s.len(), |i: int| div_toward_zero(s[i], d))
}

/// True when every entry of `s` lies in `[-bound, bound]`.
pub open spec fn entries_within(s: Seq<int>, bound: int) -> bool {
    forall|i: int| 0 <= i < s.len() ==> -bound <= #[trigger] s[i] <= bound
}

/// Division toward zero never enlarges a value or flips its sign.
pub proof fn lemma_div_toward_zero_bounds(x: int, d: int)
    requires
        d >= 1,
    ensures
        x >= 0 ==> 0 <= div_toward_zero(x, d) <= x,
        x <= 0 ==> x <= div_toward_zero(x, d) <= 0,
{
    if x >= 0 {
        vstd::arithmetic::div_mod::lemma_div_pos_is_pos(x, d);
        vstd::arithmetic::div_mod::lemma_div_nonincreasing(x, d);
    } else {
        vstd::arithmetic::div_mod::lemma_div_pos_is_pos(-x, d);
        vstd::arithmetic::div_mod::lemma_div_nonincreasing(-x, d);
    }
}

/// Dividing by more than one never enlarges a square, and strictly shrinks
/// the square of any nonzero value.
pub proof fn lemma_div_square_shrinks(x: int, d: int)
    requires
        d > 1,
    ensures
        div_toward_zero(x, d) * div_toward_zero(x, d) <= x * x,
        x != 0 ==> div_toward_zero(x, d) * div_toward_zero(x, d) < x * x,
{
    let q = div_toward_zero(x, d);
    lemma_div_toward_zero_bounds(x, d);
    if x > 0 {
        vstd::arithmetic::div_mod::lemma_div_decreases(x, d);
        assert(q * q < x * x) by (nonlinear_arith)
            requires
                0 <= q < x,
        ;
    } else if x < 0 {
        vstd::arithmetic::div_mod::lemma_div_decreases(-x, d);
        assert(q * q < x * x) by (nonlinear_arith)
            requires
                x < q <= 0,
        ;
    }
}

/// A sum of squares is never negative.
pub proof fn lemma_squared_sum_nonneg(s: Seq<int>)
    ensures
        squared_sum_spec(s) >= 0,
    decreases s.len(),
{
    if s.len() > 0 {
        lemma_squared_sum_nonneg(s.drop_last());
        assert(s.last() * s.last() >= 0) by (nonlinear_arith);
    }
}

/// Decay keeps every entry inside any bound the entries already satisfy.
pub proof fn lemma_decay_within(s: Seq<int>, d: int, bound: int)
    requires
        d >= 1,
        bound >= 0,
        entries_within(s, bound),
    ensures
        entries_within(decay_spec(s, d), bound),
{
    assert forall|i: int|
        0 <= i < decay_spec(s, d).len() implies -bound <= #[trigger] decay_spec(s, d)[i]
        <= bound by {
        lemma_div_toward_zero_bounds(s[i], d);
    }
}

/// One scalar per joint, in the robot's fixed joint order.
pub struct Joints {
    pub entries: Vec<i64>,
}

impl View for Joints {
    type V = Seq<int>;

    open spec fn view(&self) -> Seq<int> {
        self.entries@.map_values(|x: i64| x as int)
    }
}

impl Joints {
    /// A joint vector is well formed when it has exactly one entry per joint.
    pub open spec fn wf(&self) -> bool {
        self.entries@.len() == JOINT_COUNT
    }

    /// The all-zero joint vector.
    pub fn zeros() -> (r: Joints)
        ensures
            r.wf(),
            r@ =~= Seq::new(JOINT_COUNT as nat, |i: int| 0int),
    {
        let mut entries: Vec<i64> = Vec::new();
        let mut i: usize = 0;
        while i < JOINT_COUNT
            invariant
                i <= JOINT_COUNT,
                entries@.len() == i,
                forall|j: int| 0 <= j < i ==> entries@[j] == 0i64,
            decreases JOINT_COUNT - i,
        {
            entries.push(0);
            i = i + 1;
        }
        let r = Joints { entries };
        assert(r@ =~= Seq::new(JOINT_COUNT as nat, |i: int| 0int));
        r
    }

    /// Wraps one scalar per joint; rejects a vector of the wrong cardinality.
    pub fn from_entries(entries: Vec<i64>) -> (r: Option<Joints>)
        ensures
            match r {
                Some(j) => entries@.len() == JOINT_COUNT && j.wf() && j@ == entries@.map_values(
                    |x: i64| x as int,
                ),
                None => entries@.len() != JOINT_COUNT,
            },
    {
        if entries.len() == JOINT_COUNT {
            Some(Joints { entries })
        } else {
            None
        }
    }

    /// The entry for the joint at `index`.
    pub fn get(&self, index: usize) -> (r: i64)
        requires
            self.wf(),
            index < JOINT_COUNT,
        ensures
            r == self@[index as int],
    {
        self.entries[index]
    }

    /// Replaces the entry for the joint at `index`.
    pub fn set(&mut self, index: usize, value: i64)
        requires
            old(self).wf(),
            index < JOINT_COUNT,
        ensures
            final(self).wf(),
            final(self)@ =~= old(self)@.update(index as int, value as int),
    {
        self.entries.set(index, value);
    }

    /// A copy of the entries, in joint order.
    pub fn to_vec(&self) -> (r: Vec<i64>)
        ensures
            r@.map_values(|x: i64| x as int) == self@,
            r@.len() == self@.len(),
    {
        let mut out: Vec<i64> = Vec::new();
        let mut i: usize = 0;
        while i < self.entries.len()
            invariant
                i <= self.entries@.len(),
                out@.len() == i,
                forall|j: int| 0 <= j < i ==> out@[j] == self.entries@[j],
            decreases self.entries@.len() - i,
        {
            out.push(self.entries[i]);
            i = i + 1;
        }
        assert(out@.map_values(|x: i64| x as int) =~= self@);
        out
    }

    /// An equal joint vector.
    pub fn duplicate(&self) -> (r: Joints)
        ensures
            r@ == self@,
            r.wf() == self.wf(),
    {
        let entries = self.to_vec();
        let r = Joints { entries };
        assert(r@ =~= self@);
        r
    }

    /// Elementwise sum of two joint vectors.
    pub fn add(&self, other: &Joints) -> (r: Joints)
        requires
            self.wf(),
            other.wf(),
            forall|i: int|
                0 <= i < JOINT_COUNT ==> i64::MIN <= #[trigger] self@[i] + other@[i] <= i64::MAX,
        ensures
            r.wf(),
            r@ =~= add_spec(self@, other@),
    {
        let mut entries: Vec<i64> = Vec::new();
        let mut i: usize = 0;
        while i < JOINT_COUNT
            invariant
                i <= JOINT_COUNT,
                self.wf(),
                other.wf(),
                forall|j: int|
                    0 <= j < JOINT_COUNT ==> i64::MIN <= #[trigger] self@[j] + other@[j] <= i64::MAX,
                entries@.len() == i,
                forall|j: int| 0 <= j < i ==> entries@[j] == self@[j] + other@[j],
            decreases JOINT_COUNT - i,
        {
            proof {
                assert(i64::MIN <= self@[i as int] + other@[i as int] <= i64::MAX);
            }
            entries.push(self.entries[i] + other.entries[i]);
            i = i + 1;
        }
        let r = Joints { entries };
        assert(r@ =~= add_spec(self@, other@));
        r
    }

    /// Every entry divided by `divisor`, rounding toward zero.
    pub fn div(&self, divisor: i64) -> (r: Joints)
        requires
            self.wf(),
            divisor >= 1,
            forall|i: int| 0 <= i < JOINT_COUNT ==> self@[i] != i64::MIN,
        ensures
            r.wf(),
            r@ =~= decay_spec(self@, divisor as int),
    {
        let mut entries: Vec<i64> = Vec::new();
        let mut i: usize = 0;
        while i < JOINT_COUNT
            invariant
                i <= JOINT_COUNT,
                self.wf(),
                divisor >= 1,
                forall|j: int| 0 <= j < JOINT_COUNT ==> self@[j] != i64::MIN,
                entries@.len() == i,
                forall|j: int| 0 <= j < i ==> entries@[j] == div_toward_zero(self@[j], divisor as int),
            decreases JOINT_COUNT - i,
        {
            let x = self.entries[i];
            proof {
                assert(self@[i as int] == x as int);
            }
            let q: i64 = if x >= 0 {
                x / divisor
            } else {
                let m = -x;
                -(m / divisor)
            };
            assert(q == div_toward_zero(self@[i as int], divisor as int));
            entries.push(q);
            i = i + 1;
        }
        let r = Joints { entries };
        assert(r@ =~= decay_spec(self@, divisor as int));
        r
    }

    /// Sum of the squares of the entries; the squared magnitude used by the
    /// offset controller's hysteresis comparisons.
    pub fn squared_sum(&self) -> (r: i64)
        requires
            self.wf(),
            entries_within(self@, ENTRY_LIMIT as int),
        ensures
            r == squared_sum_spec(self@),
            r >= 0,
    {
        let mut sum: i64 = 0;
        let mut i: usize = 0;
        while i < JOINT_COUNT
            invariant
                i <= JOINT_COUNT,
                self.wf(),
                entries_within(self@, ENTRY_LIMIT as int),
                sum == squared_sum_spec(self@.take(i as int)),
                0 <= sum <= i * ENTRY_LIMIT * ENTRY_LIMIT,
            decreases JOINT_COUNT - i,
        {
            let x = self.entries[i];
            proof {
                assert(self@[i as int] * self@[i as int] <= ENTRY_LIMIT * ENTRY_LIMIT && self@[
                    i as int
                ] * self@[i as int] >= 0) by (nonlinear_arith)
                    requires
                        -(ENTRY_LIMIT as int) <= self@[i as int] <= ENTRY_LIMIT as int,
                ;
                assert((i + 1) * (ENTRY_LIMIT as int) * (ENTRY_LIMIT as int) == i * (
                ENTRY_LIMIT as int) * (ENTRY_LIMIT as int) + (ENTRY_LIMIT as int) * (
                ENTRY_LIMIT as int)) by (nonlinear_arith);
                assert(self@.take(i + 1).drop_last() =~= self@.take(i as int));
                assert(self@.take(i + 1).last() == self@[i as int]);
            }
            sum = sum + x * x;
            i = i + 1;
        }
        proof {
            assert(self@.take(JOINT_COUNT as int) =~= self@);
        }
        sum
    }

    /// Largest entry, clamped below by zero: the maximal motor current of a
    /// reading, where an all-negative reading counts as zero.
    pub fn max_entry_or_zero(&self) -> (r: i64)
        requires
            self.wf(),
        ensures
            r == max_entry_spec(self@),
            r >= 0,
    {
        let mut best: i64 = 0;
        let mut i: usize = 0;
        while i < JOINT_COUNT
            invariant
                i <= JOINT_COUNT,
                self.wf(),
                best == max_entry_spec(self@.take(i as int)),
                best >= 0,
            decreases JOINT_COUNT - i,
        {
            let x = self.entries[i];
            proof {
                assert(self@.take(i + 1).drop_last() =~= self@.take(i as int));
                assert(self@.take(i + 1).last() == self@[i as int]);
            }
            if x > best {
                best = x;
            }
            i = i + 1;
        }
        proof {
            assert(self@.take(JOINT_COUNT as int) =~= self@);
        }
        best
    }
}

} // verus!
