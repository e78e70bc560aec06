//! Laws of the offset controller, proved against the transition function
//! [`step`].
//!
//! Each proof function here states one behavioural guarantee of
//! [`crate::optimizer::MotorCommandOptimizer::cycle`] over the mathematical
//! model its contract exposes, for every input the guarantee speaks of.

use vstd::prelude::*;

use crate::joints::{
    decay_spec, div_toward_zero, lemma_div_square_shrinks, max_entry_spec, squared_sum_spec,
};
use crate::optimizer::{
    decay_engages, delta_spec, lower_reset_bound, step, zero_hands_spec, ParamsModel,
    LEFT_HAND_INDEX, RIGHT_HAND_INDEX,
};

verus! {

/// A vector with every entry zero.
pub open spec fn is_zero_vector(s: Seq<int>) -> bool {
    forall|i: int| 0 <= i < s.len() ==> s[i] == 0
}

/// The offset after `n` consecutive decay cycles.
pub open spec fn decay_iter(s: Seq<int>, d: int, n: nat) -> Seq<int>
    decreases n,
{
    if n == 0 {
        s
    } else {
        decay_spec(decay_iter(s, d, (n - 1) as nat), d)
    }
}

/// The controller state after running `step` over a sequence of current
/// readings, one cycle per reading.
pub open spec fn run(offset: Seq<int>, resetting: bool, readings: Seq<Seq<int>>, p: ParamsModel) -> (
    Seq<int>,
    bool,
)
    decreases readings.len(),
{
    if readings.len() == 0 {
        (offset, resetting)
    } else {
        let next = step(offset, resetting, readings.first(), p);
        run(next.0, next.1, readings.drop_first(), p)
    }
}

/// No correction below threshold: in a cycle that is not decaying and whose
/// maximal current stays below `optimization_current_threshold`, the offset
/// leaves the cycle exactly as it entered it.
pub proof fn lemma_no_correction_below_threshold(
    offset: Seq<int>,
    currents: Seq<int>,
    p: ParamsModel,
)
    requires
        !decay_engages(offset, false, p.offset_reset_threshold),
        max_entry_spec(currents) < p.optimization_current_threshold,
    ensures
        step(offset, false, currents, p).0 == offset,
        step(offset, false, currents, p).1 == false,
{
}

/// A decaying cycle divides every entry by `offset_reset_speed`, never
/// accumulates correction, and pays no attention to the current reading:
/// any two readings leave the controller in the same state.
pub proof fn lemma_decaying_cycle(
    offset: Seq<int>,
    resetting: bool,
    currents: Seq<int>,
    other_currents: Seq<int>,
    p: ParamsModel,
)
    requires
        decay_engages(offset, resetting, p.offset_reset_threshold),
    ensures
        step(offset, resetting, currents, p).0 == decay_spec(offset, p.offset_reset_speed),
        step(offset, resetting, currents, p).1 == !(squared_sum_spec(
            decay_spec(offset, p.offset_reset_speed),
        ) < lower_reset_bound(p)),
        step(offset, resetting, currents, p) == step(offset, resetting, other_currents, p),
{
}

/// Iterated decay composes: decaying once and then `n` more times is
/// decaying `n + 1` times.
proof fn lemma_decay_iter_shift(s: Seq<int>, d: int, n: nat)
    ensures
        decay_iter(decay_spec(s, d), d, n) == decay_iter(s, d, n + 1),
    decreases n,
{
    if n == 0 {
        assert(decay_iter(decay_spec(s, d), d, 0) == decay_spec(s, d));
        assert(decay_iter(s, d, 1) == decay_spec(decay_iter(s, d, 0), d));
    } else {
        lemma_decay_iter_shift(s, d, (n - 1) as nat);
        assert(decay_iter(decay_spec(s, d), d, n) == decay_spec(
            decay_iter(decay_spec(s, d), d, (n - 1) as nat),
            d,
        ));
        assert(decay_iter(s, d, n + 1) == decay_spec(decay_iter(s, d, n), d));
    }
}

/// Hysteresis band: once a cycle decays — because the squared offset
/// magnitude exceeded `offset_reset_threshold`, or the controller was
/// already decaying — the controller keeps decaying, whatever the currents
/// read, for as long as the squared magnitude has not dropped strictly
/// below `offset_reset_threshold / offset_reset_offset`; after the last of
/// those cycles it is still decaying exactly when the squared magnitude
/// remains at or above that lower bound.
pub proof fn lemma_hysteresis_run(
    offset: Seq<int>,
    resetting: bool,
    readings: Seq<Seq<int>>,
    p: ParamsModel,
)
    requires
        readings.len() >= 1,
        decay_engages(offset, resetting, p.offset_reset_threshold),
        forall|j: nat|
            1 <= j < readings.len() ==> squared_sum_spec(
                #[trigger] decay_iter(offset, p.offset_reset_speed, j),
            ) >= lower_reset_bound(p),
    ensures
        run(offset, resetting, readings, p).0 == decay_iter(
            offset,
            p.offset_reset_speed,
            readings.len(),
        ),
        run(offset, resetting, readings, p).1 == !(squared_sum_spec(
            decay_iter(offset, p.offset_reset_speed, readings.len()),
        ) < lower_reset_bound(p)),
    decreases readings.len(),
{
    let d = p.offset_reset_speed;
    let first = step(offset, resetting, readings.first(), p);
    assert(decay_iter(offset, d, 0nat) == offset);
    assert(decay_iter(offset, d, 1nat) == decay_spec(decay_iter(offset, d, 0nat), d));
    assert(first.0 == decay_spec(offset, d));
    assert(first.0 == decay_iter(offset, d, 1nat));
    if readings.len() == 1 {
        assert(run(first.0, first.1, readings.drop_first(), p) == first);
    } else {
        assert(squared_sum_spec(decay_iter(offset, d, 1nat)) >= lower_reset_bound(p));
        assert(first.1);
        assert forall|j: nat|
            1 <= j < readings.drop_first().len() implies squared_sum_spec(
            #[trigger] decay_iter(first.0, d, j),
        ) >= lower_reset_bound(p) by {
            lemma_decay_iter_shift(offset, d, j);
            assert(decay_iter(first.0, d, j) == decay_iter(offset, d, (j + 1) as nat));
            assert(squared_sum_spec(decay_iter(offset, d, (j + 1) as nat)) >= lower_reset_bound(p));
        }
        lemma_hysteresis_run(first.0, first.1, readings.drop_first(), p);
        lemma_decay_iter_shift(offset, d, (readings.len() - 1) as nat);
    }
}

/// Decay monotonicity: with `offset_reset_speed` above one, a decay cycle
/// never enlarges the squared offset magnitude, and strictly reduces it
/// unless the offset is already the zero vector.
pub proof fn lemma_decay_strictly_shrinks(s: Seq<int>, d: int)
    requires
        d > 1,
    ensures
        squared_sum_spec(decay_spec(s, d)) <= squared_sum_spec(s),
        !is_zero_vector(s) ==> squared_sum_spec(decay_spec(s, d)) < squared_sum_spec(s),
    decreases s.len(),
{
    if s.len() == 0 {
        assert(decay_spec(s, d) =~= s);
    } else {
        let rest = s.drop_last();
        lemma_decay_strictly_shrinks(rest, d);
        lemma_div_square_shrinks(s.last(), d);
        assert(decay_spec(s, d).drop_last() =~= decay_spec(rest, d));
        assert(decay_spec(s, d).last() == div_toward_zero(s.last(), d));
        if !is_zero_vector(s) {
            if s.last() != 0 {
                assert(squared_sum_spec(decay_spec(s, d)) < squared_sum_spec(s));
            } else {
                let w = choose|i: int| 0 <= i < s.len() && s[i] != 0;
                assert(0 <= w < s.len() - 1);
                assert(rest[w] != 0);
                assert(!is_zero_vector(rest));
            }
        }
    }
}

/// Hand-stiffness override: whatever stiffnesses a command carries, the
/// outgoing stiffnesses hold exactly zero at both hand joints and the
/// incoming value everywhere else.
pub proof fn lemma_hand_override(stiffnesses: Seq<int>)
    requires
        stiffnesses.len() == crate::joints::JOINT_COUNT,
    ensures
        zero_hands_spec(stiffnesses)[LEFT_HAND_INDEX as int] == 0,
        zero_hands_spec(stiffnesses)[RIGHT_HAND_INDEX as int] == 0,
        forall|j: int|
            0 <= j < stiffnesses.len() && j != LEFT_HAND_INDEX as int && j
                != RIGHT_HAND_INDEX as int ==> #[trigger] zero_hands_spec(stiffnesses)[j]
                == stiffnesses[j],
{
}

/// Targeted correction: in a correcting cycle whose maximal current reaches
/// `optimization_current_threshold`, exactly the joints whose current equals
/// the maximal current move, each by `optimization_speed` in its configured
/// direction; every other joint's offset entry is left exactly unchanged.
pub proof fn lemma_targeted_correction(offset: Seq<int>, currents: Seq<int>, p: ParamsModel)
    requires
        !decay_engages(offset, false, p.offset_reset_threshold),
        max_entry_spec(currents) >= p.optimization_current_threshold,
        offset.len() == currents.len(),
    ensures
        forall|j: int|
            0 <= j < currents.len() && #[trigger] currents[j] != max_entry_spec(currents)
                ==> step(offset, false, currents, p).0[j] == offset[j],
        forall|j: int|
            0 <= j < currents.len() && #[trigger] currents[j] == max_entry_spec(currents)
                ==> step(offset, false, currents, p).0[j] == offset[j] + p.optimization_speed
                * p.optimization_direction[j],
{
    let m = max_entry_spec(currents);
    let delta = delta_spec(currents, p.optimization_direction, p.optimization_speed, m);
    assert forall|j: int| 0 <= j < currents.len() implies #[trigger] step(
        offset,
        false,
        currents,
        p,
    ).0[j] == offset[j] + delta[j] by {
    }
}

} // verus!
