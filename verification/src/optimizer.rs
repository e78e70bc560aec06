//! The closed-loop motor-command offset controller.
//!
//! Each control tick, [`MotorCommandOptimizer::cycle`] reads the live
//! per-joint currents and the incoming command, updates the accumulated
//! corrective position offset, and emits the corrected command.  The whole
//! transition of the controller state is pinned down by the specification
//! function [`step`], which the `cycle` contract equates with the state
//! change; the laws the controller obeys are proved against `step` in
//! [`crate::laws`].
//!
//! The controller has two states, governed by a hysteresis band over the
//! squared magnitude of the accumulated offset:
//!
//! * *Correcting* (`is_resetting == false`): while the maximal current
//!   reaches `optimization_current_threshold`, the joints drawing exactly
//!   that maximal current receive an increment of
//!   `optimization_speed * optimization_direction`.
//! * *Decaying* (`is_resetting == true`): entered when the squared magnitude
//!   exceeds `offset_reset_threshold`; every entry is divided by
//!   `offset_reset_speed` each cycle until the squared magnitude falls below
//!   `offset_reset_threshold / offset_reset_offset`.
//!
//! Decay and correction are mutually exclusive within one cycle: the offset
//! is either decayed, or incremented, or left unchanged.

use vstd::prelude::*;

use crate::joints::{
    add_spec, decay_spec, div_toward_zero, entries_within, max_entry_spec, squared_sum_spec,
    Joints, ENTRY_LIMIT, JOINT_COUNT,
};

verus! {

/// Index of the left hand joint in the fixed joint order.
pub const LEFT_HAND_INDEX: usize = 7;

/// Index of the right hand joint in the fixed joint order.
pub const RIGHT_HAND_INDEX: usize = 13;

/// Largest commanded position magnitude `cycle` accepts: leaves room to add
/// the corrective offset without overflow.
pub const POSITION_LIMIT: i64 = 0x1000_0000_0000_0000;

/// A per-joint position/stiffness request for one cycle.
pub struct JointsCommand {
    pub positions: Joints,
    pub stiffnesses: Joints,
}

/// One cycle's sensor reading: the live per-joint motor currents.
pub struct SensorData {
    pub currents: Joints,
}

/// Configuration of the offset controller, constant over its lifetime.
pub struct MotorCommandOptimizerParameters {
    /// Squared offset magnitude above which decay mode engages.
    pub offset_reset_threshold: i64,
    /// Divisor applied to every offset entry each decaying cycle.
    pub offset_reset_speed: i64,
    /// Divisor applied to the threshold to obtain the lower hysteresis bound.
    pub offset_reset_offset: i64,
    /// Per-joint sign (`-1`, `0` or `1`) of corrective motion.
    pub optimization_direction: Joints,
    /// Magnitude of the corrective increment applied per cycle.
    pub optimization_speed: i64,
    /// Current magnitude above which correction may accumulate.
    pub optimization_current_threshold: i64,
}

/// The configuration as mathematical values.
pub struct ParamsModel {
    pub offset_reset_threshold: int,
    pub offset_reset_speed: int,
    pub offset_reset_offset: int,
    pub optimization_direction: Seq<int>,
    pub optimization_speed: int,
    pub optimization_current_threshold: int,
}

impl View for MotorCommandOptimizerParameters {
    type V = ParamsModel;

    open spec fn view(&self) -> ParamsModel {
        ParamsModel {
            offset_reset_threshold: self.offset_reset_threshold as int,
            offset_reset_speed: self.offset_reset_speed as int,
            offset_reset_offset: self.offset_reset_offset as int,
            optimization_direction: self.optimization_direction@,
            optimization_speed: self.optimization_speed as int,
            optimization_current_threshold: self.optimization_current_threshold as int,
        }
    }
}

impl MotorCommandOptimizerParameters {
    /// Machine limits on a usable configuration: divisors at least one (the
    /// documented precondition on `offset_reset_speed` and
    /// `offset_reset_offset`), the direction a per-joint sign, and scalars
    /// small enough that no cycle arithmetic overflows.
    pub open spec fn wf(&self) -> bool {
        &&& self.optimization_direction.wf()
        &&& entries_within(self.optimization_direction@, 1)
        &&& self.offset_reset_speed >= 1
        &&& self.offset_reset_offset >= 1
        &&& self.offset_reset_threshold > i64::MIN
        &&& -ENTRY_LIMIT <= self.optimization_speed <= ENTRY_LIMIT
    }
}

/// Demand-driven diagnostic channel: a value is recorded only while an
/// observer is subscribed, so unobserved diagnostics cost nothing.
pub struct AdditionalOutput<T> {
    is_subscribed: bool,
    value: Option<T>,
}

impl<T> AdditionalOutput<T> {
    /// Whether an observer is subscribed this cycle.
    pub closed spec fn subscribed(&self) -> bool {
        self.is_subscribed
    }

    /// The recorded value, if any.
    pub closed spec fn value_spec(&self) -> Option<T> {
        self.value
    }

    /// A channel with no recorded value yet.
    pub fn new(is_subscribed: bool) -> (r: Self)
        ensures
            r.subscribed() == is_subscribed,
            r.value_spec() is None,
    {
        AdditionalOutput { is_subscribed, value: None }
    }

    /// Whether the computation feeding this channel should run.
    pub fn is_subscribed(&self) -> (r: bool)
        ensures
            r == self.subscribed(),
    {
        self.is_subscribed
    }

    /// Records a value for the observer.
    pub fn fill(&mut self, value: T)
        ensures
            final(self).subscribed() == old(self).subscribed(),
            final(self).value_spec() == Some(value),
    {
        self.value = Some(value);
    }

    /// The recorded value.
    pub fn value(&self) -> (r: &Option<T>)
        ensures
            *r == self.value_spec(),
    {
        &self.value
    }
}

/// Everything one invocation of the controller reads and writes besides its
/// own state.
pub struct CycleContext {
    pub motor_commands: JointsCommand,
    pub sensor_data: SensorData,
    pub parameters: MotorCommandOptimizerParameters,
    pub squared_position_offset_sum: AdditionalOutput<i64>,
    pub position_offset: AdditionalOutput<Joints>,
}

impl CycleContext {
    pub open spec fn wf(&self) -> bool {
        &&& self.motor_commands.positions.wf()
        &&& self.motor_commands.stiffnesses.wf()
        &&& entries_within(self.motor_commands.positions@, POSITION_LIMIT as int)
        &&& self.sensor_data.currents.wf()
        &&& self.parameters.wf()
    }
}

/// Construction-time context; the controller needs nothing from outside.
pub struct CreationContext {}

/// The corrected command leaving the controller this cycle.
pub struct MainOutputs {
    pub optimized_motor_commands: JointsCommand,
}

/// True when this cycle is spent decaying: either the controller was already
/// decaying, or the squared offset magnitude has just exceeded the upper
/// threshold.
pub open spec fn decay_engages(offset: Seq<int>, resetting: bool, reset_threshold: int) -> bool {
    resetting || squared_sum_spec(offset) > reset_threshold
}

/// Lower bound of the hysteresis band.
pub open spec fn lower_reset_bound(p: ParamsModel) -> int {
    div_toward_zero(p.offset_reset_threshold, p.offset_reset_offset)
}

/// Candidate corrective increment: the joints whose current equals the
/// maximal current move by `speed` in their configured direction; every
/// other joint receives exactly zero.
pub open spec fn delta_spec(currents: Seq<int>, direction: Seq<int>, speed: int, maximal: int) -> Seq<
    int,
> {
    Seq::new(currents.len(), |j: int| if currents[j] == maximal { speed * direction[j] } else { 0 })
}

/// The full state transition of one cycle: from the accumulated offset, the
/// hysteresis flag and the current reading to the next offset and flag.
pub open spec fn step(offset: Seq<int>, resetting: bool, currents: Seq<int>, p: ParamsModel) -> (
    Seq<int>,
    bool,
) {
    if decay_engages(offset, resetting, p.offset_reset_threshold) {
        let decayed = decay_spec(offset, p.offset_reset_speed);
        (decayed, !(squared_sum_spec(decayed) < lower_reset_bound(p)))
    } else if max_entry_spec(currents) >= p.optimization_current_threshold {
        (
            add_spec(
                offset,
                delta_spec(currents, p.optimization_direction, p.optimization_speed, max_entry_spec(currents)),
            ),
            false,
        )
    } else {
        (offset, false)
    }
}

/// The incoming stiffnesses with the two hand joints forced to zero, a
/// hardware safety override applied to every outgoing command.
pub open spec fn zero_hands_spec(stiffnesses: Seq<int>) -> Seq<int> {
    stiffnesses.update(LEFT_HAND_INDEX as int, 0).update(RIGHT_HAND_INDEX as int, 0)
}

/// Computes the candidate corrective increment of one correcting cycle.
pub fn correction_delta(currents: &Joints, direction: &Joints, optimization_speed: i64, maximal_current: i64) -> (r: Joints)
    requires
        currents.wf(),
        direction.wf(),
        entries_within(direction@, 1),
        -ENTRY_LIMIT <= optimization_speed <= ENTRY_LIMIT,
    ensures
        r.wf(),
        r@ =~= delta_spec(currents@, direction@, optimization_speed as int, maximal_current as int),
        entries_within(r@, ENTRY_LIMIT as int),
    {
        let mut entries: Vec<i64> = Vec::new();
        let mut i: usize = 0;
        while i < JOINT_COUNT
            invariant
                i <= JOINT_COUNT,
                currents.wf(),
                direction.wf(),
                entries_within(direction@, 1),
                -ENTRY_LIMIT <= optimization_speed <= ENTRY_LIMIT,
                entries@.len() == i,
                forall|j: int|
                    0 <= j < i ==> #[trigger] entries@[j] == (if currents@[j]
                        == maximal_current as int {
                        optimization_speed as int * direction@[j]
                    } else {
                        0
                    }),
                forall|j: int|
                    0 <= j < i ==> -(ENTRY_LIMIT as int) <= #[trigger] entries@[j] as int
                        <= ENTRY_LIMIT as int,
            decreases JOINT_COUNT - i,
        {
            let c = currents.get(i);
            let d = direction.get(i);
            proof {
                assert(-1 <= direction@[i as int] <= 1);
            }
            let v: i64 = if c == maximal_current {
                if d >= 1 {
                    optimization_speed
                } else if d <= -1 {
                    -optimization_speed
                } else {
                    0
                }
            } else {
                0
            };
            proof {
                assert(v as int == (if currents@[i as int] == maximal_current as int {
                    optimization_speed as int * direction@[i as int]
                } else {
                    0
                }));
            }
            entries.push(v);
            i = i + 1;
        }
        let r = Joints { entries };
        assert(r@ =~= delta_spec(
            currents@,
            direction@,
            optimization_speed as int,
            maximal_current as int,
        ));
        r
    }

/// The offset controller: the only component of the shaping stage with
/// state that persists across cycles.
pub struct MotorCommandOptimizer {
    /// Accumulated per-joint corrective offset, all zero at construction.
    pub position_offset: Joints,
    /// Hysteresis flag: true while the controller is decaying.
    pub is_resetting: bool,
}

impl MotorCommandOptimizer {
    pub open spec fn wf(&self) -> bool {
        self.position_offset.wf()
    }

    /// Construction is total: a fresh controller holds an all-zero offset
    /// and is not resetting.
    pub fn new(_context: CreationContext) -> (r: MotorCommandOptimizer)
        ensures
            r.wf(),
            r.position_offset@ =~= Seq::new(JOINT_COUNT as nat, |i: int| 0int),
            !r.is_resetting,
            entries_within(r.position_offset@, ENTRY_LIMIT as int),
    {
        MotorCommandOptimizer { position_offset: Joints::zeros(), is_resetting: false }
    }

    /// One control tick.
    ///
    /// Updates the controller state exactly as [`step`] describes, then
    /// composes the outgoing command: incoming positions plus the updated
    /// offset, and incoming stiffnesses with both hand joints forced to
    /// zero.  The squared-magnitude diagnostic channel receives the squared
    /// magnitude the cycle started from; the offset channel receives the
    /// updated offset.  Each is computed only while subscribed.
    pub fn cycle(&mut self, context: &mut CycleContext) -> (outputs: MainOutputs)
        requires
            old(self).wf(),
            old(context).wf(),
            entries_within(old(self).position_offset@, ENTRY_LIMIT as int),
        ensures
            final(self).wf(),
            final(self).position_offset@ == step(
                old(self).position_offset@,
                old(self).is_resetting,
                old(context).sensor_data.currents@,
                old(context).parameters@,
            ).0,
            final(self).is_resetting == step(
                old(self).position_offset@,
                old(self).is_resetting,
                old(context).sensor_data.currents@,
                old(context).parameters@,
            ).1,
            entries_within(final(self).position_offset@, 2 * ENTRY_LIMIT as int),
            outputs.optimized_motor_commands.positions.wf(),
            outputs.optimized_motor_commands.stiffnesses.wf(),
            outputs.optimized_motor_commands.positions@ == add_spec(
                old(context).motor_commands.positions@,
                final(self).position_offset@,
            ),
            outputs.optimized_motor_commands.stiffnesses@ == zero_hands_spec(
                old(context).motor_commands.stiffnesses@,
            ),
            outputs.optimized_motor_commands.stiffnesses@[LEFT_HAND_INDEX as int] == 0,
            outputs.optimized_motor_commands.stiffnesses@[RIGHT_HAND_INDEX as int] == 0,
            final(context).motor_commands == old(context).motor_commands,
            final(context).sensor_data == old(context).sensor_data,
            final(context).parameters == old(context).parameters,
            final(context).squared_position_offset_sum.subscribed()
                == old(context).squared_position_offset_sum.subscribed(),
            old(context).squared_position_offset_sum.subscribed()
                ==> final(context).squared_position_offset_sum.value_spec() == Some(
                squared_sum_spec(old(self).position_offset@) as i64,
            ),
            !old(context).squared_position_offset_sum.subscribed()
                ==> final(context).squared_position_offset_sum.value_spec()
                == old(context).squared_position_offset_sum.value_spec(),
            final(context).position_offset.subscribed() == old(context).position_offset.subscribed(),
            old(context).position_offset.subscribed()
                ==> (match final(context).position_offset.value_spec() {
                Some(j) => j.wf() && j@ == final(self).position_offset@,
                None => false,
            }),
            !old(context).position_offset.subscribed() ==> final(context).position_offset.value_spec()
                == old(context).position_offset.value_spec(),
    {
        let squared_position_offset_sum = self.position_offset.squared_sum();

        let decay_cycle = self.is_resetting || squared_position_offset_sum
            > context.parameters.offset_reset_threshold;

        if decay_cycle {
            let decayed = self.position_offset.div(context.parameters.offset_reset_speed);
            proof {
                crate::joints::lemma_decay_within(
                    self.position_offset@,
                    context.parameters.offset_reset_speed as int,
                    ENTRY_LIMIT as int,
                );
            }
            self.position_offset = decayed;
            let new_squared_sum = self.position_offset.squared_sum();
            let threshold = context.parameters.offset_reset_threshold;
            let lower_bound: i64 = if threshold >= 0 {
                threshold / context.parameters.offset_reset_offset
            } else {
                -((-threshold) / context.parameters.offset_reset_offset)
            };
            self.is_resetting = !(new_squared_sum < lower_bound);
        } else {
            let maximal_current = context.sensor_data.currents.max_entry_or_zero();
            if maximal_current >= context.parameters.optimization_current_threshold {
                let delta = correction_delta(
                    &context.sensor_data.currents,
                    &context.parameters.optimization_direction,
                    context.parameters.optimization_speed,
                    maximal_current,
                );
                proof {
                    assert forall|i: int| 0 <= i < JOINT_COUNT implies i64::MIN <= #[trigger] self
                        .position_offset@[i] + delta@[i] <= i64::MAX by {
                        assert(-(ENTRY_LIMIT as int) <= self.position_offset@[i] <= ENTRY_LIMIT as int);
                        assert(-(ENTRY_LIMIT as int) <= delta@[i] <= ENTRY_LIMIT as int);
                    }
                }
                self.position_offset = self.position_offset.add(&delta);
            }
            self.is_resetting = false;
        }

        let mut optimized_stiffnesses = context.motor_commands.stiffnesses.duplicate();
        optimized_stiffnesses.set(LEFT_HAND_INDEX, 0);
        optimized_stiffnesses.set(RIGHT_HAND_INDEX, 0);
        proof {
            assert(optimized_stiffnesses@ =~= zero_hands_spec(context.motor_commands.stiffnesses@));
        }

        proof {
            assert forall|i: int| 0 <= i < JOINT_COUNT implies i64::MIN <= #[trigger] context
                .motor_commands.positions@[i] + self.position_offset@[i] <= i64::MAX by {
                assert(-(POSITION_LIMIT as int) <= context.motor_commands.positions@[i]
                    <= POSITION_LIMIT as int);
                assert(-(2 * ENTRY_LIMIT as int) <= self.position_offset@[i] <= 2 * ENTRY_LIMIT as int);
            }
        }
        let optimized_positions = context.motor_commands.positions.add(&self.position_offset);

        if context.squared_position_offset_sum.is_subscribed() {
            context.squared_position_offset_sum.fill(squared_position_offset_sum);
        }
        if context.position_offset.is_subscribed() {
            context.position_offset.fill(self.position_offset.duplicate());
        }

        MainOutputs {
            optimized_motor_commands: JointsCommand {
                positions: optimized_positions,
                stiffnesses: optimized_stiffnesses,
            },
        }
    }
}

} // verus!
