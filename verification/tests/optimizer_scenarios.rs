use motor_control::joints::{Joints, JOINT_COUNT};
use motor_control::optimizer::{
    AdditionalOutput, CreationContext, CycleContext, JointsCommand, MotorCommandOptimizer,
    MotorCommandOptimizerParameters, SensorData, LEFT_HAND_INDEX, RIGHT_HAND_INDEX,
};

fn joints_with(entries: &[(usize, i64)]) -> Joints {
    let mut values = vec![0i64; JOINT_COUNT];
    for &(index, value) in entries {
        values[index] = value;
    }
    Joints::from_entries(values).unwrap()
}

fn params(
    reset_threshold: i64,
    reset_speed: i64,
    reset_offset: i64,
    direction: &[(usize, i64)],
    speed: i64,
    current_threshold: i64,
) -> MotorCommandOptimizerParameters {
    MotorCommandOptimizerParameters {
        offset_reset_threshold: reset_threshold,
        offset_reset_speed: reset_speed,
        offset_reset_offset: reset_offset,
        optimization_direction: joints_with(direction),
        optimization_speed: speed,
        optimization_current_threshold: current_threshold,
    }
}

fn context(
    positions: Joints,
    stiffnesses: Joints,
    currents: Joints,
    parameters: MotorCommandOptimizerParameters,
) -> CycleContext {
    CycleContext {
        motor_commands: JointsCommand { positions, stiffnesses },
        sensor_data: SensorData { currents },
        parameters,
        squared_position_offset_sum: AdditionalOutput::new(false),
        position_offset: AdditionalOutput::new(false),
    }
}

#[test]
fn scenario_single_joint_correction() {
    // One joint draws 50 (tenths of an ampere) against a threshold of 30;
    // correction direction 1, speed 1: after one cycle the offset is 1 and
    // the outgoing position is the incoming one plus 1.
    let mut optimizer = MotorCommandOptimizer::new(CreationContext {});
    let mut ctx = context(
        joints_with(&[(0, 1000)]),
        joints_with(&[]),
        joints_with(&[(0, 50)]),
        params(1_000_000, 10, 2, &[(0, 1)], 1, 30),
    );
    let outputs = optimizer.cycle(&mut ctx);
    assert_eq!(optimizer.position_offset.to_vec()[0], 1);
    assert!(!optimizer.is_resetting);
    assert_eq!(outputs.optimized_motor_commands.positions.to_vec()[0], 1001);
    // Joints away from the maximal current keep a zero offset.
    for j in 1..JOINT_COUNT {
        assert_eq!(optimizer.position_offset.to_vec()[j], 0);
    }
}

#[test]
fn scenario_tied_currents_correct_both() {
    // Two joints tie at the maximal current: both receive their delta in
    // the same cycle, each in its own direction.
    let mut optimizer = MotorCommandOptimizer::new(CreationContext {});
    let mut ctx = context(
        joints_with(&[]),
        joints_with(&[]),
        joints_with(&[(0, 50), (1, 50)]),
        params(1_000_000, 10, 2, &[(0, 1), (1, -1)], 1, 30),
    );
    optimizer.cycle(&mut ctx);
    let offset = optimizer.position_offset.to_vec();
    assert_eq!(offset[0], 1);
    assert_eq!(offset[1], -1);
    for j in 2..JOINT_COUNT {
        assert_eq!(offset[j], 0);
    }
}

#[test]
fn scenario_decay_engages_above_threshold() {
    // Squared magnitude 150 exceeds the threshold 100: the cycle decays the
    // offset by the reset speed 10 and, with the result below the lower
    // bound 100 / 2 = 50, leaves decay mode again.
    let mut optimizer = MotorCommandOptimizer::new(CreationContext {});
    optimizer.position_offset = joints_with(&[(0, 11), (1, 5), (2, 2)]);
    let mut ctx = context(
        joints_with(&[]),
        joints_with(&[]),
        joints_with(&[(0, 99)]),
        params(100, 10, 2, &[(0, 1)], 1, 30),
    );
    optimizer.cycle(&mut ctx);
    let offset = optimizer.position_offset.to_vec();
    assert_eq!(offset[0], 1);
    assert_eq!(offset[1], 0);
    assert_eq!(offset[2], 0);
    // 1 < 50: the hysteresis flag has been dropped again.
    assert!(!optimizer.is_resetting);
}

#[test]
fn hysteresis_persists_until_lower_bound() {
    // With a lower bound of 100 / 10 = 10 and decay speed 2, the controller
    // stays decaying while the squared magnitude is at least 10, even
    // though an overcurrent joint keeps asking for correction.
    let mut optimizer = MotorCommandOptimizer::new(CreationContext {});
    optimizer.position_offset = joints_with(&[(0, 11), (1, 5), (2, 2)]);
    let p = params(100, 2, 10, &[(0, 1)], 1, 30);

    // Cycle 1: 121 + 25 + 4 = 150 > 100 engages decay.
    let mut ctx = context(joints_with(&[]), joints_with(&[]), joints_with(&[(0, 50)]), p);
    optimizer.cycle(&mut ctx);
    assert_eq!(optimizer.position_offset.to_vec()[..3], [5, 2, 1]);
    // 25 + 4 + 1 = 30 >= 10: still decaying; no correction was added.
    assert!(optimizer.is_resetting);

    // Cycle 2: decays again, still ignoring the overcurrent joint.
    let p = params(100, 2, 10, &[(0, 1)], 1, 30);
    let mut ctx = context(joints_with(&[]), joints_with(&[]), joints_with(&[(0, 50)]), p);
    optimizer.cycle(&mut ctx);
    assert_eq!(optimizer.position_offset.to_vec()[..3], [2, 1, 0]);
    // 4 + 1 = 5 < 10: decay disengages.
    assert!(!optimizer.is_resetting);
}

#[test]
fn scenario_no_correction_below_threshold() {
    // All currents stay below the threshold for 100 cycles: a nonzero
    // starting offset is left exactly unchanged the whole time.
    let mut optimizer = MotorCommandOptimizer::new(CreationContext {});
    optimizer.position_offset = joints_with(&[(0, 3)]);
    for _ in 0..100 {
        let mut ctx = context(
            joints_with(&[]),
            joints_with(&[]),
            joints_with(&[(0, 20), (5, 10)]),
            params(1_000_000, 10, 2, &[(0, 1)], 1, 30),
        );
        optimizer.cycle(&mut ctx);
        assert_eq!(optimizer.position_offset.to_vec()[0], 3);
        assert!(!optimizer.is_resetting);
    }
}

#[test]
fn hand_stiffnesses_are_always_zero() {
    // Whatever stiffness the incoming command asks of the hands, the
    // outgoing command holds exactly zero there and is untouched elsewhere.
    let mut optimizer = MotorCommandOptimizer::new(CreationContext {});
    let mut stiffness_entries = vec![77i64; JOINT_COUNT];
    stiffness_entries[LEFT_HAND_INDEX] = 55;
    stiffness_entries[RIGHT_HAND_INDEX] = -44;
    let mut ctx = context(
        joints_with(&[]),
        Joints::from_entries(stiffness_entries).unwrap(),
        joints_with(&[]),
        params(1_000_000, 10, 2, &[(0, 1)], 1, 30),
    );
    let outputs = optimizer.cycle(&mut ctx);
    let stiffnesses = outputs.optimized_motor_commands.stiffnesses.to_vec();
    for j in 0..JOINT_COUNT {
        if j == LEFT_HAND_INDEX || j == RIGHT_HAND_INDEX {
            assert_eq!(stiffnesses[j], 0);
        } else {
            assert_eq!(stiffnesses[j], 77);
        }
    }
}

#[test]
fn all_negative_currents_clamp_to_zero() {
    // The maximal current is folded with a floor of zero: with every
    // reading negative no joint matches the maximum, so even a threshold of
    // zero adds no correction anywhere.
    let mut optimizer = MotorCommandOptimizer::new(CreationContext {});
    let mut current_entries = vec![-5i64; JOINT_COUNT];
    current_entries[3] = -1;
    let mut ctx = context(
        joints_with(&[]),
        joints_with(&[]),
        Joints::from_entries(current_entries).unwrap(),
        params(1_000_000, 10, 2, &[(3, 1)], 1, 0),
    );
    optimizer.cycle(&mut ctx);
    assert_eq!(optimizer.position_offset.to_vec(), vec![0i64; JOINT_COUNT]);
}

#[test]
fn subscribed_diagnostics_are_filled() {
    // The squared-magnitude channel reports the magnitude the cycle started
    // from; the offset channel reports the updated offset.
    let mut optimizer = MotorCommandOptimizer::new(CreationContext {});
    optimizer.position_offset = joints_with(&[(0, 3)]);
    let mut ctx = CycleContext {
        motor_commands: JointsCommand {
            positions: joints_with(&[]),
            stiffnesses: joints_with(&[]),
        },
        sensor_data: SensorData { currents: joints_with(&[(0, 50)]) },
        parameters: params(1_000_000, 10, 2, &[(0, 1)], 1, 30),
        squared_position_offset_sum: AdditionalOutput::new(true),
        position_offset: AdditionalOutput::new(true),
    };
    optimizer.cycle(&mut ctx);
    assert_eq!(*ctx.squared_position_offset_sum.value(), Some(9));
    let reported = ctx.position_offset.value().as_ref().unwrap().to_vec();
    assert_eq!(reported[0], 4);
}

#[test]
fn unsubscribed_diagnostics_stay_empty() {
    let mut optimizer = MotorCommandOptimizer::new(CreationContext {});
    let mut ctx = context(
        joints_with(&[]),
        joints_with(&[]),
        joints_with(&[(0, 50)]),
        params(1_000_000, 10, 2, &[(0, 1)], 1, 30),
    );
    optimizer.cycle(&mut ctx);
    assert_eq!(*ctx.squared_position_offset_sum.value(), None);
    assert!(ctx.position_offset.value().is_none());
}

#[test]
fn new_controller_is_all_zero() {
    let optimizer = MotorCommandOptimizer::new(CreationContext {});
    assert_eq!(optimizer.position_offset.to_vec(), vec![0i64; JOINT_COUNT]);
    assert!(!optimizer.is_resetting);
}
