//! The actuator worker queue.

use command_executor::vend_coil::{CoilAction, StepperMotor, VendCoil, STEPS_PER_ROTATION};

#[test]
fn queued_rotations_drain_in_order_then_deenergize_once() {
    let mut coil = VendCoil::new(StepperMotor::Stepper1, 500);
    coil.rotate();
    coil.rotate();
    coil.rotate();
    assert_eq!(coil.queued_rotations(), 3);
    let actions = coil.stop();
    assert_eq!(
        actions,
        vec![
            CoilAction::Rotate,
            CoilAction::Rotate,
            CoilAction::Rotate,
            CoilAction::DeEnergize,
        ]
    );
    assert_eq!(coil.queued_rotations(), 0);
    assert_eq!(
        actions.iter().filter(|a| **a == CoilAction::DeEnergize).count(),
        1
    );
}

#[test]
fn stop_with_nothing_queued_only_deenergizes() {
    let mut coil = VendCoil::new(StepperMotor::Stepper2, 0);
    let actions = coil.stop();
    assert_eq!(actions, vec![CoilAction::DeEnergize]);
}

#[test]
fn second_stop_performs_nothing() {
    let mut coil = VendCoil::new(StepperMotor::Stepper1, 0);
    coil.rotate();
    let first = coil.stop();
    assert_eq!(first.len(), 2);
    let second = coil.stop();
    assert_eq!(second, Vec::<CoilAction>::new());
}

#[test]
fn one_rotation_is_four_hundred_pulses() {
    assert_eq!(STEPS_PER_ROTATION, 400);
}
