//! The direct hardware executor: a motor hat driving two steppers.
//!
//! Unlike the serial protocol client, this executor faces no lossy
//! transport: each advertised command rotates one stepper synchronously —
//! [`crate::vend_coil::STEPS_PER_ROTATION`] pulses in one direction with one
//! stepping style — and any failure is final for the call, with no retry.
//! The dispatch decision lives here; the embedding program owns the motor
//! driver and performs the pulses for the stepper resolved.

use crate::command_executor::{DispatchError, ExecutorProfile};
use crate::vend_coil::StepperMotor;
use vstd::prelude::*;
use vstd::string::*;

verus! {

/// The fixed namespace of the motor-hat executor.
pub open spec fn spec_motor_hat_namespace() -> Seq<char> {
    seq!['a', 'd', 'a', 'f', 'r', 'u', 'i', 't', '_', 'm', 'o', 't', 'o', 'r', 'k', 'i', 't']
}

/// The motor hat's registry profile: one null-returning command per
/// stepper, and no boolean-returning commands.
pub fn motor_hat_profile() -> (p: ExecutorProfile)
    ensures
        p.namespace@ == spec_motor_hat_namespace(),
        p.null_commands.deep_view() =~= seq!["stepper1"@, "stepper2"@],
        p.bool_commands.deep_view() =~= Seq::<Seq<char>>::empty(),
{
    let namespace = String::from_str("adafruit_motorkit");
    proof {
        reveal_strlit("adafruit_motorkit");
        assert(namespace@ =~= spec_motor_hat_namespace());
    }
    let mut null_commands: Vec<String> = Vec::new();
    null_commands.push(String::from_str("stepper1"));
    null_commands.push(String::from_str("stepper2"));
    let p = ExecutorProfile { namespace, null_commands, bool_commands: Vec::new() };
    proof {
        assert(p.null_commands.deep_view() =~= seq!["stepper1"@, "stepper2"@]);
    }
    p
}

/// Resolves an advertised subcommand to the stepper it rotates, failing
/// with `UnknownCommand` exactly when the subcommand is neither advertised
/// name.
pub fn stepper_for_command(command: &str) -> (r: Result<StepperMotor, DispatchError>)
    ensures
        (r == Result::<StepperMotor, DispatchError>::Ok(StepperMotor::Stepper1)) <==> command@
            == "stepper1"@,
        (r == Result::<StepperMotor, DispatchError>::Ok(StepperMotor::Stepper2)) <==> command@
            == "stepper2"@,
        (r == Result::<StepperMotor, DispatchError>::Err(DispatchError::UnknownCommand)) <==> (
        command@ != "stepper1"@ && command@ != "stepper2"@),
{
    proof {
        reveal_strlit("stepper1");
        reveal_strlit("stepper2");
        assert("stepper1"@[7] != "stepper2"@[7]);
    }
    let given = String::from_str(command);
    if given.eq(&String::from_str("stepper1")) {
        Result::Ok(StepperMotor::Stepper1)
    } else if given.eq(&String::from_str("stepper2")) {
        Result::Ok(StepperMotor::Stepper2)
    } else {
        Result::Err(DispatchError::UnknownCommand)
    }
}

} // verus!
