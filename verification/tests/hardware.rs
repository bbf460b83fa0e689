//! The direct hardware executor and board discovery.

use command_executor::adafruit_motorkit::{motor_hat_profile, stepper_for_command};
use command_executor::command_executor::{CommandExecutorManager, DispatchError};
use command_executor::discovery::{get_board_type, ArduinoBoardType};
use command_executor::vend_coil::StepperMotor;

#[test]
fn motor_hat_advertises_one_command_per_stepper() {
    let profile = motor_hat_profile();
    assert_eq!(profile.namespace, "adafruit_motorkit");
    assert_eq!(
        profile.null_commands,
        vec!["stepper1".to_string(), "stepper2".to_string()]
    );
    assert_eq!(profile.bool_commands, Vec::<String>::new());
}

#[test]
fn stepper_commands_resolve_to_their_stepper() {
    assert_eq!(stepper_for_command("stepper1"), Ok(StepperMotor::Stepper1));
    assert_eq!(stepper_for_command("stepper2"), Ok(StepperMotor::Stepper2));
    assert_eq!(
        stepper_for_command("stepper3"),
        Err(DispatchError::UnknownCommand)
    );
    assert_eq!(stepper_for_command(""), Err(DispatchError::UnknownCommand));
}

#[test]
fn motor_hat_registers_and_dispatches_through_the_manager() {
    let manager = CommandExecutorManager::new(vec![motor_hat_profile()]).unwrap();
    assert_eq!(
        manager.get_null_commands(),
        vec![
            "adafruit_motorkit:stepper1".to_string(),
            "adafruit_motorkit:stepper2".to_string(),
        ]
    );
    let (namespace, subcommand) = manager
        .execute_null_command(&"adafruit_motorkit:stepper2".to_string())
        .unwrap();
    assert_eq!(namespace, "adafruit_motorkit");
    assert_eq!(stepper_for_command(&subcommand), Ok(StepperMotor::Stepper2));
}

#[test]
fn known_vendor_and_product_identify_the_board() {
    assert_eq!(get_board_type(9025, 66), Some(ArduinoBoardType::Mega2560));
}

#[test]
fn known_vendor_with_other_product_is_an_unknown_board() {
    assert_eq!(get_board_type(9025, 67), Some(ArduinoBoardType::Unknown));
}

#[test]
fn other_vendors_are_not_boards() {
    assert_eq!(get_board_type(1027, 66), None);
}
