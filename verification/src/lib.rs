//! A command-execution framework for physical actuators.
//!
//! Heterogeneous actuator backends (a serial-attached microcontroller board
//! speaking a line-framed request/response protocol, a stepper-motor hat)
//! advertise fixed sets of named commands. A registry composes many backends
//! into one flat, collision-checked command table addressed by qualified
//! names of the form `namespace:subcommand`.
//!
//! All protocol and dispatch decisions live here as verified code. The
//! transport itself (serial reads and writes, pacing delays, the clock) is
//! driven by the embedding program, which performs each action the protocol
//! state machine asks for and reports the outcome back as an event.

pub mod adafruit_motorkit;
pub mod command_executor;
pub mod discovery;
pub mod exchange;
pub mod framing;
pub mod liveace;
pub mod names;
pub mod response;
pub mod vend_coil;
