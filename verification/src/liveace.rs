//! The line-framed protocol client for a serial-attached microcontroller.
//!
//! At construction the client runs a handshake exchange that discovers the
//! board's fixed command sets — commands whose response payload is absent and
//! commands whose response payload is a boolean. Afterwards each command runs
//! as one [`crate::exchange::CommandExchange`]; the typed entry points here
//! turn an exchange outcome into the caller-visible result.
//!
//! A success means the command fully completed on the board. A failure does
//! not mean the board did not act: an answer can be lost after the action
//! ran, and the exchange retries on every failure, so a non-idempotent
//! physical action may run more than once before an error is reported.

use crate::command_executor::{ExecutorProfile, NamespacedCommandExecutor};
use crate::exchange::{CommandExchange, ExchangeModel, PhaseModel};
use crate::names::{clone_strings, distinct_names, lemma_dedup_distinct, spec_dedup, dedup_strings};
use crate::response::{Payload, PayloadModel};
use vstd::prelude::*;
use vstd::string::*;

verus! {

/// Retries granted to every exchange after its first attempt.
pub const DEFAULT_MAX_RETRIES: u32 = 10;

/// The per-attempt timeout, in milliseconds.
pub const DEFAULT_TIMEOUT_TO_RETRY_MS: u64 = 20000;

/// A failure of one protocol exchange. Transport faults carry the
/// description the transport driver reported.
#[derive(Debug, PartialEq)]
pub enum SerialError {
    /// No answering line arrived within the per-attempt timeout.
    Timeout,
    /// A received line was not a response record, or an answering payload had
    /// the wrong shape for the entry point used.
    MalformedResponse,
    /// A received line carried a non-success status.
    NonOkStatus,
    /// Reading from or writing to the transport failed.
    IoError(String),
    /// A transport-level operation failed.
    SerialPortError(String),
}

/// Mathematical model of a [`SerialError`].
pub ghost enum SerialErrorModel {
    Timeout,
    MalformedResponse,
    NonOkStatus,
    IoError(Seq<char>),
    SerialPortError(Seq<char>),
}

impl View for SerialError {
    type V = SerialErrorModel;

    open spec fn view(&self) -> SerialErrorModel {
        match self {
            SerialError::Timeout => SerialErrorModel::Timeout,
            SerialError::MalformedResponse => SerialErrorModel::MalformedResponse,
            SerialError::NonOkStatus => SerialErrorModel::NonOkStatus,
            SerialError::IoError(msg) => SerialErrorModel::IoError(msg@),
            SerialError::SerialPortError(msg) => SerialErrorModel::SerialPortError(msg@),
        }
    }
}

/// The model of an exchange outcome: the answering payload, or the failure
/// of the last attempt.
pub open spec fn outcome_model(r: Result<crate::response::Payload, SerialError>) -> Result<
    PayloadModel,
    SerialErrorModel,
> {
    match r {
        Result::Ok(p) => Result::Ok(p@),
        Result::Err(e) => Result::Err(e@),
    }
}

/// The reserved discovery command of the handshake.
pub open spec fn spec_handshake_command() -> Seq<char> {
    seq!['l', 'i', 's', 't', 'C', 'o', 'm', 'm', 'a', 'n', 'd', 's']
}

/// The namespace of a board: `"arduino:"` followed by its serial number.
pub open spec fn spec_namespace(serial: Seq<char>) -> Seq<char> {
    seq!['a', 'r', 'd', 'u', 'i', 'n', 'o', ':'] + serial
}

/// The protocol client for one serial-attached board: its namespace, the
/// command sets discovered at the handshake, and the retry configuration
/// every exchange runs with.
#[derive(Debug)]
pub struct LiVeAceSerialPort {
    pub namespace: String,
    pub null_commands: Vec<String>,
    pub bool_commands: Vec<String>,
    pub timeout_to_retry_ms: u64,
    pub max_retries: u32,
}

impl LiVeAceSerialPort {
    /// The discovered command sets hold no repeated name.
    pub open spec fn wf(self) -> bool {
        &&& distinct_names(self.null_commands.deep_view())
        &&& distinct_names(self.bool_commands.deep_view())
    }

    /// The reserved discovery command.
    pub fn handshake_command() -> (r: String)
        ensures
            r@ == spec_handshake_command(),
    {
        let r = String::from_str("listCommands");
        proof {
            reveal_strlit("listCommands");
            assert(r@ =~= spec_handshake_command());
        }
        r
    }

    /// The handshake exchange run at construction: the discovery command
    /// under the default retry configuration.
    pub fn handshake_exchange() -> (ex: CommandExchange)
        ensures
            ex@ == (ExchangeModel {
                command: spec_handshake_command(),
                max_retries: DEFAULT_MAX_RETRIES,
                timeout_to_retry_ms: DEFAULT_TIMEOUT_TO_RETRY_MS,
                attempts_failed: 0,
                attempts_started: 1,
                phase: PhaseModel::Resetting,
            }),
            ex@.wf(),
    {
        CommandExchange::new(
            Self::handshake_command(),
            DEFAULT_MAX_RETRIES,
            DEFAULT_TIMEOUT_TO_RETRY_MS,
        )
    }

    /// Completes construction from the handshake exchange's outcome. The
    /// handshake must have answered with the two command lists; each list is
    /// de-duplicated, keeping first occurrences, to form the advertised
    /// sets. Any other payload fails with `MalformedResponse`, and a failed
    /// handshake fails with its own error — the client is then never
    /// created.
    pub fn new(board_serial_number: String, handshake_result: Result<Payload, SerialError>) -> (r:
        Result<LiVeAceSerialPort, SerialError>)
        ensures
            match handshake_result {
                Result::Ok(p) => match p@ {
                    PayloadModel::CommandLists { null_commands, bool_commands } => {
                        &&& r is Ok
                        &&& r.unwrap().namespace@ == spec_namespace(board_serial_number@)
                        &&& r.unwrap().null_commands.deep_view() == spec_dedup(null_commands)
                        &&& r.unwrap().bool_commands.deep_view() == spec_dedup(bool_commands)
                        &&& r.unwrap().timeout_to_retry_ms == DEFAULT_TIMEOUT_TO_RETRY_MS
                        &&& r.unwrap().max_retries == DEFAULT_MAX_RETRIES
                        &&& r.unwrap().wf()
                    },
                    _ => r == Result::<LiVeAceSerialPort, SerialError>::Err(
                        SerialError::MalformedResponse,
                    ),
                },
                Result::Err(e) => r == Result::<LiVeAceSerialPort, SerialError>::Err(e),
            },
    {
        match handshake_result {
            Result::Ok(Payload::CommandLists { null_commands, bool_commands }) => {
                let namespace = String::from_str("arduino:").concat(board_serial_number.as_str());
                proof {
                    reveal_strlit("arduino:");
                    assert(namespace@ =~= spec_namespace(board_serial_number@));
                    lemma_dedup_distinct(null_commands.deep_view());
                    lemma_dedup_distinct(bool_commands.deep_view());
                }
                Result::Ok(
                    LiVeAceSerialPort {
                        namespace,
                        null_commands: dedup_strings(&null_commands),
                        bool_commands: dedup_strings(&bool_commands),
                        timeout_to_retry_ms: DEFAULT_TIMEOUT_TO_RETRY_MS,
                        max_retries: DEFAULT_MAX_RETRIES,
                    },
                )
            },
            Result::Ok(_) => Result::Err(SerialError::MalformedResponse),
            Result::Err(e) => Result::Err(e),
        }
    }

    /// Begins the exchange for one command under this client's
    /// configuration. The command is sent as given; the board itself answers
    /// unknown commands with a non-success status.
    pub fn begin_command(&self, command: &str) -> (ex: CommandExchange)
        ensures
            ex@ == (ExchangeModel {
                command: command@,
                max_retries: self.max_retries,
                timeout_to_retry_ms: self.timeout_to_retry_ms,
                attempts_failed: 0,
                attempts_started: 1,
                phase: PhaseModel::Resetting,
            }),
            ex@.wf(),
    {
        CommandExchange::new(String::from_str(command), self.max_retries, self.timeout_to_retry_ms)
    }

    /// Turns an exchange outcome into the result of a null-returning
    /// command: the payload must be absent; a present payload of any shape
    /// fails with `MalformedResponse`, and an exchange failure is passed
    /// through.
    pub fn finish_null_command(outcome: Result<Payload, SerialError>) -> (r: Result<
        (),
        SerialError,
    >)
        ensures
            match outcome {
                Result::Ok(p) => if p@ is Absent {
                    r is Ok
                } else {
                    r == Result::<(), SerialError>::Err(SerialError::MalformedResponse)
                },
                Result::Err(e) => r == Result::<(), SerialError>::Err(e),
            },
    {
        match outcome {
            Result::Ok(Payload::Absent) => Result::Ok(()),
            Result::Ok(_) => Result::Err(SerialError::MalformedResponse),
            Result::Err(e) => Result::Err(e),
        }
    }

    /// Turns an exchange outcome into the result of a boolean-returning
    /// command: the payload must be strictly a boolean; any other payload
    /// fails with `MalformedResponse`, and an exchange failure is passed
    /// through.
    pub fn finish_bool_command(outcome: Result<Payload, SerialError>) -> (r: Result<
        bool,
        SerialError,
    >)
        ensures
            match outcome {
                Result::Ok(p) => match p@ {
                    PayloadModel::Bool(b) => r == Result::<bool, SerialError>::Ok(b),
                    _ => r == Result::<bool, SerialError>::Err(SerialError::MalformedResponse),
                },
                Result::Err(e) => r == Result::<bool, SerialError>::Err(e),
            },
    {
        match outcome {
            Result::Ok(Payload::Bool(b)) => Result::Ok(b),
            Result::Ok(_) => Result::Err(SerialError::MalformedResponse),
            Result::Err(e) => Result::Err(e),
        }
    }

    /// The advertised null-returning commands, in no promised order.
    pub fn get_null_commands(&self) -> (r: &Vec<String>)
        ensures
            r.deep_view() == self.null_commands.deep_view(),
    {
        &self.null_commands
    }

    /// The advertised boolean-returning commands, in no promised order.
    pub fn get_bool_commands(&self) -> (r: &Vec<String>)
        ensures
            r.deep_view() == self.bool_commands.deep_view(),
    {
        &self.bool_commands
    }

    /// This client's registry profile: its namespace and the discovered
    /// command sets.
    pub fn executor_profile(&self) -> (p: ExecutorProfile)
        ensures
            p.namespace@ == self.namespace@,
            p.null_commands.deep_view() == self.null_commands.deep_view(),
            p.bool_commands.deep_view() == self.bool_commands.deep_view(),
    {
        ExecutorProfile {
            namespace: self.namespace.clone(),
            null_commands: clone_strings(&self.null_commands),
            bool_commands: clone_strings(&self.bool_commands),
        }
    }
}

impl NamespacedCommandExecutor for LiVeAceSerialPort {
    open spec fn namespace_spec(&self) -> Seq<char> {
        self.namespace@
    }

    fn get_executor_namespace(&self) -> (r: &str) {
        self.namespace.as_str()
    }
}

} // verus!
