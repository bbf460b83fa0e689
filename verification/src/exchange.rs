//! One command exchange over the serial transport, with retries.
//!
//! The exchange is a state machine: it never touches the transport itself.
//! The embedding program asks for the [`Action`] the machine is waiting on
//! (via [`CommandExchange::pending_action`]), performs it against the real
//! transport, and reports what happened as an [`Event`] (via
//! [`CommandExchange::on_event`]). Every decision — when an attempt fails,
//! how failures map to errors, when to retry and when to give up — is made
//! here, and [`spec_transition`] states each step exactly.
//!
//! One attempt proceeds as: clear both transport buffers, drain and discard
//! any bytes already pending (stale leftovers of an earlier attempt), pace
//! the framed request out one character at a time, then poll for input until
//! the accumulated buffer ends with a line separator and a scan of its lines
//! settles the attempt, or the per-attempt timeout passes. A failed attempt
//! is retried until `max_retries` retries have been spent; the result of the
//! final attempt, success or failure, is the exchange's result.

use crate::framing::{
    append_chunk, buffer_complete, spec_append_chunk, spec_complete, spec_split, split_lines,
};
use crate::liveace::{SerialError, SerialErrorModel};
use crate::response::{scan_lines, spec_scan, Payload, PayloadModel, ScanVerdict, ScanVerdictModel};
use vstd::prelude::*;
use vstd::string::*;
use vstd::utf8::encode_scalar;

verus! {

/// What the transport driver reports back after performing one [`Action`].
/// Errors carry the driver's description of the fault. `now_ms` values are
/// readings of a monotonic clock, in milliseconds.
#[derive(Debug, PartialEq)]
pub enum Event {
    /// Outcome of [`Action::ClearAllBuffers`].
    Cleared { outcome: Result<(), String> },
    /// Outcome of [`Action::QueryAvailable`]: how many received bytes are
    /// waiting in the transport.
    Available { outcome: Result<u32, String>, now_ms: u64 },
    /// Outcome of [`Action::ReadDiscard`].
    Discarded { outcome: Result<(), String> },
    /// Outcome of [`Action::TransmitPaced`].
    Transmitted { outcome: Result<(), String>, now_ms: u64 },
    /// Outcome of [`Action::ReadChunk`]: the bytes read. A read failure is
    /// reported here and ignored by the machine, as the transport loop only
    /// logs it.
    ChunkRead { outcome: Result<Vec<u8>, String>, now_ms: u64 },
    /// Outcome of [`Action::ClearOutput`].
    OutputCleared { outcome: Result<(), String> },
}

/// What the machine asks the transport driver to do next.
#[derive(Debug, PartialEq)]
pub enum Action {
    /// Clear both transport buffers.
    ClearAllBuffers,
    /// Ask how many received bytes are waiting.
    QueryAvailable,
    /// Read and discard `count` waiting bytes.
    ReadDiscard { count: u32 },
    /// Write the units in order, flushing after each and pausing briefly
    /// between them, so a constrained receiver is not overrun. The units are
    /// the UTF-8 encodings of the characters of the command followed by the
    /// line separator.
    TransmitPaced { units: Vec<Vec<u8>> },
    /// Read up to `count` waiting bytes and report them.
    ReadChunk { count: u32 },
    /// Clear the transport's output buffer.
    ClearOutput,
    /// The exchange is over; collect the result.
    Finish,
}

/// Mathematical model of an [`Action`].
pub ghost enum ActionModel {
    ClearAllBuffers,
    QueryAvailable,
    ReadDiscard { count: u32 },
    TransmitPaced { units: Seq<Seq<u8>> },
    ReadChunk { count: u32 },
    ClearOutput,
    Finish,
}

impl View for Action {
    type V = ActionModel;

    open spec fn view(&self) -> ActionModel {
        match self {
            Action::ClearAllBuffers => ActionModel::ClearAllBuffers,
            Action::QueryAvailable => ActionModel::QueryAvailable,
            Action::ReadDiscard { count } => ActionModel::ReadDiscard { count: *count },
            Action::TransmitPaced { units } => ActionModel::TransmitPaced {
                units: units.deep_view(),
            },
            Action::ReadChunk { count } => ActionModel::ReadChunk { count: *count },
            Action::ClearOutput => ActionModel::ClearOutput,
            Action::Finish => ActionModel::Finish,
        }
    }
}

/// Where one attempt stands.
#[derive(Debug)]
pub enum Phase {
    /// About to clear both transport buffers.
    Resetting,
    /// Asking how many stale bytes are pending before transmitting.
    QueryingPending,
    /// Draining `count` stale bytes.
    DrainingPending { count: u32 },
    /// About to transmit the framed request.
    Transmitting,
    /// Polling for input. `buffer` holds the text received so far this
    /// attempt; `started_ms` is the clock when the wait began.
    AwaitingData { buffer: String, started_ms: u64 },
    /// Reading `count` reported-available bytes.
    ReadingData { buffer: String, started_ms: u64, count: u32 },
    /// Clearing the output buffer at the end of one poll round.
    ClearingOutput { buffer: String, started_ms: u64 },
    /// The exchange is over.
    Done { result: Result<Payload, SerialError> },
}

/// Mathematical model of a [`Phase`].
pub ghost enum PhaseModel {
    Resetting,
    QueryingPending,
    DrainingPending { count: u32 },
    Transmitting,
    AwaitingData { buffer: Seq<char>, started_ms: u64 },
    ReadingData { buffer: Seq<char>, started_ms: u64, count: u32 },
    ClearingOutput { buffer: Seq<char>, started_ms: u64 },
    Done { result: Result<PayloadModel, SerialErrorModel> },
}

impl View for Phase {
    type V = PhaseModel;

    open spec fn view(&self) -> PhaseModel {
        match self {
            Phase::Resetting => PhaseModel::Resetting,
            Phase::QueryingPending => PhaseModel::QueryingPending,
            Phase::DrainingPending { count } => PhaseModel::DrainingPending { count: *count },
            Phase::Transmitting => PhaseModel::Transmitting,
            Phase::AwaitingData { buffer, started_ms } => PhaseModel::AwaitingData {
                buffer: buffer@,
                started_ms: *started_ms,
            },
            Phase::ReadingData { buffer, started_ms, count } => PhaseModel::ReadingData {
                buffer: buffer@,
                started_ms: *started_ms,
                count: *count,
            },
            Phase::ClearingOutput { buffer, started_ms } => PhaseModel::ClearingOutput {
                buffer: buffer@,
                started_ms: *started_ms,
            },
            Phase::Done { result } => PhaseModel::Done {
                result: match result {
                    Result::Ok(p) => Result::Ok(p@),
                    Result::Err(e) => Result::Err(e@),
                },
            },
        }
    }
}

/// One command exchange: the awaited command, the retry and timeout
/// configuration, how many attempts have failed so far, how many have begun,
/// and where the current attempt stands.
#[derive(Debug)]
pub struct CommandExchange {
    pub command: String,
    pub max_retries: u32,
    pub timeout_to_retry_ms: u64,
    pub attempts_failed: u32,
    pub attempts_started: u64,
    pub phase: Phase,
}

/// Mathematical model of a [`CommandExchange`].
pub ghost struct ExchangeModel {
    pub command: Seq<char>,
    pub max_retries: u32,
    pub timeout_to_retry_ms: u64,
    pub attempts_failed: u32,
    pub attempts_started: u64,
    pub phase: PhaseModel,
}

impl View for CommandExchange {
    type V = ExchangeModel;

    open spec fn view(&self) -> ExchangeModel {
        ExchangeModel {
            command: self.command@,
            max_retries: self.max_retries,
            timeout_to_retry_ms: self.timeout_to_retry_ms,
            attempts_failed: self.attempts_failed,
            attempts_started: self.attempts_started,
            phase: self.phase@,
        }
    }
}

impl ExchangeModel {
    /// Counters stay consistent: at most `max_retries` attempts have failed,
    /// and exactly one more attempt has begun than has failed.
    pub open spec fn wf(self) -> bool {
        &&& self.attempts_failed <= self.max_retries
        &&& self.attempts_started == self.attempts_failed as int + 1
    }
}

/// The framed request: the command followed by the line separator.
pub open spec fn spec_frame(command: Seq<char>) -> Seq<char> {
    command + seq!['\n']
}

/// The paced transmission units: one per character of the frame, each the
/// character's UTF-8 encoding.
pub open spec fn spec_units(command: Seq<char>) -> Seq<Seq<u8>> {
    Seq::new(spec_frame(command).len(), |i: int| encode_scalar(spec_frame(command)[i] as u32))
}

/// The model after one attempt fails with `err`: begin the next attempt
/// while retries remain, otherwise end the exchange with the failure.
pub open spec fn spec_fail(m: ExchangeModel, err: SerialErrorModel) -> ExchangeModel {
    if m.attempts_failed < m.max_retries {
        ExchangeModel {
            attempts_failed: (m.attempts_failed + 1) as u32,
            attempts_started: (m.attempts_started + 1) as u64,
            phase: PhaseModel::Resetting,
            ..m
        }
    } else {
        ExchangeModel { phase: PhaseModel::Done { result: Result::Err(err) }, ..m }
    }
}

/// Milliseconds passed since the wait began, by a monotonic clock; a reading
/// earlier than the start counts as no time passed.
pub open spec fn spec_elapsed(started_ms: u64, now_ms: u64) -> int {
    if now_ms >= started_ms {
        now_ms - started_ms
    } else {
        0
    }
}

/// The model after the timeout decision of one poll round: fail the attempt
/// with `Timeout` once more than the per-attempt timeout has passed,
/// otherwise clear the output buffer and poll again.
pub open spec fn spec_wait_or_timeout(
    m: ExchangeModel,
    buffer: Seq<char>,
    started_ms: u64,
    now_ms: u64,
) -> ExchangeModel {
    if spec_elapsed(started_ms, now_ms) > m.timeout_to_retry_ms {
        spec_fail(m, SerialErrorModel::Timeout)
    } else {
        ExchangeModel { phase: PhaseModel::ClearingOutput { buffer, started_ms }, ..m }
    }
}

/// The model after one poll round's scan: once the buffer ends with a line
/// separator its lines are scanned in arrival order; a match ends the
/// exchange with the answering payload, a malformed line or a non-success
/// status fails the attempt, and otherwise the wait continues into the
/// timeout decision.
pub open spec fn spec_after_scan(
    m: ExchangeModel,
    buffer: Seq<char>,
    started_ms: u64,
    now_ms: u64,
) -> ExchangeModel {
    if spec_complete(buffer) {
        match spec_scan(spec_split(buffer), m.command) {
            ScanVerdictModel::Matched(p) => ExchangeModel {
                phase: PhaseModel::Done { result: Result::Ok(p) },
                ..m
            },
            ScanVerdictModel::Malformed => spec_fail(m, SerialErrorModel::MalformedResponse),
            ScanVerdictModel::NonOk => spec_fail(m, SerialErrorModel::NonOkStatus),
            ScanVerdictModel::Pending => spec_wait_or_timeout(m, buffer, started_ms, now_ms),
        }
    } else {
        spec_wait_or_timeout(m, buffer, started_ms, now_ms)
    }
}

/// The machine's transition relation: the model after handling `event` in
/// model state `m`. An event that does not answer the pending action leaves
/// the state unchanged.
pub open spec fn spec_transition(m: ExchangeModel, event: Event) -> ExchangeModel {
    match m.phase {
        PhaseModel::Resetting => match event {
            Event::Cleared { outcome } => match outcome {
                Result::Ok(_) => ExchangeModel { phase: PhaseModel::QueryingPending, ..m },
                Result::Err(msg) => spec_fail(m, SerialErrorModel::SerialPortError(msg@)),
            },
            _ => m,
        },
        PhaseModel::QueryingPending => match event {
            Event::Available { outcome, now_ms: _ } => match outcome {
                Result::Ok(count) => if count == 0 {
                    ExchangeModel { phase: PhaseModel::Transmitting, ..m }
                } else {
                    ExchangeModel { phase: PhaseModel::DrainingPending { count }, ..m }
                },
                Result::Err(msg) => spec_fail(m, SerialErrorModel::SerialPortError(msg@)),
            },
            _ => m,
        },
        PhaseModel::DrainingPending { .. } => match event {
            Event::Discarded { outcome } => match outcome {
                Result::Ok(_) => ExchangeModel { phase: PhaseModel::Transmitting, ..m },
                Result::Err(msg) => spec_fail(m, SerialErrorModel::IoError(msg@)),
            },
            _ => m,
        },
        PhaseModel::Transmitting => match event {
            Event::Transmitted { outcome, now_ms } => match outcome {
                Result::Ok(_) => ExchangeModel {
                    phase: PhaseModel::AwaitingData {
                        buffer: Seq::<char>::empty(),
                        started_ms: now_ms,
                    },
                    ..m
                },
                Result::Err(msg) => spec_fail(m, SerialErrorModel::IoError(msg@)),
            },
            _ => m,
        },
        PhaseModel::AwaitingData { buffer, started_ms } => match event {
            Event::Available { outcome, now_ms } => match outcome {
                Result::Ok(count) => if count == 0 {
                    spec_after_scan(m, buffer, started_ms, now_ms)
                } else {
                    ExchangeModel {
                        phase: PhaseModel::ReadingData { buffer, started_ms, count },
                        ..m
                    }
                },
                Result::Err(msg) => spec_fail(m, SerialErrorModel::SerialPortError(msg@)),
            },
            _ => m,
        },
        PhaseModel::ReadingData { buffer, started_ms, count: _ } => match event {
            Event::ChunkRead { outcome, now_ms } => match outcome {
                Result::Ok(bytes) => spec_after_scan(
                    m,
                    spec_append_chunk(buffer, bytes@),
                    started_ms,
                    now_ms,
                ),
                Result::Err(_) => spec_after_scan(m, buffer, started_ms, now_ms),
            },
            _ => m,
        },
        PhaseModel::ClearingOutput { buffer, started_ms } => match event {
            Event::OutputCleared { outcome } => match outcome {
                Result::Ok(_) => ExchangeModel {
                    phase: PhaseModel::AwaitingData { buffer, started_ms },
                    ..m
                },
                Result::Err(msg) => spec_fail(m, SerialErrorModel::SerialPortError(msg@)),
            },
            _ => m,
        },
        PhaseModel::Done { .. } => m,
    }
}

/// The action the machine waits on in model state `m`.
pub open spec fn spec_pending_action(m: ExchangeModel) -> ActionModel {
    match m.phase {
        PhaseModel::Resetting => ActionModel::ClearAllBuffers,
        PhaseModel::QueryingPending => ActionModel::QueryAvailable,
        PhaseModel::DrainingPending { count } => ActionModel::ReadDiscard { count },
        PhaseModel::Transmitting => ActionModel::TransmitPaced { units: spec_units(m.command) },
        PhaseModel::AwaitingData { .. } => ActionModel::QueryAvailable,
        PhaseModel::ReadingData { count, .. } => ActionModel::ReadChunk { count },
        PhaseModel::ClearingOutput { .. } => ActionModel::ClearOutput,
        PhaseModel::Done { .. } => ActionModel::Finish,
    }
}

/// The per-character encodings of a character sequence concatenate to its
/// UTF-8 encoding.
proof fn lemma_scalar_units_flatten(s: Seq<char>)
    ensures
        Seq::new(s.len(), |i: int| encode_scalar(s[i] as u32)).flatten() =~= vstd::utf8::encode_utf8(
            s,
        ),
    decreases s.len(),
{
    let units = Seq::new(s.len(), |i: int| encode_scalar(s[i] as u32));
    if s.len() != 0 {
        lemma_scalar_units_flatten(s.drop_first());
        let d = s.drop_first();
        assert(units.drop_first() =~= Seq::new(d.len(), |i: int| encode_scalar(d[i] as u32)));
        assert(units.flatten() == units.first() + units.drop_first().flatten());
    }
}

/// The paced transmission units concatenate to exactly the UTF-8 encoding
/// of the framed request: nothing more and nothing less is written.
pub proof fn lemma_units_flatten(command: Seq<char>)
    ensures
        spec_units(command).flatten() == vstd::utf8::encode_utf8(spec_frame(command)),
{
    lemma_scalar_units_flatten(spec_frame(command));
    assert(spec_units(command) =~= Seq::new(
        spec_frame(command).len(),
        |i: int| encode_scalar(spec_frame(command)[i] as u32),
    ));
}

/// A finished exchange stays finished: no event changes its result.
pub proof fn lemma_done_is_final(m: ExchangeModel, event: Event)
    requires
        m.phase is Done,
    ensures
        spec_transition(m, event) == m,
{
}

/// An exchange succeeds only when the accumulated buffer holds complete
/// lines whose scan answered the awaited command with the returned payload.
pub proof fn lemma_success_only_from_scan(
    m: ExchangeModel,
    buffer: Seq<char>,
    started_ms: u64,
    now_ms: u64,
    p: PayloadModel,
)
    requires
        spec_after_scan(m, buffer, started_ms, now_ms).phase == (PhaseModel::Done {
            result: Result::Ok(p),
        }),
    ensures
        spec_complete(buffer),
        spec_scan(spec_split(buffer), m.command) == ScanVerdictModel::Matched(p),
{
}

/// A step from a consistent state keeps the counters consistent.
pub proof fn lemma_transition_wf(m: ExchangeModel, event: Event)
    requires
        m.wf(),
    ensures
        spec_transition(m, event).wf(),
{
}

/// A consistent state has begun at most one attempt beyond the spent
/// retries.
pub proof fn lemma_attempt_bound(m: ExchangeModel)
    requires
        m.wf(),
    ensures
        m.attempts_started <= m.max_retries as int + 1,
{
}

/// An exchange ends in an error only on the final allowed attempt: exactly
/// `max_retries + 1` attempts have then begun and all have failed. Until
/// then every failure begins another attempt.
pub proof fn lemma_error_only_after_last_attempt(m: ExchangeModel, event: Event)
    requires
        m.wf(),
        !(m.phase is Done),
        spec_transition(m, event).phase matches PhaseModel::Done { result: Result::Err(_) },
    ensures
        m.attempts_failed == m.max_retries,
        spec_transition(m, event).attempts_started == m.max_retries as int + 1,
{
}

impl CommandExchange {
    /// Begins an exchange for `command`: the first attempt starts by
    /// resetting the transport buffers.
    pub fn new(command: String, max_retries: u32, timeout_to_retry_ms: u64) -> (ex:
        CommandExchange)
        ensures
            ex@ == (ExchangeModel {
                command: command@,
                max_retries,
                timeout_to_retry_ms,
                attempts_failed: 0,
                attempts_started: 1,
                phase: PhaseModel::Resetting,
            }),
            ex@.wf(),
    {
        CommandExchange {
            command,
            max_retries,
            timeout_to_retry_ms,
            attempts_failed: 0,
            attempts_started: 1,
            phase: Phase::Resetting,
        }
    }

    /// The action the machine is waiting on. The transport driver performs
    /// it and reports the outcome to [`CommandExchange::on_event`].
    pub fn pending_action(&self) -> (a: Action)
        ensures
            a@ == spec_pending_action(self@),
    {
        match &self.phase {
            Phase::Resetting => Action::ClearAllBuffers,
            Phase::QueryingPending => Action::QueryAvailable,
            Phase::DrainingPending { count } => Action::ReadDiscard { count: *count },
            Phase::Transmitting => Action::TransmitPaced { units: frame_units(&self.command) },
            Phase::AwaitingData { .. } => Action::QueryAvailable,
            Phase::ReadingData { count, .. } => Action::ReadChunk { count: *count },
            Phase::ClearingOutput { .. } => Action::ClearOutput,
            Phase::Done { .. } => Action::Finish,
        }
    }

    /// Whether the exchange is over.
    pub fn is_done(&self) -> (r: bool)
        ensures
            r == (self@.phase is Done),
    {
        matches!(self.phase, Phase::Done { .. })
    }

    /// The exchange's result: the answering payload, or the failure of the
    /// final attempt.
    pub fn into_result(self) -> (r: Result<Payload, SerialError>)
        requires
            self@.phase is Done,
        ensures
            self@.phase matches PhaseModel::Done { result } && result == crate::liveace::outcome_model(r),
    {
        match self.phase {
            Phase::Done { result } => result,
            _ => Result::Err(SerialError::Timeout),
        }
    }

    /// Handles the outcome of the pending action and moves the machine one
    /// step, as [`spec_transition`] states.
    pub fn on_event(self, event: Event) -> (next: CommandExchange)
        requires
            self@.wf(),
        ensures
            next@ == spec_transition(self@, event),
            next@.wf(),
    {
        let ghost m = self@;
        let CommandExchange {
            command,
            max_retries,
            timeout_to_retry_ms,
            attempts_failed,
            attempts_started,
            phase,
        } = self;
        match (phase, event) {
            (Phase::Resetting, Event::Cleared { outcome }) => match outcome {
                Result::Ok(_) => CommandExchange {
                    command,
                    max_retries,
                    timeout_to_retry_ms,
                    attempts_failed,
                    attempts_started,
                    phase: Phase::QueryingPending,
                },
                Result::Err(msg) => fail_attempt(
                    command,
                    max_retries,
                    timeout_to_retry_ms,
                    attempts_failed,
                    attempts_started,
                    SerialError::SerialPortError(msg),
                    Ghost(m),
                ),
            },
            (Phase::QueryingPending, Event::Available { outcome, now_ms: _ }) => match outcome {
                Result::Ok(count) => if count == 0 {
                    CommandExchange {
                        command,
                        max_retries,
                        timeout_to_retry_ms,
                        attempts_failed,
                        attempts_started,
                        phase: Phase::Transmitting,
                    }
                } else {
                    CommandExchange {
                        command,
                        max_retries,
                        timeout_to_retry_ms,
                        attempts_failed,
                        attempts_started,
                        phase: Phase::DrainingPending { count },
                    }
                },
                Result::Err(msg) => fail_attempt(
                    command,
                    max_retries,
                    timeout_to_retry_ms,
                    attempts_failed,
                    attempts_started,
                    SerialError::SerialPortError(msg),
                    Ghost(m),
                ),
            },
            (Phase::DrainingPending { count: _ }, Event::Discarded { outcome }) => match outcome {
                Result::Ok(_) => CommandExchange {
                    command,
                    max_retries,
                    timeout_to_retry_ms,
                    attempts_failed,
                    attempts_started,
                    phase: Phase::Transmitting,
                },
                Result::Err(msg) => fail_attempt(
                    command,
                    max_retries,
                    timeout_to_retry_ms,
                    attempts_failed,
                    attempts_started,
                    SerialError::IoError(msg),
                    Ghost(m),
                ),
            },
            (Phase::Transmitting, Event::Transmitted { outcome, now_ms }) => match outcome {
                Result::Ok(_) => CommandExchange {
                    command,
                    max_retries,
                    timeout_to_retry_ms,
                    attempts_failed,
                    attempts_started,
                    phase: Phase::AwaitingData { buffer: String::new(), started_ms: now_ms },
                },
                Result::Err(msg) => fail_attempt(
                    command,
                    max_retries,
                    timeout_to_retry_ms,
                    attempts_failed,
                    attempts_started,
                    SerialError::IoError(msg),
                    Ghost(m),
                ),
            },
            (Phase::AwaitingData { buffer, started_ms }, Event::Available { outcome, now_ms }) => {
                match outcome {
                    Result::Ok(count) => if count == 0 {
                        after_scan(
                            command,
                            max_retries,
                            timeout_to_retry_ms,
                            attempts_failed,
                            attempts_started,
                            buffer,
                            started_ms,
                            now_ms,
                            Ghost(m),
                        )
                    } else {
                        CommandExchange {
                            command,
                            max_retries,
                            timeout_to_retry_ms,
                            attempts_failed,
                            attempts_started,
                            phase: Phase::ReadingData { buffer, started_ms, count },
                        }
                    },
                    Result::Err(msg) => fail_attempt(
                        command,
                        max_retries,
                        timeout_to_retry_ms,
                        attempts_failed,
                        attempts_started,
                        SerialError::SerialPortError(msg),
                        Ghost(m),
                    ),
                }
            },
            (
                Phase::ReadingData { buffer, started_ms, count: _ },
                Event::ChunkRead { outcome, now_ms },
            ) => {
                let mut buffer = buffer;
                match outcome {
                    Result::Ok(bytes) => {
                        append_chunk(&mut buffer, bytes);
                    },
                    Result::Err(_) => (),
                }
                after_scan(
                    command,
                    max_retries,
                    timeout_to_retry_ms,
                    attempts_failed,
                    attempts_started,
                    buffer,
                    started_ms,
                    now_ms,
                    Ghost(m),
                )
            },
            (Phase::ClearingOutput { buffer, started_ms }, Event::OutputCleared { outcome }) => {
                match outcome {
                    Result::Ok(_) => CommandExchange {
                        command,
                        max_retries,
                        timeout_to_retry_ms,
                        attempts_failed,
                        attempts_started,
                        phase: Phase::AwaitingData { buffer, started_ms },
                    },
                    Result::Err(msg) => fail_attempt(
                        command,
                        max_retries,
                        timeout_to_retry_ms,
                        attempts_failed,
                        attempts_started,
                        SerialError::SerialPortError(msg),
                        Ghost(m),
                    ),
                }
            },
            (phase, _) => CommandExchange {
                command,
                max_retries,
                timeout_to_retry_ms,
                attempts_failed,
                attempts_started,
                phase,
            },
        }
    }
}

/// The attempt has failed with `err`: begin the next attempt while retries
/// remain, otherwise end the exchange with the failure.
fn fail_attempt(
    command: String,
    max_retries: u32,
    timeout_to_retry_ms: u64,
    attempts_failed: u32,
    attempts_started: u64,
    err: SerialError,
    Ghost(m): Ghost<ExchangeModel>,
) -> (r: CommandExchange)
    requires
        m.wf(),
        m.command == command@,
        m.max_retries == max_retries,
        m.timeout_to_retry_ms == timeout_to_retry_ms,
        m.attempts_failed == attempts_failed,
        m.attempts_started == attempts_started,
    ensures
        r@ == spec_fail(m, err@),
{
    if attempts_failed < max_retries {
        CommandExchange {
            command,
            max_retries,
            timeout_to_retry_ms,
            attempts_failed: attempts_failed + 1,
            attempts_started: attempts_started + 1,
            phase: Phase::Resetting,
        }
    } else {
        CommandExchange {
            command,
            max_retries,
            timeout_to_retry_ms,
            attempts_failed,
            attempts_started,
            phase: Phase::Done { result: Result::Err(err) },
        }
    }
}

/// One poll round's scan and timeout decision, as [`spec_after_scan`]
/// states.
fn after_scan(
    command: String,
    max_retries: u32,
    timeout_to_retry_ms: u64,
    attempts_failed: u32,
    attempts_started: u64,
    buffer: String,
    started_ms: u64,
    now_ms: u64,
    Ghost(m): Ghost<ExchangeModel>,
) -> (r: CommandExchange)
    requires
        m.wf(),
        m.command == command@,
        m.max_retries == max_retries,
        m.timeout_to_retry_ms == timeout_to_retry_ms,
        m.attempts_failed == attempts_failed,
        m.attempts_started == attempts_started,
    ensures
        r@ == spec_after_scan(m, buffer@, started_ms, now_ms),
{
    if buffer_complete(buffer.as_str()) {
        let lines = split_lines(buffer.as_str());
        let verdict = scan_lines(&lines, &command);
        match verdict {
            ScanVerdict::Matched(p) => CommandExchange {
                command,
                max_retries,
                timeout_to_retry_ms,
                attempts_failed,
                attempts_started,
                phase: Phase::Done { result: Result::Ok(p) },
            },
            ScanVerdict::Malformed => fail_attempt(
                command,
                max_retries,
                timeout_to_retry_ms,
                attempts_failed,
                attempts_started,
                SerialError::MalformedResponse,
                Ghost(m),
            ),
            ScanVerdict::NonOk => fail_attempt(
                command,
                max_retries,
                timeout_to_retry_ms,
                attempts_failed,
                attempts_started,
                SerialError::NonOkStatus,
                Ghost(m),
            ),
            ScanVerdict::Pending => wait_or_timeout(
                command,
                max_retries,
                timeout_to_retry_ms,
                attempts_failed,
                attempts_started,
                buffer,
                started_ms,
                now_ms,
                Ghost(m),
            ),
        }
    } else {
        wait_or_timeout(
            command,
            max_retries,
            timeout_to_retry_ms,
            attempts_failed,
            attempts_started,
            buffer,
            started_ms,
            now_ms,
            Ghost(m),
        )
    }
}

/// The timeout decision of one poll round, as [`spec_wait_or_timeout`]
/// states.
fn wait_or_timeout(
    command: String,
    max_retries: u32,
    timeout_to_retry_ms: u64,
    attempts_failed: u32,
    attempts_started: u64,
    buffer: String,
    started_ms: u64,
    now_ms: u64,
    Ghost(m): Ghost<ExchangeModel>,
) -> (r: CommandExchange)
    requires
        m.wf(),
        m.command == command@,
        m.max_retries == max_retries,
        m.timeout_to_retry_ms == timeout_to_retry_ms,
        m.attempts_failed == attempts_failed,
        m.attempts_started == attempts_started,
    ensures
        r@ == spec_wait_or_timeout(m, buffer@, started_ms, now_ms),
{
    let elapsed: u64 = if now_ms >= started_ms {
        now_ms - started_ms
    } else {
        0
    };
    if elapsed > timeout_to_retry_ms {
        fail_attempt(
            command,
            max_retries,
            timeout_to_retry_ms,
            attempts_failed,
            attempts_started,
            SerialError::Timeout,
            Ghost(m),
        )
    } else {
        CommandExchange {
            command,
            max_retries,
            timeout_to_retry_ms,
            attempts_failed,
            attempts_started,
            phase: Phase::ClearingOutput { buffer, started_ms },
        }
    }
}

/// Builds the paced transmission units of the framed request: the UTF-8
/// encoding of each character of the command followed by the line separator.
fn frame_units(command: &String) -> (units: Vec<Vec<u8>>)
    ensures
        units.deep_view() == spec_units(command@),
{
    let frame = command.clone().concat("\n");
    proof {
        reveal_strlit("\n");
        assert(frame@ =~= spec_frame(command@));
    }
    let n = frame.as_str().unicode_len();
    let mut units: Vec<Vec<u8>> = Vec::new();
    let mut i: usize = 0;
    while i < n
        invariant
            i <= n,
            n == frame@.len(),
            frame@ == spec_frame(command@),
            units.deep_view() =~= spec_units(command@).take(i as int),
        decreases n - i,
    {
        let unit = frame.as_str().substring_char(i, i + 1).as_bytes_vec();
        let ghost prev_view = units@;
        let ghost prev_deep = units.deep_view();
        let ghost uval = unit;
        let ghost udeep = unit.deep_view();
        proof {
            let c = frame@[i as int];
            assert(frame@.subrange(i as int, i as int + 1) =~= seq![c]);
            assert(seq![c].drop_first() =~= Seq::<char>::empty());
            assert(vstd::utf8::encode_utf8(Seq::<char>::empty()) =~= Seq::<u8>::empty());
            assert(vstd::utf8::encode_utf8(seq![c]) =~= encode_scalar(c as u32));
            assert(udeep =~= unit@);
            assert(udeep == encode_scalar(c as u32));
        }
        units.push(unit);
        proof {
            assert forall|j: int| 0 <= j < i + 1 implies units.deep_view()[j] == spec_units(
                command@,
            ).take(i as int + 1)[j] by {
                assert(prev_deep.len() == i as int);
                assert(prev_view.len() == i as int);
                assert(units@ == prev_view.push(uval));
                if j < i as int {
                    assert(prev_view.push(uval)[j] == prev_view[j]);
                    assert(units.deep_view()[j] == prev_deep[j]);
                } else {
                    assert(prev_view.push(uval)[j] == uval);
                    assert(units.deep_view()[j] == udeep);
                }
            }
            assert(units@ == prev_view.push(uval));
            assert(prev_deep.len() == i as int);
            assert(prev_view.len() == i as int);
            assert(units@.len() == i + 1);
            assert(units.deep_view().len() == i + 1);
            assert(spec_units(command@).len() == n);
            assert(spec_units(command@).take(i as int + 1).len() == i + 1);
            assert(units.deep_view() =~= spec_units(command@).take(i as int + 1));
        }
        i = i + 1;
    }
    proof {
        assert(spec_units(command@).take(n as int) =~= spec_units(command@));
    }
    units
}

} // verus!
