//! The line-framed exchange against simulated transports.

use command_executor::exchange::{Action, CommandExchange, Event};
use command_executor::liveace::{LiVeAceSerialPort, SerialError};
use command_executor::response::Payload;

/// One newline-terminated chunk.
fn line(text: &str) -> Vec<u8> {
    format!("{}\n", text).into_bytes()
}

/// Drives an exchange against a simulated transport. After every
/// transmission the transport holds `reply_chunks`, handed over one chunk
/// per poll round; the clock advances by `clock_step_ms` at every
/// output-clear. Returns the exchange's result and how many times the
/// request was transmitted.
fn drive(
    mut ex: CommandExchange,
    reply_chunks: &[Vec<u8>],
    clock_step_ms: u64,
) -> (Result<Payload, SerialError>, u64) {
    let mut now: u64 = 0;
    let mut transmits: u64 = 0;
    let mut pending: Vec<Vec<u8>> = Vec::new();
    loop {
        let event = match ex.pending_action() {
            Action::ClearAllBuffers => {
                pending.clear();
                Event::Cleared { outcome: Ok(()) }
            }
            Action::QueryAvailable => {
                let n = pending.first().map_or(0, |c| c.len() as u32);
                Event::Available { outcome: Ok(n), now_ms: now }
            }
            Action::ReadDiscard { .. } => {
                pending.remove(0);
                Event::Discarded { outcome: Ok(()) }
            }
            Action::TransmitPaced { .. } => {
                transmits += 1;
                pending = reply_chunks.to_vec();
                Event::Transmitted { outcome: Ok(()), now_ms: now }
            }
            Action::ReadChunk { .. } => {
                let chunk = if pending.is_empty() { Vec::new() } else { pending.remove(0) };
                Event::ChunkRead { outcome: Ok(chunk), now_ms: now }
            }
            Action::ClearOutput => {
                now += clock_step_ms;
                Event::OutputCleared { outcome: Ok(()) }
            }
            Action::Finish => return (ex.into_result(), transmits),
        };
        ex = ex.on_event(event);
    }
}

#[test]
fn bool_reply_answers_bool_entry_point() {
    let ex = CommandExchange::new("X".to_string(), 10, 20000);
    let (outcome, transmits) =
        drive(ex, &[line(r#"{"status":"ok","command":"X","response":true}"#)], 1);
    assert_eq!(outcome, Ok(Payload::Bool(true)));
    assert_eq!(transmits, 1);
    assert_eq!(
        LiVeAceSerialPort::finish_bool_command(Ok(Payload::Bool(true))),
        Ok(true)
    );
}

#[test]
fn bool_reply_fails_null_entry_point() {
    assert_eq!(
        LiVeAceSerialPort::finish_null_command(Ok(Payload::Bool(true))),
        Err(SerialError::MalformedResponse)
    );
}

#[test]
fn absent_payload_answers_null_entry_point() {
    let ex = CommandExchange::new("go".to_string(), 2, 1000);
    let (outcome, _) = drive(ex, &[line(r#"{"status":"ok","command":"go"}"#)], 1);
    assert_eq!(outcome, Ok(Payload::Absent));
    assert_eq!(LiVeAceSerialPort::finish_null_command(Ok(Payload::Absent)), Ok(()));
    assert_eq!(
        LiVeAceSerialPort::finish_bool_command(Ok(Payload::Absent)),
        Err(SerialError::MalformedResponse)
    );
}

#[test]
fn explicit_null_payload_counts_as_absent() {
    let ex = CommandExchange::new("go".to_string(), 0, 1000);
    let (outcome, _) = drive(ex, &[line(r#"{"status":"ok","command":"go","response":null}"#)], 1);
    assert_eq!(outcome, Ok(Payload::Absent));
}

#[test]
fn silent_transport_times_out_after_last_attempt() {
    let ex = CommandExchange::new("X".to_string(), 3, 1000);
    let (outcome, transmits) = drive(ex, &[], 600);
    assert_eq!(outcome, Err(SerialError::Timeout));
    assert_eq!(transmits, 4);
}

#[test]
fn error_status_fails_attempt_and_retries_per_policy() {
    let ex = CommandExchange::new("X".to_string(), 2, 1000);
    let (outcome, transmits) =
        drive(ex, &[line(r#"{"status":"error","command":"X"}"#)], 1);
    assert_eq!(outcome, Err(SerialError::NonOkStatus));
    assert_eq!(transmits, 3);
}

#[test]
fn unrelated_ok_line_is_skipped_before_the_match() {
    let ex = CommandExchange::new("X".to_string(), 0, 1000);
    let mut chunk = line(r#"{"status":"ok","command":"other"}"#);
    chunk.extend_from_slice(&line(r#"{"status":"ok","command":"X","response":false}"#));
    let (outcome, _) = drive(ex, &[chunk], 1);
    assert_eq!(outcome, Ok(Payload::Bool(false)));
}

#[test]
fn unrelated_ok_line_alone_poisons_the_attempt() {
    // The scan also visits the empty segment after the final separator,
    // which fails to decode: one unrelated line ends the whole attempt.
    let ex = CommandExchange::new("X".to_string(), 1, 1000);
    let (outcome, transmits) = drive(ex, &[line(r#"{"status":"ok","command":"zzz"}"#)], 1);
    assert_eq!(outcome, Err(SerialError::MalformedResponse));
    assert_eq!(transmits, 2);
}

#[test]
fn garbled_line_is_malformed() {
    let ex = CommandExchange::new("X".to_string(), 0, 1000);
    let (outcome, _) = drive(ex, &[line("garbage")], 1);
    assert_eq!(outcome, Err(SerialError::MalformedResponse));
}

#[test]
fn invalid_utf8_chunk_is_discarded_whole() {
    let ex = CommandExchange::new("X".to_string(), 0, 1000);
    let chunks = [
        vec![0xff, 0xfe, 0x80],
        line(r#"{"status":"ok","command":"X","response":true}"#),
    ];
    let (outcome, _) = drive(ex, &chunks, 1);
    assert_eq!(outcome, Ok(Payload::Bool(true)));
}

#[test]
fn stale_pending_bytes_are_drained_before_transmitting() {
    let mut ex = CommandExchange::new("X".to_string(), 0, 1000);
    ex = ex.on_event(Event::Cleared { outcome: Ok(()) });
    assert_eq!(ex.pending_action(), Action::QueryAvailable);
    ex = ex.on_event(Event::Available { outcome: Ok(7), now_ms: 0 });
    assert_eq!(ex.pending_action(), Action::ReadDiscard { count: 7 });
    ex = ex.on_event(Event::Discarded { outcome: Ok(()) });
    assert!(matches!(ex.pending_action(), Action::TransmitPaced { .. }));
}

#[test]
fn request_is_framed_one_character_at_a_time() {
    let mut ex = CommandExchange::new("hé".to_string(), 0, 1000);
    ex = ex.on_event(Event::Cleared { outcome: Ok(()) });
    ex = ex.on_event(Event::Available { outcome: Ok(0), now_ms: 0 });
    match ex.pending_action() {
        Action::TransmitPaced { units } => {
            assert_eq!(units, vec![b"h".to_vec(), vec![0xc3, 0xa9], b"\n".to_vec()]);
        }
        other => panic!("expected a transmission, got {:?}", other),
    }
}

#[test]
fn write_failure_is_an_io_error() {
    let mut ex = CommandExchange::new("X".to_string(), 0, 1000);
    ex = ex.on_event(Event::Cleared { outcome: Ok(()) });
    ex = ex.on_event(Event::Available { outcome: Ok(0), now_ms: 0 });
    ex = ex.on_event(Event::Transmitted { outcome: Err("wedged".to_string()), now_ms: 0 });
    assert!(ex.is_done());
    assert_eq!(ex.into_result(), Err(SerialError::IoError("wedged".to_string())));
}

#[test]
fn clear_failure_is_a_serial_port_error() {
    let mut ex = CommandExchange::new("X".to_string(), 0, 1000);
    ex = ex.on_event(Event::Cleared { outcome: Err("gone".to_string()) });
    assert!(ex.is_done());
    assert_eq!(
        ex.into_result(),
        Err(SerialError::SerialPortError("gone".to_string()))
    );
}

#[test]
fn read_failure_is_ignored_and_polling_continues() {
    let mut ex = CommandExchange::new("X".to_string(), 0, 1000);
    ex = ex.on_event(Event::Cleared { outcome: Ok(()) });
    ex = ex.on_event(Event::Available { outcome: Ok(0), now_ms: 0 });
    ex = ex.on_event(Event::Transmitted { outcome: Ok(()), now_ms: 0 });
    ex = ex.on_event(Event::Available { outcome: Ok(5), now_ms: 1 });
    ex = ex.on_event(Event::ChunkRead { outcome: Err("hiccup".to_string()), now_ms: 1 });
    assert!(!ex.is_done());
    assert_eq!(ex.pending_action(), Action::ClearOutput);
}

#[test]
fn object_payload_answers_no_typed_entry_point() {
    let ex = CommandExchange::new("X".to_string(), 0, 1000);
    let (outcome, _) = drive(ex, &[line(r#"{"status":"ok","command":"X","response":{"weird":1}}"#)], 1);
    assert_eq!(outcome, Ok(Payload::Other));
    assert_eq!(
        LiVeAceSerialPort::finish_bool_command(Ok(Payload::Other)),
        Err(SerialError::MalformedResponse)
    );
    assert_eq!(
        LiVeAceSerialPort::finish_null_command(Ok(Payload::Other)),
        Err(SerialError::MalformedResponse)
    );
}

#[test]
fn timeout_is_strictly_greater_than_the_limit() {
    let mut ex = CommandExchange::new("X".to_string(), 0, 1000);
    ex = ex.on_event(Event::Cleared { outcome: Ok(()) });
    ex = ex.on_event(Event::Available { outcome: Ok(0), now_ms: 0 });
    ex = ex.on_event(Event::Transmitted { outcome: Ok(()), now_ms: 0 });
    ex = ex.on_event(Event::Available { outcome: Ok(0), now_ms: 1000 });
    assert!(!ex.is_done());
    ex = ex.on_event(Event::OutputCleared { outcome: Ok(()) });
    ex = ex.on_event(Event::Available { outcome: Ok(0), now_ms: 1001 });
    assert!(ex.is_done());
    assert_eq!(ex.into_result(), Err(SerialError::Timeout));
}

#[test]
fn clock_running_backwards_counts_as_no_time_passed() {
    let mut ex = CommandExchange::new("X".to_string(), 0, 1000);
    ex = ex.on_event(Event::Cleared { outcome: Ok(()) });
    ex = ex.on_event(Event::Available { outcome: Ok(0), now_ms: 100 });
    ex = ex.on_event(Event::Transmitted { outcome: Ok(()), now_ms: 100 });
    ex = ex.on_event(Event::Available { outcome: Ok(0), now_ms: 0 });
    assert!(!ex.is_done());
}

#[test]
fn retry_counters_track_attempts() {
    let mut ex = CommandExchange::new("X".to_string(), 5, 1000);
    assert_eq!(ex.attempts_started, 1);
    assert_eq!(ex.attempts_failed, 0);
    ex = ex.on_event(Event::Cleared { outcome: Err("x".to_string()) });
    assert_eq!(ex.attempts_started, 2);
    assert_eq!(ex.attempts_failed, 1);
    assert_eq!(ex.pending_action(), Action::ClearAllBuffers);
}
