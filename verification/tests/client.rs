//! The protocol client: handshake, discovery, and the typed entry points.

use command_executor::command_executor::{CommandExecutorManager, NamespacedCommandExecutor};
use command_executor::exchange::{Action, CommandExchange, Event};
use command_executor::liveace::{LiVeAceSerialPort, SerialError};
use command_executor::response::Payload;

/// Runs one exchange to completion against a transport that answers every
/// request with `reply` (newline appended).
fn drive_with_reply(mut ex: CommandExchange, reply: &str) -> Result<Payload, SerialError> {
    let mut pending: Option<Vec<u8>> = None;
    loop {
        let event = match ex.pending_action() {
            Action::ClearAllBuffers => {
                pending = None;
                Event::Cleared { outcome: Ok(()) }
            }
            Action::QueryAvailable => {
                let n = pending.as_ref().map_or(0, |c| c.len() as u32);
                Event::Available { outcome: Ok(n), now_ms: 0 }
            }
            Action::ReadDiscard { .. } => {
                pending = None;
                Event::Discarded { outcome: Ok(()) }
            }
            Action::TransmitPaced { .. } => {
                pending = Some(format!("{}\n", reply).into_bytes());
                Event::Transmitted { outcome: Ok(()), now_ms: 0 }
            }
            Action::ReadChunk { .. } => {
                let chunk = pending.take().unwrap_or_default();
                Event::ChunkRead { outcome: Ok(chunk), now_ms: 0 }
            }
            Action::ClearOutput => Event::OutputCleared { outcome: Ok(()) },
            Action::Finish => return ex.into_result(),
        };
        ex = ex.on_event(event);
    }
}

#[test]
fn handshake_exchange_uses_the_discovery_command() {
    let ex = LiVeAceSerialPort::handshake_exchange();
    assert_eq!(ex.command, "listCommands");
    assert_eq!(ex.max_retries, 10);
    assert_eq!(ex.timeout_to_retry_ms, 20000);
}

#[test]
fn handshake_discovers_and_deduplicates_command_sets() {
    let outcome = drive_with_reply(
        LiVeAceSerialPort::handshake_exchange(),
        r#"{"status":"ok","command":"listCommands","response":{"null":["n1","n2","n1"],"boolean":["b1"]}}"#,
    );
    let client = LiVeAceSerialPort::new("SN9".to_string(), outcome).unwrap();
    assert_eq!(client.get_executor_namespace(), "arduino:SN9");
    assert_eq!(
        client.get_null_commands(),
        &vec!["n1".to_string(), "n2".to_string()]
    );
    assert_eq!(client.get_bool_commands(), &vec!["b1".to_string()]);
    assert_eq!(client.max_retries, 10);
    assert_eq!(client.timeout_to_retry_ms, 20000);
}

#[test]
fn handshake_with_empty_lists_yields_a_client_with_no_commands() {
    let client = LiVeAceSerialPort::new(
        "SN0".to_string(),
        Ok(Payload::CommandLists { null_commands: vec![], bool_commands: vec![] }),
    )
    .unwrap();
    assert_eq!(client.get_null_commands(), &Vec::<String>::new());
    assert_eq!(client.get_bool_commands(), &Vec::<String>::new());
    let manager = CommandExecutorManager::new(vec![client.executor_profile()]).unwrap();
    assert_eq!(manager.get_null_commands(), Vec::<String>::new());
}

#[test]
fn handshake_with_wrong_payload_shape_is_malformed() {
    let client = LiVeAceSerialPort::new("SN1".to_string(), Ok(Payload::Bool(true)));
    assert_eq!(client.unwrap_err(), SerialError::MalformedResponse);
    let absent = LiVeAceSerialPort::new("SN1".to_string(), Ok(Payload::Absent));
    assert_eq!(absent.unwrap_err(), SerialError::MalformedResponse);
}

#[test]
fn failed_handshake_never_creates_the_client() {
    let client = LiVeAceSerialPort::new("SN1".to_string(), Err(SerialError::Timeout));
    assert_eq!(client.unwrap_err(), SerialError::Timeout);
}

#[test]
fn handshake_payload_answering_a_command_is_rejected_by_typed_entry_points() {
    let lists = Payload::CommandLists {
        null_commands: vec!["a".to_string()],
        bool_commands: vec![],
    };
    assert_eq!(
        LiVeAceSerialPort::finish_bool_command(Ok(lists)),
        Err(SerialError::MalformedResponse)
    );
}

#[test]
fn begin_command_uses_the_client_configuration() {
    let client = LiVeAceSerialPort::new(
        "SN2".to_string(),
        Ok(Payload::CommandLists { null_commands: vec!["go".to_string()], bool_commands: vec![] }),
    )
    .unwrap();
    let ex = client.begin_command("go");
    assert_eq!(ex.command, "go");
    assert_eq!(ex.max_retries, 10);
    assert_eq!(ex.timeout_to_retry_ms, 20000);
    assert_eq!(ex.attempts_started, 1);
}

#[test]
fn discovered_client_registers_and_dispatches_through_the_manager() {
    let outcome = drive_with_reply(
        LiVeAceSerialPort::handshake_exchange(),
        r#"{"status":"ok","command":"listCommands","response":{"null":["vend"],"boolean":["isEmpty"]}}"#,
    );
    let client = LiVeAceSerialPort::new("B7".to_string(), outcome).unwrap();
    let manager = CommandExecutorManager::new(vec![client.executor_profile()]).unwrap();
    assert_eq!(manager.get_null_commands(), vec!["arduino:B7:vend".to_string()]);
    assert_eq!(manager.get_bool_commands(), vec!["arduino:B7:isEmpty".to_string()]);
    let (namespace, subcommand) =
        manager.execute_bool_command(&"arduino:B7:isEmpty".to_string()).unwrap();
    assert_eq!(namespace, "arduino:B7");
    assert_eq!(subcommand, "isEmpty");
    let outcome = drive_with_reply(
        client.begin_command(&subcommand),
        r#"{"status":"ok","command":"isEmpty","response":false}"#,
    );
    assert_eq!(LiVeAceSerialPort::finish_bool_command(outcome), Ok(false));
}
