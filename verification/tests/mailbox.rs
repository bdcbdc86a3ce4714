use tee_core::events::LogEvent;
use tee_core::shared_mem_com::SharedMemCommunicator;
use tee_core::shared_mem_com::TeeCommand;
use tee_core::task_id::TaskId;

fn mailbox(bytes: Vec<u8>) -> SharedMemCommunicator {
    SharedMemCommunicator::from_raw_parts(bytes)
}

#[test]
fn tee_command_round_trip_for_every_canonical_value() {
    let values = [
        TeeCommand::NoCommand,
        TeeCommand::TeeReady,
        TeeCommand::TeeSend,
        TeeCommand::HostSend,
        TeeCommand::Unknown(0x55),
        TeeCommand::Unknown(0xff),
    ];
    for v in values {
        assert_eq!(TeeCommand::from_byte(v.to_byte()), v);
    }
}

#[test]
fn tee_command_byte_round_trip_is_lossless_for_every_byte() {
    for b in 0..=255u8 {
        assert_eq!(TeeCommand::from_byte(b).to_byte(), b);
    }
}

#[test]
fn tee_command_decodes_named_codes() {
    assert_eq!(TeeCommand::from_byte(0x00), TeeCommand::NoCommand);
    assert_eq!(TeeCommand::from_byte(0x01), TeeCommand::TeeReady);
    assert_eq!(TeeCommand::from_byte(0x02), TeeCommand::TeeSend);
    assert_eq!(TeeCommand::from_byte(0x11), TeeCommand::HostSend);
    assert_eq!(TeeCommand::from_byte(0x42), TeeCommand::Unknown(0x42));
}

#[test]
fn task_id_round_trip_for_every_value() {
    let values = [
        TaskId::Ping,
        TaskId::AttackReadMem,
        TaskId::AttackWriteMem,
        TaskId::AttackNopMem,
        TaskId::AttackIpi,
        TaskId::Unknown,
    ];
    for v in values {
        assert_eq!(TaskId::from_byte(v.to_byte()), v);
    }
}

#[test]
fn task_id_collapses_unrecognized_bytes() {
    assert_eq!(TaskId::from_byte(0x01), TaskId::Ping);
    assert_eq!(TaskId::from_byte(0x02), TaskId::AttackReadMem);
    assert_eq!(TaskId::from_byte(0x03), TaskId::AttackWriteMem);
    assert_eq!(TaskId::from_byte(0x04), TaskId::AttackNopMem);
    assert_eq!(TaskId::from_byte(0x05), TaskId::AttackIpi);
    assert_eq!(TaskId::from_byte(0x07), TaskId::Unknown);
    assert_eq!(TaskId::from_byte(0xfe), TaskId::Unknown);
    // The collapse is lossy: every unrecognized byte re-encodes as 0xff.
    assert_eq!(TaskId::from_byte(0x07).to_byte(), 0xff);
}

#[test]
fn status_and_task_header_bytes() {
    let mut m = mailbox(vec![0u8; 16]);
    assert_eq!(m.get_status(), TeeCommand::NoCommand);
    assert_eq!(m.get_task(), TaskId::Unknown);
    m.set_status(TeeCommand::TeeReady);
    m.set_task(TaskId::Ping);
    assert_eq!(m.get_status(), TeeCommand::TeeReady);
    assert_eq!(m.get_task(), TaskId::Ping);
    m.write_status(0x42);
    assert_eq!(m.get_status(), TeeCommand::Unknown(0x42));
}

#[test]
fn write_mem_at_length_minus_two_copies_exactly_two_bytes() {
    let len = 16usize;
    let mut m = mailbox(vec![0u8; 16]);
    m.write_mem(&[1, 2, 3, 4, 5], len - 2);
    // Region bytes len-2 and len-1 are payload bytes len-4 and len-3.
    assert_eq!(m.get_payload_byte(len - 4), 1);
    assert_eq!(m.get_payload_byte(len - 3), 2);
    // Nothing before the clamped window was touched.
    assert_eq!(m.get_payload_byte(len - 5), 0);
}

#[test]
fn write_mem_at_or_past_the_end_copies_nothing() {
    let mut m = mailbox(vec![0u8; 16]);
    m.write_mem(&[1, 2, 3, 4, 5], 16);
    m.write_mem(&[1, 2, 3, 4, 5], 100);
    for i in 0..14 {
        assert_eq!(m.get_payload_byte(i), 0);
    }
    assert_eq!(m.get_status(), TeeCommand::NoCommand);
    assert_eq!(m.get_task(), TaskId::Unknown);
}

#[test]
fn write_mem_clamps_to_the_region() {
    let mut m = mailbox(vec![0u8; 8]);
    m.write_mem(&[9, 8, 7], 0);
    assert_eq!(m.get_status(), TeeCommand::Unknown(9));
    assert_eq!(m.get_task(), TaskId::Unknown);
    assert_eq!(m.get_payload_byte(0), 7);
    assert_eq!(m.get_payload_byte(1), 0);
}

#[test]
fn payload_u64_round_trips_little_endian() {
    let mut m = mailbox(vec![0u8; 16]);
    m.write_payload_u64(2, 0x0123_4567_89ab_cdef);
    assert_eq!(m.read_payload_u64(2), 0x0123_4567_89ab_cdef);
    // Little-endian: the low byte comes first.
    assert_eq!(m.get_payload_byte(2), 0xef);
    assert_eq!(m.get_payload_byte(9), 0x01);
}

#[test]
fn payload_len_excludes_the_header() {
    let m = mailbox(vec![0u8; 16]);
    assert_eq!(m.size(), 16);
    assert_eq!(m.payload_len(), 14);
}

#[test]
fn idle_is_logged_exactly_once_per_streak() {
    let mut m = mailbox(vec![0u8; 16]);
    let mut events: Vec<LogEvent> = Vec::new();
    // Repeated observations of the idle status log the idle line once.
    for _ in 0..5 {
        assert!(!m.poll(&mut events));
    }
    assert_eq!(events, vec![LogEvent::Idle]);
    // Only the host's send status ends the wait and resets the streak.
    m.write_status(0x11);
    assert!(m.poll(&mut events));
    m.write_status(0x00);
    assert!(!m.poll(&mut events));
    assert!(!m.poll(&mut events));
    assert_eq!(
        events,
        vec![LogEvent::Idle, LogEvent::MessageReceived, LogEvent::Idle]
    );
}

#[test]
fn idle_suppression_survives_other_non_host_statuses() {
    // Only the host's send clears the suppression flag; a pass that sees
    // this side's own status leaves it armed.
    let mut m = mailbox(vec![0u8; 16]);
    let mut events: Vec<LogEvent> = Vec::new();
    assert!(!m.poll(&mut events));
    m.write_status(0x01);
    assert!(!m.poll(&mut events));
    m.write_status(0x00);
    assert!(!m.poll(&mut events));
    assert_eq!(events, vec![LogEvent::Idle, LogEvent::WaitingForResponse]);
}

#[test]
fn poll_logs_waiting_on_every_own_status_pass() {
    let mut m = mailbox(vec![0u8; 16]);
    let mut events: Vec<LogEvent> = Vec::new();
    m.write_status(0x01);
    assert!(!m.poll(&mut events));
    assert!(!m.poll(&mut events));
    m.write_status(0x02);
    assert!(!m.poll(&mut events));
    assert_eq!(
        events,
        vec![
            LogEvent::WaitingForResponse,
            LogEvent::WaitingForResponse,
            LogEvent::WaitingForResponse
        ]
    );
}

#[test]
fn poll_reports_unknown_status_bytes() {
    let mut m = mailbox(vec![0u8; 16]);
    let mut events: Vec<LogEvent> = Vec::new();
    m.write_status(0x7f);
    assert!(!m.poll(&mut events));
    assert_eq!(events, vec![LogEvent::UnknownStatus(0x7f)]);
}

#[test]
fn poll_returns_only_on_host_send() {
    let mut m = mailbox(vec![0u8; 16]);
    let mut events: Vec<LogEvent> = Vec::new();
    m.write_status(0x11);
    assert!(m.poll(&mut events));
    assert_eq!(events, vec![LogEvent::MessageReceived]);
}
