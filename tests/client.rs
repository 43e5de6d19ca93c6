use rusttcpclient::command::{parse_command, classify_trimmed, Command};
use rusttcpclient::poller::{poll_report, PollReport, SocketRead, RECEIVE_BUFFER_SIZE};
use rusttcpclient::producer::{producer_step, ConsoleRead, ProducerStep, CHUNK_SIZE};
use rusttcpclient::session::{greeting_bytes, Client, Effect, Phase, QueuePoll};

fn item(s: &str) -> QueuePoll {
    QueuePoll::Item(s.to_string())
}

#[test]
fn greet_writes_hello() {
    let mut c = Client::new();
    let e = c.dispatch(item("H"));
    assert_eq!(e, Effect::Send(b"Hello!".to_vec()));
    match e {
        Effect::Send(b) => assert_eq!(b.len(), 6),
        _ => panic!("expected a write"),
    }
    assert!(c.is_running());
}

#[test]
fn disconnect_then_greet_still_attempts_write() {
    let mut c = Client::new();
    assert_eq!(c.dispatch(item("D")), Effect::Shutdown);
    assert!(c.is_running());
    assert_eq!(c.dispatch(item("H")), Effect::Send(b"Hello!".to_vec()));
    assert!(c.is_running());
}

#[test]
fn five_empty_polls_stay_quiet() {
    let c = Client::new();
    let buf = [0u8; RECEIVE_BUFFER_SIZE];
    for _ in 0..5 {
        assert_eq!(c.poll(SocketRead::WouldBlock, &buf), PollReport::Quiet);
        assert!(c.is_running());
    }
}

#[test]
fn ten_bytes_of_text_are_shown_once() {
    let c = Client::new();
    let mut buf = [0xffu8; RECEIVE_BUFFER_SIZE];
    buf[..10].copy_from_slice(b"0123456789");
    let r = c.poll(SocketRead::Bytes(10), &buf);
    assert_eq!(r, PollReport::Received { count: 10, text: "0123456789".to_string() });
}

#[test]
fn disconnected_queue_aborts() {
    let mut c = Client::new();
    assert_eq!(c.dispatch(QueuePoll::Disconnected), Effect::Abort);
    assert!(!c.is_running());
    assert_eq!(c.phase(), Phase::Aborted);
}

#[test]
fn quit_stops_the_loop() {
    let mut c = Client::new();
    assert_eq!(c.dispatch(item("Q\n")), Effect::Stop);
    assert!(!c.is_running());
    assert_eq!(c.phase(), Phase::Terminated);
}

#[test]
fn empty_queue_is_idle() {
    let mut c = Client::new();
    assert_eq!(c.dispatch(QueuePoll::Empty), Effect::Idle);
    assert!(c.is_running());
}

#[test]
fn unrecognized_input_is_reported_trimmed() {
    let mut c = Client::new();
    assert_eq!(c.dispatch(item("  xyz \n")), Effect::Unrecognized("xyz".to_string()));
    assert!(c.is_running());
    assert_eq!(c.phase(), Phase::Running);
}

#[test]
fn commands_are_case_sensitive_and_single_character() {
    assert_eq!(parse_command("h"), Command::Unrecognized("h".to_string()));
    assert_eq!(parse_command("HH"), Command::Unrecognized("HH".to_string()));
    assert_eq!(parse_command(""), Command::Unrecognized(String::new()));
    assert_eq!(parse_command(" \t\n"), Command::Unrecognized(String::new()));
}

#[test]
fn every_code_is_recognized_after_trimming() {
    assert_eq!(parse_command("Q"), Command::Quit);
    assert_eq!(parse_command(" H\r\n"), Command::Greet);
    assert_eq!(parse_command("\tD "), Command::Disconnect);
    assert_eq!(parse_command("S\n"), Command::SendCustom);
    assert_eq!(parse_command("\u{3000}S\u{a0}"), Command::SendCustom);
}

#[test]
fn classify_does_not_trim() {
    assert_eq!(classify_trimmed("H"), Command::Greet);
    assert_eq!(classify_trimmed(" H"), Command::Unrecognized(" H".to_string()));
}

#[test]
fn send_custom_reads_one_line_then_writes_it() {
    let mut c = Client::new();
    assert_eq!(c.dispatch(item("S\n")), Effect::ReadLine);
    assert!(!c.is_running());
    assert_eq!(c.phase(), Phase::AwaitingLine);
    let e = c.custom_line(Some("héllo\n".to_string()));
    assert_eq!(e, Effect::Send("héllo\n".as_bytes().to_vec()));
    assert!(c.is_running());
}

#[test]
fn send_custom_read_failure_is_reported() {
    let mut c = Client::new();
    assert_eq!(c.dispatch(item("S")), Effect::ReadLine);
    assert_eq!(c.custom_line(None), Effect::LineReadFailed);
    assert!(c.is_running());
}

#[test]
fn commands_apply_in_queue_order() {
    let mut c = Client::new();
    let polls = vec![item("H"), QueuePoll::Empty, item("x"), item("D"), item("H")];
    let mut effects = Vec::new();
    for p in polls {
        effects.push(c.dispatch(p));
    }
    assert_eq!(
        effects,
        vec![
            Effect::Send(b"Hello!".to_vec()),
            Effect::Idle,
            Effect::Unrecognized("x".to_string()),
            Effect::Shutdown,
            Effect::Send(b"Hello!".to_vec()),
        ]
    );
}

#[test]
fn greeting_is_hello() {
    assert_eq!(greeting_bytes(), b"Hello!".to_vec());
}

#[test]
fn poll_read_error_is_reported() {
    let buf = [0u8; RECEIVE_BUFFER_SIZE];
    assert_eq!(poll_report(SocketRead::Failed, &buf), PollReport::ReadError);
}

#[test]
fn poll_invalid_utf8_is_undecodable() {
    let mut buf = [0u8; RECEIVE_BUFFER_SIZE];
    buf[0] = b'a';
    buf[1] = 0xc3;
    assert_eq!(poll_report(SocketRead::Bytes(2), &buf), PollReport::Undecodable { count: 2 });
    assert_eq!(
        poll_report(SocketRead::Bytes(1), &buf),
        PollReport::Received { count: 1, text: "a".to_string() }
    );
}

#[test]
fn poll_of_zero_bytes_shows_empty_text() {
    let buf = [0xffu8; RECEIVE_BUFFER_SIZE];
    assert_eq!(
        poll_report(SocketRead::Bytes(0), &buf),
        PollReport::Received { count: 0, text: String::new() }
    );
}

#[test]
fn producer_pushes_decoded_chunk() {
    let mut chunk = [0xffu8; CHUNK_SIZE];
    chunk[..2].copy_from_slice(b"H\n");
    assert_eq!(
        producer_step(ConsoleRead::Bytes(2), &chunk),
        ProducerStep::Push("H\n".to_string())
    );
}

#[test]
fn producer_retries_on_empty_read() {
    let chunk = [0u8; CHUNK_SIZE];
    assert_eq!(producer_step(ConsoleRead::Bytes(0), &chunk), ProducerStep::Retry);
}

#[test]
fn producer_reports_decode_and_read_failures() {
    let mut chunk = [0u8; CHUNK_SIZE];
    chunk[0] = 0xe2;
    chunk[1] = 0x82;
    assert_eq!(producer_step(ConsoleRead::Bytes(2), &chunk), ProducerStep::DecodeFailed);
    assert_eq!(producer_step(ConsoleRead::Failed, &chunk), ProducerStep::ReadFailed);
}

#[test]
fn producer_full_chunk() {
    let chunk = *b"0123456789abcdef";
    assert_eq!(
        producer_step(ConsoleRead::Bytes(CHUNK_SIZE), &chunk),
        ProducerStep::Push("0123456789abcdef".to_string())
    );
}
