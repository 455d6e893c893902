use exec_agent::dispatch::{Invocation, Staging};
use exec_agent::exchange::{Action, Event, Exchange, Phase};
use exec_agent::message::{decode_result, ExecutionResult};

fn payload(language: &str, code: &str, filename: &str) -> Vec<u8> {
    format!(
        "{{\"language\":{:?},\"code\":{:?},\"filename\":{:?}}}",
        language, code, filename
    )
    .into_bytes()
}

fn expect_stage(action: Action) -> Staging {
    match action {
        Action::Stage(staging) => staging,
        other => panic!("expected a staging, got {:?}", other),
    }
}

fn expect_launch(action: Action) -> Invocation {
    match action {
        Action::Launch(invocation) => invocation,
        other => panic!("expected a launch, got {:?}", other),
    }
}

fn expect_send(action: Action) -> Vec<u8> {
    match action {
        Action::Send(bytes) => bytes,
        other => panic!("expected a send, got {:?}", other),
    }
}

fn exited(exit_code: Option<i32>, stdout: &[u8], stderr: &[u8]) -> Event {
    Event::Exited { exit_code, stdout: stdout.to_vec(), stderr: stderr.to_vec() }
}

fn sent_result(bytes: &[u8]) -> ExecutionResult {
    decode_result(std::str::from_utf8(bytes).unwrap()).unwrap()
}

#[test]
fn an_exchange_starts_by_reading() {
    let (exchange, action) = Exchange::start();
    assert!(matches!(action, Action::Receive));
    assert_eq!(exchange.phase(), Phase::Framing);
    assert!(!exchange.is_over());
    assert!(exchange.received().is_empty());
}

#[test]
fn a_python_request_runs_and_is_answered() {
    let (mut exchange, _) = Exchange::start();
    let staging = expect_stage(exchange.step(Event::Received(payload("python", "print('hi')", "t.py"))));
    assert_eq!(exchange.phase(), Phase::Staging);
    assert_eq!(staging.path, "/tmp/t.py");
    assert_eq!(staging.contents, "print('hi')");
    assert_eq!(staging.mode, 0o755);

    let invocation = expect_launch(exchange.step(Event::Staged));
    assert_eq!(exchange.phase(), Phase::Running);
    assert_eq!(invocation.program, "python3");
    assert_eq!(invocation.arguments, vec!["/tmp/t.py".to_string()]);

    let bytes = expect_send(exchange.step(exited(Some(0), b"hi\n", b"")));
    assert_eq!(exchange.phase(), Phase::Sending);
    assert_eq!(
        String::from_utf8(bytes.clone()).unwrap(),
        "{\"success\":true,\"stdout\":\"hi\\n\",\"stderr\":\"\",\"exitCode\":0}"
    );

    assert!(matches!(exchange.step(Event::Sent(bytes.len())), Action::Close));
    assert_eq!(exchange.phase(), Phase::Answered);
    assert!(exchange.is_over());
}

#[test]
fn a_c_program_that_returns_three_is_reported_as_failed() {
    let (mut exchange, _) = Exchange::start();
    let staging =
        expect_stage(exchange.step(Event::Received(payload("c", "int main(){return 3;}", "t.c"))));
    assert_eq!(staging.path, "/tmp/t.c");
    assert_eq!(staging.contents, "int main(){return 3;}");
    let invocation = expect_launch(exchange.step(Event::Staged));
    assert_eq!(invocation.program, "sh");
    assert_eq!(
        invocation.arguments,
        vec!["-c".to_string(), "cd /tmp && gcc t.c -o program && ./program".to_string()]
    );
    let bytes = expect_send(exchange.step(exited(Some(3), b"", b"")));
    let result = sent_result(&bytes);
    assert!(!result.success);
    assert_eq!(result.exit_code, 3);
    assert_eq!(
        String::from_utf8(bytes).unwrap(),
        "{\"success\":false,\"stdout\":\"\",\"stderr\":\"\",\"exitCode\":3}"
    );
}

#[test]
fn two_requests_of_one_name_each_get_their_own_result() {
    let mut answers = Vec::new();
    for (code, output) in [("print(1)", "1\n"), ("print(2)", "2\n")] {
        let (mut exchange, _) = Exchange::start();
        let staging = expect_stage(exchange.step(Event::Received(payload("python", code, "same.py"))));
        assert_eq!(staging.path, "/tmp/same.py");
        assert_eq!(staging.contents, code);
        expect_launch(exchange.step(Event::Staged));
        let bytes = expect_send(exchange.step(exited(Some(0), output.as_bytes(), b"")));
        answers.push(sent_result(&bytes).stdout);
    }
    assert_eq!(answers, vec!["1\n".to_string(), "2\n".to_string()]);
}

#[test]
fn a_request_in_several_reads_is_put_together() {
    let bytes = payload("python", "d={}\nprint(d)", "a.py");
    let cut = bytes.len() / 2;
    let (mut exchange, _) = Exchange::start();
    assert!(matches!(exchange.step(Event::Received(bytes[..cut].to_vec())), Action::Receive));
    assert_eq!(exchange.phase(), Phase::Framing);
    assert_eq!(exchange.received(), &bytes[..cut]);
    let staging = expect_stage(exchange.step(Event::Received(bytes[cut..].to_vec())));
    assert_eq!(exchange.received(), &bytes[..]);
    assert_eq!(staging.contents, "d={}\nprint(d)");
    assert_eq!(staging.path, "/tmp/a.py");
}

#[test]
fn the_regression_payload_is_read_in_full_before_dispatch() {
    let wire = "{\"language\":\"python\",\"code\":\"d={}\\nprint(d)\",\"filename\":\"a.py\"}";
    let (mut exchange, _) = Exchange::start();
    let staging = expect_stage(exchange.step(Event::Received(wire.as_bytes().to_vec())));
    assert_eq!(exchange.received(), wire.as_bytes());
    assert_eq!(staging.contents, "d={}\nprint(d)");
}

#[test]
fn an_unsupported_language_is_answered_with_the_rejection() {
    let (mut exchange, _) = Exchange::start();
    let staging = expect_stage(exchange.step(Event::Received(payload("cobol", "DISPLAY 1.", "a.cob"))));
    assert_eq!(staging.path, "/tmp/a.cob");
    let bytes = expect_send(exchange.step(Event::Staged));
    assert_eq!(exchange.phase(), Phase::Sending);
    assert_eq!(
        String::from_utf8(bytes.clone()).unwrap(),
        "{\"success\":false,\"stdout\":\"\",\"stderr\":\"Unsupported language\",\"exitCode\":-1}"
    );
    assert!(matches!(exchange.step(Event::Sent(bytes.len())), Action::Close));
    assert_eq!(exchange.phase(), Phase::Answered);
}

#[test]
fn an_unsupported_language_gets_the_same_answer_every_time() {
    let mut answers = Vec::new();
    for _ in 0..3 {
        let (mut exchange, _) = Exchange::start();
        expect_stage(exchange.step(Event::Received(payload("Python", "x", "f"))));
        answers.push(expect_send(exchange.step(Event::Staged)));
    }
    assert_eq!(answers[0], answers[1]);
    assert_eq!(answers[1], answers[2]);
}

#[test]
fn a_malformed_payload_is_answered_with_a_parse_failure() {
    for wire in [
        "{\"language\":\"python\",\"code\":\"x\"}",
        "{\"language\":\"python\",\"code\":7,\"filename\":\"t.py\"}",
        "{\"language\":\"python\",\"code\":\"x\",\"filename\":\"t.py\"}}",
        "x}",
    ] {
        let (mut exchange, _) = Exchange::start();
        let bytes = expect_send(exchange.step(Event::Received(wire.as_bytes().to_vec())));
        assert_eq!(exchange.phase(), Phase::Sending);
        let result = sent_result(&bytes);
        assert!(!result.success, "{}", wire);
        assert_eq!(result.stdout, "");
        assert!(result.stderr.starts_with("Failed to parse request: "), "{}", result.stderr);
        assert!(result.stderr.len() > "Failed to parse request: ".len());
        assert_eq!(result.exit_code, -1);
    }
}

#[test]
fn a_truncated_payload_is_answered_when_the_peer_closes() {
    let (mut exchange, _) = Exchange::start();
    let part = b"{\"language\":\"python\",\"code\":\"print(".to_vec();
    assert!(matches!(exchange.step(Event::Received(part)), Action::Receive));
    let bytes = expect_send(exchange.step(Event::Received(Vec::new())));
    let result = sent_result(&bytes);
    assert!(!result.success);
    assert_eq!(result.stdout, "");
    assert!(result.stderr.starts_with("Failed to parse request: "));
    assert_eq!(result.exit_code, -1);
}

#[test]
fn a_missing_member_is_named_in_the_answer() {
    let (mut exchange, _) = Exchange::start();
    let bytes = expect_send(exchange.step(Event::Received(b"{\"language\":\"c\"}".to_vec())));
    assert_eq!(
        String::from_utf8(bytes).unwrap(),
        "{\"success\":false,\"stdout\":\"\",\"stderr\":\"Failed to parse request: missing field `code`\",\"exitCode\":-1}"
    );
}

#[test]
fn a_payload_that_is_not_utf8_is_decoded_lossily_and_answered() {
    let mut wire = b"{\"language\":\"python\",\"code\":\"".to_vec();
    wire.push(0xFF);
    wire.extend_from_slice(b"\",\"filename\":\"t.py\"}");
    let (mut exchange, _) = Exchange::start();
    assert!(matches!(exchange.step(Event::Received(wire)), Action::Receive));
    let staging = expect_stage(exchange.step(Event::Received(Vec::new())));
    assert_eq!(staging.contents, "\u{FFFD}");
}

#[test]
fn a_toolchain_that_does_not_start_is_answered() {
    let (mut exchange, _) = Exchange::start();
    expect_stage(exchange.step(Event::Received(payload("python", "x", "t.py"))));
    expect_launch(exchange.step(Event::Staged));
    let bytes = expect_send(exchange.step(Event::LaunchFailed("not found".to_string())));
    assert_eq!(
        sent_result(&bytes),
        ExecutionResult {
            success: false,
            stdout: String::new(),
            stderr: "Failed to start the toolchain: not found".to_string(),
            exit_code: -1,
        }
    );
}

#[test]
fn a_killed_child_is_answered_with_minus_one() {
    let (mut exchange, _) = Exchange::start();
    expect_stage(exchange.step(Event::Received(payload("go", "x", "m.go"))));
    expect_launch(exchange.step(Event::Staged));
    let bytes = expect_send(exchange.step(exited(None, b"so far", &[0xC3])));
    assert_eq!(
        sent_result(&bytes),
        ExecutionResult {
            success: false,
            stdout: "so far".to_string(),
            stderr: "\u{FFFD}".to_string(),
            exit_code: -1,
        }
    );
}

#[test]
fn a_partial_write_is_followed_by_the_rest() {
    let (mut exchange, _) = Exchange::start();
    expect_stage(exchange.step(Event::Received(payload("python", "x", "t.py"))));
    expect_launch(exchange.step(Event::Staged));
    let all = expect_send(exchange.step(exited(Some(0), b"output", b"")));
    let rest = expect_send(exchange.step(Event::Sent(10)));
    assert_eq!(rest, &all[10..]);
    let rest = expect_send(exchange.step(Event::Sent(1)));
    assert_eq!(rest, &all[11..]);
    let rest = expect_send(exchange.step(Event::Sent(0)));
    assert_eq!(rest, &all[11..]);
    assert_eq!(exchange.phase(), Phase::Sending);
    assert!(matches!(exchange.step(Event::Sent(all.len() - 11)), Action::Close));
    assert_eq!(exchange.phase(), Phase::Answered);
}

#[test]
fn a_write_that_reports_too_much_ends_the_exchange() {
    let (mut exchange, _) = Exchange::start();
    expect_send(exchange.step(Event::Received(b"}".to_vec())));
    assert!(matches!(exchange.step(Event::Sent(usize::MAX)), Action::Close));
    assert_eq!(exchange.phase(), Phase::Answered);
}

#[test]
fn a_failed_read_aborts_the_exchange() {
    let (mut exchange, _) = Exchange::start();
    assert!(matches!(exchange.step(Event::Received(b"{\"lang".to_vec())), Action::Receive));
    assert!(matches!(exchange.step(Event::ReceiveFailed), Action::Close));
    assert_eq!(exchange.phase(), Phase::Aborted);
    assert!(exchange.is_over());
}

#[test]
fn a_failed_staging_aborts_the_exchange() {
    let (mut exchange, _) = Exchange::start();
    expect_stage(exchange.step(Event::Received(payload("python", "x", "no/such/dir/t.py"))));
    assert!(matches!(exchange.step(Event::StagingFailed), Action::Close));
    assert_eq!(exchange.phase(), Phase::Aborted);
}

#[test]
fn a_failed_write_aborts_the_exchange() {
    let (mut exchange, _) = Exchange::start();
    expect_send(exchange.step(Event::Received(b"{}".to_vec())));
    assert!(matches!(exchange.step(Event::SendFailed), Action::Close));
    assert_eq!(exchange.phase(), Phase::Aborted);
}

#[test]
fn a_report_out_of_turn_aborts_the_exchange() {
    let (mut exchange, _) = Exchange::start();
    assert!(matches!(exchange.step(Event::Staged), Action::Close));
    assert_eq!(exchange.phase(), Phase::Aborted);

    let (mut exchange, _) = Exchange::start();
    expect_stage(exchange.step(Event::Received(payload("python", "x", "t.py"))));
    assert!(matches!(exchange.step(Event::Sent(3)), Action::Close));
    assert_eq!(exchange.phase(), Phase::Aborted);

    let (mut exchange, _) = Exchange::start();
    expect_stage(exchange.step(Event::Received(payload("python", "x", "t.py"))));
    expect_launch(exchange.step(Event::Staged));
    assert!(matches!(exchange.step(Event::Staged), Action::Close));
    assert_eq!(exchange.phase(), Phase::Aborted);
}

#[test]
fn an_exchange_that_is_over_stays_over() {
    let (mut exchange, _) = Exchange::start();
    let bytes = expect_send(exchange.step(Event::Received(b"{}".to_vec())));
    assert!(matches!(exchange.step(Event::Sent(bytes.len())), Action::Close));
    for event in [
        Event::Received(payload("python", "x", "t.py")),
        Event::Staged,
        exited(Some(0), b"", b""),
        Event::Sent(1),
        Event::SendFailed,
    ] {
        assert!(matches!(exchange.step(event), Action::Close));
        assert_eq!(exchange.phase(), Phase::Answered);
    }

    let (mut exchange, _) = Exchange::start();
    assert!(matches!(exchange.step(Event::ReceiveFailed), Action::Close));
    assert!(matches!(exchange.step(Event::Received(b"{}".to_vec())), Action::Close));
    assert_eq!(exchange.phase(), Phase::Aborted);
}
