use msi_ec::protocol::{command_line, Command, FanStatus, Response};
use msi_ec::sidecar::{Action, Session};
use msi_ec::supervisor::{read_response, Exchange, HostError, LinkState, Reply, Supervisor};

fn sample_status() -> FanStatus {
    FanStatus {
        cpu_temp: 50,
        gpu_temp: 45,
        fan1_rpm: 2400,
        fan2_rpm: 2300,
        cooler_boost: false,
        fan_mode: "auto".to_string(),
    }
}

fn received(r: Response) -> Exchange {
    Exchange::Received { line: "{...}\n".to_string(), parsed: Ok(r) }
}

fn connected() -> Supervisor<u32> {
    let mut s = Supervisor::new();
    assert!(s.begin_connect().is_none());
    let (kill, r) = s.finish_connect(7, received(Response::Status(sample_status())));
    assert!(kill.is_none());
    assert_eq!(r.unwrap().fan1_rpm, 2400);
    assert_eq!(s.state(), LinkState::Connected);
    s
}

#[test]
fn handshake_timeout_kills_and_disconnects() {
    let mut s: Supervisor<u32> = Supervisor::new();
    s.begin_connect();
    let (kill, r) = s.finish_connect(9, Exchange::TimedOut);
    assert_eq!(kill, Some(9));
    let e = r.unwrap_err();
    assert!(matches!(e, HostError::StartupTimeout));
    assert_eq!(e.message(), "Sidecar startup timeout");
    assert_eq!(s.state(), LinkState::Disconnected);
}

#[test]
fn handshake_eof_kills_with_reason() {
    let mut s: Supervisor<u32> = Supervisor::new();
    let (kill, r) = s.finish_connect(
        3,
        Exchange::Received { line: String::new(), parsed: Err("EOF while parsing".to_string()) },
    );
    assert_eq!(kill, Some(3));
    assert_eq!(r.unwrap_err().message(), "Empty response from sidecar - EOF");
    assert_eq!(s.state(), LinkState::Disconnected);
}

#[test]
fn handshake_error_response_keeps_connection() {
    let mut s: Supervisor<u32> = Supervisor::new();
    let (kill, r) = s.finish_connect(
        4,
        received(Response::Error { message: "Failed to read EC: missing".to_string() }),
    );
    assert!(kill.is_none());
    assert_eq!(r.unwrap_err().message(), "Failed to read EC: missing");
    assert_eq!(s.state(), LinkState::Connected);
}

#[test]
fn handshake_ack_is_unexpected() {
    let mut s: Supervisor<u32> = Supervisor::new();
    let (kill, r) = s.finish_connect(4, received(Response::Ack { message: "hi".to_string() }));
    assert_eq!(kill, Some(4));
    assert_eq!(r.unwrap_err().message(), "Unexpected initial response");
    assert_eq!(s.state(), LinkState::Disconnected);
}

#[test]
fn reconnect_hands_back_old_handle() {
    let mut s = connected();
    assert_eq!(s.begin_connect(), Some(7));
    assert_eq!(s.state(), LinkState::Disconnected);
}

#[test]
fn request_round_trip_keeps_connection() {
    let mut s = connected();
    let (h, line) = s.begin_request(&Command::GetStatus).unwrap();
    assert_eq!(h, 7);
    assert_eq!(line, r#"{"cmd":"get_status"}"#);
    assert_eq!(s.state(), LinkState::InFlight);
    let (kill, r) = s.finish_request(h, received(Response::Status(sample_status())));
    assert!(kill.is_none());
    match r.unwrap() {
        Reply::Status(st) => assert_eq!(st.fan_mode, "auto"),
        other => panic!("unexpected {:?}", other),
    }
    assert_eq!(s.state(), LinkState::Connected);
}

#[test]
fn write_request_returns_message() {
    let mut s = connected();
    let (h, line) = s.begin_request(&Command::SetFanSpeed { percent: 50 }).unwrap();
    assert_eq!(line, r#"{"cmd":"set_fan_speed","data":{"percent":50}}"#);
    let (_, r) = s.finish_request(h, received(Response::Ack { message: "Fan speed set to 50%".to_string() }));
    match r.unwrap() {
        Reply::Message(m) => assert_eq!(m, "Fan speed set to 50%"),
        other => panic!("unexpected {:?}", other),
    }
}

#[test]
fn wrong_kind_of_answer_is_unexpected_and_drops_connection() {
    let mut s = connected();
    let (h, _) = s.begin_request(&Command::SetCoolerBoost { enabled: true }).unwrap();
    let (kill, r) = s.finish_request(h, received(Response::Status(sample_status())));
    assert_eq!(kill, Some(7));
    assert_eq!(r.unwrap_err().message(), "Unexpected response");
    assert_eq!(s.state(), LinkState::Disconnected);

    let mut s = connected();
    let (h, _) = s.begin_request(&Command::GetStatus).unwrap();
    let (kill, r) = s.finish_request(h, received(Response::Ack { message: "x".to_string() }));
    assert_eq!(kill, Some(7));
    assert!(matches!(r, Err(HostError::Unexpected)));
    assert_eq!(s.state(), LinkState::Disconnected);
    assert_eq!(
        s.begin_request(&Command::GetStatus).unwrap_err().message(),
        "Sidecar not running. Click Connect first."
    );
}

#[test]
fn remote_error_is_passed_through() {
    let mut s = connected();
    let (h, _) = s.begin_request(&Command::SetFanMode { mode: "turbo".to_string() }).unwrap();
    let (_, r) = s.finish_request(h, received(Response::Error { message: "Unknown mode: turbo".to_string() }));
    assert_eq!(r.unwrap_err().message(), "Unknown mode: turbo");
    assert_eq!(s.state(), LinkState::Connected);
}

#[test]
fn io_error_drops_connection_and_next_request_is_not_running() {
    let mut s = connected();
    let (h, _) = s.begin_request(&Command::GetStatus).unwrap();
    let (kill, r) = s.finish_request(h, Exchange::Failed("Write error: Broken pipe".to_string()));
    assert_eq!(kill, Some(7));
    assert_eq!(r.unwrap_err().message(), "Communication error: Write error: Broken pipe");
    assert_eq!(s.state(), LinkState::Disconnected);
    let e = s.begin_request(&Command::GetStatus).unwrap_err();
    assert!(matches!(e, HostError::NotRunning { poll: true }));
    assert_eq!(e.message(), "Sidecar not running. Click Connect first.");
}

#[test]
fn request_timeout_drops_connection() {
    let mut s = connected();
    let (h, _) = s.begin_request(&Command::SetCoolerBoost { enabled: false }).unwrap();
    let (kill, r) = s.finish_request(h, Exchange::TimedOut);
    assert_eq!(kill, Some(7));
    assert_eq!(r.unwrap_err().message(), "Command timeout");
    let e = s.begin_request(&Command::SetFanSpeed { percent: 50 }).unwrap_err();
    assert!(matches!(e, HostError::NotRunning { poll: false }));
    assert_eq!(e.message(), "Sidecar not running");
}

#[test]
fn status_poll_timeout_message() {
    let mut s = connected();
    let (h, _) = s.begin_request(&Command::GetStatus).unwrap();
    let (kill, r) = s.finish_request(h, Exchange::TimedOut);
    assert_eq!(kill, Some(7));
    assert_eq!(r.unwrap_err().message(), "Sidecar request timeout");
    assert_eq!(s.state(), LinkState::Disconnected);
}

#[test]
fn write_requests_without_connection_are_not_running() {
    let mut s: Supervisor<u32> = Supervisor::new();
    for c in [
        Command::SetCoolerBoost { enabled: true },
        Command::SetFanSpeed { percent: 10 },
        Command::SetFanMode { mode: "auto".to_string() },
    ] {
        assert_eq!(s.begin_request(&c).unwrap_err().message(), "Sidecar not running");
    }
    assert_eq!(s.state(), LinkState::Disconnected);
}

#[test]
fn unparsable_answer_drops_connection() {
    let mut s = connected();
    let (h, _) = s.begin_request(&Command::GetStatus).unwrap();
    let x = Exchange::Received { line: "garbage\r\n".to_string(), parsed: Err("expected value".to_string()) };
    let (kill, r) = s.finish_request(h, x);
    assert_eq!(kill, Some(7));
    assert_eq!(
        r.unwrap_err().message(),
        "Communication error: Parse error: expected value (line: garbage)"
    );
    assert_eq!(s.state(), LinkState::Disconnected);
}

#[test]
fn second_request_while_in_flight_is_busy() {
    let mut s = connected();
    let (h, _) = s.begin_request(&Command::GetStatus).unwrap();
    let e = s.begin_request(&Command::GetStatus).unwrap_err();
    assert_eq!(e.message(), "Failed to acquire lock (busy)");
    assert_eq!(s.state(), LinkState::InFlight);
    let (kill, _) = s.finish_request(h, received(Response::Status(sample_status())));
    assert!(kill.is_none());
}

#[test]
fn finishing_without_outstanding_request_discards() {
    let mut s: Supervisor<u32> = Supervisor::new();
    let (kill, r) = s.finish_request(5, Exchange::TimedOut);
    assert_eq!(kill, Some(5));
    assert!(matches!(r, Err(HostError::NotRunning { .. })));
}

#[test]
fn disconnect_hands_back_handle_with_exit_line() {
    let mut s = connected();
    let (h, line) = s.disconnect().unwrap();
    assert_eq!(h, 7);
    assert_eq!(line, r#"{"cmd":"exit"}"#);
    assert_eq!(s.state(), LinkState::Disconnected);
    assert!(s.disconnect().is_none());
}

#[test]
fn read_response_framing() {
    let ok = read_response(&"{}\n".to_string(), Ok(Response::Ack { message: "m".to_string() }));
    assert!(matches!(ok, Ok(Response::Ack { .. })));
    let eof = read_response(&String::new(), Ok(Response::Ack { message: "m".to_string() }));
    assert_eq!(eof.unwrap_err(), "Empty response from sidecar - EOF");
    let bad = read_response(&"oops\n".to_string(), Err("bad".to_string()));
    assert_eq!(bad.unwrap_err(), "Parse error: bad (line: oops)");
    let padded = read_response(&" x\n".to_string(), Err("bad".to_string()));
    assert_eq!(padded.unwrap_err(), "Parse error: bad (line: x)");
    let wide = read_response(&"\u{3000}\t y z \r\n".to_string(), Err("bad".to_string()));
    assert_eq!(wide.unwrap_err(), "Parse error: bad (line: y z)");
    let blank = read_response(&" \n".to_string(), Err("bad".to_string()));
    assert_eq!(blank.unwrap_err(), "Parse error: bad (line: )");
}

#[test]
fn spawn_failure_message() {
    let e = HostError::SpawnFailed("No such file or directory".to_string());
    assert_eq!(e.message(), "Failed to start sidecar: No such file or directory");
}

/// A helper session over a simulated EC, answering one line at a time.
struct LoopbackHelper {
    session: Session,
    mem: Vec<u8>,
    lines_answered: usize,
}

impl LoopbackHelper {
    /// Opens the session and returns it with its handshake response.
    fn start() -> (LoopbackHelper, Response) {
        let mut mem = vec![0u8; 256];
        mem[0x98] = 0x01;
        let (session, _) = Session::start();
        let mut helper = LoopbackHelper { session, mem, lines_answered: 0 };
        let a = helper.session.on_opened(Ok(()));
        let r = helper.drive(a);
        (helper, r)
    }

    fn decode(line: &str) -> Result<Command, String> {
        for c in [Command::GetStatus, Command::SetCoolerBoost { enabled: true }, Command::Exit] {
            if command_line(&c) == line {
                return Ok(c);
            }
        }
        Err("unknown".to_string())
    }

    fn drive(&mut self, mut action: Action) -> Response {
        loop {
            action = match action {
                Action::ReadSnapshot => self.session.on_snapshot(Ok(self.mem.clone())),
                Action::Write(w) => {
                    self.mem[w.offset as usize] = w.value;
                    self.session.on_written(Ok(()))
                }
                Action::Decode(l) => self.session.on_decoded(Self::decode(&l)),
                Action::Reply(r) => return r,
                Action::Exit { last: Some(r), .. } => return r,
                other => panic!("unexpected {:?}", other),
            };
        }
    }

    fn answer(&mut self, line: String) -> Response {
        self.lines_answered += 1;
        let a = self.session.on_line(Some(line));
        self.drive(a)
    }
}

fn over_pipe(r: Response) -> Exchange {
    Exchange::Received { line: "{}\n".to_string(), parsed: Ok(r) }
}

#[test]
fn status_boost_status_through_host_and_helper() {
    let (mut helper, hello) = LoopbackHelper::start();
    let mut host: Supervisor<u32> = Supervisor::new();
    let (_, first) = host.finish_connect(1, over_pipe(hello));
    assert!(!first.unwrap().cooler_boost);

    let (h, line) = host.begin_request(&Command::GetStatus).unwrap();
    let (kill, r) = host.finish_request(h, over_pipe(helper.answer(line)));
    assert!(kill.is_none());
    match r.unwrap() {
        Reply::Status(s) => assert!(!s.cooler_boost),
        other => panic!("unexpected {:?}", other),
    }

    let (h, line) = host.begin_request(&Command::SetCoolerBoost { enabled: true }).unwrap();
    assert_eq!(line, r#"{"cmd":"set_cooler_boost","data":{"enabled":true}}"#);
    let (kill, r) = host.finish_request(h, over_pipe(helper.answer(line)));
    assert!(kill.is_none());
    match r.unwrap() {
        Reply::Message(m) => assert_eq!(m, "Cooler Boost enabled"),
        other => panic!("unexpected {:?}", other),
    }

    let (h, line) = host.begin_request(&Command::GetStatus).unwrap();
    let (kill, r) = host.finish_request(h, over_pipe(helper.answer(line)));
    assert!(kill.is_none());
    match r.unwrap() {
        Reply::Status(s) => assert!(s.cooler_boost),
        other => panic!("unexpected {:?}", other),
    }
    assert_eq!(helper.lines_answered, 3);
    assert_eq!(helper.mem[0x98], 0x81);
    assert_eq!(host.state(), LinkState::Connected);
}
