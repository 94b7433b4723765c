use shenron::AuthConfig;
use shenron::AuthDecision;
use shenron::Connection;
use shenron::EnvMap;
use shenron::Error;
use shenron::Event;
use shenron::FinalAction;
use shenron::Frame;
use shenron::MethodSet;
use shenron::PtySize;
use shenron::RemoteAddr;
use shenron::Session;
use shenron::SessionKind;

fn addr() -> RemoteAddr {
    RemoteAddr { ip: String::from("127.0.0.1"), port: 2222 }
}

fn anonymous() -> AuthConfig {
    AuthConfig { password: false, pubkey: false }
}

#[test]
fn echo_session_runs_to_exit_status_zero() {
    // A client opens a session, requests a shell, sends "ab\r", and
    // disconnects; the handler echoes input and exits 0.
    let mut conn = Connection::new(anonymous(), addr(), None);
    assert!(conn.channel_open_session());
    let mut session = conn.shell_request().expect("shell after open succeeds");
    assert!(matches!(session.kind(), SessionKind::Shell));

    let event = session.absorb(Frame::Data(vec![0x61, 0x62, 0x0d]));
    let payload = match event {
        Some(Event::Input(data)) => data,
        other => panic!("expected input, got {other:?}"),
    };
    assert_eq!(payload, vec![0x61, 0x62, 0x0d]);
    // The echo write carries exactly the received bytes on the main stream.
    let op = shenron::session::write_op(payload);
    assert_eq!(op.stream, None);
    assert_eq!(op.data, vec![0x61, 0x62, 0x0d]);

    let eof = session.absorb(Frame::Eof);
    assert!(matches!(eof, Some(Event::Eof)));
    let session = session.exit(0).expect("exit never fails");
    let actions = session.finish_actions();
    assert_eq!(
        actions,
        vec![FinalAction::SendExitStatus(0), FinalAction::SendEof, FinalAction::Close]
    );
}

#[test]
fn exec_session_carries_command_and_user() {
    // `exec "whoami"` as user alice: the handler sees the command and the
    // authenticated name.
    let cfg = AuthConfig { password: true, pubkey: false };
    let mut conn = Connection::new(cfg, addr(), None);
    let decision = conn.auth_password("alice", Some(true));
    assert!(matches!(decision, AuthDecision::Accept));
    assert!(conn.channel_open_session());
    let session = conn.exec_request(b"whoami").expect("exec after open succeeds");
    assert_eq!(session.user(), "alice");
    assert_eq!(session.command(), Some("whoami"));
    assert!(matches!(session.kind(), SessionKind::Exec { command } if command == "whoami"));
    assert!(!session.is_interactive());

    let out = shenron::session::write_str_op("alice\n");
    assert_eq!(out.stream, None);
    assert_eq!(out.data, b"alice\n".to_vec());
    let session = session.exit(0).expect("exit never fails");
    assert_eq!(session.exit_code(), Some(0));
}

#[test]
fn pty_session_tracks_resize() {
    // A pty (xterm, 80x24), then shell; a window change to 100x40 arrives
    // after one input frame.
    let mut conn = Connection::new(anonymous(), addr(), None);
    assert!(conn.channel_open_session());
    conn.pty_request(String::from("xterm"), 80, 24, 0, 0);
    let mut session = conn.shell_request().expect("shell after open succeeds");
    assert_eq!(session.term(), Some("xterm"));
    assert_eq!(
        session.pty_size(),
        Some(PtySize { width: 80, height: 24, pixel_width: 0, pixel_height: 0 })
    );
    assert!(session.is_interactive());

    let first = session.absorb(Frame::Data(vec![0x71]));
    assert!(matches!(first, Some(Event::Input(_))));
    let second = session.absorb(Frame::WindowChange {
        col_width: 100,
        row_height: 40,
        pix_width: 0,
        pix_height: 0,
    });
    let resized = PtySize { width: 100, height: 40, pixel_width: 0, pixel_height: 0 };
    assert_eq!(second, Some(Event::Resize(resized)));
    assert_eq!(session.pty_size(), Some(resized));
    let (term, size) = session.pty().expect("still a pty");
    assert_eq!(term, "xterm");
    assert_eq!(size, resized);
}

#[test]
fn pty_before_exec_takes_pty_kind() {
    let mut conn = Connection::new(anonymous(), addr(), None);
    assert!(conn.channel_open_session());
    conn.pty_request(String::from("vt100"), 132, 43, 0, 0);
    let session = conn.exec_request(b"top").expect("exec after open succeeds");
    assert!(matches!(session.kind(), SessionKind::Pty { .. }));
    assert_eq!(session.command(), None);
}

#[test]
fn rejected_password_spawns_no_session() {
    // The verifier says no for (bob, hunter2): the attempt is rejected and
    // no user is recorded; it says yes for (alice, secret): the handler
    // then runs with user alice.
    let cfg = AuthConfig { password: true, pubkey: false };
    let mut conn = Connection::new(cfg, addr(), None);
    let rejected = conn.auth_password("bob", Some(false));
    assert_eq!(rejected, AuthDecision::Reject { proceed_with: None });

    let accepted = conn.auth_password("alice", Some(true));
    assert_eq!(accepted, AuthDecision::Accept);
    assert!(conn.channel_open_session());
    let session = conn.shell_request().expect("shell after open succeeds");
    assert_eq!(session.user(), "alice");
}

#[test]
fn rejected_pubkey_advertises_password() {
    let cfg = AuthConfig { password: true, pubkey: true };
    let mut conn = Connection::new(cfg, addr(), None);
    let rejected = conn.auth_publickey("carol", Some(false));
    assert_eq!(
        rejected,
        AuthDecision::Reject {
            proceed_with: Some(MethodSet { password: true, public_key: false })
        }
    );
}

#[test]
fn anonymous_mode_accepts_and_user_defaults_to_unknown() {
    let mut conn = Connection::new(anonymous(), addr(), None);
    let decision = conn.auth_publickey("dave", None);
    assert_eq!(decision, AuthDecision::Accept);
    assert!(conn.channel_open_session());
    let session = conn.shell_request().expect("shell after open succeeds");
    assert_eq!(session.user(), "dave");

    let mut bare = Connection::new(anonymous(), addr(), None);
    assert!(bare.channel_open_session());
    let session = bare.shell_request().expect("shell after open succeeds");
    assert_eq!(session.user(), "unknown");
}

#[test]
fn nonempty_config_rejects_the_other_method() {
    // Only a password verifier: a public-key attempt is rejected without
    // consulting anything and without advertising more methods.
    let cfg = AuthConfig { password: true, pubkey: false };
    let mut conn = Connection::new(cfg, addr(), None);
    let decision = conn.auth_publickey("erin", None);
    assert_eq!(decision, AuthDecision::Reject { proceed_with: None });
}

#[test]
fn promotion_without_channel_is_a_protocol_error() {
    let mut conn = Connection::new(anonymous(), addr(), None);
    match conn.shell_request() {
        Err(Error::Protocol(m)) => assert_eq!(m, "No channel available"),
        other => panic!("expected protocol error, got {other:?}"),
    }
    match conn.exec_request(b"ls") {
        Err(Error::Protocol(m)) => assert_eq!(m, "No channel available"),
        other => panic!("expected protocol error, got {other:?}"),
    }
    match conn.subsystem_request(String::from("sftp")) {
        Err(Error::Protocol(m)) => assert_eq!(m, "No channel available"),
        other => panic!("expected protocol error, got {other:?}"),
    }
}

#[test]
fn channel_is_taken_by_promotion() {
    let mut conn = Connection::new(anonymous(), addr(), None);
    assert!(conn.channel_open_session());
    conn.shell_request().expect("first promotion succeeds");
    assert!(conn.shell_request().is_err());
}

#[test]
fn env_snapshot_moves_to_the_session() {
    let mut conn = Connection::new(anonymous(), addr(), None);
    assert!(conn.channel_open_session());
    conn.env_request(String::from("TERM"), String::from("xterm"));
    conn.env_request(String::from("LANG"), String::from("C"));
    conn.env_request(String::from("TERM"), String::from("xterm-256color"));
    let session = conn.shell_request().expect("shell after open succeeds");
    let env = session.env();
    assert_eq!(env.len(), 2);
    assert_eq!(env.get(&String::from("TERM")), Some(&String::from("xterm-256color")));
    assert_eq!(env.get(&String::from("LANG")), Some(&String::from("C")));
    assert_eq!(env.get(&String::from("HOME")), None);

    // The adapter's own map was emptied by the snapshot; a second channel
    // on the same connection starts with no variables.
    assert!(conn.channel_open_session());
    let session = conn.shell_request().expect("second shell succeeds");
    assert_eq!(session.env().len(), 0);
}

#[test]
fn subsystem_request_names_the_subsystem() {
    let mut conn = Connection::new(anonymous(), addr(), None);
    assert!(conn.channel_open_session());
    let session = conn.subsystem_request(String::from("sftp")).expect("subsystem succeeds");
    assert_eq!(session.subsystem(), Some("sftp"));
    assert!(matches!(session.kind(), SessionKind::Subsystem { name } if name == "sftp"));
    assert_eq!(session.command(), None);
    assert!(!session.is_interactive());
}

#[test]
fn exit_code_is_kept_and_only_overwritten_by_exit() {
    let session = Session::new(SessionKind::Shell, String::from("alice"), EnvMap::new(), addr());
    assert_eq!(session.exit_code(), None);
    assert!(!session.will_exit());
    assert_eq!(session.finish_actions(), vec![]);

    let mut session = session.exit(3).expect("exit never fails");
    assert_eq!(session.exit_code(), Some(3));
    assert!(session.will_exit());
    session.absorb(Frame::Data(vec![1, 2, 3]));
    session.absorb(Frame::Other);
    assert_eq!(session.exit_code(), Some(3));

    let session = session.exit(7).expect("exit never fails");
    assert_eq!(session.exit_code(), Some(7));
}

#[test]
fn abort_is_exit_plus_finish() {
    // Aborting with a code is storing the code and running the finish
    // sequence at once.
    let session = Session::new(SessionKind::Shell, String::from("alice"), EnvMap::new(), addr());
    let session = session.exit(5).expect("exit never fails");
    assert_eq!(
        session.finish_actions(),
        vec![FinalAction::SendExitStatus(5), FinalAction::SendEof, FinalAction::Close]
    );
}

#[test]
fn event_pump_skips_other_frames_and_reports_signals() {
    let mut session =
        Session::new(SessionKind::Shell, String::from("alice"), EnvMap::new(), addr());
    assert_eq!(session.absorb(Frame::Other), None);
    assert_eq!(
        session.absorb(Frame::Signal(String::from("INT"))),
        Some(Event::Signal(String::from("INT")))
    );
    // A window change on a session without a pty still yields the event
    // but caches nothing.
    let resized = session.absorb(Frame::WindowChange {
        col_width: 10,
        row_height: 10,
        pix_width: 0,
        pix_height: 0,
    });
    assert!(matches!(resized, Some(Event::Resize(_))));
    assert_eq!(session.pty_size(), None);
}

#[test]
fn input_filter_keeps_only_data() {
    assert_eq!(Session::event_input(Event::Input(vec![1, 2])), Some(vec![1, 2]));
    assert_eq!(Session::event_input(Event::Eof), None);
    assert_eq!(
        Session::event_input(Event::Resize(PtySize {
            width: 1,
            height: 1,
            pixel_width: 0,
            pixel_height: 0
        })),
        None
    );
}

#[test]
fn banner_is_reported_when_configured() {
    let conn = Connection::new(anonymous(), addr(), Some(String::from("welcome\n")));
    assert_eq!(conn.authentication_banner(), Some(String::from("welcome\n")));
    let bare = Connection::new(anonymous(), addr(), None);
    assert_eq!(bare.authentication_banner(), None);
}

#[test]
fn write_str_is_write_of_utf8_bytes() {
    let by_str = shenron::session::write_str_op("héllo");
    let by_bytes = shenron::session::write_op("héllo".as_bytes().to_vec());
    assert_eq!(by_str, by_bytes);

    let err_by_str = shenron::session::write_stderr_str_op("oops");
    let err_by_bytes = shenron::session::write_stderr_op(b"oops".to_vec());
    assert_eq!(err_by_str, err_by_bytes);
    assert_eq!(err_by_str.stream, Some(1));
}
