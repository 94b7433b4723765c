use shenron::AccessControl;
use shenron::AuthConfig;
use shenron::Comment;
use shenron::Connection;
use shenron::EnvMap;
use shenron::Error;
use shenron::LocalFilesystem;
use shenron::MethodSet;
use shenron::PtySize;
use shenron::RemoteAddr;
use shenron::ServerSettings;
use shenron::Session;
use shenron::SessionKind;
use shenron::SessionWriter;
use shenron::middleware::ChainStep;
use shenron::middleware::active_term_decision;
use shenron::middleware::chain_trace;
use shenron::server::validate_serve;
use shenron::text::first_word;

fn addr() -> RemoteAddr {
    RemoteAddr { ip: String::from("10.0.0.1"), port: 22 }
}

#[test]
fn auth_config_method_set() {
    let none = AuthConfig { password: false, pubkey: false };
    assert!(none.is_empty());
    assert!(none.methods().is_empty());

    let pw = AuthConfig { password: true, pubkey: false };
    assert!(!pw.is_empty());
    assert_eq!(pw.methods(), MethodSet { password: true, public_key: false });

    let both = AuthConfig { password: true, pubkey: true };
    assert_eq!(both.methods(), MethodSet { password: true, public_key: true });
    assert!(!both.methods().is_empty());
}

#[test]
fn env_map_inserts_and_replaces() {
    let mut env = EnvMap::new();
    assert!(env.is_empty());
    env.insert(String::from("A"), String::from("1"));
    env.insert(String::from("B"), String::from("2"));
    assert_eq!(env.len(), 2);
    env.insert(String::from("A"), String::from("3"));
    assert_eq!(env.len(), 2);
    assert_eq!(env.get(&String::from("A")), Some(&String::from("3")));
    assert_eq!(env.get(&String::from("B")), Some(&String::from("2")));
    assert_eq!(env.get(&String::from("C")), None);
    assert_eq!(
        env.entries(),
        &vec![
            (String::from("A"), String::from("3")),
            (String::from("B"), String::from("2"))
        ]
    );
}

#[test]
fn serve_validation_reports_each_missing_piece() {
    match validate_serve(&None, 0, false) {
        Err(Error::Config(m)) => assert_eq!(m, "No bind address specified"),
        other => panic!("expected config error, got {other:?}"),
    }
    match validate_serve(&Some(String::from("0.0.0.0:22")), 0, true) {
        Err(Error::Config(m)) => assert_eq!(m, "No host keys specified"),
        other => panic!("expected config error, got {other:?}"),
    }
    match validate_serve(&Some(String::from("0.0.0.0:22")), 1, false) {
        Err(Error::Config(m)) => assert_eq!(m, "No app handler specified"),
        other => panic!("expected config error, got {other:?}"),
    }
    assert!(validate_serve(&Some(String::from("0.0.0.0:22")), 1, true).is_ok());
}

#[test]
fn transport_config_mirrors_the_settings() {
    let settings = ServerSettings {
        addr: Some(String::from("0.0.0.0:2222")),
        banner: None,
        auth: AuthConfig { password: true, pubkey: false },
        auth_timeout_ms: Some(1_000),
        inactivity_timeout_ms: Some(60_000),
        keepalive_interval_ms: None,
        keepalive_max: Some(3),
    };
    let cfg = settings.transport_config();
    assert_eq!(cfg.methods, Some(MethodSet { password: true, public_key: false }));
    assert_eq!(cfg.auth_rejection_ms, Some(1_000));
    assert_eq!(cfg.auth_rejection_initial_ms, Some(1_000));
    assert_eq!(cfg.inactivity_timeout_ms, Some(60_000));
    assert_eq!(cfg.keepalive_interval_ms, None);
    assert_eq!(cfg.keepalive_max, Some(3));

    let anonymous = ServerSettings::default();
    assert_eq!(anonymous.transport_config().methods, None);
}

#[test]
fn chain_trace_orders_pre_and_post_work() {
    // For a chain [A, B] around a handler, the observed order is A-pre,
    // B-pre, handler, B-post, A-post.
    let trace = chain_trace(&vec![1, 2]);
    assert_eq!(
        trace,
        vec![
            ChainStep::Pre(1),
            ChainStep::Pre(2),
            ChainStep::Handler,
            ChainStep::Post(2),
            ChainStep::Post(1)
        ]
    );
    assert_eq!(chain_trace(&vec![]), vec![ChainStep::Handler]);
}

#[test]
fn access_control_filters_on_the_first_word() {
    let filter = AccessControl::new(vec![String::from("ls"), String::from("whoami")]);
    assert!(filter.is_allowed(&String::from("ls")));
    assert!(!filter.is_allowed(&String::from("rm")));

    let allowed = Session::new(
        SessionKind::Exec { command: String::from("ls -la /tmp") },
        String::from("u"),
        EnvMap::new(),
        addr(),
    );
    assert_eq!(filter.decide(&allowed), None);

    let denied = Session::new(
        SessionKind::Exec { command: String::from("rm -rf /") },
        String::from("u"),
        EnvMap::new(),
        addr(),
    );
    assert_eq!(filter.decide(&denied), Some(String::from("Command not allowed: rm\n")));

    // Sessions without a command pass through.
    let shell = Session::new(SessionKind::Shell, String::from("u"), EnvMap::new(), addr());
    assert_eq!(filter.decide(&shell), None);
}

#[test]
fn first_word_skips_leading_whitespace() {
    assert_eq!(first_word("ls -la"), "ls");
    assert_eq!(first_word("  spaced   out"), "spaced");
    assert_eq!(first_word("single"), "single");
    assert_eq!(first_word(""), "");
    assert_eq!(first_word("   "), "");
    assert_eq!(first_word("écho français"), "écho");
}

#[test]
fn active_term_requires_a_pty() {
    let pty = Session::new(
        SessionKind::Pty {
            term: String::from("xterm"),
            size: PtySize { width: 80, height: 24, pixel_width: 0, pixel_height: 0 },
        },
        String::from("u"),
        EnvMap::new(),
        addr(),
    );
    assert_eq!(active_term_decision(&pty), None);

    let shell = Session::new(SessionKind::Shell, String::from("u"), EnvMap::new(), addr());
    assert_eq!(active_term_decision(&shell), Some(String::from("PTY required\n")));
}

#[test]
fn comment_carries_its_text() {
    let comment = Comment(String::from("bye\r\n"));
    assert_eq!(comment.0, "bye\r\n");
}

#[test]
fn pty_size_defaults_and_rect_conversion() {
    let dflt = PtySize::default();
    assert_eq!(dflt, PtySize { width: 80, height: 24, pixel_width: 0, pixel_height: 0 });
    assert_eq!(dflt.rect_dims(), Ok((80, 24)));

    let huge = PtySize { width: 70_000, height: 24, pixel_width: 0, pixel_height: 0 };
    match huge.rect_dims() {
        Err(Error::Int(_)) => {},
        other => panic!("expected numeric error, got {other:?}"),
    }
}

#[test]
fn session_writer_buffers_until_taken() {
    let mut w = SessionWriter::new();
    assert_eq!(w.write(b"abc"), 3);
    assert_eq!(w.write(b"de"), 2);
    w.flush();
    assert_eq!(w.take(), b"abcde".to_vec());
    assert_eq!(w.take(), Vec::<u8>::new());
}

#[test]
fn local_filesystem_resolves_inside_its_root() {
    let fs = LocalFilesystem::new(String::from("/srv/files"));
    assert_eq!(fs.resolve("/etc/passwd"), "/srv/files/etc/passwd");
    assert_eq!(fs.resolve("a/b"), "/srv/files/a/b");
    assert_eq!(fs.resolve("///x"), "/srv/files/x");
    assert_eq!(fs.resolve(""), "/srv/files/");

    let slashed = LocalFilesystem::new(String::from("root/"));
    assert_eq!(slashed.resolve("/a"), "root/a");

    let empty = LocalFilesystem::new(String::new());
    assert_eq!(empty.resolve("/a"), "a");
}

#[test]
fn error_messages_are_readable() {
    let e = Error::Protocol(String::from("No channel available"));
    assert_eq!(e.message().as_str(), "No channel available");
    let c = Error::Config(String::from("No bind address specified"));
    assert_eq!(c.message().as_str(), "No bind address specified");
}

#[test]
fn exec_command_is_decoded_lossily() {
    let mut conn = Connection::new(AuthConfig { password: false, pubkey: false }, addr(), None);
    assert!(conn.channel_open_session());
    // Invalid UTF-8 bytes are replaced, not rejected.
    let session = conn.exec_request(&[b'l', b's', 0xff]).expect("exec succeeds");
    assert_eq!(session.command(), Some("ls\u{fffd}"));
}
