use ivyterm::ssh::check::{Check, CheckEvent, CheckStage, PeerReply, TakenError, EINPROGRESS};
use ivyterm::ssh::config::{parsed_config, read_config, BadConfig, HostParams, Interval};
use ivyterm::ssh::connect::{Connect, ConnectEvent, ConnectStage};
use ivyterm::ssh::login::{
    new_session, DisconnectCode, ErrorCode, Login, LoginError, LoginEvent, NewSession, SSHData,
    Stage, AUTHENTICATION_FAILED,
};
use ivyterm::ssh::readiness::{Batch, Readiness, SSH_TOKEN};
use ivyterm::ssh::target::{
    configure_session, host_address, resolve_target, split_host, KeepAlive, SessionOptions,
    TargetError,
};
use ivyterm::ssh::text::{decimal_text, find_char};
use ssh2_config::{ParseRule, SshConfig, SshParserError};

fn params() -> HostParams {
    HostParams {
        host_name: None,
        port: None,
        user: None,
        compression: None,
        tcp_keep_alive: None,
        server_alive_interval: None,
    }
}

fn quiet() -> Readiness {
    Readiness {
        token: SSH_TOKEN,
        readable: false,
        error: false,
        read_closed: false,
        write_closed: false,
    }
}

fn login(host: &str) -> Login {
    match new_session(host, "secret", false) {
        NewSession::Login(login) => login,
        NewSession::Ready(_) => panic!("no login"),
    }
}

fn configured(host: &str, text: &str) -> Login {
    let config = read_config(text.as_bytes()).unwrap();
    login(host).advance(LoginEvent::Config(config))
}

fn at_agent() -> Login {
    configured("me@box", "")
        .advance(LoginEvent::Connected(true))
        .advance(LoginEvent::Handshake)
}

#[test]
fn characters_are_found_by_their_first_place() {
    assert_eq!(find_char("a@b@c", '@'), Some(1));
    assert_eq!(find_char("åäö@", '@'), Some(3));
    assert_eq!(find_char("plain", '@'), None);
    assert_eq!(find_char("", '@'), None);
}

#[test]
fn ports_are_written_in_decimal() {
    assert_eq!(decimal_text(0), "0");
    assert_eq!(decimal_text(9), "9");
    assert_eq!(decimal_text(10), "10");
    assert_eq!(decimal_text(2022), "2022");
    assert_eq!(decimal_text(65535), "65535");
}

#[test]
fn hosts_are_split_at_their_only_at_sign() {
    assert_eq!(split_host("box"), Ok((None, "box".to_string())));
    assert_eq!(split_host("me@box"), Ok((Some("me".to_string()), "box".to_string())));
    assert_eq!(split_host("@box"), Ok((Some("".to_string()), "box".to_string())));
    assert_eq!(split_host("me@"), Ok((Some("me".to_string()), "".to_string())));
    assert_eq!(split_host("a@b@c"), Err(TargetError::BadHost));
    assert_eq!(split_host("@@"), Err(TargetError::BadHost));
}

#[test]
fn ports_are_added_where_there_is_no_colon() {
    assert_eq!(host_address("box", 22), "box:22");
    assert_eq!(host_address("box:2022", 22), "box:2022");
    assert_eq!(host_address("::1", 22), "::1");
    assert_eq!(host_address("", 22), ":22");
}

#[test]
fn typed_targets_need_no_configuration() {
    let target = resolve_target("me@box", &params()).unwrap();
    assert_eq!(target.username, "me");
    assert_eq!(target.address, "box:22");
}

#[test]
fn configured_targets_go_first() {
    let configured = HostParams {
        host_name: Some("10.0.0.7".to_string()),
        port: Some(2022),
        user: Some("root".to_string()),
        ..params()
    };
    let target = resolve_target("me@box", &configured).unwrap();
    assert_eq!(target.username, "root");
    assert_eq!(target.address, "10.0.0.7:2022");
    let target = resolve_target("other", &configured).unwrap();
    assert_eq!(target.username, "root");
    assert_eq!(target.address, "10.0.0.7:2022");
}

#[test]
fn targets_are_refused_for_a_second_at_sign_or_a_missing_user() {
    assert_eq!(resolve_target("a@b@c", &params()).unwrap_err(), TargetError::BadHost);
    assert_eq!(resolve_target("box", &params()).unwrap_err(), TargetError::NoUsername);
    let user = HostParams { user: Some("me".to_string()), ..params() };
    assert_eq!(resolve_target("a@b@c", &user).unwrap_err(), TargetError::BadHost);
    assert_eq!(resolve_target("box", &user).unwrap().username, "me");
}

#[test]
fn session_options_follow_the_configuration() {
    assert_eq!(
        configure_session(&params()),
        SessionOptions { compress: None, keep_alive: None }
    );
    let all = HostParams {
        compression: Some(true),
        tcp_keep_alive: Some(true),
        server_alive_interval: Some(Interval { seconds: 40, nanos: 0 }),
        ..params()
    };
    assert_eq!(
        configure_session(&all),
        SessionOptions {
            compress: Some(true),
            keep_alive: Some(KeepAlive { want_reply: true, interval: 40 }),
        }
    );
    let off = HostParams { tcp_keep_alive: Some(false), ..all };
    assert_eq!(configure_session(&off).keep_alive, None);
    let unset = HostParams { tcp_keep_alive: None, ..off };
    assert_eq!(configure_session(&unset).keep_alive, None);
    let no_interval = HostParams { tcp_keep_alive: Some(true), ..params() };
    assert_eq!(configure_session(&no_interval).keep_alive, None);
}

#[test]
fn long_intervals_keep_their_low_bits() {
    let long = HostParams {
        tcp_keep_alive: Some(true),
        server_alive_interval: Some(Interval { seconds: 0x1_0000_0005, nanos: 0 }),
        ..params()
    };
    assert_eq!(
        configure_session(&long).keep_alive,
        Some(KeepAlive { want_reply: true, interval: 5 })
    );
}

#[test]
fn intervals_are_rounded_down_to_seconds() {
    let uneven = HostParams {
        tcp_keep_alive: Some(true),
        server_alive_interval: Some(Interval { seconds: 7, nanos: 999_999_999 }),
        ..params()
    };
    assert_eq!(
        configure_session(&uneven).keep_alive,
        Some(KeepAlive { want_reply: true, interval: 7 })
    );
}

#[test]
fn configurations_are_parsed_strictly() {
    assert!(read_config(b"").is_ok());
    assert!(read_config(b"# nothing\nHost box\n  User me\n").is_ok());
    match read_config(b"NoSuchField yes\n") {
        Err(BadConfig { cause: SshParserError::UnknownField(field, args) }) => {
            assert_eq!(field.to_lowercase(), "nosuchfield");
            assert_eq!(args, ["yes"]);
        }
        _ => panic!("not refused for its field"),
    }
    match read_config(b"Port many\n") {
        Err(BadConfig { cause }) => assert!(matches!(cause, SshParserError::ExpectedPort)),
        Ok(_) => panic!("not refused"),
    }
    match read_config(b"User \xff\n") {
        Err(BadConfig { cause }) => assert!(matches!(cause, SshParserError::Io(_))),
        Ok(_) => panic!("not refused"),
    }
}

#[test]
fn a_parsed_configuration_is_kept_and_a_failure_told() {
    let mut text: &[u8] = b"User root\n";
    let parsed = SshConfig::default().parse(&mut text, ParseRule::STRICT);
    let config = parsed_config(parsed).unwrap();
    assert_eq!(config.query("box").user, Some("root".to_string()));
    match parsed_config(Err(SshParserError::MissingArgument)) {
        Err(BadConfig { cause }) => assert!(matches!(cause, SshParserError::MissingArgument)),
        Ok(_) => panic!("not refused"),
    }
}

#[test]
fn the_system_program_needs_no_login() {
    match new_session("me@box", "secret", true) {
        NewSession::Ready(SSHData::Binary(host)) => assert_eq!(host, "me@box"),
        _ => panic!("not ready"),
    }
    match new_session("a@b@c", "", true) {
        NewSession::Ready(SSHData::Binary(host)) => assert_eq!(host, "a@b@c"),
        _ => panic!("not ready"),
    }
}

#[test]
fn a_login_starts_with_the_configuration() {
    let login = login("me@box");
    assert_eq!(login.host, "me@box");
    assert_eq!(login.password, "secret");
    assert!(matches!(login.stage, Stage::Config));
}

#[test]
fn the_configuration_of_the_typed_host_is_used() {
    let text = "Host box\n  HostName 10.0.0.7\n  Port 2022\n  User root\n  Compression yes\n  \
                TCPKeepAlive yes\n  ServerAliveInterval 40\n\nHost other\n  User nobody\n";
    match configured("box", text).stage {
        Stage::Connect(target, options) => {
            assert_eq!(target.username, "root");
            assert_eq!(target.address, "10.0.0.7:2022");
            assert_eq!(options.compress, Some(true));
            assert_eq!(options.keep_alive, Some(KeepAlive { want_reply: true, interval: 40 }));
        }
        _ => panic!("not connecting"),
    }
    match configured("other", text).stage {
        Stage::Connect(target, options) => {
            assert_eq!(target.username, "nobody");
            assert_eq!(target.address, "other:22");
            assert_eq!(options, SessionOptions { compress: None, keep_alive: None });
        }
        _ => panic!("not connecting"),
    }
    // The whole of what was typed is looked up, so `me@box` is another host.
    match configured("me@box", text).stage {
        Stage::Connect(target, _) => {
            assert_eq!(target.username, "me");
            assert_eq!(target.address, "box:22");
        }
        _ => panic!("not connecting"),
    }
}

#[test]
fn an_empty_configuration_sets_nothing() {
    match configured("me@box", "").stage {
        Stage::Connect(target, options) => {
            assert_eq!(target.username, "me");
            assert_eq!(target.address, "box:22");
            assert_eq!(options, SessionOptions { compress: None, keep_alive: None });
        }
        _ => panic!("not connecting"),
    }
}

#[test]
fn bad_targets_end_a_login_without_disconnecting() {
    assert!(matches!(
        configured("a@b@c", "").stage,
        Stage::Refused(LoginError::Target(TargetError::BadHost), None)
    ));
    assert!(matches!(
        configured("box", "").stage,
        Stage::Refused(LoginError::Target(TargetError::NoUsername), None)
    ));
}

#[test]
fn unreachable_hosts_end_a_login_without_disconnecting() {
    assert!(matches!(
        configured("me@box", "").advance(LoginEvent::Connected(false)).stage,
        Stage::Refused(LoginError::Unreachable, None)
    ));
}

#[test]
fn an_accepted_agent_establishes_a_session() {
    let login = at_agent();
    match &login.stage {
        Stage::Agent(target) => assert_eq!(target.username, "me"),
        _ => panic!("not at the agent"),
    }
    let login = login.advance(LoginEvent::Agent(Ok(())));
    assert!(matches!(login.stage, Stage::Established));
    let session = ssh2::Session::new().unwrap();
    let poll = mio::Poll::new().unwrap();
    let events = mio::Events::with_capacity(8);
    match login.into_session(session, poll, events) {
        SSHData::Native(host, ..) => assert_eq!(host, "me@box"),
        SSHData::Binary(_) => panic!("not native"),
    }
}

#[test]
fn a_refused_key_is_followed_by_the_password() {
    let refused = ErrorCode::Session(AUTHENTICATION_FAILED);
    assert_eq!(AUTHENTICATION_FAILED, -18);
    let login = at_agent().advance(LoginEvent::Agent(Err(refused)));
    match &login.stage {
        Stage::Password(target) => assert_eq!(target.username, "me"),
        _ => panic!("not at the password"),
    }
    let login = login.advance(LoginEvent::Password(true));
    assert!(matches!(login.stage, Stage::Confirm(_)));
    assert!(matches!(
        login.advance(LoginEvent::Authenticated(true)).stage,
        Stage::Established
    ));
}

#[test]
fn refused_logins_disconnect_once_the_host_was_reached() {
    let cancelled = Some(DisconnectCode::AuthCancelledByUser);
    let refused = ErrorCode::Session(AUTHENTICATION_FAILED);
    for code in [ErrorCode::Session(-34), ErrorCode::SFTP(-18), ErrorCode::Session(18)] {
        match at_agent().advance(LoginEvent::Agent(Err(code))).stage {
            Stage::Refused(LoginError::Agent, code) => assert_eq!(code, cancelled),
            _ => panic!("not refused"),
        }
    }
    let login = at_agent().advance(LoginEvent::Agent(Err(refused)));
    match login.advance(LoginEvent::Password(false)).stage {
        Stage::Refused(LoginError::Password, code) => assert_eq!(code, cancelled),
        _ => panic!("not refused"),
    }
    let login = at_agent()
        .advance(LoginEvent::Agent(Err(refused)))
        .advance(LoginEvent::Password(true));
    match login.advance(LoginEvent::Authenticated(false)).stage {
        Stage::Refused(LoginError::NotAuthenticated, code) => assert_eq!(code, cancelled),
        _ => panic!("not refused"),
    }
}

#[test]
fn batches_give_their_events_in_order() {
    let one = quiet();
    let two = Readiness { readable: true, ..one };
    let batch = Batch::new(vec![one, two]);
    assert_eq!(batch.first(), Some(one));
    let batch = batch.rest();
    assert_eq!(batch.first(), Some(two));
    assert_eq!(batch.rest().first(), None);
    assert_eq!(Batch::empty().first(), None);
}

#[test]
fn sockets_are_down_after_an_error_or_a_close() {
    assert!(!quiet().down());
    assert!(Readiness { error: true, ..quiet() }.down());
    assert!(Readiness { read_closed: true, ..quiet() }.down());
    assert!(Readiness { write_closed: true, ..quiet() }.down());
}

#[test]
fn a_known_peer_ends_the_check() {
    let check = Check::new();
    assert_eq!(check.stage(), CheckStage::Poll);
    let check = check.check_connected(CheckEvent::Polled(vec![quiet()]));
    assert_eq!(check.stage(), CheckStage::SocketError);
    let check = check.check_connected(CheckEvent::SocketError(TakenError::Clear));
    assert_eq!(check.stage(), CheckStage::PeerAddress);
    let check = check.check_connected(CheckEvent::Peer(PeerReply::Address));
    assert_eq!(check.stage(), CheckStage::Finished { connected: true, deregister: true });
}

#[test]
fn a_check_waits_while_the_connection_is_being_made() {
    let not_connected = PeerReply::Failed { not_connected: true, os_code: Some(107) };
    let in_progress = PeerReply::Failed { not_connected: false, os_code: Some(EINPROGRESS) };
    assert_eq!(EINPROGRESS, 115);
    let mut check = Check::new();
    for reply in [not_connected, in_progress, not_connected] {
        check = check
            .check_connected(CheckEvent::Polled(vec![quiet()]))
            .check_connected(CheckEvent::SocketError(TakenError::Clear))
            .check_connected(CheckEvent::Peer(reply));
        assert_eq!(check.stage(), CheckStage::Poll);
    }
    // A poll that timed out reports nothing.
    check = check.check_connected(CheckEvent::Polled(vec![]));
    assert_eq!(check.stage(), CheckStage::Poll);
    // The next event of the same poll is looked at before polling again.
    let hangup = Readiness { write_closed: true, ..quiet() };
    check = check
        .check_connected(CheckEvent::Polled(vec![quiet(), hangup]))
        .check_connected(CheckEvent::SocketError(TakenError::Clear))
        .check_connected(CheckEvent::Peer(not_connected));
    assert_eq!(check.stage(), CheckStage::Finished { connected: false, deregister: false });
}

#[test]
fn broken_sockets_end_the_check() {
    let failed = CheckStage::Finished { connected: false, deregister: false };
    let left = CheckStage::Finished { connected: false, deregister: true };
    assert_eq!(Check::new().check_connected(CheckEvent::PollFailed).stage(), failed);
    for event in [
        Readiness { error: true, ..quiet() },
        Readiness { read_closed: true, ..quiet() },
        Readiness { write_closed: true, token: 9, ..quiet() },
    ] {
        let check = Check::new().check_connected(CheckEvent::Polled(vec![event]));
        assert_eq!(check.stage(), failed);
    }
    for taken in [TakenError::Failed, TakenError::Pending] {
        let check = Check::new()
            .check_connected(CheckEvent::Polled(vec![quiet()]))
            .check_connected(CheckEvent::SocketError(taken));
        assert_eq!(check.stage(), left);
    }
    let other = PeerReply::Failed { not_connected: false, os_code: Some(22) };
    let check = Check::new()
        .check_connected(CheckEvent::Polled(vec![quiet()]))
        .check_connected(CheckEvent::SocketError(TakenError::Clear))
        .check_connected(CheckEvent::Peer(other));
    assert_eq!(check.stage(), left);
}

#[test]
fn foreign_tokens_are_told_apart() {
    let foreign = Readiness { token: SSH_TOKEN + 1, ..quiet() };
    let check = Check::new().check_connected(CheckEvent::Polled(vec![foreign]));
    assert_eq!(check.stage(), CheckStage::Foreign);
}

#[test]
fn the_first_usable_address_is_connected_to() {
    let connect = Connect::new();
    assert_eq!(connect.stage, ConnectStage::Resolve);
    let connect = connect.connect_tcp(ConnectEvent::Resolved(4));
    assert_eq!(connect.stage, ConnectStage::Dial(0));
    let connect = connect.connect_tcp(ConnectEvent::Dialled(false));
    assert_eq!(connect.stage, ConnectStage::Dial(1));
    let connect = connect.connect_tcp(ConnectEvent::Dialled(true));
    assert_eq!(connect.stage, ConnectStage::Check(1));
    let connect = connect.connect_tcp(ConnectEvent::Checked(false));
    assert_eq!(connect.stage, ConnectStage::Dial(2));
    let connect = connect
        .connect_tcp(ConnectEvent::Dialled(true))
        .connect_tcp(ConnectEvent::Checked(true));
    assert_eq!(connect.stage, ConnectStage::Connected(2));
}

#[test]
fn without_a_usable_address_connecting_fails() {
    let resolve = Connect::new();
    assert_eq!(resolve.connect_tcp(ConnectEvent::ResolveFailed).stage, ConnectStage::Failed);
    assert_eq!(resolve.connect_tcp(ConnectEvent::Resolved(0)).stage, ConnectStage::Failed);
    let one = resolve.connect_tcp(ConnectEvent::Resolved(1));
    assert_eq!(one.connect_tcp(ConnectEvent::Dialled(false)).stage, ConnectStage::Failed);
    let checked = one
        .connect_tcp(ConnectEvent::Dialled(true))
        .connect_tcp(ConnectEvent::Checked(false));
    assert_eq!(checked.stage, ConnectStage::Failed);
}
