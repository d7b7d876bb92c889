use konnect::events::Notification;
use konnect::models::{Connection, SshAuth, SshConfig};
use konnect::registry::SessionRegistry;
use konnect::ssh::commands::{
    close_ssh_terminal, create_ssh_terminal, creation_failure, resize_failure,
    resize_ssh_terminal, test_ssh_connection, write_failure, write_to_ssh_terminal, CreateSsh,
};
use konnect::ssh::session::{
    worker_continues, worker_on_control, worker_on_message, ChannelMessage, ChannelRequest,
    SetupAction, SetupPhase, SshControl, SshError, SshSession,
};

fn remote_profile(id: &str) -> Connection {
    Connection::ssh(
        id.to_string(),
        "prod".to_string(),
        SshConfig {
            host: "example.org".to_string(),
            port: 22,
            username: "ada".to_string(),
            auth: SshAuth::Password("pw".to_string()),
        },
    )
}

fn session() -> SshSession {
    let remote = remote_profile("t1").ssh_config.expect("remote profile");
    SshSession::new(remote, "t1".to_string()).0
}

#[test]
fn a_write_command_carries_the_bytes() {
    match session().write(b"ls -la\n") {
        SshControl::Write(data) => assert_eq!(data, b"ls -la\n".to_vec()),
        other => panic!("expected a write, got {:?}", other),
    }
}

#[test]
fn a_resize_command_carries_rows_and_cols() {
    match session().resize(40, 120) {
        SshControl::Resize { rows, cols } => {
            assert_eq!(rows, 40);
            assert_eq!(cols, 120);
        }
        other => panic!("expected a resize, got {:?}", other),
    }
}

#[test]
fn the_worker_sends_written_bytes_as_they_are() {
    match worker_on_control(SshControl::Write(vec![0, 159, 146, 150, 10])) {
        ChannelRequest::Data(data) => assert_eq!(data, vec![0, 159, 146, 150, 10]),
        other => panic!("expected data, got {:?}", other),
    }
}

#[test]
fn the_worker_announces_a_resize_in_cells() {
    match worker_on_control(SshControl::Resize { rows: 40, cols: 120 }) {
        ChannelRequest::WindowChange { cols, rows, pixel_width, pixel_height } => {
            assert_eq!(cols, 120);
            assert_eq!(rows, 40);
            assert_eq!(pixel_width, 0);
            assert_eq!(pixel_height, 0);
        }
        other => panic!("expected a window change, got {:?}", other),
    }
}

#[test]
fn queued_writes_are_sent_in_the_order_queued() {
    let s = session();
    let queued = vec![s.write(b"a"), s.resize(10, 20), s.write(b"b")];
    let sent: Vec<ChannelRequest> = queued.into_iter().map(worker_on_control).collect();
    assert_eq!(sent.len(), 3);
    assert!(matches!(&sent[0], ChannelRequest::Data(d) if d == b"a"));
    assert!(matches!(&sent[1], ChannelRequest::WindowChange { cols: 20, rows: 10, .. }));
    assert!(matches!(&sent[2], ChannelRequest::Data(d) if d == b"b"));
}

#[test]
fn a_refused_request_does_not_stop_the_worker() {
    assert!(worker_continues(&Ok(())));
    assert!(worker_continues(&Err("channel send error".to_string())));
}

#[test]
fn a_credential_failure_names_its_phase_to_the_caller() {
    assert_eq!(
        creation_failure(&SshError::Credential("No such file".to_string())),
        "Failed to create SSH session: Authentication error: No such file"
    );
    let refused = SshError::InvalidKey(russh::keys::Error::CouldNotReadKey);
    assert!(creation_failure(&refused)
        .starts_with("Failed to create SSH session: Authentication error: "));
}

#[test]
fn channel_data_is_published_as_output() {
    match worker_on_message("t1", &ChannelMessage::Data(b"hello".to_vec())) {
        Some(Notification::Output { event, text }) => {
            assert_eq!(event, "terminal-output-t1");
            assert_eq!(text, "hello");
        }
        other => panic!("expected output, got {:?}", other),
    }
    match worker_on_message("t1", &ChannelMessage::Data(vec![0xc3, 0x28])) {
        Some(Notification::Output { text, .. }) => assert_eq!(text, "\u{fffd}("),
        other => panic!("expected output, got {:?}", other),
    }
}

#[test]
fn the_end_of_the_channel_ends_the_session() {
    for message in [ChannelMessage::Eof, ChannelMessage::ExitStatus(0), ChannelMessage::Closed] {
        match worker_on_message("t1", &message) {
            Some(Notification::Ended { event }) => assert_eq!(event, "terminal-exit-t1"),
            other => panic!("expected the end, got {:?}", other),
        }
    }
}

#[test]
fn other_channel_messages_are_passed_over() {
    assert!(worker_on_message("t1", &ChannelMessage::Other).is_none());
}

#[test]
fn create_begins_a_setup_for_a_free_id() {
    let sessions: SessionRegistry<u8> = SessionRegistry::new();
    match create_ssh_terminal(remote_profile("t1"), &sessions) {
        Ok(CreateSsh::Begin(session, action)) => {
            assert_eq!(session.id(), "t1");
            assert_eq!(session.phase(), SetupPhase::Connecting);
            assert!(matches!(action, SetupAction::Connect { port: 22, .. }));
        }
        _ => panic!("expected a setup to begin"),
    }
}

#[test]
fn create_on_a_registered_id_opens_nothing() {
    let mut sessions: SessionRegistry<u8> = SessionRegistry::new();
    sessions.create("t1".to_string(), 1);
    assert!(matches!(
        create_ssh_terminal(remote_profile("t1"), &sessions),
        Ok(CreateSsh::AlreadyExists)
    ));
    let local = Connection::local("t1".to_string(), "x".to_string());
    assert!(matches!(create_ssh_terminal(local, &sessions), Ok(CreateSsh::AlreadyExists)));
    assert_eq!(sessions.lookup("t1"), Some(&1));
}

#[test]
fn create_without_a_remote_host_is_refused() {
    let sessions: SessionRegistry<u8> = SessionRegistry::new();
    let local = Connection::local("t1".to_string(), "x".to_string());
    match create_ssh_terminal(local, &sessions) {
        Err(text) => assert_eq!(text, "SSH config is required for SSH connection"),
        Ok(_) => panic!("a profile without a remote host was accepted"),
    }
}

#[test]
fn a_failed_create_is_reported_with_its_phase() {
    assert_eq!(
        creation_failure(&SshError::Transport("timed out".to_string())),
        "Failed to create SSH session: Connection failed: timed out"
    );
    assert_eq!(
        creation_failure(&SshError::MfaTimeout),
        "Failed to create SSH session: MFA authentication error: MFA authentication timeout"
    );
    assert_eq!(
        creation_failure(&SshError::MfaRejected),
        "Failed to create SSH session: SSH MFA authentication failed"
    );
}

#[test]
fn the_connection_test_is_not_offered() {
    assert_eq!(
        test_ssh_connection(),
        Err("Connection test not implemented yet. Use create_ssh_terminal to test.".to_string())
    );
}

#[test]
fn write_to_a_registered_session_builds_the_command() {
    let mut sessions: SessionRegistry<u8> = SessionRegistry::new();
    sessions.create("t1".to_string(), 7);
    let (handle, command) = write_to_ssh_terminal("t1", "echo \u{00e9}\n", &sessions).expect("ok");
    assert_eq!(*handle, 7);
    match command {
        SshControl::Write(data) => assert_eq!(data, "echo \u{00e9}\n".as_bytes().to_vec()),
        other => panic!("expected a write, got {:?}", other),
    }
}

#[test]
fn write_to_an_unknown_session_is_an_error() {
    let sessions: SessionRegistry<u8> = SessionRegistry::new();
    match write_to_ssh_terminal("t9", "x", &sessions) {
        Err(text) => assert_eq!(text, "Session t9 not found"),
        Ok(_) => panic!("an unknown session was found"),
    }
}

#[test]
fn resize_of_an_unknown_session_is_passed_over() {
    let mut sessions: SessionRegistry<u8> = SessionRegistry::new();
    assert!(resize_ssh_terminal("t1", 40, 120, &sessions).is_none());
    sessions.create("t1".to_string(), 7);
    let (handle, command) = resize_ssh_terminal("t1", 40, 120, &sessions).expect("registered");
    assert_eq!(*handle, 7);
    assert!(matches!(command, SshControl::Resize { rows: 40, cols: 120 }));
}

#[test]
fn a_write_after_close_is_not_found() {
    let mut sessions: SessionRegistry<u8> = SessionRegistry::new();
    sessions.create("t1".to_string(), 7);
    sessions.create("t2".to_string(), 8);
    assert_eq!(close_ssh_terminal("t1", &mut sessions), Some(7));
    assert_eq!(
        write_to_ssh_terminal("t1", "x", &sessions).err(),
        Some("Session t1 not found".to_string())
    );
    assert!(write_to_ssh_terminal("t2", "x", &sessions).is_ok());
    assert_eq!(close_ssh_terminal("t1", &mut sessions), None);
}

#[test]
fn remote_failures_name_the_command() {
    assert_eq!(write_failure("channel closed"), "Write failed: channel closed");
    assert_eq!(resize_failure("channel closed"), "Resize failed: channel closed");
}
