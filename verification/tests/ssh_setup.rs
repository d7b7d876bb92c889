use konnect::models::{SshAuth, SshConfig};
use konnect::ssh::mfa::{MfaPrompt, MfaResponseMap};
use konnect::ssh::session::{
    AcceptAnyHostKey, HostKeyPolicy, InteractiveReply, KexAlgorithm, SetupAction, SetupEvent,
    SetupPhase, SshError, SshSession, TransportSettings, CONTROL_QUEUE_CAPACITY,
};
use russh::keys::key::safe_rng;
use russh::keys::ssh_key::LineEnding;
use russh::keys::{Algorithm, PrivateKey};
use tokio::sync::oneshot::error::TryRecvError;

fn password_config() -> SshConfig {
    SshConfig {
        host: "bastion.example.org".to_string(),
        port: 2222,
        username: "ada".to_string(),
        auth: SshAuth::Password("hunter2".to_string()),
    }
}

fn key_config(passphrase: Option<&str>) -> SshConfig {
    SshConfig {
        host: "bastion.example.org".to_string(),
        port: 22,
        username: "ada".to_string(),
        auth: SshAuth::PublicKey {
            private_key_path: "/home/ada/.ssh/id_ed25519".to_string(),
            passphrase: passphrase.map(|s| s.to_string()),
        },
    }
}

fn begun(config: SshConfig) -> SshSession {
    SshSession::new(config, "t1".to_string()).0
}

fn at_primary_auth(pending: &mut MfaResponseMap) -> SshSession {
    let mut session = begun(password_config());
    session.step(SetupEvent::Connected, pending);
    assert_eq!(session.phase(), SetupPhase::PrimaryAuth);
    session
}

fn at_interactive_auth(pending: &mut MfaResponseMap) -> SshSession {
    let mut session = at_primary_auth(pending);
    session.step(SetupEvent::AuthRejected, pending);
    assert_eq!(session.phase(), SetupPhase::InteractiveAuth);
    session
}

fn challenge() -> InteractiveReply {
    InteractiveReply::InfoRequest {
        name: "otp".to_string(),
        instructions: "Enter your code".to_string(),
        prompts: vec![
            MfaPrompt { prompt: "Code: ".to_string(), echo: false },
            MfaPrompt { prompt: "Device: ".to_string(), echo: true },
        ],
    }
}

fn failure(action: SetupAction) -> SshError {
    match action {
        SetupAction::Fail(error) => error,
        other => panic!("expected a failure, got {:?}", other),
    }
}

#[test]
fn setup_begins_by_connecting() {
    let (session, action) = SshSession::new(password_config(), "t1".to_string());
    assert_eq!(session.id(), "t1");
    assert_eq!(session.phase(), SetupPhase::Connecting);
    assert!(!session.is_established());
    match action {
        SetupAction::Connect { host, port, settings } => {
            assert_eq!(host, "bastion.example.org");
            assert_eq!(port, 2222);
            assert_eq!(settings.inactivity_timeout_secs, None);
            assert_eq!(settings.keepalive_interval_secs, Some(30));
            assert_eq!(settings.keepalive_max, 6);
            assert_eq!(
                settings.kex,
                vec![
                    KexAlgorithm::Curve25519,
                    KexAlgorithm::DhG14Sha256,
                    KexAlgorithm::DhG16Sha512,
                    KexAlgorithm::DhG14Sha1,
                    KexAlgorithm::DhG1Sha1,
                    KexAlgorithm::ExtensionSupportAsClient,
                ]
            );
        }
        other => panic!("expected a connect, got {:?}", other),
    }
}

#[test]
fn terminal_transport_settings() {
    let settings = TransportSettings::for_terminal();
    assert_eq!(settings.inactivity_timeout_secs, None);
    assert_eq!(settings.keepalive_interval_secs, Some(30));
    assert_eq!(settings.keepalive_max, 6);
    assert_eq!(settings.kex.len(), 6);
    assert_eq!(settings.kex[0], KexAlgorithm::Curve25519);
}

#[test]
fn a_failed_connect_fails_the_setup() {
    let mut pending = MfaResponseMap::new();
    let mut session = begun(password_config());
    let error =
        failure(session.step(SetupEvent::ConnectFailed("refused".to_string()), &mut pending));
    assert_eq!(error.message(), "Connection failed: refused");
    assert_eq!(session.phase(), SetupPhase::Failed);
}

#[test]
fn password_setup_runs_to_established() {
    let mut pending = MfaResponseMap::new();
    let mut session = begun(password_config());
    match session.step(SetupEvent::Connected, &mut pending) {
        SetupAction::AuthenticatePassword { username, password } => {
            assert_eq!(username, "ada");
            assert_eq!(password, "hunter2");
        }
        other => panic!("expected password authentication, got {:?}", other),
    }
    assert_eq!(session.phase(), SetupPhase::PrimaryAuth);
    assert!(matches!(
        session.step(SetupEvent::AuthAccepted, &mut pending),
        SetupAction::OpenChannel
    ));
    assert_eq!(session.phase(), SetupPhase::OpeningChannel);
    match session.step(SetupEvent::ChannelOpened, &mut pending) {
        SetupAction::RequestPty { term, cols, rows, pixel_width, pixel_height } => {
            assert_eq!(term, "ada");
            assert_eq!(cols, 80);
            assert_eq!(rows, 24);
            assert_eq!(pixel_width, 0);
            assert_eq!(pixel_height, 0);
        }
        other => panic!("expected a terminal request, got {:?}", other),
    }
    assert_eq!(session.phase(), SetupPhase::RequestingPty);
    assert!(matches!(
        session.step(SetupEvent::PtyGranted, &mut pending),
        SetupAction::RequestShell
    ));
    assert_eq!(session.phase(), SetupPhase::RequestingShell);
    match session.step(SetupEvent::ShellStarted, &mut pending) {
        SetupAction::Attach { control_capacity } => assert_eq!(control_capacity, 100),
        other => panic!("expected the worker to be attached, got {:?}", other),
    }
    assert_eq!(session.phase(), SetupPhase::Established);
    assert!(session.is_established());
    assert!(!pending.is_pending("t1"));
}

#[test]
fn control_queue_holds_100_commands() {
    assert_eq!(CONTROL_QUEUE_CAPACITY, 100);
}

#[test]
fn an_established_session_ignores_setup_events() {
    let mut pending = MfaResponseMap::new();
    let mut session = at_primary_auth(&mut pending);
    session.step(SetupEvent::AuthAccepted, &mut pending);
    session.step(SetupEvent::ChannelOpened, &mut pending);
    session.step(SetupEvent::PtyGranted, &mut pending);
    session.step(SetupEvent::ShellStarted, &mut pending);
    assert!(matches!(session.step(SetupEvent::TimedOut, &mut pending), SetupAction::Idle));
    assert!(matches!(session.step(SetupEvent::Connected, &mut pending), SetupAction::Idle));
    assert!(session.is_established());
}

#[test]
fn a_failed_setup_stays_failed() {
    let mut pending = MfaResponseMap::new();
    let mut session = begun(password_config());
    session.step(SetupEvent::ConnectFailed("x".to_string()), &mut pending);
    assert!(matches!(session.step(SetupEvent::Connected, &mut pending), SetupAction::Idle));
    assert_eq!(session.phase(), SetupPhase::Failed);
}

#[test]
fn an_error_in_primary_authentication_is_fatal() {
    let mut pending = MfaResponseMap::new();
    let mut session = at_primary_auth(&mut pending);
    let error =
        failure(session.step(SetupEvent::AuthFailed("disconnected".to_string()), &mut pending));
    assert_eq!(error.message(), "Authentication error: disconnected");
    assert_eq!(session.phase(), SetupPhase::Failed);
    assert!(!pending.is_pending("t1"));
}

#[test]
fn a_rejection_starts_interactive_authentication() {
    let mut pending = MfaResponseMap::new();
    let mut session = at_primary_auth(&mut pending);
    match session.step(SetupEvent::AuthRejected, &mut pending) {
        SetupAction::StartInteractive { username } => assert_eq!(username, "ada"),
        other => panic!("expected interactive authentication, got {:?}", other),
    }
    assert_eq!(session.phase(), SetupPhase::InteractiveAuth);
    assert!(!pending.is_pending("t1"));
}

#[test]
fn rejection_then_refusal_without_challenge_fails() {
    let mut pending = MfaResponseMap::new();
    let mut session = at_interactive_auth(&mut pending);
    let error = failure(
        session.step(SetupEvent::Interactive(InteractiveReply::Failure), &mut pending),
    );
    assert!(matches!(error, SshError::MfaRejected));
    assert_eq!(error.message(), "SSH MFA authentication failed");
    assert_eq!(session.phase(), SetupPhase::Failed);
    assert!(!pending.is_pending("t1"));
}

#[test]
fn interactive_success_without_challenge_goes_on_to_the_channel() {
    let mut pending = MfaResponseMap::new();
    let mut session = at_interactive_auth(&mut pending);
    assert!(matches!(
        session.step(SetupEvent::Interactive(InteractiveReply::Success), &mut pending),
        SetupAction::OpenChannel
    ));
    assert_eq!(session.phase(), SetupPhase::OpeningChannel);
}

#[test]
fn an_empty_request_is_answered_at_once() {
    let mut pending = MfaResponseMap::new();
    let mut session = at_interactive_auth(&mut pending);
    let empty = InteractiveReply::InfoRequest {
        name: "".to_string(),
        instructions: "".to_string(),
        prompts: Vec::new(),
    };
    match session.step(SetupEvent::Interactive(empty), &mut pending) {
        SetupAction::Respond { responses } => assert!(responses.is_empty()),
        other => panic!("expected an empty answer, got {:?}", other),
    }
    assert_eq!(session.phase(), SetupPhase::InteractiveAuth);
    assert!(!pending.is_pending("t1"));
}

#[test]
fn a_challenge_goes_to_the_responder_and_waits() {
    let mut pending = MfaResponseMap::new();
    let mut session = at_interactive_auth(&mut pending);
    match session.step(SetupEvent::Interactive(challenge()), &mut pending) {
        SetupAction::Prompt { payload, mut answer, timeout_secs } => {
            assert_eq!(timeout_secs, 120);
            assert_eq!(payload.terminal_id, "t1");
            assert_eq!(payload.name, "otp");
            assert_eq!(payload.instructions, "Enter your code");
            assert_eq!(payload.prompts.len(), 2);
            assert_eq!(payload.prompts[0].prompt, "Code: ");
            assert!(!payload.prompts[0].echo);
            assert_eq!(payload.prompts[1].prompt, "Device: ");
            assert!(payload.prompts[1].echo);
            assert!(pending.is_pending("t1"));
            assert_eq!(
                pending.submit_response("t1", vec!["123456".to_string(), "phone".to_string()]),
                Ok(())
            );
            assert_eq!(answer.try_recv(), Ok(vec!["123456".to_string(), "phone".to_string()]));
        }
        other => panic!("expected a prompt, got {:?}", other),
    }
    assert_eq!(session.phase(), SetupPhase::AwaitingResponse);
}

#[test]
fn answers_are_sent_on_and_the_next_round_awaited() {
    let mut pending = MfaResponseMap::new();
    let mut session = at_interactive_auth(&mut pending);
    let _prompt = session.step(SetupEvent::Interactive(challenge()), &mut pending);
    match session.step(SetupEvent::Answered(vec!["1".to_string(), "2".to_string()]), &mut pending)
    {
        SetupAction::Respond { responses } => {
            assert_eq!(responses, vec!["1".to_string(), "2".to_string()])
        }
        other => panic!("expected the answers to be sent, got {:?}", other),
    }
    assert_eq!(session.phase(), SetupPhase::InteractiveAuth);
    assert!(matches!(
        session.step(SetupEvent::Interactive(InteractiveReply::Success), &mut pending),
        SetupAction::OpenChannel
    ));
}

#[test]
fn a_second_round_installs_a_fresh_challenge() {
    let mut pending = MfaResponseMap::new();
    let mut session = at_interactive_auth(&mut pending);
    let _first = session.step(SetupEvent::Interactive(challenge()), &mut pending);
    assert_eq!(pending.submit_response("t1", vec!["a".to_string()]), Ok(()));
    session.step(SetupEvent::Answered(vec!["a".to_string()]), &mut pending);
    assert!(!pending.is_pending("t1"));
    match session.step(SetupEvent::Interactive(challenge()), &mut pending) {
        SetupAction::Prompt { mut answer, .. } => {
            assert!(pending.is_pending("t1"));
            assert_eq!(answer.try_recv(), Err(TryRecvError::Empty));
        }
        other => panic!("expected a prompt, got {:?}", other),
    }
}

#[test]
fn a_timeout_fails_the_setup_and_forgets_the_challenge() {
    let mut pending = MfaResponseMap::new();
    let mut session = at_interactive_auth(&mut pending);
    let _prompt = session.step(SetupEvent::Interactive(challenge()), &mut pending);
    assert!(pending.is_pending("t1"));
    let error = failure(session.step(SetupEvent::TimedOut, &mut pending));
    assert!(matches!(error, SshError::MfaTimeout));
    assert_eq!(error.message(), "MFA authentication error: MFA authentication timeout");
    assert_eq!(session.phase(), SetupPhase::Failed);
    assert!(!pending.is_pending("t1"));
    assert!(pending.submit_response("t1", vec!["late".to_string()]).is_err());
}

#[test]
fn a_timeout_leaves_other_challenges_pending() {
    let mut pending = MfaResponseMap::new();
    let _other = pending.open_challenge("t2");
    let mut session = at_interactive_auth(&mut pending);
    let _prompt = session.step(SetupEvent::Interactive(challenge()), &mut pending);
    session.step(SetupEvent::TimedOut, &mut pending);
    assert!(pending.is_pending("t2"));
    assert!(!pending.is_pending("t1"));
}

#[test]
fn a_cancellation_fails_the_setup() {
    let mut pending = MfaResponseMap::new();
    let mut session = at_interactive_auth(&mut pending);
    let _prompt = session.step(SetupEvent::Interactive(challenge()), &mut pending);
    pending.discard("t1");
    let error = failure(session.step(SetupEvent::Cancelled, &mut pending));
    assert!(matches!(error, SshError::MfaCancelled));
    assert_eq!(
        error.message(),
        "MFA authentication error: MFA authentication cancelled by user"
    );
    assert_eq!(session.phase(), SetupPhase::Failed);
}

#[test]
fn an_error_in_interactive_authentication_is_fatal() {
    let mut pending = MfaResponseMap::new();
    let mut session = at_interactive_auth(&mut pending);
    let error = failure(
        session.step(SetupEvent::InteractiveFailed("connection reset".to_string()), &mut pending),
    );
    assert_eq!(error.message(), "MFA authentication error: connection reset");
    assert_eq!(session.phase(), SetupPhase::Failed);
}

#[test]
fn each_channel_step_fails_with_its_own_words() {
    let mut pending = MfaResponseMap::new();

    let mut session = at_primary_auth(&mut pending);
    session.step(SetupEvent::AuthAccepted, &mut pending);
    let error = failure(session.step(SetupEvent::ChannelFailed("e1".to_string()), &mut pending));
    assert_eq!(error.message(), "Failed to open channel: e1");

    let mut session = at_primary_auth(&mut pending);
    session.step(SetupEvent::AuthAccepted, &mut pending);
    session.step(SetupEvent::ChannelOpened, &mut pending);
    let error = failure(session.step(SetupEvent::ChannelFailed("e2".to_string()), &mut pending));
    assert_eq!(error.message(), "PTY request failed: e2");

    let mut session = at_primary_auth(&mut pending);
    session.step(SetupEvent::AuthAccepted, &mut pending);
    session.step(SetupEvent::ChannelOpened, &mut pending);
    session.step(SetupEvent::PtyGranted, &mut pending);
    let error = failure(session.step(SetupEvent::ChannelFailed("e3".to_string()), &mut pending));
    assert_eq!(error.message(), "Shell request failed: e3");
    assert_eq!(session.phase(), SetupPhase::Failed);
}

#[test]
fn an_event_out_of_turn_fails_the_setup() {
    let mut pending = MfaResponseMap::new();
    let mut session = begun(password_config());
    let error = failure(session.step(SetupEvent::ShellStarted, &mut pending));
    assert!(matches!(error, SshError::Unexpected));
    assert_eq!(error.message(), "Unexpected event during session setup");
    assert_eq!(session.phase(), SetupPhase::Failed);

    let mut session = at_primary_auth(&mut pending);
    let error = failure(session.step(SetupEvent::Interactive(challenge()), &mut pending));
    assert!(matches!(error, SshError::Unexpected));
    assert!(!pending.is_pending("t1"));
}

#[test]
fn a_key_credential_reads_the_key_file_first() {
    let mut pending = MfaResponseMap::new();
    let mut session = begun(key_config(None));
    match session.step(SetupEvent::Connected, &mut pending) {
        SetupAction::ReadKeyFile { path } => assert_eq!(path, "/home/ada/.ssh/id_ed25519"),
        other => panic!("expected the key file to be read, got {:?}", other),
    }
    assert_eq!(session.phase(), SetupPhase::ReadingKey);
}

#[test]
fn a_key_file_that_cannot_be_read_is_fatal() {
    let mut pending = MfaResponseMap::new();
    let mut session = begun(key_config(None));
    session.step(SetupEvent::Connected, &mut pending);
    let error = failure(
        session.step(SetupEvent::CredentialFailed("No such file".to_string()), &mut pending),
    );
    assert_eq!(error.message(), "Authentication error: No such file");
    assert_eq!(session.phase(), SetupPhase::Failed);
}

#[test]
fn text_that_is_no_key_is_fatal() {
    let mut pending = MfaResponseMap::new();
    let mut session = begun(key_config(None));
    session.step(SetupEvent::Connected, &mut pending);
    let error = failure(
        session.step(SetupEvent::KeyFileRead("this is not a key".to_string()), &mut pending),
    );
    assert!(matches!(error, SshError::InvalidKey(_)));
    let text = error.message();
    assert!(text.starts_with("Authentication error: "));
    assert!(text.len() > "Authentication error: ".len());
    assert_eq!(session.phase(), SetupPhase::Failed);
    assert!(!pending.is_pending("t1"));
}

#[test]
fn a_decoded_key_is_offered_to_the_server() {
    let generated = PrivateKey::random(&mut safe_rng(), Algorithm::Ed25519).expect("a key");
    let text = generated.to_openssh(LineEnding::LF).expect("key text").to_string();
    let mut pending = MfaResponseMap::new();
    let mut session = begun(key_config(None));
    session.step(SetupEvent::Connected, &mut pending);
    match session.step(SetupEvent::KeyFileRead(text), &mut pending) {
        SetupAction::AuthenticatePublicKey { username, key } => {
            assert_eq!(username, "ada");
            assert_eq!(key.public_key(), generated.public_key());
        }
        other => panic!("expected key authentication, got {:?}", other),
    }
    assert_eq!(session.phase(), SetupPhase::PrimaryAuth);
}

#[test]
fn an_encrypted_key_needs_its_passphrase() {
    let generated = PrivateKey::random(&mut safe_rng(), Algorithm::Ed25519).expect("a key");
    let locked = generated.encrypt(&mut safe_rng(), "open sesame").expect("encrypted key");
    let text = locked.to_openssh(LineEnding::LF).expect("key text").to_string();

    let mut pending = MfaResponseMap::new();
    let mut session = begun(key_config(None));
    session.step(SetupEvent::Connected, &mut pending);
    let error = failure(session.step(SetupEvent::KeyFileRead(text.clone()), &mut pending));
    assert!(matches!(error, SshError::InvalidKey(_)));

    let mut session = begun(key_config(Some("open sesame")));
    session.step(SetupEvent::Connected, &mut pending);
    match session.step(SetupEvent::KeyFileRead(text), &mut pending) {
        SetupAction::AuthenticatePublicKey { key, .. } => {
            assert_eq!(key.public_key(), generated.public_key());
        }
        other => panic!("expected key authentication, got {:?}", other),
    }
}

#[test]
fn key_decoded_continues_from_the_decoder() {
    let generated = PrivateKey::random(&mut safe_rng(), Algorithm::Ed25519).expect("a key");
    let mut pending = MfaResponseMap::new();
    let mut session = begun(key_config(None));
    session.step(SetupEvent::Connected, &mut pending);
    match session.key_decoded(Ok(generated.clone())) {
        SetupAction::AuthenticatePublicKey { username, key } => {
            assert_eq!(username, "ada");
            assert_eq!(key.public_key(), generated.public_key());
        }
        other => panic!("expected key authentication, got {:?}", other),
    }
    assert_eq!(session.phase(), SetupPhase::PrimaryAuth);

    let mut early = begun(key_config(None));
    let error = failure(early.key_decoded(Ok(generated)));
    assert!(matches!(error, SshError::Unexpected));
}

#[test]
fn a_rejected_key_falls_back_to_interactive_authentication() {
    let generated = PrivateKey::random(&mut safe_rng(), Algorithm::Ed25519).expect("a key");
    let mut pending = MfaResponseMap::new();
    let mut session = begun(key_config(None));
    session.step(SetupEvent::Connected, &mut pending);
    session.key_decoded(Ok(generated));
    assert!(matches!(
        session.step(SetupEvent::AuthRejected, &mut pending),
        SetupAction::StartInteractive { .. }
    ));
}

#[test]
fn setup_errors_have_their_texts() {
    assert_eq!(SshError::Transport("t".to_string()).message(), "Connection failed: t");
    assert_eq!(SshError::Credential("c".to_string()).message(), "Authentication error: c");
    assert_eq!(
        SshError::MfaCancelled.message(),
        "MFA authentication error: MFA authentication cancelled by user"
    );
    assert_eq!(
        SshError::MfaTimeout.message(),
        "MFA authentication error: MFA authentication timeout"
    );
    assert_eq!(SshError::Unexpected.message(), "Unexpected event during session setup");
    assert_eq!(SshError::Authentication("a".to_string()).message(), "Authentication error: a");
    assert_eq!(SshError::MfaRejected.message(), "SSH MFA authentication failed");
    assert_eq!(SshError::Mfa("m".to_string()).message(), "MFA authentication error: m");
    assert_eq!(SshError::Channel("c".to_string()).message(), "Failed to open channel: c");
    assert_eq!(SshError::Pty("p".to_string()).message(), "PTY request failed: p");
    assert_eq!(SshError::Shell("s".to_string()).message(), "Shell request failed: s");
}

#[test]
fn every_host_key_is_accepted() {
    assert!(AcceptAnyHostKey.verify(&[]));
    assert!(AcceptAnyHostKey.verify(&[1, 2, 3]));
}
