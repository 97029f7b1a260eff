use tokio_util::sync::CancellationToken;

use dictyped::client_store::ClientStore;
use dictyped::config_store::ConfigFile;
use dictyped::profile_config::ProfileConfig;
use dictyped::pulseaudio_config::PulseAudioConfig;
use dictyped::qwen_config::QwenV3Config;
use dictyped::service::SessionCoordinator;
use dictyped::service::StartError;

fn empty_coordinator() -> SessionCoordinator {
    SessionCoordinator::new(ClientStore::load(ConfigFile::default()))
}

fn coordinator_with_profile(name: &str) -> SessionCoordinator {
    let mut config = ConfigFile::new(PulseAudioConfig {
        preferred_source_name: None,
    });
    config.insert_profile(
        name.to_string(),
        ProfileConfig::QwenV3(QwenV3Config {
            dashscope_api_key: String::from("key"),
            dashscope_websocket_url: None,
            language: None,
            turn_detection: None,
        }),
    );
    SessionCoordinator::new(ClientStore::load(config))
}

#[test]
fn transcribe_returns_invalid_argument_for_unknown_profile() {
    let mut service = empty_coordinator();
    let err = service
        .begin_session("missing-profile", CancellationToken::new())
        .expect_err("must fail");
    match err {
        StartError::ProfileNotFound(name) => assert_eq!(name, "missing-profile"),
        _ => panic!("profile not found"),
    }
    assert!(!service.stop());
}

#[test]
fn transcribe_repeated_unknown_profile_calls_are_handled() {
    let mut service = empty_coordinator();
    let first = service.begin_session("missing-profile", CancellationToken::new());
    let Err(StartError::ProfileNotFound(_)) = first else {
        panic!("first call must fail")
    };
    let second = service.begin_session("missing-profile", CancellationToken::new());
    let Err(StartError::ProfileNotFound(_)) = second else {
        panic!("second call must fail")
    };
    assert!(!service.stop());
}

#[test]
fn second_start_is_rejected_while_first_is_active() {
    let mut service = coordinator_with_profile("known");
    service
        .begin_session("known", CancellationToken::new())
        .expect("first start must be admitted");
    let second = service.begin_session("known", CancellationToken::new());
    assert!(matches!(second, Err(StartError::AlreadyActive)));
    assert!(service.stop());
}

#[test]
fn start_is_rejected_even_when_the_active_token_is_cancelled() {
    let mut service = coordinator_with_profile("known");
    let token = CancellationToken::new();
    service
        .begin_session("known", token.clone())
        .expect("first start must be admitted");
    token.cancel();
    let second = service.begin_session("known", CancellationToken::new());
    assert!(matches!(second, Err(StartError::AlreadyActive)));
}

#[test]
fn stop_without_session_reports_false_and_changes_nothing() {
    let mut service = coordinator_with_profile("known");
    assert!(!service.stop());
    assert!(!service.stop());
    service
        .begin_session("known", CancellationToken::new())
        .expect("start must still be admitted after idle stops");
}

#[test]
fn stop_cancels_the_installed_token() {
    let mut service = coordinator_with_profile("known");
    let token = CancellationToken::new();
    service
        .begin_session("known", token.clone())
        .expect("start must be admitted");
    assert!(!token.is_cancelled());
    assert!(service.stop());
    assert!(token.is_cancelled());
}

#[test]
fn dropped_stream_cancellation_frees_the_slot_for_a_new_start() {
    let mut service = coordinator_with_profile("known");
    let token = CancellationToken::new();
    service
        .begin_session("known", token.clone())
        .expect("start must be admitted");

    // The caller drops the response stream: its guard cancels the session
    // token, the audio source and the backend connection observe it and
    // unwind, and the relay task frees the slot on its way out.
    token.cancel();
    assert!(token.is_cancelled());
    service.stop();

    service
        .begin_session("known", CancellationToken::new())
        .expect("a new start on the same profile must be admitted");
}
