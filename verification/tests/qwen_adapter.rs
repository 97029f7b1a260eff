use dictyped::events::AdapterError;
use dictyped::events::AudioInput;
use dictyped::events::TransportInput;
use dictyped::qwen_audio_append::Request as AppendRequest;
use dictyped::qwen_config::QwenV3Config;
use dictyped::qwen_config::TurnDetection;
use dictyped::qwen_machine::QwenAction;
use dictyped::qwen_machine::QwenInput;
use dictyped::qwen_machine::QwenMachine;
use dictyped::qwen_session_finish::Request as SessionFinishRequest;
use dictyped::qwen_session_update::Request as SessionUpdateRequest;
use dictyped::qwen_types::u64_to_dec;
use dictyped::qwen_types::Language;
use dictyped::qwen_types::ServerEvent;

#[test]
fn handshake_answers_session_created_with_an_update() {
    let mut machine = QwenMachine::new();
    assert!(!machine.audio_arm_enabled());
    let acts = machine.step(QwenInput::Server(ServerEvent::SessionCreated));
    assert!(matches!(
        acts.as_slice(),
        [QwenAction::SendUpdate { event_id: 0 }]
    ));
    assert!(machine.audio_arm_enabled());
}

#[test]
fn final_event_begin_time_matches_the_speech_start() {
    let mut machine = QwenMachine::new();
    machine.step(QwenInput::Server(ServerEvent::SessionCreated));
    machine.step(QwenInput::Server(ServerEvent::SpeechStarted {
        audio_start_ms: 1940,
    }));

    let acts = machine.step(QwenInput::Server(ServerEvent::TranscriptionText {
        text: String::from("你好"),
    }));
    let [QwenAction::Emit(Ok(interim))] = acts.as_slice() else {
        panic!("expected one interim event")
    };
    assert_eq!(interim.begin_time, 1940);
    assert!(!interim.sentence_end);
    assert_eq!(interim.text, "你好");

    let acts = machine.step(QwenInput::Server(ServerEvent::TranscriptionCompleted {
        transcript: String::from("你好。"),
    }));
    let [QwenAction::Emit(Ok(fin))] = acts.as_slice() else {
        panic!("expected one final event")
    };
    assert_eq!(fin.begin_time, 1940);
    assert!(fin.sentence_end);
    assert_eq!(fin.text, "你好。");
}

#[test]
fn a_second_utterance_gets_its_own_begin_time() {
    let mut machine = QwenMachine::new();
    machine.step(QwenInput::Server(ServerEvent::SessionCreated));

    machine.step(QwenInput::Server(ServerEvent::SpeechStarted {
        audio_start_ms: 100,
    }));
    machine.step(QwenInput::Server(ServerEvent::SpeechStopped));
    let acts = machine.step(QwenInput::Server(ServerEvent::TranscriptionCompleted {
        transcript: String::from("one"),
    }));
    let [QwenAction::Emit(Ok(first))] = acts.as_slice() else {
        panic!("expected a final event")
    };
    assert_eq!(first.begin_time, 100);

    machine.step(QwenInput::Server(ServerEvent::SpeechStarted {
        audio_start_ms: 2500,
    }));
    let acts = machine.step(QwenInput::Server(ServerEvent::TranscriptionCompleted {
        transcript: String::from("two"),
    }));
    let [QwenAction::Emit(Ok(second))] = acts.as_slice() else {
        panic!("expected a final event")
    };
    assert_eq!(second.begin_time, 2500);
}

#[test]
fn empty_interim_text_is_skipped() {
    let mut machine = QwenMachine::new();
    machine.step(QwenInput::Server(ServerEvent::SessionCreated));
    machine.step(QwenInput::Server(ServerEvent::SpeechStarted {
        audio_start_ms: 7,
    }));
    let acts = machine.step(QwenInput::Server(ServerEvent::TranscriptionText {
        text: String::new(),
    }));
    assert!(acts.is_empty());
}

#[test]
fn completion_with_no_open_utterance_is_a_protocol_violation() {
    let mut machine = QwenMachine::new();
    machine.step(QwenInput::Server(ServerEvent::SessionCreated));
    let acts = machine.step(QwenInput::Server(ServerEvent::TranscriptionCompleted {
        transcript: String::from("ghost"),
    }));
    assert!(matches!(
        acts.as_slice(),
        [
            QwenAction::Emit(Err(AdapterError::UnexpectedServerMessage)),
            QwenAction::End
        ]
    ));
    assert!(machine.is_done());
}

#[test]
fn a_second_speech_start_while_open_is_a_protocol_violation() {
    let mut machine = QwenMachine::new();
    machine.step(QwenInput::Server(ServerEvent::SessionCreated));
    machine.step(QwenInput::Server(ServerEvent::SpeechStarted {
        audio_start_ms: 1,
    }));
    let acts = machine.step(QwenInput::Server(ServerEvent::SpeechStarted {
        audio_start_ms: 2,
    }));
    assert!(matches!(
        acts.as_slice(),
        [
            QwenAction::Emit(Err(AdapterError::UnexpectedServerMessage)),
            QwenAction::End
        ]
    ));
    assert!(machine.is_done());
}

#[test]
fn audio_is_appended_with_running_event_ids_and_finish_follows_exhaustion() {
    let mut machine = QwenMachine::new();
    machine.step(QwenInput::Server(ServerEvent::SessionCreated));

    let acts = machine.step(QwenInput::Audio(AudioInput::Chunk(vec![1, 2, 3])));
    assert!(matches!(
        acts.as_slice(),
        [QwenAction::SendAppend { event_id: 1, audio }] if audio == &vec![1, 2, 3]
    ));

    let acts = machine.step(QwenInput::Audio(AudioInput::Chunk(vec![4])));
    assert!(matches!(
        acts.as_slice(),
        [QwenAction::SendAppend { event_id: 2, .. }]
    ));

    let acts = machine.step(QwenInput::Audio(AudioInput::End));
    assert!(matches!(
        acts.as_slice(),
        [QwenAction::SendFinish { event_id: 3 }]
    ));
    assert!(!machine.audio_arm_enabled());
}

#[test]
fn backend_error_events_are_terminal() {
    let mut machine = QwenMachine::new();
    let acts = machine.step(QwenInput::Server(ServerEvent::ErrorEvent));
    assert!(matches!(
        acts.as_slice(),
        [
            QwenAction::Emit(Err(AdapterError::Connection)),
            QwenAction::CloseConnection,
            QwenAction::End
        ]
    ));
    assert!(machine.is_done());
}

#[test]
fn connection_loss_ends_the_stream() {
    let mut machine = QwenMachine::new();
    let acts = machine.step(QwenInput::Transport(TransportInput::ConnError));
    assert!(matches!(
        acts.as_slice(),
        [
            QwenAction::Emit(Err(AdapterError::Connection)),
            QwenAction::End
        ]
    ));
    assert!(machine.is_done());

    let mut machine = QwenMachine::new();
    let acts = machine.step(QwenInput::Transport(TransportInput::Disconnected));
    assert!(matches!(acts.as_slice(), [QwenAction::End]));
    assert!(machine.is_done());
}

#[test]
fn append_request_base64_encodes_the_chunk() {
    let request = AppendRequest::new(5, &vec![0, 0, 0]);
    assert_eq!(request.event_id, "event_5");
    assert_eq!(request.audio, "AAAA");

    let empty = AppendRequest::new(0, &Vec::new());
    assert_eq!(empty.audio, "");

    let padded = AppendRequest::new(1, &vec![255, 236, 32, 85, 0]);
    assert_eq!(padded.audio, "/+wgVQA=");
}

#[test]
fn session_update_carries_the_configuration() {
    let config = QwenV3Config {
        dashscope_api_key: String::from("key"),
        dashscope_websocket_url: None,
        language: Some(Language::English),
        turn_detection: Some(TurnDetection {
            threshold_milli: 200,
            silence_duration_ms: 1000,
        }),
    };
    let request = SessionUpdateRequest::new(0, &config);
    assert_eq!(request.event_id, "session_update_0");
    assert_eq!(request.session.sample_rate, 16000);
    assert_eq!(
        request
            .session
            .input_audio_transcription
            .as_ref()
            .unwrap()
            .language,
        Language::English
    );
    assert_eq!(
        request.session.turn_detection.as_ref().unwrap().silence_duration_ms,
        1000
    );

    let finish = SessionFinishRequest::new(17);
    assert_eq!(finish.event_id, "session_finish_req_17");
}

#[test]
fn event_ids_spell_decimal_counters() {
    assert_eq!(u64_to_dec(0), "0");
    assert_eq!(u64_to_dec(9), "9");
    assert_eq!(u64_to_dec(10), "10");
    assert_eq!(u64_to_dec(1234567890), "1234567890");
}
