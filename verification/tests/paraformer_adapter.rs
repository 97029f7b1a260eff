use dictyped::events::AdapterError;
use dictyped::events::AudioInput;
use dictyped::events::TranscriptionEvent;
use dictyped::events::TransportInput;
use dictyped::paraformer_config::LanguageHint;
use dictyped::paraformer_config::ParaformerV2Config;
use dictyped::paraformer_finish_task::Request as FinishRequest;
use dictyped::paraformer_machine::ParaformerAction;
use dictyped::paraformer_machine::ParaformerInput;
use dictyped::paraformer_machine::ParaformerMachine;
use dictyped::paraformer_results::Event;
use dictyped::paraformer_results::Header;
use dictyped::paraformer_results::ParaformerSentence;
use dictyped::paraformer_results::Payload;
use dictyped::paraformer_results::PayloadOutput;
use dictyped::paraformer_results::Response;
use dictyped::paraformer_results::ServerEvent;
use dictyped::paraformer_run_task::Request as RunTaskRequest;

fn result_message(text: &str, begin_time: u32, sentence_end: bool) -> ParaformerInput {
    ParaformerInput::Server(ServerEvent::ResultGenerated(Response {
        header: Header {
            task_id: String::from("task-1"),
            event: Event::ResultGenerated,
        },
        payload: Payload {
            output: PayloadOutput {
                sentence: ParaformerSentence {
                    begin_time,
                    end_time: None,
                    text: text.to_string(),
                    heartbeat: None,
                    sentence_end,
                    words: Vec::new(),
                },
            },
            usage: None,
        },
    }))
}

fn emitted(actions: &[ParaformerAction]) -> Vec<Result<TranscriptionEvent, AdapterError>> {
    let mut out = Vec::new();
    for action in actions {
        if let ParaformerAction::Emit(r) = action {
            out.push(match r {
                Ok(e) => Ok(TranscriptionEvent {
                    text: e.text.clone(),
                    begin_time: e.begin_time,
                    sentence_end: e.sentence_end,
                }),
                Err(e) => Err(e.clone()),
            });
        }
    }
    out
}

#[test]
fn handshake_then_results_then_finish_ends_without_error() {
    // Handshake acknowledgement, two interim results with growing text,
    // audio exhausted, the final result, the finish acknowledgement, and
    // the server's disconnect: exactly three events, in order, the third
    // final, and no trailing error.
    let mut machine = ParaformerMachine::new(String::from("task-1"));
    let mut events = Vec::new();

    let acts = machine.step(ParaformerInput::Server(ServerEvent::TaskStarted));
    assert!(acts.is_empty());

    events.extend(emitted(&machine.step(result_message("好", 170, false))));
    events.extend(emitted(&machine.step(result_message("好，我", 170, false))));

    let acts = machine.step(ParaformerInput::Audio(AudioInput::End));
    assert!(matches!(
        acts.as_slice(),
        [ParaformerAction::SendFinish { task_id }] if task_id == "task-1"
    ));

    events.extend(emitted(&machine.step(result_message("好，我知道了", 170, true))));

    let acts = machine.step(ParaformerInput::Server(ServerEvent::TaskFinished));
    assert!(matches!(
        acts.as_slice(),
        [ParaformerAction::CloseConnection]
    ));

    let acts = machine.step(ParaformerInput::Transport(TransportInput::Disconnected));
    assert!(matches!(acts.as_slice(), [ParaformerAction::End]));

    assert_eq!(events.len(), 3);
    let texts: Vec<&str> = events
        .iter()
        .map(|e| e.as_ref().expect("no error events").text.as_str())
        .collect();
    assert_eq!(texts, ["好", "好，我", "好，我知道了"]);
    assert!(events[2].as_ref().unwrap().sentence_end);
    assert!(!events[0].as_ref().unwrap().sentence_end);
}

#[test]
fn events_keep_the_servers_emission_order() {
    // Audio chunks interleaved arbitrarily with server results: the emitted
    // events are exactly the results, in the server's order.
    let mut machine = ParaformerMachine::new(String::from("task-1"));
    machine.step(ParaformerInput::Server(ServerEvent::TaskStarted));

    let mut events = Vec::new();
    events.extend(emitted(
        &machine.step(ParaformerInput::Audio(AudioInput::Chunk(vec![1, 2]))),
    ));
    events.extend(emitted(&machine.step(result_message("a", 10, false))));
    events.extend(emitted(
        &machine.step(ParaformerInput::Audio(AudioInput::Chunk(vec![3]))),
    ));
    events.extend(emitted(
        &machine.step(ParaformerInput::Transport(TransportInput::Ping(vec![9]))),
    ));
    events.extend(emitted(&machine.step(result_message("ab", 10, false))));
    events.extend(emitted(
        &machine.step(ParaformerInput::Audio(AudioInput::Chunk(vec![4, 5, 6]))),
    ));
    events.extend(emitted(&machine.step(result_message("abc", 10, true))));

    let texts: Vec<&str> = events
        .iter()
        .map(|e| e.as_ref().expect("no error events").text.as_str())
        .collect();
    assert_eq!(texts, ["a", "ab", "abc"]);
}

#[test]
fn audio_chunks_are_forwarded_while_streaming() {
    let mut machine = ParaformerMachine::new(String::from("t"));
    assert!(!machine.audio_arm_enabled());
    machine.step(ParaformerInput::Server(ServerEvent::TaskStarted));
    assert!(machine.audio_arm_enabled());
    let acts = machine.step(ParaformerInput::Audio(AudioInput::Chunk(vec![7, 8, 9])));
    assert!(matches!(
        acts.as_slice(),
        [ParaformerAction::SendAudio(c)] if c == &vec![7, 8, 9]
    ));
    machine.step(ParaformerInput::Audio(AudioInput::End));
    assert!(!machine.audio_arm_enabled());
}

#[test]
fn task_failure_is_a_terminal_connection_error() {
    let mut machine = ParaformerMachine::new(String::from("t"));
    machine.step(ParaformerInput::Server(ServerEvent::TaskStarted));
    let acts = machine.step(ParaformerInput::Server(ServerEvent::TaskFailed {
        error_code: String::from("4100"),
        error_message: String::from("bad request"),
    }));
    assert!(matches!(
        acts.as_slice(),
        [
            ParaformerAction::Emit(Err(AdapterError::Connection)),
            ParaformerAction::CloseConnection,
            ParaformerAction::End
        ]
    ));
    assert!(machine.is_done());
}

#[test]
fn malformed_server_text_fails_fast() {
    let mut machine = ParaformerMachine::new(String::from("t"));
    let acts = machine.step(ParaformerInput::Transport(TransportInput::Malformed(
        String::from("{not json"),
    )));
    assert!(matches!(
        acts.as_slice(),
        [
            ParaformerAction::Emit(Err(AdapterError::Protocol(text))),
            ParaformerAction::End
        ] if text == "{not json"
    ));
    assert!(machine.is_done());
}

#[test]
fn audio_failure_is_surfaced_without_ending_the_stream() {
    let mut machine = ParaformerMachine::new(String::from("t"));
    machine.step(ParaformerInput::Server(ServerEvent::TaskStarted));
    let acts = machine.step(ParaformerInput::Audio(AudioInput::Failed(String::from(
        "device gone",
    ))));
    assert!(matches!(
        acts.as_slice(),
        [ParaformerAction::Emit(Err(AdapterError::Audio(m)))] if m == "device gone"
    ));
    assert!(!machine.is_done());
}

#[test]
fn close_frame_reason_is_surfaced() {
    let mut machine = ParaformerMachine::new(String::from("t"));
    let acts = machine.step(ParaformerInput::Transport(TransportInput::CloseFrame(
        Some(String::from("going away")),
    )));
    assert!(matches!(
        acts.as_slice(),
        [ParaformerAction::Emit(Err(AdapterError::Closed(r)))] if r == "going away"
    ));
    assert!(!machine.is_done());
}

#[test]
fn pings_are_answered_transparently() {
    let mut machine = ParaformerMachine::new(String::from("t"));
    let acts = machine.step(ParaformerInput::Transport(TransportInput::Ping(vec![1])));
    assert!(matches!(
        acts.as_slice(),
        [ParaformerAction::SendPong(d)] if d == &vec![1]
    ));
    let acts = machine.step(ParaformerInput::Transport(TransportInput::Pong));
    assert!(acts.is_empty());
}

#[test]
fn write_failure_is_a_terminal_connection_error() {
    let mut machine = ParaformerMachine::new(String::from("t"));
    machine.step(ParaformerInput::Server(ServerEvent::TaskStarted));
    let acts = machine.step(ParaformerInput::Transport(TransportInput::SendFailed));
    assert!(matches!(
        acts.as_slice(),
        [
            ParaformerAction::Emit(Err(AdapterError::Connection)),
            ParaformerAction::End
        ]
    ));
    assert!(machine.is_done());
}

#[test]
fn an_unexpected_frame_kind_fails_fast() {
    let mut machine = ParaformerMachine::new(String::from("t"));
    let acts = machine.step(ParaformerInput::Transport(TransportInput::Unexpected(
        String::from("binary frame"),
    )));
    assert!(matches!(
        acts.as_slice(),
        [
            ParaformerAction::Emit(Err(AdapterError::Protocol(what))),
            ParaformerAction::End
        ] if what == "binary frame"
    ));
    assert!(machine.is_done());
}

#[test]
fn run_task_request_carries_the_configuration() {
    let config = ParaformerV2Config::from_parts(
        String::from("key"),
        vec![LanguageHint::En, LanguageHint::Zh],
    );
    let request = RunTaskRequest::new(&config);
    assert_eq!(request.header.action, "run-task");
    assert_eq!(request.header.task_id.len(), 36);
    assert_eq!(request.payload.task_group, "audio");
    assert_eq!(request.payload.task, "asr");
    assert_eq!(request.payload.function, "recognition");
    assert_eq!(request.payload.model, "paraformer-realtime-v2");
    assert_eq!(request.payload.parameters.sample_rate, 16000);
    let hints = request.payload.parameters.language_hints.as_ref().unwrap();
    assert_eq!(hints.len(), 2);

    let bare = ParaformerV2Config::from_parts(String::from("key"), Vec::new());
    let request = RunTaskRequest::new(&bare);
    assert!(request.payload.parameters.language_hints.is_none());
}

#[test]
fn finish_request_addresses_the_running_task() {
    let request = FinishRequest::new("task-42");
    assert_eq!(request.header.action, "finish-task");
    assert_eq!(request.header.task_id, "task-42");
}
