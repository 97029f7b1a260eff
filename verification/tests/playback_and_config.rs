use dictyped::client_store::ClientFactory;
use dictyped::client_store::ClientStore;
use dictyped::config_store::ConfigFile;
use dictyped::error::DictypeError;
use dictyped::paraformer_config::ParaformerV2Config;
use dictyped::playback::PcmPlaybackRecorder;
use dictyped::profile_config::ProfileConfig;
use dictyped::pulseaudio_config::PulseAudioConfig;
use dictyped::qwen_config::QwenV3Config;
use dictyped::qwen_config::TurnDetection;

fn synthetic_wav(payload_len: usize) -> Vec<u8> {
    let mut wav = vec![0u8; 44];
    for i in 0..payload_len {
        wav.push((i % 251) as u8);
    }
    wav
}

#[test]
fn emits_pcm_chunks() {
    let recorder = PcmPlaybackRecorder::new(synthetic_wav(8000)).unwrap();
    let mut audio_stream = recorder.create();
    let first = audio_stream.next_chunk().unwrap();
    assert!(!first.is_empty());
}

#[test]
fn chunks_cover_the_recording_in_order() {
    let recorder = PcmPlaybackRecorder::new(synthetic_wav(3205)).unwrap();
    assert_eq!(recorder.chunk_size, 3200);
    let mut stream = recorder.create();
    let first = stream.next_chunk().unwrap();
    assert_eq!(first.len(), 3200);
    let second = stream.next_chunk().unwrap();
    assert_eq!(second.len(), 5);
    assert!(stream.next_chunk().is_none());

    let mut replay = first;
    replay.extend(second);
    assert_eq!(replay, synthetic_wav(3205)[44..].to_vec());
}

#[test]
fn a_headerless_recording_is_refused() {
    let DictypeError::Io(message) = PcmPlaybackRecorder::new(vec![0u8; 44]).unwrap_err();
    assert_eq!(message, "wav payload is empty");
}

#[test]
fn profiles_resolve_to_their_backend_kind() {
    let mut config = ConfigFile::new(PulseAudioConfig {
        preferred_source_name: Some(String::from("front-mic")),
    });
    let paraformer = ProfileConfig::ParaformerV2(ParaformerV2Config::from_parts(
        String::from("key-a"),
        Vec::new(),
    ));
    let qwen = ProfileConfig::QwenV3(QwenV3Config {
        dashscope_api_key: String::from("key-b"),
        dashscope_websocket_url: None,
        language: None,
        turn_detection: None,
    });
    assert_eq!(paraformer.backend_name(), "ParaformerV2");
    assert_eq!(qwen.backend_name(), "QwenV3");

    config.insert_profile(String::from("fast"), paraformer);
    config.insert_profile(String::from("accurate"), qwen);
    assert_eq!(config.pulseaudio().preferred_source_name.as_deref(), Some("front-mic"));

    let store = ClientStore::load(config);
    match store.get_client_for_profile("fast").unwrap() {
        ClientFactory::ParaformerV2(f) => assert_eq!(f.options.dashscope_api_key, "key-a"),
        ClientFactory::QwenV3(_) => panic!("fast must resolve to the Paraformer backend"),
    }
    match store.get_client_for_profile("accurate").unwrap() {
        ClientFactory::QwenV3(f) => assert_eq!(f.options.dashscope_api_key, "key-b"),
        ClientFactory::ParaformerV2(_) => panic!("accurate must resolve to the Qwen backend"),
    }
    assert!(store.get_client_for_profile("missing").is_none());
}

#[test]
fn reinserting_a_profile_replaces_its_configuration() {
    let mut config = ConfigFile::new(PulseAudioConfig {
        preferred_source_name: None,
    });
    config.insert_profile(
        String::from("p"),
        ProfileConfig::ParaformerV2(ParaformerV2Config::from_parts(
            String::from("old"),
            Vec::new(),
        )),
    );
    config.insert_profile(
        String::from("p"),
        ProfileConfig::ParaformerV2(ParaformerV2Config::from_parts(
            String::from("new"),
            Vec::new(),
        )),
    );
    assert_eq!(config.profiles().len(), 1);
    let store = ClientStore::load(config);
    match store.get_client_for_profile("p").unwrap() {
        ClientFactory::ParaformerV2(f) => assert_eq!(f.options.dashscope_api_key, "new"),
        _ => panic!("p must resolve to the Paraformer backend"),
    }
}

#[test]
fn websocket_url_prefers_the_override() {
    let defaulted = QwenV3Config {
        dashscope_api_key: String::new(),
        dashscope_websocket_url: None,
        language: None,
        turn_detection: None,
    };
    assert_eq!(
        defaulted.websocket_url(),
        "wss://dashscope.aliyuncs.com/api-ws/v1/realtime?model=qwen3-asr-flash-realtime"
    );
    let overridden = QwenV3Config {
        dashscope_websocket_url: Some(String::from("wss://example.invalid/asr")),
        ..defaulted
    };
    assert_eq!(overridden.websocket_url(), "wss://example.invalid/asr");
}

#[test]
fn turn_detection_defaults_to_a_fifth_and_one_second() {
    let td = TurnDetection::default();
    assert_eq!(td.threshold_milli, 200);
    assert_eq!(td.silence_duration_ms, 1000);
}
