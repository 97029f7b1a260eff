//! The session update request of the Qwen-style protocol: sent once the
//! backend has created the session, it fixes the audio format and carries
//! the configured language and turn detection.

use vstd::prelude::*;
use vstd::string::StringExecFns;

use crate::qwen_config::QwenV3Config;
use crate::qwen_config::TurnDetection;
use crate::qwen_types::dec_digits;
use crate::qwen_types::u64_to_dec;
use crate::qwen_types::Language;

verus! {

/// The audio encodings the backend accepts; this daemon always uses PCM.
#[derive(Clone, Copy, Debug, PartialEq, Eq, Structural)]
pub enum InputAudioFormat {
    Pcm,
    Opus,
}

/// The transcription options of the session.
pub struct InputAudioTranscription {
    pub language: Language,
}

/// The session parameters announced to the backend: fixed 16 kHz PCM, and
/// the configured options.
pub struct Session {
    pub input_audio_format: InputAudioFormat,
    pub sample_rate: u32,
    pub input_audio_transcription: Option<InputAudioTranscription>,
    pub turn_detection: Option<TurnDetection>,
}

/// The session update request.
pub struct Request {
    pub event_id: String,
    pub session: Session,
}

impl Request {
    /// Builds the update for the `event_id`-th client event: always 16 kHz
    /// single-channel PCM; language and turn detection exactly as
    /// configured.
    pub fn new(event_id: u64, config: &QwenV3Config) -> (r: Self)
        ensures
            r.event_id@ == "session_update_"@ + dec_digits(event_id),
            r.session.input_audio_format is Pcm,
            r.session.sample_rate == 16000,
            match config.language {
                Some(l) => r.session.input_audio_transcription matches Some(t) && t.language == l,
                None => r.session.input_audio_transcription is None,
            },
            match config.turn_detection {
                Some(td) => r.session.turn_detection matches Some(w) && w == td,
                None => r.session.turn_detection is None,
            },
    {
        let mut event_id_text = String::from_str("session_update_");
        let digits = u64_to_dec(event_id);
        event_id_text.append(digits.as_str());
        let session = Session {
            input_audio_format: InputAudioFormat::Pcm,
            sample_rate: 16000,
            input_audio_transcription: match config.language {
                Some(language) => Some(InputAudioTranscription { language }),
                None => None,
            },
            turn_detection: match &config.turn_detection {
                Some(td) => Some(td.clone()),
                None => None,
            },
        };
        Request { event_id: event_id_text, session }
    }
}

} // verus!
