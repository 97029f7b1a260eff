//! The run-task request of the Paraformer-style protocol: the first message
//! on the connection, announcing the task and its recognition parameters.

use vstd::prelude::*;

use crate::paraformer_config::LanguageHint;
use crate::paraformer_config::ParaformerV2Config;

verus! {

/// An empty JSON object on the wire.
#[derive(Clone, Copy, Debug, PartialEq, Eq, Structural, Default)]
pub struct EmptyObj {}

/// The streaming mode; this protocol always runs duplex.
#[derive(Clone, Copy, Debug, PartialEq, Eq, Structural)]
pub enum Streaming {
    Duplex,
}

/// The audio format; this daemon always sends PCM.
#[derive(Clone, Copy, Debug, PartialEq, Eq, Structural)]
pub enum Format {
    Pcm,
}

/// A recognition language hint on the wire.
#[derive(Clone, Copy, Debug, PartialEq, Eq, Structural)]
pub enum Language {
    Mandarin,
    English,
    Japanese,
    Cantonese,
    Korean,
    German,
    French,
    Russian,
}

/// The wire language of a configured hint.
pub open spec fn language_of_hint(h: LanguageHint) -> Language {
    match h {
        LanguageHint::Zh => Language::Mandarin,
        LanguageHint::En => Language::English,
        LanguageHint::Ja => Language::Japanese,
        LanguageHint::Yue => Language::Cantonese,
        LanguageHint::Ko => Language::Korean,
        LanguageHint::De => Language::German,
        LanguageHint::Fr => Language::French,
        LanguageHint::Ru => Language::Russian,
    }
}

/// The header of the run-task request.
pub struct RequestHeader {
    pub action: &'static str,
    pub task_id: String,
    pub streaming: Streaming,
}

/// The recognition parameters of the task: fixed 16 kHz PCM, the configured
/// language hints, and nothing else overridden.
pub struct RequestPayloadParameters {
    pub format: Format,
    pub sample_rate: u32,
    pub vocabulary_id: Option<String>,
    pub disfluency_removal_enabled: Option<bool>,
    pub language_hints: Option<Vec<Language>>,
    pub semantic_punctuation_enabled: Option<bool>,
    pub max_sentence_silence: Option<u32>,
    pub multi_threshold_mode_enabled: Option<bool>,
    pub punctuation_prediction_enabled: Option<bool>,
    pub heartbeat: Option<bool>,
    pub inverse_text_normalization_enabled: Option<bool>,
}

/// What `RequestPayloadParameters::new` promises for a configuration.
pub open spec fn parameters_match_config(
    p: RequestPayloadParameters,
    c: ParaformerV2Config,
) -> bool {
    &&& p.format is Pcm
    &&& p.sample_rate == 16000
    &&& p.vocabulary_id is None
    &&& p.disfluency_removal_enabled is None
    &&& (c.language_hints@.len() == 0 ==> p.language_hints is None)
    &&& (c.language_hints@.len() > 0 ==> (p.language_hints matches Some(v) && v@
        == c.language_hints@.map_values(|h: LanguageHint| language_of_hint(h))))
    &&& p.semantic_punctuation_enabled is None
    &&& p.max_sentence_silence is None
    &&& p.multi_threshold_mode_enabled is None
    &&& p.punctuation_prediction_enabled is None
    &&& p.heartbeat is None
    &&& p.inverse_text_normalization_enabled is None
}

impl RequestPayloadParameters {
    /// Builds the parameters for a configuration: PCM at 16 kHz, the
    /// configured language hints when any are set, everything else left to
    /// the backend's defaults.
    pub fn new(config: &ParaformerV2Config) -> (r: Self)
        ensures
            parameters_match_config(r, *config),
    {
        let hints = &config.language_hints;
        let language_hints = if hints.len() == 0 {
            None
        } else {
            let mut mapped: Vec<Language> = Vec::new();
            let mut i: usize = 0;
            while i < hints.len()
                invariant
                    i <= hints@.len(),
                    mapped@ == hints@.take(i as int).map_values(
                        |h: LanguageHint| language_of_hint(h),
                    ),
                decreases hints@.len() - i,
            {
                let l = match hints[i] {
                    LanguageHint::Zh => Language::Mandarin,
                    LanguageHint::En => Language::English,
                    LanguageHint::Ja => Language::Japanese,
                    LanguageHint::Yue => Language::Cantonese,
                    LanguageHint::Ko => Language::Korean,
                    LanguageHint::De => Language::German,
                    LanguageHint::Fr => Language::French,
                    LanguageHint::Ru => Language::Russian,
                };
                mapped.push(l);
                i = i + 1;
                proof {
                    assert(mapped@ =~= hints@.take(i as int).map_values(
                        |h: LanguageHint| language_of_hint(h),
                    ));
                }
            }
            proof {
                assert(hints@.take(hints@.len() as int) =~= hints@);
            }
            Some(mapped)
        };
        RequestPayloadParameters {
            format: Format::Pcm,
            sample_rate: 16000,
            vocabulary_id: None,
            disfluency_removal_enabled: None,
            language_hints,
            semantic_punctuation_enabled: None,
            max_sentence_silence: None,
            multi_threshold_mode_enabled: None,
            punctuation_prediction_enabled: None,
            heartbeat: None,
            inverse_text_normalization_enabled: None,
        }
    }
}

/// The payload of the run-task request: the task coordinates and its
/// parameters.
pub struct RequestPayload {
    pub task_group: &'static str,
    pub task: &'static str,
    pub function: &'static str,
    pub model: &'static str,
    pub parameters: RequestPayloadParameters,
    pub input: EmptyObj,
}

/// What `RequestPayload::new` promises for a configuration.
pub open spec fn payload_matches_config(p: RequestPayload, c: ParaformerV2Config) -> bool {
    &&& p.task_group@ == "audio"@
    &&& p.task@ == "asr"@
    &&& p.function@ == "recognition"@
    &&& p.model@ == "paraformer-realtime-v2"@
    &&& parameters_match_config(p.parameters, c)
}

impl RequestPayload {
    /// Builds the payload: the fixed task coordinates of real-time
    /// recognition, and the parameters for this configuration.
    pub fn new(config: &ParaformerV2Config) -> (r: Self)
        ensures
            payload_matches_config(r, *config),
    {
        RequestPayload {
            task_group: "audio",
            task: "asr",
            function: "recognition",
            model: "paraformer-realtime-v2",
            parameters: RequestPayloadParameters::new(config),
            input: EmptyObj {  },
        }
    }
}

/// The whole run-task request.
pub struct Request {
    pub header: RequestHeader,
    pub payload: RequestPayload,
}

/// Relies on the uuid crate: `Uuid::new_v4` drawn from randomness, written
/// in its hyphenated text form, which is always 36 characters. The value is
/// random, so nothing more is promised.
#[verifier::external_body]
fn new_task_id() -> (r: String)
    ensures
        r@.len() == 36,
{
    String::from(uuid::Uuid::new_v4())
}

impl Request {
    /// Builds the run-task request: a fresh task id, duplex streaming, and
    /// the payload for this configuration.
    pub fn new(config: &ParaformerV2Config) -> (r: Self)
        ensures
            r.header.action@ == "run-task"@,
            r.header.task_id@.len() == 36,
            r.header.streaming is Duplex,
            payload_matches_config(r.payload, *config),
    {
        Request {
            header: RequestHeader {
                action: "run-task",
                task_id: new_task_id(),
                streaming: Streaming::Duplex,
            },
            payload: RequestPayload::new(config),
        }
    }
}

} // verus!
