//! Configuration for the Qwen-style backend: the API key, an optional
//! endpoint override, the recognition language, and voice-activity turn
//! detection.

use vstd::prelude::*;

use crate::qwen_types::Language;

verus! {

/// Server-side voice-activity turn detection. The detection threshold is
/// held in thousandths, so that the configuration stays in plain integers.
pub struct TurnDetection {
    pub threshold_milli: u32,
    pub silence_duration_ms: u32,
}

impl Clone for TurnDetection {
    fn clone(&self) -> (r: Self)
        ensures
            r == *self,
    {
        TurnDetection {
            threshold_milli: self.threshold_milli,
            silence_duration_ms: self.silence_duration_ms,
        }
    }
}

impl Default for TurnDetection {
    /// A threshold of 0.200 and one second of silence.
    fn default() -> (r: Self)
        ensures
            r.threshold_milli == 200,
            r.silence_duration_ms == 1000,
    {
        TurnDetection { threshold_milli: 200, silence_duration_ms: 1000 }
    }
}

/// The default endpoint of the Qwen-style backend.
pub open spec fn default_websocket_url() -> Seq<char> {
    "wss://dashscope.aliyuncs.com/api-ws/v1/realtime?model=qwen3-asr-flash-realtime"@
}

/// Configuration of the Qwen-style backend profile.
pub struct QwenV3Config {
    pub dashscope_api_key: String,
    pub dashscope_websocket_url: Option<String>,
    pub language: Option<Language>,
    pub turn_detection: Option<TurnDetection>,
}

impl Clone for QwenV3Config {
    fn clone(&self) -> (r: Self)
        ensures
            r.dashscope_api_key == self.dashscope_api_key,
            match self.dashscope_websocket_url {
                Some(u) => r.dashscope_websocket_url matches Some(v) && v == u,
                None => r.dashscope_websocket_url is None,
            },
            r.language == self.language,
            r.turn_detection == self.turn_detection,
    {
        QwenV3Config {
            dashscope_api_key: self.dashscope_api_key.clone(),
            dashscope_websocket_url: match &self.dashscope_websocket_url {
                Some(u) => Some(u.clone()),
                None => None,
            },
            language: self.language,
            turn_detection: match &self.turn_detection {
                Some(t) => Some(t.clone()),
                None => None,
            },
        }
    }
}

impl QwenV3Config {
    /// The endpoint to connect to: the configured override, or the default.
    pub fn websocket_url(&self) -> (r: &str)
        ensures
            match self.dashscope_websocket_url {
                Some(u) => r@ == u@,
                None => r@ == default_websocket_url(),
            },
    {
        match &self.dashscope_websocket_url {
            Some(u) => u.as_str(),
            None => "wss://dashscope.aliyuncs.com/api-ws/v1/realtime?model=qwen3-asr-flash-realtime",
        }
    }
}

/// Constructs Qwen-style adapter handles for one profile; building the
/// handle is side-effect-free, only connecting opens the duplex link.
pub struct QwenV3ClientFactory {
    pub options: QwenV3Config,
}

impl QwenV3ClientFactory {
    pub fn new(options: QwenV3Config) -> (r: Self)
        ensures
            r.options == options,
    {
        QwenV3ClientFactory { options }
    }
}

impl Clone for QwenV3ClientFactory {
    fn clone(&self) -> (r: Self)
        ensures
            r.options.dashscope_api_key == self.options.dashscope_api_key,
            r.options.language == self.options.language,
            r.options.turn_detection == self.options.turn_detection,
    {
        QwenV3ClientFactory { options: self.options.clone() }
    }
}

} // verus!
