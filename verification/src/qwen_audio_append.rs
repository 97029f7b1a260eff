//! The audio append request of the Qwen-style protocol: one audio chunk,
//! base64-encoded into a text control message.

use vstd::prelude::*;
use vstd::string::StringExecFns;

use crate::qwen_types::dec_digits;
use crate::qwen_types::u64_to_dec;

verus! {

/// The standard base64 encoding (with padding) of a byte sequence.
pub uninterp spec fn base64_of(bytes: Seq<u8>) -> Seq<char>;

/// Relies on the base64 crate's standard engine, `Engine::encode` with the
/// `STANDARD` (padded) configuration: the encoding depends on the bytes
/// alone, and writes four characters for every three bytes begun.
#[verifier::external_body]
fn base64_encode(bytes: &Vec<u8>) -> (r: String)
    ensures
        r@ == base64_of(bytes@),
        r@.len() == 4 * ((bytes@.len() + 2) / 3),
{
    base64::Engine::encode(&base64::engine::general_purpose::STANDARD, bytes)
}

/// The audio append request.
pub struct Request {
    pub event_id: String,
    pub audio: String,
}

impl Request {
    /// Builds the append request for the `event_id`-th client event,
    /// carrying `audio_bytes` base64-encoded.
    pub fn new(event_id: u64, audio_bytes: &Vec<u8>) -> (r: Self)
        ensures
            r.event_id@ == "event_"@ + dec_digits(event_id),
            r.audio@ == base64_of(audio_bytes@),
            r.audio@.len() == 4 * ((audio_bytes@.len() + 2) / 3),
    {
        let mut event_id_text = String::from_str("event_");
        let digits = u64_to_dec(event_id);
        event_id_text.append(digits.as_str());
        Request { event_id: event_id_text, audio: base64_encode(audio_bytes) }
    }
}

} // verus!
