//! The session finish request of the Qwen-style protocol: sent when local
//! audio is exhausted, it asks the backend to complete and close the
//! session.

use vstd::prelude::*;
use vstd::string::StringExecFns;

use crate::qwen_types::dec_digits;
use crate::qwen_types::u64_to_dec;

verus! {

/// The session finish request.
pub struct Request {
    pub event_id: String,
}

impl Request {
    /// Builds the finish request for the `event_id`-th client event.
    pub fn new(event_id: u64) -> (r: Self)
        ensures
            r.event_id@ == "session_finish_req_"@ + dec_digits(event_id),
    {
        let mut event_id_text = String::from_str("session_finish_req_");
        let digits = u64_to_dec(event_id);
        event_id_text.append(digits.as_str());
        Request { event_id: event_id_text }
    }
}

} // verus!
