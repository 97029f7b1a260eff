//! Plain-value forms of the Paraformer-style backend's result messages, and
//! their translation to transcription events.

use vstd::prelude::*;

use crate::events::TranscriptionEvent;

verus! {

/// The event tag of a result message.
#[derive(Clone, Copy, Debug, PartialEq, Eq, Structural)]
pub enum Event {
    ResultGenerated,
}

/// The header of a result message.
pub struct Header {
    pub task_id: String,
    pub event: Event,
}

/// One recognized word with its timing.
pub struct ParaformerWord {
    pub begin_time: u32,
    pub end_time: u32,
    pub text: String,
    pub punctuation: Option<String>,
}

/// One recognized sentence, interim or final.
pub struct ParaformerSentence {
    pub begin_time: u32,
    pub end_time: Option<u32>,
    pub text: String,
    pub heartbeat: Option<bool>,
    pub sentence_end: bool,
    pub words: Vec<ParaformerWord>,
}

/// The output carried by a result message.
pub struct PayloadOutput {
    pub sentence: ParaformerSentence,
}

/// Accounting the backend reports along with results.
pub struct Usage {
    pub duration: u32,
}

/// The payload of a result message.
pub struct Payload {
    pub output: PayloadOutput,
    pub usage: Option<Usage>,
}

/// A whole result message.
pub struct Response {
    pub header: Header,
    pub payload: Payload,
}

/// A server event of the Paraformer-style protocol, already parsed from the
/// wire into plain values.
pub enum ServerEvent {
    /// The backend acknowledged the task; audio may now be streamed.
    TaskStarted,
    /// A recognition result, interim or final.
    ResultGenerated(Response),
    /// The backend acknowledged the finish request.
    TaskFinished,
    /// The backend reported that the task failed.
    TaskFailed { error_code: String, error_message: String },
}

/// The transcription event a result message translates to: the sentence
/// text, its begin time, and whether the sentence is final.
pub open spec fn event_of_response(r: Response) -> TranscriptionEvent {
    TranscriptionEvent {
        text: r.payload.output.sentence.text,
        begin_time: r.payload.output.sentence.begin_time,
        sentence_end: r.payload.output.sentence.sentence_end,
    }
}

impl Response {
    /// Translates this result message to the transcription event it carries.
    pub fn into_event(self) -> (e: TranscriptionEvent)
        ensures
            e == event_of_response(self),
    {
        TranscriptionEvent {
            text: self.payload.output.sentence.text,
            begin_time: self.payload.output.sentence.begin_time,
            sentence_end: self.payload.output.sentence.sentence_end,
        }
    }
}

} // verus!
