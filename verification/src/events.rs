//! Events shared by the backend protocol adapters: transcription results,
//! adapter errors, and the two input arms every adapter multiplexes.

use vstd::prelude::*;

verus! {

/// A transcription result for one utterance, either interim
/// (`sentence_end == false`) or final (`sentence_end == true`).
#[derive(Debug)]
pub struct TranscriptionEvent {
    pub text: String,
    pub begin_time: u32,
    pub sentence_end: bool,
}

impl Clone for TranscriptionEvent {
    fn clone(&self) -> (r: Self)
        ensures
            r == *self,
    {
        TranscriptionEvent {
            text: self.text.clone(),
            begin_time: self.begin_time,
            sentence_end: self.sentence_end,
        }
    }
}

/// Terminal and non-terminal failures an adapter can surface on its event
/// stream.
#[derive(Debug)]
pub enum AdapterError {
    /// The duplex connection failed, or the backend reported that the task
    /// failed.
    Connection,
    /// The audio source reported a read failure.
    Audio(String),
    /// The server closed the connection with an explanatory frame.
    Closed(String),
    /// A server message could not be understood; the payload is the offending
    /// text. The adapter fails fast rather than guessing.
    Protocol(String),
    /// A well-formed message arrived that the protocol does not allow in the
    /// current state, such as an utterance completion with no utterance open.
    UnexpectedServerMessage,
}

impl Clone for AdapterError {
    fn clone(&self) -> (r: Self)
        ensures
            r == *self,
    {
        match self {
            AdapterError::Connection => AdapterError::Connection,
            AdapterError::Audio(m) => AdapterError::Audio(m.clone()),
            AdapterError::Closed(m) => AdapterError::Closed(m.clone()),
            AdapterError::Protocol(m) => AdapterError::Protocol(m.clone()),
            AdapterError::UnexpectedServerMessage => AdapterError::UnexpectedServerMessage,
        }
    }
}

/// What the audio arm of an adapter can observe from the audio source.
#[derive(Debug)]
pub enum AudioInput {
    /// More PCM samples; ordering across chunks is significant.
    Chunk(Vec<u8>),
    /// The source failed; the message describes the capture error.
    Failed(String),
    /// The source is exhausted (end of capture, or cancellation unwound it).
    End,
}

/// Transport-level observations from the duplex connection, common to both
/// backends.
#[derive(Debug)]
pub enum TransportInput {
    /// A keep-alive ping that must be answered transparently.
    Ping(Vec<u8>),
    /// A pong for an earlier ping; ignored.
    Pong,
    /// The server sent a close frame, with an optional reason.
    CloseFrame(Option<String>),
    /// The server went away without a close frame.
    Disconnected,
    /// Reading from the connection failed.
    ConnError,
    /// Writing to the connection failed.
    SendFailed,
    /// A text message that could not be parsed as a server event.
    Malformed(String),
    /// A frame kind the protocol never uses (raw binary from the server);
    /// carries a description of what arrived.
    Unexpected(String),
}

} // verus!
