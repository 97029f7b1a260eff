//! The Qwen-style adapter as an explicit state machine.
//!
//! The shape is the same as the Paraformer-style adapter's — a staged
//! duplex protocol with an audio arm and a server arm — but the handshake
//! differs (the backend opens the session and the adapter answers with a
//! session update), audio goes out base64-encoded in text messages rather
//! than binary frames, and results arrive per utterance: a speech-start
//! signal opens the utterance accumulator, interim texts and the final
//! transcript are stamped with the begin time it recorded, and the final
//! transcript closes it.

use vstd::prelude::*;
use vstd::string::StrSliceExecFns;

use crate::events::AdapterError;
use crate::events::AudioInput;
use crate::events::TranscriptionEvent;
use crate::events::TransportInput;
use crate::qwen_types::ServerEvent;

verus! {

/// The handshake stage: what the adapter is waiting for next.
#[derive(Clone, Copy, Debug, PartialEq, Eq, Structural)]
pub enum Stage {
    /// Waiting for the backend to create the session; the audio arm stays
    /// locked.
    SessionCreating,
    /// The session update was sent; audio is streaming and results arrive.
    SessionCreated,
    /// Local audio ended and the finish request was sent.
    AwaitTaskFinished,
}

/// The open utterance: the begin time recorded at the speech-start signal.
/// This backend sends each interim text whole rather than as a delta, so no
/// accumulated text needs to be kept beside it.
pub struct UtteranceState {
    pub start_time: u32,
}

/// One input the relay loop feeds the machine.
pub enum QwenInput {
    /// The audio arm fired. Only fed while `audio_arm_enabled`.
    Audio(AudioInput),
    /// A parsed server event arrived on the connection.
    Server(ServerEvent),
    /// A transport-level observation on the connection.
    Transport(TransportInput),
}

/// What the relay loop must do after a step, in order. The request payloads
/// are built by the verified request builders from the event id and chunk
/// carried here.
pub enum QwenAction {
    /// Send the session update built for this event id from the profile's
    /// configuration.
    SendUpdate { event_id: u64 },
    /// Send the audio append request built for this event id and chunk.
    SendAppend { event_id: u64, audio: Vec<u8> },
    /// Send the session finish request built for this event id.
    SendFinish { event_id: u64 },
    /// Answer a ping transparently.
    SendPong(Vec<u8>),
    /// Close the outgoing half of the connection.
    CloseConnection,
    /// Deliver an event (or a terminal error) to the caller's stream.
    Emit(Result<TranscriptionEvent, AdapterError>),
    /// The event stream is over; stop feeding the machine.
    End,
}

/// The adapter state: the stage, the utterance accumulator, the running
/// client event counter, and whether the stream has ended.
pub struct QwenMachine {
    pub stage: Stage,
    pub accumulator: Option<UtteranceState>,
    pub event_count: u64,
    pub done: bool,
}

/// The event counter after one more client event; it saturates rather than
/// wrap, so stepping is total.
pub open spec fn next_count(n: u64) -> u64 {
    if n == u64::MAX {
        n
    } else {
        (n + 1) as u64
    }
}

/// The complete transition function of the adapter. A finished machine
/// ignores its input; otherwise the input decides:
///
/// - the session-created event answers with a session update and unlocks
///   the audio arm; audio chunks go out as append requests; end-of-audio
///   sends the finish request; a capture failure is surfaced without ending
///   the stream;
/// - a speech-start signal opens the utterance accumulator with its begin
///   time; interim texts are emitted stamped with that begin time; the
///   final transcript is emitted with `sentence_end` set and closes the
///   accumulator; opening a second utterance while one is open, or
///   completing or extending one with none open, is a protocol violation
///   and terminal;
/// - a backend-reported error is a terminal connection error; the finished
///   acknowledgement closes the connection and lets the server's disconnect
///   end the stream; pings, close frames and transport failures are handled
///   as in every adapter.
pub open spec fn step_spec(m: QwenMachine, input: QwenInput) -> (QwenMachine, Seq<QwenAction>) {
    if m.done {
        (m, Seq::empty())
    } else {
        match input {
            QwenInput::Audio(a) => match a {
                AudioInput::Chunk(c) => if m.stage is SessionCreated {
                    (
                        QwenMachine { event_count: next_count(m.event_count), ..m },
                        seq![QwenAction::SendAppend { event_id: m.event_count, audio: c }],
                    )
                } else {
                    (m, Seq::empty())
                },
                AudioInput::Failed(msg) => (
                    m,
                    seq![QwenAction::Emit(Err(AdapterError::Audio(msg)))],
                ),
                AudioInput::End => if m.stage is SessionCreated {
                    (
                        QwenMachine {
                            stage: Stage::AwaitTaskFinished,
                            event_count: next_count(m.event_count),
                            ..m
                        },
                        seq![QwenAction::SendFinish { event_id: m.event_count }],
                    )
                } else {
                    (m, Seq::empty())
                },
            },
            QwenInput::Server(s) => match s {
                ServerEvent::SessionCreated => (
                    QwenMachine {
                        stage: Stage::SessionCreated,
                        event_count: next_count(m.event_count),
                        ..m
                    },
                    seq![QwenAction::SendUpdate { event_id: m.event_count }],
                ),
                ServerEvent::SessionUpdated => (m, Seq::empty()),
                ServerEvent::SessionFinished => (m, seq![QwenAction::CloseConnection]),
                ServerEvent::ConversationItemCreated(_) => (m, Seq::empty()),
                ServerEvent::TranscriptionText { text } => if text@.len() == 0 {
                    (m, Seq::empty())
                } else {
                    match m.accumulator {
                        Some(u) => (
                            m,
                            seq![
                                QwenAction::Emit(
                                    Ok(
                                        TranscriptionEvent {
                                            text,
                                            begin_time: u.start_time,
                                            sentence_end: false,
                                        },
                                    ),
                                ),
                            ],
                        ),
                        None => (
                            QwenMachine { done: true, ..m },
                            seq![
                                QwenAction::Emit(Err(AdapterError::UnexpectedServerMessage)),
                                QwenAction::End,
                            ],
                        ),
                    }
                },
                ServerEvent::TranscriptionCompleted { transcript } => match m.accumulator {
                    Some(u) => (
                        QwenMachine { accumulator: None, ..m },
                        seq![
                            QwenAction::Emit(
                                Ok(
                                    TranscriptionEvent {
                                        text: transcript,
                                        begin_time: u.start_time,
                                        sentence_end: true,
                                    },
                                ),
                            ),
                        ],
                    ),
                    None => (
                        QwenMachine { done: true, ..m },
                        seq![
                            QwenAction::Emit(Err(AdapterError::UnexpectedServerMessage)),
                            QwenAction::End,
                        ],
                    ),
                },
                ServerEvent::SpeechStarted { audio_start_ms } => match m.accumulator {
                    None => (
                        QwenMachine {
                            accumulator: Some(UtteranceState { start_time: audio_start_ms }),
                            ..m
                        },
                        Seq::empty(),
                    ),
                    Some(_) => (
                        QwenMachine { done: true, ..m },
                        seq![
                            QwenAction::Emit(Err(AdapterError::UnexpectedServerMessage)),
                            QwenAction::End,
                        ],
                    ),
                },
                ServerEvent::SpeechStopped => (m, Seq::empty()),
                ServerEvent::Committed => (m, Seq::empty()),
                ServerEvent::ErrorEvent => (
                    QwenMachine { done: true, ..m },
                    seq![
                        QwenAction::Emit(Err(AdapterError::Connection)),
                        QwenAction::CloseConnection,
                        QwenAction::End,
                    ],
                ),
            },
            QwenInput::Transport(t) => match t {
                TransportInput::Ping(d) => (m, seq![QwenAction::SendPong(d)]),
                TransportInput::Pong => (m, Seq::empty()),
                TransportInput::CloseFrame(f) => match f {
                    Some(reason) => (
                        m,
                        seq![QwenAction::Emit(Err(AdapterError::Closed(reason)))],
                    ),
                    None => (m, Seq::empty()),
                },
                TransportInput::Disconnected => (
                    QwenMachine { done: true, ..m },
                    seq![QwenAction::End],
                ),
                TransportInput::ConnError => (
                    QwenMachine { done: true, ..m },
                    seq![QwenAction::Emit(Err(AdapterError::Connection)), QwenAction::End],
                ),
                TransportInput::SendFailed => (
                    QwenMachine { done: true, ..m },
                    seq![QwenAction::Emit(Err(AdapterError::Connection)), QwenAction::End],
                ),
                TransportInput::Malformed(text) => (
                    QwenMachine { done: true, ..m },
                    seq![QwenAction::Emit(Err(AdapterError::Protocol(text))), QwenAction::End],
                ),
                TransportInput::Unexpected(what) => (
                    QwenMachine { done: true, ..m },
                    seq![QwenAction::Emit(Err(AdapterError::Protocol(what))), QwenAction::End],
                ),
            },
        }
    }
}

impl QwenMachine {
    /// A fresh machine for one session: the connection is open, the backend
    /// has not created the session yet.
    pub fn new() -> (r: Self)
        ensures
            r.stage == Stage::SessionCreating,
            r.accumulator is None,
            r.event_count == 0,
            !r.done,
    {
        QwenMachine {
            stage: Stage::SessionCreating,
            accumulator: None,
            event_count: 0,
            done: false,
        }
    }

    /// Whether the relay loop may poll the audio arm: only while streaming,
    /// as the stage machine prescribes.
    pub fn audio_arm_enabled(&self) -> (r: bool)
        ensures
            r == (self.stage is SessionCreated),
    {
        match self.stage {
            Stage::SessionCreated => true,
            _ => false,
        }
    }

    /// Whether the stream has ended and stepping must stop.
    pub fn is_done(&self) -> (r: bool)
        ensures
            r == self.done,
    {
        self.done
    }

    /// Feeds one input and returns the actions to carry out, exactly as
    /// `step_spec` prescribes.
    pub fn step(&mut self, input: QwenInput) -> (r: Vec<QwenAction>)
        requires
            !old(self).done,
            input is Audio ==> old(self).stage is SessionCreated,
        ensures
            *final(self) == step_spec(*old(self), input).0,
            r@ == step_spec(*old(self), input).1,
    {
        let mut r: Vec<QwenAction> = Vec::new();
        match input {
            QwenInput::Audio(a) => match a {
                AudioInput::Chunk(c) => {
                    r.push(QwenAction::SendAppend { event_id: self.event_count, audio: c });
                    self.event_count = next_count_exec(self.event_count);
                },
                AudioInput::Failed(msg) => {
                    r.push(QwenAction::Emit(Err(AdapterError::Audio(msg))));
                },
                AudioInput::End => {
                    r.push(QwenAction::SendFinish { event_id: self.event_count });
                    self.event_count = next_count_exec(self.event_count);
                    self.stage = Stage::AwaitTaskFinished;
                },
            },
            QwenInput::Server(s) => match s {
                ServerEvent::SessionCreated => {
                    r.push(QwenAction::SendUpdate { event_id: self.event_count });
                    self.event_count = next_count_exec(self.event_count);
                    self.stage = Stage::SessionCreated;
                },
                ServerEvent::SessionUpdated => {},
                ServerEvent::SessionFinished => {
                    r.push(QwenAction::CloseConnection);
                },
                ServerEvent::ConversationItemCreated(_) => {},
                ServerEvent::TranscriptionText { text } => {
                    if text.as_str().unicode_len() != 0 {
                        match &self.accumulator {
                            Some(u) => {
                                let begin_time = u.start_time;
                                r.push(
                                    QwenAction::Emit(
                                        Ok(
                                            TranscriptionEvent {
                                                text,
                                                begin_time,
                                                sentence_end: false,
                                            },
                                        ),
                                    ),
                                );
                            },
                            None => {
                                r.push(
                                    QwenAction::Emit(Err(AdapterError::UnexpectedServerMessage)),
                                );
                                r.push(QwenAction::End);
                                self.done = true;
                            },
                        }
                    }
                },
                ServerEvent::TranscriptionCompleted { transcript } => {
                    match &self.accumulator {
                        Some(u) => {
                            let begin_time = u.start_time;
                            r.push(
                                QwenAction::Emit(
                                    Ok(
                                        TranscriptionEvent {
                                            text: transcript,
                                            begin_time,
                                            sentence_end: true,
                                        },
                                    ),
                                ),
                            );
                            self.accumulator = None;
                        },
                        None => {
                            r.push(QwenAction::Emit(Err(AdapterError::UnexpectedServerMessage)));
                            r.push(QwenAction::End);
                            self.done = true;
                        },
                    }
                },
                ServerEvent::SpeechStarted { audio_start_ms } => {
                    match &self.accumulator {
                        None => {
                            self.accumulator = Some(UtteranceState { start_time: audio_start_ms });
                        },
                        Some(_) => {
                            r.push(QwenAction::Emit(Err(AdapterError::UnexpectedServerMessage)));
                            r.push(QwenAction::End);
                            self.done = true;
                        },
                    }
                },
                ServerEvent::SpeechStopped => {},
                ServerEvent::Committed => {},
                ServerEvent::ErrorEvent => {
                    r.push(QwenAction::Emit(Err(AdapterError::Connection)));
                    r.push(QwenAction::CloseConnection);
                    r.push(QwenAction::End);
                    self.done = true;
                },
            },
            QwenInput::Transport(t) => match t {
                TransportInput::Ping(d) => {
                    r.push(QwenAction::SendPong(d));
                },
                TransportInput::Pong => {},
                TransportInput::CloseFrame(f) => match f {
                    Some(reason) => {
                        r.push(QwenAction::Emit(Err(AdapterError::Closed(reason))));
                    },
                    None => {},
                },
                TransportInput::Disconnected => {
                    r.push(QwenAction::End);
                    self.done = true;
                },
                TransportInput::ConnError => {
                    r.push(QwenAction::Emit(Err(AdapterError::Connection)));
                    r.push(QwenAction::End);
                    self.done = true;
                },
                TransportInput::SendFailed => {
                    r.push(QwenAction::Emit(Err(AdapterError::Connection)));
                    r.push(QwenAction::End);
                    self.done = true;
                },
                TransportInput::Malformed(text) => {
                    r.push(QwenAction::Emit(Err(AdapterError::Protocol(text))));
                    r.push(QwenAction::End);
                    self.done = true;
                },
                TransportInput::Unexpected(what) => {
                    r.push(QwenAction::Emit(Err(AdapterError::Protocol(what))));
                    r.push(QwenAction::End);
                    self.done = true;
                },
            },
        }
        proof {
            assert(r@ =~= step_spec(*old(self), input).1);
        }
        r
    }
}

/// The saturating event counter, as `next_count` describes.
fn next_count_exec(n: u64) -> (r: u64)
    ensures
        r == next_count(n),
{
    if n == u64::MAX {
        n
    } else {
        n + 1
    }
}

/// The actions of feeding a whole input sequence, in order.
pub open spec fn run_spec(m: QwenMachine, inputs: Seq<QwenInput>) -> Seq<QwenAction>
    decreases inputs.len(),
{
    if inputs.len() == 0 {
        Seq::empty()
    } else {
        step_spec(m, inputs[0]).1 + run_spec(step_spec(m, inputs[0]).0, inputs.drop_first())
    }
}

/// The texts an action sequence delivers successfully, in order.
pub open spec fn emitted_texts(actions: Seq<QwenAction>) -> Seq<Seq<char>>
    decreases actions.len(),
{
    if actions.len() == 0 {
        Seq::empty()
    } else {
        (match actions[0] {
            QwenAction::Emit(Ok(e)) => seq![e.text@],
            _ => Seq::empty(),
        }) + emitted_texts(actions.drop_first())
    }
}

/// The texts the server's result messages carry, in the order the server
/// sent them: each non-empty interim text, and each final transcript.
pub open spec fn server_result_texts(inputs: Seq<QwenInput>) -> Seq<Seq<char>>
    decreases inputs.len(),
{
    if inputs.len() == 0 {
        Seq::empty()
    } else {
        (match inputs[0] {
            QwenInput::Server(ServerEvent::TranscriptionText { text }) => if text@.len() == 0 {
                Seq::empty()
            } else {
                seq![text@]
            },
            QwenInput::Server(ServerEvent::TranscriptionCompleted { transcript }) => seq![
                transcript@,
            ],
            _ => Seq::empty(),
        }) + server_result_texts(inputs.drop_first())
    }
}

/// A run that stays live: no input is terminal for the machine it meets —
/// no transport failure, no backend error, and no protocol violation.
pub open spec fn live_run(m: QwenMachine, inputs: Seq<QwenInput>) -> bool
    decreases inputs.len(),
{
    inputs.len() == 0 || (!step_spec(m, inputs[0]).0.done && live_run(
        step_spec(m, inputs[0]).0,
        inputs.drop_first(),
    ))
}

/// The texts one action delivers.
proof fn lemma_emitted_texts_single(a: QwenAction)
    ensures
        emitted_texts(seq![a]) == (match a {
            QwenAction::Emit(Ok(e)) => seq![e.text@],
            _ => Seq::<Seq<char>>::empty(),
        }),
{
    assert(seq![a].drop_first() =~= Seq::<QwenAction>::empty());
    assert(emitted_texts(Seq::<QwenAction>::empty()) == Seq::<Seq<char>>::empty());
    match a {
        QwenAction::Emit(r) => match r {
            Ok(e) => {
                assert(emitted_texts(seq![a]) =~= seq![e.text@]);
            },
            Err(_) => {
                assert(emitted_texts(seq![a]) =~= Seq::<Seq<char>>::empty());
            },
        },
        _ => {
            assert(emitted_texts(seq![a]) =~= Seq::<Seq<char>>::empty());
        },
    }
}

/// Emitted texts of concatenated actions are the concatenation of the
/// emitted texts.
proof fn lemma_emitted_texts_append(a: Seq<QwenAction>, b: Seq<QwenAction>)
    ensures
        emitted_texts(a + b) == emitted_texts(a) + emitted_texts(b),
    decreases a.len(),
{
    if a.len() == 0 {
        assert(a + b =~= b);
        assert(emitted_texts(a) + emitted_texts(b) =~= emitted_texts(b));
    } else {
        assert((a + b)[0] == a[0]);
        assert((a + b).drop_first() =~= a.drop_first() + b);
        lemma_emitted_texts_append(a.drop_first(), b);
        assert(emitted_texts(a + b) =~= emitted_texts(a) + emitted_texts(b));
    }
}

/// What one live step contributes to the emitted texts: the interim text or
/// final transcript of a result message, nothing for anything else.
proof fn proof_texts_of_live_step(m: QwenMachine, input: QwenInput)
    requires
        !m.done,
        !step_spec(m, input).0.done,
    ensures
        emitted_texts(step_spec(m, input).1) == (match input {
            QwenInput::Server(ServerEvent::TranscriptionText { text }) => if text@.len() == 0 {
                Seq::<Seq<char>>::empty()
            } else {
                seq![text@]
            },
            QwenInput::Server(ServerEvent::TranscriptionCompleted { transcript }) => seq![
                transcript@,
            ],
            _ => Seq::<Seq<char>>::empty(),
        }),
{
    assert(emitted_texts(Seq::<QwenAction>::empty()) == Seq::<Seq<char>>::empty());
    let acts = step_spec(m, input).1;
    match input {
        QwenInput::Audio(a) => match a {
            AudioInput::Chunk(c) => {
                if m.stage is SessionCreated {
                    lemma_emitted_texts_single(
                        QwenAction::SendAppend { event_id: m.event_count, audio: c },
                    );
                }
            },
            AudioInput::Failed(msg) => {
                lemma_emitted_texts_single(QwenAction::Emit(Err(AdapterError::Audio(msg))));
            },
            AudioInput::End => {
                if m.stage is SessionCreated {
                    lemma_emitted_texts_single(
                        QwenAction::SendFinish { event_id: m.event_count },
                    );
                }
            },
        },
        QwenInput::Server(s) => match s {
            ServerEvent::SessionCreated => {
                lemma_emitted_texts_single(QwenAction::SendUpdate { event_id: m.event_count });
            },
            ServerEvent::SessionFinished => {
                lemma_emitted_texts_single(QwenAction::CloseConnection);
            },
            ServerEvent::TranscriptionText { text } => {
                if text@.len() > 0 {
                    // the step stayed live, so an utterance was open
                    match m.accumulator {
                        Some(u) => {
                            lemma_emitted_texts_single(
                                QwenAction::Emit(
                                    Ok(
                                        TranscriptionEvent {
                                            text,
                                            begin_time: u.start_time,
                                            sentence_end: false,
                                        },
                                    ),
                                ),
                            );
                        },
                        None => {},
                    }
                }
            },
            ServerEvent::TranscriptionCompleted { transcript } => {
                match m.accumulator {
                    Some(u) => {
                        lemma_emitted_texts_single(
                            QwenAction::Emit(
                                Ok(
                                    TranscriptionEvent {
                                        text: transcript,
                                        begin_time: u.start_time,
                                        sentence_end: true,
                                    },
                                ),
                            ),
                        );
                    },
                    None => {},
                }
            },
            _ => {},
        },
        QwenInput::Transport(t) => match t {
            TransportInput::Ping(d) => {
                lemma_emitted_texts_single(QwenAction::SendPong(d));
            },
            TransportInput::CloseFrame(f) => match f {
                Some(reason) => {
                    lemma_emitted_texts_single(
                        QwenAction::Emit(Err(AdapterError::Closed(reason))),
                    );
                },
                None => {},
            },
            _ => {},
        },
    }
}

/// For any interleaving of audio chunks and server messages on a live run,
/// the emitted events carry exactly the server's result texts — each
/// non-empty interim text and each final transcript — in the server's
/// emission order: the adapter neither reorders, drops nor duplicates
/// results.
pub proof fn lemma_events_preserve_server_order(m: QwenMachine, inputs: Seq<QwenInput>)
    requires
        !m.done,
        live_run(m, inputs),
    ensures
        emitted_texts(run_spec(m, inputs)) == server_result_texts(inputs),
    decreases inputs.len(),
{
    if inputs.len() == 0 {
    } else {
        let first = inputs[0];
        let step = step_spec(m, first);
        proof_texts_of_live_step(m, first);
        lemma_emitted_texts_append(step.1, run_spec(step.0, inputs.drop_first()));
        lemma_events_preserve_server_order(step.0, inputs.drop_first());
        assert(emitted_texts(run_spec(m, inputs)) =~= server_result_texts(inputs));
    }
}

/// The machine after the first `k` inputs.
pub open spec fn state_at(m: QwenMachine, inputs: Seq<QwenInput>, k: int) -> QwenMachine
    decreases k,
{
    if k <= 0 {
        m
    } else {
        step_spec(state_at(m, inputs, k - 1), inputs[k - 1]).0
    }
}

/// The begin time of the most recent utterance-start signal in `inputs`,
/// if there was one.
pub open spec fn last_speech_start(inputs: Seq<QwenInput>) -> Option<u32>
    decreases inputs.len(),
{
    if inputs.len() == 0 {
        None
    } else {
        match inputs.last() {
            QwenInput::Server(ServerEvent::SpeechStarted { audio_start_ms }) => Some(
                audio_start_ms,
            ),
            _ => last_speech_start(inputs.drop_last()),
        }
    }
}

/// The accumulator invariant: while the stream is live, an open utterance
/// records exactly the begin time of the most recent speech-start signal
/// consumed so far.
pub open spec fn accumulator_tracks(m: QwenMachine, consumed: Seq<QwenInput>) -> bool {
    !m.done ==> match m.accumulator {
        Some(u) => last_speech_start(consumed) == Some(u.start_time),
        None => true,
    }
}

/// Starting from a machine with no open utterance, the accumulator always
/// records the most recent speech-start signal.
pub proof fn lemma_accumulator_tracks(m: QwenMachine, inputs: Seq<QwenInput>, k: int)
    requires
        m.accumulator is None,
        0 <= k <= inputs.len(),
    ensures
        accumulator_tracks(state_at(m, inputs, k), inputs.take(k)),
    decreases k,
{
    if k == 0 {
        assert(state_at(m, inputs, 0) == m);
    } else {
        lemma_accumulator_tracks(m, inputs, k - 1);
        let prev = state_at(m, inputs, k - 1);
        let cur = state_at(m, inputs, k);
        let input = inputs[k - 1];
        assert(cur == step_spec(prev, input).0);
        assert(inputs.take(k).last() == input);
        assert(inputs.take(k).drop_last() =~= inputs.take(k - 1));
    }
}

/// Every final transcription event carries the begin time recorded at the
/// most recent preceding utterance-start signal: if the step on input `k`
/// emits an event with `sentence_end` set, its `begin_time` is the time of
/// the last speech start among the inputs before `k`.
pub proof fn lemma_final_event_begin_time(
    m: QwenMachine,
    inputs: Seq<QwenInput>,
    k: int,
    e: TranscriptionEvent,
)
    requires
        m.accumulator is None,
        0 <= k < inputs.len(),
        step_spec(state_at(m, inputs, k), inputs[k]).1.contains(QwenAction::Emit(Ok(e))),
        e.sentence_end,
    ensures
        last_speech_start(inputs.take(k)) == Some(e.begin_time),
{
    lemma_accumulator_tracks(m, inputs, k);
    let cur = state_at(m, inputs, k);
    let acts = step_spec(cur, inputs[k]).1;
    let i = choose|i: int| 0 <= i < acts.len() && acts[i] == QwenAction::Emit(Ok(e));
    assert(acts[i] == QwenAction::Emit(Ok(e)));
}

} // verus!
