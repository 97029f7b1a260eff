//! The Paraformer-style adapter as an explicit state machine.
//!
//! The adapter owns one duplex connection and multiplexes two input arms —
//! local audio chunks going out, server messages coming in — into one
//! ordered stream of transcription events. The machine holds the staged
//! handshake state and decides, for every input, which messages to send,
//! which events to emit, and when the stream ends. The shell around the
//! library runs the socket loop: it races the two arms, feeds whichever
//! fires into `step`, and carries out the returned actions in order.

use vstd::prelude::*;

use crate::events::AdapterError;
use crate::events::AudioInput;
use crate::events::TranscriptionEvent;
use crate::events::TransportInput;
use crate::paraformer_results::event_of_response;
use crate::paraformer_results::ServerEvent;

verus! {

/// The handshake stage: what the adapter is waiting for next.
#[derive(Clone, Copy, Debug, PartialEq, Eq, Structural)]
pub enum Stage {
    /// The run-task request was sent; the backend has not acknowledged yet,
    /// so the audio arm stays locked.
    AwaitTaskStarted,
    /// The backend acknowledged; audio is streaming and results arrive.
    AwaitResultGenerated,
    /// Local audio ended and the finish request was sent; only the
    /// backend's acknowledgement or close remains.
    AwaitTaskFinished,
}

/// One input the relay loop feeds the machine.
pub enum ParaformerInput {
    /// The audio arm fired. Only fed while `audio_arm_enabled`.
    Audio(AudioInput),
    /// A parsed server event arrived on the connection.
    Server(ServerEvent),
    /// A transport-level observation on the connection.
    Transport(TransportInput),
}

/// What the relay loop must do after a step, in order.
pub enum ParaformerAction {
    /// Send an audio chunk as a binary frame.
    SendAudio(Vec<u8>),
    /// Send the finish request that ends the recognition job.
    SendFinish { task_id: String },
    /// Answer a ping transparently.
    SendPong(Vec<u8>),
    /// Close the outgoing half of the connection.
    CloseConnection,
    /// Deliver an event (or a terminal error) to the caller's stream.
    Emit(Result<TranscriptionEvent, AdapterError>),
    /// The event stream is over; stop feeding the machine.
    End,
}

/// The adapter state: the stage, the task id of this session, and whether
/// the stream has ended.
pub struct ParaformerMachine {
    pub stage: Stage,
    pub task_id: String,
    pub done: bool,
}

/// The complete transition function of the adapter. A finished machine
/// ignores its input; otherwise the input decides:
///
/// - audio chunks are forwarded while streaming; end-of-audio sends the
///   finish request and moves to the finishing stage; a capture failure is
///   surfaced without ending the stream, leaving the close handshake to
///   decide;
/// - the task acknowledgement unlocks the audio arm; results are translated
///   and emitted in arrival order; the finish acknowledgement closes the
///   connection and lets the server's disconnect end the stream; a reported
///   task failure is a terminal connection error;
/// - pings are answered transparently; a close frame surfaces its reason; a
///   disconnect ends the stream without error; read, write and parse
///   failures are terminal.
pub open spec fn step_spec(m: ParaformerMachine, input: ParaformerInput) -> (
    ParaformerMachine,
    Seq<ParaformerAction>,
) {
    if m.done {
        (m, Seq::empty())
    } else {
        match input {
            ParaformerInput::Audio(a) => match a {
                AudioInput::Chunk(c) => if m.stage is AwaitResultGenerated {
                    (m, seq![ParaformerAction::SendAudio(c)])
                } else {
                    (m, Seq::empty())
                },
                AudioInput::Failed(msg) => (
                    m,
                    seq![ParaformerAction::Emit(Err(AdapterError::Audio(msg)))],
                ),
                AudioInput::End => if m.stage is AwaitResultGenerated {
                    (
                        ParaformerMachine { stage: Stage::AwaitTaskFinished, ..m },
                        seq![ParaformerAction::SendFinish { task_id: m.task_id }],
                    )
                } else {
                    (m, Seq::empty())
                },
            },
            ParaformerInput::Server(s) => match s {
                ServerEvent::TaskStarted => (
                    ParaformerMachine { stage: Stage::AwaitResultGenerated, ..m },
                    Seq::empty(),
                ),
                ServerEvent::ResultGenerated(r) => (
                    m,
                    seq![ParaformerAction::Emit(Ok(event_of_response(r)))],
                ),
                ServerEvent::TaskFinished => (m, seq![ParaformerAction::CloseConnection]),
                ServerEvent::TaskFailed { .. } => (
                    ParaformerMachine { done: true, ..m },
                    seq![
                        ParaformerAction::Emit(Err(AdapterError::Connection)),
                        ParaformerAction::CloseConnection,
                        ParaformerAction::End,
                    ],
                ),
            },
            ParaformerInput::Transport(t) => match t {
                TransportInput::Ping(d) => (m, seq![ParaformerAction::SendPong(d)]),
                TransportInput::Pong => (m, Seq::empty()),
                TransportInput::CloseFrame(f) => match f {
                    Some(reason) => (
                        m,
                        seq![ParaformerAction::Emit(Err(AdapterError::Closed(reason)))],
                    ),
                    None => (m, Seq::empty()),
                },
                TransportInput::Disconnected => (
                    ParaformerMachine { done: true, ..m },
                    seq![ParaformerAction::End],
                ),
                TransportInput::ConnError => (
                    ParaformerMachine { done: true, ..m },
                    seq![
                        ParaformerAction::Emit(Err(AdapterError::Connection)),
                        ParaformerAction::End,
                    ],
                ),
                TransportInput::SendFailed => (
                    ParaformerMachine { done: true, ..m },
                    seq![
                        ParaformerAction::Emit(Err(AdapterError::Connection)),
                        ParaformerAction::End,
                    ],
                ),
                TransportInput::Malformed(text) => (
                    ParaformerMachine { done: true, ..m },
                    seq![
                        ParaformerAction::Emit(Err(AdapterError::Protocol(text))),
                        ParaformerAction::End,
                    ],
                ),
                TransportInput::Unexpected(what) => (
                    ParaformerMachine { done: true, ..m },
                    seq![
                        ParaformerAction::Emit(Err(AdapterError::Protocol(what))),
                        ParaformerAction::End,
                    ],
                ),
            },
        }
    }
}

impl ParaformerMachine {
    /// A fresh machine for one session: the run-task request for `task_id`
    /// was just sent, nothing acknowledged yet.
    pub fn new(task_id: String) -> (r: Self)
        ensures
            r.stage == Stage::AwaitTaskStarted,
            r.task_id == task_id,
            !r.done,
    {
        ParaformerMachine { stage: Stage::AwaitTaskStarted, task_id, done: false }
    }

    /// Whether the relay loop may poll the audio arm: only while streaming,
    /// as the stage machine prescribes.
    pub fn audio_arm_enabled(&self) -> (r: bool)
        ensures
            r == (self.stage is AwaitResultGenerated),
    {
        match self.stage {
            Stage::AwaitResultGenerated => true,
            _ => false,
        }
    }

    /// Whether the stream has ended and stepping must stop.
    pub fn is_done(&self) -> (r: bool)
        ensures
            r == self.done,
    {
        self.done
    }

    /// Feeds one input and returns the actions to carry out, exactly as
    /// `step_spec` prescribes.
    pub fn step(&mut self, input: ParaformerInput) -> (r: Vec<ParaformerAction>)
        requires
            !old(self).done,
            input is Audio ==> old(self).stage is AwaitResultGenerated,
        ensures
            *final(self) == step_spec(*old(self), input).0,
            r@ == step_spec(*old(self), input).1,
    {
        let mut r: Vec<ParaformerAction> = Vec::new();
        match input {
            ParaformerInput::Audio(a) => match a {
                AudioInput::Chunk(c) => {
                    r.push(ParaformerAction::SendAudio(c));
                },
                AudioInput::Failed(msg) => {
                    r.push(ParaformerAction::Emit(Err(AdapterError::Audio(msg))));
                },
                AudioInput::End => {
                    r.push(ParaformerAction::SendFinish { task_id: self.task_id.clone() });
                    self.stage = Stage::AwaitTaskFinished;
                },
            },
            ParaformerInput::Server(s) => match s {
                ServerEvent::TaskStarted => {
                    self.stage = Stage::AwaitResultGenerated;
                },
                ServerEvent::ResultGenerated(resp) => {
                    r.push(ParaformerAction::Emit(Ok(resp.into_event())));
                },
                ServerEvent::TaskFinished => {
                    r.push(ParaformerAction::CloseConnection);
                },
                ServerEvent::TaskFailed { error_code: _, error_message: _ } => {
                    r.push(ParaformerAction::Emit(Err(AdapterError::Connection)));
                    r.push(ParaformerAction::CloseConnection);
                    r.push(ParaformerAction::End);
                    self.done = true;
                },
            },
            ParaformerInput::Transport(t) => match t {
                TransportInput::Ping(d) => {
                    r.push(ParaformerAction::SendPong(d));
                },
                TransportInput::Pong => {},
                TransportInput::CloseFrame(f) => match f {
                    Some(reason) => {
                        r.push(ParaformerAction::Emit(Err(AdapterError::Closed(reason))));
                    },
                    None => {},
                },
                TransportInput::Disconnected => {
                    r.push(ParaformerAction::End);
                    self.done = true;
                },
                TransportInput::ConnError => {
                    r.push(ParaformerAction::Emit(Err(AdapterError::Connection)));
                    r.push(ParaformerAction::End);
                    self.done = true;
                },
                TransportInput::SendFailed => {
                    r.push(ParaformerAction::Emit(Err(AdapterError::Connection)));
                    r.push(ParaformerAction::End);
                    self.done = true;
                },
                TransportInput::Malformed(text) => {
                    r.push(ParaformerAction::Emit(Err(AdapterError::Protocol(text))));
                    r.push(ParaformerAction::End);
                    self.done = true;
                },
                TransportInput::Unexpected(what) => {
                    r.push(ParaformerAction::Emit(Err(AdapterError::Protocol(what))));
                    r.push(ParaformerAction::End);
                    self.done = true;
                },
            },
        }
        proof {
            assert(r@ =~= step_spec(*old(self), input).1);
        }
        r
    }
}

/// The actions of feeding a whole input sequence, in order.
pub open spec fn run_spec(m: ParaformerMachine, inputs: Seq<ParaformerInput>) -> Seq<
    ParaformerAction,
>
    decreases inputs.len(),
{
    if inputs.len() == 0 {
        Seq::empty()
    } else {
        step_spec(m, inputs[0]).1 + run_spec(step_spec(m, inputs[0]).0, inputs.drop_first())
    }
}

/// The events an action sequence delivers successfully, in order.
pub open spec fn emitted_events(actions: Seq<ParaformerAction>) -> Seq<TranscriptionEvent>
    decreases actions.len(),
{
    if actions.len() == 0 {
        Seq::empty()
    } else {
        (match actions[0] {
            ParaformerAction::Emit(Ok(e)) => seq![e],
            _ => Seq::empty(),
        }) + emitted_events(actions.drop_first())
    }
}

/// The translations of the server's result messages, in the order the
/// server sent them.
pub open spec fn server_results(inputs: Seq<ParaformerInput>) -> Seq<TranscriptionEvent>
    decreases inputs.len(),
{
    if inputs.len() == 0 {
        Seq::empty()
    } else {
        (match inputs[0] {
            ParaformerInput::Server(ServerEvent::ResultGenerated(r)) => seq![event_of_response(r)],
            _ => Seq::empty(),
        }) + server_results(inputs.drop_first())
    }
}

/// Whether an input leaves the stream alive: everything except a reported
/// task failure and the terminal transport observations.
pub open spec fn benign(input: ParaformerInput) -> bool {
    match input {
        ParaformerInput::Audio(_) => true,
        ParaformerInput::Server(s) => !(s is TaskFailed),
        ParaformerInput::Transport(t) => match t {
            TransportInput::Ping(_) => true,
            TransportInput::Pong => true,
            TransportInput::CloseFrame(_) => true,
            _ => false,
        },
    }
}

/// The events one action delivers.
proof fn lemma_emitted_single(a: ParaformerAction)
    ensures
        emitted_events(seq![a]) == (match a {
            ParaformerAction::Emit(Ok(e)) => seq![e],
            _ => Seq::<TranscriptionEvent>::empty(),
        }),
{
    assert(seq![a].drop_first() =~= Seq::<ParaformerAction>::empty());
    assert(emitted_events(Seq::<ParaformerAction>::empty()) == Seq::<TranscriptionEvent>::empty());
    match a {
        ParaformerAction::Emit(r) => match r {
            Ok(e) => {
                assert(emitted_events(seq![a]) =~= seq![e]);
            },
            Err(_) => {
                assert(emitted_events(seq![a]) =~= Seq::<TranscriptionEvent>::empty());
            },
        },
        _ => {
            assert(emitted_events(seq![a]) =~= Seq::<TranscriptionEvent>::empty());
        },
    }
}

/// Emitted events of concatenated actions are the concatenation of the
/// emitted events.
proof fn lemma_emitted_append(a: Seq<ParaformerAction>, b: Seq<ParaformerAction>)
    ensures
        emitted_events(a + b) == emitted_events(a) + emitted_events(b),
    decreases a.len(),
{
    if a.len() == 0 {
        assert(a + b =~= b);
        assert(emitted_events(a) + emitted_events(b) =~= emitted_events(b));
    } else {
        assert((a + b)[0] == a[0]);
        assert((a + b).drop_first() =~= a.drop_first() + b);
        lemma_emitted_append(a.drop_first(), b);
        assert(emitted_events(a + b) =~= emitted_events(a) + emitted_events(b));
    }
}

/// What a single live step contributes to the emitted events: the
/// translated result for a result message, nothing for anything else.
proof fn proof_emitted_of_benign_step(m: ParaformerMachine, input: ParaformerInput)
    requires
        !m.done,
        benign(input),
    ensures
        emitted_events(step_spec(m, input).1) == (match input {
            ParaformerInput::Server(ServerEvent::ResultGenerated(r)) => seq![event_of_response(r)],
            _ => Seq::<TranscriptionEvent>::empty(),
        }),
{
    let acts = step_spec(m, input).1;
    assert(emitted_events(Seq::<ParaformerAction>::empty()) == Seq::<TranscriptionEvent>::empty());
    match input {
        ParaformerInput::Audio(a) => match a {
            AudioInput::Chunk(c) => {
                if m.stage is AwaitResultGenerated {
                    lemma_emitted_single(ParaformerAction::SendAudio(c));
                }
            },
            AudioInput::Failed(msg) => {
                lemma_emitted_single(
                    ParaformerAction::Emit(Err(AdapterError::Audio(msg))),
                );
            },
            AudioInput::End => {
                if m.stage is AwaitResultGenerated {
                    lemma_emitted_single(ParaformerAction::SendFinish { task_id: m.task_id });
                }
            },
        },
        ParaformerInput::Server(s) => match s {
            ServerEvent::TaskStarted => {},
            ServerEvent::ResultGenerated(r) => {
                lemma_emitted_single(ParaformerAction::Emit(Ok(event_of_response(r))));
            },
            ServerEvent::TaskFinished => {
                lemma_emitted_single(ParaformerAction::CloseConnection);
            },
            ServerEvent::TaskFailed { .. } => {},
        },
        ParaformerInput::Transport(t) => match t {
            TransportInput::Ping(d) => {
                lemma_emitted_single(ParaformerAction::SendPong(d));
            },
            TransportInput::Pong => {},
            TransportInput::CloseFrame(f) => match f {
                Some(reason) => {
                    lemma_emitted_single(
                        ParaformerAction::Emit(Err(AdapterError::Closed(reason))),
                    );
                },
                None => {},
            },
            _ => {},
        },
    }
}

/// For any interleaving of audio chunks and live server messages, the
/// emitted events are exactly the server's result messages, translated, in
/// the server's emission order: the adapter neither reorders, drops nor
/// duplicates results.
pub proof fn lemma_events_preserve_server_order(
    m: ParaformerMachine,
    inputs: Seq<ParaformerInput>,
)
    requires
        !m.done,
        forall|k: int| 0 <= k < inputs.len() ==> benign(#[trigger] inputs[k]),
    ensures
        emitted_events(run_spec(m, inputs)) == server_results(inputs),
    decreases inputs.len(),
{
    if inputs.len() == 0 {
    } else {
        let first = inputs[0];
        let step = step_spec(m, first);
        assert(benign(first));
        assert(!step.0.done);
        proof_emitted_of_benign_step(m, first);
        lemma_emitted_append(step.1, run_spec(step.0, inputs.drop_first()));
        assert(forall|k: int|
            0 <= k < inputs.drop_first().len() ==> benign(#[trigger] inputs.drop_first()[k]));
        lemma_events_preserve_server_order(step.0, inputs.drop_first());
        assert(emitted_events(run_spec(m, inputs)) =~= server_results(inputs));
    }
}

} // verus!
