//! Plain-value forms of the Qwen-style backend's wire messages: the
//! recognition languages, conversation items, and the classified server
//! events the adapter consumes.

use vstd::prelude::*;
use vstd::string::StringExecFns;

verus! {

/// A recognition language selectable for the session.
#[derive(Clone, Copy, Debug, PartialEq, Eq, Structural)]
pub enum Language {
    Mandarin,
    Cantonese,
    English,
    Japanese,
    German,
    Korean,
    Russian,
    French,
    Portuguese,
    Arabic,
    Italian,
    Spanish,
    Hindi,
    Indonesian,
    Thai,
    Turkish,
    Ukrainian,
    Vietnamese,
    Czech,
    Danish,
    Filipino,
    Finnish,
    Icelandic,
    Malay,
    Norwegian,
    Polish,
    Swedish,
}

/// A conversation item announced by the backend.
pub struct Item {
    pub id: String,
}

impl Clone for Item {
    fn clone(&self) -> (r: Self)
        ensures
            r.id == self.id,
    {
        Item { id: self.id.clone() }
    }
}

/// A server event of the Qwen-style protocol, already parsed from the wire
/// into plain values.
pub enum ServerEvent {
    /// The backend opened the session; the adapter answers with a session
    /// update.
    SessionCreated,
    /// The backend acknowledged the session update.
    SessionUpdated,
    /// The backend finished the session after the finish request.
    SessionFinished,
    /// A new conversation item was created.
    ConversationItemCreated(Item),
    /// An interim transcription of the utterance in progress; the text is
    /// the whole utterance so far, not a delta.
    TranscriptionText { text: String },
    /// The final transcription of the utterance just completed.
    TranscriptionCompleted { transcript: String },
    /// Speech was detected; an utterance begins at this time (in ms).
    SpeechStarted { audio_start_ms: u32 },
    /// Speech stopped; the final transcription will follow.
    SpeechStopped,
    /// The audio buffer was committed to an item.
    Committed,
    /// The backend reported an error for the session.
    ErrorEvent,
}

/// The decimal digit character of `d`.
pub open spec fn digit_char(d: u64) -> char {
    if d == 0 {
        '0'
    } else if d == 1 {
        '1'
    } else if d == 2 {
        '2'
    } else if d == 3 {
        '3'
    } else if d == 4 {
        '4'
    } else if d == 5 {
        '5'
    } else if d == 6 {
        '6'
    } else if d == 7 {
        '7'
    } else if d == 8 {
        '8'
    } else {
        '9'
    }
}

/// The decimal spelling of `n`, most significant digit first.
pub open spec fn dec_digits(n: u64) -> Seq<char>
    decreases n,
{
    if n < 10 {
        seq![digit_char(n)]
    } else {
        dec_digits(n / 10).push(digit_char(n % 10))
    }
}

/// The single-character text of a decimal digit.
fn digit_str(d: u64) -> (r: &'static str)
    requires
        d < 10,
    ensures
        r@ == seq![digit_char(d)],
{
    proof {
        reveal_strlit("0");
        reveal_strlit("1");
        reveal_strlit("2");
        reveal_strlit("3");
        reveal_strlit("4");
        reveal_strlit("5");
        reveal_strlit("6");
        reveal_strlit("7");
        reveal_strlit("8");
        reveal_strlit("9");
    }
    let r = if d == 0 {
        "0"
    } else if d == 1 {
        "1"
    } else if d == 2 {
        "2"
    } else if d == 3 {
        "3"
    } else if d == 4 {
        "4"
    } else if d == 5 {
        "5"
    } else if d == 6 {
        "6"
    } else if d == 7 {
        "7"
    } else if d == 8 {
        "8"
    } else {
        "9"
    };
    proof {
        assert(r@ =~= seq![digit_char(d)]);
    }
    r
}

/// Writes `n` in decimal, as the event identifiers require.
pub fn u64_to_dec(n: u64) -> (r: String)
    ensures
        r@ == dec_digits(n),
    decreases n,
{
    if n < 10 {
        String::from_str(digit_str(n))
    } else {
        let mut s = u64_to_dec(n / 10);
        s.append(digit_str(n % 10));
        proof {
            assert(s@ =~= dec_digits(n));
        }
        s
    }
}

} // verus!
