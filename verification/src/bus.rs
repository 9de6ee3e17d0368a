//! What the driver asks of the bus, and what comes back.
//!
//! The sensor sits behind a register-addressed two-wire bus. This crate
//! performs no bus access of its own. Each driver action is a fixed list of
//! [`Request`]s; the caller carries them out in order, stops at the first one
//! that fails, and otherwise collects one [`Reply`] per request.

use vstd::prelude::*;
use crate::register::Register;

verus! {

/// One step that the caller performs on behalf of the driver.
#[derive(Debug, Clone, Copy, PartialEq, Eq, Structural)]
pub enum Request {
    /// Read the byte held by `register`.
    ReadByte { register: Register },
    /// Read the sixteen-bit word that starts at `register`.
    ReadWord { register: Register },
    /// Write `value` to `register`.
    WriteByte { register: Register, value: u8 },
    /// Block for at least `millis` milliseconds.
    Wait { millis: u64 },
}

/// The outcome of one request that succeeded.
#[derive(Debug, Clone, Copy, PartialEq, Eq, Structural)]
pub enum Reply {
    /// The byte that a `ReadByte` returned.
    Byte(u8),
    /// The word that a `ReadWord` returned.
    Word(u16),
    /// A `WriteByte` or a `Wait` has completed.
    Done,
}

impl Request {
    /// Whether `reply` is of the kind that this request produces.
    pub open spec fn answered_by(self, reply: Reply) -> bool {
        match self {
            Request::ReadByte { .. } => reply is Byte,
            Request::ReadWord { .. } => reply is Word,
            Request::WriteByte { .. } => reply is Done,
            Request::Wait { .. } => reply is Done,
        }
    }

    /// What a device at rest replies: one whose byte registers hold `bytes`
    /// and whose word registers hold `words`, whatever is written to it.
    pub open spec fn reply_at_rest(
        self,
        bytes: spec_fn(Register) -> u8,
        words: spec_fn(Register) -> u16,
    ) -> Reply {
        match self {
            Request::ReadByte { register } => Reply::Byte(bytes(register)),
            Request::ReadWord { register } => Reply::Word(words(register)),
            Request::WriteByte { .. } => Reply::Done,
            Request::Wait { .. } => Reply::Done,
        }
    }

    /// Tells whether `reply` is of the kind that this request produces.
    pub fn is_answered_by(&self, reply: &Reply) -> (fits: bool)
        ensures
            fits == self.answered_by(*reply),
    {
        match self {
            Request::ReadByte { .. } => matches!(reply, Reply::Byte(_)),
            Request::ReadWord { .. } => matches!(reply, Reply::Word(_)),
            Request::WriteByte { .. } => matches!(reply, Reply::Done),
            Request::Wait { .. } => matches!(reply, Reply::Done),
        }
    }
}

impl Reply {
    /// The byte that the reply carries; arbitrary unless it is a `Byte`.
    pub open spec fn byte(self) -> u8 {
        self->Byte_0
    }

    /// The word that the reply carries; arbitrary unless it is a `Word`.
    pub open spec fn word(self) -> u16 {
        self->Word_0
    }
}

/// Whether `replies` is a complete run of `script`: one reply for each
/// request, each of the kind that its request produces.
pub open spec fn complete_run(script: Seq<Request>, replies: Seq<Reply>) -> bool {
    &&& replies.len() == script.len()
    &&& forall|i: int| 0 <= i < script.len() ==> (#[trigger] script[i]).answered_by(replies[i])
}

/// The replies that a device at rest gives to `script`.
pub open spec fn replies_at_rest(
    script: Seq<Request>,
    bytes: spec_fn(Register) -> u8,
    words: spec_fn(Register) -> u16,
) -> Seq<Reply> {
    Seq::new(script.len(), |i: int| script[i].reply_at_rest(bytes, words))
}

/// What a device at rest replies to a script is a complete run of it.
pub proof fn lemma_replies_at_rest_complete(
    script: Seq<Request>,
    bytes: spec_fn(Register) -> u8,
    words: spec_fn(Register) -> u16,
)
    ensures
        complete_run(script, replies_at_rest(script, bytes, words)),
{
}

/// Tells whether `replies` is a complete run of `script`.
pub fn is_complete_run(script: &[Request], replies: &[Reply]) -> (fits: bool)
    ensures
        fits == complete_run(script@, replies@),
{
    if script.len() != replies.len() {
        return false;
    }
    let mut i: usize = 0;
    while i < script.len()
        invariant
            i <= script.len(),
            script.len() == replies.len(),
            forall|j: int| 0 <= j < i ==> (#[trigger] script@[j]).answered_by(replies@[j]),
        decreases script.len() - i,
    {
        if !script[i].is_answered_by(&replies[i]) {
            return false;
        }
        i += 1;
    }
    true
}

/// The byte in a reply that is known to carry one.
pub(crate) fn byte_of(reply: &Reply) -> (byte: u8)
    requires
        reply is Byte,
    ensures
        byte == reply.byte(),
{
    match reply {
        Reply::Byte(byte) => *byte,
        _ => 0,
    }
}

/// The word in a reply that is known to carry one.
pub(crate) fn word_of(reply: &Reply) -> (word: u16)
    requires
        reply is Word,
    ensures
        word == reply.word(),
{
    match reply {
        Reply::Word(word) => *word,
        _ => 0,
    }
}

} // verus!
