//! Generators: one per supported message shape. A generator consumes bytes
//! of the entropy source and yields a typed message or a generation error.

use crate::entropy::{EntropySource, EntropyState};
use crate::error::FuzzError;
use crate::message::{
    int_in_range_value, json_number, text_need, text_outcome, R2RInt32Wrapper, R2RStringWrapper,
    Rgb, Test, INT32_ENTROPY, INT32_HIGH, INT32_LOW, RGB_ENTROPY, TEST_OBJ, TEST_X,
    TEXT_MIN_ENTROPY,
};
use vstd::prelude::*;

verus! {

/// A generated message, tagged by its shape.
#[derive(Debug, PartialEq)]
pub enum TypedMessage {
    Text(R2RStringWrapper),
    Int32(R2RInt32Wrapper),
    Rgb(Rgb),
    Test(Test),
}

/// What a message holds, as mathematical values.
pub enum MessageView {
    Text(Seq<char>),
    Int32(int),
    Rgb(Rgb),
    Test { str: Seq<char>, x: usize, obj: serde_json::Value },
}

impl View for TypedMessage {
    type V = MessageView;

    open spec fn view(&self) -> MessageView {
        match *self {
            TypedMessage::Text(m) => MessageView::Text(m.data@),
            TypedMessage::Int32(m) => MessageView::Int32(m.data as int),
            TypedMessage::Rgb(c) => MessageView::Rgb(c),
            TypedMessage::Test(t) => MessageView::Test { str: t.str@, x: t.x, obj: t.obj },
        }
    }
}

impl Clone for TypedMessage {
    fn clone(&self) -> (m: TypedMessage)
        ensures
            m@ == self@,
    {
        match self {
            TypedMessage::Text(t) => TypedMessage::Text(t.clone()),
            TypedMessage::Int32(i) => TypedMessage::Int32(R2RInt32Wrapper { data: i.data }),
            TypedMessage::Rgb(c) => TypedMessage::Rgb(Rgb { r: c.r, g: c.g, b: c.b }),
            TypedMessage::Test(t) => TypedMessage::Test(t.clone()),
        }
    }
}

/// The outcome of a generation as mathematical values: the view of the
/// message, or the error.
pub open spec fn outcome_view(r: Result<TypedMessage, FuzzError>) -> Result<
    MessageView,
    FuzzError,
> {
    match r {
        Ok(m) => Ok(m@),
        Err(e) => Err(e),
    }
}

/// A generator, named by the message shape it produces.
#[derive(Clone, Copy, Debug, PartialEq, Eq, Structural)]
pub enum Generator {
    /// Text messages: every unread byte, decoded as UTF-8.
    Text,
    /// Integer messages within `INT32_LOW` and `INT32_HIGH`.
    Int32,
    /// Colors: one byte per channel.
    Rgb,
    /// `Test` records: a text as for `Text`, beside fixed fields.
    Test,
}

impl Generator {
    /// The least number of unread bytes with which this generator does not
    /// fail for want of entropy.
    pub open spec fn min_entropy(self) -> nat {
        match self {
            Generator::Text => TEXT_MIN_ENTROPY as nat,
            Generator::Int32 => INT32_ENTROPY as nat,
            Generator::Rgb => RGB_ENTROPY as nat,
            Generator::Test => TEXT_MIN_ENTROPY as nat,
        }
    }

    /// The number of bytes that this generator asks of a source in state
    /// `s`. The text generators ask for all that is left.
    pub open spec fn need(self, s: EntropyState) -> nat {
        match self {
            Generator::Text => text_need(s),
            Generator::Int32 => INT32_ENTROPY as nat,
            Generator::Rgb => RGB_ENTROPY as nat,
            Generator::Test => text_need(s),
        }
    }

    /// What this generator yields from a source in state `s`.
    pub open spec fn outcome(self, s: EntropyState) -> Result<MessageView, FuzzError> {
        match self {
            Generator::Text => match text_outcome(s) {
                Ok(text) => Ok(MessageView::Text(text)),
                Err(e) => Err(e),
            },
            Generator::Int32 => if s.grants(INT32_ENTROPY as nat) {
                Ok(
                    MessageView::Int32(
                        int_in_range_value(
                            s.front(INT32_ENTROPY as nat),
                            INT32_LOW as int,
                            INT32_HIGH as int,
                        ),
                    ),
                )
            } else {
                Err(FuzzError::GenerationExhausted)
            },
            Generator::Rgb => if s.grants(RGB_ENTROPY as nat) {
                Ok(MessageView::Rgb(Rgb { r: s.unread[0], g: s.unread[1], b: s.unread[2] }))
            } else {
                Err(FuzzError::GenerationExhausted)
            },
            Generator::Test => match text_outcome(s) {
                Ok(text) => Ok(
                    MessageView::Test { str: text, x: TEST_X, obj: json_number(TEST_OBJ as int) },
                ),
                Err(e) => Err(e),
            },
        }
    }

    /// The state in which this generator leaves a source that was in state
    /// `s`: a generation that is exhausted consumes nothing, every other
    /// consumes what it asked for, also where the bytes were malformed.
    pub open spec fn leaves(self, s: EntropyState) -> EntropyState {
        s.take(self.need(s))
    }

    /// The least number of unread bytes that this generator requires.
    pub fn minimum_entropy(&self) -> (n: usize)
        ensures
            n == self.min_entropy(),
    {
        match self {
            Generator::Text => TEXT_MIN_ENTROPY,
            Generator::Int32 => INT32_ENTROPY,
            Generator::Rgb => RGB_ENTROPY,
            Generator::Test => TEXT_MIN_ENTROPY,
        }
    }

    /// Synthesizes one message from the entropy source.
    pub fn generate(&self, u: &mut EntropySource) -> (r: Result<TypedMessage, FuzzError>)
        ensures
            outcome_view(r) == self.outcome(old(u)@),
            final(u)@ == self.leaves(old(u)@),
    {
        match self {
            Generator::Text => match R2RStringWrapper::arbitrary(u) {
                Ok(m) => Ok(TypedMessage::Text(m)),
                Err(e) => Err(e),
            },
            Generator::Int32 => match R2RInt32Wrapper::arbitrary(u) {
                Ok(m) => Ok(TypedMessage::Int32(m)),
                Err(e) => Err(e),
            },
            Generator::Rgb => match Rgb::arbitrary(u) {
                Ok(c) => Ok(TypedMessage::Rgb(c)),
                Err(e) => Err(e),
            },
            Generator::Test => match Test::arbitrary(u) {
                Ok(t) => Ok(TypedMessage::Test(t)),
                Err(e) => Err(e),
            },
        }
    }
}

/// A generation fails for want of entropy exactly when fewer bytes are
/// unread than the generator's minimum: with at least that many it never
/// fails with `GenerationExhausted`.
pub proof fn lemma_exhausted_iff_below_minimum(g: Generator, s: EntropyState)
    ensures
        g.outcome(s) == Err::<MessageView, FuzzError>(FuzzError::GenerationExhausted)
            <==> s.remaining() < g.min_entropy(),
{
}

/// A generation that fails for want of entropy leaves the source as it
/// was: nothing is consumed.
pub proof fn lemma_exhausted_consumes_nothing(g: Generator, s: EntropyState)
    requires
        g.outcome(s) == Err::<MessageView, FuzzError>(FuzzError::GenerationExhausted),
    ensures
        g.leaves(s) == s,
{
}

/// A generator only ever fails with one of the two generation errors.
pub proof fn lemma_generation_errors(g: Generator, s: EntropyState)
    ensures
        g.outcome(s) matches Err(e) ==> e == FuzzError::GenerationExhausted || e
            == FuzzError::GenerationMalformed,
{
}

} // verus!
