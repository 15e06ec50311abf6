//! The message shapes that the generators produce, and how each is drawn
//! from the entropy source.

use crate::entropy::{EntropySource, EntropyState};
use crate::error::FuzzError;
use arbitrary::{Arbitrary, Unstructured};
use vstd::prelude::*;
use vstd::slice::slice_subrange;
use vstd::utf8::{decode_utf8, valid_utf8};

verus! {

/// Bytes of entropy that one color takes: one per channel.
pub const RGB_ENTROPY: usize = 3;

/// Bytes of entropy that one ranged integer takes: enough to cover every
/// value between `INT32_LOW` and `INT32_HIGH`.
pub const INT32_ENTROPY: usize = 2;

/// Lower bound, inclusive, of a generated integer payload.
pub const INT32_LOW: i32 = -1000;

/// Upper bound, inclusive, of a generated integer payload.
pub const INT32_HIGH: i32 = 1000;

/// The least number of unread bytes with which a text is drawn: an empty
/// source yields no text but is exhausted.
pub const TEXT_MIN_ENTROPY: usize = 1;

/// The fixed `x` of every generated `Test`.
pub const TEST_X: usize = 23;

/// The integer that the `obj` of every generated `Test` holds as JSON.
pub const TEST_OBJ: i32 = 12;

/// `serde_json::Value`, carried opaquely inside `Test`.
#[verifier::external_type_specification]
#[verifier::external_body]
pub struct ExJsonValue(serde_json::Value);

/// `std::string::FromUtf8Error`, seen only to be mapped to
/// `FuzzError::GenerationMalformed`.
#[verifier::external_type_specification]
#[verifier::external_body]
pub struct ExFromUtf8Error(std::string::FromUtf8Error);

/// The integer that `arbitrary::Unstructured::int_in_range` makes of the
/// bytes `data` for the inclusive range from `lo` to `hi`.
pub uninterp spec fn int_in_range_value(data: Seq<u8>, lo: int, hi: int) -> int;

/// The JSON value that `serde_json::Value::from` makes of the integer `n`.
pub uninterp spec fn json_number(n: int) -> serde_json::Value;

/// Calls `arbitrary::Unstructured::int_in_range` on a fresh `Unstructured`
/// over `data`. Its source has no failing path once the range is non-empty,
/// and its documentation places the result within the range; which value
/// of the range it is goes by the name `int_in_range_value`.
#[verifier::external_body]
fn unstructured_int_in_range(data: &[u8], lo: i32, hi: i32) -> (r: Result<i32, arbitrary::Error>)
    requires
        lo <= hi,
    ensures
        r is Ok,
        r matches Ok(v) ==> v == int_in_range_value(data@, lo as int, hi as int),
        r matches Ok(v) ==> lo <= v <= hi,
{
    Unstructured::new(data).int_in_range(lo..=hi)
}

/// Calls `arbitrary`'s `Arbitrary::arbitrary` for `u8` on a fresh
/// `Unstructured` over `data`. Its source fills a buffer of one byte, padded
/// with zero where `data` is empty, and has no failing path: the result is
/// the first byte of `data`.
#[verifier::external_body]
fn unstructured_u8(data: &[u8]) -> (r: Result<u8, arbitrary::Error>)
    ensures
        r is Ok,
        r matches Ok(v) ==> v == (if data@.len() > 0 {
            data@[0]
        } else {
            0u8
        }),
{
    u8::arbitrary(&mut Unstructured::new(data))
}

/// Calls `String::from_utf8`. As documented, it succeeds exactly on valid
/// UTF-8, and the string then holds the characters that the bytes encode.
#[verifier::external_body]
fn string_from_utf8(bytes: Vec<u8>) -> (r: Result<String, std::string::FromUtf8Error>)
    ensures
        r is Ok <==> valid_utf8(bytes@),
        r matches Ok(s) ==> s@ == decode_utf8(bytes@),
{
    String::from_utf8(bytes)
}

/// `serde_json::Value::clone`, which `Value` derives: the copy equals the
/// value it was made of.
pub assume_specification[ <serde_json::Value as Clone>::clone ](v: &serde_json::Value) -> (r:
    serde_json::Value)
    ensures
        r == *v,
;

/// Calls `serde_json::Value::from` on an `i32`: the JSON number `n`.
#[verifier::external_body]
fn json_from_i32(n: i32) -> (v: serde_json::Value)
    ensures
        v == json_number(n as int),
{
    serde_json::Value::from(n)
}

/// What a text generator makes of a source in state `s`: it draws every
/// unread byte, and at least one, and decodes them as UTF-8.
pub open spec fn text_outcome(s: EntropyState) -> Result<Seq<char>, FuzzError> {
    if s.remaining() < TEXT_MIN_ENTROPY {
        Err(FuzzError::GenerationExhausted)
    } else if valid_utf8(s.unread) {
        Ok(decode_utf8(s.unread))
    } else {
        Err(FuzzError::GenerationMalformed)
    }
}

/// The number of bytes that a text generator asks of a source in state
/// `s`: all that is left, and one where nothing is.
pub open spec fn text_need(s: EntropyState) -> nat {
    if s.remaining() < TEXT_MIN_ENTROPY {
        TEXT_MIN_ENTROPY as nat
    } else {
        s.remaining()
    }
}

/// Draws every unread byte of `u`, at least one, and decodes them as text.
fn draw_text(u: &mut EntropySource) -> (r: Result<String, FuzzError>)
    ensures
        match r {
            Ok(text) => text_outcome(old(u)@) == Ok::<Seq<char>, FuzzError>(text@),
            Err(e) => text_outcome(old(u)@) == Err::<Seq<char>, FuzzError>(e),
        },
        final(u)@ == old(u)@.take(text_need(old(u)@)),
{
    let n: usize = u.remaining();
    if n < TEXT_MIN_ENTROPY {
        return Err(FuzzError::GenerationExhausted);
    }
    match u.take(n) {
        Ok(drawn) => {
            assert(drawn@ =~= old(u)@.unread);
            match string_from_utf8(drawn) {
                Ok(text) => Ok(text),
                Err(_) => Err(FuzzError::GenerationMalformed),
            }
        },
        Err(_) => Err(FuzzError::GenerationExhausted),
    }
}

/// A color of three channels.
#[derive(Copy, Clone, Debug, PartialEq, Eq, Structural)]
pub struct Rgb {
    pub r: u8,
    pub g: u8,
    pub b: u8,
}

impl Rgb {
    /// Draws one byte per channel, in the order red, green, blue. Fewer
    /// than three unread bytes are `GenerationExhausted`, and then nothing
    /// is consumed.
    pub fn arbitrary(u: &mut EntropySource) -> (r: Result<Rgb, FuzzError>)
        ensures
            old(u)@.grants(RGB_ENTROPY as nat) ==> r == Ok::<Rgb, FuzzError>(
                Rgb { r: old(u)@.unread[0], g: old(u)@.unread[1], b: old(u)@.unread[2] },
            ),
            !old(u)@.grants(RGB_ENTROPY as nat) ==> r == Err::<Rgb, FuzzError>(
                FuzzError::GenerationExhausted,
            ),
            final(u)@ == old(u)@.take(RGB_ENTROPY as nat),
    {
        match u.take(RGB_ENTROPY) {
            Ok(drawn) => {
                let bytes = drawn.as_slice();
                let r = unstructured_u8(slice_subrange(bytes, 0, 1));
                let g = unstructured_u8(slice_subrange(bytes, 1, 2));
                let b = unstructured_u8(slice_subrange(bytes, 2, 3));
                match (r, g, b) {
                    (Ok(r), Ok(g), Ok(b)) => Ok(Rgb { r, g, b }),
                    _ => Err(FuzzError::GenerationMalformed),
                }
            },
            Err(_) => Err(FuzzError::GenerationExhausted),
        }
    }
}

/// An integer message: the payload of a `std_msgs/Int32`.
#[derive(Copy, Clone, Debug, PartialEq, Eq, Structural)]
pub struct R2RInt32Wrapper {
    pub data: i32,
}

impl R2RInt32Wrapper {
    /// Draws `INT32_ENTROPY` bytes and maps them into the range from
    /// `INT32_LOW` to `INT32_HIGH`. Fewer unread bytes are
    /// `GenerationExhausted`, and then nothing is consumed.
    pub fn arbitrary(u: &mut EntropySource) -> (r: Result<R2RInt32Wrapper, FuzzError>)
        ensures
            old(u)@.grants(INT32_ENTROPY as nat) ==> (r matches Ok(m) && m.data
                == int_in_range_value(
                old(u)@.front(INT32_ENTROPY as nat),
                INT32_LOW as int,
                INT32_HIGH as int,
            ) && INT32_LOW <= m.data <= INT32_HIGH),
            !old(u)@.grants(INT32_ENTROPY as nat) ==> r == Err::<R2RInt32Wrapper, FuzzError>(
                FuzzError::GenerationExhausted,
            ),
            final(u)@ == old(u)@.take(INT32_ENTROPY as nat),
    {
        match u.take(INT32_ENTROPY) {
            Ok(drawn) => {
                match unstructured_int_in_range(drawn.as_slice(), INT32_LOW, INT32_HIGH) {
                    Ok(x) => Ok(R2RInt32Wrapper { data: x }),
                    Err(_) => Err(FuzzError::GenerationMalformed),
                }
            },
            Err(_) => Err(FuzzError::GenerationExhausted),
        }
    }
}

/// A text message: the payload of a `std_msgs/String`.
#[derive(Debug, PartialEq, Eq)]
pub struct R2RStringWrapper {
    pub data: String,
}

impl Clone for R2RStringWrapper {
    fn clone(&self) -> (m: R2RStringWrapper)
        ensures
            m.data@ == self.data@,
    {
        R2RStringWrapper { data: self.data.clone() }
    }
}

impl R2RStringWrapper {
    /// Draws every unread byte, at least one, as the text of the message.
    /// An empty source is `GenerationExhausted`; bytes that are not valid
    /// UTF-8 are `GenerationMalformed`, and they are consumed all the same.
    pub fn arbitrary(u: &mut EntropySource) -> (r: Result<R2RStringWrapper, FuzzError>)
        ensures
            match r {
                Ok(m) => text_outcome(old(u)@) == Ok::<Seq<char>, FuzzError>(m.data@),
                Err(e) => text_outcome(old(u)@) == Err::<Seq<char>, FuzzError>(e),
            },
            final(u)@ == old(u)@.take(text_need(old(u)@)),
    {
        match draw_text(u) {
            Ok(text) => Ok(R2RStringWrapper { data: text }),
            Err(e) => Err(e),
        }
    }
}

/// A record of a text, a fixed count and a fixed JSON number.
#[derive(Debug, PartialEq)]
pub struct Test {
    pub str: String,
    pub x: usize,
    pub obj: serde_json::Value,
}

impl Clone for Test {
    fn clone(&self) -> (t: Test)
        ensures
            t.str@ == self.str@,
            t.x == self.x,
            t.obj == self.obj,
    {
        Test { str: self.str.clone(), x: self.x, obj: self.obj.clone() }
    }
}

impl Test {
    /// The record that carries `text`: its `x` is `TEST_X` and its `obj`
    /// the JSON number `TEST_OBJ`.
    pub fn with_text(text: String) -> (t: Test)
        ensures
            t.str@ == text@,
            t.x == TEST_X,
            t.obj == json_number(TEST_OBJ as int),
    {
        Test { str: text, x: TEST_X, obj: json_from_i32(TEST_OBJ) }
    }

    /// Draws every unread byte, at least one, as the text of the record;
    /// the other fields are fixed. It fails as a text message does.
    pub fn arbitrary(u: &mut EntropySource) -> (r: Result<Test, FuzzError>)
        ensures
            match r {
                Ok(t) => text_outcome(old(u)@) == Ok::<Seq<char>, FuzzError>(t.str@) && t.x
                    == TEST_X && t.obj == json_number(TEST_OBJ as int),
                Err(e) => text_outcome(old(u)@) == Err::<Seq<char>, FuzzError>(e),
            },
            final(u)@ == old(u)@.take(text_need(old(u)@)),
    {
        match draw_text(u) {
            Ok(text) => Ok(Test::with_text(text)),
            Err(e) => Err(e),
        }
    }
}

} // verus!
