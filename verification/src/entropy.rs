//! The entropy source: a finite byte buffer read front to back through a
//! cursor. It is the only producer of non-determinism in the system.

use arbitrary::Unstructured;
use vstd::prelude::*;
use vstd::slice::slice_subrange;

verus! {

/// `arbitrary::Error`, carried opaquely from the calls into `arbitrary` to
/// the place where it is mapped to an error of this library.
#[verifier::external_type_specification]
#[verifier::external_body]
pub struct ExArbitraryError(arbitrary::Error);

/// Fewer bytes remain in the entropy source than a read asked for.
#[derive(Clone, Copy, Debug, PartialEq, Eq, Structural)]
pub struct Exhausted;

/// What an entropy source is, mathematically: the bytes already handed out
/// and the bytes still to come. The cursor is the number of bytes handed out.
pub struct EntropyState {
    pub read: Seq<u8>,
    pub unread: Seq<u8>,
}

impl EntropyState {
    /// The state of a fresh source over `seed`.
    pub open spec fn fresh(seed: Seq<u8>) -> EntropyState {
        EntropyState { read: Seq::empty(), unread: seed }
    }

    /// The read cursor: how many bytes have been handed out.
    pub open spec fn cursor(self) -> nat {
        self.read.len()
    }

    /// How many bytes are left before exhaustion.
    pub open spec fn remaining(self) -> nat {
        self.unread.len()
    }

    /// Whether a read of `n` bytes is granted.
    pub open spec fn grants(self, n: nat) -> bool {
        n <= self.unread.len()
    }

    /// The bytes that a granted read of `n` bytes hands out.
    pub open spec fn front(self, n: nat) -> Seq<u8> {
        self.unread.subrange(0, n as int)
    }

    /// The state after the first `n` unread bytes have been handed out.
    pub open spec fn advance(self, n: nat) -> EntropyState {
        EntropyState {
            read: self.read + self.unread.subrange(0, n as int),
            unread: self.unread.subrange(n as int, self.unread.len() as int),
        }
    }

    /// The state after a read of `n` bytes was asked for: advanced when the
    /// read is granted, untouched when it is not.
    pub open spec fn take(self, n: nat) -> EntropyState {
        if self.grants(n) {
            self.advance(n)
        } else {
            self
        }
    }
}

/// The state after the reads `requests` were asked for, one after the
/// other.
pub open spec fn after_takes(s: EntropyState, requests: Seq<nat>) -> EntropyState
    decreases requests.len(),
{
    if requests.len() == 0 {
        s
    } else {
        after_takes(s.take(requests[0]), requests.skip(1))
    }
}

/// The sum of those of `requests` that are granted when they are asked
/// for, one after the other, of a source in state `s`.
pub open spec fn granted_total(s: EntropyState, requests: Seq<nat>) -> nat
    decreases requests.len(),
{
    if requests.len() == 0 {
        0
    } else {
        let first: nat = if s.grants(requests[0]) {
            requests[0]
        } else {
            0
        };
        first + granted_total(s.take(requests[0]), requests.skip(1))
    }
}

/// After any sequence of reads the cursor has moved forward by the sum of
/// the reads that were granted: a refused read moves it by zero. The bytes
/// themselves stay as they were, in their order.
pub proof fn lemma_cursor_counts_granted(s: EntropyState, requests: Seq<nat>)
    ensures
        after_takes(s, requests).cursor() == s.cursor() + granted_total(s, requests),
        after_takes(s, requests).read + after_takes(s, requests).unread == s.read + s.unread,
    decreases requests.len(),
{
    if requests.len() > 0 {
        let next = s.take(requests[0]);
        assert(next.read + next.unread =~= s.read + s.unread);
        lemma_cursor_counts_granted(next, requests.skip(1));
    }
}

/// A single read never moves the cursor backward, and never past the end.
pub proof fn lemma_take_moves_forward(s: EntropyState, n: nat)
    ensures
        s.cursor() <= s.take(n).cursor(),
        s.take(n).cursor() + s.take(n).remaining() == s.cursor() + s.remaining(),
{
}

/// Calls `arbitrary::Unstructured::bytes` on a fresh `Unstructured` over
/// `data`. The contract restates its documentation and source: the call
/// succeeds exactly when `data` holds at least `n` bytes, and then yields
/// the first `n` of them, in order.
#[verifier::external_body]
fn unstructured_bytes(data: &[u8], n: usize) -> (r: Result<Vec<u8>, arbitrary::Error>)
    ensures
        r is Ok <==> n <= data@.len(),
        r matches Ok(taken) ==> taken@ == data@.subrange(0, n as int),
{
    match Unstructured::new(data).bytes(n) {
        Ok(taken) => Ok(taken.to_vec()),
        Err(e) => Err(e),
    }
}

/// A finite, ordered sequence of bytes plus a read cursor.
pub struct EntropySource {
    bytes: Vec<u8>,
    cursor: usize,
}

impl View for EntropySource {
    type V = EntropyState;

    closed spec fn view(&self) -> EntropyState {
        EntropyState {
            read: self.bytes@.subrange(0, self.cursor as int),
            unread: self.bytes@.subrange(self.cursor as int, self.bytes@.len() as int),
        }
    }
}

impl EntropySource {
    #[verifier::type_invariant]
    spec fn cursor_in_bounds(&self) -> bool {
        self.cursor <= self.bytes@.len()
    }

    /// Wraps a caller-supplied byte sequence; the cursor starts at 0.
    pub fn new(seed_bytes: Vec<u8>) -> (source: EntropySource)
        ensures
            source@ == EntropyState::fresh(seed_bytes@),
    {
        let source = EntropySource { bytes: seed_bytes, cursor: 0 };
        assert(source@.read =~= Seq::<u8>::empty());
        assert(source@.unread =~= seed_bytes@);
        source
    }

    /// The read cursor: the number of bytes handed out so far.
    pub fn cursor(&self) -> (c: usize)
        ensures
            c == self@.cursor(),
    {
        proof {
            use_type_invariant(self);
        }
        self.cursor
    }

    /// Bytes left before exhaustion.
    pub fn remaining(&self) -> (n: usize)
        ensures
            n == self@.remaining(),
    {
        proof {
            use_type_invariant(self);
        }
        self.bytes.len() - self.cursor
    }

    /// Returns the next `n` bytes and advances the cursor past them, or
    /// fails with `Exhausted` and leaves the source untouched when fewer
    /// than `n` bytes remain.
    pub fn take(&mut self, n: usize) -> (r: Result<Vec<u8>, Exhausted>)
        ensures
            r is Ok <==> old(self)@.grants(n as nat),
            r matches Ok(taken) ==> taken@ == old(self)@.front(n as nat),
            final(self)@ == old(self)@.take(n as nat),
    {
        proof {
            use_type_invariant(&*self);
        }
        let rest = slice_subrange(self.bytes.as_slice(), self.cursor, self.bytes.len());
        match unstructured_bytes(rest, n) {
            Ok(taken) => {
                self.cursor = self.cursor + n;
                assert(final(self)@.read =~= old(self)@.advance(n as nat).read);
                assert(final(self)@.unread =~= old(self)@.advance(n as nat).unread);
                Ok(taken)
            },
            Err(_) => Err(Exhausted),
        }
    }
}

} // verus!
