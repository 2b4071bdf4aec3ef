//! The primitives of the wire format: big-endian 16-bit integers and an
//! in-memory byte source.

use byteorder::{ByteOrder, NetworkEndian};
use vstd::prelude::*;

verus! {

/// Why a byte sequence could not be decoded.
#[derive(Debug, Clone, Copy, PartialEq, Eq, Structural)]
pub enum DecodeError {
    /// The bytes end before a field that the frame declares is complete.
    ShortFrame,
    /// The leading byte names no known request type.
    InvalidType,
    /// A string payload is not valid UTF-8.
    InvalidUtf8,
}

/// Why a message could not be encoded.
#[derive(Debug, Clone, Copy, PartialEq, Eq, Structural)]
pub enum EncodeError {
    /// A string payload is longer than a 16-bit length prefix can declare.
    MessageTooLong,
}

/// The largest payload, in bytes, that a 16-bit length prefix can declare.
pub const MAX_PAYLOAD: usize = 65535;

/// The value of two bytes read as a big-endian 16-bit integer.
pub open spec fn be_u16(hi: u8, lo: u8) -> u16 {
    (hi as int * 256 + lo as int) as u16
}

/// The two bytes of a 16-bit integer, most significant first.
pub open spec fn u16_bytes(n: u16) -> Seq<u8> {
    seq![(n / 256) as u8, (n % 256) as u8]
}

/// Reading back the two bytes of `n` gives `n`.
pub proof fn lemma_u16_bytes_roundtrip(n: u16)
    ensures
        u16_bytes(n).len() == 2,
        be_u16(u16_bytes(n)[0], u16_bytes(n)[1]) == n,
{
}

/// Assumed of `byteorder::NetworkEndian::read_u16`, not proved: it returns
/// the first two bytes of `buf` as a big-endian integer. The call panics on
/// fewer than two bytes, which the precondition rules out.
#[verifier::external_body]
pub(crate) fn read_u16_be(buf: &[u8]) -> (n: u16)
    requires
        buf@.len() >= 2,
    ensures
        n == be_u16(buf@[0], buf@[1]),
{
    NetworkEndian::read_u16(buf)
}

/// Assumed of `byteorder::NetworkEndian::write_u16`, not proved: on a buffer
/// of two bytes it leaves the bytes of `n`, most significant first.
#[verifier::external_body]
pub(crate) fn write_u16_be(n: u16) -> (out: [u8; 2])
    ensures
        out@ == u16_bytes(n),
{
    let mut out = [0u8; 2];
    NetworkEndian::write_u16(&mut out, n);
    out
}

/// An in-memory byte source: the bytes received so far, and how many of them
/// have been read. Its view is the bytes still unread.
pub struct ByteReader {
    data: Vec<u8>,
    pos: usize,
}

impl View for ByteReader {
    type V = Seq<u8>;

    closed spec fn view(&self) -> Seq<u8> {
        self.data@.skip(self.pos as int)
    }
}

impl ByteReader {
    #[verifier::type_invariant]
    spec fn well_formed(&self) -> bool {
        self.pos <= self.data@.len()
    }

    /// A reader over `data`, with nothing read yet.
    pub fn new(data: Vec<u8>) -> (reader: Self)
        ensures
            reader@ == data@,
    {
        ByteReader { data, pos: 0 }
    }

    /// Appends newly received bytes behind those still unread.
    pub fn feed(&mut self, more: &[u8])
        ensures
            final(self)@ == old(self)@ + more@,
    {
        proof {
            use_type_invariant(&*self);
        }
        // The bytes are taken out of the reader and put back whole, so that
        // no field is borrowed on its own while the invariant is in force.
        let mut taken = ByteReader { data: Vec::new(), pos: 0 };
        core::mem::swap(self, &mut taken);
        let ByteReader { mut data, pos } = taken;
        data.extend_from_slice(more);
        *self = ByteReader { data, pos };
    }

    /// The number of unread bytes.
    pub fn len(&self) -> (n: usize)
        ensures
            n == self@.len(),
    {
        proof {
            use_type_invariant(self);
        }
        self.data.len() - self.pos
    }

    /// The unread bytes, none of which is marked as read by this call.
    pub fn fill_buf(&self) -> (pending: &[u8])
        ensures
            pending@ == self@,
    {
        proof {
            use_type_invariant(self);
        }
        vstd::slice::slice_subrange(self.data.as_slice(), self.pos, self.data.len())
    }

    /// Marks the first `amount` unread bytes as read, or all of them where
    /// fewer are left.
    pub fn consume(&mut self, amount: usize)
        ensures
            final(self)@ == if amount <= old(self)@.len() {
                old(self)@.skip(amount as int)
            } else {
                Seq::empty()
            },
    {
        proof {
            use_type_invariant(&*self);
        }
        let unread = self.data.len() - self.pos;
        if amount <= unread {
            self.pos = self.pos + amount;
        } else {
            self.pos = self.data.len();
        }
    }

    /// Moves up to `limit` unread bytes to the end of `out` and returns how
    /// many were moved: `limit`, or all of them where fewer are left.
    pub fn read(&mut self, out: &mut Vec<u8>, limit: usize) -> (count: usize)
        ensures
            count == if limit <= old(self)@.len() { limit as int } else { old(self)@.len() as int },
            final(out)@ == old(out)@ + old(self)@.take(count as int),
            final(self)@ == old(self)@.skip(count as int),
    {
        let available = self.len();
        let count = if limit <= available { limit } else { available };
        let pending = self.fill_buf();
        out.extend_from_slice(vstd::slice::slice_subrange(pending, 0, count));
        self.consume(count);
        count
    }
}

} // verus!
