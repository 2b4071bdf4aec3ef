//! Messages without framing: a message is whatever bytes are there.

use crate::text::decode_text;
use crate::wire::{ByteReader, DecodeError};
use vstd::prelude::*;
use vstd::slice::slice_to_vec;
use vstd::utf8::*;

verus! {

/// The number of bytes asked for in one read.
pub const MESSAGE_BUFFER_SIZE: usize = 32;

/// Whether a read that brought `bytes_read` bytes was the last one to make: it
/// was, once it brought less than was asked for.
pub fn is_last_read(bytes_read: usize) -> (last: bool)
    ensures
        last == (bytes_read < MESSAGE_BUFFER_SIZE),
{
    bytes_read < MESSAGE_BUFFER_SIZE
}

/// Puts all of `data` on the outgoing `stream`.
pub fn write_data(stream: &mut Vec<u8>, data: &[u8])
    ensures
        final(stream)@ == old(stream)@ + data@,
{
    stream.extend_from_slice(data);
}

/// Reads `buf` in pieces of a fixed size until a read comes back with less
/// than was asked for, and decodes what was read as UTF-8. This takes all the
/// bytes that `buf` holds.
pub fn extract_string_unbuffered(buf: &mut ByteReader) -> (message: Result<String, DecodeError>)
    ensures
        final(buf)@.len() == 0,
        valid_utf8(old(buf)@) ==> (message matches Ok(s) && s@ == decode_utf8(old(buf)@)),
        !valid_utf8(old(buf)@) ==> message == Err::<String, DecodeError>(DecodeError::InvalidUtf8),
{
    let mut received: Vec<u8> = Vec::new();
    loop
        invariant
            received@ + buf@ == old(buf)@,
        ensures
            received@ == old(buf)@,
            buf@.len() == 0,
        decreases buf@.len(),
    {
        let bytes_read = buf.read(&mut received, MESSAGE_BUFFER_SIZE);
        if is_last_read(bytes_read) {
            break ;
        }
    }
    decode_text(received)
}

/// Takes the bytes that are pending in `buf`, all at once, and decodes them
/// as UTF-8.
pub fn extract_string_buffered(buf: &mut ByteReader) -> (message: Result<String, DecodeError>)
    ensures
        final(buf)@.len() == 0,
        valid_utf8(old(buf)@) ==> (message matches Ok(s) && s@ == decode_utf8(old(buf)@)),
        !valid_utf8(old(buf)@) ==> message == Err::<String, DecodeError>(DecodeError::InvalidUtf8),
{
    let received: Vec<u8> = slice_to_vec(buf.fill_buf());
    buf.consume(received.len());
    decode_text(received)
}

} // verus!
