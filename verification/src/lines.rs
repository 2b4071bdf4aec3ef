//! Messages as lines of text: a message ends with a line feed.

use crate::text::{chars_of, string_of};
use vstd::prelude::*;
use vstd::slice::slice_to_vec;
use vstd::utf8::*;

verus! {

/// The bytes that carry `message` as one line: its UTF-8 bytes and a line feed.
pub fn encode_line(message: &str) -> (line: Vec<u8>)
    ensures
        line@ == encode_utf8(message@).push(10u8),
{
    let mut line = slice_to_vec(message.as_bytes());
    line.push(10u8);
    line
}

/// The message of a line as it was read: the line without its last character,
/// which is the line feed wherever the line was complete.
pub fn decode_line(line: String) -> (message: String)
    ensures
        message@ == if line@.len() > 0 { line@.drop_last() } else { line@ },
{
    let mut message = line;
    message.pop();
    message
}

/// The characters of `message` in the opposite order: what a line server
/// sends back.
pub fn reverse_message(message: &str) -> (reversed: String)
    ensures
        reversed@ == message@.reverse(),
{
    let chars = chars_of(message);
    let mut backwards: Vec<char> = Vec::new();
    let mut left: usize = chars.len();
    while left > 0
        invariant
            left <= chars.len(),
            backwards@.len() == chars.len() - left,
            forall|i: int| 0 <= i < backwards@.len() ==> backwards@[i] == chars@[chars.len() - 1 - i],
        decreases left,
    {
        left -= 1;
        backwards.push(chars[left]);
    }
    assert(backwards@ =~= chars@.reverse());
    string_of(&backwards)
}

} // verus!
