//! The messages of the protocol and their frames.
//!
//! A request frame is one type byte (1 for `Echo`, 2 for `Jumble`), then the
//! message as a string field; a `Jumble` frame ends with the amount as a field
//! of its own. A response frame is a single string field. A string field is a
//! big-endian 16-bit byte count followed by that many bytes of UTF-8.

use crate::text::decode_text;
use crate::wire::{
    be_u16, read_u16_be, u16_bytes, write_u16_be, ByteReader, DecodeError,
    EncodeError, MAX_PAYLOAD,
};
use vstd::prelude::*;
use vstd::slice::{slice_subrange, slice_to_vec};
use vstd::utf8::*;

verus! {

/// A message from client to server.
#[derive(Debug)]
pub enum Request {
    /// Send the message back.
    Echo(String),
    /// Shuffle the message's characters `amount` times and send that back.
    Jumble { message: String, amount: u16 },
}

/// A reply from server to client: a single message.
#[derive(Debug)]
pub struct Response(pub String);

/// What a `Request` holds, as mathematical values.
pub enum RequestView {
    Echo(Seq<char>),
    Jumble { message: Seq<char>, amount: u16 },
}

impl RequestView {
    /// The message of either kind of request.
    pub open spec fn message(self) -> Seq<char> {
        match self {
            RequestView::Echo(message) => message,
            RequestView::Jumble { message, .. } => message,
        }
    }

    /// The byte that announces the kind of request on the wire.
    pub open spec fn type_byte(self) -> u8 {
        match self {
            RequestView::Echo(_) => 1,
            RequestView::Jumble { .. } => 2,
        }
    }
}

impl View for Request {
    type V = RequestView;

    open spec fn view(&self) -> RequestView {
        match self {
            Request::Echo(message) => RequestView::Echo(message@),
            Request::Jumble { message, amount } => RequestView::Jumble {
                message: message@,
                amount: *amount,
            },
        }
    }
}

impl View for Response {
    type V = Seq<char>;

    open spec fn view(&self) -> Seq<char> {
        self.0@
    }
}

/// Whether the UTF-8 encoding of `text` is short enough for a length prefix.
pub open spec fn text_fits(text: Seq<char>) -> bool {
    encode_utf8(text).len() <= MAX_PAYLOAD
}

/// The string field that carries `text`: byte count, then the UTF-8 bytes.
pub open spec fn text_frame(text: Seq<char>) -> Seq<u8> {
    u16_bytes(encode_utf8(text).len() as u16) + encode_utf8(text)
}

/// The string field at the start of `bytes`: its text and the number of bytes
/// it takes up, or the reason why there is none.
pub open spec fn text_parse(bytes: Seq<u8>) -> Result<(Seq<char>, nat), DecodeError> {
    if bytes.len() < 2 {
        Err(DecodeError::ShortFrame)
    } else {
        let end = 2 + be_u16(bytes[0], bytes[1]) as nat;
        if bytes.len() < end {
            Err(DecodeError::ShortFrame)
        } else if valid_utf8(bytes.subrange(2, end as int)) {
            Ok((decode_utf8(bytes.subrange(2, end as int)), end))
        } else {
            Err(DecodeError::InvalidUtf8)
        }
    }
}

/// The frame of a request.
pub open spec fn request_frame(request: RequestView) -> Seq<u8> {
    match request {
        RequestView::Echo(message) => seq![1u8] + text_frame(message),
        RequestView::Jumble { message, amount } => seq![2u8] + text_frame(message) + u16_bytes(2)
            + u16_bytes(amount),
    }
}

/// The request at the start of `bytes` and the length of its frame, or the
/// reason why there is none. The byte count in front of a `Jumble` amount is
/// skipped without a look at its value.
pub open spec fn request_parse(bytes: Seq<u8>) -> Result<(RequestView, nat), DecodeError> {
    if bytes.len() < 1 {
        Err(DecodeError::ShortFrame)
    } else if bytes[0] == 1 {
        match text_parse(bytes.skip(1)) {
            Ok((message, used)) => Ok((RequestView::Echo(message), 1 + used)),
            Err(e) => Err(e),
        }
    } else if bytes[0] == 2 {
        match text_parse(bytes.skip(1)) {
            Ok((message, used)) => {
                let end = 1 + used + 4;
                if bytes.len() < end {
                    Err(DecodeError::ShortFrame)
                } else {
                    let amount = be_u16(bytes[end - 2], bytes[end - 1]);
                    Ok((RequestView::Jumble { message, amount }, end))
                }
            },
            Err(e) => Err(e),
        }
    } else {
        Err(DecodeError::InvalidType)
    }
}

/// Something that can be written to a byte buffer as one frame.
pub trait Serialize {
    /// Whether the value can be put on the wire at all.
    spec fn encodable(&self) -> bool;

    /// The frame of the value.
    spec fn frame(&self) -> Seq<u8>;

    /// Appends the frame to `buf` and returns the number of bytes written. A
    /// value that cannot be put on the wire is refused, and `buf` stays as it
    /// was.
    fn serialize(&self, buf: &mut Vec<u8>) -> (written: Result<usize, EncodeError>)
        ensures
            self.encodable() ==> written == Ok::<usize, EncodeError>(self.frame().len() as usize)
                && final(buf)@ == old(buf)@ + self.frame(),
            !self.encodable() ==> written == Err::<usize, EncodeError>(EncodeError::MessageTooLong)
                && final(buf)@ == old(buf)@,
            written matches Ok(count) ==> final(buf)@.len() == old(buf)@.len() + count,
    ;
}

/// Something that can be read from a byte source, one frame at a time.
pub trait Deserialize {
    /// The type of the decoded message.
    type Output: View;

    /// The message at the start of `bytes` and the length of its frame, or the
    /// reason why there is none.
    spec fn parse(bytes: Seq<u8>) -> Result<(<Self::Output as View>::V, nat), DecodeError>;

    /// Decodes the message at the front of `buf` and marks its frame as read.
    /// A failed decode reads nothing.
    fn deserialize(buf: &mut ByteReader) -> (decoded: Result<Self::Output, DecodeError>)
        ensures
            match Self::parse(old(buf)@) {
                Ok((message, used)) => decoded matches Ok(m) && m@ == message && final(buf)@
                    == old(buf)@.skip(used as int),
                Err(e) => decoded matches Err(d) && d == e && final(buf)@ == old(buf)@,
            },
    ;
}

impl Request {
    /// The message of either kind of request.
    pub fn message(&self) -> (message: &str)
        ensures
            message@ == self@.message(),
    {
        match self {
            Request::Echo(message) => message.as_str(),
            Request::Jumble { message, .. } => message.as_str(),
        }
    }
}

impl Response {
    /// A response that carries `message`.
    pub fn new(message: String) -> (response: Self)
        ensures
            response.0 == message,
    {
        Response(message)
    }

    /// The message of the response.
    pub fn message(&self) -> (message: &str)
        ensures
            message@ == self@,
    {
        self.0.as_str()
    }
}

/// Appends the string field of `text` to `buf`.
fn write_text(buf: &mut Vec<u8>, text: &str)
    requires
        text_fits(text@),
    ensures
        final(buf)@ == old(buf)@ + text_frame(text@),
{
    let bytes = text.as_bytes();
    let prefix = write_u16_be(bytes.len() as u16);
    buf.extend_from_slice(prefix.as_slice());
    buf.extend_from_slice(bytes);
}

/// Reads the string field at the start of `bytes`: its text, and the number
/// of bytes that the field takes up.
fn extract_string(bytes: &[u8]) -> (field: Result<(String, usize), DecodeError>)
    ensures
        match text_parse(bytes@) {
            Ok((text, used)) => field matches Ok((s, n)) && s@ == text && n == used,
            Err(e) => field matches Err(d) && d == e,
        },
{
    if bytes.len() < 2 {
        return Err(DecodeError::ShortFrame);
    }
    let length = read_u16_be(bytes) as usize;
    if bytes.len() - 2 < length {
        return Err(DecodeError::ShortFrame);
    }
    let payload = slice_to_vec(slice_subrange(bytes, 2, 2 + length));
    match decode_text(payload) {
        Ok(text) => Ok((text, 2 + length)),
        Err(e) => Err(e),
    }
}

impl Serialize for Request {
    open spec fn encodable(&self) -> bool {
        text_fits(self@.message())
    }

    open spec fn frame(&self) -> Seq<u8> {
        request_frame(self@)
    }

    fn serialize(&self, buf: &mut Vec<u8>) -> (written: Result<usize, EncodeError>) {
        let payload_len = self.message().as_bytes().len();
        if payload_len > MAX_PAYLOAD {
            return Err(EncodeError::MessageTooLong);
        }
        buf.push(u8::from(self));
        let mut bytes_written: usize = 1;
        match self {
            Request::Echo(message) => {
                write_text(buf, message.as_str());
                bytes_written += 2 + payload_len;
            },
            Request::Jumble { message, amount } => {
                write_text(buf, message.as_str());
                bytes_written += 2 + payload_len;
                let amount_len = write_u16_be(2);
                buf.extend_from_slice(amount_len.as_slice());
                let amount_bytes = write_u16_be(*amount);
                buf.extend_from_slice(amount_bytes.as_slice());
                bytes_written += 4;
            },
        }
        Ok(bytes_written)
    }
}

impl From<&Request> for u8 {
    fn from(req: &Request) -> (byte: u8) {
        match req {
            Request::Echo(_) => 1,
            Request::Jumble { .. } => 2,
        }
    }
}

impl vstd::std_specs::convert::FromSpecImpl<&Request> for u8 {
    open spec fn obeys_from_spec() -> bool {
        true
    }

    open spec fn from_spec(req: &Request) -> u8 {
        req@.type_byte()
    }
}

/// Reads the request at the start of `bytes`, and the length of its frame.
fn parse_request(bytes: &[u8]) -> (parsed: Result<(Request, usize), DecodeError>)
    ensures
        match request_parse(bytes@) {
            Ok((request, used)) => parsed matches Ok((r, n)) && r@ == request && n == used,
            Err(e) => parsed matches Err(d) && d == e,
        },
{
    if bytes.len() < 1 {
        return Err(DecodeError::ShortFrame);
    }
    let rest = slice_subrange(bytes, 1, bytes.len());
    match bytes[0] {
        1 => {
            let (message, used) = extract_string(rest)?;
            Ok((Request::Echo(message), 1 + used))
        },
        2 => {
            let (message, used) = extract_string(rest)?;
            if rest.len() - used < 4 {
                return Err(DecodeError::ShortFrame);
            }
            let amount = read_u16_be(slice_subrange(rest, used + 2, used + 4));
            Ok((Request::Jumble { message, amount }, 1 + used + 4))
        },
        _ => Err(DecodeError::InvalidType),
    }
}

impl Deserialize for Request {
    type Output = Request;

    open spec fn parse(bytes: Seq<u8>) -> Result<(RequestView, nat), DecodeError> {
        request_parse(bytes)
    }

    fn deserialize(buf: &mut ByteReader) -> (decoded: Result<Request, DecodeError>) {
        let (request, used) = parse_request(buf.fill_buf())?;
        buf.consume(used);
        Ok(request)
    }
}

impl Serialize for Response {
    open spec fn encodable(&self) -> bool {
        text_fits(self@)
    }

    open spec fn frame(&self) -> Seq<u8> {
        text_frame(self@)
    }

    fn serialize(&self, buf: &mut Vec<u8>) -> (written: Result<usize, EncodeError>) {
        let payload_len = self.0.as_str().as_bytes().len();
        if payload_len > MAX_PAYLOAD {
            return Err(EncodeError::MessageTooLong);
        }
        write_text(buf, self.0.as_str());
        Ok(2 + payload_len)
    }
}

impl Deserialize for Response {
    type Output = Response;

    open spec fn parse(bytes: Seq<u8>) -> Result<(Seq<char>, nat), DecodeError> {
        text_parse(bytes)
    }

    fn deserialize(buf: &mut ByteReader) -> (decoded: Result<Response, DecodeError>) {
        let (value, used) = extract_string(buf.fill_buf())?;
        buf.consume(used);
        Ok(Response(value))
    }
}

} // verus!
