//! What holds of the frames: decoding undoes encoding, a frame cut short is
//! reported as short, and a result other than "short" is never changed by
//! bytes that arrive later.

use crate::protocol::{
    request_frame, request_parse, text_fits, text_frame, text_parse, Deserialize, Request,
    RequestView, Response, Serialize,
};
use crate::wire::{be_u16, lemma_u16_bytes_roundtrip, u16_bytes, DecodeError, MAX_PAYLOAD};
use vstd::prelude::*;
use vstd::utf8::*;

verus! {

/// A string field that is followed by any bytes at all parses back to its
/// text, and takes up exactly the bytes of the field.
pub proof fn lemma_text_roundtrip(text: Seq<char>, rest: Seq<u8>)
    requires
        text_fits(text),
    ensures
        text_parse(text_frame(text) + rest) == Ok::<(Seq<char>, nat), DecodeError>(
            (text, text_frame(text).len()),
        ),
        text_frame(text).len() == 2 + encode_utf8(text).len(),
{
    let payload = encode_utf8(text);
    let bytes = text_frame(text) + rest;
    lemma_u16_bytes_roundtrip(payload.len() as u16);
    encode_utf8_valid_utf8(text);
    encode_utf8_decode_utf8(text);
    assert(bytes[0] == u16_bytes(payload.len() as u16)[0]);
    assert(bytes[1] == u16_bytes(payload.len() as u16)[1]);
    assert(bytes.subrange(2, 2 + payload.len() as int) =~= payload);
}

/// Decoding the frame of a request gives the request back, field by field,
/// and reads exactly the frame, whatever follows it.
pub proof fn lemma_request_roundtrip(request: Request, rest: Seq<u8>)
    requires
        request.encodable(),
    ensures
        Request::parse(request.frame() + rest) == Ok::<(RequestView, nat), DecodeError>(
            (request@, request.frame().len()),
        ),
        Request::parse(request.frame()) == Ok::<(RequestView, nat), DecodeError>(
            (request@, request.frame().len()),
        ),
{
    lemma_request_view_roundtrip(request@, rest);
    lemma_request_view_roundtrip(request@, Seq::empty());
    assert(request.frame() + Seq::<u8>::empty() =~= request.frame());
}

/// The same, stated of the values that a request holds.
pub proof fn lemma_request_view_roundtrip(request: RequestView, rest: Seq<u8>)
    requires
        text_fits(request.message()),
    ensures
        request_parse(request_frame(request) + rest) == Ok::<(RequestView, nat), DecodeError>(
            (request, request_frame(request).len()),
        ),
{
    let bytes = request_frame(request) + rest;
    match request {
        RequestView::Echo(message) => {
            lemma_text_roundtrip(message, rest);
            assert(bytes.skip(1) =~= text_frame(message) + rest);
        },
        RequestView::Jumble { message, amount } => {
            let tail = u16_bytes(2) + u16_bytes(amount) + rest;
            lemma_text_roundtrip(message, tail);
            lemma_u16_bytes_roundtrip(amount);
            assert(bytes.skip(1) =~= text_frame(message) + tail);
            let end = 1 + text_frame(message).len() + 4;
            assert(bytes[end - 2] == u16_bytes(amount)[0]);
            assert(bytes[end - 1] == u16_bytes(amount)[1]);
        },
    }
}

/// Decoding the frame of a response gives the response back, and reads
/// exactly the frame, whatever follows it.
pub proof fn lemma_response_roundtrip(response: Response, rest: Seq<u8>)
    requires
        response.encodable(),
    ensures
        Response::parse(response.frame() + rest) == Ok::<(Seq<char>, nat), DecodeError>(
            (response@, response.frame().len()),
        ),
        Response::parse(response.frame()) == Ok::<(Seq<char>, nat), DecodeError>(
            (response@, response.frame().len()),
        ),
{
    lemma_text_roundtrip(response@, rest);
    lemma_text_roundtrip(response@, Seq::empty());
    assert(response.frame() + Seq::<u8>::empty() =~= response.frame());
}

/// Once a string field has been read or refused for its content, bytes that
/// follow change nothing: only "short" can turn into another result.
pub proof fn lemma_text_result_is_final(bytes: Seq<u8>, more: Seq<u8>)
    requires
        text_parse(bytes) != Err::<(Seq<char>, nat), DecodeError>(DecodeError::ShortFrame),
    ensures
        text_parse(bytes + more) == text_parse(bytes),
{
    let longer = bytes + more;
    let end = 2 + be_u16(bytes[0], bytes[1]) as nat;
    assert(longer[0] == bytes[0]);
    assert(longer[1] == bytes[1]);
    assert(longer.subrange(2, end as int) =~= bytes.subrange(2, end as int));
}

/// Once a request has been read or refused for its content, bytes that follow
/// change nothing: only "short" can turn into another result.
pub proof fn lemma_request_result_is_final(bytes: Seq<u8>, more: Seq<u8>)
    requires
        request_parse(bytes) != Err::<(RequestView, nat), DecodeError>(DecodeError::ShortFrame),
    ensures
        request_parse(bytes + more) == request_parse(bytes),
{
    let longer = bytes + more;
    assert(longer[0] == bytes[0]);
    if bytes[0] == 1 || bytes[0] == 2 {
        assert(longer.skip(1) =~= bytes.skip(1) + more);
        lemma_text_result_is_final(bytes.skip(1), more);
        if bytes[0] == 2 {
            if let Ok((_, used)) = text_parse(bytes.skip(1)) {
                let end = 1 + used + 4;
                assert(longer[end - 2] == bytes[end - 2]);
                assert(longer[end - 1] == bytes[end - 1]);
            }
        }
    }
}

/// A string field cut anywhere before its end is reported as short, never as
/// a shorter text.
pub proof fn lemma_truncated_text_is_short(bytes: Seq<u8>, cut: nat)
    requires
        text_parse(bytes) matches Ok((_, used)) && cut < used,
    ensures
        text_parse(bytes.take(cut as int)) == Err::<(Seq<char>, nat), DecodeError>(
            DecodeError::ShortFrame,
        ),
{
    let head = bytes.take(cut as int);
    if cut >= 2 {
        assert(head[0] == bytes[0]);
        assert(head[1] == bytes[1]);
    }
}

/// A request frame cut anywhere before its end is reported as short, never as
/// a request with less in it.
pub proof fn lemma_truncated_request_is_short(bytes: Seq<u8>, cut: nat)
    requires
        request_parse(bytes) matches Ok((_, used)) && cut < used,
    ensures
        request_parse(bytes.take(cut as int)) == Err::<(RequestView, nat), DecodeError>(
            DecodeError::ShortFrame,
        ),
{
    let head = bytes.take(cut as int);
    if cut >= 1 {
        assert(head[0] == bytes[0]);
        assert(head.skip(1) =~= bytes.skip(1).take(cut - 1));
        let used = text_parse(bytes.skip(1))->Ok_0.1;
        if cut - 1 < used {
            lemma_truncated_text_is_short(bytes.skip(1), (cut - 1) as nat);
        } else {
            assert(bytes.skip(1) =~= head.skip(1) + bytes.skip(cut as int));
            lemma_text_parse_of_whole_prefix(head.skip(1), bytes.skip(cut as int));
        }
    }
}

/// The frame of a request, cut anywhere before its end, is reported as short.
pub proof fn lemma_cut_request_frame_is_short(request: Request, cut: nat)
    requires
        request.encodable(),
        cut < request.frame().len(),
    ensures
        Request::parse(request.frame().take(cut as int)) == Err::<(RequestView, nat), DecodeError>(
            DecodeError::ShortFrame,
        ),
{
    lemma_request_roundtrip(request, Seq::empty());
    lemma_truncated_request_is_short(request.frame(), cut);
}

/// The frame of a response, cut anywhere before its end, is reported as short.
pub proof fn lemma_cut_response_frame_is_short(response: Response, cut: nat)
    requires
        response.encodable(),
        cut < response.frame().len(),
    ensures
        Response::parse(response.frame().take(cut as int)) == Err::<(Seq<char>, nat), DecodeError>(
            DecodeError::ShortFrame,
        ),
{
    lemma_response_roundtrip(response, Seq::empty());
    lemma_truncated_text_is_short(response.frame(), cut);
}

/// A prefix that holds the whole of a string field parses as the field does.
proof fn lemma_text_parse_of_whole_prefix(head: Seq<u8>, more: Seq<u8>)
    requires
        text_parse(head + more) matches Ok((_, used)) && used <= head.len(),
    ensures
        text_parse(head) == text_parse(head + more),
{
    let longer = head + more;
    let end = 2 + be_u16(longer[0], longer[1]) as nat;
    assert(longer[0] == head[0]);
    assert(longer[1] == head[1]);
    assert(longer.subrange(2, end as int) =~= head.subrange(2, end as int));
}

/// A leading byte other than 1 and 2 is refused as an unknown request type,
/// whatever follows it.
pub proof fn lemma_unknown_type_is_refused(bytes: Seq<u8>)
    requires
        bytes.len() > 0,
        bytes[0] != 1,
        bytes[0] != 2,
    ensures
        request_parse(bytes) == Err::<(RequestView, nat), DecodeError>(DecodeError::InvalidType),
{
}

/// A string field whose declared bytes are all there, but are not UTF-8, is
/// refused for its encoding, and not as short.
pub proof fn lemma_invalid_utf8_text_is_refused(payload: Seq<u8>, rest: Seq<u8>)
    requires
        payload.len() <= MAX_PAYLOAD,
        !valid_utf8(payload),
    ensures
        text_parse(u16_bytes(payload.len() as u16) + payload + rest) == Err::<
            (Seq<char>, nat),
            DecodeError,
        >(DecodeError::InvalidUtf8),
{
    let bytes = u16_bytes(payload.len() as u16) + payload + rest;
    lemma_u16_bytes_roundtrip(payload.len() as u16);
    assert(bytes[0] == u16_bytes(payload.len() as u16)[0]);
    assert(bytes[1] == u16_bytes(payload.len() as u16)[1]);
    assert(bytes.subrange(2, 2 + payload.len() as int) =~= payload);
}

/// A request of either kind whose message bytes are all there, but are not
/// UTF-8, is refused for its encoding, and not as short.
pub proof fn lemma_invalid_utf8_request_is_refused(kind: u8, payload: Seq<u8>, rest: Seq<u8>)
    requires
        kind == 1 || kind == 2,
        payload.len() <= MAX_PAYLOAD,
        !valid_utf8(payload),
    ensures
        request_parse(seq![kind] + u16_bytes(payload.len() as u16) + payload + rest) == Err::<
            (RequestView, nat),
            DecodeError,
        >(DecodeError::InvalidUtf8),
{
    let bytes = seq![kind] + u16_bytes(payload.len() as u16) + payload + rest;
    lemma_invalid_utf8_text_is_refused(payload, rest);
    assert(bytes.skip(1) =~= u16_bytes(payload.len() as u16) + payload + rest);
}

} // verus!
