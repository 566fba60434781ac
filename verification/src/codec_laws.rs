//! What holds of the codec for every value: frames read back as the value
//! they were written from, and a frame cut short is never mistaken for a
//! whole one, but for the one cut that the response format cannot tell.

use vstd::prelude::*;
use vstd::utf8::*;
use crate::codec::file_section;
use crate::codec::outcome_byte;
use crate::codec::parse_request;
use crate::codec::parse_response;
use crate::codec::parse_text;
use crate::codec::request_fits;
use crate::codec::request_frame;
use crate::codec::response_fits;
use crate::codec::response_frame;
use crate::message::ProtocolError;
use crate::message::RequestView;
use crate::message::ResponseView;
use crate::wire::be32_at;
use crate::wire::field;
use crate::wire::field_bytes;
use crate::wire::field_end;
use crate::wire::field_fits;
use crate::wire::lemma_be32_of_value;
use crate::wire::lemma_field_len;
use crate::wire::lemma_field_read_back;
use crate::wire::lemma_two_fields_read_back;

verus! {

/// A text written as a field at the end of `head` is read back at that
/// position, whatever follows it.
pub proof fn lemma_text_read_back(head: Seq<u8>, text: Seq<char>, tail: Seq<u8>)
    requires
        encode_utf8(text).len() <= 0xFFFF_FFFF,
    ensures
        parse_text(head + field(encode_utf8(text)) + tail, head.len() as int) == Ok::<
            _,
            ProtocolError,
        >((text, head.len() + 4 + encode_utf8(text).len() as int)),
{
    lemma_field_read_back(head, encode_utf8(text), tail);
    encode_utf8_valid_utf8(text);
    encode_utf8_decode_utf8(text);
}

/// A field that fits in the first `n` bytes of `data` is the same field in
/// `data` itself.
pub proof fn lemma_field_in_prefix(data: Seq<u8>, n: int, pos: int)
    requires
        0 <= n <= data.len(),
        field_fits(data.take(n), pos),
    ensures
        field_fits(data, pos),
        be32_at(data, pos) == be32_at(data.take(n), pos),
        field_bytes(data, pos) == field_bytes(data.take(n), pos),
        field_end(data, pos) == field_end(data.take(n), pos),
{
    let cut = data.take(n);
    assert(cut[pos] == data[pos]);
    assert(cut[pos + 1] == data[pos + 1]);
    assert(cut[pos + 2] == data[pos + 2]);
    assert(cut[pos + 3] == data[pos + 3]);
    assert(field_bytes(data, pos) =~= field_bytes(cut, pos));
}

/// The length of the frame of a request.
pub proof fn lemma_request_frame_len(r: RequestView)
    ensures
        request_frame(r).len() == 1 + 4 + encode_utf8(r.filename).len() + 4 + r.filebytes.len(),
{
    lemma_field_len(encode_utf8(r.filename));
    lemma_field_len(r.filebytes);
}

/// Round trip of requests: the frame of a request whose fields fit their
/// length prefixes reads back as that request.
pub proof fn lemma_request_round_trip(r: RequestView)
    requires
        request_fits(r),
    ensures
        parse_request(request_frame(r)) == Ok::<_, ProtocolError>(r),
{
    let name = encode_utf8(r.filename);
    let head = seq![r.op.tag()];
    let data = request_frame(r);
    lemma_two_fields_read_back(head, name, r.filebytes, Seq::<u8>::empty());
    assert(data =~= head + field(name) + field(r.filebytes) + Seq::<u8>::empty());
    encode_utf8_valid_utf8(r.filename);
    encode_utf8_decode_utf8(r.filename);
    assert(data[0] == r.op.tag());
    assert(parse_text(data, 1) == Ok::<_, ProtocolError>((r.filename, 5 + name.len() as int)));
}

/// Truncation safety of requests: no proper prefix of the frame of a request
/// reads as a request; each is reported as a truncated frame.
pub proof fn lemma_request_prefix_rejected(r: RequestView, n: int)
    requires
        request_fits(r),
        0 <= n < request_frame(r).len(),
    ensures
        parse_request(request_frame(r).take(n)) == Err::<RequestView, _>(
            ProtocolError::TruncatedFrame,
        ),
{
    let name = encode_utf8(r.filename);
    let head = seq![r.op.tag()];
    let data = request_frame(r);
    let cut = data.take(n);
    lemma_two_fields_read_back(head, name, r.filebytes, Seq::<u8>::empty());
    assert(data =~= head + field(name) + field(r.filebytes) + Seq::<u8>::empty());
    encode_utf8_valid_utf8(r.filename);
    if n > 0 {
        assert(cut[0] == r.op.tag());
        if field_fits(cut, 1) {
            lemma_field_in_prefix(data, n, 1);
            let pos = field_end(cut, 1);
            if field_fits(cut, pos) {
                lemma_field_in_prefix(data, n, pos);
            }
        }
    }
}

/// The length of the frame of a response that carries a file.
pub proof fn lemma_response_frame_len(r: ResponseView)
    ensures
        r.filename is None ==> response_frame(r).len() == message_end(r),
        r.carries_file() ==> response_frame(r).len() == message_end(r) + 4 + encode_utf8(
            r.filename->Some_0,
        ).len() + 4 + r.filebytes->Some_0.len(),
{
    lemma_field_len(encode_utf8(r.msg));
    if r.carries_file() {
        lemma_field_len(encode_utf8(r.filename->Some_0));
        lemma_field_len(r.filebytes->Some_0);
    }
}

/// Round trip of responses: the frame of a response that carries a file
/// name and file content together or not at all, and whose fields fit their
/// length prefixes, reads back as that response.
pub proof fn lemma_response_round_trip(r: ResponseView)
    requires
        response_fits(r),
        r.paired(),
    ensures
        parse_response(response_frame(r)) == Ok::<_, ProtocolError>(r),
{
    let msg = encode_utf8(r.msg);
    let head = seq![outcome_byte(r.ok)];
    let data = response_frame(r);
    lemma_text_read_back(head, r.msg, file_section(r));
    lemma_response_frame_len(r);
    assert(data[0] == outcome_byte(r.ok));
    let pos = message_end(r);
    assert(parse_text(data, 1) == Ok::<_, ProtocolError>((r.msg, pos)));
    match r.filename {
        None => {
            assert(parse_response(data) == Ok::<_, ProtocolError>(r));
        },
        Some(name) => {
            let bytes = r.filebytes->Some_0;
            let second = head + field(msg);
            lemma_field_len(msg);
            lemma_two_fields_read_back(second, encode_utf8(name), bytes, Seq::<u8>::empty());
            assert(data =~= second + field(encode_utf8(name)) + field(bytes) + Seq::<u8>::empty());
            encode_utf8_valid_utf8(name);
            encode_utf8_decode_utf8(name);
            let end = pos + 4 + encode_utf8(name).len();
            assert(parse_text(data, pos) == Ok::<_, ProtocolError>((name, end)));
            assert(parse_response(data) == Ok::<_, ProtocolError>(r));
        },
    }
}

/// Where the message of a response ends in its frame.
pub open spec fn message_end(r: ResponseView) -> int {
    1 + 4 + encode_utf8(r.msg).len() as int
}

/// Truncation safety of responses: a proper prefix of the frame of a
/// response is reported as a truncated frame, unless it ends exactly where
/// the message does. (For a response without a file no proper prefix ends
/// there.)
pub proof fn lemma_response_prefix_rejected(r: ResponseView, n: int)
    requires
        response_fits(r),
        r.paired(),
        0 <= n < response_frame(r).len(),
        n != message_end(r),
    ensures
        parse_response(response_frame(r).take(n)) == Err::<ResponseView, _>(
            ProtocolError::TruncatedFrame,
        ),
{
    let msg = encode_utf8(r.msg);
    let head = seq![outcome_byte(r.ok)];
    let data = response_frame(r);
    let cut = data.take(n);
    lemma_field_read_back(head, msg, file_section(r));
    lemma_response_frame_len(r);
    encode_utf8_valid_utf8(r.msg);
    let pos = message_end(r);
    if n > 0 && field_fits(cut, 1) {
        lemma_field_in_prefix(data, n, 1);
        assert(field_end(cut, 1) == pos);
        assert(pos < n);
        let name = r.filename->Some_0;
        let bytes = r.filebytes->Some_0;
        let second = head + field(msg);
        lemma_field_len(msg);
        lemma_two_fields_read_back(second, encode_utf8(name), bytes, Seq::<u8>::empty());
        assert(data =~= second + field(encode_utf8(name)) + field(bytes) + Seq::<u8>::empty());
        encode_utf8_valid_utf8(name);
        if field_fits(cut, pos) {
            lemma_field_in_prefix(data, n, pos);
            let end = field_end(cut, pos);
            if field_fits(cut, end) {
                lemma_field_in_prefix(data, n, end);
            }
        }
    }
}

/// The one cut that a reader cannot tell: the prefix of the frame of a
/// response that ends exactly with the message reads as the same response
/// without its file.
pub proof fn lemma_response_prefix_at_message(r: ResponseView)
    requires
        response_fits(r),
    ensures
        parse_response(response_frame(r).take(message_end(r))) == Ok::<_, ProtocolError>(
            ResponseView { ok: r.ok, msg: r.msg, filename: None, filebytes: None },
        ),
{
    let bare = ResponseView { ok: r.ok, msg: r.msg, filename: None, filebytes: None };
    lemma_response_round_trip(bare);
    lemma_field_len(encode_utf8(r.msg));
    assert(response_frame(r).take(message_end(r)) =~= response_frame(bare));
}

/// What a reader accepts is a frame: a request read from `data` fits its
/// length prefixes, and its frame is the beginning of `data`.
pub proof fn lemma_parsed_request_is_prefix(data: Seq<u8>, r: RequestView)
    requires
        parse_request(data) == Ok::<_, ProtocolError>(r),
    ensures
        request_fits(r),
        request_frame(r).len() <= data.len(),
        data.take(request_frame(r).len() as int) == request_frame(r),
{
    let name = field_bytes(data, 1);
    decode_utf8_encode_utf8(name);
    let pos = field_end(data, 1);
    lemma_be32_of_value(data[1], data[2], data[3], data[4]);
    lemma_be32_of_value(data[pos], data[pos + 1], data[pos + 2], data[pos + 3]);
    lemma_request_frame_len(r);
    assert(data.take(request_frame(r).len() as int) =~= request_frame(r));
}

/// What a reader accepts is a frame but for its first byte: a response read
/// from `data` carries a file name and file content together or not at all,
/// fits its length prefixes, and behind the outcome byte its frame is the
/// beginning of `data`. Every outcome byte but zero reads as success.
pub proof fn lemma_parsed_response_is_prefix(data: Seq<u8>, r: ResponseView)
    requires
        parse_response(data) == Ok::<_, ProtocolError>(r),
    ensures
        r.paired(),
        response_fits(r),
        response_frame(r).len() <= data.len(),
        data.take(response_frame(r).len() as int).skip(1) == response_frame(r).skip(1),
        r.ok <==> data[0] != 0,
{
    decode_utf8_encode_utf8(field_bytes(data, 1));
    lemma_be32_of_value(data[1], data[2], data[3], data[4]);
    lemma_response_frame_len(r);
    let pos = field_end(data, 1);
    if pos < data.len() {
        decode_utf8_encode_utf8(field_bytes(data, pos));
        lemma_be32_of_value(data[pos], data[pos + 1], data[pos + 2], data[pos + 3]);
        let end = field_end(data, pos);
        lemma_be32_of_value(data[end], data[end + 1], data[end + 2], data[end + 3]);
    }
    assert(data.take(response_frame(r).len() as int).skip(1) =~= response_frame(r).skip(1));
}

} // verus!
