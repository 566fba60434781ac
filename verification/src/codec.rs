//! The wire codec: requests and responses to and from byte frames.
//!
//! A request frame is the tag byte of the operation, the file name as a
//! field and the file content as a field. A response frame is the outcome
//! byte and the message as a field, followed, where a file accompanies the
//! response, by the file name and the file content as fields. Every field is
//! a big-endian 32-bit length and that many bytes.

use vstd::prelude::*;
use vstd::utf8::*;
use crate::message::Operation;
use crate::message::ProtocolError;
use crate::message::Request;
use crate::message::RequestView;
use crate::message::Response;
use crate::message::ResponseView;
use crate::wire::field;
use crate::wire::field_bytes;
use crate::wire::field_end;
use crate::wire::field_fits;
use crate::wire::push_field;
use crate::wire::read_field;

verus! {

/// The byte that stands for an outcome.
pub open spec fn outcome_byte(ok: bool) -> u8 {
    if ok {
        1
    } else {
        0
    }
}

/// Whether every field of the request is short enough for its length prefix.
pub open spec fn request_fits(r: RequestView) -> bool {
    &&& encode_utf8(r.filename).len() <= 0xFFFF_FFFF
    &&& r.filebytes.len() <= 0xFFFF_FFFF
}

/// The frame of a request.
pub open spec fn request_frame(r: RequestView) -> Seq<u8> {
    seq![r.op.tag()] + field(encode_utf8(r.filename)) + field(r.filebytes)
}

/// What follows the message in the frame of a response: nothing without a
/// file name, else the name and, where there is any, the content.
pub open spec fn file_section(r: ResponseView) -> Seq<u8> {
    match r.filename {
        None => Seq::<u8>::empty(),
        Some(name) => field(encode_utf8(name)) + match r.filebytes {
            None => Seq::<u8>::empty(),
            Some(bytes) => field(bytes),
        },
    }
}

/// Whether every field that the frame of the response holds is short enough
/// for its length prefix.
pub open spec fn response_fits(r: ResponseView) -> bool {
    &&& encode_utf8(r.msg).len() <= 0xFFFF_FFFF
    &&& r.filename matches Some(name) ==> {
        &&& encode_utf8(name).len() <= 0xFFFF_FFFF
        &&& r.filebytes matches Some(bytes) ==> bytes.len() <= 0xFFFF_FFFF
    }
}

/// The frame of a response.
pub open spec fn response_frame(r: ResponseView) -> Seq<u8> {
    seq![outcome_byte(r.ok)] + field(encode_utf8(r.msg)) + file_section(r)
}

/// The text field at `pos` of `data`, with the position behind it: the frame
/// is truncated where the field does not fit, and the text is invalid where
/// its bytes are not well-formed UTF-8.
pub open spec fn parse_text(data: Seq<u8>, pos: int) -> Result<(Seq<char>, int), ProtocolError> {
    if !field_fits(data, pos) {
        Err(ProtocolError::TruncatedFrame)
    } else if !valid_utf8(field_bytes(data, pos)) {
        Err(ProtocolError::InvalidText)
    } else {
        Ok((decode_utf8(field_bytes(data, pos)), field_end(data, pos)))
    }
}

/// The request that a frame holds. The fields are read in order, so the
/// first fault decides the error; bytes behind the last field are ignored.
pub open spec fn parse_request(data: Seq<u8>) -> Result<RequestView, ProtocolError> {
    if data.len() == 0 {
        Err(ProtocolError::TruncatedFrame)
    } else {
        match Operation::of_tag(data[0]) {
            None => Err(ProtocolError::UnknownOperation),
            Some(op) => match parse_text(data, 1) {
                Err(e) => Err(e),
                Ok((filename, pos)) => if !field_fits(data, pos) {
                    Err(ProtocolError::TruncatedFrame)
                } else {
                    Ok(RequestView { op, filename, filebytes: field_bytes(data, pos) })
                },
            },
        }
    }
}

/// The response that a frame holds. A frame that ends with its message
/// carries no file; bytes behind the file content are ignored.
pub open spec fn parse_response(data: Seq<u8>) -> Result<ResponseView, ProtocolError> {
    if data.len() == 0 {
        Err(ProtocolError::TruncatedFrame)
    } else {
        match parse_text(data, 1) {
            Err(e) => Err(e),
            Ok((msg, pos)) => if pos >= data.len() {
                Ok(ResponseView { ok: data[0] != 0, msg, filename: None, filebytes: None })
            } else {
                match parse_text(data, pos) {
                    Err(e) => Err(e),
                    Ok((filename, end)) => if !field_fits(data, end) {
                        Err(ProtocolError::TruncatedFrame)
                    } else {
                        Ok(
                            ResponseView {
                                ok: data[0] != 0,
                                msg,
                                filename: Some(filename),
                                filebytes: Some(field_bytes(data, end)),
                            },
                        )
                    },
                }
            },
        }
    }
}

/// Turns bytes into text with `String::from_utf8`, which gives the text
/// exactly when the bytes are well-formed UTF-8; the text is then the one
/// that these bytes encode.
#[verifier::external_body]
fn text_from_utf8(bytes: Vec<u8>) -> (res: Option<String>)
    ensures
        res is Some <==> valid_utf8(bytes@),
        res matches Some(text) ==> text@ == decode_utf8(bytes@),
{
    match String::from_utf8(bytes) {
        Ok(text) => Some(text),
        Err(_) => None,
    }
}

/// Reads the text field that starts at `pos`.
fn read_text(data: &[u8], pos: usize) -> (res: Result<(String, usize), ProtocolError>)
    requires
        pos <= data@.len(),
    ensures
        match res {
            Ok((text, end)) => parse_text(data@, pos as int) == Ok::<_, ProtocolError>(
                (text@, end as int),
            ),
            Err(e) => parse_text(data@, pos as int) == Err::<(Seq<char>, int), _>(e),
        },
{
    match read_field(data, pos) {
        None => Err(ProtocolError::TruncatedFrame),
        Some((bytes, end)) => match text_from_utf8(bytes) {
            None => Err(ProtocolError::InvalidText),
            Some(text) => Ok((text, end)),
        },
    }
}

/// Writes the frame of a request. Fails, with `OversizedField`, exactly when
/// the file name or the file content is longer than a length prefix can
/// announce.
pub fn serialize_request(req: &Request) -> (res: Result<Vec<u8>, ProtocolError>)
    ensures
        res is Ok <==> request_fits(req@),
        res matches Ok(frame) ==> frame@ == request_frame(req@),
        res matches Err(e) ==> e == ProtocolError::OversizedField,
{
    let mut out: Vec<u8> = Vec::new();
    out.push(req.op.to_u8());
    if !push_field(&mut out, req.filename.as_str().as_bytes()) {
        return Err(ProtocolError::OversizedField);
    }
    if !push_field(&mut out, req.filebytes.as_slice()) {
        return Err(ProtocolError::OversizedField);
    }
    assert(out@ =~= request_frame(req@));
    Ok(out)
}

/// Reads a request from a frame: the request that `parse_request` finds in
/// it, or the error that `parse_request` gives.
pub fn deserialize_request(data: &Vec<u8>) -> (res: Result<Request, ProtocolError>)
    ensures
        match res {
            Ok(req) => parse_request(data@) == Ok::<_, ProtocolError>(req@),
            Err(e) => parse_request(data@) == Err::<RequestView, _>(e),
        },
{
    let bytes = data.as_slice();
    if bytes.len() == 0 {
        return Err(ProtocolError::TruncatedFrame);
    }
    let op = match Operation::from_u8(bytes[0]) {
        Some(op) => op,
        None => {
            return Err(ProtocolError::UnknownOperation);
        },
    };
    let (filename, pos) = match read_text(bytes, 1) {
        Ok(found) => found,
        Err(e) => {
            return Err(e);
        },
    };
    match read_field(bytes, pos) {
        None => Err(ProtocolError::TruncatedFrame),
        Some((filebytes, _)) => Ok(Request { op, filename, filebytes }),
    }
}

/// Writes the frame of a response. Fails, with `OversizedField`, exactly
/// when a field of the frame would be longer than a length prefix can
/// announce.
pub fn serialize_response(res: &Response) -> (out: Result<Vec<u8>, ProtocolError>)
    ensures
        out is Ok <==> response_fits(res@),
        out matches Ok(frame) ==> frame@ == response_frame(res@),
        out matches Err(e) ==> e == ProtocolError::OversizedField,
{
    let mut out: Vec<u8> = Vec::new();
    out.push(if res.ok { 1u8 } else { 0u8 });
    if !push_field(&mut out, res.msg.as_str().as_bytes()) {
        return Err(ProtocolError::OversizedField);
    }
    if let Some(name) = &res.filename {
        if !push_field(&mut out, name.as_str().as_bytes()) {
            return Err(ProtocolError::OversizedField);
        }
        if let Some(bytes) = &res.filebytes {
            if !push_field(&mut out, bytes.as_slice()) {
                return Err(ProtocolError::OversizedField);
            }
        }
    }
    assert(out@ =~= response_frame(res@));
    Ok(out)
}

/// Reads a response from a frame: the response that `parse_response` finds
/// in it, or the error that `parse_response` gives.
pub fn deserialize_response(data: &Vec<u8>) -> (res: Result<Response, ProtocolError>)
    ensures
        match res {
            Ok(r) => parse_response(data@) == Ok::<_, ProtocolError>(r@),
            Err(e) => parse_response(data@) == Err::<ResponseView, _>(e),
        },
{
    let bytes = data.as_slice();
    if bytes.len() == 0 {
        return Err(ProtocolError::TruncatedFrame);
    }
    let ok = bytes[0] != 0;
    let (msg, pos) = match read_text(bytes, 1) {
        Ok(found) => found,
        Err(e) => {
            return Err(e);
        },
    };
    if pos >= bytes.len() {
        return Ok(Response { ok, msg, filename: None, filebytes: None });
    }
    let (filename, end) = match read_text(bytes, pos) {
        Ok(found) => found,
        Err(e) => {
            return Err(e);
        },
    };
    match read_field(bytes, end) {
        None => Err(ProtocolError::TruncatedFrame),
        Some((filebytes, _)) => Ok(
            Response { ok, msg, filename: Some(filename), filebytes: Some(filebytes) },
        ),
    }
}

} // verus!
