use rust_filestore::wire::push_be32;
use rust_filestore::wire::push_bytes;
use rust_filestore::wire::push_field;
use rust_filestore::wire::read_be32;
use rust_filestore::wire::read_field;
use rust_filestore::deserialize_request;
use rust_filestore::deserialize_response;
use rust_filestore::serialize_request;
use rust_filestore::serialize_response;
use rust_filestore::Operation;
use rust_filestore::ProtocolError;
use rust_filestore::Request;
use rust_filestore::Response;

fn request(op: Operation, filename: &str, filebytes: &[u8]) -> Request {
    Request { op, filename: filename.to_string(), filebytes: filebytes.to_vec() }
}

fn file_response() -> Response {
    Response {
        ok: true,
        msg: "File successfully returned.".to_string(),
        filename: Some("a.txt".to_string()),
        filebytes: Some(vec![104, 105]),
    }
}

#[test]
fn operation_tags_are_fixed() {
    assert_eq!(Operation::from_u8(0), Some(Operation::READ));
    assert_eq!(Operation::from_u8(1), Some(Operation::WRITE));
    assert_eq!(Operation::from_u8(2), Some(Operation::DELETE));
    assert_eq!(Operation::from_u8(3), Some(Operation::LIST));
    assert_eq!(Operation::from_u8(4), None);
    assert_eq!(Operation::from_u8(255), None);
}

#[test]
fn operation_tag_round_trip() {
    for op in [Operation::READ, Operation::WRITE, Operation::DELETE, Operation::LIST] {
        assert_eq!(Operation::from_u8(op.to_u8()), Some(op));
    }
    assert_eq!(Operation::WRITE.to_u8(), 1);
}

#[test]
fn operation_names() {
    assert_eq!(Operation::READ.to_string(), "READ");
    assert_eq!(Operation::WRITE.to_string(), "WRITE");
    assert_eq!(Operation::DELETE.to_string(), "DELETE");
    assert_eq!(Operation::LIST.to_string(), "LIST");
}

#[test]
fn be32_is_big_endian() {
    let mut out = vec![9u8];
    push_be32(&mut out, 0x0102_0304);
    assert_eq!(out, vec![9, 1, 2, 3, 4]);
    let mut out = Vec::new();
    push_be32(&mut out, 0);
    push_be32(&mut out, u32::MAX);
    push_be32(&mut out, 256);
    assert_eq!(out, vec![0, 0, 0, 0, 255, 255, 255, 255, 0, 0, 1, 0]);
    assert_eq!(read_be32(&out, 0), 0);
    assert_eq!(read_be32(&out, 4), u32::MAX);
    assert_eq!(read_be32(&out, 8), 256);
    assert_eq!(read_be32(&[7, 1, 2, 3, 4], 1), 0x0102_0304);
}

#[test]
fn fields_are_length_prefixed() {
    let mut out = vec![1u8];
    assert!(push_field(&mut out, b"abc"));
    assert_eq!(out, vec![1, 0, 0, 0, 3, 97, 98, 99]);
    assert!(push_field(&mut out, b""));
    assert_eq!(out, vec![1, 0, 0, 0, 3, 97, 98, 99, 0, 0, 0, 0]);
    push_bytes(&mut out, &[5, 6]);
    assert_eq!(out.len(), 14);
    assert_eq!(read_field(&out, 1), Some((b"abc".to_vec(), 8)));
    assert_eq!(read_field(&out, 8), Some((Vec::new(), 12)));
    assert_eq!(read_field(&out, 12), None);
    assert_eq!(read_field(&out, 14), None);
    assert_eq!(read_field(&[0, 0, 0, 2, 1], 0), None);
    assert_eq!(read_field(&[0, 0, 0, 2, 1, 2, 3], 0), Some((vec![1, 2], 6)));
    assert_eq!(read_field(&[255, 255, 255, 255, 1], 0), None);
}

#[test]
fn write_request_example_bytes() {
    let req = request(Operation::WRITE, "a.txt", &[104, 105]);
    let frame = serialize_request(&req).unwrap();
    assert_eq!(
        frame,
        vec![
            0x01, 0x00, 0x00, 0x00, 0x05, 0x61, 0x2e, 0x74, 0x78, 0x74, 0x00, 0x00, 0x00, 0x02,
            0x68, 0x69
        ]
    );
    assert_eq!(deserialize_request(&frame), Ok(req));
}

#[test]
fn request_round_trip() {
    let cases = vec![
        request(Operation::READ, "a.txt", &[]),
        request(Operation::WRITE, "notes.md", b"hello world"),
        request(Operation::DELETE, "", &[]),
        request(Operation::LIST, "", &[]),
        request(Operation::WRITE, "gr\u{fc}\u{df}e \u{4e16}\u{754c} \u{1f600}.bin", &[0, 255, 10, 13]),
        request(Operation::WRITE, "big", &vec![7u8; 70_000]),
    ];
    for req in cases {
        let frame = serialize_request(&req).unwrap();
        assert_eq!(frame.len(), 1 + 4 + req.filename.len() + 4 + req.filebytes.len());
        assert_eq!(deserialize_request(&frame), Ok(req));
    }
}

#[test]
fn request_text_is_utf8_on_the_wire() {
    let req = request(Operation::READ, "\u{e9}", &[]);
    let frame = serialize_request(&req).unwrap();
    assert_eq!(frame, vec![0, 0, 0, 0, 2, 0xc3, 0xa9, 0, 0, 0, 0]);
    let back = deserialize_request(&frame).unwrap();
    assert_eq!(back.filename, "\u{e9}");
    assert_eq!(back.filename.chars().count(), 1);
}

#[test]
fn request_prefixes_are_truncated_frames() {
    let req = request(Operation::WRITE, "a.txt", &[104, 105]);
    let frame = serialize_request(&req).unwrap();
    for n in 0..frame.len() {
        let cut = frame[..n].to_vec();
        assert_eq!(deserialize_request(&cut), Err(ProtocolError::TruncatedFrame), "prefix {}", n);
    }
    let empty = request(Operation::LIST, "", &[]);
    let frame = serialize_request(&empty).unwrap();
    for n in 0..frame.len() {
        let cut = frame[..n].to_vec();
        assert_eq!(deserialize_request(&cut), Err(ProtocolError::TruncatedFrame));
    }
}

#[test]
fn request_trailing_bytes_are_ignored() {
    let req = request(Operation::DELETE, "x", &[]);
    let mut frame = serialize_request(&req).unwrap();
    frame.extend_from_slice(&[1, 2, 3]);
    assert_eq!(deserialize_request(&frame), Ok(req));
}

#[test]
fn request_errors() {
    assert_eq!(deserialize_request(&vec![]), Err(ProtocolError::TruncatedFrame));
    assert_eq!(
        deserialize_request(&vec![4, 0, 0, 0, 0, 0, 0, 0, 0]),
        Err(ProtocolError::UnknownOperation)
    );
    assert_eq!(deserialize_request(&vec![200]), Err(ProtocolError::UnknownOperation));
    assert_eq!(deserialize_request(&vec![0]), Err(ProtocolError::TruncatedFrame));
    assert_eq!(deserialize_request(&vec![0, 0, 0, 0]), Err(ProtocolError::TruncatedFrame));
    assert_eq!(
        deserialize_request(&vec![0, 0, 0, 0, 9, 97]),
        Err(ProtocolError::TruncatedFrame)
    );
    assert_eq!(
        deserialize_request(&vec![0, 255, 255, 255, 255, 97]),
        Err(ProtocolError::TruncatedFrame)
    );
    assert_eq!(
        deserialize_request(&vec![0, 0, 0, 0, 1, 0xff, 0, 0, 0, 0]),
        Err(ProtocolError::InvalidText)
    );
    assert_eq!(
        deserialize_request(&vec![1, 0, 0, 0, 2, 0xc3, 0x28, 0, 0, 0, 0]),
        Err(ProtocolError::InvalidText)
    );
    assert_eq!(
        deserialize_request(&vec![1, 0, 0, 0, 3, 0xed, 0xa0, 0x80, 0, 0, 0, 0]),
        Err(ProtocolError::InvalidText)
    );
    assert_eq!(
        deserialize_request(&vec![1, 0, 0, 0, 1, 97, 0, 0, 0, 5, 1, 2]),
        Err(ProtocolError::TruncatedFrame)
    );
}

#[test]
fn request_errors_come_in_field_order() {
    assert_eq!(
        deserialize_request(&vec![9, 0, 0, 0, 1, 0xff]),
        Err(ProtocolError::UnknownOperation)
    );
    assert_eq!(
        deserialize_request(&vec![0, 0, 0, 0, 1, 0xff]),
        Err(ProtocolError::InvalidText)
    );
    assert_eq!(
        deserialize_request(&vec![0, 0, 0, 0, 2, 0xff]),
        Err(ProtocolError::TruncatedFrame)
    );
}

#[test]
fn response_frame_layout() {
    let plain = Response {
        ok: false,
        msg: "no".to_string(),
        filename: None,
        filebytes: None,
    };
    assert_eq!(serialize_response(&plain).unwrap(), vec![0, 0, 0, 0, 2, 110, 111]);
    let frame = serialize_response(&file_response()).unwrap();
    let mut expected = vec![1u8, 0, 0, 0, 27];
    expected.extend_from_slice(b"File successfully returned.");
    expected.extend_from_slice(&[0, 0, 0, 5]);
    expected.extend_from_slice(b"a.txt");
    expected.extend_from_slice(&[0, 0, 0, 2, 104, 105]);
    assert_eq!(frame, expected);
}

#[test]
fn response_round_trip() {
    let cases = vec![
        file_response(),
        Response { ok: true, msg: String::new(), filename: None, filebytes: None },
        Response {
            ok: false,
            msg: "File not found on server.".to_string(),
            filename: None,
            filebytes: None,
        },
        Response {
            ok: true,
            msg: "\u{2713} done".to_string(),
            filename: Some(String::new()),
            filebytes: Some(Vec::new()),
        },
        Response {
            ok: false,
            msg: "odd".to_string(),
            filename: Some("f".to_string()),
            filebytes: Some(vec![0; 3000]),
        },
    ];
    for res in cases {
        let frame = serialize_response(&res).unwrap();
        assert_eq!(deserialize_response(&frame), Ok(res));
    }
}

#[test]
fn response_outcome_byte() {
    let no = deserialize_response(&vec![0, 0, 0, 0, 0]).unwrap();
    assert!(!no.ok);
    let yes = deserialize_response(&vec![1, 0, 0, 0, 0]).unwrap();
    assert!(yes.ok);
    let other = deserialize_response(&vec![7, 0, 0, 0, 0]).unwrap();
    assert!(other.ok);
}

#[test]
fn response_prefixes_are_truncated_frames_but_at_the_message() {
    let res = file_response();
    let frame = serialize_response(&res).unwrap();
    let message_end = 1 + 4 + res.msg.len();
    for n in 0..frame.len() {
        let cut = frame[..n].to_vec();
        if n == message_end {
            assert_eq!(
                deserialize_response(&cut),
                Ok(Response { ok: true, msg: res.msg.clone(), filename: None, filebytes: None })
            );
        } else {
            assert_eq!(
                deserialize_response(&cut),
                Err(ProtocolError::TruncatedFrame),
                "prefix {}",
                n
            );
        }
    }
    let bare = Response { ok: true, msg: "ok".to_string(), filename: None, filebytes: None };
    let frame = serialize_response(&bare).unwrap();
    for n in 0..frame.len() {
        assert_eq!(deserialize_response(&frame[..n].to_vec()), Err(ProtocolError::TruncatedFrame));
    }
}

#[test]
fn response_errors() {
    assert_eq!(deserialize_response(&vec![]), Err(ProtocolError::TruncatedFrame));
    assert_eq!(deserialize_response(&vec![1, 0, 0]), Err(ProtocolError::TruncatedFrame));
    assert_eq!(
        deserialize_response(&vec![1, 0, 0, 0, 1, 0x80]),
        Err(ProtocolError::InvalidText)
    );
    assert_eq!(
        deserialize_response(&vec![1, 0, 0, 0, 1, 97, 0, 0, 0, 1, 0xfe, 0, 0, 0, 0]),
        Err(ProtocolError::InvalidText)
    );
    assert_eq!(
        deserialize_response(&vec![1, 0, 0, 0, 1, 97, 0, 0, 0, 1, 98]),
        Err(ProtocolError::TruncatedFrame)
    );
    assert_eq!(
        deserialize_response(&vec![1, 0, 0, 0, 1, 97, 0]),
        Err(ProtocolError::TruncatedFrame)
    );
}

#[test]
fn response_with_a_name_but_no_content() {
    let res = Response {
        ok: true,
        msg: "m".to_string(),
        filename: Some("n".to_string()),
        filebytes: None,
    };
    assert_eq!(
        serialize_response(&res).unwrap(),
        vec![1, 0, 0, 0, 1, 109, 0, 0, 0, 1, 110]
    );
    let res = Response {
        ok: true,
        msg: "m".to_string(),
        filename: None,
        filebytes: Some(vec![1, 2, 3]),
    };
    assert_eq!(serialize_response(&res).unwrap(), vec![1, 0, 0, 0, 1, 109]);
}

#[test]
fn protocol_errors_in_words() {
    assert_eq!(ProtocolError::UnknownOperation.describe(), "Invalid operation");
    assert_eq!(ProtocolError::TruncatedFrame.describe(), "Truncated frame");
    assert_eq!(ProtocolError::InvalidText.describe(), "Invalid UTF-8 sequence");
    assert_eq!(ProtocolError::OversizedField.describe(), "Field too long");
}
