use rust_filestore::client::build_request;
use rust_filestore::client::conclude;
use rust_filestore::client::finish;
use rust_filestore::client::prepare_request;
use rust_filestore::client::Conclusion;
use rust_filestore::client::Config;
use rust_filestore::serialize_response;
use rust_filestore::Operation;
use rust_filestore::ProtocolError;
use rust_filestore::Request;
use rust_filestore::Response;

fn config(operation: Operation, filename: Option<&str>) -> Config {
    Config {
        addr: "127.0.0.1:8080".to_string(),
        filename: filename.map(|name| name.to_string()),
        operation,
    }
}

fn response(ok: bool, msg: &str, file: Option<(&str, &[u8])>) -> Response {
    Response {
        ok,
        msg: msg.to_string(),
        filename: file.map(|(name, _)| name.to_string()),
        filebytes: file.map(|(_, bytes)| bytes.to_vec()),
    }
}

#[test]
fn configuration_line() {
    assert_eq!(
        config(Operation::WRITE, Some("dir/a.txt")).describe(),
        "IP/Port = 127.0.0.1:8080, File = dir/a.txt, Operation = WRITE"
    );
    assert_eq!(
        config(Operation::LIST, None).describe(),
        "IP/Port = 127.0.0.1:8080, Operation = LIST"
    );
}

#[test]
fn only_a_write_reads_a_local_file() {
    assert!(config(Operation::WRITE, Some("a.txt")).needs_local_file());
    assert!(!config(Operation::WRITE, Some("")).needs_local_file());
    assert!(!config(Operation::WRITE, None).needs_local_file());
    assert!(!config(Operation::READ, Some("a.txt")).needs_local_file());
    assert!(!config(Operation::DELETE, Some("a.txt")).needs_local_file());
    assert!(!config(Operation::LIST, None).needs_local_file());
}

#[test]
fn request_names_the_last_path_component() {
    let req = build_request(&config(Operation::WRITE, Some("some/dir/a.txt")), vec![1, 2]);
    assert_eq!(
        req,
        Request { op: Operation::WRITE, filename: "a.txt".to_string(), filebytes: vec![1, 2] }
    );
    let req = build_request(&config(Operation::READ, Some("a.txt")), Vec::new());
    assert_eq!(req.filename, "a.txt");
    let req = build_request(&config(Operation::READ, Some("dir/")), Vec::new());
    assert_eq!(req.filename, "dir");
    let req = build_request(&config(Operation::DELETE, Some("dir/..")), Vec::new());
    assert_eq!(req.filename, "");
    let req = build_request(&config(Operation::LIST, None), Vec::new());
    assert_eq!(
        req,
        Request { op: Operation::LIST, filename: String::new(), filebytes: Vec::new() }
    );
}

#[test]
fn request_frame_is_prepared() {
    let (req, frame) =
        prepare_request(&config(Operation::WRITE, Some("/tmp/a.txt")), vec![104, 105]).unwrap();
    assert_eq!(req.filename, "a.txt");
    assert_eq!(
        frame,
        vec![1, 0, 0, 0, 5, 0x61, 0x2e, 0x74, 0x78, 0x74, 0, 0, 0, 2, 0x68, 0x69]
    );
}

#[test]
fn a_refusal_is_a_failure() {
    assert_eq!(
        conclude(Operation::READ, response(false, "File not found on server.", None)),
        Conclusion::Failure { reason: "File not found on server.".to_string() }
    );
    assert_eq!(
        conclude(Operation::READ, response(false, "no", Some(("a.txt", &[1])))),
        Conclusion::Failure { reason: "no".to_string() }
    );
    assert_eq!(
        conclude(Operation::DELETE, response(false, "File could not be deleted.", None)),
        Conclusion::Failure { reason: "File could not be deleted.".to_string() }
    );
}

#[test]
fn a_file_that_answers_a_read_is_saved() {
    assert_eq!(
        conclude(
            Operation::READ,
            response(true, "File successfully returned.", Some(("a.txt", &[104, 105])))
        ),
        Conclusion::Save {
            path: "received/a.txt".to_string(),
            bytes: vec![104, 105],
            notice: "File 'a.txt' saved successfully.".to_string(),
            msg: "File successfully returned.".to_string(),
        }
    );
}

#[test]
fn everything_else_is_reported() {
    assert_eq!(
        conclude(Operation::WRITE, response(true, "File successfully stored.", None)),
        Conclusion::Report { msg: "File successfully stored.".to_string() }
    );
    assert_eq!(
        conclude(Operation::LIST, response(true, "files/a\n", None)),
        Conclusion::Report { msg: "files/a\n".to_string() }
    );
    assert_eq!(
        conclude(Operation::WRITE, response(true, "odd", Some(("a.txt", &[1])))),
        Conclusion::Report { msg: "odd".to_string() }
    );
    assert_eq!(
        conclude(Operation::READ, response(true, "empty", None)),
        Conclusion::Report { msg: "empty".to_string() }
    );
    let half = Response {
        ok: true,
        msg: "half".to_string(),
        filename: Some("a".to_string()),
        filebytes: None,
    };
    assert_eq!(conclude(Operation::READ, half), Conclusion::Report { msg: "half".to_string() });
}

#[test]
fn a_response_frame_is_decoded_and_concluded() {
    let frame =
        serialize_response(&response(true, "File successfully returned.", Some(("b", &[7]))))
            .unwrap();
    assert_eq!(
        finish(Operation::READ, &frame),
        Ok(Conclusion::Save {
            path: "received/b".to_string(),
            bytes: vec![7],
            notice: "File 'b' saved successfully.".to_string(),
            msg: "File successfully returned.".to_string(),
        })
    );
    assert_eq!(finish(Operation::READ, &vec![]), Err(ProtocolError::TruncatedFrame));
    assert_eq!(
        finish(Operation::READ, &vec![1, 0, 0, 0, 1, 0xff]),
        Err(ProtocolError::InvalidText)
    );
}

#[test]
fn only_a_write_carries_content() {
    let req = build_request(&config(Operation::READ, Some("a.txt")), vec![1, 2, 3]);
    assert_eq!(req.filebytes, Vec::<u8>::new());
    let req = build_request(&config(Operation::LIST, None), vec![1]);
    assert_eq!(req.filebytes, Vec::<u8>::new());
    let req = build_request(&config(Operation::WRITE, Some("")), vec![1]);
    assert_eq!(req.filebytes, Vec::<u8>::new());
    let req = build_request(&config(Operation::WRITE, Some("x/y")), vec![1]);
    assert_eq!(req.filebytes, vec![1]);
    assert_eq!(req.filename, "y");
}
