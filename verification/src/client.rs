//! The client's part in one exchange: the request that a configuration asks
//! for, and what to do with the response.

use vstd::prelude::*;
use vstd::string::StringExecFns;
use vstd::utf8::encode_utf8;
use crate::codec::deserialize_response;
use crate::codec::parse_response;
use crate::codec::request_fits;
use crate::codec::request_frame;
use crate::codec::serialize_request;
use crate::message::Operation;
use crate::message::ProtocolError;
use crate::message::Request;
use crate::message::Response;
use crate::message::ResponseView;

verus! {

/// What one run of the client is to do.
#[derive(Clone, Debug, PartialEq, Eq)]
pub struct Config {
    /// The address of the server, as `ip:port`.
    pub addr: String,
    /// The local path of the file to work on; none for `LIST`.
    pub filename: Option<String>,
    /// The operation to ask for.
    pub operation: Operation,
}

/// The local path that a configuration names; empty where it names none.
pub open spec fn local_path(filename: Option<String>) -> Seq<char> {
    match filename {
        Some(path) => path@,
        None => Seq::<char>::empty(),
    }
}

/// The line that shows a configuration to the user.
pub open spec fn config_line(addr: Seq<char>, filename: Option<String>, operation: Operation) -> Seq<
    char,
> {
    match filename {
        Some(path) => "IP/Port = "@ + addr + ", File = "@ + path@ + ", Operation = "@
            + operation.name(),
        None => "IP/Port = "@ + addr + ", Operation = "@ + operation.name(),
    }
}

/// Whether a file name is a single path component as far as the separator
/// `/` goes.
pub open spec fn no_separator(name: Seq<char>) -> bool {
    !name.contains('/')
}

/// Where the client keeps a file that it received: under `received`.
pub open spec fn receive_path_of(filename: Seq<char>) -> Seq<char> {
    "received/"@ + filename
}

/// The notice that a received file was saved.
pub open spec fn saved_notice(filename: Seq<char>) -> Seq<char> {
    "File '"@ + filename + "' saved successfully."@
}

impl Config {
    /// The line that shows this configuration to the user.
    pub fn describe(&self) -> (line: String)
        ensures
            line@ == config_line(self.addr@, self.filename, self.operation),
    {
        let mut line = String::from_str("IP/Port = ");
        line.append(self.addr.as_str());
        if let Some(path) = &self.filename {
            line.append(", File = ");
            line.append(path.as_str());
        }
        line.append(", Operation = ");
        line.append(self.operation.to_string());
        line
    }

    /// Whether the client has to read a local file before it can ask: only
    /// to `WRITE`, and only where a path is given.
    pub fn needs_local_file(&self) -> (res: bool)
        ensures
            res <==> self.operation == Operation::WRITE && local_path(self.filename).len() > 0,
    {
        match &self.filename {
            Some(path) => self.operation == Operation::WRITE && !path.as_str().is_empty(),
            None => false,
        }
    }
}

/// Whether `part` stands somewhere in `whole`, in one piece.
pub open spec fn part_of(part: Seq<char>, whole: Seq<char>) -> bool {
    exists|from: int, to: int|
        0 <= from <= to <= whole.len() && part == #[trigger] whole.subrange(from, to)
}

/// The last component of a path, by `std::path::Path::file_name`; none
/// where the path ends in no name. Of the result only this is claimed:
/// being one component of the path, it is a part of the path, holds no
/// separator `/`, and has no more bytes than the path.
#[verifier::external_body]
fn base_name(path: &str) -> (res: Option<String>)
    ensures
        res matches Some(name) ==> {
            &&& part_of(name@, path@)
            &&& no_separator(name@)
            &&& encode_utf8(name@).len() <= encode_utf8(path@).len()
        },
{
    match std::path::Path::new(path).file_name() {
        Some(name) => Some(name.to_string_lossy().into_owned()),
        None => None,
    }
}

/// The content that goes into the request of a configuration: what was
/// read from the local file where one had to be read, nothing otherwise.
pub open spec fn request_content(config: Config, contents: Seq<u8>) -> Seq<u8> {
    if config.operation == Operation::WRITE && local_path(config.filename).len() > 0 {
        contents
    } else {
        Seq::<u8>::empty()
    }
}

/// The request that a configuration asks for. The file is named by the last
/// component of the local path, never by the whole path, and by the empty
/// name where the path has no such component or none is given. `contents`
/// is what was read from the local file; it counts only where the
/// configuration needed one.
pub fn build_request(config: &Config, contents: Vec<u8>) -> (req: Request)
    ensures
        req.op == config.operation,
        req.filebytes@ == request_content(*config, contents@),
        req.op != Operation::WRITE ==> req.filebytes@.len() == 0,
        part_of(req.filename@, local_path(config.filename)),
        no_separator(req.filename@),
        encode_utf8(req.filename@).len() <= encode_utf8(local_path(config.filename)).len(),
{
    let found = match &config.filename {
        Some(path) => base_name(path.as_str()),
        None => None,
    };
    let filename = match found {
        Some(name) => name,
        None => {
            assert(Seq::<char>::empty() =~= local_path(config.filename).subrange(0, 0));
            String::new()
        },
    };
    let filebytes = if config.needs_local_file() {
        contents
    } else {
        Vec::new()
    };
    Request { op: config.operation, filename, filebytes }
}

/// What the client does with a response.
#[derive(Clone, Debug, PartialEq, Eq)]
pub enum Conclusion {
    /// The server refused: show the reason and end with a failure.
    Failure { reason: String },
    /// Create the directories above `path`, write `bytes` there, then show
    /// `notice` and `msg`.
    Save { path: String, bytes: Vec<u8>, notice: String, msg: String },
    /// Show `msg`.
    Report { msg: String },
}

/// A conclusion as contracts see it.
pub enum ConclusionView {
    Failure { reason: Seq<char> },
    Save { path: Seq<char>, bytes: Seq<u8>, notice: Seq<char>, msg: Seq<char> },
    Report { msg: Seq<char> },
}

impl View for Conclusion {
    type V = ConclusionView;

    open spec fn view(&self) -> ConclusionView {
        match self {
            Conclusion::Failure { reason } => ConclusionView::Failure { reason: reason@ },
            Conclusion::Save { path, bytes, notice, msg } => ConclusionView::Save {
                path: path@,
                bytes: bytes@,
                notice: notice@,
                msg: msg@,
            },
            Conclusion::Report { msg } => ConclusionView::Report { msg: msg@ },
        }
    }
}

/// What follows from a response to a request for `operation`: a refusal is
/// a failure; a file that answers a `READ` is saved under the receive root;
/// everything else is reported.
pub open spec fn conclusion_of(operation: Operation, r: ResponseView) -> ConclusionView {
    if !r.ok {
        ConclusionView::Failure { reason: r.msg }
    } else if operation == Operation::READ && r.carries_file() {
        ConclusionView::Save {
            path: receive_path_of(r.filename->Some_0),
            bytes: r.filebytes->Some_0,
            notice: saved_notice(r.filename->Some_0),
            msg: r.msg,
        }
    } else {
        ConclusionView::Report { msg: r.msg }
    }
}

/// Decides what to do with the response to a request for `operation`.
pub fn conclude(operation: Operation, response: Response) -> (c: Conclusion)
    ensures
        c@ == conclusion_of(operation, response@),
{
    let Response { ok, msg, filename, filebytes } = response;
    if !ok {
        return Conclusion::Failure { reason: msg };
    }
    if operation == Operation::READ {
        if let Some(name) = filename {
            if let Some(bytes) = filebytes {
                let path = String::from_str("received/").concat(name.as_str());
                let notice = String::from_str("File '").concat(name.as_str()).concat(
                    "' saved successfully.",
                );
                return Conclusion::Save { path, bytes, notice, msg };
            }
        }
    }
    Conclusion::Report { msg }
}

/// Writes the frame of the request that a configuration asks for. Succeeds
/// whenever the content that goes into the request and the local path are
/// no longer than a length prefix can announce, and fails, with
/// `OversizedField`, whenever that content is longer.
pub fn prepare_request(config: &Config, contents: Vec<u8>) -> (res: Result<
    (Request, Vec<u8>),
    ProtocolError,
>)
    ensures
        res matches Ok((req, frame)) ==> {
            &&& req.op == config.operation
            &&& req.filebytes@ == request_content(*config, contents@)
            &&& part_of(req.filename@, local_path(config.filename))
            &&& no_separator(req.filename@)
            &&& request_fits(req@)
            &&& frame@ == request_frame(req@)
        },
        res matches Err(e) ==> e == ProtocolError::OversizedField,
        request_content(*config, contents@).len() > 0xFFFF_FFFF ==> res is Err,
        request_content(*config, contents@).len() <= 0xFFFF_FFFF && encode_utf8(
            local_path(config.filename),
        ).len() <= 0xFFFF_FFFF ==> res is Ok,
{
    let req = build_request(config, contents);
    match serialize_request(&req) {
        Ok(frame) => Ok((req, frame)),
        Err(e) => Err(e),
    }
}

/// Reads the response that a frame holds and decides what to do with it. A
/// frame that holds no response is refused with the error of the decoder.
pub fn finish(operation: Operation, frame: &Vec<u8>) -> (res: Result<Conclusion, ProtocolError>)
    ensures
        match res {
            Ok(c) => parse_response(frame@) matches Ok(r) && c@ == conclusion_of(operation, r),
            Err(e) => parse_response(frame@) == Err::<ResponseView, _>(e),
        },
{
    match deserialize_response(frame) {
        Ok(response) => Ok(conclude(operation, response)),
        Err(e) => Err(e),
    }
}

} // verus!
