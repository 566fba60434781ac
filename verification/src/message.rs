//! The values that travel between client and server.

use vstd::prelude::*;

verus! {

/// What a client asks the server to do. The tag of each operation is part of
/// the wire format.
#[derive(Copy, Clone, Debug, PartialEq, Eq, Structural)]
pub enum Operation {
    /// Fetch a file from the server (tag 0).
    READ,
    /// Store a file on the server (tag 1).
    WRITE,
    /// Remove a file from the server (tag 2).
    DELETE,
    /// Enumerate the files on the server (tag 3).
    LIST,
}

impl Operation {
    /// The tag byte that stands for this operation on the wire.
    pub open spec fn tag(self) -> u8 {
        match self {
            Operation::READ => 0,
            Operation::WRITE => 1,
            Operation::DELETE => 2,
            Operation::LIST => 3,
        }
    }

    /// The operation that a tag byte stands for, if any.
    pub open spec fn of_tag(value: u8) -> Option<Operation> {
        if value == 0 {
            Some(Operation::READ)
        } else if value == 1 {
            Some(Operation::WRITE)
        } else if value == 2 {
            Some(Operation::DELETE)
        } else if value == 3 {
            Some(Operation::LIST)
        } else {
            None
        }
    }

    /// The upper-case name of this operation.
    pub open spec fn name(self) -> Seq<char> {
        match self {
            Operation::READ => "READ"@,
            Operation::WRITE => "WRITE"@,
            Operation::DELETE => "DELETE"@,
            Operation::LIST => "LIST"@,
        }
    }

    /// Reads an operation from its tag; `None` for a tag that names none.
    pub fn from_u8(value: u8) -> (res: Option<Operation>)
        ensures
            res == Operation::of_tag(value),
            res is Some <==> value <= 3,
            res matches Some(op) ==> op.tag() == value,
    {
        match value {
            0 => Some(Operation::READ),
            1 => Some(Operation::WRITE),
            2 => Some(Operation::DELETE),
            3 => Some(Operation::LIST),
            _ => None,
        }
    }

    /// The tag byte of this operation.
    pub fn to_u8(&self) -> (res: u8)
        ensures
            res == self.tag(),
            Operation::of_tag(res) == Some(*self),
    {
        match self {
            Operation::READ => 0,
            Operation::WRITE => 1,
            Operation::DELETE => 2,
            Operation::LIST => 3,
        }
    }

    /// The upper-case name of this operation, for messages to the user.
    pub fn to_string(&self) -> (res: &'static str)
        ensures
            res@ == self.name(),
    {
        match self {
            Operation::READ => "READ",
            Operation::WRITE => "WRITE",
            Operation::DELETE => "DELETE",
            Operation::LIST => "LIST",
        }
    }
}

/// A request of a client: one operation on one named file.
#[derive(Clone, Debug, PartialEq, Eq)]
pub struct Request {
    /// What the server is asked to do.
    pub op: Operation,
    /// The name of the file; a single path component.
    pub filename: String,
    /// The content to store for `WRITE`; empty for every other operation.
    pub filebytes: Vec<u8>,
}

/// A request as contracts see it.
pub struct RequestView {
    pub op: Operation,
    pub filename: Seq<char>,
    pub filebytes: Seq<u8>,
}

impl View for Request {
    type V = RequestView;

    open spec fn view(&self) -> RequestView {
        RequestView { op: self.op, filename: self.filename@, filebytes: self.filebytes@ }
    }
}

/// The answer of the server to one request.
#[derive(Clone, Debug, PartialEq, Eq)]
pub struct Response {
    /// Whether the operation succeeded.
    pub ok: bool,
    /// A status line for the user or, for `LIST`, the listing itself.
    pub msg: String,
    /// The name of the returned file; present only on a successful `READ`.
    pub filename: Option<String>,
    /// The content of the returned file; present only on a successful `READ`.
    pub filebytes: Option<Vec<u8>>,
}

/// A response as contracts see it.
pub struct ResponseView {
    pub ok: bool,
    pub msg: Seq<char>,
    pub filename: Option<Seq<char>>,
    pub filebytes: Option<Seq<u8>>,
}

impl ResponseView {
    /// A response carries a file name and file content together or not at all.
    pub open spec fn paired(self) -> bool {
        self.filename is Some <==> self.filebytes is Some
    }

    /// Whether a file accompanies the response.
    pub open spec fn carries_file(self) -> bool {
        self.filename is Some && self.filebytes is Some
    }
}

impl View for Response {
    type V = ResponseView;

    open spec fn view(&self) -> ResponseView {
        ResponseView {
            ok: self.ok,
            msg: self.msg@,
            filename: match self.filename {
                Some(name) => Some(name@),
                None => None,
            },
            filebytes: match self.filebytes {
                Some(bytes) => Some(bytes@),
                None => None,
            },
        }
    }
}

/// Why a frame could not be written or read.
#[derive(Copy, Clone, Debug, PartialEq, Eq, Structural)]
pub enum ProtocolError {
    /// The first byte of a request frame names no operation.
    UnknownOperation,
    /// The frame ends before a field that it announces does.
    TruncatedFrame,
    /// A text field does not hold well-formed UTF-8.
    InvalidText,
    /// A field is longer than a 32-bit length prefix can announce.
    OversizedField,
}

impl ProtocolError {
    /// What went wrong, in words.
    pub open spec fn text(self) -> Seq<char> {
        match self {
            ProtocolError::UnknownOperation => "Invalid operation"@,
            ProtocolError::TruncatedFrame => "Truncated frame"@,
            ProtocolError::InvalidText => "Invalid UTF-8 sequence"@,
            ProtocolError::OversizedField => "Field too long"@,
        }
    }

    /// What went wrong, in words, for messages to the user.
    pub fn describe(&self) -> (res: &'static str)
        ensures
            res@ == self.text(),
    {
        match self {
            ProtocolError::UnknownOperation => "Invalid operation",
            ProtocolError::TruncatedFrame => "Truncated frame",
            ProtocolError::InvalidText => "Invalid UTF-8 sequence",
            ProtocolError::OversizedField => "Field too long",
        }
    }
}

} // verus!
