//! The server's dispatcher: from a request to the action on the file store
//! that answers it, and from what the store reports to the response.
//!
//! The store itself is the caller's. The dispatcher names the entry to work
//! on, says what is to be done with it, and words the answer.

use vstd::prelude::*;
use vstd::string::StringExecFns;
use crate::message::Operation;
use crate::message::Request;
use crate::message::RequestView;
use crate::message::Response;
use crate::message::ResponseView;

verus! {

/// The directory under which the server keeps its files.
pub open spec fn store_root() -> Seq<char> {
    "files"@
}

/// Where the server keeps the file of the given name: under the store root.
pub open spec fn store_path_of(filename: Seq<char>) -> Seq<char> {
    "files/"@ + filename
}

/// What the dispatcher asks of the file store.
#[derive(Clone, Debug, PartialEq, Eq)]
pub enum StoreAction {
    /// Open the entry at `path` and read it in full.
    Fetch { path: String },
    /// Make sure the directories above `path` exist, create or truncate the
    /// entry, write `bytes` in full and flush.
    Put { path: String, bytes: Vec<u8> },
    /// Remove the entry at `path`.
    Remove { path: String },
    /// Enumerate the entries directly under `root`.
    Enumerate { root: String },
}

/// A store action as contracts see it.
pub enum StoreActionView {
    Fetch { path: Seq<char> },
    Put { path: Seq<char>, bytes: Seq<u8> },
    Remove { path: Seq<char> },
    Enumerate { root: Seq<char> },
}

impl View for StoreAction {
    type V = StoreActionView;

    open spec fn view(&self) -> StoreActionView {
        match self {
            StoreAction::Fetch { path } => StoreActionView::Fetch { path: path@ },
            StoreAction::Put { path, bytes } => StoreActionView::Put { path: path@, bytes: bytes@ },
            StoreAction::Remove { path } => StoreActionView::Remove { path: path@ },
            StoreAction::Enumerate { root } => StoreActionView::Enumerate { root: root@ },
        }
    }
}

/// The action that answers a request.
pub open spec fn action_for(r: RequestView) -> StoreActionView {
    match r.op {
        Operation::READ => StoreActionView::Fetch { path: store_path_of(r.filename) },
        Operation::WRITE => StoreActionView::Put {
            path: store_path_of(r.filename),
            bytes: r.filebytes,
        },
        Operation::DELETE => StoreActionView::Remove { path: store_path_of(r.filename) },
        Operation::LIST => StoreActionView::Enumerate { root: store_root() },
    }
}

/// The path of the named file in the store.
pub fn store_path(filename: &str) -> (path: String)
    ensures
        path@ == store_path_of(filename@),
{
    let root = String::from_str("files/");
    root.concat(filename)
}

/// Decides what the store is to do for a request.
pub fn plan_request(req: &Request) -> (action: StoreAction)
    ensures
        action@ == action_for(req@),
{
    match req.op {
        Operation::READ => StoreAction::Fetch { path: store_path(req.filename.as_str()) },
        Operation::WRITE => {
            let bytes = req.filebytes.clone();
            assert(bytes@ =~= req.filebytes@);
            StoreAction::Put { path: store_path(req.filename.as_str()), bytes }
        },
        Operation::DELETE => StoreAction::Remove { path: store_path(req.filename.as_str()) },
        Operation::LIST => StoreAction::Enumerate { root: String::from_str("files") },
    }
}

/// One entry of the store as an enumeration reports it.
#[derive(Clone, Debug, PartialEq, Eq)]
pub struct StoreEntry {
    /// The entry as it is to be listed.
    pub path: String,
    /// Whether the entry is a regular file; only those are listed.
    pub is_file: bool,
}

/// What the file store reports of an action.
#[derive(Clone, Debug, PartialEq, Eq)]
pub enum StoreOutcome {
    /// The entry was opened; this is its whole content.
    Contents(Vec<u8>),
    /// The entry could not be opened.
    Missing,
    /// The entry was written and flushed.
    Stored,
    /// The entry was removed.
    Removed,
    /// The entry could not be removed.
    NotRemoved,
    /// The entries directly under the store root, in the order the store
    /// gave them.
    Entries(Vec<StoreEntry>),
}

/// The line of one entry in a listing: its path and a line feed for a
/// regular file, nothing for anything else.
pub open spec fn listing_line(entry: StoreEntry) -> Seq<char> {
    if entry.is_file {
        entry.path@.push('\n')
    } else {
        Seq::<char>::empty()
    }
}

/// The listing of some entries: the lines of the regular files among them,
/// in order.
pub open spec fn listing_text(entries: Seq<StoreEntry>) -> Seq<char>
    decreases entries.len(),
{
    if entries.len() == 0 {
        Seq::<char>::empty()
    } else {
        listing_text(entries.drop_last()) + listing_line(entries.last())
    }
}

/// The response that words an outcome, for a request about `filename`.
pub open spec fn response_for(filename: Seq<char>, outcome: StoreOutcome) -> ResponseView {
    match outcome {
        StoreOutcome::Contents(bytes) => ResponseView {
            ok: true,
            msg: "File successfully returned."@,
            filename: Some(filename),
            filebytes: Some(bytes@),
        },
        StoreOutcome::Missing => ResponseView {
            ok: false,
            msg: "File not found on server."@,
            filename: None,
            filebytes: None,
        },
        StoreOutcome::Stored => ResponseView {
            ok: true,
            msg: "File successfully stored."@,
            filename: None,
            filebytes: None,
        },
        StoreOutcome::Removed => ResponseView {
            ok: true,
            msg: "File successfully deleted."@,
            filename: None,
            filebytes: None,
        },
        StoreOutcome::NotRemoved => ResponseView {
            ok: false,
            msg: "File could not be deleted."@,
            filename: None,
            filebytes: None,
        },
        StoreOutcome::Entries(entries) => ResponseView {
            ok: true,
            msg: listing_text(entries@),
            filename: None,
            filebytes: None,
        },
    }
}

/// Writes the listing of some entries, one regular file per line.
pub fn list_entries(entries: &Vec<StoreEntry>) -> (text: String)
    ensures
        text@ == listing_text(entries@),
{
    let mut text = String::new();
    let mut i: usize = 0;
    while i < entries.len()
        invariant
            i <= entries.len(),
            text@ == listing_text(entries@.take(i as int)),
        decreases entries.len() - i,
    {
        let ghost before = text@;
        let entry = &entries[i];
        if entry.is_file {
            text.append(entry.path.as_str());
            text.append("\n");
        }
        proof {
            reveal_strlit("\n");
            let next = entries@.take(i + 1);
            assert(next.drop_last() =~= entries@.take(i as int));
            assert(next.last() == entries@[i as int]);
            assert(text@ =~= before + listing_line(entries@[i as int]));
        }
        i = i + 1;
    }
    assert(entries@.take(i as int) =~= entries@);
    text
}

/// Words the response to a request from what the store reported of its
/// action.
pub fn respond(req: &Request, outcome: StoreOutcome) -> (res: Response)
    ensures
        res@ == response_for(req.filename@, outcome),
        res@.paired(),
        res@.carries_file() ==> res.ok && outcome is Contents,
{
    match outcome {
        StoreOutcome::Contents(bytes) => Response {
            ok: true,
            msg: String::from_str("File successfully returned."),
            filename: Some(req.filename.clone()),
            filebytes: Some(bytes),
        },
        StoreOutcome::Missing => Response {
            ok: false,
            msg: String::from_str("File not found on server."),
            filename: None,
            filebytes: None,
        },
        StoreOutcome::Stored => Response {
            ok: true,
            msg: String::from_str("File successfully stored."),
            filename: None,
            filebytes: None,
        },
        StoreOutcome::Removed => Response {
            ok: true,
            msg: String::from_str("File successfully deleted."),
            filename: None,
            filebytes: None,
        },
        StoreOutcome::NotRemoved => Response {
            ok: false,
            msg: String::from_str("File could not be deleted."),
            filename: None,
            filebytes: None,
        },
        StoreOutcome::Entries(entries) => Response {
            ok: true,
            msg: list_entries(&entries),
            filename: None,
            filebytes: None,
        },
    }
}

} // verus!
