//! What the dispatcher promises over a store that keeps its word.
//!
//! The file store is the caller's, and the dispatcher never sees it. What a
//! client may count on therefore rests on how the store answers. This
//! module writes that down: a store is taken as a map from paths to
//! contents, `reports` says which answers such a store may give to an
//! action, and the laws below say what the dispatcher then tells the
//! client. They hold of every store that answers as `reports` says.

use vstd::prelude::*;
use crate::dispatch::action_for;
use crate::dispatch::response_for;
use crate::dispatch::store_path_of;
use crate::dispatch::StoreActionView;
use crate::dispatch::StoreEntry;
use crate::dispatch::StoreOutcome;
use crate::listing::lemma_listing_lines;
use crate::listing::lines_of;
use crate::listing::paths_of;
use crate::listing::plain_files;
use crate::message::Operation;
use crate::message::RequestView;

verus! {

/// Whether `entries` enumerates the files of a store: every entry is a
/// regular file of the store, every file of the store has an entry, and no
/// path comes twice. The order is the store's own.
pub open spec fn enumerates(entries: Seq<StoreEntry>, files: Map<Seq<char>, Seq<u8>>) -> bool {
    &&& forall|i: int|
        0 <= i < entries.len() ==> (#[trigger] entries[i]).is_file && files.contains_key(
            entries[i].path@,
        )
    &&& forall|path: Seq<char>| #[trigger]
        files.contains_key(path) ==> exists|i: int|
            0 <= i < entries.len() && (#[trigger] entries[i]).path@ == path
    &&& forall|i: int, j: int|
        0 <= i < j < entries.len() ==> (#[trigger] entries[i]).path@ != (#[trigger] entries[j]).path@
}

/// Whether a store that holds `files` may answer `action` with `outcome`.
/// A write that comes back at all has stored the content: a store that
/// cannot write fails the exchange instead of answering.
pub open spec fn reports(
    files: Map<Seq<char>, Seq<u8>>,
    action: StoreActionView,
    outcome: StoreOutcome,
) -> bool {
    match action {
        StoreActionView::Fetch { path } => if files.contains_key(path) {
            outcome matches StoreOutcome::Contents(bytes) && bytes@ == files[path]
        } else {
            outcome == StoreOutcome::Missing
        },
        StoreActionView::Put { path, bytes } => outcome == StoreOutcome::Stored,
        StoreActionView::Remove { path } => if files.contains_key(path) {
            outcome == StoreOutcome::Removed
        } else {
            outcome == StoreOutcome::NotRemoved
        },
        StoreActionView::Enumerate { root } => outcome matches StoreOutcome::Entries(entries)
            && enumerates(entries@, files),
    }
}

/// What a store that held `files` holds after `action`.
pub open spec fn files_after(files: Map<Seq<char>, Seq<u8>>, action: StoreActionView) -> Map<
    Seq<char>,
    Seq<u8>,
> {
    match action {
        StoreActionView::Fetch { path } => files,
        StoreActionView::Put { path, bytes } => files.insert(path, bytes),
        StoreActionView::Remove { path } => files.remove(path),
        StoreActionView::Enumerate { root } => files,
    }
}

/// What a store that held `files` holds after the actions of some requests,
/// taken in order.
pub open spec fn files_after_all(files: Map<Seq<char>, Seq<u8>>, requests: Seq<RequestView>) -> Map<
    Seq<char>,
    Seq<u8>,
>
    decreases requests.len(),
{
    if requests.len() == 0 {
        files
    } else {
        files_after(files_after_all(files, requests.drop_last()), action_for(requests.last()))
    }
}

/// A request to store `bytes` under `name`.
pub open spec fn write_of(name: Seq<char>, bytes: Seq<u8>) -> RequestView {
    RequestView { op: Operation::WRITE, filename: name, filebytes: bytes }
}

/// A request for the file `name`, by the given operation, without content.
pub open spec fn request_of(op: Operation, name: Seq<char>) -> RequestView {
    RequestView { op, filename: name, filebytes: Seq::<u8>::empty() }
}

/// Whether the requests are all writes, to names that differ from each
/// other.
pub open spec fn distinct_writes(requests: Seq<RequestView>) -> bool {
    &&& forall|i: int| 0 <= i < requests.len() ==> (#[trigger] requests[i]).op == Operation::WRITE
    &&& forall|i: int, j: int|
        0 <= i < j < requests.len() ==> (#[trigger] requests[i]).filename != (
        #[trigger] requests[j]).filename
}

/// Files of different names are kept at different paths.
pub proof fn lemma_store_path_injective(a: Seq<char>, b: Seq<char>)
    requires
        store_path_of(a) == store_path_of(b),
    ensures
        a == b,
{
    let root = "files/"@;
    assert(store_path_of(a).skip(root.len() as int) =~= a);
    assert(store_path_of(b).skip(root.len() as int) =~= b);
}

/// Store consistency: a write of `bytes` under `name` is answered with
/// success, and a read of `name` that follows it is answered with success,
/// the name, and exactly `bytes`.
pub proof fn lemma_read_after_write(
    files: Map<Seq<char>, Seq<u8>>,
    name: Seq<char>,
    bytes: Seq<u8>,
    written: StoreOutcome,
    read: StoreOutcome,
)
    requires
        reports(files, action_for(write_of(name, bytes)), written),
        reports(
            files_after(files, action_for(write_of(name, bytes))),
            action_for(request_of(Operation::READ, name)),
            read,
        ),
    ensures
        response_for(name, written).ok,
        response_for(name, read).ok,
        response_for(name, read).filename == Some(name),
        response_for(name, read).filebytes == Some(bytes),
{
}

/// Idempotent absence: a delete of a name that the store does not hold is
/// answered with a refusal and leaves the store as it was, so that a second
/// delete is answered in the same way.
pub proof fn lemma_delete_absent(
    files: Map<Seq<char>, Seq<u8>>,
    name: Seq<char>,
    first: StoreOutcome,
    second: StoreOutcome,
)
    requires
        !files.contains_key(store_path_of(name)),
        reports(files, action_for(request_of(Operation::DELETE, name)), first),
        reports(
            files_after(files, action_for(request_of(Operation::DELETE, name))),
            action_for(request_of(Operation::DELETE, name)),
            second,
        ),
    ensures
        !response_for(name, first).ok,
        !response_for(name, second).ok,
        response_for(name, second) == response_for(name, first),
        files_after(files, action_for(request_of(Operation::DELETE, name))) == files,
{
    let after = files_after(files, action_for(request_of(Operation::DELETE, name)));
    assert(after =~= files);
}

/// Isolation of writes: writes to names that differ from each other, in
/// whatever order they reach the store, are each answered with success;
/// afterwards the store holds for each name what was written under it, and
/// a read of that name is answered with exactly that.
pub proof fn lemma_distinct_writes_kept(
    files: Map<Seq<char>, Seq<u8>>,
    writes: Seq<RequestView>,
    i: int,
    written: StoreOutcome,
    read: StoreOutcome,
)
    requires
        distinct_writes(writes),
        0 <= i < writes.len(),
        reports(files_after_all(files, writes.take(i)), action_for(writes[i]), written),
        reports(
            files_after_all(files, writes),
            action_for(request_of(Operation::READ, writes[i].filename)),
            read,
        ),
    ensures
        response_for(writes[i].filename, written).ok,
        files_after_all(files, writes).contains_key(store_path_of(writes[i].filename)),
        files_after_all(files, writes)[store_path_of(writes[i].filename)] == writes[i].filebytes,
        response_for(writes[i].filename, read).ok,
        response_for(writes[i].filename, read).filename == Some(writes[i].filename),
        response_for(writes[i].filename, read).filebytes == Some(writes[i].filebytes),
{
    lemma_written_file_kept(files, writes, i);
}

/// After writes to names that differ from each other, the store holds for
/// each name what was written under it.
pub proof fn lemma_written_file_kept(
    files: Map<Seq<char>, Seq<u8>>,
    writes: Seq<RequestView>,
    i: int,
)
    requires
        distinct_writes(writes),
        0 <= i < writes.len(),
    ensures
        files_after_all(files, writes).contains_key(store_path_of(writes[i].filename)),
        files_after_all(files, writes)[store_path_of(writes[i].filename)] == writes[i].filebytes,
    decreases writes.len(),
{
    let earlier = writes.drop_last();
    let last = writes.last();
    assert(last.op == Operation::WRITE);
    if i < writes.len() - 1 {
        assert(distinct_writes(earlier)) by {
            assert forall|a: int| 0 <= a < earlier.len() implies (#[trigger] earlier[a]).op
                == Operation::WRITE by {
                assert(earlier[a] == writes[a]);
            }
            assert forall|a: int, b: int| 0 <= a < b < earlier.len() implies (
            #[trigger] earlier[a]).filename != (#[trigger] earlier[b]).filename by {
                assert(earlier[a] == writes[a]);
                assert(earlier[b] == writes[b]);
            }
        }
        lemma_written_file_kept(files, earlier, i);
        assert(earlier[i] == writes[i]);
        assert(writes[i].filename != writes[writes.len() - 1].filename);
        if store_path_of(writes[i].filename) == store_path_of(last.filename) {
            lemma_store_path_injective(writes[i].filename, last.filename);
        }
    }
}

/// Whether no path of the store holds a line feed.
pub open spec fn line_free(files: Map<Seq<char>, Seq<u8>>) -> bool {
    forall|path: Seq<char>| #[trigger] files.contains_key(path) ==> !path.contains('\n')
}

/// Listing completeness: after writes to names that differ from each
/// other, every listing that the store may give is answered with success,
/// and the path of each written name is exactly one line of the message.
/// This is said of stores whose paths hold no line feed: a path with one
/// would be read as two lines.
pub proof fn lemma_listing_complete(
    files: Map<Seq<char>, Seq<u8>>,
    writes: Seq<RequestView>,
    i: int,
    listed: StoreOutcome,
)
    requires
        distinct_writes(writes),
        0 <= i < writes.len(),
        line_free(files_after_all(files, writes)),
        reports(
            files_after_all(files, writes),
            action_for(request_of(Operation::LIST, Seq::<char>::empty())),
            listed,
        ),
    ensures
        response_for(Seq::<char>::empty(), listed).ok,
        ({
            let lines = lines_of(response_for(Seq::<char>::empty(), listed).msg);
            let path = store_path_of(writes[i].filename);
            &&& exists|j: int| 0 <= j < lines.len() && #[trigger] lines[j] == path
            &&& forall|j: int, k: int|
                0 <= j < lines.len() && 0 <= k < lines.len() && #[trigger] lines[j] == path
                    && #[trigger] lines[k] == path ==> j == k
        }),
{
    lemma_written_file_kept(files, writes, i);
    let after = files_after_all(files, writes);
    let path = store_path_of(writes[i].filename);
    assert(after.contains_key(path));
    let entries = listed->Entries_0@;
    assert(enumerates(entries, after));
    assert(plain_files(entries)) by {
        assert forall|j: int| 0 <= j < entries.len() implies (#[trigger] entries[j]).is_file
            && !entries[j].path@.contains('\n') by {
            assert(after.contains_key(entries[j].path@));
        }
    }
    lemma_listing_lines(entries);
    let lines = lines_of(response_for(Seq::<char>::empty(), listed).msg);
    assert(lines == paths_of(entries));
    let j = choose|j: int| 0 <= j < entries.len() && (#[trigger] entries[j]).path@ == path;
    assert(lines[j] == path);
    assert forall|a: int, b: int|
        0 <= a < lines.len() && 0 <= b < lines.len() && #[trigger] lines[a] == path
            && #[trigger] lines[b] == path implies a == b by {
        assert(entries[a].path@ == path);
        assert(entries[b].path@ == path);
    }
}

} // verus!
