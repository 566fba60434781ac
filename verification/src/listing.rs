//! Reading a listing back: the lines of the text that the dispatcher writes
//! are the paths that went into it.

use vstd::prelude::*;
use crate::dispatch::listing_line;
use crate::dispatch::listing_text;
use crate::dispatch::StoreEntry;

verus! {

/// The position of the first line feed in `text`; its length where it has
/// none.
pub open spec fn line_end(text: Seq<char>) -> int
    decreases text.len(),
{
    if text.len() == 0 || text[0] == '\n' {
        0
    } else {
        1 + line_end(text.drop_first())
    }
}

/// The lines of a text: what stands before each line feed, and what is left
/// behind the last one if anything is.
pub open spec fn lines_of(text: Seq<char>) -> Seq<Seq<char>>
    decreases text.len(),
{
    if text.len() == 0 {
        Seq::<Seq<char>>::empty()
    } else {
        let end = line_end(text);
        if end < 0 || end >= text.len() {
            seq![text]
        } else {
            seq![text.take(end)] + lines_of(text.skip(end + 1))
        }
    }
}

/// The paths of some entries, in order.
pub open spec fn paths_of(entries: Seq<StoreEntry>) -> Seq<Seq<char>> {
    Seq::new(entries.len(), |i: int| entries[i].path@)
}

/// Whether every entry is a regular file whose path holds no line feed.
pub open spec fn plain_files(entries: Seq<StoreEntry>) -> bool {
    forall|i: int|
        0 <= i < entries.len() ==> (#[trigger] entries[i]).is_file && !entries[i].path@.contains(
            '\n',
        )
}

/// A line without a line feed, followed by one, ends where the line does.
pub proof fn lemma_line_end(line: Seq<char>, rest: Seq<char>)
    requires
        !line.contains('\n'),
    ensures
        line_end(line.push('\n') + rest) == line.len(),
    decreases line.len(),
{
    let text = line.push('\n') + rest;
    if line.len() == 0 {
        assert(text[0] == '\n');
    } else {
        assert(line.contains(line[0]));
        assert(text[0] == line[0]);
        let shorter = line.drop_first();
        assert forall|c: char| shorter.contains(c) implies line.contains(c) by {
            let k = choose|k: int| 0 <= k < shorter.len() && shorter[k] == c;
            assert(line[k + 1] == c);
        }
        lemma_line_end(shorter, rest);
        assert(text.drop_first() =~= shorter.push('\n') + rest);
    }
}

/// The listing of some entries is the line of the first, then the listing
/// of the others.
pub proof fn lemma_listing_from_front(entries: Seq<StoreEntry>)
    requires
        entries.len() > 0,
    ensures
        listing_text(entries) == listing_line(entries[0]) + listing_text(entries.drop_first()),
    decreases entries.len(),
{
    if entries.len() == 1 {
        assert(entries.drop_last() =~= Seq::<StoreEntry>::empty());
        assert(entries.drop_first() =~= Seq::<StoreEntry>::empty());
        assert(listing_text(entries) =~= listing_line(entries[0]) + listing_text(
            entries.drop_first(),
        ));
    } else {
        let shorter = entries.drop_last();
        lemma_listing_from_front(shorter);
        assert(shorter.drop_first() =~= entries.drop_first().drop_last());
        assert(entries.drop_first().last() == entries.last());
        assert(shorter[0] == entries[0]);
        assert(listing_text(entries) =~= listing_line(entries[0]) + listing_text(
            entries.drop_first(),
        ));
    }
}

/// A listing reads back: where the entries are regular files whose paths
/// hold no line feed, the lines of their listing are their paths, in order.
pub proof fn lemma_listing_lines(entries: Seq<StoreEntry>)
    requires
        plain_files(entries),
    ensures
        lines_of(listing_text(entries)) == paths_of(entries),
    decreases entries.len(),
{
    if entries.len() == 0 {
        assert(lines_of(listing_text(entries)) =~= paths_of(entries));
    } else {
        let first = entries[0];
        let others = entries.drop_first();
        let rest = listing_text(others);
        lemma_listing_from_front(entries);
        assert(plain_files(others)) by {
            assert forall|i: int| 0 <= i < others.len() implies (#[trigger] others[i]).is_file
                && !others[i].path@.contains('\n') by {
                assert(others[i] == entries[i + 1]);
            }
        }
        lemma_listing_lines(others);
        let text = first.path@.push('\n') + rest;
        assert(listing_text(entries) == text);
        lemma_line_end(first.path@, rest);
        let end = first.path@.len() as int;
        assert(text.take(end) =~= first.path@);
        assert(text.skip(end + 1) =~= rest);
        assert(lines_of(text) =~= seq![first.path@] + paths_of(others));
        assert(seq![first.path@] + paths_of(others) =~= paths_of(entries));
    }
}

} // verus!
