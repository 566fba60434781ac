//! The building blocks of a frame: big-endian 32-bit lengths and
//! length-prefixed fields.

use vstd::prelude::*;
use vstd::slice::slice_subrange;
use vstd::slice::slice_to_vec;

verus! {

/// The largest byte count that a length prefix can announce.
pub const MAX_FIELD_LEN: usize = 0xFFFF_FFFF;

/// Number of bytes in a length prefix.
pub const LEN_PREFIX: usize = 4;

/// The four bytes of `n`, most significant first.
#[verifier::opaque]
pub open spec fn be32(n: nat) -> Seq<u8>
    recommends
        n <= 0xFFFF_FFFF,
{
    seq![
        (n / 0x100_0000) as u8,
        ((n / 0x1_0000) % 0x100) as u8,
        ((n / 0x100) % 0x100) as u8,
        (n % 0x100) as u8,
    ]
}

/// The number that four bytes spell, most significant first.
pub open spec fn be32_value(b0: u8, b1: u8, b2: u8, b3: u8) -> nat {
    (b0 as nat) * 0x100_0000 + (b1 as nat) * 0x1_0000 + (b2 as nat) * 0x100 + (b3 as nat)
}

/// The number spelled by the four bytes of `data` that start at `pos`.
pub open spec fn be32_at(data: Seq<u8>, pos: int) -> nat
    recommends
        0 <= pos,
        pos + 4 <= data.len(),
{
    be32_value(data[pos], data[pos + 1], data[pos + 2], data[pos + 3])
}

/// A field as it stands in a frame: the length of `bytes`, then `bytes`.
pub open spec fn field(bytes: Seq<u8>) -> Seq<u8>
    recommends
        bytes.len() <= 0xFFFF_FFFF,
{
    be32(bytes.len()) + bytes
}

/// Whether a whole field stands in `data` at `pos`: its length prefix and as
/// many bytes as the prefix announces.
pub open spec fn field_fits(data: Seq<u8>, pos: int) -> bool {
    &&& 0 <= pos
    &&& pos + 4 <= data.len()
    &&& pos + 4 + be32_at(data, pos) <= data.len()
}

/// The content of the field at `pos`, without its length prefix.
pub open spec fn field_bytes(data: Seq<u8>, pos: int) -> Seq<u8>
    recommends
        field_fits(data, pos),
{
    data.subrange(pos + 4, pos + 4 + be32_at(data, pos))
}

/// The position just behind the field at `pos`.
pub open spec fn field_end(data: Seq<u8>, pos: int) -> int
    recommends
        field_fits(data, pos),
{
    pos + 4 + be32_at(data, pos)
}

/// Reading back the bytes of a number gives the number.
pub proof fn lemma_be32_value(n: nat)
    requires
        n <= 0xFFFF_FFFF,
    ensures
        be32(n).len() == 4,
        be32_value(be32(n)[0], be32(n)[1], be32(n)[2], be32(n)[3]) == n,
{
    reveal(be32);
}

/// Four bytes never spell more than a length prefix can hold, and writing
/// the number they spell gives the same four bytes.
pub proof fn lemma_be32_of_value(b0: u8, b1: u8, b2: u8, b3: u8)
    ensures
        be32_value(b0, b1, b2, b3) <= 0xFFFF_FFFF,
        be32(be32_value(b0, b1, b2, b3)) == seq![b0, b1, b2, b3],
{
    reveal(be32);
    let low: int = b1 * 0x1_0000 + b2 * 0x100 + b3;
    let v: int = b0 * 0x100_0000 + low;
    assert(v == be32_value(b0, b1, b2, b3));
    assert(v / 0x100_0000 == b0) by {
        assert(0 <= low < 0x100_0000);
    }
    let mid: int = b2 * 0x100 + b3;
    let top: int = b0 * 0x100 + b1;
    assert(v == top * 0x1_0000 + mid);
    assert(v / 0x1_0000 == top) by {
        assert(0 <= mid < 0x1_0000);
    }
    assert(top % 0x100 == b1);
    let upper: int = top * 0x100 + b2;
    assert(v == upper * 0x100 + b3);
    assert(v / 0x100 == upper);
    assert(upper % 0x100 == b2);
    assert(v % 0x100 == b3);
    assert(be32(be32_value(b0, b1, b2, b3)) =~= seq![b0, b1, b2, b3]);
}

/// A field is four bytes longer than its content.
pub proof fn lemma_field_len(bytes: Seq<u8>)
    ensures
        field(bytes).len() == 4 + bytes.len(),
{
    reveal(be32);
}

/// A field written at the end of `head` can be read back at that position,
/// whatever follows it.
pub proof fn lemma_field_read_back(head: Seq<u8>, bytes: Seq<u8>, tail: Seq<u8>)
    requires
        bytes.len() <= 0xFFFF_FFFF,
    ensures
        field_fits(head + field(bytes) + tail, head.len() as int),
        field_bytes(head + field(bytes) + tail, head.len() as int) == bytes,
        field_end(head + field(bytes) + tail, head.len() as int) == head.len() + 4 + bytes.len(),
{
    let data = head + field(bytes) + tail;
    let pos = head.len() as int;
    lemma_be32_value(bytes.len());
    lemma_field_len(bytes);
    assert(data[pos] == be32(bytes.len())[0]);
    assert(data[pos + 1] == be32(bytes.len())[1]);
    assert(data[pos + 2] == be32(bytes.len())[2]);
    assert(data[pos + 3] == be32(bytes.len())[3]);
    assert(be32_at(data, pos) == bytes.len());
    assert(field_bytes(data, pos) =~= bytes);
}

/// Two fields written one behind the other at the end of `head` can be read
/// back in turn, whatever follows them.
pub proof fn lemma_two_fields_read_back(
    head: Seq<u8>,
    first: Seq<u8>,
    second: Seq<u8>,
    tail: Seq<u8>,
)
    requires
        first.len() <= 0xFFFF_FFFF,
        second.len() <= 0xFFFF_FFFF,
    ensures
        ({
            let data = head + field(first) + field(second) + tail;
            let pos = head.len() as int;
            let mid = pos + 4 + first.len();
            &&& data.len() == mid + 4 + second.len() + tail.len()
            &&& field_fits(data, pos)
            &&& field_bytes(data, pos) == first
            &&& field_end(data, pos) == mid
            &&& field_fits(data, mid)
            &&& field_bytes(data, mid) == second
            &&& field_end(data, mid) == mid + 4 + second.len()
        }),
{
    let data = head + field(first) + field(second) + tail;
    lemma_field_len(first);
    lemma_field_len(second);
    lemma_field_read_back(head, first, field(second) + tail);
    assert(data =~= head + field(first) + (field(second) + tail));
    lemma_field_read_back(head + field(first), second, tail);
}

/// Appends the four bytes of `n`, most significant first.
pub fn push_be32(out: &mut Vec<u8>, n: u32)
    ensures
        final(out)@ == old(out)@ + be32(n as nat),
{
    out.push((n / 0x100_0000) as u8);
    out.push(((n / 0x1_0000) % 0x100) as u8);
    out.push(((n / 0x100) % 0x100) as u8);
    out.push((n % 0x100) as u8);
    reveal(be32);
    assert(out@ =~= old(out)@ + be32(n as nat));
}

/// Appends a copy of `bytes`.
pub fn push_bytes(out: &mut Vec<u8>, bytes: &[u8])
    ensures
        final(out)@ == old(out)@ + bytes@,
{
    out.extend_from_slice(bytes);
    assert(out@ =~= old(out)@ + bytes@);
}

/// Appends `bytes` as a field: its length, then its content. A field longer
/// than a length prefix can announce is not written.
pub fn push_field(out: &mut Vec<u8>, bytes: &[u8]) -> (written: bool)
    ensures
        written <==> bytes@.len() <= MAX_FIELD_LEN,
        written ==> final(out)@ == old(out)@ + field(bytes@),
        !written ==> final(out)@ == old(out)@,
{
    if bytes.len() > MAX_FIELD_LEN {
        return false;
    }
    push_be32(out, bytes.len() as u32);
    push_bytes(out, bytes);
    assert(out@ =~= old(out)@ + field(bytes@));
    true
}

/// Reads the length prefix that starts at `pos`.
pub fn read_be32(data: &[u8], pos: usize) -> (n: u32)
    requires
        pos + 4 <= data@.len(),
    ensures
        n == be32_at(data@, pos as int),
{
    let b0: u32 = data[pos] as u32;
    let b1: u32 = data[pos + 1] as u32;
    let b2: u32 = data[pos + 2] as u32;
    let b3: u32 = data[pos + 3] as u32;
    b0 * 0x100_0000 + b1 * 0x1_0000 + b2 * 0x100 + b3
}

/// Reads the field that starts at `pos`: its content and the position
/// behind it, or `None` where the frame ends before the field does.
pub fn read_field(data: &[u8], pos: usize) -> (res: Option<(Vec<u8>, usize)>)
    requires
        pos <= data@.len(),
    ensures
        res is Some <==> field_fits(data@, pos as int),
        res matches Some((bytes, end)) ==> bytes@ == field_bytes(data@, pos as int) && end
            == field_end(data@, pos as int),
{
    let left: usize = data.len() - pos;
    if left < LEN_PREFIX {
        return None;
    }
    let n: u32 = read_be32(data, pos);
    let start: usize = pos + LEN_PREFIX;
    if (n as u64) > ((data.len() - start) as u64) {
        return None;
    }
    let end: usize = start + n as usize;
    let bytes = slice_to_vec(slice_subrange(data, start, end));
    Some((bytes, end))
}

} // verus!
