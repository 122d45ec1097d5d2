//! GGUF metadata reads the same wherever its bytes stand: entries that are
//! taken over from a source file byte for byte are read back from the new
//! file as they are read from the source.

use vstd::prelude::*;
use crate::error::ModelErrorView;
use crate::gguf::{
    left, parse_items, parse_items_advance, parse_value, parse_value_advances, take_bytes,
    take_string, take_u32, take_u64, Parsed, ValueView, GGUF_TYPE_ARRAY, GGUF_TYPE_BOOL,
    GGUF_TYPE_FLOAT32, GGUF_TYPE_FLOAT64, GGUF_TYPE_INT16, GGUF_TYPE_INT32, GGUF_TYPE_INT64,
    GGUF_TYPE_INT8, GGUF_TYPE_STRING, GGUF_TYPE_UINT16, GGUF_TYPE_UINT32, GGUF_TYPE_UINT64,
    GGUF_TYPE_UINT8,
};
use crate::gguf_file::{data_start, parse_entries, parse_entry, parse_file};
use crate::gguf_laws::{
    occurs, occurs_split, padding_aligns, reads_fixed_part, reads_tensors, tensors_as_read,
    tensors_readable,
};
use crate::gguf_write::{
    gguf_prelude, padding_for, source_metadata, table_bytes, unpadded_header,
};
use crate::precompute::OutputTensorView;

verus! {

/// The bytes of `a` from `from` up to `to` stand in `b` from `at` on.
pub open spec fn stands_at(a: Seq<u8>, from: int, to: int, b: Seq<u8>, at: int) -> bool {
    &&& 0 <= from <= to <= a.len()
    &&& occurs(b, at, a.subrange(from, to))
}

/// Where a run of bytes stands, so does what is left of it from a later
/// position on.
pub proof fn stands_further(a: Seq<u8>, from: int, mid: int, to: int, b: Seq<u8>, at: int)
    requires
        stands_at(a, from, to, b, at),
        from <= mid <= to,
    ensures
        stands_at(a, mid, to, b, at + (mid - from)),
{
    let head = a.subrange(from, mid);
    let tail = a.subrange(mid, to);
    assert(a.subrange(from, to) =~= head + tail);
    occurs_split(b, at, head, tail);
}

/// Bytes that are taken within a run are the same where the run stands.
pub proof fn moved_bytes(a: Seq<u8>, from: int, n: int, to: int, b: Seq<u8>, at: int)
    requires
        stands_at(a, from, to, b, at),
        0 <= n,
        from + n <= to,
    ensures
        take_bytes(a, from, n) == Ok::<(Seq<u8>, int), ModelErrorView>(
            (a.subrange(from, from + n), from + n),
        ),
        take_bytes(b, at, n) == Ok::<(Seq<u8>, int), ModelErrorView>(
            (a.subrange(from, from + n), at + n),
        ),
{
    let head = a.subrange(from, from + n);
    let tail = a.subrange(from + n, to);
    assert(a.subrange(from, to) =~= head + tail);
    occurs_split(b, at, head, tail);
}

/// A string is the same where its bytes stand.
pub proof fn moved_string(a: Seq<u8>, from: int, to: int, b: Seq<u8>, at: int)
    requires
        stands_at(a, from, to, b, at),
        take_string(a, from) is Ok,
        take_string(a, from)->Ok_0.1 <= to,
    ensures
        take_string(b, at) == Ok::<(Seq<char>, int), ModelErrorView>(
            (take_string(a, from)->Ok_0.0, at + (take_string(a, from)->Ok_0.1 - from)),
        ),
{
    let n = take_u64(a, from)->Ok_0.0 as usize;
    moved_bytes(a, from, 8, to, b, at);
    stands_further(a, from, from + 8, to, b, at);
    moved_bytes(a, from + 8, n as int, to, b, at + 8);
}

/// The number of bytes of a value of a type of fixed size; 0 for the other
/// types.
pub open spec fn fixed_size(tag: u32) -> int {
    if tag == GGUF_TYPE_UINT8 || tag == GGUF_TYPE_INT8 || tag == GGUF_TYPE_BOOL {
        1
    } else if tag == GGUF_TYPE_UINT16 || tag == GGUF_TYPE_INT16 {
        2
    } else if tag == GGUF_TYPE_UINT32 || tag == GGUF_TYPE_INT32 || tag == GGUF_TYPE_FLOAT32 {
        4
    } else if tag == GGUF_TYPE_UINT64 || tag == GGUF_TYPE_INT64 || tag == GGUF_TYPE_FLOAT64 {
        8
    } else {
        0
    }
}

/// A value is the same where its bytes stand.
pub proof fn moved_value(a: Seq<u8>, from: int, tag: u32, to: int, b: Seq<u8>, at: int)
    requires
        stands_at(a, from, to, b, at),
        parse_value(a, from, tag) is Ok,
        parse_value(a, from, tag)->Ok_0.1 <= to,
    ensures
        parse_value(b, at, tag) == Ok::<(ValueView, int), ModelErrorView>(
            (parse_value(a, from, tag)->Ok_0.0, at + (parse_value(a, from, tag)->Ok_0.1 - from)),
        ),
    decreases left(a, from), 0nat,
{
    if tag == GGUF_TYPE_STRING {
        moved_string(a, from, to, b, at);
    } else if tag == GGUF_TYPE_ARRAY {
        let item_tag = take_u32(a, from)->Ok_0.0;
        let count = take_u64(a, from + 4)->Ok_0.0 as usize;
        parse_items_advance(a, from + 12, item_tag, count as nat);
        moved_bytes(a, from, 4, to, b, at);
        stands_further(a, from, from + 4, to, b, at);
        moved_bytes(a, from + 4, 8, to, b, at + 4);
        stands_further(a, from, from + 12, to, b, at);
        moved_items(a, from + 12, item_tag, count as nat, to, b, at + 12);
    } else {
        moved_bytes(a, from, fixed_size(tag), to, b, at);
    }
}

/// The items of an array are the same where their bytes stand.
pub proof fn moved_items(
    a: Seq<u8>,
    from: int,
    tag: u32,
    count: nat,
    to: int,
    b: Seq<u8>,
    at: int,
)
    requires
        stands_at(a, from, to, b, at),
        parse_items(a, from, tag, count) is Ok,
        parse_items(a, from, tag, count)->Ok_0.1 <= to,
    ensures
        parse_items(b, at, tag, count) == Ok::<(Seq<ValueView>, int), ModelErrorView>(
            (
                parse_items(a, from, tag, count)->Ok_0.0,
                at + (parse_items(a, from, tag, count)->Ok_0.1 - from),
            ),
        ),
    decreases left(a, from), count,
{
    if count > 0 {
        let before = (count - 1) as nat;
        let p = parse_items(a, from, tag, before)->Ok_0.1;
        parse_items_advance(a, from, tag, before);
        parse_value_advances(a, p, tag);
        moved_items(a, from, tag, before, to, b, at);
        stands_further(a, from, p, to, b, at);
        moved_value(a, p, tag, to, b, at + (p - from));
    }
}

/// A metadata entry that was read ends behind where it begins, and within
/// the data.
pub proof fn parse_entry_advances(data: Seq<u8>, pos: int)
    requires
        0 <= pos,
        parse_entry(data, pos) is Ok,
    ensures
        pos < parse_entry(data, pos)->Ok_0.1 <= data.len(),
{
    let p = take_string(data, pos)->Ok_0.1;
    let tag = take_u32(data, p)->Ok_0.0;
    parse_value_advances(data, p + 4, tag);
}

/// One metadata entry is the same where its bytes stand.
pub proof fn moved_entry(a: Seq<u8>, from: int, to: int, b: Seq<u8>, at: int)
    requires
        stands_at(a, from, to, b, at),
        parse_entry(a, from) is Ok,
        parse_entry(a, from)->Ok_0.1 <= to,
    ensures
        parse_entry(b, at) == Ok::<((Seq<char>, ValueView), int), ModelErrorView>(
            (parse_entry(a, from)->Ok_0.0, at + (parse_entry(a, from)->Ok_0.1 - from)),
        ),
{
    let p = take_string(a, from)->Ok_0.1;
    let tag = take_u32(a, p)->Ok_0.0;
    parse_value_advances(a, p + 4, tag);
    moved_string(a, from, to, b, at);
    stands_further(a, from, p, to, b, at);
    moved_bytes(a, p, 4, to, b, at + (p - from));
    stands_further(a, from, p + 4, to, b, at);
    moved_value(a, p + 4, tag, to, b, at + (p + 4 - from));
}

/// `parse_entry`, taken as a whole.
#[verifier::opaque]
spec fn entry_of(data: Seq<u8>, pos: int) -> Parsed<(Seq<char>, ValueView)> {
    parse_entry(data, pos)
}

/// `parse_entries`, taken as a whole.
#[verifier::opaque]
spec fn entries_of(data: Seq<u8>, pos: int, count: nat) -> Parsed<Seq<(Seq<char>, ValueView)>> {
    parse_entries(data, pos, count)
}

/// How the entries are read one after the other.
proof fn entries_step(data: Seq<u8>, pos: int, count: nat)
    ensures
        entries_of(data, pos, count) == (if count == 0 {
            Ok::<(Seq<(Seq<char>, ValueView)>, int), ModelErrorView>((Seq::empty(), pos))
        } else {
            match entries_of(data, pos, (count - 1) as nat) {
                Err(e) => Err(e),
                Ok((entries, p)) => match entry_of(data, p) {
                    Err(e) => Err(e),
                    Ok((entry, q)) => Ok((entries.push(entry), q)),
                },
            }
        }),
{
    reveal(entries_of);
    reveal(entry_of);
}

proof fn entry_advances(data: Seq<u8>, pos: int)
    requires
        0 <= pos,
        entry_of(data, pos) is Ok,
    ensures
        pos < entry_of(data, pos)->Ok_0.1 <= data.len(),
{
    reveal(entry_of);
    parse_entry_advances(data, pos);
}

proof fn entry_moved(a: Seq<u8>, from: int, to: int, b: Seq<u8>, at: int)
    requires
        stands_at(a, from, to, b, at),
        entry_of(a, from) is Ok,
        entry_of(a, from)->Ok_0.1 <= to,
    ensures
        entry_of(b, at) == Ok::<((Seq<char>, ValueView), int), ModelErrorView>(
            (entry_of(a, from)->Ok_0.0, at + (entry_of(a, from)->Ok_0.1 - from)),
        ),
{
    reveal(entry_of);
    moved_entry(a, from, to, b, at);
}

proof fn entries_advance(data: Seq<u8>, pos: int, count: nat)
    requires
        0 <= pos <= data.len(),
        entries_of(data, pos, count) is Ok,
    ensures
        pos <= entries_of(data, pos, count)->Ok_0.1 <= data.len(),
        entries_of(data, pos, count)->Ok_0.0.len() == count,
    decreases count,
{
    entries_step(data, pos, count);
    if count > 0 {
        let before = (count - 1) as nat;
        entries_advance(data, pos, before);
        entry_advances(data, entries_of(data, pos, before)->Ok_0.1);
    }
}

proof fn entries_moved(a: Seq<u8>, from: int, count: nat, to: int, b: Seq<u8>, at: int)
    requires
        stands_at(a, from, to, b, at),
        entries_of(a, from, count) is Ok,
        entries_of(a, from, count)->Ok_0.1 <= to,
    ensures
        entries_of(b, at, count) == Ok::<(Seq<(Seq<char>, ValueView)>, int), ModelErrorView>(
            (
                entries_of(a, from, count)->Ok_0.0,
                at + (entries_of(a, from, count)->Ok_0.1 - from),
            ),
        ),
    decreases count,
{
    entries_step(a, from, count);
    entries_step(b, at, count);
    if count > 0 {
        let before = (count - 1) as nat;
        let p = entries_of(a, from, before)->Ok_0.1;
        entries_advance(a, from, before);
        entry_advances(a, p);
        entries_moved(a, from, before, to, b, at);
        stands_further(a, from, p, to, b, at);
        entry_moved(a, p, to, b, at + (p - from));
    }
}

/// Metadata entries that were read end at or behind where they begin, and
/// within the data.
pub proof fn parse_entries_advance(data: Seq<u8>, pos: int, count: nat)
    requires
        0 <= pos <= data.len(),
        parse_entries(data, pos, count) is Ok,
    ensures
        pos <= parse_entries(data, pos, count)->Ok_0.1 <= data.len(),
        parse_entries(data, pos, count)->Ok_0.0.len() == count,
{
    reveal(entries_of);
    entries_advance(data, pos, count);
}

/// Metadata entries are the same where their bytes stand.
pub proof fn moved_entries(a: Seq<u8>, from: int, count: nat, to: int, b: Seq<u8>, at: int)
    requires
        stands_at(a, from, to, b, at),
        parse_entries(a, from, count) is Ok,
        parse_entries(a, from, count)->Ok_0.1 <= to,
    ensures
        parse_entries(b, at, count) == Ok::<(Seq<(Seq<char>, ValueView)>, int), ModelErrorView>(
            (
                parse_entries(a, from, count)->Ok_0.0,
                at + (parse_entries(a, from, count)->Ok_0.1 - from),
            ),
        ),
{
    reveal(entries_of);
    entries_moved(a, from, count, to, b, at);
}

/// A file that starts with a header that the writer has made of tensors
/// and of the metadata of a source file, taken over byte for byte, is read
/// back with these tensors and with the metadata entries of the source
/// file, and its tensor data starts where the header ends.
pub proof fn transplanted_metadata_reads_back(
    source: Seq<u8>,
    tensors: Seq<OutputTensorView>,
    data: Seq<u8>,
)
    requires
        parse_file(source) is Ok,
        tensors_readable(tensors),
        tensors.len() <= u64::MAX,
    ensures
        source_metadata(source) is Ok,
        ({
            let from = parse_file(source)->Ok_0;
            let taken = source_metadata(source)->Ok_0;
            let prelude = gguf_prelude(tensors, taken.0, taken.1);
            &&& parse_file(prelude + data) matches Ok(read)
            &&& read.version == 3
            &&& read.metadata_count == from.metadata_count
            &&& read.metadata == from.metadata
            &&& read.tensor_count == tensors.len()
            &&& read.tensors == tensors_as_read(tensors)
            &&& data_start(read.header_end) == prelude.len()
        }),
{
    let from = parse_file(source)->Ok_0;
    let start = from.metadata_start;
    let end = from.metadata_end;
    let count = from.metadata_count;
    parse_entries_advance(source, start, count as nat);
    let kv = source.subrange(start, end);
    let table = table_bytes(tensors);
    let head = unpadded_header(tensors, count, kv);
    let prelude = gguf_prelude(tensors, count, kv);
    let file = prelude + data;
    assert(file.subrange(0, head.len() as int) =~= head);
    reads_fixed_part(file, tensors.len() as u64, count, kv, table);
    moved_entries(source, start, count as nat, end, file, 24);
    reads_tensors(file, 24 + kv.len() as int, tensors);
    padding_aligns(head.len());
    assert(prelude.len() == head.len() + padding_for(head.len()));
}

} // verus!
