//! What the GGUF writer writes, the GGUF reader reads back.

use vstd::prelude::*;
use vstd::utf8::{encode_utf8, encode_utf8_decode_utf8, encode_utf8_valid_utf8};
use crate::error::ModelErrorView;
use crate::gguf::{
    parse_items, parse_value, take_bytes, take_string, take_u32, take_u64, ValueView,
    MAX_ARRAY_ITEMS, MAX_STRING_BYTES,
};
use crate::gguf_file::{
    data_start, magic, parse_dims, parse_entries, parse_entry, parse_file, parse_tensor,
    parse_tensors, GgufFileView, GgufTensorView,
};
use crate::gguf_write::{
    dims_bytes, entries_bytes, gguf_prelude, padding_for, patterns, string_bytes, strings_bytes,
    table_bytes, tensor_bytes, unpadded_header, value_bytes, words_bytes, MetaEntries,
    MetaValueView,
};
use crate::output::{bytes_u32, bytes_u64, u32_round_trip, u64_round_trip};
use crate::precompute::OutputTensorView;

verus! {

/// The bytes `bytes` stand in `data` from the position `pos` on.
pub open spec fn occurs(data: Seq<u8>, pos: int, bytes: Seq<u8>) -> bool {
    &&& 0 <= pos
    &&& pos + bytes.len() <= data.len()
    &&& data.subrange(pos, pos + bytes.len()) == bytes
}

/// Where two runs of bytes stand one after the other, each of them stands
/// at its place.
pub proof fn occurs_split(data: Seq<u8>, pos: int, a: Seq<u8>, b: Seq<u8>)
    requires
        occurs(data, pos, a + b),
    ensures
        occurs(data, pos, a),
        occurs(data, pos + a.len(), b),
{
    let whole = data.subrange(pos, pos + (a + b).len());
    assert(data.subrange(pos, pos + a.len()) =~= a) by {
        assert forall|i: int| 0 <= i < a.len() implies data[pos + i] == a[i] by {
            assert(whole[i] == (a + b)[i]);
        }
    }
    assert(data.subrange(pos + a.len(), pos + a.len() + b.len()) =~= b) by {
        assert forall|i: int| 0 <= i < b.len() implies data[pos + a.len() + i] == b[i] by {
            assert(whole[a.len() + i] == (a + b)[a.len() + i]);
        }
    }
}

/// Bytes that stand at a position are read there.
pub proof fn reads_bytes(data: Seq<u8>, pos: int, bytes: Seq<u8>)
    requires
        occurs(data, pos, bytes),
    ensures
        take_bytes(data, pos, bytes.len() as int) == Ok::<(Seq<u8>, int), ModelErrorView>(
            (bytes, pos + bytes.len()),
        ),
{
}

/// A 32-bit number that was written is read back.
pub proof fn reads_u32(data: Seq<u8>, pos: int, x: u32)
    requires
        occurs(data, pos, bytes_u32(x)),
    ensures
        take_u32(data, pos) == Ok::<(u32, int), ModelErrorView>((x, pos + 4)),
{
    u32_round_trip(x);
}

/// A 64-bit number that was written is read back.
pub proof fn reads_u64(data: Seq<u8>, pos: int, x: u64)
    requires
        occurs(data, pos, bytes_u64(x)),
    ensures
        take_u64(data, pos) == Ok::<(u64, int), ModelErrorView>((x, pos + 8)),
{
    u64_round_trip(x);
}

/// The string is short enough to be read.
pub open spec fn short(s: Seq<char>) -> bool {
    encode_utf8(s).len() <= MAX_STRING_BYTES
}

/// A short string that was written is read back.
pub proof fn reads_string(data: Seq<u8>, pos: int, s: Seq<char>)
    requires
        occurs(data, pos, string_bytes(s)),
        short(s),
    ensures
        take_string(data, pos) == Ok::<(Seq<char>, int), ModelErrorView>(
            (s, pos + string_bytes(s).len()),
        ),
        string_bytes(s).len() == 8 + encode_utf8(s).len(),
{
    let text = encode_utf8(s);
    let n = text.len() as u64;
    u64_round_trip(n);
    occurs_split(data, pos, bytes_u64(n), text);
    reads_u64(data, pos, n);
    reads_bytes(data, pos + 8, text);
    encode_utf8_valid_utf8(s);
    encode_utf8_decode_utf8(s);
}

// ---------------------------------------------------------------------------
// Values
// ---------------------------------------------------------------------------

/// The tag of the type of a value.
pub open spec fn tag_of(v: MetaValueView) -> u32 {
    match v {
        MetaValueView::String(_) => 8,
        MetaValueView::U32(_) => 4,
        MetaValueView::F32(_) => 6,
        _ => 9,
    }
}

/// The value as the reader gives it.
pub open spec fn as_read(v: MetaValueView) -> ValueView {
    match v {
        MetaValueView::String(s) => ValueView::String(s),
        MetaValueView::U32(x) => ValueView::Uint32(x),
        MetaValueView::F32(x) => ValueView::Float32(x),
        MetaValueView::StringArray(a) => ValueView::Array(a.map_values(|s: Seq<char>| ValueView::String(s))),
        MetaValueView::F32Array(a) => ValueView::Array(a.map_values(|x: u32| ValueView::Float32(x))),
        MetaValueView::I32Array(a) => ValueView::Array(a.map_values(|x: i32| ValueView::Int32(x))),
    }
}

/// The value can be read back: its strings are short and its arrays not
/// too long.
pub open spec fn readable(v: MetaValueView) -> bool {
    match v {
        MetaValueView::String(s) => short(s),
        MetaValueView::U32(_) => true,
        MetaValueView::F32(_) => true,
        MetaValueView::StringArray(a) => a.len() <= MAX_ARRAY_ITEMS && forall|i: int|
            0 <= i < a.len() ==> short(#[trigger] a[i]),
        MetaValueView::F32Array(a) => a.len() <= MAX_ARRAY_ITEMS,
        MetaValueView::I32Array(a) => a.len() <= MAX_ARRAY_ITEMS,
    }
}

proof fn reads_strings(data: Seq<u8>, pos: int, items: Seq<Seq<char>>)
    requires
        occurs(data, pos, strings_bytes(items)),
        forall|i: int| 0 <= i < items.len() ==> short(#[trigger] items[i]),
    ensures
        parse_items(data, pos, 8, items.len()) == Ok::<(Seq<ValueView>, int), ModelErrorView>(
            (
                items.map_values(|s: Seq<char>| ValueView::String(s)),
                pos + strings_bytes(items).len(),
            ),
        ),
    decreases items.len(),
{
    let out = items.map_values(|s: Seq<char>| ValueView::String(s));
    if items.len() == 0 {
        assert(out =~= Seq::<ValueView>::empty());
    } else {
        let rest = items.drop_last();
        occurs_split(data, pos, strings_bytes(rest), string_bytes(items.last()));
        reads_strings(data, pos, rest);
        let p = pos + strings_bytes(rest).len();
        reads_string(data, p, items.last());
        let q = p + string_bytes(items.last()).len();
        assert(parse_items(data, pos, 8, rest.len()) == Ok::<(Seq<ValueView>, int), ModelErrorView>(
            (rest.map_values(|s: Seq<char>| ValueView::String(s)), p),
        ));
        assert(parse_value(data, p, 8) == Ok::<(ValueView, int), ModelErrorView>(
            (ValueView::String(items.last()), q),
        ));
        assert((items.len() - 1) as nat == rest.len());
        assert(pos <= p <= data.len());
        assert(rest.map_values(|s: Seq<char>| ValueView::String(s)).push(
            ValueView::String(items.last()),
        ) =~= out);
        assert(parse_items(data, pos, 8, items.len()) == Ok::<(Seq<ValueView>, int), ModelErrorView>(
            (
                rest.map_values(|s: Seq<char>| ValueView::String(s)).push(
                    ValueView::String(items.last()),
                ),
                q,
            ),
        ));
    }
}

proof fn reads_floats(data: Seq<u8>, pos: int, items: Seq<u32>)
    requires
        occurs(data, pos, words_bytes(items)),
    ensures
        parse_items(data, pos, 6, items.len()) == Ok::<(Seq<ValueView>, int), ModelErrorView>(
            (items.map_values(|x: u32| ValueView::Float32(x)), pos + 4 * items.len()),
        ),
        words_bytes(items).len() == 4 * items.len(),
    decreases items.len(),
{
    let out = items.map_values(|x: u32| ValueView::Float32(x));
    if items.len() == 0 {
        assert(out =~= Seq::<ValueView>::empty());
    } else {
        let rest = items.drop_last();
        u32_round_trip(items.last());
        words_len(rest);
        occurs_split(data, pos, words_bytes(rest), bytes_u32(items.last()));
        reads_floats(data, pos, rest);
        let p = pos + 4 * rest.len();
        reads_u32(data, p, items.last());
        assert(parse_items(data, pos, 6, rest.len()) == Ok::<(Seq<ValueView>, int), ModelErrorView>(
            (rest.map_values(|x: u32| ValueView::Float32(x)), p),
        ));
        assert(parse_value(data, p, 6) == Ok::<(ValueView, int), ModelErrorView>(
            (ValueView::Float32(items.last()), p + 4),
        ));
        assert((items.len() - 1) as nat == rest.len());
        assert(pos <= p <= data.len());
        assert(rest.map_values(|x: u32| ValueView::Float32(x)).push(
            ValueView::Float32(items.last()),
        ) =~= out);
        assert(parse_items(data, pos, 6, items.len()) == Ok::<(Seq<ValueView>, int), ModelErrorView>(
            (rest.map_values(|x: u32| ValueView::Float32(x)).push(ValueView::Float32(items.last())), p + 4),
        ));
    }
}

proof fn words_len(items: Seq<u32>)
    ensures
        words_bytes(items).len() == 4 * items.len(),
    decreases items.len(),
{
    if items.len() > 0 {
        words_len(items.drop_last());
        u32_round_trip(items.last());
    }
}

proof fn reads_signed(data: Seq<u8>, pos: int, items: Seq<i32>)
    requires
        occurs(data, pos, words_bytes(patterns(items))),
    ensures
        parse_items(data, pos, 5, items.len()) == Ok::<(Seq<ValueView>, int), ModelErrorView>(
            (items.map_values(|x: i32| ValueView::Int32(x)), pos + 4 * items.len()),
        ),
    decreases items.len(),
{
    let out = items.map_values(|x: i32| ValueView::Int32(x));
    if items.len() == 0 {
        assert(out =~= Seq::<ValueView>::empty());
    } else {
        let rest = items.drop_last();
        let last = items.last();
        let word = #[verifier::truncate]
        (last as u32);
        assert(patterns(items).drop_last() =~= patterns(rest));
        assert(patterns(items).last() == word);
        u32_round_trip(word);
        words_len(patterns(rest));
        occurs_split(data, pos, words_bytes(patterns(rest)), bytes_u32(word));
        reads_signed(data, pos, rest);
        let p = pos + 4 * rest.len();
        reads_u32(data, p, word);
        assert(word as i32 == last) by (bit_vector)
            requires
                word == last as u32,
        ;
        assert(parse_items(data, pos, 5, rest.len()) == Ok::<(Seq<ValueView>, int), ModelErrorView>(
            (rest.map_values(|x: i32| ValueView::Int32(x)), p),
        ));
        assert(parse_value(data, p, 5) == Ok::<(ValueView, int), ModelErrorView>(
            (ValueView::Int32(last), p + 4),
        ));
        assert((items.len() - 1) as nat == rest.len());
        assert(pos <= p <= data.len());
        assert(rest.map_values(|x: i32| ValueView::Int32(x)).push(ValueView::Int32(last)) =~= out);
        assert(parse_items(data, pos, 5, items.len()) == Ok::<(Seq<ValueView>, int), ModelErrorView>(
            (rest.map_values(|x: i32| ValueView::Int32(x)).push(ValueView::Int32(last)), p + 4),
        ));
    }
}

/// A value that the writer has written is read back as it was: first its
/// tag, then the value.
pub proof fn reads_value(data: Seq<u8>, pos: int, v: MetaValueView)
    requires
        occurs(data, pos, value_bytes(v)),
        readable(v),
    ensures
        take_u32(data, pos) == Ok::<(u32, int), ModelErrorView>((tag_of(v), pos + 4)),
        parse_value(data, pos + 4, tag_of(v)) == Ok::<(ValueView, int), ModelErrorView>(
            (as_read(v), pos + value_bytes(v).len()),
        ),
{
    match v {
        MetaValueView::String(s) => {
            u32_round_trip(8);
            occurs_split(data, pos, bytes_u32(8), string_bytes(s));
            reads_u32(data, pos, 8);
            reads_string(data, pos + 4, s);
        },
        MetaValueView::U32(x) => {
            u32_round_trip(4);
            u32_round_trip(x);
            occurs_split(data, pos, bytes_u32(4), bytes_u32(x));
            reads_u32(data, pos, 4);
            reads_u32(data, pos + 4, x);
        },
        MetaValueView::F32(x) => {
            u32_round_trip(6);
            u32_round_trip(x);
            occurs_split(data, pos, bytes_u32(6), bytes_u32(x));
            reads_u32(data, pos, 6);
            reads_u32(data, pos + 4, x);
        },
        MetaValueView::StringArray(a) => {
            reads_array_head(data, pos, 8, a.len(), strings_bytes(a));
            reads_strings(data, pos + 16, a);
        },
        MetaValueView::F32Array(a) => {
            reads_array_head(data, pos, 6, a.len(), words_bytes(a));
            reads_floats(data, pos + 16, a);
        },
        MetaValueView::I32Array(a) => {
            reads_array_head(data, pos, 5, a.len(), words_bytes(patterns(a)));
            reads_signed(data, pos + 16, a);
            words_len(patterns(a));
        },
    }
}

/// The head of an array is read back: the tag of arrays, the tag of the
/// items, and the number of items.
proof fn reads_array_head(data: Seq<u8>, pos: int, item_tag: u32, count: nat, items: Seq<u8>)
    requires
        occurs(data, pos, bytes_u32(9) + bytes_u32(item_tag) + bytes_u64(count as u64) + items),
        count <= MAX_ARRAY_ITEMS,
    ensures
        take_u32(data, pos) == Ok::<(u32, int), ModelErrorView>((9u32, pos + 4)),
        take_u32(data, pos + 4) == Ok::<(u32, int), ModelErrorView>((item_tag, pos + 8)),
        take_u64(data, pos + 8) == Ok::<(u64, int), ModelErrorView>((count as u64, pos + 16)),
        occurs(data, pos + 16, items),
        (bytes_u32(9) + bytes_u32(item_tag) + bytes_u64(count as u64) + items).len() == 16
            + items.len(),
{
    u32_round_trip(9);
    u32_round_trip(item_tag);
    u64_round_trip(count as u64);
    let head = bytes_u32(9) + bytes_u32(item_tag) + bytes_u64(count as u64);
    occurs_split(data, pos, head, items);
    occurs_split(data, pos, bytes_u32(9) + bytes_u32(item_tag), bytes_u64(count as u64));
    occurs_split(data, pos, bytes_u32(9), bytes_u32(item_tag));
    reads_u32(data, pos, 9);
    reads_u32(data, pos + 4, item_tag);
    reads_u64(data, pos + 8, count as u64);
}

// ---------------------------------------------------------------------------
// Entries
// ---------------------------------------------------------------------------

/// The entries as the reader gives them.
pub open spec fn entries_as_read(entries: MetaEntries) -> Seq<(Seq<char>, ValueView)> {
    Seq::new(entries.len(), |i: int| (entries[i].0, as_read(entries[i].1)))
}

/// Every entry can be read back.
pub open spec fn entries_readable(entries: MetaEntries) -> bool {
    forall|i: int|
        0 <= i < entries.len() ==> short((#[trigger] entries[i]).0) && readable(entries[i].1)
}

/// One entry that the writer has written is read back as it was.
pub proof fn reads_entry(data: Seq<u8>, pos: int, key: Seq<char>, value: MetaValueView)
    requires
        occurs(data, pos, string_bytes(key) + value_bytes(value)),
        short(key),
        readable(value),
    ensures
        parse_entry(data, pos) == Ok::<((Seq<char>, ValueView), int), ModelErrorView>(
            ((key, as_read(value)), pos + (string_bytes(key) + value_bytes(value)).len()),
        ),
{
    occurs_split(data, pos, string_bytes(key), value_bytes(value));
    reads_string(data, pos, key);
    reads_value(data, pos + string_bytes(key).len(), value);
}

/// The metadata that the writer has written is read back as it was.
pub proof fn reads_entries(data: Seq<u8>, pos: int, entries: MetaEntries)
    requires
        occurs(data, pos, entries_bytes(entries)),
        entries_readable(entries),
    ensures
        parse_entries(data, pos, entries.len()) == Ok::<
            (Seq<(Seq<char>, ValueView)>, int),
            ModelErrorView,
        >((entries_as_read(entries), pos + entries_bytes(entries).len())),
    decreases entries.len(),
{
    if entries.len() == 0 {
        assert(entries_as_read(entries) =~= Seq::<(Seq<char>, ValueView)>::empty());
    } else {
        let rest = entries.drop_last();
        let (key, value) = entries.last();
        let head = entries_bytes(rest);
        let tail = string_bytes(key) + value_bytes(value);
        assert(entries[entries.len() - 1] == entries.last());
        assert(entries_bytes(entries) =~= head + tail);
        occurs_split(data, pos, head, tail);
        reads_entries(data, pos, rest);
        reads_entry(data, pos + head.len(), key, value);
        assert((entries.len() - 1) as nat == rest.len());
        assert(entries_as_read(rest).push((key, as_read(value))) =~= entries_as_read(entries));
    }
}

// ---------------------------------------------------------------------------
// The tensor table
// ---------------------------------------------------------------------------

/// The dimensions as the reader gives them.
pub open spec fn dims_as_read(shape: Seq<usize>) -> Seq<u64> {
    shape.map_values(|d: usize| d as u64)
}

/// A tensor of the output as the reader gives it.
pub open spec fn tensor_as_read(t: OutputTensorView) -> GgufTensorView {
    GgufTensorView {
        name: t.name,
        shape: dims_as_read(t.shape),
        ggml_type: 0,
        offset: t.data_offset,
    }
}

/// The tensors as the reader gives them.
pub open spec fn tensors_as_read(tensors: Seq<OutputTensorView>) -> Seq<GgufTensorView> {
    Seq::new(tensors.len(), |i: int| tensor_as_read(tensors[i]))
}

/// Every tensor can be read back: its name is short, and the number of its
/// dimensions fits in 32 bits.
pub open spec fn tensors_readable(tensors: Seq<OutputTensorView>) -> bool {
    forall|i: int|
        0 <= i < tensors.len() ==> short((#[trigger] tensors[i]).name) && tensors[i].shape.len()
            <= u32::MAX
}

proof fn reads_dims(data: Seq<u8>, pos: int, shape: Seq<usize>)
    requires
        occurs(data, pos, dims_bytes(shape)),
    ensures
        parse_dims(data, pos, shape.len()) == Ok::<(Seq<u64>, int), ModelErrorView>(
            (dims_as_read(shape), pos + 8 * shape.len()),
        ),
        dims_bytes(shape).len() == 8 * shape.len(),
    decreases shape.len(),
{
    if shape.len() == 0 {
        assert(dims_as_read(shape) =~= Seq::<u64>::empty());
    } else {
        let rest = shape.drop_last();
        let d = shape.last() as u64;
        u64_round_trip(d);
        dims_len(rest);
        occurs_split(data, pos, dims_bytes(rest), bytes_u64(d));
        reads_dims(data, pos, rest);
        reads_u64(data, pos + 8 * rest.len(), d);
        assert(dims_as_read(rest).push(d) =~= dims_as_read(shape));
    }
}

proof fn dims_len(shape: Seq<usize>)
    ensures
        dims_bytes(shape).len() == 8 * shape.len(),
    decreases shape.len(),
{
    if shape.len() > 0 {
        dims_len(shape.drop_last());
        u64_round_trip(shape.last() as u64);
    }
}

proof fn reads_tensor(data: Seq<u8>, pos: int, t: OutputTensorView)
    requires
        occurs(data, pos, tensor_bytes(t)),
        short(t.name),
        t.shape.len() <= u32::MAX,
    ensures
        parse_tensor(data, pos) == Ok::<(GgufTensorView, int), ModelErrorView>(
            (tensor_as_read(t), pos + tensor_bytes(t).len()),
        ),
{
    let rank = t.shape.len() as u32;
    u32_round_trip(rank);
    u32_round_trip(0);
    u64_round_trip(t.data_offset);
    dims_len(t.shape);
    let a = string_bytes(t.name);
    let b = bytes_u32(rank);
    let c = dims_bytes(t.shape);
    let d = bytes_u32(0);
    let e = bytes_u64(t.data_offset);
    occurs_split(data, pos, a + b + c + d, e);
    occurs_split(data, pos, a + b + c, d);
    occurs_split(data, pos, a + b, c);
    occurs_split(data, pos, a, b);
    reads_string(data, pos, t.name);
    let at_rank = pos + a.len();
    reads_u32(data, at_rank, rank);
    reads_dims(data, at_rank + 4, t.shape);
    let at_type = at_rank + 4 + 8 * t.shape.len();
    reads_u32(data, at_type, 0);
    reads_u64(data, at_type + 4, t.data_offset);
}

/// The tensor table that the writer has written is read back as it was.
pub proof fn reads_tensors(data: Seq<u8>, pos: int, tensors: Seq<OutputTensorView>)
    requires
        occurs(data, pos, table_bytes(tensors)),
        tensors_readable(tensors),
    ensures
        parse_tensors(data, pos, tensors.len()) == Ok::<
            (Seq<GgufTensorView>, int),
            ModelErrorView,
        >((tensors_as_read(tensors), pos + table_bytes(tensors).len())),
    decreases tensors.len(),
{
    if tensors.len() == 0 {
        assert(tensors_as_read(tensors) =~= Seq::<GgufTensorView>::empty());
    } else {
        let rest = tensors.drop_last();
        assert(tensors[tensors.len() - 1] == tensors.last());
        occurs_split(data, pos, table_bytes(rest), tensor_bytes(tensors.last()));
        reads_tensors(data, pos, rest);
        reads_tensor(data, pos + table_bytes(rest).len(), tensors.last());
        assert(tensors_as_read(rest).push(tensor_as_read(tensors.last())) =~= tensors_as_read(
            tensors,
        ));
    }
}

// ---------------------------------------------------------------------------
// The file
// ---------------------------------------------------------------------------

/// The fixed part of a header is read back: the magic bytes, the version
/// and the two counts; behind it stand the metadata and the tensor table.
pub proof fn reads_fixed_part(file: Seq<u8>, tensor_count: u64, kv_count: u64, kv: Seq<u8>, table: Seq<u8>)
    requires
        occurs(
            file,
            0,
            magic() + bytes_u32(3) + bytes_u64(tensor_count) + bytes_u64(kv_count) + kv + table,
        ),
    ensures
        file.subrange(0, 4) == magic(),
        take_u32(file, 4) == Ok::<(u32, int), ModelErrorView>((3u32, 8int)),
        take_u64(file, 8) == Ok::<(u64, int), ModelErrorView>((tensor_count, 16int)),
        take_u64(file, 16) == Ok::<(u64, int), ModelErrorView>((kv_count, 24int)),
        occurs(file, 24, kv),
        occurs(file, 24 + kv.len() as int, table),
        (magic() + bytes_u32(3) + bytes_u64(tensor_count) + bytes_u64(kv_count) + kv + table).len()
            == 24 + kv.len() + table.len(),
{
    u32_round_trip(3);
    u64_round_trip(tensor_count);
    u64_round_trip(kv_count);
    let a = magic();
    let b = bytes_u32(3);
    let c = bytes_u64(tensor_count);
    let d = bytes_u64(kv_count);
    occurs_split(file, 0, a + b + c + d + kv, table);
    occurs_split(file, 0, a + b + c + d, kv);
    occurs_split(file, 0, a + b + c, d);
    occurs_split(file, 0, a + b, c);
    occurs_split(file, 0, a, b);
    reads_u32(file, 4, 3);
    reads_u64(file, 8, tensor_count);
    reads_u64(file, 16, kv_count);
}

/// The padding brings a length to the next multiple of 32.
pub proof fn padding_aligns(len: nat)
    ensures
        data_start(len as int) == len + padding_for(len),
{
}

/// A file that starts with a header that the writer has made of tensors
/// and metadata is read back with these tensors and this metadata, and its
/// tensor data starts where the header ends.
pub proof fn written_header_reads_back(
    tensors: Seq<OutputTensorView>,
    entries: MetaEntries,
    data: Seq<u8>,
)
    requires
        tensors_readable(tensors),
        entries_readable(entries),
        tensors.len() <= u64::MAX,
        entries.len() <= u64::MAX,
    ensures
        ({
            let prelude = gguf_prelude(tensors, entries.len() as u64, entries_bytes(entries));
            let head = unpadded_header(tensors, entries.len() as u64, entries_bytes(entries));
            parse_file(prelude + data) == Ok::<GgufFileView, ModelErrorView>(
                GgufFileView {
                    version: 3,
                    tensor_count: tensors.len() as u64,
                    metadata_count: entries.len() as u64,
                    metadata: entries_as_read(entries),
                    tensors: tensors_as_read(tensors),
                    metadata_start: 24,
                    metadata_end: 24 + entries_bytes(entries).len() as int,
                    header_end: head.len() as int,
                },
            )
        }),
        data_start(
            unpadded_header(tensors, entries.len() as u64, entries_bytes(entries)).len() as int,
        ) == gguf_prelude(tensors, entries.len() as u64, entries_bytes(entries)).len(),
{
    let kv_count = entries.len() as u64;
    let kv = entries_bytes(entries);
    let table = table_bytes(tensors);
    let head = unpadded_header(tensors, kv_count, kv);
    let prelude = gguf_prelude(tensors, kv_count, kv);
    let file = prelude + data;
    assert(file.subrange(0, head.len() as int) =~= head);
    assert(occurs(file, 0, head));
    reads_fixed_part(file, tensors.len() as u64, kv_count, kv, table);
    reads_entries(file, 24, entries);
    reads_tensors(file, 24 + kv.len() as int, tensors);
    assert(head.len() == 24 + kv.len() + table.len());
    padding_aligns(head.len());
    assert(prelude.len() == head.len() + padding_for(head.len()));
    assert(file.len() >= 24);
}

} // verus!
