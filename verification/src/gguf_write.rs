//! Writing the header of a GGUF file: magic, version 3, the counts, the
//! metadata, the tensor table, and the padding that aligns the tensor data
//! to 32 bytes.

use vstd::prelude::*;
use vstd::string::StringSliceAdditionalSpecFns;
use vstd::utf8::encode_utf8;
use crate::error::{ModelError, ModelErrorView};
use crate::gguf_file::{magic, parse, parse_file};
use crate::output::{bytes_u32, bytes_u64, push_bytes, push_u32, push_u64};
use crate::precompute::{entries_view, OutputTensorInfo, OutputTensorView};
use vstd::slice::slice_subrange;

verus! {

/// A metadata value that is written. Floating-point values are held as the
/// bits of single-precision numbers.
#[derive(Clone, Debug)]
pub enum GgufMetaValue {
    String(String),
    U32(u32),
    F32(u32),
    StringArray(Vec<String>),
    F32Array(Vec<u32>),
    I32Array(Vec<i32>),
}

/// The value of a `GgufMetaValue`, with lists in place of vectors and
/// sequences of characters in place of strings.
pub enum MetaValueView {
    String(Seq<char>),
    U32(u32),
    F32(u32),
    StringArray(Seq<Seq<char>>),
    F32Array(Seq<u32>),
    I32Array(Seq<i32>),
}

/// The texts of a list of strings.
pub open spec fn strings_view(s: Seq<String>) -> Seq<Seq<char>> {
    Seq::new(s.len(), |i: int| s[i]@)
}

impl View for GgufMetaValue {
    type V = MetaValueView;

    open spec fn view(&self) -> MetaValueView {
        match *self {
            GgufMetaValue::String(s) => MetaValueView::String(s@),
            GgufMetaValue::U32(x) => MetaValueView::U32(x),
            GgufMetaValue::F32(x) => MetaValueView::F32(x),
            GgufMetaValue::StringArray(a) => MetaValueView::StringArray(strings_view(a@)),
            GgufMetaValue::F32Array(a) => MetaValueView::F32Array(a@),
            GgufMetaValue::I32Array(a) => MetaValueView::I32Array(a@),
        }
    }
}

pub type MetaEntries = Seq<(Seq<char>, MetaValueView)>;

/// The values of a list of metadata entries.
pub open spec fn meta_entries_view(s: Seq<(String, GgufMetaValue)>) -> MetaEntries {
    Seq::new(s.len(), |i: int| (s[i].0@, s[i].1@))
}

// ---------------------------------------------------------------------------
// The bytes of values
// ---------------------------------------------------------------------------

/// A string as it is written: its length in bytes as a 64-bit number, then
/// its UTF-8 bytes.
pub open spec fn string_bytes(s: Seq<char>) -> Seq<u8> {
    bytes_u64(encode_utf8(s).len() as u64) + encode_utf8(s)
}

/// The strings of a list as they are written, one after the other.
pub open spec fn strings_bytes(items: Seq<Seq<char>>) -> Seq<u8>
    decreases items.len(),
{
    if items.len() == 0 {
        Seq::empty()
    } else {
        strings_bytes(items.drop_last()) + string_bytes(items.last())
    }
}

/// The 32-bit numbers of a list as they are written, one after the other.
pub open spec fn words_bytes(items: Seq<u32>) -> Seq<u8>
    decreases items.len(),
{
    if items.len() == 0 {
        Seq::empty()
    } else {
        words_bytes(items.drop_last()) + bytes_u32(items.last())
    }
}

/// The signed numbers as the 32-bit patterns that are written for them.
pub open spec fn patterns(items: Seq<i32>) -> Seq<u32> {
    items.map_values(|x: i32| x as u32)
}

/// A value as it is written: the tag of its type and the value; for an
/// array the tag 9, the tag of the items' type, the number of items as a
/// 64-bit number, and the items.
pub open spec fn value_bytes(v: MetaValueView) -> Seq<u8> {
    match v {
        MetaValueView::String(s) => bytes_u32(8) + string_bytes(s),
        MetaValueView::U32(x) => bytes_u32(4) + bytes_u32(x),
        MetaValueView::F32(x) => bytes_u32(6) + bytes_u32(x),
        MetaValueView::StringArray(a) => bytes_u32(9) + bytes_u32(8) + bytes_u64(a.len() as u64)
            + strings_bytes(a),
        MetaValueView::F32Array(a) => bytes_u32(9) + bytes_u32(6) + bytes_u64(a.len() as u64)
            + words_bytes(a),
        MetaValueView::I32Array(a) => bytes_u32(9) + bytes_u32(5) + bytes_u64(a.len() as u64)
            + words_bytes(patterns(a)),
    }
}

/// The metadata entries as they are written: each key as a string, then
/// its value.
pub open spec fn entries_bytes(entries: MetaEntries) -> Seq<u8>
    decreases entries.len(),
{
    if entries.len() == 0 {
        Seq::empty()
    } else {
        entries_bytes(entries.drop_last()) + string_bytes(entries.last().0) + value_bytes(
            entries.last().1,
        )
    }
}

/// Appends a string as it is written.
pub fn write_gguf_string(out: &mut Vec<u8>, s: &str)
    ensures
        final(out)@ == old(out)@ + string_bytes(s@),
{
    let bytes = s.as_bytes();
    push_u64(out, bytes.len() as u64);
    push_bytes(out, bytes);
    assert(out@ =~= old(out)@ + string_bytes(s@));
}

fn write_strings(out: &mut Vec<u8>, items: &Vec<String>)
    ensures
        final(out)@ == old(out)@ + strings_bytes(strings_view(items@)),
{
    let ghost list = strings_view(items@);
    let mut i: usize = 0;
    assert(list.take(0) =~= Seq::<Seq<char>>::empty());
    assert(out@ =~= old(out)@ + strings_bytes(list.take(0)));
    while i < items.len()
        invariant
            i <= items.len(),
            list == strings_view(items@),
            out@ == old(out)@ + strings_bytes(list.take(i as int)),
        decreases items.len() - i,
    {
        assert(list.take(i + 1).drop_last() =~= list.take(i as int));
        assert(list.take(i + 1).last() == items@[i as int]@);
        write_gguf_string(out, items[i].as_str());
        i = i + 1;
        assert(out@ =~= old(out)@ + strings_bytes(list.take(i as int)));
    }
    assert(list.take(i as int) =~= list);
}

fn write_words(out: &mut Vec<u8>, items: &Vec<u32>)
    ensures
        final(out)@ == old(out)@ + words_bytes(items@),
{
    let mut i: usize = 0;
    assert(items@.take(0) =~= Seq::<u32>::empty());
    assert(out@ =~= old(out)@ + words_bytes(items@.take(0)));
    while i < items.len()
        invariant
            i <= items.len(),
            out@ == old(out)@ + words_bytes(items@.take(i as int)),
        decreases items.len() - i,
    {
        assert(items@.take(i + 1).drop_last() =~= items@.take(i as int));
        push_u32(out, items[i]);
        i = i + 1;
        assert(out@ =~= old(out)@ + words_bytes(items@.take(i as int)));
    }
    assert(items@.take(i as int) =~= items@);
}

fn write_signed(out: &mut Vec<u8>, items: &Vec<i32>)
    ensures
        final(out)@ == old(out)@ + words_bytes(patterns(items@)),
{
    let ghost list = patterns(items@);
    let mut i: usize = 0;
    assert(list.take(0) =~= Seq::<u32>::empty());
    assert(out@ =~= old(out)@ + words_bytes(list.take(0)));
    while i < items.len()
        invariant
            i <= items.len(),
            list == patterns(items@),
            out@ == old(out)@ + words_bytes(list.take(i as int)),
        decreases items.len() - i,
    {
        assert(list.take(i + 1).drop_last() =~= list.take(i as int));
        assert(list.take(i + 1).last() == items@[i as int] as u32);
        push_u32(
            out,
            #[verifier::truncate]
            (items[i] as u32),
        );
        i = i + 1;
        assert(out@ =~= old(out)@ + words_bytes(list.take(i as int)));
    }
    assert(list.take(i as int) =~= list);
}

/// Appends a value as it is written.
pub fn write_gguf_value(out: &mut Vec<u8>, value: &GgufMetaValue)
    ensures
        final(out)@ == old(out)@ + value_bytes(value@),
{
    match value {
        GgufMetaValue::String(s) => {
            push_u32(out, 8);
            write_gguf_string(out, s.as_str());
        },
        GgufMetaValue::U32(x) => {
            push_u32(out, 4);
            push_u32(out, *x);
        },
        GgufMetaValue::F32(x) => {
            push_u32(out, 6);
            push_u32(out, *x);
        },
        GgufMetaValue::StringArray(a) => {
            push_u32(out, 9);
            push_u32(out, 8);
            push_u64(out, a.len() as u64);
            write_strings(out, a);
        },
        GgufMetaValue::F32Array(a) => {
            push_u32(out, 9);
            push_u32(out, 6);
            push_u64(out, a.len() as u64);
            write_words(out, a);
        },
        GgufMetaValue::I32Array(a) => {
            push_u32(out, 9);
            push_u32(out, 5);
            push_u64(out, a.len() as u64);
            write_signed(out, a);
        },
    }
    assert(final(out)@ =~= old(out)@ + value_bytes(value@));
}

fn write_entries(out: &mut Vec<u8>, entries: &Vec<(String, GgufMetaValue)>)
    ensures
        final(out)@ == old(out)@ + entries_bytes(meta_entries_view(entries@)),
{
    let ghost list = meta_entries_view(entries@);
    let mut i: usize = 0;
    assert(list.take(0) =~= Seq::<(Seq<char>, MetaValueView)>::empty());
    assert(out@ =~= old(out)@ + entries_bytes(list.take(0)));
    while i < entries.len()
        invariant
            i <= entries.len(),
            list == meta_entries_view(entries@),
            out@ == old(out)@ + entries_bytes(list.take(i as int)),
        decreases entries.len() - i,
    {
        assert(list.take(i + 1).drop_last() =~= list.take(i as int));
        assert(list.take(i + 1).last() == (entries@[i as int].0@, entries@[i as int].1@));
        write_gguf_string(out, entries[i].0.as_str());
        write_gguf_value(out, &entries[i].1);
        i = i + 1;
        assert(out@ =~= old(out)@ + entries_bytes(list.take(i as int)));
    }
    assert(list.take(i as int) =~= list);
}

// ---------------------------------------------------------------------------
// Metadata taken over from a source file
// ---------------------------------------------------------------------------

/// The metadata of a GGUF file as it stands in the file.
#[derive(Clone, Debug)]
pub struct GgufSourceMetadata {
    pub kv_count: u64,
    pub raw_kv_bytes: Vec<u8>,
}

/// The number of metadata entries of a file and the bytes that hold them.
pub open spec fn source_metadata(data: Seq<u8>) -> Result<(u64, Seq<u8>), ModelErrorView> {
    match parse_file(data) {
        Ok(file) => Ok(
            (file.metadata_count, data.subrange(file.metadata_start, file.metadata_end)),
        ),
        Err(e) => Err(e),
    }
}

/// Takes the metadata out of the GGUF file that `data` holds, as it stands
/// there.
pub fn extract_gguf_metadata(data: &[u8]) -> (r: Result<GgufSourceMetadata, ModelError>)
    ensures
        match r {
            Ok(m) => source_metadata(data@) == Ok::<(u64, Seq<u8>), ModelErrorView>(
                (m.kv_count, m.raw_kv_bytes@),
            ),
            Err(e) => source_metadata(data@) == Err::<(u64, Seq<u8>), ModelErrorView>(e@),
        },
{
    match parse(data) {
        Ok(file) => {
            let raw = slice_subrange(data, file.metadata_start, file.metadata_end);
            let mut bytes: Vec<u8> = Vec::new();
            push_bytes(&mut bytes, raw);
            assert(bytes@ =~= raw@);
            Ok(GgufSourceMetadata { kv_count: file.metadata_count, raw_kv_bytes: bytes })
        },
        Err(e) => Err(e),
    }
}

// ---------------------------------------------------------------------------
// The header
// ---------------------------------------------------------------------------

/// The dimensions of a shape as they are written: each as a 64-bit number.
pub open spec fn dims_bytes(shape: Seq<usize>) -> Seq<u8>
    decreases shape.len(),
{
    if shape.len() == 0 {
        Seq::empty()
    } else {
        dims_bytes(shape.drop_last()) + bytes_u64(shape.last() as u64)
    }
}

/// One entry of the tensor table as it is written: the name, the number of
/// dimensions, the dimensions, the type tag 0 of single-precision numbers,
/// and the offset of the data.
pub open spec fn tensor_bytes(t: OutputTensorView) -> Seq<u8> {
    string_bytes(t.name) + bytes_u32(t.shape.len() as u32) + dims_bytes(t.shape) + bytes_u32(0)
        + bytes_u64(t.data_offset)
}

/// The tensor table as it is written.
pub open spec fn table_bytes(tensors: Seq<OutputTensorView>) -> Seq<u8>
    decreases tensors.len(),
{
    if tensors.len() == 0 {
        Seq::empty()
    } else {
        table_bytes(tensors.drop_last()) + tensor_bytes(tensors.last())
    }
}

/// This many zero bytes.
pub open spec fn zeros(n: nat) -> Seq<u8> {
    Seq::new(n, |i: int| 0u8)
}

/// The number of bytes that bring a length to the next multiple of 32.
pub open spec fn padding_for(len: nat) -> nat {
    ((32 - len % 32) % 32) as nat
}

/// The header without its padding: magic, version 3, the number of
/// tensors, the number of metadata entries, the metadata, the tensor
/// table.
pub open spec fn unpadded_header(
    tensors: Seq<OutputTensorView>,
    kv_count: u64,
    kv_bytes: Seq<u8>,
) -> Seq<u8> {
    magic() + bytes_u32(3) + bytes_u64(tensors.len() as u64) + bytes_u64(kv_count) + kv_bytes
        + table_bytes(tensors)
}

/// The bytes that precede the tensor data of a GGUF file.
pub open spec fn gguf_prelude(
    tensors: Seq<OutputTensorView>,
    kv_count: u64,
    kv_bytes: Seq<u8>,
) -> Seq<u8> {
    let head = unpadded_header(tensors, kv_count, kv_bytes);
    head + zeros(padding_for(head.len()))
}

fn write_dims(out: &mut Vec<u8>, shape: &Vec<usize>)
    ensures
        final(out)@ == old(out)@ + dims_bytes(shape@),
{
    let mut i: usize = 0;
    assert(shape@.take(0) =~= Seq::<usize>::empty());
    assert(out@ =~= old(out)@ + dims_bytes(shape@.take(0)));
    while i < shape.len()
        invariant
            i <= shape.len(),
            out@ == old(out)@ + dims_bytes(shape@.take(i as int)),
        decreases shape.len() - i,
    {
        assert(shape@.take(i + 1).drop_last() =~= shape@.take(i as int));
        push_u64(out, shape[i] as u64);
        i = i + 1;
        assert(out@ =~= old(out)@ + dims_bytes(shape@.take(i as int)));
    }
    assert(shape@.take(i as int) =~= shape@);
}

fn write_tensor(out: &mut Vec<u8>, t: &OutputTensorInfo)
    ensures
        final(out)@ == old(out)@ + tensor_bytes(t@),
{
    write_gguf_string(out, t.name.as_str());
    push_u32(
        out,
        #[verifier::truncate]
        (t.shape.len() as u32),
    );
    write_dims(out, &t.shape);
    push_u32(out, 0);
    push_u64(out, t.data_offset);
    assert(out@ =~= old(out)@ + tensor_bytes(t@));
}

fn write_table(out: &mut Vec<u8>, tensors: &Vec<OutputTensorInfo>)
    ensures
        final(out)@ == old(out)@ + table_bytes(entries_view(tensors@)),
{
    let ghost list = entries_view(tensors@);
    let mut i: usize = 0;
    assert(list.take(0) =~= Seq::<OutputTensorView>::empty());
    assert(out@ =~= old(out)@ + table_bytes(list.take(0)));
    while i < tensors.len()
        invariant
            i <= tensors.len(),
            list == entries_view(tensors@),
            out@ == old(out)@ + table_bytes(list.take(i as int)),
        decreases tensors.len() - i,
    {
        assert(list.take(i + 1).drop_last() =~= list.take(i as int));
        assert(list.take(i + 1).last() == tensors@[i as int]@);
        write_tensor(out, &tensors[i]);
        i = i + 1;
        assert(out@ =~= old(out)@ + table_bytes(list.take(i as int)));
    }
    assert(list.take(i as int) =~= list);
}

fn write_padding(out: &mut Vec<u8>)
    ensures
        final(out)@ == old(out)@ + zeros(padding_for(old(out)@.len())),
        final(out)@.len() % 32 == 0,
{
    let rest: usize = out.len() % 32;
    let n: usize = (32 - rest) % 32;
    let mut i: usize = 0;
    while i < n
        invariant
            i <= n,
            n < 32,
            n == padding_for(old(out)@.len()),
            out@ == old(out)@ + zeros(i as nat),
        decreases n - i,
    {
        out.push(0);
        i = i + 1;
        assert(out@ =~= old(out)@ + zeros(i as nat));
    }
}

/// The bytes that precede the tensor data of a GGUF file whose metadata is
/// taken over from a source file.
pub fn gguf_header_from_source(tensors: &Vec<OutputTensorInfo>, source: &GgufSourceMetadata) -> (r:
    Vec<u8>)
    ensures
        r@ == gguf_prelude(entries_view(tensors@), source.kv_count, source.raw_kv_bytes@),
        r@.len() % 32 == 0,
{
    let mut out: Vec<u8> = Vec::new();
    let m: [u8; 4] = [0x47, 0x47, 0x55, 0x46];
    assert(m@ =~= magic());
    push_bytes(&mut out, m.as_slice());
    push_u32(&mut out, 3);
    push_u64(&mut out, tensors.len() as u64);
    push_u64(&mut out, source.kv_count);
    push_bytes(&mut out, source.raw_kv_bytes.as_slice());
    write_table(&mut out, tensors);
    assert(out@ =~= unpadded_header(
        entries_view(tensors@),
        source.kv_count,
        source.raw_kv_bytes@,
    ));
    write_padding(&mut out);
    out
}

/// The bytes that precede the tensor data of a GGUF file with the given
/// metadata.
pub fn gguf_header(tensors: &Vec<OutputTensorInfo>, metadata: &Vec<(String, GgufMetaValue)>) -> (r:
    Vec<u8>)
    ensures
        r@ == gguf_prelude(
            entries_view(tensors@),
            metadata@.len() as u64,
            entries_bytes(meta_entries_view(metadata@)),
        ),
        r@.len() % 32 == 0,
{
    let mut out: Vec<u8> = Vec::new();
    let m: [u8; 4] = [0x47, 0x47, 0x55, 0x46];
    assert(m@ =~= magic());
    push_bytes(&mut out, m.as_slice());
    push_u32(&mut out, 3);
    push_u64(&mut out, tensors.len() as u64);
    push_u64(&mut out, metadata.len() as u64);
    write_entries(&mut out, metadata);
    write_table(&mut out, tensors);
    assert(out@ =~= unpadded_header(
        entries_view(tensors@),
        metadata@.len() as u64,
        entries_bytes(meta_entries_view(metadata@)),
    ));
    write_padding(&mut out);
    out
}

} // verus!
