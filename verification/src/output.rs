//! Writing the headers of the output: the SafeTensors header and the GGUF
//! header with its metadata and tensor table.
//!
//! The tensors of the output are stored densely as single-precision
//! numbers, one after the other as the manifest lays them out. What is
//! produced here are the bytes that precede the tensor data.

use vstd::prelude::*;
use vstd::string::StringSliceAdditionalSpecFns;
use vstd::utf8::encode_utf8;
use crate::gguf::{le_u32, le_u64};
use crate::precompute::{entries_view, OutputTensorInfo, OutputTensorView};
use crate::text::{chars_of, decimal_text, push_decimal, push_text, string_of};

verus! {

// ---------------------------------------------------------------------------
// Little-endian numbers
// ---------------------------------------------------------------------------

/// The four bytes of a 32-bit number, the lowest first.
pub open spec fn bytes_u32(x: u32) -> Seq<u8> {
    seq![
        (x % 0x100) as u8,
        (x / 0x100 % 0x100) as u8,
        (x / 0x1_0000 % 0x100) as u8,
        (x / 0x100_0000 % 0x100) as u8,
    ]
}

/// The eight bytes of a 64-bit number, the lowest first.
pub open spec fn bytes_u64(x: u64) -> Seq<u8> {
    seq![
        (x % 0x100) as u8,
        (x / 0x100 % 0x100) as u8,
        (x / 0x1_0000 % 0x100) as u8,
        (x / 0x100_0000 % 0x100) as u8,
        (x / 0x1_0000_0000 % 0x100) as u8,
        (x / 0x100_0000_0000 % 0x100) as u8,
        (x / 0x1_0000_0000_0000 % 0x100) as u8,
        (x / 0x100_0000_0000_0000 % 0x100) as u8,
    ]
}

/// The bytes of a 32-bit number decode to the number.
pub proof fn u32_round_trip(x: u32)
    ensures
        le_u32(bytes_u32(x)) == x,
        bytes_u32(x).len() == 4,
{
    assert(x / 0x1_0000 == (x / 0x100) / 0x100) by (bit_vector);
    assert(x / 0x100_0000 == (x / 0x1_0000) / 0x100) by (bit_vector);
    assert(x / 0x100_0000 < 0x100) by (bit_vector);
}

/// The bytes of a 64-bit number decode to the number.
pub proof fn u64_round_trip(x: u64)
    ensures
        le_u64(bytes_u64(x)) == x,
        bytes_u64(x).len() == 8,
{
    let x1 = x / 0x100;
    let x2 = x / 0x1_0000;
    let x3 = x / 0x100_0000;
    let x4 = x / 0x1_0000_0000;
    let x5 = x / 0x100_0000_0000;
    let x6 = x / 0x1_0000_0000_0000;
    let x7 = x / 0x100_0000_0000_0000;
    assert(x / 0x1_0000 == (x / 0x100) / 0x100) by (bit_vector);
    assert(x / 0x100_0000 == (x / 0x1_0000) / 0x100) by (bit_vector);
    assert(x / 0x1_0000_0000 == (x / 0x100_0000) / 0x100) by (bit_vector);
    assert(x / 0x100_0000_0000 == (x / 0x1_0000_0000) / 0x100) by (bit_vector);
    assert(x / 0x1_0000_0000_0000 == (x / 0x100_0000_0000) / 0x100) by (bit_vector);
    assert(x / 0x100_0000_0000_0000 == (x / 0x1_0000_0000_0000) / 0x100) by (bit_vector);
    assert(x / 0x100_0000_0000_0000 < 0x100) by (bit_vector);
    assert(x == x1 * 0x100 + x % 0x100);
    assert(x1 == x2 * 0x100 + x1 % 0x100);
    assert(x2 == x3 * 0x100 + x2 % 0x100);
    assert(x3 == x4 * 0x100 + x3 % 0x100);
    assert(x4 == x5 * 0x100 + x4 % 0x100);
    assert(x5 == x6 * 0x100 + x5 % 0x100);
    assert(x6 == x7 * 0x100 + x6 % 0x100);
    assert(x7 % 0x100 == x7);
    let b = bytes_u64(x);
    assert(b[0] == x % 0x100);
    assert(b[1] == x1 % 0x100);
    assert(b[2] == x2 % 0x100);
    assert(b[3] == x3 % 0x100);
    assert(b[4] == x4 % 0x100);
    assert(b[5] == x5 % 0x100);
    assert(b[6] == x6 % 0x100);
    assert(b[7] == x7);
}

/// Appends the four bytes of `x`.
pub fn push_u32(out: &mut Vec<u8>, x: u32)
    ensures
        final(out)@ == old(out)@ + bytes_u32(x),
{
    out.push((x % 0x100) as u8);
    out.push((x / 0x100 % 0x100) as u8);
    out.push((x / 0x1_0000 % 0x100) as u8);
    out.push((x / 0x100_0000 % 0x100) as u8);
    assert(out@ =~= old(out)@ + bytes_u32(x));
}

/// Appends the eight bytes of `x`.
pub fn push_u64(out: &mut Vec<u8>, x: u64)
    ensures
        final(out)@ == old(out)@ + bytes_u64(x),
{
    out.push((x % 0x100) as u8);
    out.push((x / 0x100 % 0x100) as u8);
    out.push((x / 0x1_0000 % 0x100) as u8);
    out.push((x / 0x100_0000 % 0x100) as u8);
    out.push((x / 0x1_0000_0000 % 0x100) as u8);
    out.push((x / 0x100_0000_0000 % 0x100) as u8);
    out.push((x / 0x1_0000_0000_0000 % 0x100) as u8);
    out.push((x / 0x100_0000_0000_0000 % 0x100) as u8);
    assert(out@ =~= old(out)@ + bytes_u64(x));
}

/// Appends bytes.
pub fn push_bytes(out: &mut Vec<u8>, src: &[u8])
    ensures
        final(out)@ == old(out)@ + src@,
{
    let mut i: usize = 0;
    while i < src.len()
        invariant
            i <= src.len(),
            out@ == old(out)@ + src@.subrange(0, i as int),
        decreases src.len() - i,
    {
        out.push(src[i]);
        i = i + 1;
        assert(out@ =~= old(out)@ + src@.subrange(0, i as int));
    }
    assert(src@.subrange(0, src.len() as int) =~= src@);
}

// ---------------------------------------------------------------------------
// SafeTensors
// ---------------------------------------------------------------------------

/// The dimensions of a shape, written with commas between them.
pub open spec fn shape_text(shape: Seq<usize>) -> Seq<char>
    decreases shape.len(),
{
    if shape.len() == 0 {
        Seq::empty()
    } else if shape.len() == 1 {
        decimal_text(shape[0] as nat)
    } else {
        shape_text(shape.drop_last()) + ","@ + decimal_text(shape.last() as nat)
    }
}

/// The character that stands for a number below 16 in base sixteen.
pub open spec fn hex_digit(n: int) -> char {
    if n == 0 {
        '0'
    } else if n == 1 {
        '1'
    } else if n == 2 {
        '2'
    } else if n == 3 {
        '3'
    } else if n == 4 {
        '4'
    } else if n == 5 {
        '5'
    } else if n == 6 {
        '6'
    } else if n == 7 {
        '7'
    } else if n == 8 {
        '8'
    } else if n == 9 {
        '9'
    } else if n == 10 {
        'a'
    } else if n == 11 {
        'b'
    } else if n == 12 {
        'c'
    } else if n == 13 {
        'd'
    } else if n == 14 {
        'e'
    } else {
        'f'
    }
}

/// The character needs no escape inside a JSON string: it is neither the
/// quote nor the backslash nor a control character.
pub open spec fn is_plain(c: char) -> bool {
    c != '"' && c != '\\' && c as u32 >= 0x20
}

/// A character as it stands inside a JSON string: the quote and the
/// backslash behind a backslash, a control character as `\u00` and its
/// two hexadecimal digits, every other character as it is.
pub open spec fn escaped_char(c: char) -> Seq<char> {
    if c == '"' {
        seq!['\\', '"']
    } else if c == '\\' {
        seq!['\\', '\\']
    } else if (c as u32) < 0x20 {
        seq![
            '\\',
            'u',
            '0',
            '0',
            hex_digit((c as u32 / 16) as int),
            hex_digit((c as u32 % 16) as int),
        ]
    } else {
        seq![c]
    }
}

/// A text as it stands inside a JSON string.
pub open spec fn escaped(s: Seq<char>) -> Seq<char>
    decreases s.len(),
{
    if s.len() == 0 {
        Seq::empty()
    } else {
        escaped(s.drop_last()) + escaped_char(s.last())
    }
}

/// An escaped text holds no control character, and a text of plain
/// characters is its own escaped form.
pub proof fn escaped_is_printable(s: Seq<char>)
    ensures
        forall|i: int| 0 <= i < escaped(s).len() ==> (#[trigger] escaped(s)[i]) as u32 >= 0x20,
        (forall|i: int| 0 <= i < s.len() ==> is_plain(#[trigger] s[i])) ==> escaped(s) == s,
    decreases s.len(),
{
    if s.len() > 0 {
        let head = s.drop_last();
        escaped_is_printable(head);
        let tail = escaped_char(s.last());
        assert(forall|k: int| 0 <= k < tail.len() ==> (#[trigger] tail[k]) as u32 >= 0x20);
        assert forall|i: int| 0 <= i < escaped(s).len() implies (#[trigger] escaped(s)[i]) as u32
            >= 0x20 by {
            if i >= escaped(head).len() {
                assert(escaped(s)[i] == tail[i - escaped(head).len()]);
            } else {
                assert(escaped(s)[i] == escaped(head)[i]);
            }
        }
        if forall|i: int| 0 <= i < s.len() ==> is_plain(#[trigger] s[i]) {
            assert(is_plain(s[s.len() - 1]));
            assert forall|i: int| 0 <= i < head.len() implies is_plain(#[trigger] head[i]) by {
                assert(head[i] == s[i]);
            }
            assert(escaped(s) =~= s);
        }
    }
}

/// The member of the header that describes one tensor: its name as a JSON
/// string, the element type `F32`, its shape, and its byte range from its
/// offset on.
pub open spec fn member_text(t: OutputTensorView) -> Seq<char> {
    "\""@ + escaped(t.name) + "\":{\"dtype\":\"F32\",\"shape\":["@ + shape_text(t.shape)
        + "],\"data_offsets\":["@ + decimal_text(t.data_offset as nat) + ","@ + decimal_text(
        (t.data_offset + t.f32_byte_size) as nat,
    ) + "]}"@
}

/// The members of the tensors, each followed by a comma.
pub open spec fn members_text(tensors: Seq<OutputTensorView>) -> Seq<char>
    decreases tensors.len(),
{
    if tensors.len() == 0 {
        Seq::empty()
    } else {
        members_text(tensors.drop_last()) + member_text(tensors.last()) + ","@
    }
}

/// The header as a text: a JSON object with one member per tensor in the
/// order of the manifest, and the member `__metadata__` at the end.
pub open spec fn header_text(tensors: Seq<OutputTensorView>) -> Seq<char> {
    "{"@ + members_text(tensors) + "\"__metadata__\":{\"format\":\"pt\",\"source\":\"forgeai-merge\"}}"@
}

/// The bytes that precede the tensor data of a SafeTensors file: the
/// length of the header in eight bytes, then the header.
pub open spec fn safetensors_prelude(tensors: Seq<OutputTensorView>) -> Seq<u8> {
    bytes_u64(encode_utf8(header_text(tensors)).len() as u64) + encode_utf8(header_text(tensors))
}

fn push_shape(out: &mut Vec<char>, shape: &Vec<usize>)
    ensures
        final(out)@ == old(out)@ + shape_text(shape@),
{
    let mut i: usize = 0;
    assert(shape@.take(0) =~= Seq::<usize>::empty());
    assert(out@ =~= old(out)@ + shape_text(shape@.take(0)));
    while i < shape.len()
        invariant
            i <= shape.len(),
            out@ == old(out)@ + shape_text(shape@.take(i as int)),
        decreases shape.len() - i,
    {
        assert(shape@.take(i + 1).drop_last() =~= shape@.take(i as int));
        assert(shape@.take(i + 1).last() == shape@[i as int]);
        if i > 0 {
            push_text(out, ",");
        }
        push_decimal(out, shape[i] as u64);
        i = i + 1;
        assert(out@ =~= old(out)@ + shape_text(shape@.take(i as int)));
    }
    assert(shape@.take(i as int) =~= shape@);
}

fn hex_char(n: u32) -> (r: char)
    requires
        n < 16,
    ensures
        r == hex_digit(n as int),
{
    if n == 0 {
        '0'
    } else if n == 1 {
        '1'
    } else if n == 2 {
        '2'
    } else if n == 3 {
        '3'
    } else if n == 4 {
        '4'
    } else if n == 5 {
        '5'
    } else if n == 6 {
        '6'
    } else if n == 7 {
        '7'
    } else if n == 8 {
        '8'
    } else if n == 9 {
        '9'
    } else if n == 10 {
        'a'
    } else if n == 11 {
        'b'
    } else if n == 12 {
        'c'
    } else if n == 13 {
        'd'
    } else if n == 14 {
        'e'
    } else {
        'f'
    }
}

/// Appends a text as it stands inside a JSON string.
pub fn push_escaped(out: &mut Vec<char>, s: &str)
    ensures
        final(out)@ == old(out)@ + escaped(s@),
{
    let chars = chars_of(s);
    let mut i: usize = 0;
    assert(chars@.take(0) =~= Seq::<char>::empty());
    assert(out@ =~= old(out)@ + escaped(chars@.take(0)));
    while i < chars.len()
        invariant
            i <= chars.len(),
            chars@ == s@,
            out@ == old(out)@ + escaped(chars@.take(i as int)),
        decreases chars.len() - i,
    {
        let ghost before = out@;
        let c = chars[i];
        assert(chars@.take(i + 1).drop_last() =~= chars@.take(i as int));
        assert(chars@.take(i + 1).last() == c);
        let code = c as u32;
        if c == '"' {
            out.push('\\');
            out.push('"');
        } else if c == '\\' {
            out.push('\\');
            out.push('\\');
        } else if code < 0x20 {
            out.push('\\');
            out.push('u');
            out.push('0');
            out.push('0');
            out.push(hex_char(code / 16));
            out.push(hex_char(code % 16));
        } else {
            out.push(c);
        }
        assert(out@ =~= before + escaped_char(c));
        i = i + 1;
        assert(out@ =~= old(out)@ + escaped(chars@.take(i as int)));
    }
    assert(chars@.take(i as int) =~= chars@);
}

fn push_member(out: &mut Vec<char>, t: &OutputTensorInfo)
    requires
        t.data_offset + t.f32_byte_size <= u64::MAX,
    ensures
        final(out)@ == old(out)@ + member_text(t@),
{
    push_text(out, "\"");
    push_escaped(out, t.name.as_str());
    push_text(out, "\":{\"dtype\":\"F32\",\"shape\":[");
    push_shape(out, &t.shape);
    push_text(out, "],\"data_offsets\":[");
    push_decimal(out, t.data_offset);
    push_text(out, ",");
    push_decimal(out, t.data_offset + t.f32_byte_size);
    push_text(out, "]}");
    assert(out@ =~= old(out)@ + member_text(t@));
}

/// Every tensor ends within the 64-bit range.
pub open spec fn ranges_fit(tensors: Seq<OutputTensorView>) -> bool {
    forall|i: int|
        0 <= i < tensors.len() ==> (#[trigger] tensors[i]).data_offset + tensors[i].f32_byte_size
            <= u64::MAX
}

/// The header of a SafeTensors file as a text.
pub fn safetensors_header_text(tensors: &Vec<OutputTensorInfo>) -> (r: String)
    requires
        ranges_fit(entries_view(tensors@)),
    ensures
        r@ == header_text(entries_view(tensors@)),
{
    let ghost list = entries_view(tensors@);
    let mut out: Vec<char> = Vec::new();
    push_text(&mut out, "{");
    let ghost start = out@;
    let mut i: usize = 0;
    assert(list.take(0) =~= Seq::<OutputTensorView>::empty());
    assert(out@ =~= start + members_text(list.take(0)));
    while i < tensors.len()
        invariant
            i <= tensors.len(),
            list == entries_view(tensors@),
            ranges_fit(list),
            out@ == start + members_text(list.take(i as int)),
        decreases tensors.len() - i,
    {
        assert(list.take(i + 1).drop_last() =~= list.take(i as int));
        assert(list.take(i + 1).last() == tensors@[i as int]@);
        assert(list[i as int] == tensors@[i as int]@);
        push_member(&mut out, &tensors[i]);
        push_text(&mut out, ",");
        i = i + 1;
        assert(out@ =~= start + members_text(list.take(i as int)));
    }
    assert(list.take(i as int) =~= list);
    push_text(&mut out, "\"__metadata__\":{\"format\":\"pt\",\"source\":\"forgeai-merge\"}}");
    assert(out@ =~= header_text(list));
    string_of(out.as_slice())
}

/// The bytes that precede the tensor data of a SafeTensors file.
pub fn safetensors_header(tensors: &Vec<OutputTensorInfo>) -> (r: Vec<u8>)
    requires
        ranges_fit(entries_view(tensors@)),
    ensures
        r@ == safetensors_prelude(entries_view(tensors@)),
{
    let text = safetensors_header_text(tensors);
    let bytes = text.as_str().as_bytes();
    let mut out: Vec<u8> = Vec::new();
    push_u64(&mut out, bytes.len() as u64);
    push_bytes(&mut out, bytes);
    out
}

/// A file that starts with the prelude is framed as its header declares:
/// reading the frame gives back the header's bytes.
pub proof fn prelude_frames(tensors: Seq<OutputTensorView>, data: Seq<u8>)
    requires
        encode_utf8(header_text(tensors)).len() <= usize::MAX - 8,
    ensures
        crate::safetensors::header_bytes(safetensors_prelude(tensors) + data) == Ok::<
            Seq<u8>,
            crate::error::ModelErrorView,
        >(encode_utf8(header_text(tensors))),
{
    let text = encode_utf8(header_text(tensors));
    let n = text.len() as u64;
    let file = safetensors_prelude(tensors) + data;
    u64_round_trip(n);
    assert(file.subrange(0, 8) =~= bytes_u64(n));
    assert(file.subrange(8, 8 + text.len() as int) =~= text);
    header_is_not_empty(tensors);
}

/// The header is never empty.
pub proof fn header_is_not_empty(tensors: Seq<OutputTensorView>)
    ensures
        encode_utf8(header_text(tensors)).len() > 0,
{
    reveal_strlit("{");
    let t = header_text(tensors);
    assert(t.len() > 0);
    assert(t[0] == '{');
    if encode_utf8(t).len() == 0 {
        vstd::utf8::encode_utf8_decode_utf8(t);
        assert(vstd::utf8::decode_utf8(Seq::<u8>::empty()).len() == 0) by {
            reveal_with_fuel(vstd::utf8::decode_utf8, 2);
            reveal_with_fuel(vstd::utf8::valid_utf8, 2);
        }
    }
}

/// The data of the tensors, one after the other.
pub open spec fn joined(data: Seq<Seq<u8>>) -> Seq<u8>
    decreases data.len(),
{
    if data.len() == 0 {
        Seq::empty()
    } else {
        joined(data.drop_last()) + data.last()
    }
}

/// The tensors follow one another from byte 0 on, and each has as many
/// bytes of data as its size says.
pub open spec fn laid_out(tensors: Seq<OutputTensorView>, data: Seq<Seq<u8>>) -> bool {
    &&& data.len() == tensors.len()
    &&& forall|i: int| 0 <= i < tensors.len() ==> (#[trigger] data[i]).len() == tensors[i].f32_byte_size
    &&& tensors.len() > 0 ==> tensors[0].data_offset == 0
    &&& forall|i: int|
        0 <= i < tensors.len() - 1 ==> (#[trigger] tensors[i]).data_offset + tensors[i].f32_byte_size
            == tensors[i + 1].data_offset
}

/// Where the data of the tensors is written one after the other, each
/// tensor's data lies at the byte range that the header declares for it.
pub proof fn data_lies_where_declared(tensors: Seq<OutputTensorView>, data: Seq<Seq<u8>>, k: int)
    requires
        laid_out(tensors, data),
        0 <= k < tensors.len(),
    ensures
        tensors[k].data_offset + tensors[k].f32_byte_size <= joined(data).len(),
        joined(data).subrange(
            tensors[k].data_offset as int,
            tensors[k].data_offset + tensors[k].f32_byte_size,
        ) == data[k],
    decreases tensors.len(),
{
    let n = tensors.len() as int;
    let head = joined(data.drop_last());
    layout_ends(tensors.drop_last(), data.drop_last());
    if k == n - 1 {
        assert(joined(data).subrange(
            tensors[k].data_offset as int,
            tensors[k].data_offset + tensors[k].f32_byte_size,
        ) =~= data[k]);
    } else {
        assert(laid_out(tensors.drop_last(), data.drop_last()));
        data_lies_where_declared(tensors.drop_last(), data.drop_last(), k);
        assert(joined(data).subrange(
            tensors[k].data_offset as int,
            tensors[k].data_offset + tensors[k].f32_byte_size,
        ) =~= head.subrange(
            tensors[k].data_offset as int,
            tensors[k].data_offset + tensors[k].f32_byte_size,
        ));
    }
}

/// The data of laid-out tensors ends where the last tensor ends.
pub proof fn layout_ends(tensors: Seq<OutputTensorView>, data: Seq<Seq<u8>>)
    requires
        data.len() == tensors.len(),
        forall|i: int| 0 <= i < tensors.len() ==> (#[trigger] data[i]).len() == tensors[i].f32_byte_size,
        tensors.len() > 0 ==> tensors[0].data_offset == 0,
        forall|i: int|
            0 <= i < tensors.len() - 1 ==> (#[trigger] tensors[i]).data_offset
                + tensors[i].f32_byte_size == tensors[i + 1].data_offset,
    ensures
        joined(data).len() == (if tensors.len() == 0 {
            0
        } else {
            tensors.last().data_offset + tensors.last().f32_byte_size
        }),
    decreases tensors.len(),
{
    if tensors.len() > 0 {
        layout_ends(tensors.drop_last(), data.drop_last());
    }
}

} // verus!
