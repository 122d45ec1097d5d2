//! Reading the whole numbers of a stored tensor: signed and unsigned
//! integers and truth values, lowest byte first. Bringing the values to
//! single precision is left to the caller, as is reading floating-point
//! elements. A block format for which there is no decoder is refused: its
//! weights are not made up.

use vstd::prelude::*;
use vstd::slice::slice_subrange;
use crate::error::ModelError;
use crate::gguf::{
    decode_u16, decode_u32, decode_u64, gguf_error, gguf_fail, le_u16, le_u32, le_u64,
};
use crate::gguf_info::{ggml_type_label, ggml_type_name};
use crate::tensor_io::ElementKind;
use crate::text::push_text;

verus! {

/// The element type is one of whole numbers or truth values.
pub open spec fn is_whole(kind: ElementKind) -> bool {
    match kind {
        ElementKind::I64 | ElementKind::I32 | ElementKind::I16 | ElementKind::I8 | ElementKind::U8
        | ElementKind::Bool => true,
        _ => false,
    }
}

/// The number of bytes of one element.
pub open spec fn element_size(kind: ElementKind) -> int {
    match kind {
        ElementKind::F64 | ElementKind::I64 => 8,
        ElementKind::F32 | ElementKind::I32 => 4,
        ElementKind::F16 | ElementKind::BF16 | ElementKind::I16 => 2,
        ElementKind::I8 | ElementKind::U8 | ElementKind::Bool => 1,
    }
}

/// The signed number that the unsigned number `u` of `bits` bits stands
/// for in two's complement.
pub open spec fn signed_of(u: int, bits: int) -> int {
    if bits == 8 {
        if u < 0x80 {
            u
        } else {
            u - 0x100
        }
    } else if bits == 16 {
        if u < 0x8000 {
            u
        } else {
            u - 0x1_0000
        }
    } else if bits == 32 {
        if u < 0x8000_0000 {
            u
        } else {
            u - 0x1_0000_0000
        }
    } else {
        if u < 0x8000_0000_0000_0000 {
            u
        } else {
            u - 0x1_0000_0000_0000_0000
        }
    }
}

/// The whole number that the bytes of one element hold: a signed number in
/// two's complement, a byte as it is, a truth value as 1 or 0.
pub open spec fn whole_value(kind: ElementKind, b: Seq<u8>) -> int {
    match kind {
        ElementKind::I64 => signed_of(le_u64(b) as int, 64),
        ElementKind::I32 => signed_of(le_u32(b) as int, 32),
        ElementKind::I16 => signed_of(le_u16(b) as int, 16),
        ElementKind::I8 => signed_of(b[0] as int, 8),
        ElementKind::U8 => b[0] as int,
        ElementKind::Bool => if b[0] != 0 {
            1
        } else {
            0
        },
        _ => 0,
    }
}

/// The whole numbers that the bytes hold, element after element; bytes at
/// the end that do not make up an element are left aside.
pub open spec fn whole_values(kind: ElementKind, bytes: Seq<u8>) -> Seq<int>
    decreases bytes.len(),
{
    let size = element_size(kind);
    if bytes.len() < size {
        Seq::empty()
    } else {
        seq![whole_value(kind, bytes.take(size))] + whole_values(kind, bytes.skip(size))
    }
}

/// The numbers of a list as mathematical integers.
pub open spec fn as_ints(v: Seq<i64>) -> Seq<int> {
    Seq::new(v.len(), |i: int| v[i] as int)
}

fn size_of(kind: ElementKind) -> (r: usize)
    ensures
        r == element_size(kind),
{
    match kind {
        ElementKind::F64 | ElementKind::I64 => 8,
        ElementKind::F32 | ElementKind::I32 => 4,
        ElementKind::F16 | ElementKind::BF16 | ElementKind::I16 => 2,
        ElementKind::I8 | ElementKind::U8 | ElementKind::Bool => 1,
    }
}

fn whole_kind(kind: ElementKind) -> (r: bool)
    ensures
        r == is_whole(kind),
{
    match kind {
        ElementKind::I64 | ElementKind::I32 | ElementKind::I16 | ElementKind::I8 | ElementKind::U8
        | ElementKind::Bool => true,
        _ => false,
    }
}

fn one_whole(kind: ElementKind, b: &[u8]) -> (r: i64)
    requires
        is_whole(kind),
        b@.len() == element_size(kind),
    ensures
        r == whole_value(kind, b@),
{
    match kind {
        ElementKind::I64 => {
            let u = decode_u64(b);
            if u < 0x8000_0000_0000_0000 {
                u as i64
            } else {
                ((u - 0x8000_0000_0000_0000) as i64) + i64::MIN
            }
        },
        ElementKind::I32 => {
            let u = decode_u32(b);
            if u < 0x8000_0000 {
                u as i64
            } else {
                (u as i64) - 0x1_0000_0000
            }
        },
        ElementKind::I16 => {
            let u = decode_u16(b);
            if u < 0x8000 {
                u as i64
            } else {
                (u as i64) - 0x1_0000
            }
        },
        ElementKind::I8 => {
            let u = b[0];
            if u < 0x80 {
                u as i64
            } else {
                (u as i64) - 0x100
            }
        },
        ElementKind::U8 => b[0] as i64,
        _ => if b[0] != 0 {
            1
        } else {
            0
        },
    }
}

/// Reads the whole numbers of a stored tensor; `None` for a floating-point
/// element type.
pub fn whole_numbers(bytes: &[u8], kind: ElementKind) -> (r: Option<Vec<i64>>)
    ensures
        match r {
            Some(v) => is_whole(kind) && as_ints(v@) == whole_values(kind, bytes@),
            None => !is_whole(kind),
        },
{
    if !whole_kind(kind) {
        return None;
    }
    let size = size_of(kind);
    let total = bytes.len();
    let mut out: Vec<i64> = Vec::new();
    let mut pos: usize = 0;
    assert(bytes@.skip(0) =~= bytes@);
    assert(as_ints(out@) + whole_values(kind, bytes@.skip(0)) =~= whole_values(kind, bytes@));
    while total - pos >= size
        invariant
            is_whole(kind),
            size == element_size(kind),
            total == bytes@.len(),
            pos <= total,
            as_ints(out@) + whole_values(kind, bytes@.skip(pos as int)) == whole_values(
                kind,
                bytes@,
            ),
        decreases total - pos,
    {
        let ghost before = as_ints(out@);
        let ghost here = bytes@.skip(pos as int);
        let one = slice_subrange(bytes, pos, pos + size);
        assert(one@ =~= here.take(size as int));
        assert(here.skip(size as int) =~= bytes@.skip(pos + size));
        let value = one_whole(kind, one);
        out.push(value);
        assert(as_ints(out@) =~= before.push(value as int));
        assert(before.push(value as int) + whole_values(kind, here.skip(size as int)) =~= before
            + (seq![value as int] + whole_values(kind, here.skip(size as int))));
        pos = pos + size;
    }
    assert(as_ints(out@) + Seq::<int>::empty() =~= as_ints(out@));
    Some(out)
}

/// The words that refuse a tensor whose block format is not decoded.
pub open spec fn undecoded_text(name: Seq<char>, ggml_type: u32) -> Seq<char> {
    "Tensor '"@ + name + "' is stored as "@ + ggml_type_label(ggml_type)
        + ", for which there is no decoder"@
}

/// The error that refuses a tensor whose block format is not decoded.
pub fn undecoded_error(name: &str, ggml_type: u32) -> (e: ModelError)
    ensures
        e@ == gguf_error(undecoded_text(name@, ggml_type)),
{
    let mut msg: Vec<char> = Vec::new();
    push_text(&mut msg, "Tensor '");
    push_text(&mut msg, name);
    push_text(&mut msg, "' is stored as ");
    push_text(&mut msg, ggml_type_name(ggml_type));
    push_text(&mut msg, ", for which there is no decoder");
    assert(msg@ =~= undecoded_text(name@, ggml_type));
    gguf_fail(&msg)
}

} // verus!
