//! Reading the GGUF container: a cursor over the bytes, the typed metadata
//! values, and the header with its metadata and tensor tables.
//!
//! All numbers are little-endian. Floating-point values are kept as their
//! bit patterns.

use vstd::prelude::*;
use vstd::slice::slice_subrange;
use vstd::utf8::{decode_utf8, valid_utf8};
use crate::error::{ModelError, ModelErrorView};
use crate::text::{decimal_text, push_decimal, push_text, string_of};

verus! {

/// The type tag of an unsigned 8-bit number.
pub const GGUF_TYPE_UINT8: u32 = 0;

/// The type tag of a signed 8-bit number.
pub const GGUF_TYPE_INT8: u32 = 1;

/// The type tag of an unsigned 16-bit number.
pub const GGUF_TYPE_UINT16: u32 = 2;

/// The type tag of a signed 16-bit number.
pub const GGUF_TYPE_INT16: u32 = 3;

/// The type tag of an unsigned 32-bit number.
pub const GGUF_TYPE_UINT32: u32 = 4;

/// The type tag of a signed 32-bit number.
pub const GGUF_TYPE_INT32: u32 = 5;

/// The type tag of a single-precision number.
pub const GGUF_TYPE_FLOAT32: u32 = 6;

/// The type tag of a truth value.
pub const GGUF_TYPE_BOOL: u32 = 7;

/// The type tag of a string.
pub const GGUF_TYPE_STRING: u32 = 8;

/// The type tag of an array.
pub const GGUF_TYPE_ARRAY: u32 = 9;

/// The type tag of an unsigned 64-bit number.
pub const GGUF_TYPE_UINT64: u32 = 10;

/// The type tag of a signed 64-bit number.
pub const GGUF_TYPE_INT64: u32 = 11;

/// The type tag of a double-precision number.
pub const GGUF_TYPE_FLOAT64: u32 = 12;

/// The longest string that is accepted, in bytes.
pub const MAX_STRING_BYTES: usize = 1_000_000;

/// The longest array that is accepted, in elements.
pub const MAX_ARRAY_ITEMS: usize = 10_000_000;

/// The result of reading at a position: the value and the position after
/// it, or the error.
pub type Parsed<T> = Result<(T, int), ModelErrorView>;

/// A parse error of the GGUF format.
pub open spec fn gguf_error(reason: Seq<char>) -> ModelErrorView {
    ModelErrorView::ParseError { format: "GGUF"@, reason }
}

/// Makes the parse error of the GGUF format with the given reason.
pub fn gguf_fail(reason: &Vec<char>) -> (e: ModelError)
    ensures
        e@ == gguf_error(reason@),
{
    ModelError::ParseError { format: "GGUF".to_owned(), reason: string_of(reason.as_slice()) }
}

// ---------------------------------------------------------------------------
// Little-endian numbers
// ---------------------------------------------------------------------------

/// The 16-bit number that two bytes encode.
pub open spec fn le_u16(b: Seq<u8>) -> u16
    recommends
        b.len() == 2,
{
    (b[0] as int + b[1] as int * 0x100) as u16
}

/// The 32-bit number that four bytes encode.
pub open spec fn le_u32(b: Seq<u8>) -> u32
    recommends
        b.len() == 4,
{
    (b[0] as int + b[1] as int * 0x100 + b[2] as int * 0x1_0000 + b[3] as int * 0x100_0000) as u32
}

/// The 64-bit number that eight bytes encode.
pub open spec fn le_u64(b: Seq<u8>) -> u64
    recommends
        b.len() == 8,
{
    (b[0] as int + b[1] as int * 0x100 + b[2] as int * 0x1_0000 + b[3] as int * 0x100_0000
        + b[4] as int * 0x1_0000_0000 + b[5] as int * 0x100_0000_0000 + b[6] as int
        * 0x1_0000_0000_0000 + b[7] as int * 0x100_0000_0000_0000) as u64
}

/// Decodes two little-endian bytes.
pub fn decode_u16(b: &[u8]) -> (r: u16)
    requires
        b@.len() == 2,
    ensures
        r == le_u16(b@),
{
    (b[0] as u16) + (b[1] as u16) * 0x100
}

/// Decodes four little-endian bytes.
pub fn decode_u32(b: &[u8]) -> (r: u32)
    requires
        b@.len() == 4,
    ensures
        r == le_u32(b@),
{
    (b[0] as u32) + (b[1] as u32) * 0x100 + (b[2] as u32) * 0x1_0000 + (b[3] as u32) * 0x100_0000
}

/// Decodes eight little-endian bytes.
pub fn decode_u64(b: &[u8]) -> (r: u64)
    requires
        b@.len() == 8,
    ensures
        r == le_u64(b@),
{
    (b[0] as u64) + (b[1] as u64) * 0x100 + (b[2] as u64) * 0x1_0000 + (b[3] as u64) * 0x100_0000
        + (b[4] as u64) * 0x1_0000_0000 + (b[5] as u64) * 0x100_0000_0000 + (b[6] as u64)
        * 0x1_0000_0000_0000 + (b[7] as u64) * 0x100_0000_0000_0000
}

// ---------------------------------------------------------------------------
// What reading at a position gives
// ---------------------------------------------------------------------------

/// The text of the error for a read beyond the end of the data.
pub open spec fn eof_text(pos: nat, need: nat, have: nat) -> Seq<char> {
    "Unexpected end of file at offset "@ + decimal_text(pos) + " (need "@ + decimal_text(need)
        + " bytes, have "@ + decimal_text(have) + ")"@
}

/// The bytes left from `pos` on.
pub open spec fn left(data: Seq<u8>, pos: int) -> nat {
    if pos <= data.len() {
        (data.len() - pos) as nat
    } else {
        0
    }
}

/// The `n` bytes at `pos`.
pub open spec fn take_bytes(data: Seq<u8>, pos: int, n: int) -> Parsed<Seq<u8>>
    recommends
        0 <= pos,
        0 <= n,
{
    if pos + n > data.len() {
        Err(gguf_error(eof_text(pos as nat, n as nat, left(data, pos))))
    } else {
        Ok((data.subrange(pos, pos + n), pos + n))
    }
}

/// The byte at `pos`.
pub open spec fn take_u8(data: Seq<u8>, pos: int) -> Parsed<u8> {
    match take_bytes(data, pos, 1) {
        Ok((b, p)) => Ok((b[0], p)),
        Err(e) => Err(e),
    }
}

/// The 16-bit number at `pos`, lowest byte first.
pub open spec fn take_u16(data: Seq<u8>, pos: int) -> Parsed<u16> {
    match take_bytes(data, pos, 2) {
        Ok((b, p)) => Ok((le_u16(b), p)),
        Err(e) => Err(e),
    }
}

/// The 32-bit number at `pos`, lowest byte first.
pub open spec fn take_u32(data: Seq<u8>, pos: int) -> Parsed<u32> {
    match take_bytes(data, pos, 4) {
        Ok((b, p)) => Ok((le_u32(b), p)),
        Err(e) => Err(e),
    }
}

/// The 64-bit number at `pos`, lowest byte first.
pub open spec fn take_u64(data: Seq<u8>, pos: int) -> Parsed<u64> {
    match take_bytes(data, pos, 8) {
        Ok((b, p)) => Ok((le_u64(b), p)),
        Err(e) => Err(e),
    }
}

/// The text that describes why bytes are not UTF-8, as the standard
/// library words it.
pub uninterp spec fn utf8_error_text(bytes: Seq<u8>) -> Seq<char>;

/// `String::from_utf8`: succeeds exactly on valid UTF-8, with the text that
/// the bytes encode; otherwise the error's own description comes back.
#[verifier::external_body]
pub(crate) fn string_from_utf8(bytes: &[u8]) -> (r: Result<String, String>)
    ensures
        match r {
            Ok(s) => valid_utf8(bytes@) && s@ == decode_utf8(bytes@),
            Err(msg) => !valid_utf8(bytes@) && msg@ == utf8_error_text(bytes@),
        },
{
    match String::from_utf8(bytes.to_vec()) {
        Ok(s) => Ok(s),
        Err(e) => Err(e.to_string()),
    }
}

/// The text of the error for a string that is too long.
pub open spec fn long_string_text(len: nat) -> Seq<char> {
    "String length "@ + decimal_text(len) + " is unreasonably large"@
}

/// A string: its length in bytes as a 64-bit number, then its UTF-8 bytes.
pub open spec fn take_string(data: Seq<u8>, pos: int) -> Parsed<Seq<char>> {
    match take_u64(data, pos) {
        Err(e) => Err(e),
        Ok((len, p)) => {
            let n = len as usize;
            if n > MAX_STRING_BYTES {
                Err(gguf_error(long_string_text(n as nat)))
            } else {
                match take_bytes(data, p, n as int) {
                    Err(e) => Err(e),
                    Ok((bytes, q)) => if valid_utf8(bytes) {
                        Ok((decode_utf8(bytes), q))
                    } else {
                        Err(gguf_error("Invalid UTF-8 string: "@ + utf8_error_text(bytes)))
                    },
                }
            }
        },
    }
}

// ---------------------------------------------------------------------------
// The cursor
// ---------------------------------------------------------------------------

/// A cursor over bytes, for reading one value after the other.
pub struct Reader<'a> {
    pub data: &'a [u8],
    pub pos: usize,
}

impl<'a> Reader<'a> {
    /// A cursor at the start of `data`.
    pub fn new(data: &'a [u8]) -> (r: Reader<'a>)
        ensures
            r.data@ == data@,
            r.pos == 0,
    {
        Reader { data, pos: 0 }
    }

    /// The number of bytes from the cursor to the end.
    pub fn remaining(&self) -> (r: usize)
        ensures
            r == left(self.data@, self.pos as int),
    {
        if self.pos <= self.data.len() {
            self.data.len() - self.pos
        } else {
            0
        }
    }

    /// The next `n` bytes.
    pub fn read_bytes(&mut self, n: usize) -> (r: Result<&'a [u8], ModelError>)
        ensures
            final(self).data == old(self).data,
            match r {
                Ok(b) => take_bytes(old(self).data@, old(self).pos as int, n as int) == Ok::<
                    (Seq<u8>, int),
                    ModelErrorView,
                >((b@, final(self).pos as int)),
                Err(e) => take_bytes(old(self).data@, old(self).pos as int, n as int) == Err::<
                    (Seq<u8>, int),
                    ModelErrorView,
                >(e@) && final(self).pos == old(self).pos,
            },
    {
        let have = self.remaining();
        if self.pos > self.data.len() || n > have {
            let mut msg: Vec<char> = Vec::new();
            push_text(&mut msg, "Unexpected end of file at offset ");
            push_decimal(&mut msg, self.pos as u64);
            push_text(&mut msg, " (need ");
            push_decimal(&mut msg, n as u64);
            push_text(&mut msg, " bytes, have ");
            push_decimal(&mut msg, have as u64);
            push_text(&mut msg, ")");
            assert(msg@ =~= eof_text(self.pos as nat, n as nat, have as nat));
            return Err(gguf_fail(&msg));
        }
        let start = self.pos;
        let slice = slice_subrange(self.data, start, start + n);
        self.pos = start + n;
        Ok(slice)
    }

    /// Reads one byte.
    pub fn read_u8(&mut self) -> (r: Result<u8, ModelError>)
        ensures
            final(self).data == old(self).data,
            match r {
                Ok(v) => take_u8(old(self).data@, old(self).pos as int) == Ok::<
                    (u8, int),
                    ModelErrorView,
                >((v, final(self).pos as int)),
                Err(e) => take_u8(old(self).data@, old(self).pos as int) == Err::<
                    (u8, int),
                    ModelErrorView,
                >(e@) && final(self).pos == old(self).pos,
            },
    {
        match self.read_bytes(1) {
            Ok(b) => Ok(b[0]),
            Err(e) => Err(e),
        }
    }

    /// Reads a 16-bit number, lowest byte first.
    pub fn read_u16(&mut self) -> (r: Result<u16, ModelError>)
        ensures
            final(self).data == old(self).data,
            match r {
                Ok(v) => take_u16(old(self).data@, old(self).pos as int) == Ok::<
                    (u16, int),
                    ModelErrorView,
                >((v, final(self).pos as int)),
                Err(e) => take_u16(old(self).data@, old(self).pos as int) == Err::<
                    (u16, int),
                    ModelErrorView,
                >(e@) && final(self).pos == old(self).pos,
            },
    {
        match self.read_bytes(2) {
            Ok(b) => Ok(decode_u16(b)),
            Err(e) => Err(e),
        }
    }

    /// Reads a 32-bit number, lowest byte first.
    pub fn read_u32(&mut self) -> (r: Result<u32, ModelError>)
        ensures
            final(self).data == old(self).data,
            match r {
                Ok(v) => take_u32(old(self).data@, old(self).pos as int) == Ok::<
                    (u32, int),
                    ModelErrorView,
                >((v, final(self).pos as int)),
                Err(e) => take_u32(old(self).data@, old(self).pos as int) == Err::<
                    (u32, int),
                    ModelErrorView,
                >(e@) && final(self).pos == old(self).pos,
            },
    {
        match self.read_bytes(4) {
            Ok(b) => Ok(decode_u32(b)),
            Err(e) => Err(e),
        }
    }

    /// Reads a 64-bit number, lowest byte first.
    pub fn read_u64(&mut self) -> (r: Result<u64, ModelError>)
        ensures
            final(self).data == old(self).data,
            match r {
                Ok(v) => take_u64(old(self).data@, old(self).pos as int) == Ok::<
                    (u64, int),
                    ModelErrorView,
                >((v, final(self).pos as int)),
                Err(e) => take_u64(old(self).data@, old(self).pos as int) == Err::<
                    (u64, int),
                    ModelErrorView,
                >(e@) && final(self).pos == old(self).pos,
            },
    {
        match self.read_bytes(8) {
            Ok(b) => Ok(decode_u64(b)),
            Err(e) => Err(e),
        }
    }

    /// The next byte, read as a signed number.
    pub fn read_i8(&mut self) -> (r: Result<i8, ModelError>)
        ensures
            final(self).data == old(self).data,
            match r {
                Ok(v) => take_u8(old(self).data@, old(self).pos as int) is Ok && v == take_u8(
                    old(self).data@,
                    old(self).pos as int,
                )->Ok_0.0 as i8 && final(self).pos == old(self).pos + 1,
                Err(e) => take_u8(old(self).data@, old(self).pos as int) == Err::<
                    (u8, int),
                    ModelErrorView,
                >(e@) && final(self).pos == old(self).pos,
            },
    {
        match self.read_u8() {
            Ok(v) => Ok(v as i8),
            Err(e) => Err(e),
        }
    }

    /// The next two bytes, read as a signed number.
    pub fn read_i16(&mut self) -> (r: Result<i16, ModelError>)
        ensures
            final(self).data == old(self).data,
            match r {
                Ok(v) => take_u16(old(self).data@, old(self).pos as int) is Ok && v == take_u16(
                    old(self).data@,
                    old(self).pos as int,
                )->Ok_0.0 as i16 && final(self).pos == old(self).pos + 2,
                Err(e) => take_u16(old(self).data@, old(self).pos as int) == Err::<
                    (u16, int),
                    ModelErrorView,
                >(e@) && final(self).pos == old(self).pos,
            },
    {
        match self.read_u16() {
            Ok(v) => Ok(v as i16),
            Err(e) => Err(e),
        }
    }

    /// The next four bytes, read as a signed number.
    pub fn read_i32(&mut self) -> (r: Result<i32, ModelError>)
        ensures
            final(self).data == old(self).data,
            match r {
                Ok(v) => take_u32(old(self).data@, old(self).pos as int) is Ok && v == take_u32(
                    old(self).data@,
                    old(self).pos as int,
                )->Ok_0.0 as i32 && final(self).pos == old(self).pos + 4,
                Err(e) => take_u32(old(self).data@, old(self).pos as int) == Err::<
                    (u32, int),
                    ModelErrorView,
                >(e@) && final(self).pos == old(self).pos,
            },
    {
        match self.read_u32() {
            Ok(v) => Ok(v as i32),
            Err(e) => Err(e),
        }
    }

    /// The next eight bytes, read as a signed number.
    pub fn read_i64(&mut self) -> (r: Result<i64, ModelError>)
        ensures
            final(self).data == old(self).data,
            match r {
                Ok(v) => take_u64(old(self).data@, old(self).pos as int) is Ok && v == take_u64(
                    old(self).data@,
                    old(self).pos as int,
                )->Ok_0.0 as i64 && final(self).pos == old(self).pos + 8,
                Err(e) => take_u64(old(self).data@, old(self).pos as int) == Err::<
                    (u64, int),
                    ModelErrorView,
                >(e@) && final(self).pos == old(self).pos,
            },
    {
        match self.read_u64() {
            Ok(v) => Ok(v as i64),
            Err(e) => Err(e),
        }
    }

    /// The next byte as a truth value: every byte but 0 is true.
    pub fn read_bool(&mut self) -> (r: Result<bool, ModelError>)
        ensures
            final(self).data == old(self).data,
            match r {
                Ok(v) => take_u8(old(self).data@, old(self).pos as int) is Ok && v == (take_u8(
                    old(self).data@,
                    old(self).pos as int,
                )->Ok_0.0 != 0) && final(self).pos == old(self).pos + 1,
                Err(e) => take_u8(old(self).data@, old(self).pos as int) == Err::<
                    (u8, int),
                    ModelErrorView,
                >(e@) && final(self).pos == old(self).pos,
            },
    {
        match self.read_u8() {
            Ok(v) => Ok(v != 0),
            Err(e) => Err(e),
        }
    }

    /// The next string.
    pub fn read_string(&mut self) -> (r: Result<String, ModelError>)
        ensures
            final(self).data == old(self).data,
            match r {
                Ok(s) => take_string(old(self).data@, old(self).pos as int) == Ok::<
                    (Seq<char>, int),
                    ModelErrorView,
                >((s@, final(self).pos as int)),
                Err(e) => take_string(old(self).data@, old(self).pos as int) == Err::<
                    (Seq<char>, int),
                    ModelErrorView,
                >(e@),
            },
    {
        let len64 = match self.read_u64() {
            Ok(v) => v,
            Err(e) => {
                return Err(e);
            },
        };
        let len: usize = #[verifier::truncate]
        (len64 as usize);
        if len > MAX_STRING_BYTES {
            let mut msg: Vec<char> = Vec::new();
            push_text(&mut msg, "String length ");
            push_decimal(&mut msg, len as u64);
            push_text(&mut msg, " is unreasonably large");
            assert(msg@ =~= long_string_text(len as nat));
            return Err(gguf_fail(&msg));
        }
        let bytes = match self.read_bytes(len) {
            Ok(b) => b,
            Err(e) => {
                return Err(e);
            },
        };
        match string_from_utf8(bytes) {
            Ok(s) => Ok(s),
            Err(why) => {
                let mut msg: Vec<char> = Vec::new();
                push_text(&mut msg, "Invalid UTF-8 string: ");
                push_text(&mut msg, why.as_str());
                assert(msg@ =~= "Invalid UTF-8 string: "@ + utf8_error_text(bytes@));
                Err(gguf_fail(&msg))
            },
        }
    }
}

/// A string occupies at least the eight bytes of its length.
pub proof fn take_string_advances(data: Seq<u8>, pos: int)
    requires
        0 <= pos,
        take_string(data, pos) is Ok,
    ensures
        pos + 8 <= take_string(data, pos)->Ok_0.1 <= data.len(),
{
}

// ---------------------------------------------------------------------------
// Metadata values
// ---------------------------------------------------------------------------

/// One metadata value. Floating-point values are held as their bits.
#[derive(Debug)]
pub enum GgufValue {
    Uint8(u8),
    Int8(i8),
    Uint16(u16),
    Int16(i16),
    Uint32(u32),
    Int32(i32),
    Float32(u32),
    Bool(bool),
    String(String),
    Array(Vec<GgufValue>),
    Uint64(u64),
    Int64(i64),
    Float64(u64),
}

/// The value of a `GgufValue`, with lists in place of vectors and sequences
/// of characters in place of strings.
pub enum ValueView {
    Uint8(u8),
    Int8(i8),
    Uint16(u16),
    Int16(i16),
    Uint32(u32),
    Int32(i32),
    Float32(u32),
    Bool(bool),
    String(Seq<char>),
    Array(Seq<ValueView>),
    Uint64(u64),
    Int64(i64),
    Float64(u64),
}

/// The value that a `GgufValue` stands for.
pub open spec fn value_view(v: GgufValue) -> ValueView
    decreases v,
{
    match v {
        GgufValue::Uint8(x) => ValueView::Uint8(x),
        GgufValue::Int8(x) => ValueView::Int8(x),
        GgufValue::Uint16(x) => ValueView::Uint16(x),
        GgufValue::Int16(x) => ValueView::Int16(x),
        GgufValue::Uint32(x) => ValueView::Uint32(x),
        GgufValue::Int32(x) => ValueView::Int32(x),
        GgufValue::Float32(x) => ValueView::Float32(x),
        GgufValue::Bool(x) => ValueView::Bool(x),
        GgufValue::String(s) => ValueView::String(s@),
        GgufValue::Array(items) => ValueView::Array(
            Seq::new(
                items@.len(),
                |i: int|
                    if 0 <= i < items@.len() {
                        value_view(items@[i])
                    } else {
                        ValueView::Bool(false)
                    },
            ),
        ),
        GgufValue::Uint64(x) => ValueView::Uint64(x),
        GgufValue::Int64(x) => ValueView::Int64(x),
        GgufValue::Float64(x) => ValueView::Float64(x),
    }
}

impl View for GgufValue {
    type V = ValueView;

    open spec fn view(&self) -> ValueView {
        value_view(*self)
    }
}

/// The values of a list of metadata values.
pub open spec fn values_view(items: Seq<GgufValue>) -> Seq<ValueView> {
    Seq::new(items.len(), |i: int| items[i]@)
}

/// The view of an array is the list of its items' views.
pub proof fn array_view(items: Vec<GgufValue>)
    ensures
        GgufValue::Array(items)@ == ValueView::Array(values_view(items@)),
{
    assert(value_view(GgufValue::Array(items))->Array_0 =~= values_view(items@));
}

/// The text of the error for an array that is too long.
pub open spec fn long_array_text(count: nat) -> Seq<char> {
    "Array length "@ + decimal_text(count) + " is unreasonably large"@
}

/// The text of the error for a type tag that names no type.
pub open spec fn unknown_type_text(tag: u32) -> Seq<char> {
    "Unknown metadata value type: "@ + decimal_text(tag as nat)
}

/// The value of the type `tag` at `pos`. An array is the type of its
/// items, their number as a 64-bit number, and the items one after the
/// other.
pub open spec fn parse_value(data: Seq<u8>, pos: int, tag: u32) -> Parsed<ValueView>
    decreases left(data, pos), 0nat,
{
    if tag == GGUF_TYPE_UINT8 {
        match take_u8(data, pos) {
            Ok((v, p)) => Ok((ValueView::Uint8(v), p)),
            Err(e) => Err(e),
        }
    } else if tag == GGUF_TYPE_INT8 {
        match take_u8(data, pos) {
            Ok((v, p)) => Ok((ValueView::Int8(v as i8), p)),
            Err(e) => Err(e),
        }
    } else if tag == GGUF_TYPE_UINT16 {
        match take_u16(data, pos) {
            Ok((v, p)) => Ok((ValueView::Uint16(v), p)),
            Err(e) => Err(e),
        }
    } else if tag == GGUF_TYPE_INT16 {
        match take_u16(data, pos) {
            Ok((v, p)) => Ok((ValueView::Int16(v as i16), p)),
            Err(e) => Err(e),
        }
    } else if tag == GGUF_TYPE_UINT32 {
        match take_u32(data, pos) {
            Ok((v, p)) => Ok((ValueView::Uint32(v), p)),
            Err(e) => Err(e),
        }
    } else if tag == GGUF_TYPE_INT32 {
        match take_u32(data, pos) {
            Ok((v, p)) => Ok((ValueView::Int32(v as i32), p)),
            Err(e) => Err(e),
        }
    } else if tag == GGUF_TYPE_FLOAT32 {
        match take_u32(data, pos) {
            Ok((v, p)) => Ok((ValueView::Float32(v), p)),
            Err(e) => Err(e),
        }
    } else if tag == GGUF_TYPE_BOOL {
        match take_u8(data, pos) {
            Ok((v, p)) => Ok((ValueView::Bool(v != 0), p)),
            Err(e) => Err(e),
        }
    } else if tag == GGUF_TYPE_STRING {
        match take_string(data, pos) {
            Ok((s, p)) => Ok((ValueView::String(s), p)),
            Err(e) => Err(e),
        }
    } else if tag == GGUF_TYPE_ARRAY {
        match take_u32(data, pos) {
            Err(e) => Err(e),
            Ok((item_tag, p)) => match take_u64(data, p) {
                Err(e) => Err(e),
                Ok((count64, q)) => {
                    let count = count64 as usize;
                    if count > MAX_ARRAY_ITEMS {
                        Err(gguf_error(long_array_text(count as nat)))
                    } else if pos < 0 || q != pos + 12 {
                        Err(gguf_error(Seq::empty()))
                    } else {
                        match parse_items(data, q, item_tag, count as nat) {
                            Ok((items, r)) => Ok((ValueView::Array(items), r)),
                            Err(e) => Err(e),
                        }
                    }
                },
            },
        }
    } else if tag == GGUF_TYPE_UINT64 {
        match take_u64(data, pos) {
            Ok((v, p)) => Ok((ValueView::Uint64(v), p)),
            Err(e) => Err(e),
        }
    } else if tag == GGUF_TYPE_INT64 {
        match take_u64(data, pos) {
            Ok((v, p)) => Ok((ValueView::Int64(v as i64), p)),
            Err(e) => Err(e),
        }
    } else if tag == GGUF_TYPE_FLOAT64 {
        match take_u64(data, pos) {
            Ok((v, p)) => Ok((ValueView::Float64(v), p)),
            Err(e) => Err(e),
        }
    } else {
        Err(gguf_error(unknown_type_text(tag)))
    }
}

/// `count` values of the type `tag`, one after the other from `pos` on.
/// Each value starts where the one before it ends.
pub open spec fn parse_items(data: Seq<u8>, pos: int, tag: u32, count: nat) -> Parsed<
    Seq<ValueView>,
>
    decreases left(data, pos), count,
{
    if count == 0 {
        Ok((Seq::empty(), pos))
    } else {
        match parse_items(data, pos, tag, (count - 1) as nat) {
            Err(e) => Err(e),
            Ok((items, p)) => if pos <= p <= data.len() {
                match parse_value(data, p, tag) {
                    Ok((v, q)) => Ok((items.push(v), q)),
                    Err(e) => Err(e),
                }
            } else {
                Err(gguf_error(Seq::empty()))
            },
        }
    }
}

/// A value occupies at least one byte and ends within the data, and so do
/// the items of an array. The two branches of `parse_value` and
/// `parse_items` that speak of positions out of order are therefore never
/// taken for a position within the data.
pub proof fn parse_value_advances(data: Seq<u8>, pos: int, tag: u32)
    requires
        0 <= pos,
        parse_value(data, pos, tag) is Ok,
    ensures
        pos < parse_value(data, pos, tag)->Ok_0.1 <= data.len(),
    decreases left(data, pos), 0nat,
{
    if tag == GGUF_TYPE_ARRAY {
        let item_tag = take_u32(data, pos)->Ok_0.0;
        let count = take_u64(data, pos + 4)->Ok_0.0 as usize;
        parse_items_advance(data, pos + 12, item_tag, count as nat);
    }
}

/// The items of an array end at or behind where they begin and within the
/// data, and there are as many of them as were asked for.
pub proof fn parse_items_advance(data: Seq<u8>, pos: int, tag: u32, count: nat)
    requires
        0 <= pos <= data.len(),
        parse_items(data, pos, tag, count) is Ok,
    ensures
        pos <= parse_items(data, pos, tag, count)->Ok_0.1 <= data.len(),
        parse_items(data, pos, tag, count)->Ok_0.0.len() == count,
    decreases left(data, pos), count,
{
    if count > 0 {
        parse_items_advance(data, pos, tag, (count - 1) as nat);
        let p = parse_items(data, pos, tag, (count - 1) as nat)->Ok_0.1;
        parse_value_advances(data, p, tag);
    }
}

/// Reads one value of the type `tag`.
#[verifier::loop_isolation(false)]
pub fn read_value(reader: &mut Reader, tag: u32) -> (r: Result<GgufValue, ModelError>)
    requires
        old(reader).pos <= old(reader).data@.len(),
    ensures
        final(reader).data == old(reader).data,
        match r {
            Ok(v) => parse_value(old(reader).data@, old(reader).pos as int, tag) == Ok::<
                (ValueView, int),
                ModelErrorView,
            >((v@, final(reader).pos as int)) && old(reader).pos < final(reader).pos
                <= final(reader).data@.len(),
            Err(e) => parse_value(old(reader).data@, old(reader).pos as int, tag) == Err::<
                (ValueView, int),
                ModelErrorView,
            >(e@),
        },
    decreases old(reader).data@.len() - old(reader).pos,
{
    let ghost data = reader.data@;
    let ghost start = reader.pos as int;
    if tag == GGUF_TYPE_UINT8 {
        match reader.read_u8() {
            Ok(v) => Ok(GgufValue::Uint8(v)),
            Err(e) => Err(e),
        }
    } else if tag == GGUF_TYPE_INT8 {
        match reader.read_i8() {
            Ok(v) => Ok(GgufValue::Int8(v)),
            Err(e) => Err(e),
        }
    } else if tag == GGUF_TYPE_UINT16 {
        match reader.read_u16() {
            Ok(v) => Ok(GgufValue::Uint16(v)),
            Err(e) => Err(e),
        }
    } else if tag == GGUF_TYPE_INT16 {
        match reader.read_i16() {
            Ok(v) => Ok(GgufValue::Int16(v)),
            Err(e) => Err(e),
        }
    } else if tag == GGUF_TYPE_UINT32 {
        match reader.read_u32() {
            Ok(v) => Ok(GgufValue::Uint32(v)),
            Err(e) => Err(e),
        }
    } else if tag == GGUF_TYPE_INT32 {
        match reader.read_i32() {
            Ok(v) => Ok(GgufValue::Int32(v)),
            Err(e) => Err(e),
        }
    } else if tag == GGUF_TYPE_FLOAT32 {
        match reader.read_u32() {
            Ok(v) => Ok(GgufValue::Float32(v)),
            Err(e) => Err(e),
        }
    } else if tag == GGUF_TYPE_BOOL {
        match reader.read_bool() {
            Ok(v) => Ok(GgufValue::Bool(v)),
            Err(e) => Err(e),
        }
    } else if tag == GGUF_TYPE_STRING {
        match reader.read_string() {
            Ok(s) => {
                proof {
                    take_string_advances(data, start);
                }
                Ok(GgufValue::String(s))
            },
            Err(e) => Err(e),
        }
    } else if tag == GGUF_TYPE_ARRAY {
        let item_tag = match reader.read_u32() {
            Ok(v) => v,
            Err(e) => {
                return Err(e);
            },
        };
        let count64 = match reader.read_u64() {
            Ok(v) => v,
            Err(e) => {
                return Err(e);
            },
        };
        let count: usize = #[verifier::truncate]
        (count64 as usize);
        if count > MAX_ARRAY_ITEMS {
            let mut msg: Vec<char> = Vec::new();
            push_text(&mut msg, "Array length ");
            push_decimal(&mut msg, count as u64);
            push_text(&mut msg, " is unreasonably large");
            assert(msg@ =~= long_array_text(count as nat));
            return Err(gguf_fail(&msg));
        }
        let ghost first = reader.pos as int;
        let mut items: Vec<GgufValue> = Vec::new();
        let mut i: usize = 0;
        assert(values_view(items@) =~= Seq::<ValueView>::empty());
        while i < count
            invariant
                i <= count,
                reader.data == old(reader).data,
                data == old(reader).data@,
                first == start + 12,
                start == old(reader).pos,
                first <= reader.pos <= data.len(),
                parse_items(data, first, item_tag, i as nat) == Ok::<
                    (Seq<ValueView>, int),
                    ModelErrorView,
                >((values_view(items@), reader.pos as int)),
            decreases count - i,
        {
            let ghost before = values_view(items@);
            match read_value(reader, item_tag) {
                Ok(v) => {
                    items.push(v);
                    assert(values_view(items@) =~= before.push(v@));
                },
                Err(e) => {
                    proof {
                        items_failure(data, first, item_tag, (i + 1) as nat, count as nat);
                    }
                    return Err(e);
                },
            }
            i = i + 1;
        }
        proof {
            array_view(items);
        }
        Ok(GgufValue::Array(items))
    } else if tag == GGUF_TYPE_UINT64 {
        match reader.read_u64() {
            Ok(v) => Ok(GgufValue::Uint64(v)),
            Err(e) => Err(e),
        }
    } else if tag == GGUF_TYPE_INT64 {
        match reader.read_i64() {
            Ok(v) => Ok(GgufValue::Int64(v)),
            Err(e) => Err(e),
        }
    } else if tag == GGUF_TYPE_FLOAT64 {
        match reader.read_u64() {
            Ok(v) => Ok(GgufValue::Float64(v)),
            Err(e) => Err(e),
        }
    } else {
        let mut msg: Vec<char> = Vec::new();
        push_text(&mut msg, "Unknown metadata value type: ");
        push_decimal(&mut msg, tag as u64);
        assert(msg@ =~= unknown_type_text(tag));
        Err(gguf_fail(&msg))
    }
}

/// Once the first `k` items fail to parse, so do the first `n` for every
/// `n` from `k` on, with the same error.
pub proof fn items_failure(data: Seq<u8>, pos: int, tag: u32, k: nat, n: nat)
    requires
        k <= n,
        parse_items(data, pos, tag, k) is Err,
    ensures
        parse_items(data, pos, tag, n) == parse_items(data, pos, tag, k),
    decreases n - k,
{
    if k < n {
        items_failure(data, pos, tag, k, (n - 1) as nat);
    }
}

} // verus!
