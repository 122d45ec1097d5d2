//! The header of a GGUF file: magic, version, the metadata table and the
//! tensor table.

use vstd::prelude::*;
use crate::error::{ModelError, ModelErrorView};
use crate::gguf::{
    gguf_error, gguf_fail, parse_value, read_value, take_string, take_u32, take_u64,
    GgufValue, Parsed, Reader, ValueView,
};
use crate::text::{decimal_text, push_decimal, push_text};

verus! {

/// The smallest file that can hold a header.
pub const MIN_FILE_BYTES: usize = 24;

/// The boundary to which the tensor data is aligned.
pub const DATA_ALIGNMENT: usize = 32;

/// One entry of the tensor table.
#[derive(Clone, Debug)]
pub struct GgufTensor {
    pub name: String,
    pub shape: Vec<u64>,
    pub ggml_type: u32,
    /// Where the tensor's data starts, counted from the start of the data
    /// section.
    pub offset: u64,
}

/// The value of a `GgufTensor`, with the name as a sequence of characters.
pub struct GgufTensorView {
    pub name: Seq<char>,
    pub shape: Seq<u64>,
    pub ggml_type: u32,
    pub offset: u64,
}

impl View for GgufTensor {
    type V = GgufTensorView;

    open spec fn view(&self) -> GgufTensorView {
        GgufTensorView {
            name: self.name@,
            shape: self.shape@,
            ggml_type: self.ggml_type,
            offset: self.offset,
        }
    }
}

/// What the header of a GGUF file holds.
#[derive(Debug)]
pub struct GgufFile {
    pub version: u32,
    pub tensor_count: u64,
    pub metadata_count: u64,
    /// The metadata in the order of the file. Where a key occurs twice, its
    /// last entry counts.
    pub metadata: Vec<(String, GgufValue)>,
    pub tensors: Vec<GgufTensor>,
    /// The position of the first metadata entry.
    pub metadata_start: usize,
    /// The position just after the last metadata entry, where the tensor
    /// table starts.
    pub metadata_end: usize,
    /// The position just after the tensor table.
    pub header_end: usize,
}

/// The value of a `GgufFile`, with lists in place of vectors.
pub struct GgufFileView {
    pub version: u32,
    pub tensor_count: u64,
    pub metadata_count: u64,
    pub metadata: Seq<(Seq<char>, ValueView)>,
    pub tensors: Seq<GgufTensorView>,
    pub metadata_start: int,
    pub metadata_end: int,
    pub header_end: int,
}

/// The values of a list of metadata entries.
pub open spec fn metadata_view(s: Seq<(String, GgufValue)>) -> Seq<(Seq<char>, ValueView)> {
    Seq::new(s.len(), |i: int| (s[i].0@, s[i].1@))
}

/// The values of a list of tensor entries.
pub open spec fn tensors_view(s: Seq<GgufTensor>) -> Seq<GgufTensorView> {
    Seq::new(s.len(), |i: int| s[i]@)
}

impl View for GgufFile {
    type V = GgufFileView;

    open spec fn view(&self) -> GgufFileView {
        GgufFileView {
            version: self.version,
            tensor_count: self.tensor_count,
            metadata_count: self.metadata_count,
            metadata: metadata_view(self.metadata@),
            tensors: tensors_view(self.tensors@),
            metadata_start: self.metadata_start as int,
            metadata_end: self.metadata_end as int,
            header_end: self.header_end as int,
        }
    }
}

// ---------------------------------------------------------------------------
// The format
// ---------------------------------------------------------------------------

/// The four bytes that every GGUF file starts with: the letters `GGUF`.
pub open spec fn magic() -> Seq<u8> {
    seq![0x47u8, 0x47u8, 0x55u8, 0x46u8]
}

/// Four bytes written as a list of decimal numbers in square brackets.
pub open spec fn byte_list_text(b: Seq<u8>) -> Seq<char>
    recommends
        b.len() == 4,
{
    "["@ + decimal_text(b[0] as nat) + ", "@ + decimal_text(b[1] as nat) + ", "@ + decimal_text(
        b[2] as nat,
    ) + ", "@ + decimal_text(b[3] as nat) + "]"@
}

/// The text of the error for a file that starts with other bytes.
pub open spec fn bad_magic_text(found: Seq<u8>) -> Seq<char> {
    "Invalid magic bytes: "@ + byte_list_text(found) + " (expected "@ + byte_list_text(magic())
        + ")"@
}

/// The text of the error for a version other than 2 and 3.
pub open spec fn bad_version_text(version: u32) -> Seq<char> {
    "Unsupported GGUF version: "@ + decimal_text(version as nat) + " (supported: 2, 3)"@
}

/// A count: a 64-bit number from version 3 on, a 32-bit number before.
pub open spec fn parse_count(data: Seq<u8>, pos: int, version: u32) -> Parsed<u64> {
    if version >= 3 {
        take_u64(data, pos)
    } else {
        match take_u32(data, pos) {
            Ok((v, p)) => Ok((v as u64, p)),
            Err(e) => Err(e),
        }
    }
}

/// One metadata entry: the key, the type of the value, the value.
pub open spec fn parse_entry(data: Seq<u8>, pos: int) -> Parsed<(Seq<char>, ValueView)> {
    match take_string(data, pos) {
        Err(e) => Err(e),
        Ok((key, p)) => match take_u32(data, p) {
            Err(e) => Err(e),
            Ok((tag, q)) => match parse_value(data, q, tag) {
                Err(e) => Err(e),
                Ok((value, r)) => Ok(((key, value), r)),
            },
        },
    }
}

/// `count` metadata entries, one after the other.
pub open spec fn parse_entries(data: Seq<u8>, pos: int, count: nat) -> Parsed<
    Seq<(Seq<char>, ValueView)>,
>
    decreases count,
{
    if count == 0 {
        Ok((Seq::empty(), pos))
    } else {
        match parse_entries(data, pos, (count - 1) as nat) {
            Err(e) => Err(e),
            Ok((entries, p)) => match parse_entry(data, p) {
                Err(e) => Err(e),
                Ok((entry, q)) => Ok((entries.push(entry), q)),
            },
        }
    }
}

/// `count` dimensions, each a 64-bit number.
pub open spec fn parse_dims(data: Seq<u8>, pos: int, count: nat) -> Parsed<Seq<u64>>
    decreases count,
{
    if count == 0 {
        Ok((Seq::empty(), pos))
    } else {
        match parse_dims(data, pos, (count - 1) as nat) {
            Err(e) => Err(e),
            Ok((dims, p)) => match take_u64(data, p) {
                Err(e) => Err(e),
                Ok((d, q)) => Ok((dims.push(d), q)),
            },
        }
    }
}

/// One entry of the tensor table: the name, the number of dimensions, the
/// dimensions, the type tag, the offset of the data.
pub open spec fn parse_tensor(data: Seq<u8>, pos: int) -> Parsed<GgufTensorView> {
    match take_string(data, pos) {
        Err(e) => Err(e),
        Ok((name, p)) => match take_u32(data, p) {
            Err(e) => Err(e),
            Ok((n_dims, q)) => match parse_dims(data, q, n_dims as nat) {
                Err(e) => Err(e),
                Ok((shape, r)) => match take_u32(data, r) {
                    Err(e) => Err(e),
                    Ok((ggml_type, s)) => match take_u64(data, s) {
                        Err(e) => Err(e),
                        Ok((offset, t)) => Ok(
                            (GgufTensorView { name, shape, ggml_type, offset }, t),
                        ),
                    },
                },
            },
        },
    }
}

/// `count` entries of the tensor table, one after the other.
pub open spec fn parse_tensors(data: Seq<u8>, pos: int, count: nat) -> Parsed<Seq<GgufTensorView>>
    decreases count,
{
    if count == 0 {
        Ok((Seq::empty(), pos))
    } else {
        match parse_tensors(data, pos, (count - 1) as nat) {
            Err(e) => Err(e),
            Ok((tensors, p)) => match parse_tensor(data, p) {
                Err(e) => Err(e),
                Ok((tensor, q)) => Ok((tensors.push(tensor), q)),
            },
        }
    }
}

/// The header of the file that `data` holds: the magic bytes, the version
/// (2 or 3), the number of tensors and of metadata entries, the metadata
/// entries, the tensor table.
pub open spec fn parse_file(data: Seq<u8>) -> Result<GgufFileView, ModelErrorView> {
    if data.len() < MIN_FILE_BYTES {
        Err(ModelErrorView::FileTooSmall(data.len() as u64))
    } else if data.subrange(0, 4) != magic() {
        Err(gguf_error(bad_magic_text(data.subrange(0, 4))))
    } else {
        match take_u32(data, 4) {
            Err(e) => Err(e),
            Ok((version, p)) => if version < 2 || version > 3 {
                Err(gguf_error(bad_version_text(version)))
            } else {
                match parse_count(data, p, version) {
                    Err(e) => Err(e),
                    Ok((tensor_count, q)) => match parse_count(data, q, version) {
                        Err(e) => Err(e),
                        Ok((metadata_count, r)) => match parse_entries(
                            data,
                            r,
                            metadata_count as nat,
                        ) {
                            Err(e) => Err(e),
                            Ok((metadata, s)) => match parse_tensors(
                                data,
                                s,
                                tensor_count as nat,
                            ) {
                                Err(e) => Err(e),
                                Ok((tensors, t)) => Ok(
                                    GgufFileView {
                                        version,
                                        tensor_count,
                                        metadata_count,
                                        metadata,
                                        tensors,
                                        metadata_start: r,
                                        metadata_end: s,
                                        header_end: t,
                                    },
                                ),
                            },
                        },
                    },
                }
            },
        }
    }
}

/// The position at which the tensor data starts: the next multiple of 32 at
/// or after the end of the header.
pub open spec fn data_start(header_end: int) -> int {
    (header_end + 31) / 32 * 32
}

// ---------------------------------------------------------------------------
// Facts about positions
// ---------------------------------------------------------------------------

/// Dimensions that were read end at or behind where they begin and within
/// the data, and there are as many of them as were asked for.
pub proof fn parse_dims_advance(data: Seq<u8>, pos: int, count: nat)
    requires
        0 <= pos <= data.len(),
        parse_dims(data, pos, count) is Ok,
    ensures
        pos <= parse_dims(data, pos, count)->Ok_0.1 <= data.len(),
        parse_dims(data, pos, count)->Ok_0.0.len() == count,
    decreases count,
{
    if count > 0 {
        parse_dims_advance(data, pos, (count - 1) as nat);
    }
}

/// Where the first `k` dimensions cannot be read, more of them fail in the
/// same way.
pub proof fn parse_dims_failure(data: Seq<u8>, pos: int, k: nat, n: nat)
    requires
        k <= n,
        parse_dims(data, pos, k) is Err,
    ensures
        parse_dims(data, pos, n) == parse_dims(data, pos, k),
    decreases n - k,
{
    if k < n {
        parse_dims_failure(data, pos, k, (n - 1) as nat);
    }
}

/// Where the first `k` entries cannot be read, more of them fail in the
/// same way.
pub proof fn parse_entries_failure(data: Seq<u8>, pos: int, k: nat, n: nat)
    requires
        k <= n,
        parse_entries(data, pos, k) is Err,
    ensures
        parse_entries(data, pos, n) == parse_entries(data, pos, k),
    decreases n - k,
{
    if k < n {
        parse_entries_failure(data, pos, k, (n - 1) as nat);
    }
}

/// Where the first `k` tensors cannot be read, more of them fail in the
/// same way.
pub proof fn parse_tensors_failure(data: Seq<u8>, pos: int, k: nat, n: nat)
    requires
        k <= n,
        parse_tensors(data, pos, k) is Err,
    ensures
        parse_tensors(data, pos, n) == parse_tensors(data, pos, k),
    decreases n - k,
{
    if k < n {
        parse_tensors_failure(data, pos, k, (n - 1) as nat);
    }
}

// ---------------------------------------------------------------------------
// Reading
// ---------------------------------------------------------------------------

fn read_count(reader: &mut Reader, version: u32) -> (r: Result<u64, ModelError>)
    ensures
        final(reader).data == old(reader).data,
        match r {
            Ok(v) => parse_count(old(reader).data@, old(reader).pos as int, version) == Ok::<
                (u64, int),
                ModelErrorView,
            >((v, final(reader).pos as int)),
            Err(e) => parse_count(old(reader).data@, old(reader).pos as int, version) == Err::<
                (u64, int),
                ModelErrorView,
            >(e@),
        },
{
    if version >= 3 {
        reader.read_u64()
    } else {
        match reader.read_u32() {
            Ok(v) => Ok(v as u64),
            Err(e) => Err(e),
        }
    }
}

fn read_entry(reader: &mut Reader) -> (r: Result<(String, GgufValue), ModelError>)
    requires
        old(reader).pos <= old(reader).data@.len(),
    ensures
        final(reader).data == old(reader).data,
        match r {
            Ok(kv) => parse_entry(old(reader).data@, old(reader).pos as int) == Ok::<
                ((Seq<char>, ValueView), int),
                ModelErrorView,
            >(((kv.0@, kv.1@), final(reader).pos as int)) && old(reader).pos < final(reader).pos
                <= final(reader).data@.len(),
            Err(e) => parse_entry(old(reader).data@, old(reader).pos as int) == Err::<
                ((Seq<char>, ValueView), int),
                ModelErrorView,
            >(e@),
        },
{
    let key = match reader.read_string() {
        Ok(s) => s,
        Err(e) => {
            return Err(e);
        },
    };
    let tag = match reader.read_u32() {
        Ok(v) => v,
        Err(e) => {
            return Err(e);
        },
    };
    match read_value(reader, tag) {
        Ok(value) => Ok((key, value)),
        Err(e) => Err(e),
    }
}

#[verifier::loop_isolation(false)]
fn read_tensor(reader: &mut Reader) -> (r: Result<GgufTensor, ModelError>)
    requires
        old(reader).pos <= old(reader).data@.len(),
    ensures
        final(reader).data == old(reader).data,
        match r {
            Ok(t) => parse_tensor(old(reader).data@, old(reader).pos as int) == Ok::<
                (GgufTensorView, int),
                ModelErrorView,
            >((t@, final(reader).pos as int)) && old(reader).pos < final(reader).pos
                <= final(reader).data@.len(),
            Err(e) => parse_tensor(old(reader).data@, old(reader).pos as int) == Err::<
                (GgufTensorView, int),
                ModelErrorView,
            >(e@),
        },
{
    let ghost data = reader.data@;
    let name = match reader.read_string() {
        Ok(s) => s,
        Err(e) => {
            return Err(e);
        },
    };
    let n_dims = match reader.read_u32() {
        Ok(v) => v,
        Err(e) => {
            return Err(e);
        },
    };
    let ghost first = reader.pos as int;
    let mut shape: Vec<u64> = Vec::new();
    let mut i: u32 = 0;
    while i < n_dims
        invariant
            i <= n_dims,
            reader.data == old(reader).data,
            first <= reader.pos <= data.len(),
            parse_dims(data, first, i as nat) == Ok::<(Seq<u64>, int), ModelErrorView>(
                (shape@, reader.pos as int),
            ),
        decreases n_dims - i,
    {
        match reader.read_u64() {
            Ok(d) => {
                shape.push(d);
            },
            Err(e) => {
                proof {
                    parse_dims_failure(data, first, (i + 1) as nat, n_dims as nat);
                }
                return Err(e);
            },
        }
        i = i + 1;
    }
    let ggml_type = match reader.read_u32() {
        Ok(v) => v,
        Err(e) => {
            return Err(e);
        },
    };
    let offset = match reader.read_u64() {
        Ok(v) => v,
        Err(e) => {
            return Err(e);
        },
    };
    Ok(GgufTensor { name, shape, ggml_type, offset })
}

fn push_byte_list(out: &mut Vec<char>, b: &[u8])
    requires
        b@.len() == 4,
    ensures
        final(out)@ == old(out)@ + byte_list_text(b@),
{
    push_text(out, "[");
    push_decimal(out, b[0] as u64);
    push_text(out, ", ");
    push_decimal(out, b[1] as u64);
    push_text(out, ", ");
    push_decimal(out, b[2] as u64);
    push_text(out, ", ");
    push_decimal(out, b[3] as u64);
    push_text(out, "]");
    assert(out@ =~= old(out)@ + byte_list_text(b@));
}

/// Checks the four magic bytes.
fn check_magic(found: &[u8]) -> (r: Result<(), ModelError>)
    requires
        found@.len() == 4,
    ensures
        match r {
            Ok(_) => found@ == magic(),
            Err(e) => found@ != magic() && e@ == gguf_error(bad_magic_text(found@)),
        },
{
    if found[0] == 0x47 && found[1] == 0x47 && found[2] == 0x55 && found[3] == 0x46 {
        assert(found@ =~= magic());
        return Ok(());
    }
    let mut msg: Vec<char> = Vec::new();
    push_text(&mut msg, "Invalid magic bytes: ");
    push_byte_list(&mut msg, found);
    push_text(&mut msg, " (expected ");
    let expected: [u8; 4] = [0x47, 0x47, 0x55, 0x46];
    assert(expected@ =~= magic());
    push_byte_list(&mut msg, expected.as_slice());
    push_text(&mut msg, ")");
    assert(msg@ =~= bad_magic_text(found@));
    assert(found@ != magic()) by {
        if found@ == magic() {
            assert(found@[0] == magic()[0]);
            assert(found@[1] == magic()[1]);
            assert(found@[2] == magic()[2]);
            assert(found@[3] == magic()[3]);
        }
    }
    Err(gguf_fail(&msg))
}

/// Checks the version.
fn check_version(version: u32) -> (r: Result<(), ModelError>)
    ensures
        match r {
            Ok(_) => 2 <= version <= 3,
            Err(e) => !(2 <= version <= 3) && e@ == gguf_error(bad_version_text(version)),
        },
{
    if version < 2 || version > 3 {
        let mut msg: Vec<char> = Vec::new();
        push_text(&mut msg, "Unsupported GGUF version: ");
        push_decimal(&mut msg, version as u64);
        push_text(&mut msg, " (supported: 2, 3)");
        assert(msg@ =~= bad_version_text(version));
        return Err(gguf_fail(&msg));
    }
    Ok(())
}

/// Reads `count` metadata entries.
#[verifier::loop_isolation(false)]
fn read_entries(reader: &mut Reader, count: u64) -> (r: Result<Vec<(String, GgufValue)>, ModelError>)
    requires
        old(reader).pos <= old(reader).data@.len(),
    ensures
        final(reader).data == old(reader).data,
        match r {
            Ok(list) => parse_entries(old(reader).data@, old(reader).pos as int, count as nat)
                == Ok::<(Seq<(Seq<char>, ValueView)>, int), ModelErrorView>(
                (metadata_view(list@), final(reader).pos as int),
            ) && old(reader).pos <= final(reader).pos <= final(reader).data@.len(),
            Err(e) => parse_entries(old(reader).data@, old(reader).pos as int, count as nat)
                == Err::<(Seq<(Seq<char>, ValueView)>, int), ModelErrorView>(e@),
        },
{
    let ghost data = reader.data@;
    let ghost first = reader.pos as int;
    let mut metadata: Vec<(String, GgufValue)> = Vec::new();
    let mut i: u64 = 0;
    assert(metadata_view(metadata@) =~= Seq::<(Seq<char>, ValueView)>::empty());
    while i < count
        invariant
            i <= count,
            reader.data == old(reader).data,
            first <= reader.pos <= data.len(),
            parse_entries(data, first, i as nat) == Ok::<
                (Seq<(Seq<char>, ValueView)>, int),
                ModelErrorView,
            >((metadata_view(metadata@), reader.pos as int)),
        decreases count - i,
    {
        let ghost before = metadata_view(metadata@);
        match read_entry(reader) {
            Ok(kv) => {
                let ghost entry = (kv.0@, kv.1@);
                metadata.push(kv);
                assert(metadata_view(metadata@) =~= before.push(entry));
            },
            Err(e) => {
                proof {
                    parse_entries_failure(data, first, (i + 1) as nat, count as nat);
                }
                return Err(e);
            },
        }
        i = i + 1;
    }
    Ok(metadata)
}

/// Reads `count` entries of the tensor table.
#[verifier::loop_isolation(false)]
fn read_tensors(reader: &mut Reader, count: u64) -> (r: Result<Vec<GgufTensor>, ModelError>)
    requires
        old(reader).pos <= old(reader).data@.len(),
    ensures
        final(reader).data == old(reader).data,
        match r {
            Ok(list) => parse_tensors(old(reader).data@, old(reader).pos as int, count as nat)
                == Ok::<(Seq<GgufTensorView>, int), ModelErrorView>(
                (tensors_view(list@), final(reader).pos as int),
            ) && old(reader).pos <= final(reader).pos <= final(reader).data@.len(),
            Err(e) => parse_tensors(old(reader).data@, old(reader).pos as int, count as nat)
                == Err::<(Seq<GgufTensorView>, int), ModelErrorView>(e@),
        },
{
    let ghost data = reader.data@;
    let ghost first = reader.pos as int;
    let mut tensors: Vec<GgufTensor> = Vec::new();
    let mut k: u64 = 0;
    assert(tensors_view(tensors@) =~= Seq::<GgufTensorView>::empty());
    while k < count
        invariant
            k <= count,
            reader.data == old(reader).data,
            first <= reader.pos <= data.len(),
            parse_tensors(data, first, k as nat) == Ok::<
                (Seq<GgufTensorView>, int),
                ModelErrorView,
            >((tensors_view(tensors@), reader.pos as int)),
        decreases count - k,
    {
        let ghost before = tensors_view(tensors@);
        match read_tensor(reader) {
            Ok(t) => {
                let ghost entry = t@;
                tensors.push(t);
                assert(tensors_view(tensors@) =~= before.push(entry));
            },
            Err(e) => {
                proof {
                    parse_tensors_failure(data, first, (k + 1) as nat, count as nat);
                }
                return Err(e);
            },
        }
        k = k + 1;
    }
    Ok(tensors)
}

/// Reads the header of the GGUF file that `data` holds.
pub fn parse(data: &[u8]) -> (r: Result<GgufFile, ModelError>)
    ensures
        match r {
            Ok(file) => parse_file(data@) == Ok::<GgufFileView, ModelErrorView>(file@)
                && file.metadata_start <= file.metadata_end <= file.header_end <= data@.len(),
            Err(e) => parse_file(data@) == Err::<GgufFileView, ModelErrorView>(e@),
        },
{
    if data.len() < MIN_FILE_BYTES {
        return Err(ModelError::FileTooSmall(data.len() as u64));
    }
    let mut reader = Reader::new(data);
    let found = match reader.read_bytes(4) {
        Ok(b) => b,
        Err(e) => {
            return Err(e);
        },
    };
    match check_magic(found) {
        Ok(_) => {},
        Err(e) => {
            return Err(e);
        },
    }
    let version = match reader.read_u32() {
        Ok(v) => v,
        Err(e) => {
            return Err(e);
        },
    };
    match check_version(version) {
        Ok(_) => {},
        Err(e) => {
            return Err(e);
        },
    }
    let tensor_count = match read_count(&mut reader, version) {
        Ok(v) => v,
        Err(e) => {
            return Err(e);
        },
    };
    let metadata_count = match read_count(&mut reader, version) {
        Ok(v) => v,
        Err(e) => {
            return Err(e);
        },
    };
    let metadata_start = reader.pos;
    let metadata = match read_entries(&mut reader, metadata_count) {
        Ok(v) => v,
        Err(e) => {
            return Err(e);
        },
    };
    let metadata_end = reader.pos;
    let tensors = match read_tensors(&mut reader, tensor_count) {
        Ok(v) => v,
        Err(e) => {
            return Err(e);
        },
    };
    Ok(
        GgufFile {
            version,
            tensor_count,
            metadata_count,
            metadata,
            tensors,
            metadata_start,
            metadata_end,
            header_end: reader.pos,
        },
    )
}

/// The position at which the tensor data of a file starts.
pub fn data_offset(header_end: usize) -> (r: Option<usize>)
    ensures
        r == (if data_start(header_end as int) <= usize::MAX {
            Some(data_start(header_end as int) as usize)
        } else {
            None::<usize>
        }),
{
    let rest: usize = header_end % DATA_ALIGNMENT;
    if rest == 0 {
        Some(header_end)
    } else if header_end - rest > usize::MAX - DATA_ALIGNMENT {
        None
    } else {
        Some(header_end - rest + DATA_ALIGNMENT)
    }
}

} // verus!
