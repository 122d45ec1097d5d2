//! Finding one tensor in a model file and reading its stored form.
//!
//! What is found is where the tensor's bytes lie and how they are encoded.
//! Block-quantized data is decoded as far as whole numbers go: each weight
//! is given by its quantized level and by the bits of the half-precision
//! scale (and offset) of its block. Turning these into floating-point
//! numbers is left to the caller.

use vstd::prelude::*;
use crate::error::{ModelError, ModelErrorView};
use crate::gguf::{gguf_error, gguf_fail, le_u16};
use crate::gguf_file::{data_start, tensors_view, GgufFile, GgufFileView, GgufTensor, GgufTensorView};
use crate::json::{json_get, json_get_str, json_u64, items_view, parse_json, JsonValue, JsonView};
use crate::model::ModelFormat;
use crate::precompute::{count_elements, shape_elems, times};
use crate::registry::ParentModel;
use crate::safetensors::{header_bytes, read_frame, safetensors_error, safetensors_fail};
use crate::seqs::{last_where, last_where_absent, last_where_found};
use crate::text::{decimal_text, push_decimal, push_decimal_wide, push_text, str_eq};

verus! {

// ---------------------------------------------------------------------------
// Which reader a parent needs
// ---------------------------------------------------------------------------

/// How the tensors of a parent are read.
#[derive(Clone, Copy, Debug, PartialEq, Eq, Structural)]
pub enum LoadRoute {
    /// From one SafeTensors file.
    SafeTensorsFile,
    /// From a directory of SafeTensors files, tried in the order of their
    /// names.
    SafeTensorsShards,
    /// From one GGUF file.
    GgufFile,
}

/// How the tensors of a parent are read.
pub fn load_route(parent: &ParentModel) -> (r: LoadRoute)
    ensures
        r == (match parent.format {
            ModelFormat::SafeTensors => if parent.is_dir {
                LoadRoute::SafeTensorsShards
            } else {
                LoadRoute::SafeTensorsFile
            },
            ModelFormat::Gguf => LoadRoute::GgufFile,
        }),
{
    match parent.format {
        ModelFormat::SafeTensors => if parent.is_dir {
            LoadRoute::SafeTensorsShards
        } else {
            LoadRoute::SafeTensorsFile
        },
        ModelFormat::Gguf => LoadRoute::GgufFile,
    }
}

/// The names of a parent's tensors, in their order.
pub fn get_tensor_names(parent: &ParentModel) -> (r: Vec<String>)
    ensures
        r@.len() == parent.compat.tensor_metas@.len(),
        forall|i: int|
            0 <= i < r@.len() ==> (#[trigger] r@[i])@ == parent.compat.tensor_metas@[i].name@,
{
    parent.compat.tensor_names()
}

/// What to do after one file of a directory has been searched.
#[derive(Debug)]
pub enum ShardStep<T> {
    /// The tensor was found.
    Found(T),
    /// The file does not hold the tensor: the next file is searched.
    TryNext,
    /// The search has failed.
    Fail(ModelError),
}

/// Decides how the search through a directory goes on after one file.
pub fn after_shard<T>(outcome: Result<T, ModelError>) -> (r: ShardStep<T>)
    ensures
        match outcome {
            Ok(t) => r == ShardStep::Found(t),
            Err(ModelError::TensorNotFound { tensor_name, parent_id }) => r is TryNext,
            Err(e) => r == ShardStep::<T>::Fail(e),
        },
{
    match outcome {
        Ok(t) => ShardStep::Found(t),
        Err(ModelError::TensorNotFound { tensor_name, parent_id }) => ShardStep::TryNext,
        Err(e) => ShardStep::Fail(e),
    }
}

/// The error for a tensor that no file of a directory holds.
pub fn not_in_any_shard(tensor_name: &str, directory: &str) -> (e: ModelError)
    ensures
        e@ == (ModelErrorView::TensorNotFound { tensor_name: tensor_name@, parent_id: directory@ }),
{
    ModelError::TensorNotFound {
        tensor_name: tensor_name.to_owned(),
        parent_id: directory.to_owned(),
    }
}

// ---------------------------------------------------------------------------
// SafeTensors
// ---------------------------------------------------------------------------

/// The element type of a stored tensor: how its bytes are read before the
/// values are brought to single precision.
#[derive(Clone, Copy, Debug, PartialEq, Eq, Structural)]
pub enum ElementKind {
    /// Single-precision numbers.
    F32,
    /// Half-precision numbers.
    F16,
    /// Half-precision numbers with the wide exponent.
    BF16,
    /// Double-precision numbers.
    F64,
    /// Signed whole numbers of 64 bits.
    I64,
    /// Signed whole numbers of 32 bits.
    I32,
    /// Signed whole numbers of 16 bits.
    I16,
    /// Signed whole numbers of 8 bits.
    I8,
    /// Unsigned whole numbers of 8 bits.
    U8,
    /// Truth values, one byte each: zero is false, anything else true.
    Bool,
}

/// The element type that `dtype` names and the number of bytes that one
/// element takes; `None` for a type that is not supported. Each name has a
/// kind of its own.
pub open spec fn storage_of(dtype: Seq<char>) -> Option<(ElementKind, usize)> {
    if dtype == "F32"@ {
        Some((ElementKind::F32, 4usize))
    } else if dtype == "F16"@ {
        Some((ElementKind::F16, 2usize))
    } else if dtype == "BF16"@ {
        Some((ElementKind::BF16, 2usize))
    } else if dtype == "F64"@ {
        Some((ElementKind::F64, 8usize))
    } else if dtype == "I64"@ {
        Some((ElementKind::I64, 8usize))
    } else if dtype == "I32"@ {
        Some((ElementKind::I32, 4usize))
    } else if dtype == "I16"@ {
        Some((ElementKind::I16, 2usize))
    } else if dtype == "I8"@ {
        Some((ElementKind::I8, 1usize))
    } else if dtype == "U8"@ {
        Some((ElementKind::U8, 1usize))
    } else if dtype == "BOOL"@ {
        Some((ElementKind::Bool, 1usize))
    } else {
        None
    }
}

/// How an element type is read and how many bytes one element takes.
pub fn safetensors_dtype(dtype: &str) -> (r: Result<(ElementKind, usize), ModelError>)
    ensures
        match r {
            Ok(s) => storage_of(dtype@) == Some(s),
            Err(e) => storage_of(dtype@) is None && e@ == safetensors_error(
                "Unsupported dtype: "@ + dtype@,
            ),
        },
{
    if str_eq(dtype, "F32") {
        Ok((ElementKind::F32, 4))
    } else if str_eq(dtype, "F16") {
        Ok((ElementKind::F16, 2))
    } else if str_eq(dtype, "BF16") {
        Ok((ElementKind::BF16, 2))
    } else if str_eq(dtype, "F64") {
        Ok((ElementKind::F64, 8))
    } else if str_eq(dtype, "I64") {
        Ok((ElementKind::I64, 8))
    } else if str_eq(dtype, "I32") {
        Ok((ElementKind::I32, 4))
    } else if str_eq(dtype, "I16") {
        Ok((ElementKind::I16, 2))
    } else if str_eq(dtype, "I8") {
        Ok((ElementKind::I8, 1))
    } else if str_eq(dtype, "U8") {
        Ok((ElementKind::U8, 1))
    } else if str_eq(dtype, "BOOL") {
        Ok((ElementKind::Bool, 1))
    } else {
        let mut msg: Vec<char> = Vec::new();
        push_text(&mut msg, "Unsupported dtype: ");
        push_text(&mut msg, dtype);
        assert(msg@ =~= "Unsupported dtype: "@ + dtype@);
        Err(safetensors_fail(&msg))
    }
}

/// Where a tensor lies in a SafeTensors file, and how it is stored.
#[derive(Clone, Debug)]
pub struct SafeTensorsSlice {
    pub kind: ElementKind,
    pub elem_size: usize,
    pub shape: Vec<usize>,
    /// The position of the first byte of the tensor in the file.
    pub start: usize,
    /// The position after the last byte of the tensor in the file.
    pub end: usize,
}

/// The value of a `SafeTensorsSlice`, with the shape as a list.
pub struct SafeTensorsSliceView {
    pub kind: ElementKind,
    pub elem_size: usize,
    pub shape: Seq<usize>,
    pub start: usize,
    pub end: usize,
}

impl View for SafeTensorsSlice {
    type V = SafeTensorsSliceView;

    open spec fn view(&self) -> SafeTensorsSliceView {
        SafeTensorsSliceView {
            kind: self.kind,
            elem_size: self.elem_size,
            shape: self.shape@,
            start: self.start,
            end: self.end,
        }
    }
}

/// The whole numbers among the items, each as a machine size, in their
/// order.
pub open spec fn sizes_in(items: Seq<JsonView>) -> Seq<usize>
    decreases items.len(),
{
    if items.len() == 0 {
        Seq::empty()
    } else {
        let rest = sizes_in(items.drop_last());
        match json_u64(items.last()) {
            Some(n) => rest.push(n as usize),
            None => rest,
        }
    }
}

/// The shape that a tensor's member declares.
pub open spec fn declared_shape(entry: JsonView) -> Seq<usize> {
    match json_get(entry, "shape"@) {
        Some(JsonView::Array(items)) => sizes_in(items),
        _ => Seq::empty(),
    }
}

/// The element type that a tensor's member declares; `F32` where it
/// declares none.
pub open spec fn declared_dtype(entry: JsonView) -> Seq<char> {
    match json_get_str(entry, "dtype"@) {
        Some(d) => d,
        None => "F32"@,
    }
}

/// The number at the place `i` of the items, as a machine size; 0 where
/// the item is no whole number.
pub open spec fn offset_at(items: Seq<JsonView>, i: int) -> usize {
    match json_u64(items[i]) {
        Some(n) => n as usize,
        None => 0,
    }
}

/// The byte range that a tensor's member declares, counted from the end of
/// the header: the first two items of `data_offsets`.
pub open spec fn declared_range(entry: JsonView) -> Option<(usize, usize)> {
    match json_get(entry, "data_offsets"@) {
        Some(JsonView::Array(items)) => if items.len() >= 2 {
            Some((offset_at(items, 0), offset_at(items, 1)))
        } else {
            None
        },
        _ => None,
    }
}

/// The text of the error for a member that is no object.
pub open spec fn not_object_text(name: Seq<char>) -> Seq<char> {
    "Tensor entry '"@ + name + "' is not an object"@
}

/// The text of the error for a member without a byte range.
pub open spec fn no_offsets_text(name: Seq<char>) -> Seq<char> {
    "No data_offsets for tensor '"@ + name + "'"@
}

/// The text of the error for a byte range that the file does not hold.
pub open spec fn outside_text(start: nat, end: nat, payload: nat) -> Seq<char> {
    "Tensor data range "@ + decimal_text(start) + ".."@ + decimal_text(end) + " lies outside the "@
        + decimal_text(payload) + " bytes of tensor data"@
}

/// The text of the error for a byte range that is shorter than the shape
/// asks for.
pub open spec fn too_small_text(have: nat, expected: int) -> Seq<char> {
    "Tensor data too small: "@ + decimal_text(have) + " bytes (expected "@ + decimal_text(
        expected as nat,
    ) + ")"@
}

/// The text of the error for a shape whose size is beyond 64 bits.
pub open spec fn too_many_text(have: nat) -> Seq<char> {
    "Tensor data too small: "@ + decimal_text(have)
        + " bytes (expected more than 18446744073709551615)"@
}

/// Where the tensor `name` lies in a file whose header document is `doc`
/// and whose tensor data are the `payload` bytes from `payload_start` on.
///
/// The checks are made in this order: the header is an object; it has a
/// member `name`; the member is an object; it declares a byte range; the
/// range lies within the tensor data; its element type is supported; the
/// range is as long as the shape asks for.
pub open spec fn located_in(
    doc: JsonView,
    name: Seq<char>,
    payload_start: usize,
    payload: usize,
) -> Result<SafeTensorsSliceView, ModelErrorView> {
    if !(doc is Object) {
        Err(safetensors_error("Header is not a JSON object"@))
    } else {
        match json_get(doc, name) {
            None => Err(
                ModelErrorView::TensorNotFound { tensor_name: name, parent_id: Seq::empty() },
            ),
            Some(entry) => if !(entry is Object) {
                Err(safetensors_error(not_object_text(name)))
            } else {
                match declared_range(entry) {
                    None => Err(safetensors_error(no_offsets_text(name))),
                    Some((start, end)) => if start > end || end > payload {
                        Err(
                            safetensors_error(
                                outside_text(start as nat, end as nat, payload as nat),
                            ),
                        )
                    } else {
                        match storage_of(declared_dtype(entry)) {
                            None => Err(
                                safetensors_error("Unsupported dtype: "@ + declared_dtype(entry)),
                            ),
                            Some((kind, elem_size)) => {
                                let shape = declared_shape(entry);
                                let have = (end - start) as nat;
                                if shape_elems(shape) > u64::MAX || shape_elems(shape) * elem_size
                                    > u64::MAX {
                                    Err(safetensors_error(too_many_text(have)))
                                } else if have < shape_elems(shape) * elem_size {
                                    Err(
                                        safetensors_error(
                                            too_small_text(have, shape_elems(shape) * elem_size),
                                        ),
                                    )
                                } else {
                                    Ok(
                                        SafeTensorsSliceView {
                                            kind,
                                            elem_size,
                                            shape,
                                            start: (payload_start + start) as usize,
                                            end: (payload_start + end) as usize,
                                        },
                                    )
                                }
                            },
                        }
                    },
                }
            },
        }
    }
}

fn read_sizes(entry: &JsonValue) -> (r: Vec<usize>)
    ensures
        r@ == declared_shape(entry@),
{
    let mut shape: Vec<usize> = Vec::new();
    match entry.get("shape") {
        Some(v) => match v.as_array() {
            Some(items) => {
                let ghost list = items_view(items@);
                let mut i: usize = 0;
                assert(list.take(0) =~= Seq::<JsonView>::empty());
                while i < items.len()
                    invariant
                        i <= items.len(),
                        list == items_view(items@),
                        shape@ == sizes_in(list.take(i as int)),
                    decreases items.len() - i,
                {
                    assert(list.take(i + 1).drop_last() =~= list.take(i as int));
                    assert(list.take(i + 1).last() == items@[i as int]@);
                    match items[i].as_u64() {
                        Some(n) => {
                            shape.push(
                                #[verifier::truncate]
                                (n as usize),
                            );
                        },
                        None => {},
                    }
                    i = i + 1;
                }
                assert(list.take(i as int) =~= list);
            },
            None => {},
        },
        None => {},
    }
    shape
}

fn read_range(entry: &JsonValue) -> (r: Option<(usize, usize)>)
    ensures
        r == declared_range(entry@),
{
    match entry.get("data_offsets") {
        Some(v) => match v.as_array() {
            Some(items) => {
                if items.len() < 2 {
                    return None;
                }
                assert(items_view(items@)[0] == items@[0]@);
                assert(items_view(items@)[1] == items@[1]@);
                let start: usize = match items[0].as_u64() {
                    Some(n) => #[verifier::truncate]
                    (n as usize),
                    None => 0,
                };
                let end: usize = match items[1].as_u64() {
                    Some(n) => #[verifier::truncate]
                    (n as usize),
                    None => 0,
                };
                Some((start, end))
            },
            None => None,
        },
        None => None,
    }
}

fn checked_slice(
    kind: ElementKind,
    elem_size: usize,
    shape: Vec<usize>,
    start: usize,
    end: usize,
    payload_start: usize,
) -> (r: Result<SafeTensorsSlice, ModelError>)
    requires
        start <= end,
        payload_start + end <= usize::MAX,
        1 <= elem_size <= 8,
    ensures
        match r {
            Ok(s) => {
                &&& shape_elems(shape@) * elem_size <= end - start
                &&& shape_elems(shape@) <= u64::MAX
                &&& s@ == (SafeTensorsSliceView {
                    kind,
                    elem_size,
                    shape: shape@,
                    start: (payload_start + start) as usize,
                    end: (payload_start + end) as usize,
                })
            },
            Err(e) => {
                let have = (end - start) as nat;
                if shape_elems(shape@) > u64::MAX || shape_elems(shape@) * elem_size > u64::MAX {
                    e@ == safetensors_error(too_many_text(have))
                } else {
                    have < shape_elems(shape@) * elem_size && e@ == safetensors_error(
                        too_small_text(have, shape_elems(shape@) * elem_size),
                    )
                }
            },
        },
{
    let have: usize = end - start;
    let expected: Option<u64> = match count_elements(shape.as_slice()) {
        Some(n) => times(n, elem_size as u64),
        None => None,
    };
    match expected {
        None => {
            let mut msg: Vec<char> = Vec::new();
            push_text(&mut msg, "Tensor data too small: ");
            push_decimal(&mut msg, have as u64);
            push_text(&mut msg, " bytes (expected more than 18446744073709551615)");
            assert(msg@ =~= too_many_text(have as nat));
            Err(safetensors_fail(&msg))
        },
        Some(bytes) => {
            if (have as u64) < bytes {
                let mut msg: Vec<char> = Vec::new();
                push_text(&mut msg, "Tensor data too small: ");
                push_decimal(&mut msg, have as u64);
                push_text(&mut msg, " bytes (expected ");
                push_decimal(&mut msg, bytes);
                push_text(&mut msg, ")");
                assert(msg@ =~= too_small_text(have as nat, bytes as int));
                Err(safetensors_fail(&msg))
            } else {
                Ok(
                    SafeTensorsSlice {
                        kind,
                        elem_size,
                        shape,
                        start: payload_start + start,
                        end: payload_start + end,
                    },
                )
            }
        },
    }
}

/// Finds the tensor `name` by the header document of a file whose tensor
/// data are the `payload` bytes from `payload_start` on.
pub fn locate_in_document(doc: &JsonValue, name: &str, payload_start: usize, payload: usize) -> (r:
    Result<SafeTensorsSlice, ModelError>)
    requires
        payload_start + payload <= usize::MAX,
    ensures
        match r {
            Ok(s) => located_in(doc@, name@, payload_start, payload) == Ok::<
                SafeTensorsSliceView,
                ModelErrorView,
            >(s@),
            Err(e) => located_in(doc@, name@, payload_start, payload) == Err::<
                SafeTensorsSliceView,
                ModelErrorView,
            >(e@),
        },
{
    if doc.as_object().is_none() {
        return Err(
            ModelError::ParseError {
                format: "SafeTensors".to_owned(),
                reason: "Header is not a JSON object".to_owned(),
            },
        );
    }
    let entry = match doc.get(name) {
        Some(e) => e,
        None => {
            return Err(
                ModelError::TensorNotFound {
                    tensor_name: name.to_owned(),
                    parent_id: String::new(),
                },
            );
        },
    };
    if entry.as_object().is_none() {
        let mut msg: Vec<char> = Vec::new();
        push_text(&mut msg, "Tensor entry '");
        push_text(&mut msg, name);
        push_text(&mut msg, "' is not an object");
        assert(msg@ =~= not_object_text(name@));
        return Err(safetensors_fail(&msg));
    }
    let (start, end) = match read_range(entry) {
        Some(r) => r,
        None => {
            let mut msg: Vec<char> = Vec::new();
            push_text(&mut msg, "No data_offsets for tensor '");
            push_text(&mut msg, name);
            push_text(&mut msg, "'");
            assert(msg@ =~= no_offsets_text(name@));
            return Err(safetensors_fail(&msg));
        },
    };
    if start > end || end > payload {
        let mut msg: Vec<char> = Vec::new();
        push_text(&mut msg, "Tensor data range ");
        push_decimal(&mut msg, start as u64);
        push_text(&mut msg, "..");
        push_decimal(&mut msg, end as u64);
        push_text(&mut msg, " lies outside the ");
        push_decimal(&mut msg, payload as u64);
        push_text(&mut msg, " bytes of tensor data");
        assert(msg@ =~= outside_text(start as nat, end as nat, payload as nat));
        return Err(safetensors_fail(&msg));
    }
    let dtype: String = match entry.get_str("dtype") {
        Some(d) => d.clone(),
        None => "F32".to_owned(),
    };
    let (kind, elem_size) = match safetensors_dtype(dtype.as_str()) {
        Ok(s) => s,
        Err(e) => {
            return Err(e);
        },
    };
    checked_slice(kind, elem_size, read_sizes(entry), start, end, payload_start)
}

/// Where the tensor `name` lies in the SafeTensors file that `data` holds.
pub open spec fn located(data: Seq<u8>, name: Seq<char>) -> Result<
    SafeTensorsSliceView,
    ModelErrorView,
> {
    match header_bytes(data) {
        Err(e) => Err(e),
        Ok(bytes) => match crate::json::json_of(bytes) {
            Err(why) => Err(safetensors_error("Invalid JSON header: "@ + why)),
            Ok(doc) => located_in(
                doc,
                name,
                (8 + bytes.len()) as usize,
                (data.len() - 8 - bytes.len()) as usize,
            ),
        },
    }
}

/// Finds the tensor `name` in the SafeTensors file that `data` holds.
pub fn locate_safetensors_tensor(data: &[u8], name: &str) -> (r: Result<
    SafeTensorsSlice,
    ModelError,
>)
    ensures
        match r {
            Ok(s) => located(data@, name@) == Ok::<SafeTensorsSliceView, ModelErrorView>(s@)
                && s.start <= s.end <= data@.len(),
            Err(e) => located(data@, name@) == Err::<SafeTensorsSliceView, ModelErrorView>(e@),
        },
{
    let bytes = match read_frame(data) {
        Ok(b) => b,
        Err(e) => {
            return Err(e);
        },
    };
    let doc = match parse_json(bytes) {
        Ok(d) => d,
        Err(why) => {
            let mut msg: Vec<char> = Vec::new();
            push_text(&mut msg, "Invalid JSON header: ");
            push_text(&mut msg, why.as_str());
            assert(msg@ =~= "Invalid JSON header: "@ + why@);
            return Err(safetensors_fail(&msg));
        },
    };
    let total: usize = data.len();
    let payload_start: usize = 8 + bytes.len();
    locate_in_document(&doc, name, payload_start, total - payload_start)
}

// ---------------------------------------------------------------------------
// GGUF
// ---------------------------------------------------------------------------

/// How the bytes of a tensor of a GGUF file are read.
#[derive(Clone, Copy, Debug, PartialEq, Eq, Structural)]
pub enum GgmlEncoding {
    F32,
    F16,
    BF16,
    /// Blocks of 32 weights of four bits with one scale.
    Q4_0,
    /// Blocks of 32 weights of four bits with a scale and an offset.
    Q4_1,
    /// Blocks of 32 weights of eight bits with one scale.
    Q8_0,
    /// A block format for which there is no decoder.
    Undecoded,
}

/// The number of weights in one block of a tensor type.
pub open spec fn block_weights(ggml_type: u32) -> usize {
    if ggml_type == 0 || ggml_type == 1 || ggml_type == 30 {
        1
    } else if 10 <= ggml_type <= 15 {
        256
    } else {
        32
    }
}

/// The number of bytes of one block of a tensor type.
pub open spec fn block_bytes(ggml_type: u32) -> usize {
    if ggml_type == 0 {
        4
    } else if ggml_type == 1 {
        2
    } else if ggml_type == 2 {
        18
    } else if ggml_type == 3 {
        20
    } else if ggml_type == 6 {
        22
    } else if ggml_type == 7 {
        24
    } else if ggml_type == 8 {
        34
    } else if ggml_type == 9 {
        36
    } else if ggml_type == 10 {
        84
    } else if ggml_type == 11 {
        110
    } else if ggml_type == 12 {
        144
    } else if ggml_type == 13 {
        176
    } else if ggml_type == 14 {
        210
    } else if ggml_type == 15 {
        292
    } else if ggml_type == 30 {
        2
    } else {
        18
    }
}

/// How a tensor type is read.
pub open spec fn encoding_of(ggml_type: u32) -> GgmlEncoding {
    if ggml_type == 0 {
        GgmlEncoding::F32
    } else if ggml_type == 1 {
        GgmlEncoding::F16
    } else if ggml_type == 30 {
        GgmlEncoding::BF16
    } else if ggml_type == 2 {
        GgmlEncoding::Q4_0
    } else if ggml_type == 3 {
        GgmlEncoding::Q4_1
    } else if ggml_type == 8 {
        GgmlEncoding::Q8_0
    } else {
        GgmlEncoding::Undecoded
    }
}

/// The number of weights in one block of a tensor type.
pub fn ggml_block_size(ggml_type: u32) -> (r: usize)
    ensures
        r == block_weights(ggml_type),
        r >= 1,
{
    if ggml_type == 0 || ggml_type == 1 || ggml_type == 30 {
        1
    } else if 10 <= ggml_type && ggml_type <= 15 {
        256
    } else {
        32
    }
}

/// The number of bytes of one block of a tensor type.
pub fn ggml_type_size(ggml_type: u32) -> (r: usize)
    ensures
        r == block_bytes(ggml_type),
        1 <= r <= 292,
{
    if ggml_type == 0 {
        4
    } else if ggml_type == 1 {
        2
    } else if ggml_type == 2 {
        18
    } else if ggml_type == 3 {
        20
    } else if ggml_type == 6 {
        22
    } else if ggml_type == 7 {
        24
    } else if ggml_type == 8 {
        34
    } else if ggml_type == 9 {
        36
    } else if ggml_type == 10 {
        84
    } else if ggml_type == 11 {
        110
    } else if ggml_type == 12 {
        144
    } else if ggml_type == 13 {
        176
    } else if ggml_type == 14 {
        210
    } else if ggml_type == 15 {
        292
    } else if ggml_type == 30 {
        2
    } else {
        18
    }
}

/// How a tensor type is read.
pub fn ggml_encoding(ggml_type: u32) -> (r: GgmlEncoding)
    ensures
        r == encoding_of(ggml_type),
{
    if ggml_type == 0 {
        GgmlEncoding::F32
    } else if ggml_type == 1 {
        GgmlEncoding::F16
    } else if ggml_type == 30 {
        GgmlEncoding::BF16
    } else if ggml_type == 2 {
        GgmlEncoding::Q4_0
    } else if ggml_type == 3 {
        GgmlEncoding::Q4_1
    } else if ggml_type == 8 {
        GgmlEncoding::Q8_0
    } else {
        GgmlEncoding::Undecoded
    }
}

/// The number of blocks that hold `elems` weights.
pub open spec fn blocks_for(elems: nat, ggml_type: u32) -> nat {
    (elems + block_weights(ggml_type) - 1) as nat / (block_weights(ggml_type) as nat)
}

/// The number of bytes of a tensor of `elems` weights.
pub open spec fn stored_bytes(elems: nat, ggml_type: u32) -> nat {
    blocks_for(elems, ggml_type) * (block_bytes(ggml_type) as nat)
}

/// Where a tensor lies in a GGUF file, and how it is stored.
#[derive(Clone, Debug)]
pub struct GgufSlice {
    pub encoding: GgmlEncoding,
    pub ggml_type: u32,
    pub shape: Vec<usize>,
    pub elem_count: usize,
    /// The position of the first byte of the tensor in the file.
    pub start: usize,
    pub byte_count: usize,
}

/// The value of a `GgufSlice`, with the shape as a list.
pub struct GgufSliceView {
    pub encoding: GgmlEncoding,
    pub ggml_type: u32,
    pub shape: Seq<usize>,
    pub elem_count: usize,
    pub start: usize,
    pub byte_count: usize,
}

impl View for GgufSlice {
    type V = GgufSliceView;

    open spec fn view(&self) -> GgufSliceView {
        GgufSliceView {
            encoding: self.encoding,
            ggml_type: self.ggml_type,
            shape: self.shape@,
            elem_count: self.elem_count,
            start: self.start,
            byte_count: self.byte_count,
        }
    }
}

/// The text of the error for a tensor whose data the file does not hold.
pub open spec fn past_end_text(start: nat, bytes: nat, len: nat) -> Seq<char> {
    "Tensor data extends past file end: "@ + decimal_text(start) + " + "@ + decimal_text(bytes)
        + " > "@ + decimal_text(len)
}

/// The dimensions as machine sizes.
pub open spec fn as_sizes(shape: Seq<u64>) -> Seq<usize> {
    shape.map_values(|d: u64| d as usize)
}

/// Where the tensor `name` lies in a GGUF file of `len` bytes with the
/// given header. Of several tensors of one name the last counts. The
/// tensor's data start at its offset behind the aligned end of the header
/// and must end within the file.
pub open spec fn gguf_located(
    file: GgufFileView,
    name: Seq<char>,
    path: Seq<char>,
    len: nat,
) -> Result<GgufSliceView, ModelErrorView> {
    match last_where(file.tensors, |t: GgufTensorView| t.name == name) {
        None => Err(ModelErrorView::TensorNotFound { tensor_name: name, parent_id: path }),
        Some(i) => {
            let t = file.tensors[i];
            let shape = as_sizes(t.shape);
            let elems = shape_elems(shape);
            let start = data_start(file.header_end) + t.offset;
            if elems > usize::MAX {
                Err(gguf_error("Tensor has more elements than can be addressed"@))
            } else if start + stored_bytes(elems, t.ggml_type) > len {
                Err(
                    gguf_error(
                        past_end_text(start as nat, stored_bytes(elems, t.ggml_type), len),
                    ),
                )
            } else {
                Ok(
                    GgufSliceView {
                        encoding: encoding_of(t.ggml_type),
                        ggml_type: t.ggml_type,
                        shape,
                        elem_count: elems as usize,
                        start: start as usize,
                        byte_count: stored_bytes(elems, t.ggml_type) as usize,
                    },
                )
            }
        },
    }
}

fn find_tensor(tensors: &Vec<GgufTensor>, name: &str) -> (r: Option<usize>)
    ensures
        match r {
            Some(i) => last_where(tensors_view(tensors@), |t: GgufTensorView| t.name == name@)
                == Some(i as int) && i < tensors@.len(),
            None => last_where(tensors_view(tensors@), |t: GgufTensorView| t.name == name@) is None,
        },
{
    let ghost list = tensors_view(tensors@);
    let ghost p = |t: GgufTensorView| t.name == name@;
    let mut i: usize = tensors.len();
    while i > 0
        invariant
            i <= tensors.len(),
            list == tensors_view(tensors@),
            p == (|t: GgufTensorView| t.name == name@),
            forall|j: int| i <= j < list.len() ==> !p(#[trigger] list[j]),
        decreases i,
    {
        i = i - 1;
        if str_eq(tensors[i].name.as_str(), name) {
            proof {
                assert(p(list[i as int]));
                last_where_found(list, p, i as int);
            }
            return Some(i);
        }
    }
    proof {
        last_where_absent(list, p);
    }
    None
}

fn sizes_of(shape: &Vec<u64>) -> (r: Vec<usize>)
    ensures
        r@ == as_sizes(shape@),
{
    let mut out: Vec<usize> = Vec::new();
    let mut i: usize = 0;
    while i < shape.len()
        invariant
            i <= shape.len(),
            out@.len() == i,
            forall|j: int| 0 <= j < i ==> out@[j] == shape@[j] as usize,
        decreases shape.len() - i,
    {
        out.push(
            #[verifier::truncate]
            (shape[i] as usize),
        );
        i = i + 1;
    }
    assert(out@ =~= as_sizes(shape@));
    out
}

fn stored_size(elems: u64, ggml_type: u32) -> (r: u128)
    ensures
        r == stored_bytes(elems as nat, ggml_type),
        r <= 0xFFFF_FFFF_FFFF_FFFF * 292,
{
    let block: u128 = ggml_block_size(ggml_type) as u128;
    let size: u128 = ggml_type_size(ggml_type) as u128;
    let blocks: u128 = (elems as u128 + block - 1) / block;
    let ghost num: int = elems + block - 1;
    let ghost den: int = block as int;
    assert(num / den <= elems) by (nonlinear_arith)
        requires
            num == elems + den - 1,
            den >= 1,
            elems >= 0,
    ;
    assert(blocks * size <= 0xFFFF_FFFF_FFFF_FFFF * 292) by (nonlinear_arith)
        requires
            blocks <= 0xFFFF_FFFF_FFFF_FFFF,
            size <= 292,
    ;
    blocks * size
}

fn first_byte(header_end: usize, offset: u64) -> (r: u128)
    ensures
        r == data_start(header_end as int) + offset,
        r <= 0x2_0000_0000_0000_0020,
{
    let rest: u128 = (header_end % 32) as u128;
    let aligned: u128 = if rest == 0 {
        header_end as u128
    } else {
        header_end as u128 - rest + 32
    };
    aligned + offset as u128
}

/// Finds the tensor `name` in a GGUF file of `len` bytes with the header
/// `file`. `path` names the file in the error for a tensor that the file
/// does not hold.
pub fn locate_gguf_tensor(file: &GgufFile, name: &str, path: &str, len: usize) -> (r: Result<
    GgufSlice,
    ModelError,
>)
    ensures
        match r {
            Ok(s) => gguf_located(file@, name@, path@, len as nat) == Ok::<
                GgufSliceView,
                ModelErrorView,
            >(s@) && s.start + s.byte_count <= len,
            Err(e) => gguf_located(file@, name@, path@, len as nat) == Err::<
                GgufSliceView,
                ModelErrorView,
            >(e@),
        },
{
    let i = match find_tensor(&file.tensors, name) {
        Some(i) => i,
        None => {
            return Err(
                ModelError::TensorNotFound {
                    tensor_name: name.to_owned(),
                    parent_id: path.to_owned(),
                },
            );
        },
    };
    let t = &file.tensors[i];
    assert(tensors_view(file.tensors@)[i as int] == t@);
    let shape = sizes_of(&t.shape);
    let elems: u64 = match count_elements(shape.as_slice()) {
        Some(n) => n,
        None => {
            return Err(
                ModelError::ParseError {
                    format: "GGUF".to_owned(),
                    reason: "Tensor has more elements than can be addressed".to_owned(),
                },
            );
        },
    };
    if elems > usize::MAX as u64 {
        return Err(
            ModelError::ParseError {
                format: "GGUF".to_owned(),
                reason: "Tensor has more elements than can be addressed".to_owned(),
            },
        );
    }
    let bytes: u128 = stored_size(elems, t.ggml_type);
    let start: u128 = first_byte(file.header_end, t.offset);
    if start + bytes > len as u128 {
        let mut msg: Vec<char> = Vec::new();
        push_text(&mut msg, "Tensor data extends past file end: ");
        push_decimal_wide(&mut msg, start);
        push_text(&mut msg, " + ");
        push_decimal_wide(&mut msg, bytes);
        push_text(&mut msg, " > ");
        push_decimal(&mut msg, len as u64);
        assert(msg@ =~= past_end_text(start as nat, bytes as nat, len as nat));
        return Err(gguf_fail(&msg));
    }
    Ok(
        GgufSlice {
            encoding: ggml_encoding(t.ggml_type),
            ggml_type: t.ggml_type,
            shape,
            elem_count: elems as usize,
            start: start as usize,
            byte_count: bytes as usize,
        },
    )
}

// ---------------------------------------------------------------------------
// Block-quantized data
// ---------------------------------------------------------------------------

/// The layout of one kind of block of 32 weights.
#[derive(Clone, Copy, Debug, PartialEq, Eq, Structural)]
pub enum BlockKind {
    /// 18 bytes: the scale, then 16 bytes of two four-bit levels each, from
    /// which 8 is subtracted.
    Q4_0,
    /// 20 bytes: the scale, the offset, then 16 bytes of two four-bit
    /// levels each.
    Q4_1,
    /// 34 bytes: the scale, then 32 levels of one signed byte each.
    Q8_0,
}

impl BlockKind {
    /// The number of bytes of one block.
    pub open spec fn size(self) -> nat {
        match self {
            BlockKind::Q4_0 => 18,
            BlockKind::Q4_1 => 20,
            BlockKind::Q8_0 => 34,
        }
    }

    /// The position of the first level within a block.
    pub open spec fn levels_at(self) -> nat {
        match self {
            BlockKind::Q4_0 => 2,
            BlockKind::Q4_1 => 4,
            BlockKind::Q8_0 => 2,
        }
    }
}

/// The weights of a block-quantized tensor, as far as whole numbers go.
///
/// The weight at the place `k` belongs to the block `k / 32`. Its value is
/// its level times the scale of its block, plus the offset of its block
/// where the format has offsets.
#[derive(Clone, Debug)]
pub struct Dequantized {
    /// One level per weight.
    pub levels: Vec<i8>,
    /// One scale per block, as the bits of a half-precision number.
    pub scales: Vec<u16>,
    /// One offset per block, as the bits of a half-precision number; empty
    /// where the format has no offsets.
    pub mins: Vec<u16>,
}

/// The number of blocks that are decoded: as many as `elems` weights need,
/// but no more than the data holds in full.
pub open spec fn decoded_blocks(len: nat, elems: nat, kind: BlockKind) -> nat {
    let wanted = (elems + 31) / 32;
    let held = len / kind.size();
    if wanted <= held {
        wanted
    } else {
        held
    }
}

/// The number of weights that are decoded.
pub open spec fn decoded_weights(len: nat, elems: nat, kind: BlockKind) -> nat {
    let full = decoded_blocks(len, elems, kind) * 32;
    if elems <= full {
        elems
    } else {
        full
    }
}

/// The level of the weight at the place `k`: a four-bit level is the low
/// half of its byte at an even place within the block and the high half at
/// an odd place.
pub open spec fn level_at(data: Seq<u8>, kind: BlockKind, k: int) -> int {
    let block = k / 32;
    let within = k % 32;
    let base = block * kind.size() + kind.levels_at();
    match kind {
        BlockKind::Q4_0 => {
            let byte = data[base + within / 2] as int;
            if within % 2 == 0 {
                byte % 16 - 8
            } else {
                byte / 16 - 8
            }
        },
        BlockKind::Q4_1 => {
            let byte = data[base + within / 2] as int;
            if within % 2 == 0 {
                byte % 16
            } else {
                byte / 16
            }
        },
        BlockKind::Q8_0 => {
            let byte = data[base + within] as int;
            if byte < 128 {
                byte
            } else {
                byte - 256
            }
        },
    }
}

/// The bits of the scale of the block `b`.
pub open spec fn scale_at(data: Seq<u8>, kind: BlockKind, b: int) -> u16 {
    le_u16(data.subrange(b * kind.size(), b * kind.size() + 2))
}

/// The bits of the offset of the block `b`.
pub open spec fn min_at(data: Seq<u8>, kind: BlockKind, b: int) -> u16 {
    le_u16(data.subrange(b * kind.size() + 2, b * kind.size() + 4))
}

/// The result holds the decoded weights of `data`.
pub open spec fn decodes(out: Dequantized, data: Seq<u8>, elems: nat, kind: BlockKind) -> bool {
    &&& out.levels@.len() == decoded_weights(data.len(), elems, kind)
    &&& out.scales@.len() == decoded_blocks(data.len(), elems, kind)
    &&& forall|k: int|
        0 <= k < out.levels@.len() ==> (#[trigger] out.levels@[k]) as int == level_at(data, kind, k)
    &&& forall|b: int|
        0 <= b < out.scales@.len() ==> #[trigger] out.scales@[b] == scale_at(data, kind, b)
    &&& if kind == BlockKind::Q4_1 {
        &&& out.mins@.len() == out.scales@.len()
        &&& forall|b: int| 0 <= b < out.mins@.len() ==> #[trigger] out.mins@[b] == min_at(data, kind, b)
    } else {
        out.mins@.len() == 0
    }
}

/// Every level of a block of four-bit levels with the bias 8 lies between
/// -8 and 7, and a byte whose two halves are 8 gives the level 0 twice.
pub proof fn q4_0_levels(data: Seq<u8>, k: int)
    requires
        0 <= k,
        (k / 32) * 18 + 2 + (k % 32) / 2 < data.len(),
    ensures
        -8 <= level_at(data, BlockKind::Q4_0, k) <= 7,
        data[(k / 32) * 18 + 2 + (k % 32) / 2] == 0x88 ==> level_at(data, BlockKind::Q4_0, k) == 0,
        data[(k / 32) * 18 + 2 + (k % 32) / 2] == 0xF0 ==> level_at(data, BlockKind::Q4_0, k) == (if k
            % 2 == 0 {
            -8int
        } else {
            7int
        }),
{
    let within = k % 32;
    assert(within % 2 == k % 2) by (nonlinear_arith)
        requires
            within == k % 32,
            k >= 0,
    ;
}

fn u16_at(data: &[u8], pos: usize) -> (r: u16)
    requires
        pos + 2 <= data@.len(),
    ensures
        r == le_u16(data@.subrange(pos as int, pos + 2)),
{
    (data[pos] as u16) + (data[pos + 1] as u16) * 0x100
}

fn decode_blocks(data: &[u8], elem_count: usize, kind: BlockKind) -> (r: Dequantized)
    ensures
        decodes(r, data@, elem_count as nat, kind),
{
    let size: usize = match kind {
        BlockKind::Q4_0 => 18,
        BlockKind::Q4_1 => 20,
        BlockKind::Q8_0 => 34,
    };
    let levels_at: usize = match kind {
        BlockKind::Q4_0 => 2,
        BlockKind::Q4_1 => 4,
        BlockKind::Q8_0 => 2,
    };
    let wanted: usize = if elem_count % 32 == 0 {
        elem_count / 32
    } else {
        elem_count / 32 + 1
    };
    let held: usize = data.len() / size;
    let blocks: usize = if wanted <= held {
        wanted
    } else {
        held
    };
    let total: usize = if elem_count / 32 < blocks {
        elem_count
    } else {
        blocks * 32
    };
    assert(blocks == decoded_blocks(data@.len(), elem_count as nat, kind));
    assert(total == decoded_weights(data@.len(), elem_count as nat, kind));
    assert(blocks * size <= data@.len()) by (nonlinear_arith)
        requires
            blocks <= held,
            held == data@.len() / (size as nat),
            size > 0,
    ;
    let mut levels: Vec<i8> = Vec::new();
    let mut scales: Vec<u16> = Vec::new();
    let mut mins: Vec<u16> = Vec::new();
    let mut b: usize = 0;
    while b < blocks
        invariant
            b <= blocks,
            size == kind.size(),
            levels_at == kind.levels_at(),
            blocks * size <= data@.len(),
            data@.len() <= usize::MAX,
            total <= blocks * 32,
            total == decoded_weights(data@.len(), elem_count as nat, kind),
            levels@.len() == (if b * 32 <= total {
                b * 32
            } else {
                total as int
            }),
            scales@.len() == b,
            forall|k: int|
                0 <= k < levels@.len() ==> (#[trigger] levels@[k]) as int == level_at(
                    data@,
                    kind,
                    k,
                ),
            forall|c: int| 0 <= c < b ==> #[trigger] scales@[c] == scale_at(data@, kind, c),
            if kind == BlockKind::Q4_1 {
                &&& mins@.len() == b
                &&& forall|c: int| 0 <= c < b ==> #[trigger] mins@[c] == min_at(data@, kind, c)
            } else {
                mins@.len() == 0
            },
        decreases blocks - b,
    {
        assert(b * size + size <= blocks * size) by (nonlinear_arith)
            requires
                b + 1 <= blocks,
                size >= 0,
        ;
        assert(b * size <= data@.len());
        let base: usize = b * size;
        scales.push(u16_at(data, base));
        match kind {
            BlockKind::Q4_1 => {
                mins.push(u16_at(data, base + 2));
            },
            _ => {},
        }
        let mut j: usize = 0;
        while j < 32 && levels.len() < total
            invariant
                j <= 32,
                b < blocks,
                size == kind.size(),
                levels_at == kind.levels_at(),
                base == b * size,
                base + size <= data@.len(),
                data@.len() <= usize::MAX,
                total <= blocks * 32,
                levels@.len() == (if b * 32 + j <= total {
                    b * 32 + j
                } else {
                    total as int
                }),
                forall|k: int|
                    0 <= k < levels@.len() ==> (#[trigger] levels@[k]) as int == level_at(
                        data@,
                        kind,
                        k,
                    ),
            decreases 32 - j,
        {
            let ghost k = levels@.len() as int;
            assert(k == b * 32 + j);
            assert(k / 32 == b && k % 32 == j) by (nonlinear_arith)
                requires
                    k == b * 32 + j,
                    0 <= j < 32,
                    b >= 0,
            ;
            let level: i8 = match kind {
                BlockKind::Q4_0 => {
                    let byte: u8 = data[base + levels_at + j / 2];
                    if j % 2 == 0 {
                        (byte % 16) as i8 - 8
                    } else {
                        (byte / 16) as i8 - 8
                    }
                },
                BlockKind::Q4_1 => {
                    let byte: u8 = data[base + levels_at + j / 2];
                    if j % 2 == 0 {
                        (byte % 16) as i8
                    } else {
                        (byte / 16) as i8
                    }
                },
                BlockKind::Q8_0 => {
                    let byte: u8 = data[base + levels_at + j];
                    if byte < 128 {
                        byte as i8
                    } else {
                        (byte as i16 - 256) as i8
                    }
                },
            };
            levels.push(level);
            j = j + 1;
        }
        b = b + 1;
    }
    Dequantized { levels, scales, mins }
}

/// Decodes blocks of 32 four-bit weights with one scale each.
pub fn dequantize_q4_0(data: &[u8], elem_count: usize) -> (r: Dequantized)
    ensures
        decodes(r, data@, elem_count as nat, BlockKind::Q4_0),
{
    decode_blocks(data, elem_count, BlockKind::Q4_0)
}

/// Decodes blocks of 32 four-bit weights with a scale and an offset each.
pub fn dequantize_q4_1(data: &[u8], elem_count: usize) -> (r: Dequantized)
    ensures
        decodes(r, data@, elem_count as nat, BlockKind::Q4_1),
{
    decode_blocks(data, elem_count, BlockKind::Q4_1)
}

/// Decodes blocks of 32 eight-bit weights with one scale each.
pub fn dequantize_q8_0(data: &[u8], elem_count: usize) -> (r: Dequantized)
    ensures
        decodes(r, data@, elem_count as nat, BlockKind::Q8_0),
{
    decode_blocks(data, elem_count, BlockKind::Q8_0)
}

} // verus!
