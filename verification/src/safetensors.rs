//! Reading the header of a SafeTensors file: eight bytes that give the
//! length of the header, then the header, a JSON object with one member
//! per tensor and an optional member `__metadata__`.

use vstd::prelude::*;
use crate::error::{ModelError, ModelErrorView};
use crate::gguf::{decode_u64, le_u64};
use crate::gguf_info::{count_params, preview_of, shape_params, first_tensors, PREVIEW_TENSORS};
use crate::json::{
    json_get, json_get_str, json_get_u64, json_of, json_str, json_u64, items_view,
    members_view, parse_json, JsonValue, JsonView,
};
use crate::model::{
    derive_layer_count, infos_view, layer_set, meta_get, meta_lookup, opt_ref_text, opt_text,
    pairs_view, sort_by_name, sorted_infos, ModelFormat, ModelInfo, TensorInfo, TensorInfoView,
};
use crate::numfmt::{file_size_text, format_file_size, format_param_count, param_count_text};
use crate::seqs::{count_where, first_where, first_where_absent, first_where_found};
use crate::text::{decimal_text, push_decimal, push_text, str_eq, string_of};
use vstd::slice::slice_subrange;

verus! {

pub type Pairs = Seq<(Seq<char>, Seq<char>)>;

pub type Members = Seq<(Seq<char>, JsonView)>;

/// A parse error of the SafeTensors format.
pub open spec fn safetensors_error(reason: Seq<char>) -> ModelErrorView {
    ModelErrorView::ParseError { format: "SafeTensors"@, reason }
}

/// Makes the parse error of the SafeTensors format with the given reason.
pub fn safetensors_fail(reason: &Vec<char>) -> (e: ModelError)
    ensures
        e@ == safetensors_error(reason@),
{
    ModelError::ParseError {
        format: "SafeTensors".to_owned(),
        reason: string_of(reason.as_slice()),
    }
}

// ---------------------------------------------------------------------------
// The frame
// ---------------------------------------------------------------------------

/// The length of the header that the first eight bytes declare.
pub open spec fn declared_len(data: Seq<u8>) -> usize
    recommends
        data.len() >= 8,
{
    le_u64(data.subrange(0, 8)) as usize
}

/// The text of the error for a header length that the file cannot hold.
pub open spec fn bad_length_text(len: nat, file_size: nat) -> Seq<char> {
    "Header length "@ + decimal_text(len) + " is invalid for file size "@ + decimal_text(file_size)
}

/// The bytes of the header. A file of fewer than eight bytes is too small;
/// a header of length 0, or one that ends beyond the file, is invalid.
pub open spec fn header_bytes(data: Seq<u8>) -> Result<Seq<u8>, ModelErrorView> {
    if data.len() < 8 {
        Err(ModelErrorView::FileTooSmall(data.len() as u64))
    } else {
        let n = declared_len(data);
        if n == 0 || n + 8 > data.len() {
            Err(safetensors_error(bad_length_text(n as nat, data.len())))
        } else {
            Ok(data.subrange(8, 8 + n))
        }
    }
}

/// The bytes of the header of the file that `data` holds.
pub fn read_frame(data: &[u8]) -> (r: Result<&[u8], ModelError>)
    ensures
        match r {
            Ok(b) => header_bytes(data@) == Ok::<Seq<u8>, ModelErrorView>(b@) && 0 < b@.len()
                && b@.len() + 8 <= data@.len(),
            Err(e) => header_bytes(data@) == Err::<Seq<u8>, ModelErrorView>(e@),
        },
{
    if data.len() < 8 {
        return Err(ModelError::FileTooSmall(data.len() as u64));
    }
    let n: usize = #[verifier::truncate]
    (decode_u64(slice_subrange(data, 0, 8)) as usize);
    if n == 0 || n > data.len() - 8 {
        let mut msg: Vec<char> = Vec::new();
        push_text(&mut msg, "Header length ");
        push_decimal(&mut msg, n as u64);
        push_text(&mut msg, " is invalid for file size ");
        push_decimal(&mut msg, data.len() as u64);
        assert(msg@ =~= bad_length_text(n as nat, data@.len()));
        return Err(safetensors_fail(&msg));
    }
    Ok(slice_subrange(data, 8, 8 + n))
}

// ---------------------------------------------------------------------------
// The header
// ---------------------------------------------------------------------------

/// The whole numbers among the items, in their order.
pub open spec fn numbers_in(items: Seq<JsonView>) -> Seq<u64>
    decreases items.len(),
{
    if items.len() == 0 {
        Seq::empty()
    } else {
        let rest = numbers_in(items.drop_last());
        match json_u64(items.last()) {
            Some(n) => rest.push(n),
            None => rest,
        }
    }
}

/// The shape that a tensor's member declares: the whole numbers of its
/// `shape`; empty where it has no such array.
pub open spec fn entry_shape(entry: JsonView) -> Seq<u64> {
    match json_get(entry, "shape"@) {
        Some(JsonView::Array(items)) => numbers_in(items),
        _ => Seq::empty(),
    }
}

/// The element type that a tensor's member declares; `unknown` where it
/// declares none.
pub open spec fn entry_dtype(entry: JsonView) -> Seq<char> {
    match json_get_str(entry, "dtype"@) {
        Some(d) => d,
        None => "unknown"@,
    }
}

/// The tensors of the header: one per member that is an object, but for
/// `__metadata__`.
pub open spec fn header_tensors(members: Members) -> Seq<TensorInfoView>
    decreases members.len(),
{
    if members.len() == 0 {
        Seq::empty()
    } else {
        let rest = header_tensors(members.drop_last());
        let (key, value) = members.last();
        if key != "__metadata__"@ && value is Object {
            rest.push(
                TensorInfoView { name: key, dtype: entry_dtype(value), shape: entry_shape(value) },
            )
        } else {
            rest
        }
    }
}

/// The list with `value` under `key`, as `pairs_insert` has it.
pub open spec fn put(list: Pairs, key: Seq<char>, value: Seq<char>) -> Pairs {
    crate::model::pairs_insert(list, key, value)
}

/// The list with the members of a metadata object added: each under its
/// key, with its text where it is a string and with the empty text where
/// it is not.
pub open spec fn with_metadata(list: Pairs, inner: Members) -> Pairs
    decreases inner.len(),
{
    if inner.len() == 0 {
        list
    } else {
        let rest = with_metadata(list, inner.drop_last());
        let (key, value) = inner.last();
        put(
            rest,
            key,
            match json_str(value) {
                Some(s) => s,
                None => Seq::empty(),
            },
        )
    }
}

/// The metadata of the header: what the member `__metadata__` holds.
pub open spec fn header_metadata(members: Members) -> Pairs
    decreases members.len(),
{
    if members.len() == 0 {
        Seq::empty()
    } else {
        let rest = header_metadata(members.drop_last());
        let (key, value) = members.last();
        if key == "__metadata__"@ {
            match value {
                JsonView::Object(inner) => with_metadata(rest, inner),
                _ => rest,
            }
        } else {
            rest
        }
    }
}

/// What a header document holds: its tensors and its metadata. A document
/// that is no object is an error.
pub open spec fn document_content(doc: JsonView) -> Result<(Seq<TensorInfoView>, Pairs), ModelErrorView> {
    match doc {
        JsonView::Object(members) => Ok((header_tensors(members), header_metadata(members))),
        _ => Err(safetensors_error("Header is not a JSON object"@)),
    }
}

/// What the header of a file holds.
pub open spec fn header_content(data: Seq<u8>) -> Result<(Seq<TensorInfoView>, Pairs), ModelErrorView> {
    match header_bytes(data) {
        Err(e) => Err(e),
        Ok(bytes) => match json_of(bytes) {
            Err(why) => Err(safetensors_error("Invalid JSON header: "@ + why)),
            Ok(doc) => document_content(doc),
        },
    }
}

/// The tensors and the metadata of one file, and the size of the file.
#[derive(Clone, Debug)]
pub struct ShardHeader {
    pub tensors: Vec<TensorInfo>,
    pub metadata: Vec<(String, String)>,
    pub file_size: u64,
}

fn read_shape(entry: &JsonValue) -> (r: Vec<u64>)
    ensures
        r@ == entry_shape(entry@),
{
    let mut shape: Vec<u64> = Vec::new();
    match entry.get("shape") {
        Some(v) => match v.as_array() {
            Some(items) => {
                let ghost list = items_view(items@);
                let mut i: usize = 0;
                assert(list.take(0) =~= Seq::<JsonView>::empty());
                while i < items.len()
                    invariant
                        i <= items.len(),
                        list == items_view(items@),
                        shape@ == numbers_in(list.take(i as int)),
                    decreases items.len() - i,
                {
                    assert(list.take(i + 1).drop_last() =~= list.take(i as int));
                    assert(list.take(i + 1).last() == items@[i as int]@);
                    match items[i].as_u64() {
                        Some(n) => {
                            shape.push(n);
                        },
                        None => {},
                    }
                    i = i + 1;
                }
                assert(list.take(i as int) =~= list);
            },
            None => {},
        },
        None => {},
    }
    shape
}

fn read_dtype(entry: &JsonValue) -> (r: String)
    ensures
        r@ == entry_dtype(entry@),
{
    match entry.get_str("dtype") {
        Some(d) => d.clone(),
        None => "unknown".to_owned(),
    }
}

fn add_metadata(out: &mut Vec<(String, String)>, inner: &Vec<(String, JsonValue)>)
    ensures
        pairs_view(final(out)@) == with_metadata(pairs_view(old(out)@), members_view(inner@)),
{
    let ghost list = members_view(inner@);
    let ghost start = pairs_view(out@);
    let mut i: usize = 0;
    assert(list.take(0) =~= Seq::<(Seq<char>, JsonView)>::empty());
    while i < inner.len()
        invariant
            i <= inner.len(),
            list == members_view(inner@),
            pairs_view(out@) == with_metadata(start, list.take(i as int)),
        decreases inner.len() - i,
    {
        assert(list.take(i + 1).drop_last() =~= list.take(i as int));
        assert(list.take(i + 1).last() == (inner@[i as int].0@, inner@[i as int].1@));
        let value: String = match inner[i].1.as_str() {
            Some(s) => s.clone(),
            None => String::new(),
        };
        crate::model::meta_insert(out, inner[i].0.clone(), value);
        i = i + 1;
    }
    assert(list.take(i as int) =~= list);
}

/// Reads the tensors and the metadata out of a header document.
pub fn read_document(doc: &JsonValue) -> (r: Result<
    (Vec<TensorInfo>, Vec<(String, String)>),
    ModelError,
>)
    ensures
        match r {
            Ok(c) => document_content(doc@) == Ok::<
                (Seq<TensorInfoView>, Pairs),
                ModelErrorView,
            >((infos_view(c.0@), pairs_view(c.1@))),
            Err(e) => document_content(doc@) == Err::<
                (Seq<TensorInfoView>, Pairs),
                ModelErrorView,
            >(e@),
        },
{
    let members = match doc.as_object() {
        Some(m) => m,
        None => {
            return Err(
                ModelError::ParseError {
                    format: "SafeTensors".to_owned(),
                    reason: "Header is not a JSON object".to_owned(),
                },
            );
        },
    };
    let ghost list = members_view(members@);
    let mut tensors: Vec<TensorInfo> = Vec::new();
    let mut metadata: Vec<(String, String)> = Vec::new();
    let mut i: usize = 0;
    assert(list.take(0) =~= Seq::<(Seq<char>, JsonView)>::empty());
    assert(infos_view(tensors@) =~= header_tensors(list.take(0)));
    assert(pairs_view(metadata@) =~= header_metadata(list.take(0)));
    while i < members.len()
        invariant
            i <= members.len(),
            list == members_view(members@),
            infos_view(tensors@) == header_tensors(list.take(i as int)),
            pairs_view(metadata@) == header_metadata(list.take(i as int)),
        decreases members.len() - i,
    {
        let ghost before = infos_view(tensors@);
        assert(list.take(i + 1).drop_last() =~= list.take(i as int));
        assert(list.take(i + 1).last() == (members@[i as int].0@, members@[i as int].1@));
        let key = &members[i].0;
        let value = &members[i].1;
        if str_eq(key.as_str(), "__metadata__") {
            match value.as_object() {
                Some(inner) => {
                    add_metadata(&mut metadata, inner);
                },
                None => {},
            }
        } else {
            match value.as_object() {
                Some(_) => {
                    let info = TensorInfo {
                        name: key.clone(),
                        dtype: read_dtype(value),
                        shape: read_shape(value),
                    };
                    let ghost view = info@;
                    tensors.push(info);
                    assert(infos_view(tensors@) =~= before.push(view));
                },
                None => {},
            }
        }
        i = i + 1;
    }
    assert(list.take(i as int) =~= list);
    Ok((tensors, metadata))
}

/// Reads the header of the SafeTensors file that `data` holds.
pub fn parse_header(data: &[u8]) -> (r: Result<ShardHeader, ModelError>)
    ensures
        match r {
            Ok(h) => header_content(data@) == Ok::<(Seq<TensorInfoView>, Pairs), ModelErrorView>(
                (infos_view(h.tensors@), pairs_view(h.metadata@)),
            ) && h.file_size == data@.len(),
            Err(e) => header_content(data@) == Err::<
                (Seq<TensorInfoView>, Pairs),
                ModelErrorView,
            >(e@),
        },
{
    let bytes = match read_frame(data) {
        Ok(b) => b,
        Err(e) => {
            return Err(e);
        },
    };
    let doc = match parse_json(bytes) {
        Ok(d) => d,
        Err(why) => {
            let mut msg: Vec<char> = Vec::new();
            push_text(&mut msg, "Invalid JSON header: ");
            push_text(&mut msg, why.as_str());
            assert(msg@ =~= "Invalid JSON header: "@ + why@);
            return Err(safetensors_fail(&msg));
        },
    };
    match read_document(&doc) {
        Ok((tensors, metadata)) => Ok(
            ShardHeader { tensors, metadata, file_size: data.len() as u64 },
        ),
        Err(e) => Err(e),
    }
}

// ---------------------------------------------------------------------------
// The prevailing element type
// ---------------------------------------------------------------------------

/// The number of tensors with the element type `dtype`.
pub open spec fn dtype_count(tensors: Seq<TensorInfoView>, dtype: Seq<char>) -> nat {
    count_where(tensors, |t: TensorInfoView| t.dtype == dtype)
}

/// No element type has more tensors than `dtype` has.
pub open spec fn prevails(tensors: Seq<TensorInfoView>, dtype: Seq<char>) -> bool {
    forall|j: int|
        0 <= j < tensors.len() ==> dtype_count(tensors, (#[trigger] tensors[j]).dtype)
            <= dtype_count(tensors, dtype)
}

/// The element type that most tensors have; of several with as many
/// tensors, the one that occurs first. `None` for no tensors.
pub open spec fn prevailing_dtype(tensors: Seq<TensorInfoView>) -> Option<Seq<char>> {
    match first_where(tensors, |t: TensorInfoView| prevails(tensors, t.dtype)) {
        Some(i) => Some(tensors[i].dtype),
        None => None,
    }
}

fn count_dtype(tensors: &Vec<TensorInfo>, dtype: &str) -> (r: usize)
    ensures
        r == dtype_count(infos_view(tensors@), dtype@),
{
    let ghost list = infos_view(tensors@);
    let ghost p = |t: TensorInfoView| t.dtype == dtype@;
    let mut n: usize = 0;
    let mut i: usize = 0;
    assert(list.take(0) =~= Seq::<TensorInfoView>::empty());
    while i < tensors.len()
        invariant
            i <= tensors.len(),
            list == infos_view(tensors@),
            p == (|t: TensorInfoView| t.dtype == dtype@),
            n == count_where(list.take(i as int), p),
            n <= i,
        decreases tensors.len() - i,
    {
        assert(list.take(i + 1).drop_last() =~= list.take(i as int));
        assert(list.take(i + 1).last() == tensors@[i as int]@);
        if str_eq(tensors[i].dtype.as_str(), dtype) {
            n = n + 1;
        }
        i = i + 1;
    }
    assert(list.take(i as int) =~= list);
    n
}

/// The element type that most tensors have.
pub fn detect_quantization(tensors: &Vec<TensorInfo>) -> (r: Option<String>)
    ensures
        opt_text(r) == prevailing_dtype(infos_view(tensors@)),
{
    let ghost list = infos_view(tensors@);
    let ghost p = |t: TensorInfoView| prevails(list, t.dtype);
    // The greatest number of tensors of one element type.
    let mut most: usize = 0;
    let mut i: usize = 0;
    while i < tensors.len()
        invariant
            i <= tensors.len(),
            list == infos_view(tensors@),
            forall|j: int| 0 <= j < i ==> dtype_count(list, (#[trigger] list[j]).dtype) <= most,
            i > 0 ==> exists|j: int| 0 <= j < i && dtype_count(list, (#[trigger] list[j]).dtype) == most,
            i == 0 ==> most == 0,
        decreases tensors.len() - i,
    {
        assert(list[i as int] == tensors@[i as int]@);
        let c = count_dtype(tensors, tensors[i].dtype.as_str());
        if c > most {
            most = c;
        } else {
            if i > 0 {
                let ghost w = choose|j: int|
                    0 <= j < i && dtype_count(list, (#[trigger] list[j]).dtype) == most;
                assert(dtype_count(list, list[w].dtype) == most);
            }
        }
        i = i + 1;
    }
    let mut k: usize = 0;
    while k < tensors.len()
        invariant
            k <= tensors.len(),
            list == infos_view(tensors@),
            p == (|t: TensorInfoView| prevails(list, t.dtype)),
            forall|j: int|
                0 <= j < tensors.len() ==> dtype_count(list, (#[trigger] list[j]).dtype) <= most,
            tensors.len() > 0 ==> exists|j: int|
                0 <= j < tensors.len() && dtype_count(list, (#[trigger] list[j]).dtype) == most,
            forall|j: int| 0 <= j < k ==> !p(#[trigger] list[j]),
        decreases tensors.len() - k,
    {
        assert(list[k as int] == tensors@[k as int]@);
        let c = count_dtype(tensors, tensors[k].dtype.as_str());
        if c == most {
            proof {
                assert(prevails(list, list[k as int].dtype));
                first_where_found(list, p, k as int);
            }
            return Some(tensors[k].dtype.clone());
        }
        proof {
            let w = choose|j: int|
                0 <= j < tensors.len() && dtype_count(list, (#[trigger] list[j]).dtype) == most;
            assert(dtype_count(list, list[w].dtype) > dtype_count(list, list[k as int].dtype));
            assert(!prevails(list, list[k as int].dtype));
        }
        k = k + 1;
    }
    proof {
        first_where_absent(list, p);
    }
    None
}

// ---------------------------------------------------------------------------
// The summary of one file
// ---------------------------------------------------------------------------

/// The number of parameters of the tensors together, counted modulo two to
/// the power 64.
pub open spec fn params_of(tensors: Seq<TensorInfoView>) -> u64
    decreases tensors.len(),
{
    if tensors.len() == 0 {
        0
    } else {
        params_of(tensors.drop_last()).wrapping_add(shape_params(tensors.last().shape))
    }
}

/// The number of parameters of the tensors together.
pub fn count_all_params(tensors: &Vec<TensorInfo>) -> (r: u64)
    ensures
        r == params_of(infos_view(tensors@)),
{
    let ghost list = infos_view(tensors@);
    let mut total: u64 = 0;
    let mut i: usize = 0;
    assert(list.take(0) =~= Seq::<TensorInfoView>::empty());
    while i < tensors.len()
        invariant
            i <= tensors.len(),
            list == infos_view(tensors@),
            total == params_of(list.take(i as int)),
        decreases tensors.len() - i,
    {
        assert(list.take(i + 1).drop_last() =~= list.take(i as int));
        assert(list.take(i + 1).last() == tensors@[i as int]@);
        total = total.wrapping_add(count_params(&tensors[i].shape));
        i = i + 1;
    }
    assert(list.take(i as int) =~= list);
    total
}

/// The architecture that the metadata names: under `model_type`, else
/// under `architecture`.
pub open spec fn named_architecture(metadata: Seq<(String, String)>) -> Option<Seq<char>> {
    match meta_lookup(metadata, "model_type"@) {
        Some(a) => Some(a),
        None => meta_lookup(metadata, "architecture"@),
    }
}

fn find_architecture(metadata: &Vec<(String, String)>) -> (r: Option<String>)
    ensures
        opt_text(r) == named_architecture(metadata@),
{
    match meta_get(metadata, "model_type") {
        Some(a) => Some(a.clone()),
        None => match meta_get(metadata, "architecture") {
            Some(a) => Some(a.clone()),
            None => None,
        },
    }
}

/// The layer count that the names of the tensors give.
pub open spec fn layers_named(tensors: Seq<TensorInfo>) -> Option<u64> {
    if layer_set(tensors).len() == 0 {
        None
    } else {
        Some(layer_set(tensors).len() as u64)
    }
}

/// Summarises the header of one SafeTensors file.
pub fn summarize(header: ShardHeader, file_name: String, file_path: String) -> (r: ModelInfo)
    ensures
        r.file_name@ == file_name@,
        r.file_path@ == file_path@,
        r.file_size == header.file_size,
        r.file_size_display@ == file_size_text(header.file_size),
        r.format == ModelFormat::SafeTensors,
        r.tensor_count == header.tensors@.len() as u64,
        r.parameter_count == params_of(infos_view(header.tensors@)),
        r.parameter_count_display@ == param_count_text(r.parameter_count),
        infos_view(r.all_tensors@) == sorted_infos(infos_view(header.tensors@)),
        infos_view(r.tensor_preview@) == first_tensors(
            infos_view(r.all_tensors@),
            PREVIEW_TENSORS as int,
        ),
        r.layer_count == layers_named(r.all_tensors@),
        opt_text(r.quantization) == prevailing_dtype(infos_view(r.all_tensors@)),
        opt_text(r.architecture) == named_architecture(header.metadata@),
        r.context_length is None,
        r.embedding_size is None,
        pairs_view(r.metadata@) == pairs_view(header.metadata@),
        r.shard_count is None,
        r.has_tokenizer is None,
        r.has_config is None,
        r.model_type is None,
        r.vocab_size is None,
{
    let parameter_count = count_all_params(&header.tensors);
    let tensor_count = header.tensors.len() as u64;
    let architecture = find_architecture(&header.metadata);
    let all_tensors = sort_by_name(header.tensors);
    let layer_count = derive_layer_count(all_tensors.as_slice());
    let quantization = detect_quantization(&all_tensors);
    let tensor_preview = preview_of(&all_tensors);
    ModelInfo {
        file_name,
        file_path,
        file_size: header.file_size,
        file_size_display: format_file_size(header.file_size),
        format: ModelFormat::SafeTensors,
        tensor_count,
        parameter_count,
        parameter_count_display: format_param_count(parameter_count),
        layer_count,
        quantization,
        architecture,
        context_length: None,
        embedding_size: None,
        metadata: header.metadata,
        tensor_preview,
        all_tensors,
        shard_count: None,
        has_tokenizer: None,
        has_config: None,
        model_type: None,
        vocab_size: None,
    }
}

/// Reads and summarises the SafeTensors file that `data` holds.
///
/// Fails exactly where the header cannot be read, with the error of
/// `header_content`.
pub fn parse(data: &[u8], file_name: String, file_path: String) -> (r: Result<
    ModelInfo,
    ModelError,
>)
    ensures
        match r {
            Ok(info) => {
                &&& header_content(data@) is Ok
                &&& info.file_name@ == file_name@
                &&& info.file_path@ == file_path@
                &&& info.file_size == data@.len()
                &&& info.format == ModelFormat::SafeTensors
                &&& infos_view(info.all_tensors@) == sorted_infos(header_content(data@)->Ok_0.0)
                &&& info.tensor_count == header_content(data@)->Ok_0.0.len() as u64
                &&& info.parameter_count == params_of(header_content(data@)->Ok_0.0)
                &&& pairs_view(info.metadata@) == header_content(data@)->Ok_0.1
                &&& opt_text(info.quantization) == prevailing_dtype(infos_view(info.all_tensors@))
                &&& info.layer_count == layers_named(info.all_tensors@)
            },
            Err(e) => header_content(data@) == Err::<
                (Seq<TensorInfoView>, Pairs),
                ModelErrorView,
            >(e@),
        },
{
    match parse_header(data) {
        Ok(header) => Ok(summarize(header, file_name, file_path)),
        Err(e) => Err(e),
    }
}

// ---------------------------------------------------------------------------
// A directory of files
// ---------------------------------------------------------------------------

/// What the `config.json` of a model says.
#[derive(Clone, Debug)]
pub struct ConfigSummary {
    pub has_config: bool,
    pub model_type: Option<String>,
    pub architecture: Option<String>,
    pub context_length: Option<u64>,
    pub embedding_size: Option<u64>,
    pub vocab_size: Option<u64>,
}

/// The first of `architectures`, where that is a string; else the
/// `model_type`.
pub open spec fn config_architecture(doc: JsonView) -> Option<Seq<char>> {
    let first = match json_get(doc, "architectures"@) {
        Some(JsonView::Array(items)) => if items.len() > 0 {
            json_str(items[0])
        } else {
            None
        },
        _ => None,
    };
    match first {
        Some(a) => Some(a),
        None => json_get_str(doc, "model_type"@),
    }
}

impl ConfigSummary {
    /// The summary of a configuration that is missing or cannot be read.
    pub open spec fn is_absent(self) -> bool {
        &&& !self.has_config
        &&& self.model_type is None
        &&& self.architecture is None
        &&& self.context_length is None
        &&& self.embedding_size is None
        &&& self.vocab_size is None
    }

    /// The summary is that of the document `doc`.
    pub open spec fn describes(self, doc: JsonView) -> bool {
        &&& self.has_config
        &&& opt_text(self.model_type) == json_get_str(doc, "model_type"@)
        &&& opt_text(self.architecture) == config_architecture(doc)
        &&& self.context_length == json_get_u64(doc, "max_position_embeddings"@)
        &&& self.embedding_size == json_get_u64(doc, "hidden_size"@)
        &&& self.vocab_size == json_get_u64(doc, "vocab_size"@)
    }
}

fn copy_found(o: Option<&String>) -> (r: Option<String>)
    ensures
        opt_text(r) == opt_ref_text(o),
{
    match o {
        Some(s) => Some(s.clone()),
        None => None,
    }
}

/// Summarises a configuration document.
pub fn read_config(doc: &JsonValue) -> (r: ConfigSummary)
    ensures
        r.describes(doc@),
{
    let model_type = copy_found(doc.get_str("model_type"));
    let first: Option<String> = match doc.get("architectures") {
        Some(v) => match v.as_array() {
            Some(items) => if items.len() > 0 {
                assert(items_view(items@)[0] == items@[0]@);
                copy_found(items[0].as_str())
            } else {
                None
            },
            None => None,
        },
        None => None,
    };
    let architecture = match first {
        Some(a) => Some(a),
        None => copy_found(doc.get_str("model_type")),
    };
    ConfigSummary {
        has_config: true,
        model_type,
        architecture,
        context_length: doc.get_u64("max_position_embeddings"),
        embedding_size: doc.get_u64("hidden_size"),
        vocab_size: doc.get_u64("vocab_size"),
    }
}

/// Summarises the content of a `config.json`; a content that is missing or
/// is no JSON text gives the summary of an absent configuration.
pub fn parse_config_json(content: Option<&[u8]>) -> (r: ConfigSummary)
    ensures
        match content {
            None => r.is_absent(),
            Some(bytes) => match json_of(bytes@) {
                Ok(doc) => r.describes(doc),
                Err(_) => r.is_absent(),
            },
        },
{
    let absent = ConfigSummary {
        has_config: false,
        model_type: None,
        architecture: None,
        context_length: None,
        embedding_size: None,
        vocab_size: None,
    };
    match content {
        None => absent,
        Some(bytes) => match parse_json(bytes) {
            Ok(doc) => read_config(&doc),
            Err(_) => absent,
        },
    }
}

/// The tensors of the files, file after file.
pub open spec fn all_shard_tensors(shards: Seq<ShardHeader>) -> Seq<TensorInfoView>
    decreases shards.len(),
{
    if shards.len() == 0 {
        Seq::empty()
    } else {
        all_shard_tensors(shards.drop_last()) + infos_view(shards.last().tensors@)
    }
}

/// The sizes of the files together, counted modulo two to the power 64.
pub open spec fn total_size(shards: Seq<ShardHeader>) -> u64
    decreases shards.len(),
{
    if shards.len() == 0 {
        0
    } else {
        total_size(shards.drop_last()).wrapping_add(shards.last().file_size)
    }
}

/// The list with `value` under `key`, where the list has no entry under
/// that key yet.
pub open spec fn put_new(list: Pairs, key: Seq<char>, value: Seq<char>) -> Pairs {
    if exists|i: int| 0 <= i < list.len() && (#[trigger] list[i]).0 == key {
        list
    } else {
        list.push((key, value))
    }
}

/// The list with the entries of `more` that it does not have yet.
pub open spec fn with_new(list: Pairs, more: Pairs) -> Pairs
    decreases more.len(),
{
    if more.len() == 0 {
        list
    } else {
        put_new(with_new(list, more.drop_last()), more.last().0, more.last().1)
    }
}

/// The metadata of the files together: for each key the value of the first
/// file that has it.
pub open spec fn merged_metadata(shards: Seq<ShardHeader>) -> Pairs
    decreases shards.len(),
{
    if shards.len() == 0 {
        Seq::empty()
    } else {
        with_new(merged_metadata(shards.drop_last()), pairs_view(shards.last().metadata@))
    }
}

fn add_new(list: &mut Vec<(String, String)>, more: &Vec<(String, String)>)
    ensures
        pairs_view(final(list)@) == with_new(pairs_view(old(list)@), pairs_view(more@)),
{
    let ghost start = pairs_view(list@);
    let ghost extra = pairs_view(more@);
    let mut i: usize = 0;
    assert(extra.take(0) =~= Seq::<(Seq<char>, Seq<char>)>::empty());
    while i < more.len()
        invariant
            i <= more.len(),
            extra == pairs_view(more@),
            pairs_view(list@) == with_new(start, extra.take(i as int)),
        decreases more.len() - i,
    {
        let ghost before = pairs_view(list@);
        assert(extra.take(i + 1).drop_last() =~= extra.take(i as int));
        assert(extra.take(i + 1).last() == (more@[i as int].0@, more@[i as int].1@));
        let key = &more[i].0;
        let mut found = false;
        let mut k: usize = 0;
        while k < list.len() && !found
            invariant
                k <= list.len(),
                before == pairs_view(list@),
                forall|j: int| 0 <= j < k - (if found { 1int } else { 0int }) ==> (#[trigger] before[j]).0 != key@,
                found ==> k > 0 && before[k - 1].0 == key@,
            decreases list.len() - k,
        {
            if str_eq(list[k].0.as_str(), key.as_str()) {
                assert(before[k as int].0 == key@);
                found = true;
            }
            k = k + 1;
        }
        if !found {
            list.push((key.clone(), more[i].1.clone()));
            assert(pairs_view(list@) =~= before.push((key@, more@[i as int].1@)));
        }
        i = i + 1;
    }
    assert(extra.take(i as int) =~= extra);
}

fn join_tensors(shards: &Vec<ShardHeader>) -> (r: Vec<TensorInfo>)
    ensures
        infos_view(r@) == all_shard_tensors(shards@),
{
    let mut out: Vec<TensorInfo> = Vec::new();
    let mut i: usize = 0;
    assert(shards@.take(0) =~= Seq::<ShardHeader>::empty());
    assert(infos_view(out@) =~= all_shard_tensors(shards@.take(0)));
    while i < shards.len()
        invariant
            i <= shards.len(),
            infos_view(out@) == all_shard_tensors(shards@.take(i as int)),
        decreases shards.len() - i,
    {
        let ghost before = infos_view(out@);
        assert(shards@.take(i + 1).drop_last() =~= shards@.take(i as int));
        let shard = &shards[i];
        let mut k: usize = 0;
        while k < shard.tensors.len()
            invariant
                k <= shard.tensors.len(),
                infos_view(out@) == before + infos_view(shard.tensors@).take(k as int),
            decreases shard.tensors.len() - k,
        {
            let ghost prev = infos_view(out@);
            let ghost own = infos_view(shard.tensors@);
            let copy = shard.tensors[k].copy();
            let ghost view = copy@;
            out.push(copy);
            proof {
                assert(own[k as int] == view);
                assert(infos_view(out@) =~= prev.push(view));
                assert(own.take(k + 1) =~= own.take(k as int).push(view));
            }
            k = k + 1;
            assert(infos_view(out@) =~= before + own.take(k as int));
        }
        assert(infos_view(shard.tensors@).take(k as int) =~= infos_view(shard.tensors@));
        i = i + 1;
    }
    assert(shards@.take(i as int) =~= shards@);
    out
}

fn join_metadata(shards: &Vec<ShardHeader>) -> (r: (Vec<(String, String)>, u64))
    ensures
        pairs_view(r.0@) == merged_metadata(shards@),
        r.1 == total_size(shards@),
{
    let mut out: Vec<(String, String)> = Vec::new();
    let mut size: u64 = 0;
    let mut i: usize = 0;
    assert(shards@.take(0) =~= Seq::<ShardHeader>::empty());
    assert(pairs_view(out@) =~= merged_metadata(shards@.take(0)));
    while i < shards.len()
        invariant
            i <= shards.len(),
            pairs_view(out@) == merged_metadata(shards@.take(i as int)),
            size == total_size(shards@.take(i as int)),
        decreases shards.len() - i,
    {
        assert(shards@.take(i + 1).drop_last() =~= shards@.take(i as int));
        add_new(&mut out, &shards[i].metadata);
        size = size.wrapping_add(shards[i].file_size);
        i = i + 1;
    }
    assert(shards@.take(i as int) =~= shards@);
    (out, size)
}

/// The architecture of a model in a directory: that of the configuration,
/// else the one that the metadata names.
pub open spec fn directory_architecture(config: ConfigSummary, metadata: Pairs) -> Option<
    Seq<char>,
> {
    match opt_text(config.architecture) {
        Some(a) => Some(a),
        None => match crate::model::pairs_lookup(metadata, "model_type"@) {
            Some(a) => Some(a),
            None => crate::model::pairs_lookup(metadata, "architecture"@),
        },
    }
}

/// Summarises a directory of SafeTensors files from the headers of its
/// files, in the order of the files' names, from its configuration, and
/// from whether it holds a tokenizer.
///
/// Fails exactly when there is no file.
pub fn parse_dir(
    shards: Vec<ShardHeader>,
    config: ConfigSummary,
    has_tokenizer: bool,
    dir_name: String,
    dir_path: String,
) -> (r: Result<ModelInfo, ModelError>)
    ensures
        match r {
            Err(e) => shards@.len() == 0 && e@ == safetensors_error(
                "No .safetensors files found in directory"@,
            ),
            Ok(info) => {
                &&& shards@.len() > 0
                &&& info.file_name@ == dir_name@
                &&& info.file_path@ == dir_path@
                &&& info.file_size == total_size(shards@)
                &&& info.file_size_display@ == file_size_text(info.file_size)
                &&& info.format == ModelFormat::SafeTensors
                &&& info.tensor_count == all_shard_tensors(shards@).len() as u64
                &&& info.parameter_count == params_of(all_shard_tensors(shards@))
                &&& info.parameter_count_display@ == param_count_text(info.parameter_count)
                &&& infos_view(info.all_tensors@) == sorted_infos(all_shard_tensors(shards@))
                &&& infos_view(info.tensor_preview@) == first_tensors(
                    infos_view(info.all_tensors@),
                    PREVIEW_TENSORS as int,
                )
                &&& info.layer_count == layers_named(info.all_tensors@)
                &&& opt_text(info.quantization) == prevailing_dtype(infos_view(info.all_tensors@))
                &&& pairs_view(info.metadata@) == merged_metadata(shards@)
                &&& opt_text(info.architecture) == directory_architecture(
                    config,
                    merged_metadata(shards@),
                )
                &&& info.context_length == config.context_length
                &&& info.embedding_size == config.embedding_size
                &&& info.vocab_size == config.vocab_size
                &&& opt_text(info.model_type) == opt_text(config.model_type)
                &&& info.shard_count == Some(shards@.len() as u32)
                &&& info.has_tokenizer == Some(has_tokenizer)
                &&& info.has_config == Some(config.has_config)
            },
        },
{
    if shards.len() == 0 {
        return Err(
            ModelError::ParseError {
                format: "SafeTensors".to_owned(),
                reason: "No .safetensors files found in directory".to_owned(),
            },
        );
    }
    let shard_count: u32 = #[verifier::truncate]
    (shards.len() as u32);
    let tensors = join_tensors(&shards);
    let (metadata, file_size) = join_metadata(&shards);
    let parameter_count = count_all_params(&tensors);
    let tensor_count = tensors.len() as u64;
    let all_tensors = sort_by_name(tensors);
    let layer_count = derive_layer_count(all_tensors.as_slice());
    let quantization = detect_quantization(&all_tensors);
    let tensor_preview = preview_of(&all_tensors);
    let architecture: Option<String> = match &config.architecture {
        Some(a) => Some(a.clone()),
        None => {
            proof {
                crate::model::pairs_lookup_is_meta_lookup(metadata@, "model_type"@);
                crate::model::pairs_lookup_is_meta_lookup(metadata@, "architecture"@);
            }
            find_architecture(&metadata)
        },
    };
    Ok(
        ModelInfo {
            file_name: dir_name,
            file_path: dir_path,
            file_size,
            file_size_display: format_file_size(file_size),
            format: ModelFormat::SafeTensors,
            tensor_count,
            parameter_count,
            parameter_count_display: format_param_count(parameter_count),
            layer_count,
            quantization,
            architecture,
            context_length: config.context_length,
            embedding_size: config.embedding_size,
            metadata,
            tensor_preview,
            all_tensors,
            shard_count: Some(shard_count),
            has_tokenizer: Some(has_tokenizer),
            has_config: Some(config.has_config),
            model_type: config.model_type,
            vocab_size: config.vocab_size,
        },
    )
}

} // verus!
