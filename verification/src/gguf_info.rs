//! The summary of a GGUF file: what its metadata says of the model, and
//! its tensors in the order of their names.
//!
//! The decimal text of a floating-point metadata value is not computed
//! here: the caller supplies it, one text per metadata entry.

use vstd::prelude::*;
use crate::gguf::{array_view, values_view, GgufValue, ValueView};
use crate::gguf_file::{metadata_view, tensors_view, GgufFile, GgufTensor, GgufTensorView};
use crate::model::{
    derive_layer_count, infos_view, layer_set, meta_insert, opt_text, pairs_insert, pairs_view,
    sort_by_name, sorted_infos, ModelFormat, ModelInfo, TensorInfo, TensorInfoView,
};
use crate::numfmt::{file_size_text, format_file_size, format_param_count, param_count_text};
use crate::planner::texts;
use crate::seqs::{last_where, last_where_absent, last_where_found};
use crate::text::{
    byte_len, concat_text, decimal_string, decimal_text, push_signed, signed_text,
    str_byte_len, str_eq, string_of,
};

verus! {

/// The name of a tensor element type.
pub open spec fn ggml_type_label(t: u32) -> Seq<char> {
    if t == 0 {
        "F32"@
    } else if t == 1 {
        "F16"@
    } else if t == 2 {
        "Q4_0"@
    } else if t == 3 {
        "Q4_1"@
    } else if t == 6 {
        "Q5_0"@
    } else if t == 7 {
        "Q5_1"@
    } else if t == 8 {
        "Q8_0"@
    } else if t == 9 {
        "Q8_1"@
    } else if t == 10 {
        "Q2_K"@
    } else if t == 11 {
        "Q3_K"@
    } else if t == 12 {
        "Q4_K"@
    } else if t == 13 {
        "Q5_K"@
    } else if t == 14 {
        "Q6_K"@
    } else if t == 15 {
        "Q8_K"@
    } else if t == 16 {
        "IQ2_XXS"@
    } else if t == 17 {
        "IQ2_XS"@
    } else if t == 18 {
        "IQ3_XXS"@
    } else if t == 19 {
        "IQ1_S"@
    } else if t == 20 {
        "IQ4_NL"@
    } else if t == 21 {
        "IQ3_S"@
    } else if t == 22 {
        "IQ2_S"@
    } else if t == 23 {
        "IQ4_XS"@
    } else if t == 24 {
        "I8"@
    } else if t == 25 {
        "I16"@
    } else if t == 26 {
        "I32"@
    } else if t == 27 {
        "I64"@
    } else if t == 28 {
        "F64"@
    } else if t == 29 {
        "IQ1_M"@
    } else if t == 30 {
        "BF16"@
    } else {
        "UNKNOWN"@
    }
}

/// The name of a tensor element type.
pub fn ggml_type_name(t: u32) -> (r: &'static str)
    ensures
        r@ == ggml_type_label(t),
{
    if t == 0 {
        "F32"
    } else if t == 1 {
        "F16"
    } else if t == 2 {
        "Q4_0"
    } else if t == 3 {
        "Q4_1"
    } else if t == 6 {
        "Q5_0"
    } else if t == 7 {
        "Q5_1"
    } else if t == 8 {
        "Q8_0"
    } else if t == 9 {
        "Q8_1"
    } else if t == 10 {
        "Q2_K"
    } else if t == 11 {
        "Q3_K"
    } else if t == 12 {
        "Q4_K"
    } else if t == 13 {
        "Q5_K"
    } else if t == 14 {
        "Q6_K"
    } else if t == 15 {
        "Q8_K"
    } else if t == 16 {
        "IQ2_XXS"
    } else if t == 17 {
        "IQ2_XS"
    } else if t == 18 {
        "IQ3_XXS"
    } else if t == 19 {
        "IQ1_S"
    } else if t == 20 {
        "IQ4_NL"
    } else if t == 21 {
        "IQ3_S"
    } else if t == 22 {
        "IQ2_S"
    } else if t == 23 {
        "IQ4_XS"
    } else if t == 24 {
        "I8"
    } else if t == 25 {
        "I16"
    } else if t == 26 {
        "I32"
    } else if t == 27 {
        "I64"
    } else if t == 28 {
        "F64"
    } else if t == 29 {
        "IQ1_M"
    } else if t == 30 {
        "BF16"
    } else {
        "UNKNOWN"
    }
}

/// The name of the quantization that a file declares for itself.
pub open spec fn file_type_label(ft: u64) -> Seq<char> {
    if ft == 0 {
        "F32"@
    } else if ft == 1 {
        "F16"@
    } else if ft == 2 {
        "Q4_0"@
    } else if ft == 3 {
        "Q4_1"@
    } else if ft == 7 {
        "Q8_0"@
    } else if ft == 8 {
        "Q5_0"@
    } else if ft == 9 {
        "Q5_1"@
    } else if ft == 10 {
        "Q2_K"@
    } else if ft == 11 {
        "Q3_K_S"@
    } else if ft == 12 {
        "Q3_K_M"@
    } else if ft == 13 {
        "Q3_K_L"@
    } else if ft == 14 {
        "Q4_K_S"@
    } else if ft == 15 {
        "Q4_K_M"@
    } else if ft == 16 {
        "Q5_K_S"@
    } else if ft == 17 {
        "Q5_K_M"@
    } else if ft == 18 {
        "Q6_K"@
    } else if ft == 19 {
        "IQ2_XXS"@
    } else if ft == 20 {
        "IQ2_XS"@
    } else if ft == 21 {
        "IQ3_XXS"@
    } else if ft == 22 {
        "IQ1_S"@
    } else if ft == 23 {
        "IQ4_NL"@
    } else if ft == 24 {
        "IQ3_S"@
    } else if ft == 25 {
        "IQ2_S"@
    } else if ft == 26 {
        "IQ4_XS"@
    } else if ft == 27 {
        "IQ1_M"@
    } else if ft == 28 {
        "BF16"@
    } else {
        "UNKNOWN"@
    }
}

/// The name of the quantization that a file declares for itself.
pub fn gguf_file_type_name(ft: u64) -> (r: &'static str)
    ensures
        r@ == file_type_label(ft),
{
    if ft == 0 {
        "F32"
    } else if ft == 1 {
        "F16"
    } else if ft == 2 {
        "Q4_0"
    } else if ft == 3 {
        "Q4_1"
    } else if ft == 7 {
        "Q8_0"
    } else if ft == 8 {
        "Q5_0"
    } else if ft == 9 {
        "Q5_1"
    } else if ft == 10 {
        "Q2_K"
    } else if ft == 11 {
        "Q3_K_S"
    } else if ft == 12 {
        "Q3_K_M"
    } else if ft == 13 {
        "Q3_K_L"
    } else if ft == 14 {
        "Q4_K_S"
    } else if ft == 15 {
        "Q4_K_M"
    } else if ft == 16 {
        "Q5_K_S"
    } else if ft == 17 {
        "Q5_K_M"
    } else if ft == 18 {
        "Q6_K"
    } else if ft == 19 {
        "IQ2_XXS"
    } else if ft == 20 {
        "IQ2_XS"
    } else if ft == 21 {
        "IQ3_XXS"
    } else if ft == 22 {
        "IQ1_S"
    } else if ft == 23 {
        "IQ4_NL"
    } else if ft == 24 {
        "IQ3_S"
    } else if ft == 25 {
        "IQ2_S"
    } else if ft == 26 {
        "IQ4_XS"
    } else if ft == 27 {
        "IQ1_M"
    } else if ft == 28 {
        "BF16"
    } else {
        "UNKNOWN"
    }
}

// ---------------------------------------------------------------------------
// Values as texts and numbers
// ---------------------------------------------------------------------------

/// The text of a value that is a string, a whole number or a truth value.
pub open spec fn value_text(v: ValueView) -> Option<Seq<char>> {
    match v {
        ValueView::String(s) => Some(s),
        ValueView::Uint8(x) => Some(decimal_text(x as nat)),
        ValueView::Int8(x) => Some(signed_text(x as int)),
        ValueView::Uint16(x) => Some(decimal_text(x as nat)),
        ValueView::Int16(x) => Some(signed_text(x as int)),
        ValueView::Uint32(x) => Some(decimal_text(x as nat)),
        ValueView::Int32(x) => Some(signed_text(x as int)),
        ValueView::Bool(b) => Some(
            if b {
                "true"@
            } else {
                "false"@
            },
        ),
        ValueView::Uint64(x) => Some(decimal_text(x as nat)),
        ValueView::Int64(x) => Some(signed_text(x as int)),
        ValueView::Float32(_) => None,
        ValueView::Float64(_) => None,
        ValueView::Array(_) => None,
    }
}

/// The value is a floating-point number.
pub open spec fn value_is_float(v: ValueView) -> bool {
    v is Float32 || v is Float64
}

/// The text under which a value is shown: for a floating-point number the
/// text that the caller supplies, for an array none.
pub open spec fn shown_text(v: ValueView, float_text: Seq<char>) -> Option<Seq<char>> {
    if value_is_float(v) {
        Some(float_text)
    } else {
        value_text(v)
    }
}

/// The value as an unsigned number: a whole number that is not negative.
pub open spec fn value_u64(v: ValueView) -> Option<u64> {
    match v {
        ValueView::Uint8(x) => Some(x as u64),
        ValueView::Uint16(x) => Some(x as u64),
        ValueView::Uint32(x) => Some(x as u64),
        ValueView::Uint64(x) => Some(x),
        ValueView::Int8(x) => if x >= 0 {
            Some(x as u64)
        } else {
            None
        },
        ValueView::Int16(x) => if x >= 0 {
            Some(x as u64)
        } else {
            None
        },
        ValueView::Int32(x) => if x >= 0 {
            Some(x as u64)
        } else {
            None
        },
        ValueView::Int64(x) => if x >= 0 {
            Some(x as u64)
        } else {
            None
        },
        _ => None,
    }
}

fn signed_string(v: i64) -> (r: String)
    ensures
        r@ == signed_text(v as int),
{
    let mut out: Vec<char> = Vec::new();
    push_signed(&mut out, v);
    assert(out@ =~= signed_text(v as int));
    string_of(out.as_slice())
}

impl GgufValue {
    /// The text of a string, a whole number or a truth value. A
    /// floating-point number and an array have none here.
    pub fn as_string(&self) -> (r: Option<String>)
        ensures
            opt_text(r) == value_text(self@),
    {
        match self {
            GgufValue::String(s) => Some(s.clone()),
            GgufValue::Uint8(v) => Some(decimal_string(*v as u64)),
            GgufValue::Int8(v) => Some(signed_string(*v as i64)),
            GgufValue::Uint16(v) => Some(decimal_string(*v as u64)),
            GgufValue::Int16(v) => Some(signed_string(*v as i64)),
            GgufValue::Uint32(v) => Some(decimal_string(*v as u64)),
            GgufValue::Int32(v) => Some(signed_string(*v as i64)),
            GgufValue::Bool(v) => Some(
                if *v {
                    "true".to_owned()
                } else {
                    "false".to_owned()
                },
            ),
            GgufValue::Uint64(v) => Some(decimal_string(*v)),
            GgufValue::Int64(v) => Some(signed_string(*v)),
            GgufValue::Float32(_) => None,
            GgufValue::Float64(_) => None,
            GgufValue::Array(_) => None,
        }
    }

    /// Whether the value is a floating-point number.
    pub fn is_float(&self) -> (r: bool)
        ensures
            r == value_is_float(self@),
    {
        match self {
            GgufValue::Float32(_) => true,
            GgufValue::Float64(_) => true,
            _ => false,
        }
    }

    /// The text under which the value is shown, `float_text` standing for a
    /// floating-point number.
    pub fn shown(&self, float_text: &str) -> (r: Option<String>)
        ensures
            opt_text(r) == shown_text(self@, float_text@),
    {
        if self.is_float() {
            Some(float_text.to_owned())
        } else {
            self.as_string()
        }
    }

    /// The value as an unsigned number, where it is a whole number that is
    /// not negative.
    pub fn as_u64(&self) -> (r: Option<u64>)
        ensures
            r == value_u64(self@),
    {
        match self {
            GgufValue::Uint8(v) => Some(*v as u64),
            GgufValue::Uint16(v) => Some(*v as u64),
            GgufValue::Uint32(v) => Some(*v as u64),
            GgufValue::Uint64(v) => Some(*v),
            GgufValue::Int8(v) => if *v >= 0 {
                Some(*v as u64)
            } else {
                None
            },
            GgufValue::Int16(v) => if *v >= 0 {
                Some(*v as u64)
            } else {
                None
            },
            GgufValue::Int32(v) => if *v >= 0 {
                Some(*v as u64)
            } else {
                None
            },
            GgufValue::Int64(v) => if *v >= 0 {
                Some(*v as u64)
            } else {
                None
            },
            _ => None,
        }
    }
}

// ---------------------------------------------------------------------------
// Looking up metadata
// ---------------------------------------------------------------------------

pub type Entries = Seq<(Seq<char>, ValueView)>;

/// The index of the entry that counts for `key`: the last one with it.
pub open spec fn kv_index(meta: Entries, key: Seq<char>) -> Option<int> {
    last_where(meta, |e: (Seq<char>, ValueView)| e.0 == key)
}

/// The value that the metadata holds for `key`.
pub open spec fn kv_value(meta: Entries, key: Seq<char>) -> Option<ValueView> {
    match kv_index(meta, key) {
        Some(i) => Some(meta[i].1),
        None => None,
    }
}

/// The number that the metadata holds for `key`.
pub open spec fn kv_number(meta: Entries, key: Seq<char>) -> Option<u64> {
    match kv_value(meta, key) {
        Some(v) => value_u64(v),
        None => None,
    }
}

/// The text under which the value for `key` is shown.
pub open spec fn kv_text(meta: Entries, float_texts: Seq<Seq<char>>, key: Seq<char>) -> Option<
    Seq<char>,
> {
    match kv_index(meta, key) {
        Some(i) => shown_text(meta[i].1, float_texts[i]),
        None => None,
    }
}

/// Finds the entry that counts for `key`.
pub fn find_entry(meta: &Vec<(String, GgufValue)>, key: &str) -> (r: Option<usize>)
    ensures
        match r {
            Some(i) => kv_index(metadata_view(meta@), key@) == Some(i as int) && i < meta@.len(),
            None => kv_index(metadata_view(meta@), key@) is None,
        },
{
    let ghost list = metadata_view(meta@);
    let ghost p = |e: (Seq<char>, ValueView)| e.0 == key@;
    let mut i: usize = meta.len();
    while i > 0
        invariant
            i <= meta.len(),
            list == metadata_view(meta@),
            p == (|e: (Seq<char>, ValueView)| e.0 == key@),
            forall|j: int| i <= j < list.len() ==> !p(#[trigger] list[j]),
        decreases i,
    {
        i = i - 1;
        if str_eq(meta[i].0.as_str(), key) {
            proof {
                assert(p(list[i as int]));
                last_where_found(list, p, i as int);
            }
            return Some(i);
        }
    }
    proof {
        last_where_absent(list, p);
    }
    None
}

fn find_number(meta: &Vec<(String, GgufValue)>, key: &str) -> (r: Option<u64>)
    ensures
        r == kv_number(metadata_view(meta@), key@),
{
    match find_entry(meta, key) {
        Some(i) => meta[i].1.as_u64(),
        None => None,
    }
}

fn find_text(meta: &Vec<(String, GgufValue)>, float_texts: &Vec<String>, key: &str) -> (r:
    Option<String>)
    requires
        float_texts@.len() == meta@.len(),
    ensures
        opt_text(r) == kv_text(metadata_view(meta@), texts(float_texts@), key@),
{
    match find_entry(meta, key) {
        Some(i) => meta[i].1.shown(float_texts[i].as_str()),
        None => None,
    }
}

// ---------------------------------------------------------------------------
// The tensors
// ---------------------------------------------------------------------------

/// The product of the dimensions, counted modulo two to the power 64.
pub open spec fn wrapping_product(shape: Seq<u64>) -> u64
    decreases shape.len(),
{
    if shape.len() == 0 {
        1
    } else {
        wrapping_product(shape.drop_last()).wrapping_mul(shape.last())
    }
}

/// The number of parameters of a tensor, counted modulo two to the power
/// 64; a tensor without dimensions has none.
pub open spec fn shape_params(shape: Seq<u64>) -> u64 {
    if shape.len() == 0 {
        0
    } else {
        wrapping_product(shape)
    }
}

/// The number of parameters of the tensors together, counted modulo two to
/// the power 64.
pub open spec fn total_params(tensors: Seq<GgufTensorView>) -> u64
    decreases tensors.len(),
{
    if tensors.len() == 0 {
        0
    } else {
        total_params(tensors.drop_last()).wrapping_add(shape_params(tensors.last().shape))
    }
}

/// Name, element type and shape of a tensor of the file.
pub open spec fn info_of(t: GgufTensorView) -> TensorInfoView {
    TensorInfoView { name: t.name, dtype: ggml_type_label(t.ggml_type), shape: t.shape }
}

/// The number of parameters of a tensor of the given shape.
pub fn count_params(shape: &Vec<u64>) -> (r: u64)
    ensures
        r == shape_params(shape@),
{
    if shape.len() == 0 {
        return 0;
    }
    let mut product: u64 = 1;
    let mut i: usize = 0;
    assert(shape@.take(0) =~= Seq::<u64>::empty());
    while i < shape.len()
        invariant
            i <= shape.len(),
            product == wrapping_product(shape@.take(i as int)),
        decreases shape.len() - i,
    {
        assert(shape@.take(i + 1).drop_last() =~= shape@.take(i as int));
        product = product.wrapping_mul(shape[i]);
        i = i + 1;
    }
    assert(shape@.take(i as int) =~= shape@);
    product
}

fn collect_tensors(tensors: &Vec<GgufTensor>) -> (r: (Vec<TensorInfo>, u64))
    ensures
        infos_view(r.0@) == tensors_view(tensors@).map_values(|t: GgufTensorView| info_of(t)),
        r.1 == total_params(tensors_view(tensors@)),
{
    let ghost all = tensors_view(tensors@);
    let mut out: Vec<TensorInfo> = Vec::new();
    let mut total: u64 = 0;
    let mut i: usize = 0;
    assert(all.take(0) =~= Seq::<GgufTensorView>::empty());
    while i < tensors.len()
        invariant
            i <= tensors.len(),
            all == tensors_view(tensors@),
            out@.len() == i,
            forall|j: int| 0 <= j < i ==> (#[trigger] out@[j])@ == info_of(all[j]),
            total == total_params(all.take(i as int)),
        decreases tensors.len() - i,
    {
        let t = &tensors[i];
        assert(all[i as int] == t@);
        assert(all.take(i + 1).drop_last() =~= all.take(i as int));
        let mut shape: Vec<u64> = Vec::new();
        let mut k: usize = 0;
        while k < t.shape.len()
            invariant
                k <= t.shape.len(),
                shape@ == t.shape@.take(k as int),
            decreases t.shape.len() - k,
        {
            shape.push(t.shape[k]);
            k = k + 1;
            assert(shape@ =~= t.shape@.take(k as int));
        }
        assert(t.shape@.take(t.shape.len() as int) =~= t.shape@);
        total = total.wrapping_add(count_params(&t.shape));
        out.push(
            TensorInfo {
                name: t.name.clone(),
                dtype: ggml_type_name(t.ggml_type).to_owned(),
                shape,
            },
        );
        i = i + 1;
    }
    assert(all.take(i as int) =~= all);
    assert(infos_view(out@) =~= all.map_values(|t: GgufTensorView| info_of(t)));
    (out, total)
}

// ---------------------------------------------------------------------------
// The metadata that is shown
// ---------------------------------------------------------------------------

pub type Pairs = Seq<(Seq<char>, Seq<char>)>;

/// The longest text that is shown, in bytes.
pub const MAX_SHOWN_BYTES: usize = 500;

/// Of the first `n` entries, those that count for their key and have a text
/// of at most 500 bytes, with that text.
pub open spec fn shown_entries(meta: Entries, float_texts: Seq<Seq<char>>, n: nat) -> Pairs
    decreases n,
{
    if n == 0 {
        Seq::empty()
    } else {
        let rest = shown_entries(meta, float_texts, (n - 1) as nat);
        let i = n - 1;
        match shown_text(meta[i].1, float_texts[i]) {
            Some(text) => if kv_index(meta, meta[i].0) == Some(i) && byte_len(text)
                <= MAX_SHOWN_BYTES {
                rest.push((meta[i].0, text))
            } else {
                rest
            },
            None => rest,
        }
    }
}

/// The list with the text of the token that the id under `key` names,
/// stored under `key` followed by `_resolved`; the list itself where the id
/// is missing or names no token that is a string.
pub open spec fn with_resolved(
    list: Pairs,
    meta: Entries,
    tokens: Seq<ValueView>,
    key: Seq<char>,
) -> Pairs {
    match kv_number(meta, key) {
        Some(id) => {
            let idx = id as usize;
            if idx < tokens.len() {
                match tokens[idx as int] {
                    ValueView::String(token) => pairs_insert(list, key + "_resolved"@, token),
                    _ => list,
                }
            } else {
                list
            }
        },
        None => list,
    }
}

/// The list with what the vocabulary adds: the number of tokens, and the
/// texts of the beginning, end, padding and unknown tokens. The list itself
/// where the metadata holds no vocabulary.
pub open spec fn with_tokens(list: Pairs, meta: Entries) -> Pairs {
    match kv_value(meta, "tokenizer.ggml.tokens"@) {
        Some(ValueView::Array(tokens)) => {
            let counted = pairs_insert(
                list,
                "tokenizer.ggml.tokens_count"@,
                decimal_text(tokens.len()),
            );
            let a = with_resolved(counted, meta, tokens, "tokenizer.ggml.bos_token_id"@);
            let b = with_resolved(a, meta, tokens, "tokenizer.ggml.eos_token_id"@);
            let c = with_resolved(b, meta, tokens, "tokenizer.ggml.padding_token_id"@);
            with_resolved(c, meta, tokens, "tokenizer.ggml.unknown_token_id"@)
        },
        _ => list,
    }
}

/// The metadata that is shown.
pub open spec fn shown_metadata(meta: Entries, float_texts: Seq<Seq<char>>) -> Pairs {
    with_tokens(shown_entries(meta, float_texts, meta.len()), meta)
}

fn collect_shown(meta: &Vec<(String, GgufValue)>, float_texts: &Vec<String>) -> (r: Vec<
    (String, String),
>)
    requires
        float_texts@.len() == meta@.len(),
    ensures
        pairs_view(r@) == shown_entries(
            metadata_view(meta@),
            texts(float_texts@),
            meta@.len() as nat,
        ),
{
    let ghost list = metadata_view(meta@);
    let ghost floats = texts(float_texts@);
    let mut out: Vec<(String, String)> = Vec::new();
    let mut i: usize = 0;
    assert(pairs_view(out@) =~= shown_entries(list, floats, 0));
    while i < meta.len()
        invariant
            i <= meta.len(),
            float_texts@.len() == meta@.len(),
            list == metadata_view(meta@),
            floats == texts(float_texts@),
            pairs_view(out@) == shown_entries(list, floats, i as nat),
        decreases meta.len() - i,
    {
        let ghost before = pairs_view(out@);
        assert(list[i as int] == (meta@[i as int].0@, meta@[i as int].1@));
        assert(floats[i as int] == float_texts@[i as int]@);
        match meta[i].1.shown(float_texts[i].as_str()) {
            Some(text) => {
                let counts = match find_entry(meta, meta[i].0.as_str()) {
                    Some(k) => k == i,
                    None => false,
                };
                if counts && str_byte_len(text.as_str()) <= MAX_SHOWN_BYTES {
                    let ghost entry = (meta@[i as int].0@, text@);
                    out.push((meta[i].0.clone(), text));
                    assert(pairs_view(out@) =~= before.push(entry));
                }
            },
            None => {},
        }
        i = i + 1;
    }
    out
}

fn add_resolved(
    out: &mut Vec<(String, String)>,
    meta: &Vec<(String, GgufValue)>,
    tokens: &Vec<GgufValue>,
    key: &str,
)
    ensures
        pairs_view(final(out)@) == with_resolved(
            pairs_view(old(out)@),
            metadata_view(meta@),
            values_view(tokens@),
            key@,
        ),
{
    match find_number(meta, key) {
        Some(id) => {
            let idx: usize = #[verifier::truncate]
            (id as usize);
            if idx < tokens.len() {
                assert(values_view(tokens@)[idx as int] == tokens@[idx as int]@);
                match &tokens[idx] {
                    GgufValue::String(token) => {
                        meta_insert(out, concat_text(key, "_resolved"), token.clone());
                    },
                    _ => {},
                }
            }
        },
        None => {},
    }
}

fn add_tokens(out: &mut Vec<(String, String)>, meta: &Vec<(String, GgufValue)>)
    ensures
        pairs_view(final(out)@) == with_tokens(pairs_view(old(out)@), metadata_view(meta@)),
{
    match find_entry(meta, "tokenizer.ggml.tokens") {
        Some(i) => {
            assert(metadata_view(meta@)[i as int].1 == meta@[i as int].1@);
            match &meta[i].1 {
                GgufValue::Array(tokens) => {
                    proof {
                        array_view(*tokens);
                    }
                    meta_insert(
                        out,
                        "tokenizer.ggml.tokens_count".to_owned(),
                        decimal_string(tokens.len() as u64),
                    );
                    add_resolved(out, meta, tokens, "tokenizer.ggml.bos_token_id");
                    add_resolved(out, meta, tokens, "tokenizer.ggml.eos_token_id");
                    add_resolved(out, meta, tokens, "tokenizer.ggml.padding_token_id");
                    add_resolved(out, meta, tokens, "tokenizer.ggml.unknown_token_id");
                },
                _ => {},
            }
        },
        None => {},
    }
}

// ---------------------------------------------------------------------------
// The summary
// ---------------------------------------------------------------------------

/// The architecture that the metadata names.
pub open spec fn architecture_of(meta: Entries, float_texts: Seq<Seq<char>>) -> Option<Seq<char>> {
    kv_text(meta, float_texts, "general.architecture"@)
}

/// The architecture's name as the prefix of the keys that describe it;
/// empty where the metadata names no architecture.
pub open spec fn arch_prefix(meta: Entries, float_texts: Seq<Seq<char>>) -> Seq<char> {
    match architecture_of(meta, float_texts) {
        Some(a) => a,
        None => Seq::empty(),
    }
}

/// The quantization that the file declares.
pub open spec fn quantization_of(meta: Entries) -> Option<Seq<char>> {
    match kv_number(meta, "general.file_type"@) {
        Some(ft) => Some(file_type_label(ft)),
        None => None,
    }
}

/// The first `n` tensors of a list, or all of them where there are fewer.
pub open spec fn first_tensors(s: Seq<TensorInfoView>, n: int) -> Seq<TensorInfoView> {
    if s.len() <= n {
        s
    } else {
        s.take(n)
    }
}

/// The number of tensors in a preview.
pub const PREVIEW_TENSORS: usize = 50;

/// Copies of the first tensors of a list.
pub fn preview_of(tensors: &Vec<TensorInfo>) -> (r: Vec<TensorInfo>)
    ensures
        infos_view(r@) == first_tensors(infos_view(tensors@), PREVIEW_TENSORS as int),
{
    let mut out: Vec<TensorInfo> = Vec::new();
    let mut i: usize = 0;
    while i < tensors.len() && i < PREVIEW_TENSORS
        invariant
            i <= tensors.len(),
            i <= PREVIEW_TENSORS,
            out@.len() == i,
            forall|j: int| 0 <= j < i ==> (#[trigger] out@[j])@ == tensors@[j]@,
        decreases tensors.len() - i,
    {
        out.push(tensors[i].copy());
        i = i + 1;
    }
    assert(infos_view(out@) =~= first_tensors(infos_view(tensors@), PREVIEW_TENSORS as int));
    out
}

/// Summarises the header of a GGUF file.
///
/// `float_texts` holds one text per metadata entry: for an entry whose
/// value is a floating-point number its decimal text, for any other entry a
/// text that is not read.
pub fn summarize(
    file: &GgufFile,
    float_texts: &Vec<String>,
    file_name: String,
    file_path: String,
    file_size: u64,
) -> (r: ModelInfo)
    requires
        float_texts@.len() == file.metadata@.len(),
    ensures
        r.file_name@ == file_name@,
        r.file_path@ == file_path@,
        r.file_size == file_size,
        r.file_size_display@ == file_size_text(file_size),
        r.format == ModelFormat::Gguf,
        r.tensor_count == file.tensor_count,
        r.parameter_count == total_params(file@.tensors),
        r.parameter_count_display@ == param_count_text(r.parameter_count),
        infos_view(r.all_tensors@) == sorted_infos(
            file@.tensors.map_values(|t: GgufTensorView| info_of(t)),
        ),
        infos_view(r.tensor_preview@) == first_tensors(
            infos_view(r.all_tensors@),
            PREVIEW_TENSORS as int,
        ),
        opt_text(r.architecture) == architecture_of(file@.metadata, texts(float_texts@)),
        r.context_length == kv_number(
            file@.metadata,
            arch_prefix(file@.metadata, texts(float_texts@)) + ".context_length"@,
        ),
        r.embedding_size == kv_number(
            file@.metadata,
            arch_prefix(file@.metadata, texts(float_texts@)) + ".embedding_length"@,
        ),
        r.layer_count == (match kv_number(
            file@.metadata,
            arch_prefix(file@.metadata, texts(float_texts@)) + ".block_count"@,
        ) {
            Some(n) => Some(n),
            None => if layer_set(r.all_tensors@).len() == 0 {
                None
            } else {
                Some(layer_set(r.all_tensors@).len() as u64)
            },
        }),
        opt_text(r.quantization) == quantization_of(file@.metadata),
        pairs_view(r.metadata@) == shown_metadata(file@.metadata, texts(float_texts@)),
        r.shard_count is None,
        r.has_tokenizer is None,
        r.has_config is None,
        r.model_type is None,
        r.vocab_size is None,
{
    let (unsorted, parameter_count) = collect_tensors(&file.tensors);
    let all_tensors = sort_by_name(unsorted);
    let architecture = find_text(&file.metadata, float_texts, "general.architecture");
    let prefix: String = match &architecture {
        Some(a) => a.clone(),
        None => String::new(),
    };
    let context_key = concat_text(prefix.as_str(), ".context_length");
    let embedding_key = concat_text(prefix.as_str(), ".embedding_length");
    let block_key = concat_text(prefix.as_str(), ".block_count");
    let context_length = find_number(&file.metadata, context_key.as_str());
    let embedding_size = find_number(&file.metadata, embedding_key.as_str());
    let block_count = find_number(&file.metadata, block_key.as_str());
    let quantization = match find_number(&file.metadata, "general.file_type") {
        Some(ft) => Some(gguf_file_type_name(ft).to_owned()),
        None => None,
    };
    let mut metadata = collect_shown(&file.metadata, float_texts);
    add_tokens(&mut metadata, &file.metadata);
    let layer_count = match block_count {
        Some(n) => Some(n),
        None => derive_layer_count(all_tensors.as_slice()),
    };
    let tensor_preview = preview_of(&all_tensors);
    ModelInfo {
        file_name,
        file_path,
        file_size,
        file_size_display: format_file_size(file_size),
        format: ModelFormat::Gguf,
        tensor_count: file.tensor_count,
        parameter_count,
        parameter_count_display: format_param_count(parameter_count),
        layer_count,
        quantization,
        architecture,
        context_length,
        embedding_size,
        metadata,
        tensor_preview,
        all_tensors,
        shard_count: None,
        has_tokenizer: None,
        has_config: None,
        model_type: None,
        vocab_size: None,
    }
}

} // verus!
