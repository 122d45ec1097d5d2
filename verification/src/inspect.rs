//! Reading a tensor's role and layer from its name.

use vstd::prelude::*;
use crate::text::{
    chars_of, contains, contains_str, equals_str, find_sub, first_match, head_of, lowercase,
    lowercase_of, parse_u64, parse_u64_spec, starts_with, starts_with_str, tail_of,
};

verus! {

/// The part of a model that a tensor belongs to.
#[derive(Clone, Copy, Debug, PartialEq, Eq, Structural)]
pub enum TensorComponent {
    Embedding,
    Output,
    Attention,
    Norm,
    Mlp,
    Other,
}

impl TensorComponent {
    /// The component's name in lower case.
    pub open spec fn spec_label(self) -> Seq<char> {
        match self {
            TensorComponent::Embedding => "embedding"@,
            TensorComponent::Output => "output"@,
            TensorComponent::Attention => "attention"@,
            TensorComponent::Norm => "norm"@,
            TensorComponent::Mlp => "mlp"@,
            TensorComponent::Other => "other"@,
        }
    }

    /// The component's name in lower case.
    pub fn label(&self) -> (r: &'static str)
        ensures
            r@ == self.spec_label(),
    {
        match self {
            TensorComponent::Embedding => "embedding",
            TensorComponent::Output => "output",
            TensorComponent::Attention => "attention",
            TensorComponent::Norm => "norm",
            TensorComponent::Mlp => "mlp",
            TensorComponent::Other => "other",
        }
    }
}

/// The name marks an embedding table.
pub open spec fn names_embedding(lower: Seq<char>) -> bool {
    ||| contains(lower, "token_embd"@)
    ||| contains(lower, "embed_tokens"@)
    ||| contains(lower, "wte"@)
    ||| contains(lower, "word_embedding"@)
}

/// The name marks the output head.
pub open spec fn names_output(lower: Seq<char>) -> bool {
    ||| lower == "output.weight"@
    ||| contains(lower, "lm_head"@)
    ||| contains(lower, "output_norm"@)
    ||| (starts_with(lower, "output."@) && !contains(lower, "attn"@))
}

/// The name marks an attention projection.
pub open spec fn names_attention(lower: Seq<char>) -> bool {
    ||| contains(lower, "attn_q"@)
    ||| contains(lower, "attn_k"@)
    ||| contains(lower, "attn_v"@)
    ||| contains(lower, "attn_output"@)
    ||| contains(lower, "q_proj"@)
    ||| contains(lower, "k_proj"@)
    ||| contains(lower, "v_proj"@)
    ||| contains(lower, "o_proj"@)
    ||| contains(lower, "self_attn"@)
    ||| contains(lower, "qkv_proj"@)
    ||| contains(lower, "attn.c_attn"@)
    ||| contains(lower, "attn.c_proj"@)
}

/// The name marks a normalisation layer.
pub open spec fn names_norm(lower: Seq<char>) -> bool {
    ||| contains(lower, "norm"@)
    ||| contains(lower, "layernorm"@)
    ||| contains(lower, "ln_"@)
    ||| contains(lower, "layer_norm"@)
    ||| contains(lower, "rms_norm"@)
    ||| contains(lower, "input_layernorm"@)
    ||| contains(lower, "post_attention_layernorm"@)
}

/// The name marks a feed-forward block.
pub open spec fn names_mlp(lower: Seq<char>) -> bool {
    ||| contains(lower, "ffn_"@)
    ||| contains(lower, "mlp"@)
    ||| contains(lower, "gate_proj"@)
    ||| contains(lower, "up_proj"@)
    ||| contains(lower, "down_proj"@)
    ||| contains(lower, "fc1"@)
    ||| contains(lower, "fc2"@)
    ||| contains(lower, "c_fc"@)
    ||| contains(lower, "c_proj"@)
    ||| contains(lower, "feed_forward"@)
}

/// The component that a lower-case tensor name marks. The groups are tried
/// in this order: embedding, output, attention, norm, feed-forward.
pub open spec fn component_of_lower(lower: Seq<char>) -> TensorComponent {
    if names_embedding(lower) {
        TensorComponent::Embedding
    } else if names_output(lower) {
        TensorComponent::Output
    } else if names_attention(lower) {
        TensorComponent::Attention
    } else if names_norm(lower) {
        TensorComponent::Norm
    } else if names_mlp(lower) {
        TensorComponent::Mlp
    } else {
        TensorComponent::Other
    }
}

/// The component that a tensor name marks, whatever its case.
pub open spec fn component_of(name: Seq<char>) -> TensorComponent {
    component_of_lower(lowercase_of(name))
}

fn is_embedding_name(lower: &[char]) -> (r: bool)
    ensures
        r == names_embedding(lower@),
{
    contains_str(lower, "token_embd") || contains_str(lower, "embed_tokens") || contains_str(
        lower,
        "wte",
    ) || contains_str(lower, "word_embedding")
}

fn is_output_name(lower: &[char]) -> (r: bool)
    ensures
        r == names_output(lower@),
{
    equals_str(lower, "output.weight") || contains_str(lower, "lm_head") || contains_str(
        lower,
        "output_norm",
    ) || (starts_with_str(lower, "output.") && !contains_str(lower, "attn"))
}

fn is_attention_name(lower: &[char]) -> (r: bool)
    ensures
        r == names_attention(lower@),
{
    contains_str(lower, "attn_q") || contains_str(lower, "attn_k") || contains_str(lower, "attn_v")
        || contains_str(lower, "attn_output") || contains_str(lower, "q_proj") || contains_str(
        lower,
        "k_proj",
    ) || contains_str(lower, "v_proj") || contains_str(lower, "o_proj") || contains_str(
        lower,
        "self_attn",
    ) || contains_str(lower, "qkv_proj") || contains_str(lower, "attn.c_attn") || contains_str(
        lower,
        "attn.c_proj",
    )
}

fn is_norm_name(lower: &[char]) -> (r: bool)
    ensures
        r == names_norm(lower@),
{
    contains_str(lower, "norm") || contains_str(lower, "layernorm") || contains_str(lower, "ln_")
        || contains_str(lower, "layer_norm") || contains_str(lower, "rms_norm") || contains_str(
        lower,
        "input_layernorm",
    ) || contains_str(lower, "post_attention_layernorm")
}

fn is_mlp_name(lower: &[char]) -> (r: bool)
    ensures
        r == names_mlp(lower@),
{
    contains_str(lower, "ffn_") || contains_str(lower, "mlp") || contains_str(lower, "gate_proj")
        || contains_str(lower, "up_proj") || contains_str(lower, "down_proj") || contains_str(
        lower,
        "fc1",
    ) || contains_str(lower, "fc2") || contains_str(lower, "c_fc") || contains_str(lower, "c_proj")
        || contains_str(lower, "feed_forward")
}

/// The component that a lower-case tensor name marks.
pub fn classify_lower(lower: &[char]) -> (r: TensorComponent)
    ensures
        r == component_of_lower(lower@),
{
    if is_embedding_name(lower) {
        TensorComponent::Embedding
    } else if is_output_name(lower) {
        TensorComponent::Output
    } else if is_attention_name(lower) {
        TensorComponent::Attention
    } else if is_norm_name(lower) {
        TensorComponent::Norm
    } else if is_mlp_name(lower) {
        TensorComponent::Mlp
    } else {
        TensorComponent::Other
    }
}

/// The component that a tensor name marks.
pub fn tensor_component(name: &str) -> (r: TensorComponent)
    ensures
        r == component_of(name@),
{
    let lower = lowercase(name);
    let chars = chars_of(lower.as_str());
    classify_lower(chars.as_slice())
}

/// The name of the component that a tensor name marks: one of `embedding`,
/// `output`, `attention`, `norm`, `mlp` and `other`.
pub fn classify_tensor(name: &str) -> (r: &'static str)
    ensures
        r@ == component_of(name@).spec_label(),
{
    tensor_component(name).label()
}

/// The number that follows the first occurrence of `marker` in `name`: the
/// text up to the next full stop, or to the end where none follows.
pub open spec fn index_after(name: Seq<char>, marker: Seq<char>) -> Option<u64> {
    match first_match(name, marker) {
        None => None,
        Some(pos) => {
            let after = name.skip(pos + marker.len());
            match first_match(after, "."@) {
                Some(end) => parse_u64_spec(after.take(end)),
                None => parse_u64_spec(after),
            }
        },
    }
}

/// The layer that a tensor name speaks of. The markers `blk.`, `layers.`,
/// `blocks.`, `h.` and `layer.` are tried in this order; the first that is
/// followed by a number decides.
pub open spec fn layer_index_of(name: Seq<char>) -> Option<u64> {
    if index_after(name, "blk."@) is Some {
        index_after(name, "blk."@)
    } else if index_after(name, "layers."@) is Some {
        index_after(name, "layers."@)
    } else if index_after(name, "blocks."@) is Some {
        index_after(name, "blocks."@)
    } else if index_after(name, "h."@) is Some {
        index_after(name, "h."@)
    } else {
        index_after(name, "layer."@)
    }
}

/// The number that follows the first occurrence of `marker` in `name`.
pub fn number_after(name: &[char], marker: &str) -> (r: Option<u64>)
    ensures
        r == index_after(name@, marker@),
{
    let m = chars_of(marker);
    match find_sub(name, m.as_slice()) {
        None => None,
        Some(pos) => {
            let total: usize = name.len();
            proof {
                crate::text::first_match_from_is_least(name@, m@, 0);
                assert(pos + m@.len() <= total);
            }
            let after = tail_of(name, pos + m.len());
            let dot = chars_of(".");
            match find_sub(after.as_slice(), dot.as_slice()) {
                Some(end) => {
                    proof {
                        crate::text::first_match_from_is_least(after@, dot@, 0);
                    }
                    let digits = head_of(after.as_slice(), end);
                    parse_u64(digits.as_slice())
                },
                None => parse_u64(after.as_slice()),
            }
        },
    }
}

/// The layer that a tensor name speaks of, if it names one.
pub fn extract_layer_index(name: &str) -> (r: Option<u64>)
    ensures
        r == layer_index_of(name@),
{
    let chars = chars_of(name);
    let first = number_after(chars.as_slice(), "blk.");
    if first.is_some() {
        return first;
    }
    let second = number_after(chars.as_slice(), "layers.");
    if second.is_some() {
        return second;
    }
    let third = number_after(chars.as_slice(), "blocks.");
    if third.is_some() {
        return third;
    }
    let fourth = number_after(chars.as_slice(), "h.");
    if fourth.is_some() {
        return fourth;
    }
    number_after(chars.as_slice(), "layer.")
}

} // verus!
