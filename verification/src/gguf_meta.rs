//! Making the metadata of a GGUF file for a model that comes without any:
//! from the compatibility record of a parent, from its `config.json`, and
//! from its tokenizer files.

use vstd::prelude::*;
use crate::gguf_write::{meta_entries_view, strings_view, GgufMetaValue, MetaEntries, MetaValueView};
use crate::json::{
    items_view, json_get, json_get_str, json_get_u64, json_of, json_str, json_u64, members_view,
    parse_json, JsonNumber, JsonValue, JsonView,
};
use crate::model::opt_text;
use crate::registry::CompatInfo;
use crate::seqs::{any_where, first_where, last_where};
use crate::text::{
    chars_of, concat_text, lowercase, lowercase_of, replace_all, replace_sub, str_eq, string_of,
    trim_chars, trimmed,
};

verus! {

pub type Members = Seq<(Seq<char>, JsonView)>;

// ---------------------------------------------------------------------------
// The architecture
// ---------------------------------------------------------------------------

/// What is made of an architecture's name once it is in lower case:
/// `forcausallm` and `forsequenceclassification` are taken out, and the
/// white space at its ends; `llama` where nothing is left.
pub open spec fn arch_key_of_lower(lower: Seq<char>) -> Seq<char> {
    let clean = trimmed(
        replace_all(
            replace_all(lower, "forcausallm"@, Seq::empty()),
            "forsequenceclassification"@,
            Seq::empty(),
        ),
    );
    if clean.len() == 0 {
        "llama"@
    } else {
        clean
    }
}

/// The architecture's name in the form that keys are made of: in lower
/// case, without `forcausallm` and `forsequenceclassification`, without
/// white space at its ends; `llama` where nothing is left.
pub open spec fn arch_key_of(arch: Seq<char>) -> Seq<char> {
    arch_key_of_lower(lowercase_of(arch))
}

/// The architecture that the metadata is made for: the one of the
/// compatibility record, else the `model_type` of the configuration, else
/// `llama`.
pub open spec fn arch_source(compat: Option<CompatInfo>, config: Option<JsonView>) -> Seq<char> {
    let from_compat = match compat {
        Some(c) => opt_text(c.architecture),
        None => None,
    };
    match from_compat {
        Some(a) => a,
        None => {
            let from_config = match config {
                Some(c) => json_get_str(c, "model_type"@),
                None => None,
            };
            match from_config {
                Some(a) => a,
                None => "llama"@,
            }
        },
    }
}

/// The form that keys are made of, for an architecture's name that is in
/// lower case already.
pub fn arch_key_lower(lower: &str) -> (r: String)
    ensures
        r@ == arch_key_of_lower(lower@),
{
    let chars = chars_of(lower);
    let causal = chars_of("forcausallm");
    let classify = chars_of("forsequenceclassification");
    let nothing: Vec<char> = Vec::new();
    proof {
        reveal_strlit("forcausallm");
        reveal_strlit("forsequenceclassification");
    }
    let first = replace_sub(chars.as_slice(), causal.as_slice(), nothing.as_slice());
    let second = replace_sub(first.as_slice(), classify.as_slice(), nothing.as_slice());
    let clean = trim_chars(second.as_slice());
    if clean.len() == 0 {
        "llama".to_owned()
    } else {
        string_of(clean.as_slice())
    }
}

/// The architecture's name in the form that keys are made of.
pub fn arch_key(arch: &str) -> (r: String)
    ensures
        r@ == arch_key_of(arch@),
{
    let lower = lowercase(arch);
    arch_key_lower(lower.as_str())
}

// ---------------------------------------------------------------------------
// The entries
// ---------------------------------------------------------------------------

/// Some entry of the list has the key `key`.
pub open spec fn has_key(list: MetaEntries, key: Seq<char>) -> bool {
    exists|i: int| 0 <= i < list.len() && (#[trigger] list[i]).0 == key
}

/// The list with a 32-bit entry under `arch` followed by `suffix`, where a
/// number is given; the number is cut to 32 bits.
pub open spec fn with_number(
    list: MetaEntries,
    arch: Seq<char>,
    suffix: Seq<char>,
    number: Option<u64>,
) -> MetaEntries {
    match number {
        Some(v) => list.push((arch + suffix, MetaValueView::U32(v as u32))),
        None => list,
    }
}

/// The list with a floating-point entry under `arch` followed by `suffix`,
/// where one is given.
pub open spec fn with_float(
    list: MetaEntries,
    arch: Seq<char>,
    suffix: Seq<char>,
    bits: Option<u32>,
) -> MetaEntries {
    match bits {
        Some(b) => list.push((arch + suffix, MetaValueView::F32(b))),
        None => list,
    }
}

/// The list with a 32-bit entry under `arch` followed by `suffix`, where
/// the list has no entry under that key yet and a number is given.
pub open spec fn filled(
    list: MetaEntries,
    arch: Seq<char>,
    suffix: Seq<char>,
    number: Option<u64>,
) -> MetaEntries {
    if has_key(list, arch + suffix) {
        list
    } else {
        with_number(list, arch, suffix, number)
    }
}

/// The entries that every file has: the architecture, the name of the
/// model, and the file type 0 of single-precision numbers.
pub open spec fn general_entries(arch: Seq<char>, model_name: Seq<char>) -> MetaEntries {
    seq![
        ("general.architecture"@, MetaValueView::String(arch)),
        ("general.name"@, MetaValueView::String(model_name)),
        ("general.file_type"@, MetaValueView::U32(0)),
    ]
}

/// The list with what the compatibility record knows.
pub open spec fn with_compat(list: MetaEntries, arch: Seq<char>, compat: Option<CompatInfo>) -> MetaEntries {
    match compat {
        None => list,
        Some(c) => {
            let a = with_number(list, arch, ".context_length"@, c.context_length);
            let b = with_number(a, arch, ".embedding_length"@, c.hidden_size);
            let d = with_number(b, arch, ".block_count"@, c.num_layers);
            let e = with_number(d, arch, ".attention.head_count"@, c.num_attention_heads);
            with_number(e, arch, ".attention.head_count_kv"@, c.num_kv_heads)
        },
    }
}

/// The floating-point settings of the configuration, as the bits of
/// single-precision numbers.
#[derive(Clone, Copy, Debug)]
pub struct ConfigFloats {
    /// `rope_theta`.
    pub rope_theta: Option<u32>,
    /// `rms_norm_eps`.
    pub rms_norm_eps: Option<u32>,
}

/// The list with what the configuration knows: the feed-forward length,
/// the two floating-point settings, and whatever of context length,
/// embedding length, block count and head counts is still missing.
pub open spec fn with_config(
    list: MetaEntries,
    arch: Seq<char>,
    config: Option<JsonView>,
    floats: ConfigFloats,
) -> MetaEntries {
    match config {
        None => list,
        Some(c) => {
            let a = with_number(
                list,
                arch,
                ".feed_forward_length"@,
                json_get_u64(c, "intermediate_size"@),
            );
            let b = with_float(a, arch, ".rope.freq_base"@, floats.rope_theta);
            let d = with_float(b, arch, ".attention.layer_norm_rms_epsilon"@, floats.rms_norm_eps);
            let e = filled(
                d,
                arch,
                ".context_length"@,
                json_get_u64(c, "max_position_embeddings"@),
            );
            let f = filled(e, arch, ".embedding_length"@, json_get_u64(c, "hidden_size"@));
            let g = filled(f, arch, ".block_count"@, json_get_u64(c, "num_hidden_layers"@));
            let h = filled(
                g,
                arch,
                ".attention.head_count"@,
                json_get_u64(c, "num_attention_heads"@),
            );
            filled(h, arch, ".attention.head_count_kv"@, json_get_u64(c, "num_key_value_heads"@))
        },
    }
}

fn push_number(
    list: &mut Vec<(String, GgufMetaValue)>,
    arch: &str,
    suffix: &str,
    number: Option<u64>,
)
    ensures
        meta_entries_view(final(list)@) == with_number(
            meta_entries_view(old(list)@),
            arch@,
            suffix@,
            number,
        ),
{
    let ghost before = meta_entries_view(list@);
    match number {
        Some(v) => {
            let word: u32 = #[verifier::truncate]
            (v as u32);
            list.push((concat_text(arch, suffix), GgufMetaValue::U32(word)));
            assert(meta_entries_view(list@) =~= before.push(
                (arch@ + suffix@, MetaValueView::U32(v as u32)),
            ));
        },
        None => {
            assert(meta_entries_view(list@) =~= before);
        },
    }
}

fn push_float(
    list: &mut Vec<(String, GgufMetaValue)>,
    arch: &str,
    suffix: &str,
    bits: Option<u32>,
)
    ensures
        meta_entries_view(final(list)@) == with_float(
            meta_entries_view(old(list)@),
            arch@,
            suffix@,
            bits,
        ),
{
    let ghost before = meta_entries_view(list@);
    match bits {
        Some(b) => {
            list.push((concat_text(arch, suffix), GgufMetaValue::F32(b)));
            assert(meta_entries_view(list@) =~= before.push(
                (arch@ + suffix@, MetaValueView::F32(b)),
            ));
        },
        None => {
            assert(meta_entries_view(list@) =~= before);
        },
    }
}

fn holds_key(list: &Vec<(String, GgufMetaValue)>, key: &str) -> (r: bool)
    ensures
        r == has_key(meta_entries_view(list@), key@),
{
    let ghost view = meta_entries_view(list@);
    let mut i: usize = 0;
    while i < list.len()
        invariant
            i <= list.len(),
            view == meta_entries_view(list@),
            forall|j: int| 0 <= j < i ==> (#[trigger] view[j]).0 != key@,
        decreases list.len() - i,
    {
        if str_eq(list[i].0.as_str(), key) {
            assert(view[i as int].0 == key@);
            return true;
        }
        i = i + 1;
    }
    false
}

fn fill_number(
    list: &mut Vec<(String, GgufMetaValue)>,
    arch: &str,
    suffix: &str,
    number: Option<u64>,
)
    ensures
        meta_entries_view(final(list)@) == filled(
            meta_entries_view(old(list)@),
            arch@,
            suffix@,
            number,
        ),
{
    let key = concat_text(arch, suffix);
    if !holds_key(list, key.as_str()) {
        push_number(list, arch, suffix, number);
    }
}

fn config_number(config: &JsonValue, key: &str) -> (r: Option<u64>)
    ensures
        r == json_get_u64(config@, key@),
{
    config.get_u64(key)
}

/// The number under `key`, whatever its kind.
pub open spec fn json_get_number(v: JsonView, key: Seq<char>) -> Option<JsonNumber> {
    match json_get(v, key) {
        Some(JsonView::Number(n)) => Some(n),
        _ => None,
    }
}

/// The numbers that the configuration holds under `rope_theta` and
/// `rms_norm_eps`. They are written as single-precision numbers.
pub fn float_settings(config: &JsonValue) -> (r: (Option<JsonNumber>, Option<JsonNumber>))
    ensures
        r.0 == json_get_number(config@, "rope_theta"@),
        r.1 == json_get_number(config@, "rms_norm_eps"@),
{
    let theta = match config.get("rope_theta") {
        Some(JsonValue::Number(n)) => Some(*n),
        _ => None,
    };
    let eps = match config.get("rms_norm_eps") {
        Some(JsonValue::Number(n)) => Some(*n),
        _ => None,
    };
    (theta, eps)
}

// ---------------------------------------------------------------------------
// The tokenizer
// ---------------------------------------------------------------------------

/// A token: its id, its text, and whether it is a special token.
pub struct Token {
    pub id: u32,
    pub text: Seq<char>,
    pub special: bool,
}

/// The tokens of a list.
pub open spec fn tokens_view(s: Seq<(u32, String, bool)>) -> Seq<Token> {
    Seq::new(s.len(), |i: int| Token { id: s[i].0, text: s[i].1@, special: s[i].2 })
}

/// The name of the tokenizer model in GGUF for a tokenizer type.
pub open spec fn ggml_model_of(kind: Seq<char>) -> Seq<char> {
    if kind == "Unigram"@ {
        "llama"@
    } else if kind == "WordPiece"@ {
        "bert"@
    } else {
        "gpt2"@
    }
}

/// The tokens of a vocabulary: one per member whose value is a whole
/// number, with the number cut to 32 bits as its id.
pub open spec fn vocab_tokens(members: Members) -> Seq<Token>
    decreases members.len(),
{
    if members.len() == 0 {
        Seq::empty()
    } else {
        let rest = vocab_tokens(members.drop_last());
        match json_u64(members.last().1) {
            Some(id) => rest.push(Token { id: id as u32, text: members.last().0, special: false }),
            None => rest,
        }
    }
}

/// The id of an added token; 0 where it gives none.
pub open spec fn added_id(entry: JsonView) -> u32 {
    match json_get_u64(entry, "id"@) {
        Some(id) => id as u32,
        None => 0,
    }
}

/// The text of an added token; empty where it gives none.
pub open spec fn added_content(entry: JsonView) -> Seq<char> {
    match json_get_str(entry, "content"@) {
        Some(s) => s,
        None => Seq::empty(),
    }
}

/// Whether an added token is special.
pub open spec fn added_special(entry: JsonView) -> bool {
    match json_get(entry, "special"@) {
        Some(JsonView::Bool(b)) => b,
        _ => false,
    }
}

/// The list with one added token: where a token has its id, the first such
/// token takes over whether it is special; else the token joins the list.
pub open spec fn with_added_token(list: Seq<Token>, entry: JsonView) -> Seq<Token> {
    let id = added_id(entry);
    match first_where(list, |t: Token| t.id == id) {
        Some(i) => list.update(
            i,
            Token { id: list[i].id, text: list[i].text, special: added_special(entry) },
        ),
        None => list.push(
            Token { id, text: added_content(entry), special: added_special(entry) },
        ),
    }
}

/// The list with the added tokens, one after the other.
pub open spec fn with_added(list: Seq<Token>, added: Seq<JsonView>) -> Seq<Token>
    decreases added.len(),
{
    if added.len() == 0 {
        list
    } else {
        with_added_token(with_added(list, added.drop_last()), added.last())
    }
}

/// The greatest id of the tokens; 0 for none.
pub open spec fn greatest_id(list: Seq<Token>) -> u32
    decreases list.len(),
{
    if list.len() == 0 {
        0
    } else {
        let rest = greatest_id(list.drop_last());
        if list.last().id > rest {
            list.last().id
        } else {
            rest
        }
    }
}

/// The size of the vocabulary: one more than the greatest id, counted
/// modulo two to the power 32; 0 for no tokens.
pub open spec fn vocab_size(list: Seq<Token>) -> usize {
    if list.len() == 0 {
        0
    } else {
        greatest_id(list).wrapping_add(1) as usize
    }
}

/// The text of the token with the id `id`: that of the last such token of
/// the list; empty where there is none.
pub open spec fn text_at(list: Seq<Token>, id: int) -> Seq<char> {
    match last_where(list, |t: Token| t.id == id) {
        Some(i) => list[i].text,
        None => Seq::empty(),
    }
}

/// The type of the token with the id `id`: 3 where a token with that id is
/// special, else 1.
pub open spec fn type_at(list: Seq<Token>, id: int) -> i32 {
    if any_where(list, |t: Token| t.id == id && t.special) {
        3
    } else {
        1
    }
}

/// The texts of the vocabulary, by id.
pub open spec fn dense_texts(list: Seq<Token>) -> Seq<Seq<char>> {
    Seq::new(vocab_size(list) as nat, |i: int| text_at(list, i))
}

/// The types of the vocabulary, by id.
pub open spec fn dense_types(list: Seq<Token>) -> Seq<i32> {
    Seq::new(vocab_size(list) as nat, |i: int| type_at(list, i))
}

/// The scores of the vocabulary: all zero.
pub open spec fn dense_scores(list: Seq<Token>) -> Seq<u32> {
    Seq::new(vocab_size(list) as nat, |i: int| 0u32)
}

/// The text of a special token as the tokenizer configuration names it: a
/// string under `key`, or the `content` of an object under `key`.
pub open spec fn special_text(config: Option<JsonView>, key: Seq<char>) -> Option<Seq<char>> {
    match config {
        None => None,
        Some(c) => match json_get(c, key) {
            None => None,
            Some(v) => match json_str(v) {
                Some(s) => Some(s),
                None => json_get_str(v, "content"@),
            },
        },
    }
}

/// The token `t` has the text `text` and no token with that text has a
/// smaller id.
pub open spec fn is_least_with(list: Seq<Token>, text: Seq<char>, id: u32) -> bool {
    &&& exists|i: int| 0 <= i < list.len() && (#[trigger] list[i]).text == text && list[i].id == id
    &&& forall|i: int| 0 <= i < list.len() && (#[trigger] list[i]).text == text ==> id <= list[i].id
}

/// The id of the token with the text `text`: the smallest of the ids of
/// the tokens with that text.
pub open spec fn id_of_text(list: Seq<Token>, text: Seq<char>) -> Option<u32> {
    if exists|id: u32| is_least_with(list, text, id) {
        Some(choose|id: u32| is_least_with(list, text, id))
    } else {
        None
    }
}

/// The id of a special token.
pub open spec fn special_id(
    list: Seq<Token>,
    config: Option<JsonView>,
    key: Seq<char>,
) -> Option<u32> {
    match special_text(config, key) {
        Some(text) => id_of_text(list, text),
        None => None,
    }
}

/// The strings among the items, in their order.
pub open spec fn strings_in(items: Seq<JsonView>) -> Seq<Seq<char>>
    decreases items.len(),
{
    if items.len() == 0 {
        Seq::empty()
    } else {
        let rest = strings_in(items.drop_last());
        match json_str(items.last()) {
            Some(s) => rest.push(s),
            None => rest,
        }
    }
}

/// The merges of a tokenizer model of the type `BPE`: the strings of its
/// `merges`, where there are any.
pub open spec fn merges_of(model: JsonView, kind: Seq<char>) -> Option<Seq<Seq<char>>> {
    if kind != "BPE"@ {
        None
    } else {
        match json_get(model, "merges"@) {
            Some(JsonView::Array(items)) => if strings_in(items).len() > 0 {
                Some(strings_in(items))
            } else {
                None
            },
            _ => None,
        }
    }
}

/// The list with a 32-bit entry under `key`, where an id is given.
pub open spec fn with_id(list: MetaEntries, key: Seq<char>, id: Option<u32>) -> MetaEntries {
    match id {
        Some(v) => list.push((key, MetaValueView::U32(v))),
        None => list,
    }
}

/// The entries that describe the tokenizer; `None` where the tokenizer
/// document has no `model` or the model has no vocabulary.
pub open spec fn tokenizer_entries(tokenizer: JsonView, config: Option<JsonView>) -> Option<
    MetaEntries,
> {
    match json_get(tokenizer, "model"@) {
        None => None,
        Some(model) => match json_get(model, "vocab"@) {
            Some(JsonView::Object(members)) => {
                let kind = match json_get_str(model, "type"@) {
                    Some(k) => k,
                    None => "BPE"@,
                };
                let added = match json_get(tokenizer, "added_tokens"@) {
                    Some(JsonView::Array(items)) => items,
                    _ => Seq::empty(),
                };
                let list = with_added(vocab_tokens(members), added);
                let base = seq![
                    ("tokenizer.ggml.model"@, MetaValueView::String(ggml_model_of(kind))),
                    ("tokenizer.ggml.tokens"@, MetaValueView::StringArray(dense_texts(list))),
                    ("tokenizer.ggml.scores"@, MetaValueView::F32Array(dense_scores(list))),
                    ("tokenizer.ggml.token_type"@, MetaValueView::I32Array(dense_types(list))),
                ];
                let a = with_id(
                    base,
                    "tokenizer.ggml.bos_token_id"@,
                    special_id(list, config, "bos_token"@),
                );
                let b = with_id(
                    a,
                    "tokenizer.ggml.eos_token_id"@,
                    special_id(list, config, "eos_token"@),
                );
                Some(
                    match merges_of(model, kind) {
                        Some(m) => b.push(
                            ("tokenizer.ggml.merges"@, MetaValueView::StringArray(m)),
                        ),
                        None => b,
                    },
                )
            },
            _ => None,
        },
    }
}

fn read_vocab(members: &Vec<(String, JsonValue)>) -> (r: Vec<(u32, String, bool)>)
    ensures
        tokens_view(r@) == vocab_tokens(members_view(members@)),
{
    let ghost list = members_view(members@);
    let mut out: Vec<(u32, String, bool)> = Vec::new();
    let mut i: usize = 0;
    assert(list.take(0) =~= Seq::<(Seq<char>, JsonView)>::empty());
    assert(tokens_view(out@) =~= vocab_tokens(list.take(0)));
    while i < members.len()
        invariant
            i <= members.len(),
            list == members_view(members@),
            tokens_view(out@) == vocab_tokens(list.take(i as int)),
        decreases members.len() - i,
    {
        let ghost before = tokens_view(out@);
        assert(list.take(i + 1).drop_last() =~= list.take(i as int));
        assert(list.take(i + 1).last() == (members@[i as int].0@, members@[i as int].1@));
        match members[i].1.as_u64() {
            Some(id) => {
                let word: u32 = #[verifier::truncate]
                (id as u32);
                out.push((word, members[i].0.clone(), false));
                assert(tokens_view(out@) =~= before.push(
                    Token { id: id as u32, text: members@[i as int].0@, special: false },
                ));
            },
            None => {},
        }
        i = i + 1;
    }
    assert(list.take(i as int) =~= list);
    out
}

fn add_token(list: &mut Vec<(u32, String, bool)>, entry: &JsonValue)
    ensures
        tokens_view(final(list)@) == with_added_token(tokens_view(old(list)@), entry@),
{
    let ghost before = tokens_view(list@);
    let id: u32 = match entry.get_u64("id") {
        Some(v) => #[verifier::truncate]
        (v as u32),
        None => 0,
    };
    let special: bool = match entry.get("special") {
        Some(v) => match v.as_bool() {
            Some(b) => b,
            None => false,
        },
        None => false,
    };
    let ghost p = |t: Token| t.id == id;
    let mut i: usize = 0;
    while i < list.len()
        invariant
            i <= list.len(),
            list@ == old(list)@,
            before == tokens_view(list@),
            id == added_id(entry@),
            special == added_special(entry@),
            p == (|t: Token| t.id == id),
            forall|j: int| 0 <= j < i ==> !p(#[trigger] before[j]),
        decreases list.len() - i,
    {
        if list[i].0 == id {
            proof {
                assert(p(before[i as int]));
                crate::seqs::first_where_found(before, p, i as int);
            }
            let text = list[i].1.clone();
            list[i] = (id, text, special);
            assert(tokens_view(list@) =~= before.update(
                i as int,
                Token { id: before[i as int].id, text: before[i as int].text, special },
            ));
            return ;
        }
        i = i + 1;
    }
    proof {
        crate::seqs::first_where_absent(before, p);
    }
    let content: String = match entry.get_str("content") {
        Some(s) => s.clone(),
        None => String::new(),
    };
    list.push((id, content, special));
    assert(tokens_view(list@) =~= before.push(
        Token { id, text: added_content(entry@), special },
    ));
}

fn add_tokens(list: &mut Vec<(u32, String, bool)>, added: &Vec<JsonValue>)
    ensures
        tokens_view(final(list)@) == with_added(tokens_view(old(list)@), items_view(added@)),
{
    let ghost start = tokens_view(list@);
    let ghost items = items_view(added@);
    let mut i: usize = 0;
    assert(items.take(0) =~= Seq::<JsonView>::empty());
    while i < added.len()
        invariant
            i <= added.len(),
            items == items_view(added@),
            tokens_view(list@) == with_added(start, items.take(i as int)),
        decreases added.len() - i,
    {
        assert(items.take(i + 1).drop_last() =~= items.take(i as int));
        assert(items.take(i + 1).last() == added@[i as int]@);
        add_token(list, &added[i]);
        i = i + 1;
    }
    assert(items.take(i as int) =~= items);
}

fn find_greatest(list: &Vec<(u32, String, bool)>) -> (r: u32)
    ensures
        r == greatest_id(tokens_view(list@)),
{
    let ghost view = tokens_view(list@);
    let mut best: u32 = 0;
    let mut i: usize = 0;
    assert(view.take(0) =~= Seq::<Token>::empty());
    while i < list.len()
        invariant
            i <= list.len(),
            view == tokens_view(list@),
            best == greatest_id(view.take(i as int)),
        decreases list.len() - i,
    {
        assert(view.take(i + 1).drop_last() =~= view.take(i as int));
        assert(view.take(i + 1).last() == view[i as int]);
        if list[i].0 > best {
            best = list[i].0;
        }
        i = i + 1;
    }
    assert(view.take(i as int) =~= view);
    best
}

/// The last token with an id among the first `k + 1` tokens is the token
/// `k` where that has the id, else the last one among the first `k`.
proof fn text_at_step(list: Seq<Token>, k: int, id: int)
    requires
        0 <= k < list.len(),
    ensures
        text_at(list.take(k + 1), id) == (if list[k].id == id {
            list[k].text
        } else {
            text_at(list.take(k), id)
        }),
        type_at(list.take(k + 1), id) == (if list[k].id == id && list[k].special {
            3i32
        } else {
            type_at(list.take(k), id)
        }),
{
    let s = list.take(k + 1);
    let t = list.take(k);
    assert(s.drop_last() =~= t);
    assert(s.last() == list[k]);
    let p = |t: Token| t.id == id;
    crate::seqs::last_where_is_greatest(t, p);
    match last_where(t, p) {
        Some(i) => {
            assert(s[i] == t[i]);
        },
        None => {},
    }
    let q = |t: Token| t.id == id && t.special;
    if any_where(t, q) {
        let w = choose|w: int| 0 <= w < t.len() && q(#[trigger] t[w]);
        assert(q(s[w]));
    }
    if any_where(s, q) {
        let w = choose|w: int| 0 <= w < s.len() && q(#[trigger] s[w]);
        if w < k {
            assert(q(t[w]));
        }
    }
    if q(list[k]) {
        assert(q(s[k]));
    }
}

fn fill_vocabulary(list: &Vec<(u32, String, bool)>) -> (r: (Vec<String>, Vec<u32>, Vec<i32>))
    ensures
        strings_view(r.0@) == dense_texts(tokens_view(list@)),
        r.1@ == dense_scores(tokens_view(list@)),
        r.2@ == dense_types(tokens_view(list@)),
{
    let ghost view = tokens_view(list@);
    let size: usize = if list.len() == 0 {
        0
    } else {
        find_greatest(list).wrapping_add(1) as usize
    };
    let mut texts: Vec<String> = Vec::new();
    let mut scores: Vec<u32> = Vec::new();
    let mut types: Vec<i32> = Vec::new();
    let mut n: usize = 0;
    assert(view.take(0) =~= Seq::<Token>::empty());
    while n < size
        invariant
            n <= size,
            texts@.len() == n,
            scores@.len() == n,
            types@.len() == n,
            forall|i: int| 0 <= i < n ==> (#[trigger] texts@[i])@ == text_at(view.take(0), i),
            forall|i: int| 0 <= i < n ==> #[trigger] scores@[i] == 0,
            forall|i: int| 0 <= i < n ==> #[trigger] types@[i] == type_at(view.take(0), i),
        decreases size - n,
    {
        texts.push(String::new());
        scores.push(0);
        types.push(1);
        n = n + 1;
    }
    let mut k: usize = 0;
    while k < list.len()
        invariant
            k <= list.len(),
            view == tokens_view(list@),
            size == vocab_size(view),
            texts@.len() == size,
            scores@.len() == size,
            types@.len() == size,
            forall|i: int| 0 <= i < size ==> (#[trigger] texts@[i])@ == text_at(view.take(k as int), i),
            forall|i: int| 0 <= i < size ==> #[trigger] scores@[i] == 0,
            forall|i: int| 0 <= i < size ==> #[trigger] types@[i] == type_at(view.take(k as int), i),
        decreases list.len() - k,
    {
        let id = list[k].0;
        let idx: usize = id as usize;
        assert(view[k as int] == Token {
            id: list@[k as int].0,
            text: list@[k as int].1@,
            special: list@[k as int].2,
        });
        proof {
            assert forall|i: int| 0 <= i < size implies text_at(view.take(k + 1), i) == (if view[k as int].id
                == i {
                view[k as int].text
            } else {
                text_at(view.take(k as int), i)
            }) && type_at(view.take(k + 1), i) == (if view[k as int].id == i && view[k as int].special {
                3i32
            } else {
                type_at(view.take(k as int), i)
            }) by {
                text_at_step(view, k as int, i);
            }
        }
        if idx < size {
            texts[idx] = list[k].1.clone();
            if list[k].2 {
                types[idx] = 3;
            }
        }
        k = k + 1;
    }
    assert(view.take(k as int) =~= view);
    assert(strings_view(texts@) =~= dense_texts(view));
    assert(scores@ =~= dense_scores(view));
    assert(types@ =~= dense_types(view));
    (texts, scores, types)
}

fn find_id_of_text(list: &Vec<(u32, String, bool)>, text: &str) -> (r: Option<u32>)
    ensures
        r == id_of_text(tokens_view(list@), text@),
{
    let ghost view = tokens_view(list@);
    let mut best: Option<u32> = None;
    let mut i: usize = 0;
    while i < list.len()
        invariant
            i <= list.len(),
            view == tokens_view(list@),
            match best {
                Some(id) => {
                    &&& exists|j: int|
                        0 <= j < i && (#[trigger] view[j]).text == text@ && view[j].id == id
                    &&& forall|j: int|
                        0 <= j < i && (#[trigger] view[j]).text == text@ ==> id <= view[j].id
                },
                None => forall|j: int| 0 <= j < i ==> (#[trigger] view[j]).text != text@,
            },
        decreases list.len() - i,
    {
        assert(view[i as int] == Token {
            id: list@[i as int].0,
            text: list@[i as int].1@,
            special: list@[i as int].2,
        });
        if str_eq(list[i].1.as_str(), text) {
            match best {
                Some(id) => {
                    if list[i].0 < id {
                        best = Some(list[i].0);
                    } else {
                        let ghost w = choose|j: int|
                            0 <= j < i && (#[trigger] view[j]).text == text@ && view[j].id == id;
                        assert(view[w].text == text@ && view[w].id == id);
                    }
                },
                None => {
                    best = Some(list[i].0);
                },
            }
            assert(view[i as int].text == text@);
        } else {
            match best {
                Some(id) => {
                    let ghost w = choose|j: int|
                        0 <= j < i && (#[trigger] view[j]).text == text@ && view[j].id == id;
                    assert(view[w].text == text@ && view[w].id == id);
                },
                None => {},
            }
        }
        i = i + 1;
    }
    proof {
        match best {
            Some(id) => {
                assert(is_least_with(view, text@, id));
                let c = choose|c: u32| is_least_with(view, text@, c);
                assert(is_least_with(view, text@, c));
                let wi = choose|j: int|
                    0 <= j < view.len() && (#[trigger] view[j]).text == text@ && view[j].id == id;
                let wc = choose|j: int|
                    0 <= j < view.len() && (#[trigger] view[j]).text == text@ && view[j].id == c;
                assert(view[wi].text == text@);
                assert(view[wc].text == text@);
                assert(c == id);
            },
            None => {
                assert forall|c: u32| !is_least_with(view, text@, c) by {
                    if is_least_with(view, text@, c) {
                        let w = choose|j: int|
                            0 <= j < view.len() && (#[trigger] view[j]).text == text@ && view[j].id
                                == c;
                        assert(view[w].text == text@);
                    }
                }
            },
        }
    }
    best
}

/// The view of an optional borrowed document.
pub open spec fn opt_doc(o: Option<&JsonValue>) -> Option<JsonView> {
    match o {
        Some(v) => Some(v@),
        None => None,
    }
}

fn find_special_text(config: Option<&JsonValue>, key: &str) -> (r: Option<String>)
    ensures
        opt_text(r) == special_text(opt_doc(config), key@),
{
    match config {
        None => None,
        Some(c) => match c.get(key) {
            None => None,
            Some(v) => match v.as_str() {
                Some(s) => Some(s.clone()),
                None => match v.get_str("content") {
                    Some(s) => Some(s.clone()),
                    None => None,
                },
            },
        },
    }
}

fn find_special_id(list: &Vec<(u32, String, bool)>, config: Option<&JsonValue>, key: &str) -> (r:
    Option<u32>)
    ensures
        r == special_id(tokens_view(list@), opt_doc(config), key@),
{
    match find_special_text(config, key) {
        Some(text) => find_id_of_text(list, text.as_str()),
        None => None,
    }
}

fn read_strings(items: &Vec<JsonValue>) -> (r: Vec<String>)
    ensures
        strings_view(r@) == strings_in(items_view(items@)),
{
    let ghost list = items_view(items@);
    let mut out: Vec<String> = Vec::new();
    let mut i: usize = 0;
    assert(list.take(0) =~= Seq::<JsonView>::empty());
    assert(strings_view(out@) =~= strings_in(list.take(0)));
    while i < items.len()
        invariant
            i <= items.len(),
            list == items_view(items@),
            strings_view(out@) == strings_in(list.take(i as int)),
        decreases items.len() - i,
    {
        let ghost before = strings_view(out@);
        assert(list.take(i + 1).drop_last() =~= list.take(i as int));
        assert(list.take(i + 1).last() == items@[i as int]@);
        match items[i].as_str() {
            Some(s) => {
                out.push(s.clone());
                assert(strings_view(out@) =~= before.push(s@));
            },
            None => {},
        }
        i = i + 1;
    }
    assert(list.take(i as int) =~= list);
    out
}

fn read_merges(model: &JsonValue, kind: &str) -> (r: Option<Vec<String>>)
    ensures
        match r {
            Some(m) => merges_of(model@, kind@) == Some(strings_view(m@)),
            None => merges_of(model@, kind@) is None,
        },
{
    if !str_eq(kind, "BPE") {
        return None;
    }
    match model.get("merges") {
        Some(v) => match v.as_array() {
            Some(items) => {
                let merges = read_strings(items);
                if merges.len() > 0 {
                    Some(merges)
                } else {
                    None
                }
            },
            None => None,
        },
        None => None,
    }
}

fn push_id(list: &mut Vec<(String, GgufMetaValue)>, key: &str, id: Option<u32>)
    ensures
        meta_entries_view(final(list)@) == with_id(meta_entries_view(old(list)@), key@, id),
{
    let ghost before = meta_entries_view(list@);
    match id {
        Some(v) => {
            list.push((key.to_owned(), GgufMetaValue::U32(v)));
            assert(meta_entries_view(list@) =~= before.push((key@, MetaValueView::U32(v))));
        },
        None => {
            assert(meta_entries_view(list@) =~= before);
        },
    }
}

fn ggml_model(kind: &str) -> (r: &'static str)
    ensures
        r@ == ggml_model_of(kind@),
{
    if str_eq(kind, "Unigram") {
        "llama"
    } else if str_eq(kind, "WordPiece") {
        "bert"
    } else {
        "gpt2"
    }
}

/// Makes the entries that describe a tokenizer, from the tokenizer
/// document and the tokenizer configuration.
pub fn parse_tokenizer_for_gguf(tokenizer: &JsonValue, config: Option<&JsonValue>) -> (r: Option<
    Vec<(String, GgufMetaValue)>,
>)
    ensures
        match r {
            Some(entries) => tokenizer_entries(tokenizer@, opt_doc(config)) == Some(
                meta_entries_view(entries@),
            ),
            None => tokenizer_entries(tokenizer@, opt_doc(config)) is None,
        },
{
    let model = match tokenizer.get("model") {
        Some(m) => m,
        None => {
            return None;
        },
    };
    let members = match model.get("vocab") {
        Some(v) => match v.as_object() {
            Some(m) => m,
            None => {
                return None;
            },
        },
        None => {
            return None;
        },
    };
    let kind: String = match model.get_str("type") {
        Some(k) => k.clone(),
        None => "BPE".to_owned(),
    };
    let mut list = read_vocab(members);
    match tokenizer.get("added_tokens") {
        Some(v) => match v.as_array() {
            Some(items) => {
                add_tokens(&mut list, items);
            },
            None => {},
        },
        None => {},
    }
    let (texts, scores, types) = fill_vocabulary(&list);
    let mut out: Vec<(String, GgufMetaValue)> = Vec::new();
    out.push(
        ("tokenizer.ggml.model".to_owned(), GgufMetaValue::String(ggml_model(kind.as_str()).to_owned())),
    );
    out.push(("tokenizer.ggml.tokens".to_owned(), GgufMetaValue::StringArray(texts)));
    out.push(("tokenizer.ggml.scores".to_owned(), GgufMetaValue::F32Array(scores)));
    out.push(("tokenizer.ggml.token_type".to_owned(), GgufMetaValue::I32Array(types)));
    proof {
        let view = tokens_view(list@);
        assert(meta_entries_view(out@) =~= seq![
            ("tokenizer.ggml.model"@, MetaValueView::String(ggml_model_of(kind@))),
            ("tokenizer.ggml.tokens"@, MetaValueView::StringArray(dense_texts(view))),
            ("tokenizer.ggml.scores"@, MetaValueView::F32Array(dense_scores(view))),
            ("tokenizer.ggml.token_type"@, MetaValueView::I32Array(dense_types(view))),
        ]);
    }
    push_id(&mut out, "tokenizer.ggml.bos_token_id", find_special_id(&list, config, "bos_token"));
    push_id(&mut out, "tokenizer.ggml.eos_token_id", find_special_id(&list, config, "eos_token"));
    match read_merges(model, kind.as_str()) {
        Some(m) => {
            let ghost before = meta_entries_view(out@);
            let ghost merges = strings_view(m@);
            out.push(("tokenizer.ggml.merges".to_owned(), GgufMetaValue::StringArray(m)));
            assert(meta_entries_view(out@) =~= before.push(
                ("tokenizer.ggml.merges"@, MetaValueView::StringArray(merges)),
            ));
        },
        None => {},
    }
    Some(out)
}

// ---------------------------------------------------------------------------
// All of the metadata
// ---------------------------------------------------------------------------

/// The metadata of a model: the general entries, what the compatibility
/// record and the configuration know, and the entries of the tokenizer.
pub open spec fn built_metadata(
    model_name: Seq<char>,
    compat: Option<CompatInfo>,
    config: Option<JsonView>,
    floats: ConfigFloats,
    tokenizer: Option<MetaEntries>,
) -> MetaEntries {
    let arch = arch_key_of(arch_source(compat, config));
    let list = with_config(
        with_compat(general_entries(arch, model_name), arch, compat),
        arch,
        config,
        floats,
    );
    match tokenizer {
        Some(t) => list + t,
        None => list,
    }
}

/// The view of optional entries.
pub open spec fn opt_entries(o: Option<Vec<(String, GgufMetaValue)>>) -> Option<MetaEntries> {
    match o {
        Some(v) => Some(meta_entries_view(v@)),
        None => None,
    }
}

/// The compatibility record behind an optional borrow.
pub open spec fn opt_compat(o: Option<&CompatInfo>) -> Option<CompatInfo> {
    match o {
        Some(c) => Some(*c),
        None => None,
    }
}

fn find_arch_source(compat: Option<&CompatInfo>, config: Option<&JsonValue>) -> (r: String)
    ensures
        r@ == arch_source(opt_compat(compat), opt_doc(config)),
{
    let from_compat: Option<String> = match compat {
        Some(c) => match &c.architecture {
            Some(a) => Some(a.clone()),
            None => None,
        },
        None => None,
    };
    match from_compat {
        Some(a) => a,
        None => {
            let from_config: Option<String> = match config {
                Some(c) => match c.get_str("model_type") {
                    Some(s) => Some(s.clone()),
                    None => None,
                },
                None => None,
            };
            match from_config {
                Some(a) => a,
                None => "llama".to_owned(),
            }
        },
    }
}

fn add_compat(list: &mut Vec<(String, GgufMetaValue)>, arch: &str, compat: Option<&CompatInfo>)
    ensures
        meta_entries_view(final(list)@) == with_compat(
            meta_entries_view(old(list)@),
            arch@,
            opt_compat(compat),
        ),
{
    match compat {
        None => {},
        Some(c) => {
            push_number(list, arch, ".context_length", c.context_length);
            push_number(list, arch, ".embedding_length", c.hidden_size);
            push_number(list, arch, ".block_count", c.num_layers);
            push_number(list, arch, ".attention.head_count", c.num_attention_heads);
            push_number(list, arch, ".attention.head_count_kv", c.num_kv_heads);
        },
    }
}

fn add_config(
    list: &mut Vec<(String, GgufMetaValue)>,
    arch: &str,
    config: Option<&JsonValue>,
    floats: ConfigFloats,
)
    ensures
        meta_entries_view(final(list)@) == with_config(
            meta_entries_view(old(list)@),
            arch@,
            opt_doc(config),
            floats,
        ),
{
    match config {
        None => {},
        Some(c) => {
            push_number(list, arch, ".feed_forward_length", config_number(c, "intermediate_size"));
            push_float(list, arch, ".rope.freq_base", floats.rope_theta);
            push_float(list, arch, ".attention.layer_norm_rms_epsilon", floats.rms_norm_eps);
            fill_number(list, arch, ".context_length", config_number(c, "max_position_embeddings"));
            fill_number(list, arch, ".embedding_length", config_number(c, "hidden_size"));
            fill_number(list, arch, ".block_count", config_number(c, "num_hidden_layers"));
            fill_number(list, arch, ".attention.head_count", config_number(c, "num_attention_heads"));
            fill_number(
                list,
                arch,
                ".attention.head_count_kv",
                config_number(c, "num_key_value_heads"),
            );
        },
    }
}

/// Makes the metadata of a model.
///
/// `floats` holds the two floating-point settings of the configuration as
/// single-precision numbers; `tokenizer` holds the entries of the
/// tokenizer, where the files that accompany the model yield any.
pub fn build_gguf_metadata(
    model_name: &str,
    compat: Option<&CompatInfo>,
    config: Option<&JsonValue>,
    floats: ConfigFloats,
    tokenizer: Option<Vec<(String, GgufMetaValue)>>,
) -> (r: Vec<(String, GgufMetaValue)>)
    ensures
        meta_entries_view(r@) == built_metadata(
            model_name@,
            opt_compat(compat),
            opt_doc(config),
            floats,
            opt_entries(tokenizer),
        ),
{
    let source = find_arch_source(compat, config);
    let arch = arch_key(source.as_str());
    let mut list: Vec<(String, GgufMetaValue)> = Vec::new();
    list.push(("general.architecture".to_owned(), GgufMetaValue::String(arch.clone())));
    list.push(("general.name".to_owned(), GgufMetaValue::String(model_name.to_owned())));
    list.push(("general.file_type".to_owned(), GgufMetaValue::U32(0)));
    assert(meta_entries_view(list@) =~= general_entries(arch@, model_name@));
    add_compat(&mut list, arch.as_str(), compat);
    add_config(&mut list, arch.as_str(), config, floats);
    match tokenizer {
        Some(mut t) => {
            let ghost before = meta_entries_view(list@);
            let ghost added = meta_entries_view(t@);
            list.append(&mut t);
            assert(meta_entries_view(list@) =~= before + added);
        },
        None => {},
    }
    list
}

/// The document that bytes hold, where they hold one.
pub open spec fn document_of(bytes: Option<Seq<u8>>) -> Option<JsonView> {
    match bytes {
        Some(b) => match json_of(b) {
            Ok(doc) => Some(doc),
            Err(_) => None,
        },
        None => None,
    }
}

/// Reads a document; a text that cannot be parsed counts as missing.
pub fn read_optional_document(bytes: Option<&[u8]>) -> (r: Option<JsonValue>)
    ensures
        match r {
            Some(doc) => document_of(
                match bytes {
                    Some(b) => Some(b@),
                    None => None,
                },
            ) == Some(doc@),
            None => document_of(
                match bytes {
                    Some(b) => Some(b@),
                    None => None,
                },
            ) is None,
        },
{
    match bytes {
        Some(b) => match parse_json(b) {
            Ok(doc) => Some(doc),
            Err(_) => None,
        },
        None => None,
    }
}

} // verus!
