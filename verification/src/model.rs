//! What is known of a model file once its header has been read.

use vstd::prelude::*;
use crate::seqs::{first_where, first_where_absent, first_where_found, first_where_is_least};
use crate::text::{
    chars_of, find_sub, first_match, first_match_from_is_least, head_of, parse_u64, parse_u64_spec,
    str_eq, tail_of, text_before, text_le, text_le_transitive, text_lt,
};

verus! {

/// The container format of a model file.
#[derive(Clone, Copy, Debug, PartialEq, Eq, Structural)]
pub enum ModelFormat {
    SafeTensors,
    Gguf,
}

/// Name, element type and shape of one tensor, as a header declares them.
#[derive(Clone, Debug)]
pub struct TensorInfo {
    pub name: String,
    pub dtype: String,
    pub shape: Vec<u64>,
}

/// The summary of a model that header parsing produces.
#[derive(Clone, Debug)]
pub struct ModelInfo {
    pub file_name: String,
    pub file_path: String,
    pub file_size: u64,
    pub file_size_display: String,
    pub format: ModelFormat,
    pub tensor_count: u64,
    pub parameter_count: u64,
    pub parameter_count_display: String,
    pub layer_count: Option<u64>,
    pub quantization: Option<String>,
    pub architecture: Option<String>,
    pub context_length: Option<u64>,
    pub embedding_size: Option<u64>,
    /// Key and value pairs; a key is looked up by its first entry.
    pub metadata: Vec<(String, String)>,
    pub tensor_preview: Vec<TensorInfo>,
    pub all_tensors: Vec<TensorInfo>,
    pub shard_count: Option<u32>,
    pub has_tokenizer: Option<bool>,
    pub has_config: Option<bool>,
    pub model_type: Option<String>,
    pub vocab_size: Option<u64>,
}

/// The text of an optional string.
pub open spec fn opt_text(o: Option<String>) -> Option<Seq<char>> {
    match o {
        Some(s) => Some(s@),
        None => None,
    }
}

/// The index of the first entry of `entries` whose key is `key`.
pub open spec fn meta_index(entries: Seq<(String, String)>, key: Seq<char>) -> Option<int> {
    first_where(entries, keyed_text(key))
}

/// The value that `entries` holds for `key`.
pub open spec fn meta_lookup(entries: Seq<(String, String)>, key: Seq<char>) -> Option<Seq<char>> {
    match meta_index(entries, key) {
        Some(i) => Some(entries[i].1@),
        None => None,
    }
}

/// Looks `key` up among key and value pairs.
pub fn meta_get<'a>(entries: &'a Vec<(String, String)>, key: &str) -> (r: Option<&'a String>)
    ensures
        match meta_index(entries@, key@) {
            Some(i) => r == Some(&entries@[i].1),
            None => r is None,
        },
        opt_ref_text(r) == meta_lookup(entries@, key@),
{
    let ghost p = keyed_text(key@);
    let mut i: usize = 0;
    while i < entries.len()
        invariant
            i <= entries.len(),
            p == keyed_text(key@),
            forall|j: int| 0 <= j < i ==> !p(#[trigger] entries@[j]),
        decreases entries.len() - i,
    {
        if str_eq(entries[i].0.as_str(), key) {
            proof {
                first_where_found(entries@, p, i as int);
            }
            return Some(&entries[i].1);
        }
        i = i + 1;
    }
    proof {
        first_where_absent(entries@, p);
    }
    None
}

/// The text of an optional borrowed string.
pub open spec fn opt_ref_text(o: Option<&String>) -> Option<Seq<char>> {
    match o {
        Some(s) => Some(s@),
        None => None,
    }
}

/// A copy of an optional string.
pub fn copy_opt_string(o: &Option<String>) -> (r: Option<String>)
    ensures
        opt_text(r) == opt_text(*o),
{
    match o {
        Some(s) => Some(s.clone()),
        None => None,
    }
}

/// The values of a list of key and value pairs.
pub open spec fn pairs_view(s: Seq<(String, String)>) -> Seq<(Seq<char>, Seq<char>)> {
    Seq::new(s.len(), |i: int| (s[i].0@, s[i].1@))
}

/// The entry has the key `key`.
pub open spec fn keyed(key: Seq<char>) -> spec_fn((Seq<char>, Seq<char>)) -> bool {
    |e: (Seq<char>, Seq<char>)| e.0 == key
}

/// The value that a list of pairs holds for `key`: that of the first entry
/// with the key.
pub open spec fn pairs_lookup(list: Seq<(Seq<char>, Seq<char>)>, key: Seq<char>) -> Option<
    Seq<char>,
> {
    match first_where(list, keyed(key)) {
        Some(i) => Some(list[i].1),
        None => None,
    }
}

/// The entry has a key with the text `key`.
pub open spec fn keyed_text(key: Seq<char>) -> spec_fn((String, String)) -> bool {
    |e: (String, String)| e.0@ == key
}

/// Looking a key up among the views of pairs gives what looking it up among
/// the pairs gives.
pub proof fn pairs_lookup_is_meta_lookup(entries: Seq<(String, String)>, key: Seq<char>)
    ensures
        pairs_lookup(pairs_view(entries), key) == match first_where(entries, keyed_text(key)) {
            Some(i) => Some(entries[i].1@),
            None => None,
        },
{
    let views = pairs_view(entries);
    let p = keyed(key);
    let q = keyed_text(key);
    first_where_is_least(views, p);
    first_where_is_least(entries, q);
    match first_where(entries, q) {
        Some(i) => {
            assert(p(views[i]));
            assert forall|j: int| 0 <= j < i implies !p(#[trigger] views[j]) by {
                assert(!q(entries[j]));
            }
            first_where_found(views, p, i);
        },
        None => {
            assert forall|j: int| 0 <= j < views.len() implies !p(#[trigger] views[j]) by {
                assert(!q(entries[j]));
            }
            first_where_absent(views, p);
        },
    }
}

/// The list with `value` under `key`: in the place of the first entry with
/// that key where there is one, else at the end.
pub open spec fn pairs_insert(
    list: Seq<(Seq<char>, Seq<char>)>,
    key: Seq<char>,
    value: Seq<char>,
) -> Seq<(Seq<char>, Seq<char>)> {
    match first_where(list, |e: (Seq<char>, Seq<char>)| e.0 == key) {
        Some(i) => list.update(i, (key, value)),
        None => list.push((key, value)),
    }
}

/// Stores `value` under `key`, replacing what the first entry with that key
/// held.
pub fn meta_insert(entries: &mut Vec<(String, String)>, key: String, value: String)
    ensures
        pairs_view(final(entries)@) == pairs_insert(pairs_view(old(entries)@), key@, value@),
{
    let ghost list = pairs_view(entries@);
    let ghost p = |e: (Seq<char>, Seq<char>)| e.0 == key@;
    let mut i: usize = 0;
    while i < entries.len()
        invariant
            i <= entries.len(),
            entries@ == old(entries)@,
            list == pairs_view(entries@),
            p == (|e: (Seq<char>, Seq<char>)| e.0 == key@),
            forall|j: int| 0 <= j < i ==> !p(#[trigger] list[j]),
        decreases entries.len() - i,
    {
        if str_eq(entries[i].0.as_str(), key.as_str()) {
            proof {
                assert(p(list[i as int]));
                first_where_found(list, p, i as int);
            }
            entries[i] = (key, value);
            assert(pairs_view(entries@) =~= list.update(i as int, (key@, value@)));
            return ;
        }
        i = i + 1;
    }
    proof {
        first_where_absent(list, p);
    }
    entries.push((key, value));
    assert(pairs_view(entries@) =~= list.push((key@, value@)));
}

/// The value of a `TensorInfo`, with lists in place of vectors and
/// sequences of characters in place of strings.
pub struct TensorInfoView {
    pub name: Seq<char>,
    pub dtype: Seq<char>,
    pub shape: Seq<u64>,
}

impl View for TensorInfo {
    type V = TensorInfoView;

    open spec fn view(&self) -> TensorInfoView {
        TensorInfoView { name: self.name@, dtype: self.dtype@, shape: self.shape@ }
    }
}

/// The values of a list of tensors.
pub open spec fn infos_view(s: Seq<TensorInfo>) -> Seq<TensorInfoView> {
    Seq::new(s.len(), |i: int| s[i]@)
}

impl TensorInfo {
    /// A copy with the same name, element type and shape.
    pub fn copy(&self) -> (r: TensorInfo)
        ensures
            r@ == self@,
    {
        let mut shape: Vec<u64> = Vec::new();
        let mut i: usize = 0;
        while i < self.shape.len()
            invariant
                i <= self.shape.len(),
                shape@ == self.shape@.take(i as int),
            decreases self.shape.len() - i,
        {
            shape.push(self.shape[i]);
            i = i + 1;
            assert(shape@ =~= self.shape@.take(i as int));
        }
        assert(self.shape@.take(self.shape.len() as int) =~= self.shape@);
        TensorInfo { name: self.name.clone(), dtype: self.dtype.clone(), shape }
    }
}

/// The tensors are in the order of their names.
pub open spec fn sorted_by_name(s: Seq<TensorInfoView>) -> bool {
    forall|i: int, j: int|
        0 <= i < j < s.len() ==> text_le((#[trigger] s[i]).name, (#[trigger] s[j]).name)
}

/// The place of `x` in a sorted list: before the first tensor whose name
/// does not come before the name of `x`.
pub open spec fn place_of(sorted: Seq<TensorInfoView>, x: TensorInfoView) -> int {
    match first_where(sorted, |t: TensorInfoView| !text_lt(t.name, x.name)) {
        Some(i) => i,
        None => sorted.len() as int,
    }
}

/// The tensors in the order of their names; tensors of one name keep the
/// order that they had.
pub open spec fn sorted_infos(s: Seq<TensorInfoView>) -> Seq<TensorInfoView>
    decreases s.len(),
{
    if s.len() == 0 {
        s
    } else {
        let rest = sorted_infos(s.skip(1));
        rest.insert(place_of(rest, s[0]), s[0])
    }
}

/// Sorting yields a list in the order of names that holds each tensor as
/// often as the given list does.
pub proof fn sorted_infos_sorts(s: Seq<TensorInfoView>)
    ensures
        sorted_by_name(sorted_infos(s)),
        sorted_infos(s).to_multiset() == s.to_multiset(),
        sorted_infos(s).len() == s.len(),
    decreases s.len(),
{
    broadcast use vstd::seq_lib::group_to_multiset_ensures;

    if s.len() > 0 {
        let rest = sorted_infos(s.skip(1));
        let x = s[0];
        let p = |t: TensorInfoView| !text_lt(t.name, x.name);
        sorted_infos_sorts(s.skip(1));
        first_where_is_least(rest, p);
        let j = place_of(rest, x);
        let out = rest.insert(j, x);
        vstd::seq_lib::to_multiset_insert(rest, j, x);
        assert(s =~= seq![x] + s.skip(1));
        vstd::seq_lib::lemma_multiset_commutative(seq![x], s.skip(1));
        assert(seq![x].to_multiset() =~= vstd::multiset::Multiset::<TensorInfoView>::empty().insert(
            x,
        )) by {
            assert(seq![x] =~= Seq::<TensorInfoView>::empty().push(x));
            vstd::seq_lib::to_multiset_build(Seq::<TensorInfoView>::empty(), x);
        }
        assert(out.to_multiset() =~= s.to_multiset());
        assert forall|a: int, b: int| 0 <= a < b < out.len() implies text_le(
            (#[trigger] out[a]).name,
            (#[trigger] out[b]).name,
        ) by {
            if b < j {
                assert(out[a] == rest[a]);
                assert(out[b] == rest[b]);
            } else if b == j {
                assert(out[a] == rest[a]);
                assert(!p(rest[a]));
                text_lt_gives_le(rest[a].name, x.name);
            } else if a < j {
                assert(out[a] == rest[a]);
                assert(out[b] == rest[b - 1]);
            } else if a == j {
                assert(out[b] == rest[b - 1]);
                assert(p(rest[j]));
                if b - 1 > j {
                    assert(text_le(rest[j].name, rest[b - 1].name));
                    text_le_transitive(x.name, rest[j].name, rest[b - 1].name);
                }
            } else {
                assert(out[a] == rest[a - 1]);
                assert(out[b] == rest[b - 1]);
            }
        }
    }
}

/// Puts tensors in the order of their names. Tensors of one name keep
/// their order.
pub fn sort_by_name(tensors: Vec<TensorInfo>) -> (r: Vec<TensorInfo>)
    ensures
        infos_view(r@) == sorted_infos(infos_view(tensors@)),
{
    let ghost all = infos_view(tensors@);
    let mut input = tensors;
    let mut out: Vec<TensorInfo> = Vec::new();
    assert(all.skip(all.len() as int) =~= Seq::<TensorInfoView>::empty());
    assert(infos_view(out@) =~= sorted_infos(all.skip(all.len() as int)));
    while input.len() > 0
        invariant
            input@.len() <= all.len(),
            infos_view(input@) == all.take(input@.len() as int),
            infos_view(out@) == sorted_infos(all.skip(input@.len() as int)),
        decreases input.len(),
    {
        let ghost before_in = input@;
        let ghost before_out = infos_view(out@);
        let x = input.pop().unwrap();
        let ghost k = input@.len() as int;
        proof {
            assert(infos_view(before_in)[k] == x@);
            assert(all[k] == x@);
            assert(infos_view(input@) =~= all.take(k));
            assert(all.skip(k).skip(1) =~= all.skip(k + 1));
            assert(all.skip(k)[0] == x@);
        }
        let ghost p = |t: TensorInfoView| !text_lt(t.name, x@.name);
        let name = chars_of(x.name.as_str());
        let mut j: usize = 0;
        let mut found = false;
        while j < out.len() && !found
            invariant
                j <= out.len(),
                infos_view(out@) == before_out,
                name@ == x.name@,
                p == (|t: TensorInfoView| !text_lt(t.name, x@.name)),
                forall|i: int| 0 <= i < j ==> !p(#[trigger] before_out[i]),
                found ==> j < out.len() && p(before_out[j as int]),
            decreases out.len() - j + if found {
                0int
            } else {
                1int
            },
        {
            let other = chars_of(out[j].name.as_str());
            assert(before_out[j as int] == out@[j as int]@);
            if !text_before(other.as_slice(), name.as_slice()) {
                found = true;
            } else {
                j = j + 1;
            }
        }
        proof {
            if found {
                first_where_found(before_out, p, j as int);
            } else {
                first_where_absent(before_out, p);
            }
            assert(place_of(before_out, x@) == j);
        }
        out.insert(j, x);
        assert(infos_view(out@) =~= before_out.insert(j as int, x@));
    }
    assert(all.skip(0) =~= all);
    out
}

/// What comes before does not come after.
pub proof fn text_lt_gives_le(a: Seq<char>, b: Seq<char>)
    requires
        text_lt(a, b),
    ensures
        text_le(a, b),
    decreases a.len(),
{
    if a.len() > 0 && b.len() > 0 && a[0] == b[0] {
        text_lt_gives_le(a.skip(1), b.skip(1));
    }
}

// ---------------------------------------------------------------------------
// Counting layers
// ---------------------------------------------------------------------------

/// The number between the first occurrence of `marker` in `name` and the
/// next full stop.
pub open spec fn marked_number(name: Seq<char>, marker: Seq<char>) -> Option<u64> {
    match first_match(name, marker) {
        None => None,
        Some(pos) => {
            let after = name.skip(pos + marker.len());
            match first_match(after, "."@) {
                Some(end) => parse_u64_spec(after.take(end)),
                None => None,
            }
        },
    }
}

/// The tensor name speaks of the layer `idx`: the number follows one of the
/// markers `layers.`, `blocks.`, `blk.` and `h.`.
pub open spec fn names_layer(name: Seq<char>, idx: u64) -> bool {
    ||| marked_number(name, "layers."@) == Some(idx)
    ||| marked_number(name, "blocks."@) == Some(idx)
    ||| marked_number(name, "blk."@) == Some(idx)
    ||| marked_number(name, "h."@) == Some(idx)
}

/// The layers that the tensors' names speak of.
pub open spec fn layer_set(tensors: Seq<TensorInfo>) -> Set<u64> {
    Set::new(
        |idx: u64| exists|i: int| 0 <= i < tensors.len() && names_layer(#[trigger] tensors[i].name@, idx),
    )
}

fn number_marked(name: &[char], marker: &str) -> (r: Option<u64>)
    ensures
        r == marked_number(name@, marker@),
{
    let m = chars_of(marker);
    match find_sub(name, m.as_slice()) {
        None => None,
        Some(pos) => {
            let total: usize = name.len();
            proof {
                first_match_from_is_least(name@, m@, 0);
                assert(pos + m@.len() <= total);
            }
            let after = tail_of(name, pos + m.len());
            let dot = chars_of(".");
            match find_sub(after.as_slice(), dot.as_slice()) {
                Some(end) => {
                    proof {
                        first_match_from_is_least(after@, dot@, 0);
                    }
                    let digits = head_of(after.as_slice(), end);
                    parse_u64(digits.as_slice())
                },
                None => None,
            }
        },
    }
}

fn note_number(seen: &mut Vec<u64>, found: Option<u64>)
    requires
        old(seen)@.no_duplicates(),
    ensures
        final(seen)@.no_duplicates(),
        forall|x: u64| final(seen)@.contains(x) <==> old(seen)@.contains(x) || found == Some(x),
{
    match found {
        None => {},
        Some(v) => {
            let mut i: usize = 0;
            while i < seen.len()
                invariant
                    i <= seen.len(),
                    seen@ == old(seen)@,
                    seen@.no_duplicates(),
                    found == Some(v),
                    forall|j: int| 0 <= j < i ==> seen@[j] != v,
                decreases seen.len() - i,
            {
                if seen[i] == v {
                    assert(seen@.contains(v));
                    return ;
                }
                i = i + 1;
            }
            seen.push(v);
            proof {
                assert(seen@[seen@.len() - 1] == v);
                assert forall|x: u64| seen@.contains(x) <==> old(seen)@.contains(x) || v == x by {
                    if old(seen)@.contains(x) {
                        let j = choose|j: int| 0 <= j < old(seen)@.len() && old(seen)@[j] == x;
                        assert(seen@[j] == x);
                    }
                    if seen@.contains(x) && x != v {
                        let j = choose|j: int| 0 <= j < seen@.len() && seen@[j] == x;
                        assert(old(seen)@[j] == x);
                    }
                }
            }
        },
    }
}

/// The number of layers that the tensors' names speak of; `None` where
/// they speak of none.
pub fn derive_layer_count(tensors: &[TensorInfo]) -> (r: Option<u64>)
    ensures
        layer_set(tensors@).finite(),
        r == (if layer_set(tensors@).len() == 0 {
            None::<u64>
        } else {
            Some(layer_set(tensors@).len() as u64)
        }),
{
    let mut seen: Vec<u64> = Vec::new();
    let mut i: usize = 0;
    while i < tensors.len()
        invariant
            i <= tensors.len(),
            seen@.no_duplicates(),
            forall|x: u64|
                seen@.contains(x) <==> exists|t: int|
                    0 <= t < i && names_layer(#[trigger] tensors@[t].name@, x),
        decreases tensors.len() - i,
    {
        let ghost before = seen@;
        let name = chars_of(tensors[i].name.as_str());
        note_number(&mut seen, number_marked(name.as_slice(), "layers."));
        note_number(&mut seen, number_marked(name.as_slice(), "blocks."));
        note_number(&mut seen, number_marked(name.as_slice(), "blk."));
        note_number(&mut seen, number_marked(name.as_slice(), "h."));
        proof {
            assert forall|x: u64|
                seen@.contains(x) <==> exists|t: int|
                    0 <= t < i + 1 && names_layer(#[trigger] tensors@[t].name@, x) by {
                if seen@.contains(x) {
                    if before.contains(x) {
                        let t = choose|t: int|
                            0 <= t < i && names_layer(#[trigger] tensors@[t].name@, x);
                        assert(names_layer(tensors@[t].name@, x));
                    } else {
                        assert(names_layer(tensors@[i as int].name@, x));
                    }
                }
                if exists|t: int| 0 <= t < i + 1 && names_layer(#[trigger] tensors@[t].name@, x) {
                    let t = choose|t: int|
                        0 <= t < i + 1 && names_layer(#[trigger] tensors@[t].name@, x);
                    if t < i {
                        assert(before.contains(x));
                    }
                }
            }
        }
        i = i + 1;
    }
    proof {
        assert(seen@.to_set() =~= layer_set(tensors@));
        vstd::seq_lib::seq_to_set_is_finite(seen@);
        seen@.unique_seq_to_set();
    }
    if seen.len() == 0 {
        None
    } else {
        Some(seen.len() as u64)
    }
}

} // verus!
