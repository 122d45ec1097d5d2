//! The catalogue of loaded parent models.
//!
//! A registry holds at most five parents. In a well-formed registry no two
//! parents share a slot or an id.

use vstd::prelude::*;
use crate::model::{copy_opt_string, meta_get, meta_lookup, opt_text, ModelFormat, ModelInfo, TensorInfo};
use crate::seqs::{
    any_where, first_where, first_where_absent, first_where_found, first_where_is_least,
    keep_where, keep_where_facts, keep_where_push,
};
use crate::text::{
    chars_of, concat_text, decimal_text, parse_u64, parse_u64_spec, push_decimal, push_text,
    str_eq, string_of,
};

verus! {

/// The most parents that a registry holds.
pub const MAX_PARENTS: usize = 5;

/// Name, shape and element type of one tensor of a parent.
#[derive(Clone, Debug)]
pub struct TensorMeta {
    pub name: String,
    pub shape: Vec<usize>,
    pub dtype: String,
}

/// The value of a `TensorMeta`, with the name as a sequence of characters
/// and the shape as a list.
pub struct TensorMetaView {
    pub name: Seq<char>,
    pub shape: Seq<usize>,
    pub dtype: Seq<char>,
}

impl View for TensorMeta {
    type V = TensorMetaView;

    open spec fn view(&self) -> TensorMetaView {
        TensorMetaView { name: self.name@, shape: self.shape@, dtype: self.dtype@ }
    }
}

/// The values of a list of tensor descriptions.
pub open spec fn metas_view(s: Seq<TensorMeta>) -> Seq<TensorMetaView> {
    s.map_values(|m: TensorMeta| m@)
}

/// What compatibility checking and planning read of a parent.
#[derive(Clone, Debug)]
pub struct CompatInfo {
    pub architecture: Option<String>,
    pub hidden_size: Option<u64>,
    pub num_layers: Option<u64>,
    pub num_attention_heads: Option<u64>,
    pub num_kv_heads: Option<u64>,
    pub vocab_size: Option<u64>,
    pub context_length: Option<u64>,
    pub tensor_metas: Vec<TensorMeta>,
}

/// The value of a `CompatInfo`, with lists in place of vectors and
/// sequences of characters in place of strings.
pub struct CompatInfoView {
    pub architecture: Option<Seq<char>>,
    pub hidden_size: Option<u64>,
    pub num_layers: Option<u64>,
    pub num_attention_heads: Option<u64>,
    pub num_kv_heads: Option<u64>,
    pub vocab_size: Option<u64>,
    pub context_length: Option<u64>,
    pub tensor_metas: Seq<TensorMetaView>,
}

impl View for CompatInfo {
    type V = CompatInfoView;

    open spec fn view(&self) -> CompatInfoView {
        CompatInfoView {
            architecture: opt_text(self.architecture),
            hidden_size: self.hidden_size,
            num_layers: self.num_layers,
            num_attention_heads: self.num_attention_heads,
            num_kv_heads: self.num_kv_heads,
            vocab_size: self.vocab_size,
            context_length: self.context_length,
            tensor_metas: metas_view(self.tensor_metas@),
        }
    }
}

/// The number that the metadata holds under `key`, if it holds one.
pub open spec fn meta_number(entries: Seq<(String, String)>, key: Seq<char>) -> Option<u64> {
    match meta_lookup(entries, key) {
        Some(v) => parse_u64_spec(v),
        None => None,
    }
}

/// The description of one tensor, with each dimension as a machine size.
pub open spec fn meta_of_tensor(t: TensorInfo) -> TensorMetaView {
    TensorMetaView {
        name: t.name@,
        shape: t.shape@.map_values(|d: u64| d as usize),
        dtype: t.dtype@,
    }
}

/// The compatibility record that a model summary gives rise to.
pub open spec fn compat_of(info: ModelInfo) -> CompatInfoView {
    let prefix = match meta_lookup(info.metadata@, "general.architecture"@) {
        Some(a) => a,
        None => Seq::<char>::empty(),
    };
    CompatInfoView {
        architecture: opt_text(info.architecture),
        hidden_size: info.embedding_size,
        num_layers: info.layer_count,
        num_attention_heads: meta_number(info.metadata@, prefix + ".attention.head_count"@),
        num_kv_heads: meta_number(info.metadata@, prefix + ".attention.head_count_kv"@),
        vocab_size: match info.vocab_size {
            Some(v) => Some(v),
            None => meta_number(info.metadata@, "tokenizer.ggml.tokens_count"@),
        },
        context_length: match info.context_length {
            Some(v) => Some(v),
            None => meta_number(info.metadata@, prefix + ".context_length"@),
        },
        tensor_metas: info.all_tensors@.map_values(|t: TensorInfo| meta_of_tensor(t)),
    }
}

/// Reads the number stored under `key`.
fn read_meta_number(entries: &Vec<(String, String)>, key: &str) -> (r: Option<u64>)
    ensures
        r == meta_number(entries@, key@),
{
    match meta_get(entries, key) {
        Some(v) => {
            let digits = chars_of(v.as_str());
            parse_u64(digits.as_slice())
        },
        None => None,
    }
}

/// A copy of a shape.
pub fn copy_shape(shape: &Vec<usize>) -> (r: Vec<usize>)
    ensures
        r@ == shape@,
{
    let mut out: Vec<usize> = Vec::new();
    let mut i: usize = 0;
    while i < shape.len()
        invariant
            i <= shape.len(),
            out@ == shape@.take(i as int),
        decreases shape.len() - i,
    {
        out.push(shape[i]);
        i = i + 1;
        assert(out@ =~= shape@.take(i as int));
    }
    assert(shape@.take(shape.len() as int) =~= shape@);
    out
}

impl TensorMeta {
    /// A copy with the same name, shape and element type.
    pub fn copy(&self) -> (r: TensorMeta)
        ensures
            r@ == self@,
    {
        TensorMeta {
            name: self.name.clone(),
            shape: copy_shape(&self.shape),
            dtype: self.dtype.clone(),
        }
    }

    fn from_tensor(t: &TensorInfo) -> (r: TensorMeta)
        ensures
            r@ == meta_of_tensor(*t),
    {
        let mut shape: Vec<usize> = Vec::new();
        let mut i: usize = 0;
        while i < t.shape.len()
            invariant
                i <= t.shape.len(),
                shape@ == t.shape@.take(i as int).map_values(|d: u64| d as usize),
            decreases t.shape.len() - i,
        {
            let d: u64 = t.shape[i];
            shape.push(d as usize);
            i = i + 1;
            assert(shape@ =~= t.shape@.take(i as int).map_values(|d: u64| d as usize));
        }
        assert(t.shape@.take(t.shape.len() as int) =~= t.shape@);
        TensorMeta { name: t.name.clone(), shape, dtype: t.dtype.clone() }
    }
}

/// A copy of a list of tensor descriptions.
pub fn copy_metas(metas: &Vec<TensorMeta>) -> (r: Vec<TensorMeta>)
    ensures
        metas_view(r@) == metas_view(metas@),
{
    let mut out: Vec<TensorMeta> = Vec::new();
    let mut i: usize = 0;
    while i < metas.len()
        invariant
            i <= metas.len(),
            out@.len() == i,
            forall|j: int| 0 <= j < i ==> (#[trigger] out@[j])@ == metas@[j]@,
        decreases metas.len() - i,
    {
        out.push(metas[i].copy());
        i = i + 1;
    }
    assert(metas_view(out@) =~= metas_view(metas@));
    out
}

impl CompatInfo {
    /// The names of the parent's tensors, in their order.
    pub fn tensor_names(&self) -> (r: Vec<String>)
        ensures
            r@.len() == self.tensor_metas@.len(),
            forall|i: int| 0 <= i < r@.len() ==> (#[trigger] r@[i])@ == self.tensor_metas@[i].name@,
    {
        let mut out: Vec<String> = Vec::new();
        let mut i: usize = 0;
        while i < self.tensor_metas.len()
            invariant
                i <= self.tensor_metas.len(),
                out@.len() == i,
                forall|j: int| 0 <= j < i ==> (#[trigger] out@[j])@ == self.tensor_metas@[j].name@,
            decreases self.tensor_metas.len() - i,
        {
            out.push(self.tensor_metas[i].name.clone());
            i = i + 1;
        }
        out
    }

    /// The index of the first tensor called `name`.
    pub open spec fn tensor_index(self, name: Seq<char>) -> Option<int> {
        first_where(self.tensor_metas@, |m: TensorMeta| m.name@ == name)
    }

    /// The shape of the first tensor called `name`.
    pub open spec fn shape_of(self, name: Seq<char>) -> Option<Seq<usize>> {
        match self.tensor_index(name) {
            Some(i) => Some(self.tensor_metas@[i].shape@),
            None => None,
        }
    }

    /// The shape of the tensor called `name`, if the parent has one.
    pub fn tensor_shape(&self, name: &str) -> (r: Option<&[usize]>)
        ensures
            match self.shape_of(name@) {
                Some(s) => r is Some && r->0@ == s,
                None => r is None,
            },
    {
        let ghost p = |m: TensorMeta| m.name@ == name@;
        let mut i: usize = 0;
        while i < self.tensor_metas.len()
            invariant
                i <= self.tensor_metas.len(),
                p == (|m: TensorMeta| m.name@ == name@),
                forall|j: int| 0 <= j < i ==> !p(#[trigger] self.tensor_metas@[j]),
            decreases self.tensor_metas.len() - i,
        {
            if str_eq(self.tensor_metas[i].name.as_str(), name) {
                proof {
                    first_where_found(self.tensor_metas@, p, i as int);
                }
                return Some(self.tensor_metas[i].shape.as_slice());
            }
            i = i + 1;
        }
        proof {
            first_where_absent(self.tensor_metas@, p);
        }
        None
    }

    /// Whether the parent has a tensor called `name`.
    pub fn has_tensor(&self, name: &str) -> (r: bool)
        ensures
            r == (self.tensor_index(name@) is Some),
    {
        self.tensor_shape(name).is_some()
    }

    /// The compatibility record of a parsed model.
    pub fn from_model_info(info: &ModelInfo) -> (r: CompatInfo)
        ensures
            r@ == compat_of(*info),
    {
        let mut tensor_metas: Vec<TensorMeta> = Vec::new();
        let mut i: usize = 0;
        while i < info.all_tensors.len()
            invariant
                i <= info.all_tensors.len(),
                tensor_metas@.len() == i,
                forall|j: int|
                    0 <= j < i ==> (#[trigger] tensor_metas@[j])@ == meta_of_tensor(
                        info.all_tensors@[j],
                    ),
            decreases info.all_tensors.len() - i,
        {
            tensor_metas.push(TensorMeta::from_tensor(&info.all_tensors[i]));
            i = i + 1;
        }
        assert(metas_view(tensor_metas@) =~= info.all_tensors@.map_values(
            |t: TensorInfo| meta_of_tensor(t),
        ));

        let prefix: String = match meta_get(&info.metadata, "general.architecture") {
            Some(a) => a.clone(),
            None => String::new(),
        };
        let heads_key = concat_text(prefix.as_str(), ".attention.head_count");
        let kv_key = concat_text(prefix.as_str(), ".attention.head_count_kv");
        let context_key = concat_text(prefix.as_str(), ".context_length");
        let num_attention_heads = read_meta_number(&info.metadata, heads_key.as_str());
        let num_kv_heads = read_meta_number(&info.metadata, kv_key.as_str());
        let vocab_size = match info.vocab_size {
            Some(v) => Some(v),
            None => read_meta_number(&info.metadata, "tokenizer.ggml.tokens_count"),
        };
        let context_length = match info.context_length {
            Some(v) => Some(v),
            None => read_meta_number(&info.metadata, context_key.as_str()),
        };
        CompatInfo {
            architecture: copy_opt_string(&info.architecture),
            hidden_size: info.embedding_size,
            num_layers: info.layer_count,
            num_attention_heads,
            num_kv_heads,
            vocab_size,
            context_length,
            tensor_metas,
        }
    }

    /// A copy with the same values.
    pub fn copy(&self) -> (r: CompatInfo)
        ensures
            r@ == self@,
    {
        CompatInfo {
            architecture: copy_opt_string(&self.architecture),
            hidden_size: self.hidden_size,
            num_layers: self.num_layers,
            num_attention_heads: self.num_attention_heads,
            num_kv_heads: self.num_kv_heads,
            vocab_size: self.vocab_size,
            context_length: self.context_length,
            tensor_metas: copy_metas(&self.tensor_metas),
        }
    }
}

/// One loaded parent model.
#[derive(Clone, Debug)]
pub struct ParentModel {
    pub id: String,
    pub slot: usize,
    pub name: String,
    pub file_path: String,
    pub format: ModelFormat,
    pub file_size: u64,
    pub file_size_display: String,
    pub parameter_count: u64,
    pub parameter_count_display: String,
    pub layer_count: Option<u64>,
    pub architecture: Option<String>,
    pub quantization: Option<String>,
    pub compat: CompatInfo,
    pub color: String,
    pub is_dir: bool,
}

/// The value of a `ParentModel`, with sequences of characters in place of
/// strings.
pub struct ParentModelView {
    pub id: Seq<char>,
    pub slot: usize,
    pub name: Seq<char>,
    pub file_path: Seq<char>,
    pub format: ModelFormat,
    pub file_size: u64,
    pub file_size_display: Seq<char>,
    pub parameter_count: u64,
    pub parameter_count_display: Seq<char>,
    pub layer_count: Option<u64>,
    pub architecture: Option<Seq<char>>,
    pub quantization: Option<Seq<char>>,
    pub compat: CompatInfoView,
    pub color: Seq<char>,
    pub is_dir: bool,
}

impl View for ParentModel {
    type V = ParentModelView;

    open spec fn view(&self) -> ParentModelView {
        ParentModelView {
            id: self.id@,
            slot: self.slot,
            name: self.name@,
            file_path: self.file_path@,
            format: self.format,
            file_size: self.file_size,
            file_size_display: self.file_size_display@,
            parameter_count: self.parameter_count,
            parameter_count_display: self.parameter_count_display@,
            layer_count: self.layer_count,
            architecture: opt_text(self.architecture),
            quantization: opt_text(self.quantization),
            compat: self.compat@,
            color: self.color@,
            is_dir: self.is_dir,
        }
    }
}

impl ParentModel {
    /// A copy with the same values.
    pub fn copy(&self) -> (r: ParentModel)
        ensures
            r@ == self@,
    {
        ParentModel {
            id: self.id.clone(),
            slot: self.slot,
            name: self.name.clone(),
            file_path: self.file_path.clone(),
            format: self.format,
            file_size: self.file_size,
            file_size_display: self.file_size_display.clone(),
            parameter_count: self.parameter_count,
            parameter_count_display: self.parameter_count_display.clone(),
            layer_count: self.layer_count,
            architecture: copy_opt_string(&self.architecture),
            quantization: copy_opt_string(&self.quantization),
            compat: self.compat.copy(),
            color: self.color.clone(),
            is_dir: self.is_dir,
        }
    }

    /// The parent has a tensor called `name`.
    pub open spec fn has_tensor(self, name: Seq<char>) -> bool {
        self.compat.tensor_index(name) is Some
    }
}

/// The display colour of the parent that is added when `count` are present.
pub open spec fn gene_color(count: nat) -> Seq<char> {
    let k = count % 6;
    if k == 0 {
        "#FF6B35"@
    } else if k == 1 {
        "#4ECDC4"@
    } else if k == 2 {
        "#95E1D3"@
    } else if k == 3 {
        "#A78BFA"@
    } else if k == 4 {
        "#F472B6"@
    } else {
        "#FACC15"@
    }
}

fn pick_color(count: usize) -> (r: &'static str)
    ensures
        r@ == gene_color(count as nat),
{
    let k: usize = count % 6;
    if k == 0 {
        "#FF6B35"
    } else if k == 1 {
        "#4ECDC4"
    } else if k == 2 {
        "#95E1D3"
    } else if k == 3 {
        "#A78BFA"
    } else if k == 4 {
        "#F472B6"
    } else {
        "#FACC15"
    }
}

/// The parent that adding `info` creates under the id `id`, when `count`
/// parents are present.
pub open spec fn new_parent(
    info: ModelInfo,
    slot: usize,
    is_dir: bool,
    id: Seq<char>,
    count: nat,
) -> ParentModelView {
    ParentModelView {
        id,
        slot,
        name: info.file_name@,
        file_path: info.file_path@,
        format: info.format,
        file_size: info.file_size,
        file_size_display: info.file_size_display@,
        parameter_count: info.parameter_count,
        parameter_count_display: info.parameter_count_display@,
        layer_count: info.layer_count,
        architecture: opt_text(info.architecture),
        quantization: opt_text(info.quantization),
        compat: compat_of(info),
        color: gene_color(count),
        is_dir,
    }
}

/// Some parent occupies `slot`.
pub open spec fn slot_taken(parents: Seq<ParentModel>, slot: usize) -> bool {
    any_where(parents, |p: ParentModel| p.slot == slot)
}

/// Some parent has the id `id`.
pub open spec fn id_taken(parents: Seq<ParentModel>, id: Seq<char>) -> bool {
    any_where(parents, |p: ParentModel| p.id@ == id)
}

/// No more than five parents, and no slot or id twice.
pub open spec fn well_formed(parents: Seq<ParentModel>) -> bool {
    &&& parents.len() <= MAX_PARENTS
    &&& forall|i: int, j: int|
        0 <= i < j < parents.len() ==> (#[trigger] parents[i]).slot != (#[trigger] parents[j]).slot
            && parents[i].id@ != parents[j].id@
}

/// Why a parent with this slot and id cannot be added, if it cannot.
pub open spec fn add_refusal(parents: Seq<ParentModel>, slot: usize, id: Seq<char>) -> Option<
    Seq<char>,
> {
    if parents.len() >= MAX_PARENTS {
        Some("Maximum 5 parents allowed"@)
    } else if slot_taken(parents, slot) {
        Some("Slot "@ + decimal_text(slot as nat) + " already occupied"@)
    } else if id_taken(parents, id) {
        Some("Parent id "@ + id + " already registered"@)
    } else {
        None
    }
}

/// Every parent has a tensor called `name`, and there are at least two.
pub open spec fn is_shared(parents: Seq<ParentModel>, name: Seq<char>) -> bool {
    &&& parents.len() >= 2
    &&& forall|k: int| 0 <= k < parents.len() ==> (#[trigger] parents[k]).has_tensor(name)
}

/// The tensor names that every parent has.
pub open spec fn shared_set(parents: Seq<ParentModel>) -> Set<Seq<char>> {
    Set::new(|name: Seq<char>| is_shared(parents, name))
}

/// The place of the first tensor called `name` in the tensor list of the
/// first parent; -1 where it has none.
pub open spec fn first_place(parents: Seq<ParentModel>, name: Seq<char>) -> int {
    match parents[0].compat.tensor_index(name) {
        Some(i) => i,
        None => -1,
    }
}

/// Some string of `names` has the text `name`.
pub open spec fn lists_name(names: Seq<String>, name: Seq<char>) -> bool {
    exists|i: int| 0 <= i < names.len() && (#[trigger] names[i])@ == name
}

/// Whether some string of `names` has the text of `name`.
pub fn names_contain(names: &Vec<String>, name: &str) -> (r: bool)
    ensures
        r == lists_name(names@, name@),
{
    let mut i: usize = 0;
    while i < names.len()
        invariant
            i <= names.len(),
            forall|j: int| 0 <= j < i ==> (#[trigger] names@[j])@ != name@,
        decreases names.len() - i,
    {
        if str_eq(names[i].as_str(), name) {
            return true;
        }
        i = i + 1;
    }
    false
}

/// `uuid::Uuid::new_v4` draws a random identifier, and its `to_string` writes
/// it out; nothing is promised of the text.
#[verifier::external_body]
fn fresh_id() -> (id: String) {
    uuid::Uuid::new_v4().to_string()
}

/// The catalogue of loaded parents.
#[derive(Clone, Debug, Default)]
pub struct ParentRegistry {
    parents: Vec<ParentModel>,
}

impl View for ParentRegistry {
    type V = Seq<ParentModel>;

    closed spec fn view(&self) -> Seq<ParentModel> {
        self.parents@
    }
}

impl ParentRegistry {
    /// An empty registry.
    pub fn new() -> (r: ParentRegistry)
        ensures
            r@.len() == 0,
    {
        ParentRegistry { parents: Vec::new() }
    }

    /// A registry that holds exactly the given parents.
    pub fn from_snapshot(parents: Vec<ParentModel>) -> (r: ParentRegistry)
        ensures
            r@ == parents@,
    {
        ParentRegistry { parents }
    }

    /// No more than five parents, and no slot or id twice.
    pub open spec fn wf(&self) -> bool {
        well_formed(self@)
    }

    /// Whether some parent occupies `slot`.
    pub fn slot_occupied(&self, slot: usize) -> (r: bool)
        ensures
            r == slot_taken(self@, slot),
    {
        let mut i: usize = 0;
        while i < self.parents.len()
            invariant
                i <= self.parents.len(),
                forall|j: int| 0 <= j < i ==> (#[trigger] self.parents@[j]).slot != slot,
            decreases self.parents.len() - i,
        {
            if self.parents[i].slot == slot {
                return true;
            }
            i = i + 1;
        }
        false
    }

    /// Adds a parent under the given id.
    ///
    /// Fails, leaving the registry as it was, when five parents are present,
    /// when the slot is occupied, or when the id is in use.
    pub fn add_with_id(&mut self, info: ModelInfo, slot: usize, is_dir: bool, id: String) -> (r:
        Result<ParentModel, String>)
        ensures
            match r {
                Ok(p) => {
                    &&& add_refusal(old(self)@, slot, id@) is None
                    &&& final(self)@.len() == old(self)@.len() + 1
                    &&& final(self)@.drop_last() == old(self)@
                    &&& final(self)@.last()@ == new_parent(
                        info,
                        slot,
                        is_dir,
                        id@,
                        old(self)@.len(),
                    )
                    &&& p@ == final(self)@.last()@
                },
                Err(msg) => {
                    &&& add_refusal(old(self)@, slot, id@) == Some(msg@)
                    &&& final(self)@ == old(self)@
                },
            },
            old(self).wf() ==> final(self).wf(),
    {
        let count: usize = self.parents.len();
        if count >= MAX_PARENTS {
            return Err("Maximum 5 parents allowed".to_owned());
        }
        if self.slot_occupied(slot) {
            let mut msg: Vec<char> = Vec::new();
            push_text(&mut msg, "Slot ");
            push_decimal(&mut msg, slot as u64);
            push_text(&mut msg, " already occupied");
            assert(msg@ =~= "Slot "@ + decimal_text(slot as nat) + " already occupied"@);
            return Err(string_of(msg.as_slice()));
        }
        if self.get(id.as_str()).is_some() {
            proof {
                first_where_is_least(self.parents@, |p: ParentModel| p.id@ == id@);
            }
            let mut msg: Vec<char> = Vec::new();
            push_text(&mut msg, "Parent id ");
            push_text(&mut msg, id.as_str());
            push_text(&mut msg, " already registered");
            assert(msg@ =~= "Parent id "@ + id@ + " already registered"@);
            return Err(string_of(msg.as_slice()));
        }
        proof {
            first_where_is_least(self.parents@, |p: ParentModel| p.id@ == id@);
        }
        let compat = CompatInfo::from_model_info(&info);
        let parent = ParentModel {
            id,
            slot,
            name: info.file_name.clone(),
            file_path: info.file_path.clone(),
            format: info.format,
            file_size: info.file_size,
            file_size_display: info.file_size_display.clone(),
            parameter_count: info.parameter_count,
            parameter_count_display: info.parameter_count_display.clone(),
            layer_count: info.layer_count,
            architecture: copy_opt_string(&info.architecture),
            quantization: copy_opt_string(&info.quantization),
            compat,
            color: pick_color(count).to_owned(),
            is_dir,
        };
        let copy = parent.copy();
        self.parents.push(parent);
        proof {
            assert(self.parents@.drop_last() =~= old(self).parents@);
            if old(self).wf() {
                assert forall|i: int, j: int| 0 <= i < j < self.parents@.len() implies (
                #[trigger] self.parents@[i]).slot != (#[trigger] self.parents@[j]).slot
                    && self.parents@[i].id@ != self.parents@[j].id@ by {
                    if j < old(self).parents@.len() {
                        assert(self.parents@[i] == old(self).parents@[i]);
                        assert(self.parents@[j] == old(self).parents@[j]);
                    } else {
                        assert(self.parents@[i] == old(self).parents@[i]);
                    }
                }
            }
        }
        Ok(copy)
    }

    /// Adds a parent under a freshly drawn id.
    ///
    /// Fails, leaving the registry as it was, when five parents are present or
    /// when the slot is occupied (and in the event that the drawn id is in
    /// use).
    pub fn add(&mut self, info: ModelInfo, slot: usize, is_dir: bool) -> (r: Result<
        ParentModel,
        String,
    >)
        ensures
            match r {
                Ok(p) => {
                    &&& old(self)@.len() < MAX_PARENTS
                    &&& !slot_taken(old(self)@, slot)
                    &&& !id_taken(old(self)@, p@.id)
                    &&& final(self)@.len() == old(self)@.len() + 1
                    &&& final(self)@.drop_last() == old(self)@
                    &&& p@ == final(self)@.last()@
                    &&& p@ == new_parent(info, slot, is_dir, p@.id, old(self)@.len())
                },
                Err(msg) => {
                    &&& final(self)@ == old(self)@
                    &&& exists|id: Seq<char>| add_refusal(old(self)@, slot, id) == Some(msg@)
                },
            },
            old(self)@.len() >= MAX_PARENTS ==> r is Err && r->Err_0@
                == "Maximum 5 parents allowed"@,
            old(self)@.len() < MAX_PARENTS && slot_taken(old(self)@, slot) ==> r is Err
                && r->Err_0@ == "Slot "@ + decimal_text(slot as nat) + " already occupied"@,
            old(self).wf() ==> final(self).wf(),
    {
        let id = fresh_id();
        self.add_with_id(info, slot, is_dir, id)
    }

    /// Removes every parent with the given id; tells whether one was removed.
    pub fn remove(&mut self, parent_id: &str) -> (r: bool)
        ensures
            final(self)@ == keep_where(old(self)@, |p: ParentModel| p.id@ != parent_id@),
            r == id_taken(old(self)@, parent_id@),
            old(self).wf() ==> final(self).wf(),
    {
        let ghost keep = |p: ParentModel| p.id@ != parent_id@;
        let ghost before = self.parents@;
        let len_before: usize = self.parents.len();
        let mut i: usize = 0;
        let ghost mut done: int = 0;
        assert(before.take(0) =~= Seq::<ParentModel>::empty());
        assert(before.skip(0) =~= before);
        while i < self.parents.len()
            invariant
                keep == (|p: ParentModel| p.id@ != parent_id@),
                0 <= done <= before.len(),
                i <= self.parents@.len(),
                self.parents@.take(i as int) == keep_where(before.take(done), keep),
                self.parents@.skip(i as int) == before.skip(done),
                self.parents@.len() - i == before.len() - done,
            decreases self.parents@.len() - i,
        {
            let ghost cur = self.parents@;
            let ghost x = before[done];
            proof {
                assert(cur[i as int] == cur.skip(i as int)[0]);
                assert(before.skip(done)[0] == x);
                assert(before.take(done + 1) =~= before.take(done).push(x));
                keep_where_push(before.take(done), keep, x);
            }
            if str_eq(self.parents[i].id.as_str(), parent_id) {
                self.parents.remove(i);
                proof {
                    assert(self.parents@.take(i as int) =~= cur.take(i as int));
                    assert forall|k: int| done < k < before.len() implies #[trigger] before[k]
                        == cur[k - done + i] by {
                        assert(cur.skip(i as int)[k - done] == before.skip(done)[k - done]);
                    }
                    assert(self.parents@.skip(i as int) =~= before.skip(done + 1));
                    done = done + 1;
                }
            } else {
                i = i + 1;
                proof {
                    assert(self.parents@.take(i as int) =~= cur.take(i - 1).push(x));
                    assert forall|k: int| done < k < before.len() implies #[trigger] before[k]
                        == cur[k - done + i - 1] by {
                        assert(cur.skip(i - 1)[k - done] == before.skip(done)[k - done]);
                    }
                    assert(self.parents@.skip(i as int) =~= before.skip(done + 1));
                    done = done + 1;
                }
            }
        }
        proof {
            assert(self.parents@.take(i as int) =~= self.parents@);
            assert(before.take(done) =~= before);
            keep_where_facts(before, keep);
            let q = |p: ParentModel| !keep(p);
            let same = |p: ParentModel| p.id@ == parent_id@;
            assert(any_where(before, q) == any_where(before, same)) by {
                if any_where(before, q) {
                    let j = choose|j: int| 0 <= j < before.len() && q(#[trigger] before[j]);
                    assert(same(before[j]));
                }
                if any_where(before, same) {
                    let j = choose|j: int| 0 <= j < before.len() && same(#[trigger] before[j]);
                    assert(q(before[j]));
                }
            }
            if well_formed(before) {
                lemma_kept_well_formed(before, keep);
            }
        }
        self.parents.len() < len_before
    }

    /// The index of the first parent with the given id.
    pub open spec fn index_of(&self, parent_id: Seq<char>) -> Option<int> {
        first_where(self@, |p: ParentModel| p.id@ == parent_id)
    }

    /// The first parent with the given id.
    pub fn get(&self, parent_id: &str) -> (r: Option<&ParentModel>)
        ensures
            match self.index_of(parent_id@) {
                Some(i) => r == Some(&self@[i]),
                None => r is None,
            },
    {
        let ghost p = |m: ParentModel| m.id@ == parent_id@;
        let mut i: usize = 0;
        while i < self.parents.len()
            invariant
                i <= self.parents.len(),
                p == (|m: ParentModel| m.id@ == parent_id@),
                forall|j: int| 0 <= j < i ==> !p(#[trigger] self.parents@[j]),
            decreases self.parents.len() - i,
        {
            if str_eq(self.parents[i].id.as_str(), parent_id) {
                proof {
                    first_where_found(self.parents@, p, i as int);
                }
                return Some(&self.parents[i]);
            }
            i = i + 1;
        }
        proof {
            first_where_absent(self.parents@, p);
        }
        None
    }

    /// The position of the first parent with the given id.
    pub fn position(&self, parent_id: &str) -> (r: Option<usize>)
        ensures
            match r {
                Some(i) => self.index_of(parent_id@) == Some(i as int) && i < self@.len(),
                None => self.index_of(parent_id@) is None,
            },
    {
        let ghost p = |m: ParentModel| m.id@ == parent_id@;
        let mut i: usize = 0;
        while i < self.parents.len()
            invariant
                i <= self.parents.len(),
                p == (|m: ParentModel| m.id@ == parent_id@),
                forall|j: int| 0 <= j < i ==> !p(#[trigger] self.parents@[j]),
            decreases self.parents.len() - i,
        {
            if str_eq(self.parents[i].id.as_str(), parent_id) {
                proof {
                    first_where_found(self.parents@, p, i as int);
                }
                return Some(i);
            }
            i = i + 1;
        }
        proof {
            first_where_absent(self.parents@, p);
        }
        None
    }

    /// All parents, in the order in which they were added.
    pub fn all(&self) -> (r: &[ParentModel])
        ensures
            r@ == self@,
    {
        self.parents.as_slice()
    }

    /// Removes every parent.
    pub fn clear(&mut self)
        ensures
            final(self)@.len() == 0,
            final(self).wf(),
    {
        self.parents.clear();
    }

    /// The number of parents.
    pub fn len(&self) -> (r: usize)
        ensures
            r == self@.len(),
    {
        self.parents.len()
    }

    /// Whether the registry holds no parent.
    pub fn is_empty(&self) -> (r: bool)
        ensures
            r == (self@.len() == 0),
    {
        self.parents.len() == 0
    }

    /// The number of tensor names that every parent has.
    pub fn shared_tensor_count(&self) -> (r: usize)
        ensures
            shared_set(self@).finite(),
            r == shared_set(self@).len(),
    {
        let names = self.shared_tensor_names();
        proof {
            let views = crate::planner::texts(names@);
            assert(views.no_duplicates());
            assert(views.to_set() =~= shared_set(self@)) by {
                assert forall|n: Seq<char>| views.to_set().contains(n) implies shared_set(
                    self@,
                ).contains(n) by {
                    let i = choose|i: int| 0 <= i < views.len() && views[i] == n;
                    assert(names@[i]@ == n);
                }
                assert forall|n: Seq<char>| shared_set(self@).contains(n) implies views.to_set().contains(
                    n,
                ) by {
                    assert(lists_name(names@, n));
                    let i = choose|i: int| 0 <= i < names@.len() && (#[trigger] names@[i])@ == n;
                    assert(views[i] == n);
                }
            }
            vstd::seq_lib::seq_to_set_is_finite(views);
            views.unique_seq_to_set();
        }
        names.len()
    }

    /// The tensor names that every parent has: each once, in the order of the
    /// first parent. Empty where fewer than two parents are present.
    pub fn shared_tensor_names(&self) -> (r: Vec<String>)
        ensures
            forall|i: int| 0 <= i < r@.len() ==> is_shared(self@, (#[trigger] r@[i])@),
            forall|name: Seq<char>| is_shared(self@, name) ==> lists_name(r@, name),
            forall|i: int, j: int|
                0 <= i < j < r@.len() ==> (#[trigger] r@[i])@ != (#[trigger] r@[j])@,
            forall|i: int, j: int|
                0 <= i < j < r@.len() ==> first_place(self@, (#[trigger] r@[i])@) < first_place(
                    self@,
                    (#[trigger] r@[j])@,
                ),
    {
        let mut out: Vec<String> = Vec::new();
        if self.parents.len() < 2 {
            return out;
        }
        let first = &self.parents[0];
        let mut i: usize = 0;
        while i < first.compat.tensor_metas.len()
            invariant
                self.parents@.len() >= 2,
                first == &self.parents@[0],
                i <= first.compat.tensor_metas@.len(),
                forall|k: int| 0 <= k < out@.len() ==> is_shared(self@, (#[trigger] out@[k])@),
                forall|k: int|
                    0 <= k < i && is_shared(self@, (#[trigger] first.compat.tensor_metas@[k]).name@)
                        ==> lists_name(out@, first.compat.tensor_metas@[k].name@),
                forall|a: int, b: int|
                    0 <= a < b < out@.len() ==> (#[trigger] out@[a])@ != (#[trigger] out@[b])@,
                forall|a: int| 0 <= a < out@.len() ==> 0 <= first_place(self@, (#[trigger] out@[a])@) < i,
                forall|a: int, b: int|
                    0 <= a < b < out@.len() ==> first_place(self@, (#[trigger] out@[a])@)
                        < first_place(self@, (#[trigger] out@[b])@),
            decreases first.compat.tensor_metas@.len() - i,
        {
            let name = &first.compat.tensor_metas[i].name;
            let ghost prev = out@;
            if !names_contain(&out, name.as_str()) {
                let mut everywhere = true;
                let mut k: usize = 1;
                while k < self.parents.len()
                    invariant
                        1 <= k <= self.parents@.len(),
                        everywhere ==> forall|m: int|
                            1 <= m < k ==> (#[trigger] self.parents@[m]).has_tensor(name@),
                        !everywhere ==> exists|m: int|
                            1 <= m < self.parents@.len() && !(#[trigger] self.parents@[m]).has_tensor(
                                name@,
                            ),
                    decreases self.parents@.len() - k,
                {
                    if !self.parents[k].compat.has_tensor(name.as_str()) {
                        everywhere = false;
                    }
                    k = k + 1;
                }
                if everywhere {
                    proof {
                        let named = |m: TensorMeta| m.name@ == name@;
                        first_where_is_least(first.compat.tensor_metas@, named);
                        assert(named(first.compat.tensor_metas@[i as int]));
                        // The name does not occur before: it would be listed already.
                        assert forall|k: int| 0 <= k < i implies !named(
                            #[trigger] first.compat.tensor_metas@[k],
                        ) by {
                            if named(first.compat.tensor_metas@[k]) {
                                assert(is_shared(self@, first.compat.tensor_metas@[k].name@)) by {
                                    assert forall|m: int| 0 <= m < self.parents@.len() implies (
                                    #[trigger] self.parents@[m]).has_tensor(name@) by {
                                        if m == 0 {
                                        }
                                    }
                                }
                                assert(lists_name(out@, name@));
                            }
                        }
                        first_where_found(first.compat.tensor_metas@, named, i as int);
                        assert(first_place(self@, name@) == i);
                        assert forall|m: int| 0 <= m < self.parents@.len() implies (
                        #[trigger] self.parents@[m]).has_tensor(name@) by {
                            if m == 0 {
                            }
                        }
                    }
                    out.push(name.clone());
                    proof {
                        assert(out@[out@.len() - 1]@ == name@);
                        assert forall|k: int|
                            0 <= k <= i && is_shared(
                                self@,
                                (#[trigger] first.compat.tensor_metas@[k]).name@,
                            ) implies lists_name(out@, first.compat.tensor_metas@[k].name@) by {
                            if k < i {
                                let w = choose|w: int|
                                    0 <= w < prev.len() && (#[trigger] prev[w])@
                                        == first.compat.tensor_metas@[k].name@;
                                assert(out@[w] == prev[w]);
                            }
                        }
                    }
                }
            }
            i = i + 1;
        }
        proof {
            assert forall|name: Seq<char>| is_shared(self@, name) implies lists_name(
                out@,
                name,
            ) by {
                assert(self@[0].has_tensor(name));
                first_where_is_least(first.compat.tensor_metas@, |m: TensorMeta| m.name@ == name);
                let k = first.compat.tensor_index(name)->0;
                assert(first.compat.tensor_metas@[k].name@ == name);
            }
        }
        out
    }
}

/// Dropping parents from a well-formed list leaves a well-formed list.
pub proof fn lemma_kept_well_formed(parents: Seq<ParentModel>, keep: spec_fn(ParentModel) -> bool)
    requires
        well_formed(parents),
    ensures
        well_formed(keep_where(parents, keep)),
    decreases parents.len(),
{
    if parents.len() > 0 {
        let t = parents.drop_last();
        assert forall|i: int, j: int| 0 <= i < j < t.len() implies (#[trigger] t[i]).slot != (
        #[trigger] t[j]).slot && t[i].id@ != t[j].id@ by {
            assert(t[i] == parents[i]);
            assert(t[j] == parents[j]);
        }
        lemma_kept_well_formed(t, keep);
        keep_where_facts(t, keep);
        let kt = keep_where(t, keep);
        let ks = keep_where(parents, keep);
        if keep(parents.last()) {
            assert forall|i: int, j: int| 0 <= i < j < ks.len() implies (#[trigger] ks[i]).slot
                != (#[trigger] ks[j]).slot && ks[i].id@ != ks[j].id@ by {
                if j < kt.len() {
                    assert(ks[i] == kt[i]);
                    assert(ks[j] == kt[j]);
                } else {
                    assert(ks[i] == kt[i]);
                    assert(t.contains(kt[i]));
                    let w = choose|w: int| 0 <= w < t.len() && t[w] == kt[i];
                    assert(parents[w] == t[w]);
                    assert(ks[j] == parents[parents.len() - 1]);
                }
            }
        }
    }
}

} // verus!
