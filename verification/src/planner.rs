//! Turning a merge configuration and a registry into the ordered list of
//! per-tensor operations.
//!
//! Each tensor of the first parent is resolved in this order: an override
//! that names the tensor; an override for its component within a range of
//! layers; an assignment of its layer; the method's own default. The expert
//! and router tensors of a conversion to a mixture of experts stand behind
//! all of these, and the carrying over of the accompanying files ends the
//! plan.

use vstd::prelude::*;
use crate::config::{
    ComponentOverride, ComponentType, LayerAssignment, MergeConfig, MergeMethod, ParentWeight,
    TensorOverride,
};
use crate::error::{ModelError, ModelErrorView};
use crate::experts::{expert_name, make_expert_name};
use crate::inspect::{
    component_of, extract_layer_index, layer_index_of, tensor_component, TensorComponent,
};
use crate::model::opt_ref_text;
use crate::registry::{is_shared, names_contain, ParentModel, ParentRegistry, TensorMeta};
use crate::seqs::{
    first_where, first_where_absent, first_where_found, last_where, last_where_absent,
    last_where_found,
};
use crate::text::{
    chars_of, contains, contains_str, decimal_text, replace_all, replace_sub, string_of,
};

verus! {

/// What is done to produce one tensor of the output, or to carry over the
/// files that accompany a model.
#[derive(Clone, Debug)]
pub enum TensorOperation {
    /// The tensor is taken from one parent as it is.
    Copy { tensor_name: String, parent_id: String },
    /// The tensor is combined from several parents by the configured method.
    /// The weights are the bits of double-precision numbers.
    Merge { tensor_name: String, parent_ids: Vec<String>, weights: Vec<u64> },
    /// The tensor is created anew.
    Synthesize { tensor_name: String, shape: Vec<usize>, strategy: String },
    /// The accompanying files are taken from one parent.
    CopyMetadata { parent_id: String },
}

/// The value of a `TensorOperation`, with lists in place of vectors and
/// sequences of characters in place of strings.
pub enum OperationView {
    Copy { tensor_name: Seq<char>, parent_id: Seq<char> },
    Merge { tensor_name: Seq<char>, parent_ids: Seq<Seq<char>>, weights: Seq<u64> },
    Synthesize { tensor_name: Seq<char>, shape: Seq<usize>, strategy: Seq<char> },
    CopyMetadata { parent_id: Seq<char> },
}

/// The texts of a list of strings.
pub open spec fn texts(s: Seq<String>) -> Seq<Seq<char>> {
    s.map_values(|t: String| t@)
}

impl View for TensorOperation {
    type V = OperationView;

    open spec fn view(&self) -> OperationView {
        match *self {
            TensorOperation::Copy { tensor_name, parent_id } => OperationView::Copy {
                tensor_name: tensor_name@,
                parent_id: parent_id@,
            },
            TensorOperation::Merge { tensor_name, parent_ids, weights } => OperationView::Merge {
                tensor_name: tensor_name@,
                parent_ids: texts(parent_ids@),
                weights: weights@,
            },
            TensorOperation::Synthesize { tensor_name, shape, strategy } => {
                OperationView::Synthesize {
                    tensor_name: tensor_name@,
                    shape: shape@,
                    strategy: strategy@,
                }
            },
            TensorOperation::CopyMetadata { parent_id } => OperationView::CopyMetadata {
                parent_id: parent_id@,
            },
        }
    }
}

/// The values of a list of operations.
pub open spec fn ops_view(s: Seq<TensorOperation>) -> Seq<OperationView> {
    s.map_values(|o: TensorOperation| o@)
}

/// The plan of one merge.
#[derive(Clone, Debug)]
pub struct TensorMergePlan {
    pub operations: Vec<TensorOperation>,
    pub total_tensors: usize,
    pub method: MergeMethod,
    pub estimated_output_bytes: u64,
}

// ---------------------------------------------------------------------------
// What the configuration directs
// ---------------------------------------------------------------------------

/// The parent that the overrides name for the tensor `name`: where several
/// name it, the last one counts.
pub open spec fn tensor_override_for(config: MergeConfig, name: Seq<char>) -> Option<Seq<char>> {
    match last_where(config.tensor_overrides@, |o: TensorOverride| o.tensor_name@ == name) {
        Some(i) => Some(config.tensor_overrides@[i].parent_id@),
        None => None,
    }
}

/// The override speaks of this component in this layer.
pub open spec fn override_applies(
    co: ComponentOverride,
    layer: u64,
    component: TensorComponent,
) -> bool {
    &&& co.layer_start <= layer <= co.layer_end
    &&& match co.component {
        ComponentType::Attention => component == TensorComponent::Attention,
        ComponentType::Mlp => component == TensorComponent::Mlp,
        ComponentType::Norm => component == TensorComponent::Norm,
    }
}

/// The parent that the component overrides name for a component of a layer:
/// where several apply, the first one counts.
pub open spec fn component_override_for(
    config: MergeConfig,
    layer: u64,
    component: TensorComponent,
) -> Option<Seq<char>> {
    match first_where(
        config.component_overrides@,
        |co: ComponentOverride| override_applies(co, layer, component),
    ) {
        Some(i) => Some(config.component_overrides@[i].parent_id@),
        None => None,
    }
}

/// The parent that the layer assignments name for a layer: where several name
/// it, the last one counts.
pub open spec fn layer_assignment_for(config: MergeConfig, layer: u64) -> Option<Seq<char>> {
    match last_where(config.layer_assignments@, |a: LayerAssignment| a.layer_index == layer) {
        Some(i) => Some(config.layer_assignments@[i].source_parent_id@),
        None => None,
    }
}

/// The parent that the configuration explicitly names as the source of the
/// tensor `name`, by tensor override, component override or layer
/// assignment, in this order of priority.
pub open spec fn directed_source(config: MergeConfig, name: Seq<char>) -> Option<Seq<char>> {
    match tensor_override_for(config, name) {
        Some(p) => Some(p),
        None => match layer_index_of(name) {
            Some(layer) => match component_override_for(config, layer, component_of(name)) {
                Some(p) => Some(p),
                None => layer_assignment_for(config, layer),
            },
            None => None,
        },
    }
}

// ---------------------------------------------------------------------------
// What the method does by default
// ---------------------------------------------------------------------------

/// The ids of the configured parents, in their order.
pub open spec fn merged_ids(config: MergeConfig) -> Seq<Seq<char>> {
    config.parents@.map_values(|p: ParentWeight| p.parent_id@)
}

/// The weights of the configured parents, in their order.
pub open spec fn merged_weights(config: MergeConfig) -> Seq<u64> {
    config.parents@.map_values(|p: ParentWeight| p.weight_bits)
}

/// The merge of the tensor `name` over the configured parents.
pub open spec fn merge_of(config: MergeConfig, name: Seq<char>) -> OperationView {
    OperationView::Merge {
        tensor_name: name,
        parent_ids: merged_ids(config),
        weights: merged_weights(config),
    }
}

/// The copy that makes parent `i` an expert.
pub open spec fn expert_copy(parents: Seq<ParentModel>, name: Seq<char>, i: int) -> OperationView {
    OperationView::Copy { tensor_name: expert_name(name, i as nat), parent_id: parents[i].id@ }
}

/// One expert copy of the tensor per parent.
pub open spec fn expert_copies(parents: Seq<ParentModel>, name: Seq<char>) -> Seq<OperationView> {
    Seq::new(parents.len(), |i: int| expert_copy(parents, name, i))
}

/// The tensor is a gate projection, for which a router is made.
pub open spec fn has_gate(name: Seq<char>) -> bool {
    contains(name, "gate_proj"@) || contains(name, "ffn_gate"@)
}

/// The name of the router made for a gate projection.
pub open spec fn router_name(name: Seq<char>) -> Seq<char> {
    replace_all(
        replace_all(name, "gate_proj"@, "router.weight"@),
        "ffn_gate"@,
        "router.weight"@,
    )
}

/// The router made for a gate projection.
pub open spec fn router_of(parents: Seq<ParentModel>, name: Seq<char>) -> OperationView {
    OperationView::Synthesize {
        tensor_name: router_name(name),
        shape: seq![parents.len() as usize, 1usize],
        strategy: "random_init"@,
    }
}

/// The conversion to a mixture of experts fans the tensor out: the method
/// is that conversion, the tensor belongs to a feed-forward block, and the
/// configuration directs it nowhere.
pub open spec fn fans_out(config: MergeConfig, name: Seq<char>) -> bool {
    &&& directed_source(config, name) is None
    &&& config.method == MergeMethod::MoeConversion
    &&& component_of(name) == TensorComponent::Mlp
}

/// The tensors into which a feed-forward tensor is fanned out: one copy
/// per parent, and a router where the tensor is a gate projection.
pub open spec fn expert_fan(parents: Seq<ParentModel>, name: Seq<char>) -> Seq<OperationView> {
    if has_gate(name) {
        expert_copies(parents, name).push(router_of(parents, name))
    } else {
        expert_copies(parents, name)
    }
}

/// What the method does, under the tensor's own name, with a tensor that
/// the configuration directs nowhere. A tensor that is fanned out has no
/// operation under its own name.
pub open spec fn default_ops(
    config: MergeConfig,
    parents: Seq<ParentModel>,
    name: Seq<char>,
) -> Seq<OperationView>
    recommends
        parents.len() > 0,
{
    let copy = OperationView::Copy { tensor_name: name, parent_id: parents[0].id@ };
    if config.method.copies_layers() {
        seq![copy]
    } else if config.method == MergeMethod::MoeConversion && component_of(name)
        == TensorComponent::Mlp {
        Seq::empty()
    } else if is_shared(parents, name) {
        seq![merge_of(config, name)]
    } else {
        seq![copy]
    }
}

/// The operation that produces the tensor `name` under its own name; none
/// for a tensor that is fanned out.
pub open spec fn ops_for(config: MergeConfig, parents: Seq<ParentModel>, name: Seq<char>) -> Seq<
    OperationView,
>
    recommends
        parents.len() > 0,
{
    match directed_source(config, name) {
        Some(p) => seq![OperationView::Copy { tensor_name: name, parent_id: p }],
        None => default_ops(config, parents, name),
    }
}

/// The operations for a list of tensor names, name after name.
pub open spec fn tensor_ops(
    config: MergeConfig,
    parents: Seq<ParentModel>,
    names: Seq<Seq<char>>,
) -> Seq<OperationView>
    decreases names.len(),
{
    if names.len() == 0 {
        Seq::empty()
    } else {
        tensor_ops(config, parents, names.drop_last()) + ops_for(config, parents, names.last())
    }
}

/// The tensor names of the first parent, in their order.
pub open spec fn primary_names(parents: Seq<ParentModel>) -> Seq<Seq<char>>
    recommends
        parents.len() > 0,
{
    parents[0].compat.tensor_metas@.map_values(|m: TensorMeta| m.name@)
}

/// The parent whose accompanying files are carried over: the base parent
/// where one is configured, else the first parent.
pub open spec fn metadata_source(config: MergeConfig, parents: Seq<ParentModel>) -> Seq<char>
    recommends
        parents.len() > 0,
{
    match config.base_parent_id {
        Some(b) => b@,
        None => parents[0].id@,
    }
}

/// The expert and router tensors that the tensor `name` is fanned out
/// into; none for a tensor that is not fanned out.
pub open spec fn expert_ops(config: MergeConfig, parents: Seq<ParentModel>, name: Seq<char>) -> Seq<
    OperationView,
> {
    if fans_out(config, name) {
        expert_fan(parents, name)
    } else {
        Seq::empty()
    }
}

/// The expert and router tensors for a list of tensor names, name after
/// name.
pub open spec fn expert_tensor_ops(
    config: MergeConfig,
    parents: Seq<ParentModel>,
    names: Seq<Seq<char>>,
) -> Seq<OperationView>
    decreases names.len(),
{
    if names.len() == 0 {
        Seq::empty()
    } else {
        expert_tensor_ops(config, parents, names.drop_last()) + expert_ops(
            config,
            parents,
            names.last(),
        )
    }
}

/// The whole plan: first the operations under the names of the tensors of
/// the first parent, in the order of its tensor list; then the expert and
/// router tensors, in the same order; and the carrying over of the
/// accompanying files at the end.
pub open spec fn planned_ops(config: MergeConfig, parents: Seq<ParentModel>) -> Seq<OperationView>
    recommends
        parents.len() > 0,
{
    (tensor_ops(config, parents, primary_names(parents)) + expert_tensor_ops(
        config,
        parents,
        primary_names(parents),
    )).push(OperationView::CopyMetadata { parent_id: metadata_source(config, parents) })
}

/// A tensor that an override names is copied from the parent that the
/// override names, whatever component overrides, layer assignments and the
/// method say.
pub proof fn tensor_override_has_priority(
    config: MergeConfig,
    parents: Seq<ParentModel>,
    name: Seq<char>,
)
    requires
        tensor_override_for(config, name) is Some,
    ensures
        ops_for(config, parents, name) == seq![
            OperationView::Copy {
                tensor_name: name,
                parent_id: tensor_override_for(config, name)->0,
            },
        ],
{
}

/// Without a tensor override, a component override that applies decides over
/// the layer assignments and the method.
pub proof fn component_override_has_priority(
    config: MergeConfig,
    parents: Seq<ParentModel>,
    name: Seq<char>,
)
    requires
        tensor_override_for(config, name) is None,
        layer_index_of(name) is Some,
        component_override_for(config, layer_index_of(name)->0, component_of(name)) is Some,
    ensures
        ops_for(config, parents, name) == seq![
            OperationView::Copy {
                tensor_name: name,
                parent_id: component_override_for(
                    config,
                    layer_index_of(name)->0,
                    component_of(name),
                )->0,
            },
        ],
{
}

/// The operations of the first `k + 1` names are those of the first `k`
/// followed by those of name `k`.
pub proof fn tensor_ops_step(
    config: MergeConfig,
    parents: Seq<ParentModel>,
    names: Seq<Seq<char>>,
    k: int,
)
    requires
        0 <= k < names.len(),
    ensures
        tensor_ops(config, parents, names.take(k + 1)) == tensor_ops(
            config,
            parents,
            names.take(k),
        ) + ops_for(config, parents, names[k]),
{
    assert(names.take(k + 1).drop_last() =~= names.take(k));
}

/// The expert and router tensors of the first `k + 1` names are those of
/// the first `k` followed by those of name `k`.
pub proof fn expert_tensor_ops_step(
    config: MergeConfig,
    parents: Seq<ParentModel>,
    names: Seq<Seq<char>>,
    k: int,
)
    requires
        0 <= k < names.len(),
    ensures
        expert_tensor_ops(config, parents, names.take(k + 1)) == expert_tensor_ops(
            config,
            parents,
            names.take(k),
        ) + expert_ops(config, parents, names[k]),
{
    assert(names.take(k + 1).drop_last() =~= names.take(k));
}

// ---------------------------------------------------------------------------
// Planning
// ---------------------------------------------------------------------------

fn find_tensor_override<'a>(config: &'a MergeConfig, name: &str) -> (r: Option<&'a String>)
    ensures
        opt_ref_text(r) == tensor_override_for(*config, name@),
{
    let ghost p = |o: TensorOverride| o.tensor_name@ == name@;
    let mut i: usize = config.tensor_overrides.len();
    while i > 0
        invariant
            i <= config.tensor_overrides.len(),
            p == (|o: TensorOverride| o.tensor_name@ == name@),
            forall|j: int|
                i <= j < config.tensor_overrides@.len() ==> !p(
                    #[trigger] config.tensor_overrides@[j],
                ),
        decreases i,
    {
        i = i - 1;
        if crate::text::str_eq(config.tensor_overrides[i].tensor_name.as_str(), name) {
            proof {
                last_where_found(config.tensor_overrides@, p, i as int);
            }
            return Some(&config.tensor_overrides[i].parent_id);
        }
    }
    proof {
        last_where_absent(config.tensor_overrides@, p);
    }
    None
}

fn applies(co: &ComponentOverride, layer: u64, component: TensorComponent) -> (r: bool)
    ensures
        r == override_applies(*co, layer, component),
{
    layer >= co.layer_start && layer <= co.layer_end && match co.component {
        ComponentType::Attention => component == TensorComponent::Attention,
        ComponentType::Mlp => component == TensorComponent::Mlp,
        ComponentType::Norm => component == TensorComponent::Norm,
    }
}

fn find_component_override<'a>(
    config: &'a MergeConfig,
    layer: u64,
    component: TensorComponent,
) -> (r: Option<&'a String>)
    ensures
        opt_ref_text(r) == component_override_for(*config, layer, component),
{
    let ghost p = |co: ComponentOverride| override_applies(co, layer, component);
    let mut i: usize = 0;
    while i < config.component_overrides.len()
        invariant
            i <= config.component_overrides.len(),
            p == (|co: ComponentOverride| override_applies(co, layer, component)),
            forall|j: int| 0 <= j < i ==> !p(#[trigger] config.component_overrides@[j]),
        decreases config.component_overrides.len() - i,
    {
        if applies(&config.component_overrides[i], layer, component) {
            proof {
                first_where_found(config.component_overrides@, p, i as int);
            }
            return Some(&config.component_overrides[i].parent_id);
        }
        i = i + 1;
    }
    proof {
        first_where_absent(config.component_overrides@, p);
    }
    None
}

fn find_layer_assignment<'a>(config: &'a MergeConfig, layer: u64) -> (r: Option<&'a String>)
    ensures
        opt_ref_text(r) == layer_assignment_for(*config, layer),
{
    let ghost p = |a: LayerAssignment| a.layer_index == layer;
    let mut i: usize = config.layer_assignments.len();
    while i > 0
        invariant
            i <= config.layer_assignments.len(),
            p == (|a: LayerAssignment| a.layer_index == layer),
            forall|j: int|
                i <= j < config.layer_assignments@.len() ==> !p(
                    #[trigger] config.layer_assignments@[j],
                ),
        decreases i,
    {
        i = i - 1;
        if config.layer_assignments[i].layer_index == layer {
            proof {
                last_where_found(config.layer_assignments@, p, i as int);
            }
            return Some(&config.layer_assignments[i].source_parent_id);
        }
    }
    proof {
        last_where_absent(config.layer_assignments@, p);
    }
    None
}

/// The parent that the configuration names as the source of a tensor, and
/// the tensor's component.
fn find_directed_source<'a>(config: &'a MergeConfig, name: &str) -> (r: (
    Option<&'a String>,
    TensorComponent,
))
    ensures
        opt_ref_text(r.0) == directed_source(*config, name@),
        r.1 == component_of(name@),
{
    let component = tensor_component(name);
    match find_tensor_override(config, name) {
        Some(p) => (Some(p), component),
        None => {
            match extract_layer_index(name) {
                Some(layer) => {
                    match find_component_override(config, layer, component) {
                        Some(p) => (Some(p), component),
                        None => (find_layer_assignment(config, layer), component),
                    }
                },
                None => (None, component),
            }
        },
    }
}

fn make_merge(config: &MergeConfig, name: &String) -> (r: TensorOperation)
    ensures
        r@ == merge_of(*config, name@),
{
    let mut parent_ids: Vec<String> = Vec::new();
    let mut weights: Vec<u64> = Vec::new();
    let mut i: usize = 0;
    while i < config.parents.len()
        invariant
            i <= config.parents.len(),
            parent_ids@.len() == i,
            weights@.len() == i,
            forall|j: int| 0 <= j < i ==> (#[trigger] parent_ids@[j])@ == config.parents@[j].parent_id@,
            forall|j: int| 0 <= j < i ==> #[trigger] weights@[j] == config.parents@[j].weight_bits,
        decreases config.parents.len() - i,
    {
        parent_ids.push(config.parents[i].parent_id.clone());
        weights.push(config.parents[i].weight_bits);
        i = i + 1;
    }
    assert(texts(parent_ids@) =~= merged_ids(*config));
    assert(weights@ =~= merged_weights(*config));
    TensorOperation::Merge { tensor_name: name.clone(), parent_ids, weights }
}

fn make_router_name(name: &[char]) -> (r: String)
    ensures
        r@ == router_name(name@),
{
    let gate = chars_of("gate_proj");
    let ffn = chars_of("ffn_gate");
    let router = chars_of("router.weight");
    proof {
        reveal_strlit("gate_proj");
        reveal_strlit("ffn_gate");
    }
    let first = replace_sub(name, gate.as_slice(), router.as_slice());
    let second = replace_sub(first.as_slice(), ffn.as_slice(), router.as_slice());
    string_of(second.as_slice())
}

/// Appends the operations by which the method produces a tensor that the
/// configuration directs nowhere.
fn push_default_ops(
    operations: &mut Vec<TensorOperation>,
    config: &MergeConfig,
    parents: &[ParentModel],
    shared: &Vec<String>,
    name: &String,
    component: TensorComponent,
)
    requires
        parents@.len() > 0,
        component == component_of(name@),
        forall|n: Seq<char>| crate::registry::lists_name(shared@, n) <==> is_shared(parents@, n),
    ensures
        ops_view(final(operations)@) == ops_view(old(operations)@) + default_ops(
            *config,
            parents@,
            name@,
        ),
{
    let ghost before = ops_view(operations@);
    let is_layer_copy = match config.method {
        MergeMethod::Frankenmerge | MergeMethod::Passthrough => true,
        _ => false,
    };
    let is_moe = match config.method {
        MergeMethod::MoeConversion => true,
        _ => false,
    };
    if is_layer_copy {
        operations.push(
            TensorOperation::Copy { tensor_name: name.clone(), parent_id: parents[0].id.clone() },
        );
        assert(ops_view(operations@) =~= before + default_ops(*config, parents@, name@));
    } else if is_moe && component == TensorComponent::Mlp {
        assert(ops_view(operations@) =~= before + default_ops(*config, parents@, name@));
    } else if names_contain(shared, name.as_str()) {
        operations.push(make_merge(config, name));
        assert(ops_view(operations@) =~= before + default_ops(*config, parents@, name@));
    } else {
        operations.push(
            TensorOperation::Copy { tensor_name: name.clone(), parent_id: parents[0].id.clone() },
        );
        assert(ops_view(operations@) =~= before + default_ops(*config, parents@, name@));
    }
}

/// Appends the expert and router tensors into which a feed-forward tensor
/// is fanned out.
fn push_expert_fan(operations: &mut Vec<TensorOperation>, parents: &[ParentModel], name: &String)
    ensures
        ops_view(final(operations)@) == ops_view(old(operations)@) + expert_fan(parents@, name@),
{
    let ghost before = ops_view(operations@);
    let chars = chars_of(name.as_str());
    let mut i: usize = 0;
    assert(ops_view(operations@) =~= before + expert_copies(parents@, name@).take(0));
    while i < parents.len()
        invariant
            i <= parents@.len(),
            chars@ == name@,
            ops_view(operations@) == before + expert_copies(parents@, name@).take(i as int),
        decreases parents@.len() - i,
    {
        let ghost prev = ops_view(operations@);
        let ghost copies = expert_copies(parents@, name@);
        let expert = make_expert_name(name.as_str(), i);
        operations.push(
            TensorOperation::Copy { tensor_name: expert, parent_id: parents[i].id.clone() },
        );
        proof {
            assert(operations@.last()@ == expert_copy(parents@, name@, i as int));
            assert(ops_view(operations@) =~= prev.push(copies[i as int]));
            assert(copies.take(i + 1) =~= copies.take(i as int).push(copies[i as int]));
        }
        i = i + 1;
        assert(ops_view(operations@) =~= before + copies.take(i as int));
    }
    assert(expert_copies(parents@, name@).take(i as int) =~= expert_copies(parents@, name@));
    if contains_str(chars.as_slice(), "gate_proj") || contains_str(chars.as_slice(), "ffn_gate") {
        let ghost prev = ops_view(operations@);
        let mut shape: Vec<usize> = Vec::new();
        shape.push(parents.len());
        shape.push(1);
        assert(shape@ =~= seq![parents@.len() as usize, 1usize]);
        operations.push(
            TensorOperation::Synthesize {
                tensor_name: make_router_name(chars.as_slice()),
                shape,
                strategy: "random_init".to_owned(),
            },
        );
        proof {
            assert(operations@.last()@ == router_of(parents@, name@));
            assert(ops_view(operations@) =~= prev.push(router_of(parents@, name@)));
            assert(has_gate(name@));
            assert(prev.push(router_of(parents@, name@)) =~= before + expert_copies(
                parents@,
                name@,
            ).push(router_of(parents@, name@)));
        }
    }
}

/// Plans the merge that `config` describes over the parents of `registry`.
///
/// Fails exactly when the registry is empty.
pub fn build_plan(config: &MergeConfig, registry: &ParentRegistry) -> (r: Result<
    TensorMergePlan,
    ModelError,
>)
    ensures
        match r {
            Ok(plan) => {
                &&& registry@.len() > 0
                &&& ops_view(plan.operations@) == planned_ops(*config, registry@)
                &&& plan.total_tensors == plan.operations@.len()
                &&& plan.method == config.method
                &&& plan.estimated_output_bytes == registry@[0].file_size
                &&& config.parents@.len() > 0 ==> ops_have_sources(plan.operations@)
            },
            Err(e) => {
                &&& registry@.len() == 0
                &&& e@ == ModelErrorView::MergeError("No parents loaded"@)
            },
        },
{
    let shared = registry.shared_tensor_names();
    let parents = registry.all();
    if parents.len() == 0 {
        return Err(ModelError::MergeError("No parents loaded".to_owned()));
    }
    proof {
        assert forall|n: Seq<char>| crate::registry::lists_name(shared@, n) implies is_shared(
            parents@,
            n,
        ) by {
            let w = choose|w: int| 0 <= w < shared@.len() && (#[trigger] shared@[w])@ == n;
            assert(is_shared(registry@, shared@[w]@));
        }
    }
    let primary = &parents[0];
    let ghost names = primary_names(parents@);
    let mut operations: Vec<TensorOperation> = Vec::new();
    let mut i: usize = 0;
    assert(ops_view(operations@) =~= tensor_ops(*config, parents@, names.take(0)));
    while i < primary.compat.tensor_metas.len()
        invariant
            parents@ == registry@,
            parents@.len() > 0,
            primary == &parents@[0],
            names == primary_names(parents@),
            i <= primary.compat.tensor_metas@.len(),
            forall|n: Seq<char>| crate::registry::lists_name(shared@, n) <==> is_shared(parents@, n),
            ops_view(operations@) == tensor_ops(*config, parents@, names.take(i as int)),
        decreases primary.compat.tensor_metas@.len() - i,
    {
        let name = &primary.compat.tensor_metas[i].name;
        let ghost before = ops_view(operations@);
        proof {
            tensor_ops_step(*config, parents@, names, i as int);
            assert(names[i as int] == name@);
        }
        let (source, component) = find_directed_source(config, name.as_str());
        match source {
            Some(p) => {
                operations.push(
                    TensorOperation::Copy { tensor_name: name.clone(), parent_id: p.clone() },
                );
                assert(ops_view(operations@) =~= before + ops_for(*config, parents@, name@));
            },
            None => {
                push_default_ops(&mut operations, config, parents, &shared, name, component);
            },
        }
        i = i + 1;
    }
    assert(names.take(i as int) =~= names);
    let ghost ordinary = ops_view(operations@);
    let is_moe = match config.method {
        MergeMethod::MoeConversion => true,
        _ => false,
    };
    let mut k: usize = 0;
    assert(ops_view(operations@) =~= ordinary + expert_tensor_ops(
        *config,
        parents@,
        names.take(0),
    ));
    while k < primary.compat.tensor_metas.len()
        invariant
            parents@ == registry@,
            parents@.len() > 0,
            primary == &parents@[0],
            names == primary_names(parents@),
            k <= primary.compat.tensor_metas@.len(),
            is_moe == (config.method == MergeMethod::MoeConversion),
            ordinary == tensor_ops(*config, parents@, names),
            ops_view(operations@) == ordinary + expert_tensor_ops(
                *config,
                parents@,
                names.take(k as int),
            ),
        decreases primary.compat.tensor_metas@.len() - k,
    {
        let name = &primary.compat.tensor_metas[k].name;
        let ghost so_far = expert_tensor_ops(*config, parents@, names.take(k as int));
        proof {
            expert_tensor_ops_step(*config, parents@, names, k as int);
            assert(names[k as int] == name@);
        }
        let (source, component) = find_directed_source(config, name.as_str());
        if is_moe && source.is_none() && component == TensorComponent::Mlp {
            push_expert_fan(&mut operations, parents, name);
            assert(ops_view(operations@) =~= ordinary + (so_far + expert_ops(
                *config,
                parents@,
                name@,
            )));
        } else {
            assert(ordinary + (so_far + expert_ops(*config, parents@, name@)) =~= ordinary
                + so_far);
        }
        k = k + 1;
    }
    assert(names.take(k as int) =~= names);
    let ghost before = ops_view(operations@);
    let source: String = match &config.base_parent_id {
        Some(b) => b.clone(),
        None => primary.id.clone(),
    };
    operations.push(TensorOperation::CopyMetadata { parent_id: source });
    assert(ops_view(operations@) =~= planned_ops(*config, parents@));
    proof {
        if config.parents@.len() > 0 {
            planned_merges_have_sources(*config, parents@, names);
            expert_ops_have_sources(*config, parents@, names);
            let planned = tensor_ops(*config, parents@, names);
            let fanned = expert_tensor_ops(*config, parents@, names);
            assert forall|j: int| 0 <= j < operations@.len() implies op_has_source(
                #[trigger] operations@[j],
            ) by {
                assert(ops_view(operations@)[j] == operations@[j]@);
                if j < planned.len() {
                    assert(planned_ops(*config, parents@)[j] == planned[j]);
                    assert(view_has_source(planned[j]));
                } else if j < planned.len() + fanned.len() {
                    assert(planned_ops(*config, parents@)[j] == fanned[j - planned.len()]);
                    assert(view_has_source(fanned[j - planned.len()]));
                }
            }
        }
    }
    let total_tensors = operations.len();
    Ok(
        TensorMergePlan {
            operations,
            total_tensors,
            method: config.method,
            estimated_output_bytes: primary.file_size,
        },
    )
}

// ---------------------------------------------------------------------------
// Previewing
// ---------------------------------------------------------------------------

/// Where one tensor of the output comes from.
#[derive(Clone, Debug)]
pub struct TensorSourceInfo {
    pub tensor_name: String,
    pub operation: String,
    pub source_parents: Vec<String>,
}

/// The value of a `TensorSourceInfo`, with lists in place of vectors and
/// sequences of characters in place of strings.
pub struct TensorSourceView {
    pub tensor_name: Seq<char>,
    pub operation: Seq<char>,
    pub source_parents: Seq<Seq<char>>,
}

impl View for TensorSourceInfo {
    type V = TensorSourceView;

    open spec fn view(&self) -> TensorSourceView {
        TensorSourceView {
            tensor_name: self.tensor_name@,
            operation: self.operation@,
            source_parents: texts(self.source_parents@),
        }
    }
}

/// The values of a list of sources.
pub open spec fn sources_view(s: Seq<TensorSourceInfo>) -> Seq<TensorSourceView> {
    s.map_values(|t: TensorSourceInfo| t@)
}

/// What a plan will do, in numbers, and where each tensor comes from.
#[derive(Clone, Debug)]
pub struct MergePreview {
    pub total_operations: usize,
    pub copy_operations: usize,
    pub merge_operations: usize,
    pub synthesize_operations: usize,
    pub estimated_output_bytes: u64,
    pub estimated_output_display: String,
    pub tensor_sources: Vec<TensorSourceInfo>,
}

/// Where the tensor of an operation comes from; `None` for the operation
/// that carries over the accompanying files.
pub open spec fn source_of(op: OperationView) -> Option<TensorSourceView> {
    match op {
        OperationView::Copy { tensor_name, parent_id } => Some(
            TensorSourceView {
                tensor_name,
                operation: "copy"@,
                source_parents: seq![parent_id],
            },
        ),
        OperationView::Merge { tensor_name, parent_ids, weights } => Some(
            TensorSourceView { tensor_name, operation: "merge"@, source_parents: parent_ids },
        ),
        OperationView::Synthesize { tensor_name, shape, strategy } => Some(
            TensorSourceView {
                tensor_name,
                operation: "synthesize"@,
                source_parents: Seq::empty(),
            },
        ),
        OperationView::CopyMetadata { parent_id } => None,
    }
}

/// The sources of the tensors of a list of operations, in their order.
pub open spec fn sources_of(ops: Seq<OperationView>) -> Seq<TensorSourceView>
    decreases ops.len(),
{
    if ops.len() == 0 {
        Seq::empty()
    } else {
        let rest = sources_of(ops.drop_last());
        match source_of(ops.last()) {
            Some(s) => rest.push(s),
            None => rest,
        }
    }
}

/// The number of copies among the operations.
pub open spec fn copies_in(ops: Seq<OperationView>) -> nat {
    crate::seqs::count_where(ops, |op: OperationView| op is Copy)
}

/// The number of merges among the operations.
pub open spec fn merges_in(ops: Seq<OperationView>) -> nat {
    crate::seqs::count_where(ops, |op: OperationView| op is Merge)
}

/// The number of syntheses among the operations.
pub open spec fn syntheses_in(ops: Seq<OperationView>) -> nat {
    crate::seqs::count_where(ops, |op: OperationView| op is Synthesize)
}

fn copy_names(names: &Vec<String>) -> (r: Vec<String>)
    ensures
        texts(r@) == texts(names@),
{
    let mut out: Vec<String> = Vec::new();
    let mut i: usize = 0;
    while i < names.len()
        invariant
            i <= names.len(),
            out@.len() == i,
            forall|j: int| 0 <= j < i ==> (#[trigger] out@[j])@ == names@[j]@,
        decreases names.len() - i,
    {
        out.push(names[i].clone());
        i = i + 1;
    }
    assert(texts(out@) =~= texts(names@));
    out
}

fn describe(op: &TensorOperation) -> (r: Option<TensorSourceInfo>)
    ensures
        match r {
            Some(s) => source_of(op@) == Some(s@),
            None => source_of(op@) is None,
        },
{
    match op {
        TensorOperation::Copy { tensor_name, parent_id } => {
            let mut parents: Vec<String> = Vec::new();
            parents.push(parent_id.clone());
            assert(texts(parents@) =~= seq![parent_id@]);
            Some(
                TensorSourceInfo {
                    tensor_name: tensor_name.clone(),
                    operation: "copy".to_owned(),
                    source_parents: parents,
                },
            )
        },
        TensorOperation::Merge { tensor_name, parent_ids, weights } => Some(
            TensorSourceInfo {
                tensor_name: tensor_name.clone(),
                operation: "merge".to_owned(),
                source_parents: copy_names(parent_ids),
            },
        ),
        TensorOperation::Synthesize { tensor_name, shape, strategy } => {
            let parents: Vec<String> = Vec::new();
            assert(texts(parents@) =~= Seq::<Seq<char>>::empty());
            Some(
                TensorSourceInfo {
                    tensor_name: tensor_name.clone(),
                    operation: "synthesize".to_owned(),
                    source_parents: parents,
                },
            )
        },
        TensorOperation::CopyMetadata { parent_id } => None,
    }
}

/// Summarises the operations of a plan.
pub fn preview_of_plan(plan: &TensorMergePlan) -> (r: MergePreview)
    ensures
        r.total_operations == plan.total_tensors,
        r.copy_operations == copies_in(ops_view(plan.operations@)),
        r.merge_operations == merges_in(ops_view(plan.operations@)),
        r.synthesize_operations == syntheses_in(ops_view(plan.operations@)),
        r.estimated_output_bytes == plan.estimated_output_bytes,
        r.estimated_output_display@ == crate::numfmt::file_size_text(plan.estimated_output_bytes),
        sources_view(r.tensor_sources@) == sources_of(ops_view(plan.operations@)),
{
    let ghost ops = ops_view(plan.operations@);
    let ghost is_copy = |op: OperationView| op is Copy;
    let ghost is_merge = |op: OperationView| op is Merge;
    let ghost is_synth = |op: OperationView| op is Synthesize;
    let mut copies: usize = 0;
    let mut merges: usize = 0;
    let mut syntheses: usize = 0;
    let mut sources: Vec<TensorSourceInfo> = Vec::new();
    let mut i: usize = 0;
    assert(ops.take(0) =~= Seq::<OperationView>::empty());
    assert(sources_view(sources@) =~= sources_of(ops.take(0)));
    while i < plan.operations.len()
        invariant
            i <= plan.operations.len(),
            ops == ops_view(plan.operations@),
            is_copy == (|op: OperationView| op is Copy),
            is_merge == (|op: OperationView| op is Merge),
            is_synth == (|op: OperationView| op is Synthesize),
            copies == crate::seqs::count_where(ops.take(i as int), is_copy),
            merges == crate::seqs::count_where(ops.take(i as int), is_merge),
            syntheses == crate::seqs::count_where(ops.take(i as int), is_synth),
            copies <= i,
            merges <= i,
            syntheses <= i,
            sources_view(sources@) == sources_of(ops.take(i as int)),
        decreases plan.operations.len() - i,
    {
        let ghost before = sources_view(sources@);
        assert(ops.take(i + 1).drop_last() =~= ops.take(i as int));
        assert(ops.take(i + 1).last() == plan.operations@[i as int]@);
        match &plan.operations[i] {
            TensorOperation::Copy { tensor_name, parent_id } => {
                copies = copies + 1;
            },
            TensorOperation::Merge { tensor_name, parent_ids, weights } => {
                merges = merges + 1;
            },
            TensorOperation::Synthesize { tensor_name, shape, strategy } => {
                syntheses = syntheses + 1;
            },
            TensorOperation::CopyMetadata { parent_id } => {},
        }
        match describe(&plan.operations[i]) {
            Some(s) => {
                let ghost view = s@;
                sources.push(s);
                assert(sources_view(sources@) =~= before.push(view));
            },
            None => {},
        }
        i = i + 1;
    }
    assert(ops.take(i as int) =~= ops);
    MergePreview {
        total_operations: plan.total_tensors,
        copy_operations: copies,
        merge_operations: merges,
        synthesize_operations: syntheses,
        estimated_output_bytes: plan.estimated_output_bytes,
        estimated_output_display: crate::numfmt::format_file_size(plan.estimated_output_bytes),
        tensor_sources: sources,
    }
}

/// Plans the merge and summarises the plan.
///
/// Fails exactly when the registry is empty.
pub fn preview_plan(config: &MergeConfig, registry: &ParentRegistry) -> (r: Result<
    MergePreview,
    ModelError,
>)
    ensures
        match r {
            Ok(p) => {
                let ops = planned_ops(*config, registry@);
                &&& registry@.len() > 0
                &&& p.total_operations == ops.len()
                &&& p.copy_operations == copies_in(ops)
                &&& p.merge_operations == merges_in(ops)
                &&& p.synthesize_operations == syntheses_in(ops)
                &&& p.estimated_output_bytes == registry@[0].file_size
                &&& p.estimated_output_display@ == crate::numfmt::file_size_text(
                    registry@[0].file_size,
                )
                &&& sources_view(p.tensor_sources@) == sources_of(ops)
            },
            Err(e) => {
                &&& registry@.len() == 0
                &&& e@ == ModelErrorView::MergeError("No parents loaded"@)
            },
        },
{
    match build_plan(config, registry) {
        Ok(plan) => Ok(preview_of_plan(&plan)),
        Err(e) => Err(e),
    }
}

/// A merge names at least one parent.
pub open spec fn view_has_source(op: OperationView) -> bool {
    match op {
        OperationView::Merge { tensor_name, parent_ids, weights } => parent_ids.len() > 0,
        _ => true,
    }
}

/// A merge names at least one parent.
pub open spec fn op_has_source(op: TensorOperation) -> bool {
    match op {
        TensorOperation::Merge { tensor_name, parent_ids, weights } => parent_ids@.len() > 0,
        _ => true,
    }
}

/// Every merge of the list names at least one parent.
pub open spec fn ops_have_sources(ops: Seq<TensorOperation>) -> bool {
    forall|i: int| 0 <= i < ops.len() ==> op_has_source(#[trigger] ops[i])
}

/// Where the configuration names a parent, every merge of the plan names
/// at least one.
pub proof fn planned_merges_have_sources(
    config: MergeConfig,
    parents: Seq<ParentModel>,
    names: Seq<Seq<char>>,
)
    requires
        config.parents@.len() > 0,
    ensures
        forall|i: int|
            0 <= i < tensor_ops(config, parents, names).len() ==> view_has_source(
                #[trigger] tensor_ops(config, parents, names)[i],
            ),
    decreases names.len(),
{
    if names.len() > 0 {
        planned_merges_have_sources(config, parents, names.drop_last());
        let before = tensor_ops(config, parents, names.drop_last());
        let added = ops_for(config, parents, names.last());
        assert forall|i: int| 0 <= i < added.len() implies view_has_source(#[trigger] added[i]) by {
            assert(merged_ids(config).len() == config.parents@.len());
        }
        assert forall|i: int| 0 <= i < (before + added).len() implies view_has_source(
            #[trigger] (before + added)[i],
        ) by {
            if i < before.len() {
                assert((before + added)[i] == before[i]);
            } else {
                assert((before + added)[i] == added[i - before.len()]);
            }
        }
    }
}

/// The name of the tensor that an operation produces.
pub open spec fn produced_name(op: OperationView) -> Option<Seq<char>> {
    match op {
        OperationView::Copy { tensor_name, parent_id } => Some(tensor_name),
        OperationView::Merge { tensor_name, parent_ids, weights } => Some(tensor_name),
        OperationView::Synthesize { tensor_name, shape, strategy } => Some(tensor_name),
        OperationView::CopyMetadata { parent_id } => None,
    }
}

/// The expert and router tensors are copies and new tensors: none of them
/// is a merge, so each has what it needs.
pub proof fn expert_ops_have_sources(
    config: MergeConfig,
    parents: Seq<ParentModel>,
    names: Seq<Seq<char>>,
)
    ensures
        forall|i: int|
            0 <= i < expert_tensor_ops(config, parents, names).len() ==> view_has_source(
                #[trigger] expert_tensor_ops(config, parents, names)[i],
            ) && produced_name(expert_tensor_ops(config, parents, names)[i]) is Some,
    decreases names.len(),
{
    if names.len() > 0 {
        expert_ops_have_sources(config, parents, names.drop_last());
        let before = expert_tensor_ops(config, parents, names.drop_last());
        let added = expert_ops(config, parents, names.last());
        assert forall|i: int| 0 <= i < (before + added).len() implies view_has_source(
            #[trigger] (before + added)[i],
        ) && produced_name((before + added)[i]) is Some by {
            if i < before.len() {
                assert((before + added)[i] == before[i]);
            } else {
                assert((before + added)[i] == added[i - before.len()]);
            }
        }
    }
}

/// Unless the method converts to a mixture of experts, no tensor is fanned
/// out, and the plan holds exactly one operation for each tensor of the
/// first parent, in the order of its tensor list and under the tensor's own
/// name.
pub proof fn one_operation_per_tensor(
    config: MergeConfig,
    parents: Seq<ParentModel>,
    names: Seq<Seq<char>>,
)
    requires
        config.method != MergeMethod::MoeConversion,
    ensures
        expert_tensor_ops(config, parents, names).len() == 0,
        tensor_ops(config, parents, names).len() == names.len(),
        forall|i: int|
            0 <= i < names.len() ==> produced_name(#[trigger] tensor_ops(config, parents, names)[i])
                == Some(names[i]),
    decreases names.len(),
{
    if names.len() > 0 {
        one_operation_per_tensor(config, parents, names.drop_last());
        let before = tensor_ops(config, parents, names.drop_last());
        let added = ops_for(config, parents, names.last());
        assert(added.len() == 1);
        assert(produced_name(added[0]) == Some(names.last()));
        assert forall|i: int| 0 <= i < names.len() implies produced_name(
            #[trigger] (before + added)[i],
        ) == Some(names[i]) by {
            if i < before.len() {
                assert((before + added)[i] == before[i]);
                assert(names.drop_last()[i] == names[i]);
            } else {
                assert((before + added)[i] == added[0]);
            }
        }
    }
}

/// No name occurs twice in the list.
pub open spec fn names_differ(names: Seq<Seq<char>>) -> bool {
    forall|i: int, j: int| 0 <= i < j < names.len() ==> names[i] != names[j]
}

/// Where the tensor names of the first parent differ from each other and
/// the method does not convert to a mixture of experts, a tensor that an
/// override names has exactly one operation in the plan: the copy from the
/// parent that the override names, at the tensor's own place. Component
/// overrides, layer assignments and the method do not matter.
pub proof fn overridden_tensor_is_copied_once(
    config: MergeConfig,
    parents: Seq<ParentModel>,
    k: int,
)
    requires
        parents.len() > 0,
        config.method != MergeMethod::MoeConversion,
        names_differ(primary_names(parents)),
        0 <= k < primary_names(parents).len(),
        tensor_override_for(config, primary_names(parents)[k]) is Some,
    ensures
        planned_ops(config, parents).len() == primary_names(parents).len() + 1,
        planned_ops(config, parents)[k] == (OperationView::Copy {
            tensor_name: primary_names(parents)[k],
            parent_id: tensor_override_for(config, primary_names(parents)[k])->0,
        }),
        forall|i: int|
            0 <= i < planned_ops(config, parents).len() && i != k ==> produced_name(
                #[trigger] planned_ops(config, parents)[i],
            ) != Some(primary_names(parents)[k]),
{
    let names = primary_names(parents);
    let ops = tensor_ops(config, parents, names);
    one_operation_per_tensor(config, parents, names);
    assert(ops + expert_tensor_ops(config, parents, names) =~= ops);
    tensor_ops_at(config, parents, names, k);
    tensor_override_has_priority(config, parents, names[k]);
    let one = ops_for(config, parents, names[k]);
    assert(seq![ops[k]][0] == one[0]);
    assert(planned_ops(config, parents).len() == names.len() + 1);
    assert(planned_ops(config, parents)[k] == ops[k]);
    assert forall|i: int|
        0 <= i < planned_ops(config, parents).len() && i != k implies produced_name(
        #[trigger] planned_ops(config, parents)[i],
    ) != Some(names[k]) by {
        if i < names.len() {
            assert(planned_ops(config, parents)[i] == ops[i]);
            assert(produced_name(ops[i]) == Some(names[i]));
        }
    }
}

/// Unless the method converts to a mixture of experts, the operation at
/// the place of a tensor is the one operation for that tensor.
pub proof fn tensor_ops_at(
    config: MergeConfig,
    parents: Seq<ParentModel>,
    names: Seq<Seq<char>>,
    k: int,
)
    requires
        config.method != MergeMethod::MoeConversion,
        0 <= k < names.len(),
    ensures
        tensor_ops(config, parents, names).len() == names.len(),
        seq![tensor_ops(config, parents, names)[k]] == ops_for(config, parents, names[k]),
    decreases names.len(),
{
    one_operation_per_tensor(config, parents, names);
    one_operation_per_tensor(config, parents, names.drop_last());
    let before = tensor_ops(config, parents, names.drop_last());
    let added = ops_for(config, parents, names.last());
    assert(added.len() == 1);
    if k == names.len() - 1 {
        assert((before + added)[k] == added[0]);
        assert(seq![added[0]] =~= added);
    } else {
        tensor_ops_at(config, parents, names.drop_last(), k);
        assert((before + added)[k] == before[k]);
        assert(names.drop_last()[k] == names[k]);
    }
}

/// The copies of one tensor for the parents bear names that differ from
/// each other, and each holds the number of its expert.
pub proof fn expert_copies_bear_their_numbers(parents: Seq<ParentModel>, name: Seq<char>)
    ensures
        expert_copies(parents, name).len() == parents.len(),
        forall|i: int|
            0 <= i < parents.len() ==> produced_name(#[trigger] expert_copies(parents, name)[i])
                == Some(expert_name(name, i as nat)) && crate::text::contains(
                expert_name(name, i as nat),
                "experts."@ + decimal_text(i as nat),
            ),
        forall|i: int, j: int|
            0 <= i < j < parents.len() ==> produced_name(
                #[trigger] expert_copies(parents, name)[i],
            ) != produced_name(#[trigger] expert_copies(parents, name)[j]),
{
    assert forall|i: int| 0 <= i < parents.len() implies produced_name(
        #[trigger] expert_copies(parents, name)[i],
    ) == Some(expert_name(name, i as nat)) && crate::text::contains(
        expert_name(name, i as nat),
        "experts."@ + decimal_text(i as nat),
    ) by {
        crate::experts::expert_name_holds_its_number(name, i as nat);
    }
    assert forall|i: int, j: int| 0 <= i < j < parents.len() implies produced_name(
        #[trigger] expert_copies(parents, name)[i],
    ) != produced_name(#[trigger] expert_copies(parents, name)[j]) by {
        crate::experts::expert_names_differ(name, i as nat, j as nat);
    }
}

/// The order of the plan: first the operations that bear the names of the
/// tensors of the first parent, then the expert and router tensors, and
/// the carrying over of the accompanying files at the end; every operation
/// before that last one produces a tensor.
pub proof fn plan_order(config: MergeConfig, parents: Seq<ParentModel>)
    requires
        parents.len() > 0,
    ensures
        ({
            let names = primary_names(parents);
            let ordinary = tensor_ops(config, parents, names);
            let fanned = expert_tensor_ops(config, parents, names);
            let plan = planned_ops(config, parents);
            &&& plan.len() == ordinary.len() + fanned.len() + 1
            &&& forall|i: int| 0 <= i < ordinary.len() ==> plan[i] == #[trigger] ordinary[i]
            &&& forall|i: int|
                0 <= i < fanned.len() ==> plan[ordinary.len() + i] == #[trigger] fanned[i]
            &&& plan.last() == (OperationView::CopyMetadata {
                parent_id: metadata_source(config, parents),
            })
            &&& forall|i: int| 0 <= i < plan.len() - 1 ==> produced_name(#[trigger] plan[i]) is Some
        }),
{
    let names = primary_names(parents);
    tensor_ops_produce(config, parents, names);
    expert_ops_have_sources(config, parents, names);
    let ops = tensor_ops(config, parents, names);
    let fanned = expert_tensor_ops(config, parents, names);
    let plan = planned_ops(config, parents);
    assert forall|i: int| 0 <= i < plan.len() - 1 implies produced_name(#[trigger] plan[i])
        is Some by {
        if i < ops.len() {
            assert(plan[i] == ops[i]);
        } else {
            assert(plan[i] == fanned[i - ops.len()]);
        }
    }
}

/// Every operation for a tensor name produces a tensor.
pub proof fn tensor_ops_produce(config: MergeConfig, parents: Seq<ParentModel>, names: Seq<Seq<char>>)
    ensures
        forall|i: int|
            0 <= i < tensor_ops(config, parents, names).len() ==> produced_name(
                #[trigger] tensor_ops(config, parents, names)[i],
            ) is Some,
    decreases names.len(),
{
    if names.len() > 0 {
        tensor_ops_produce(config, parents, names.drop_last());
        let before = tensor_ops(config, parents, names.drop_last());
        let added = ops_for(config, parents, names.last());
        assert forall|i: int| 0 <= i < added.len() implies produced_name(#[trigger] added[i])
            is Some by {}
        assert forall|i: int| 0 <= i < (before + added).len() implies produced_name(
            #[trigger] (before + added)[i],
        ) is Some by {
            if i < before.len() {
                assert((before + added)[i] == before[i]);
            } else {
                assert((before + added)[i] == added[i - before.len()]);
            }
        }
    }
}

} // verus!
