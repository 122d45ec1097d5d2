//! The output manifest: the shape and the byte range of every tensor of the
//! output, computed from the plan and the parents' tensor lists alone.
//!
//! Tensors are stored densely with four bytes per element, one after the
//! other in the order of the plan.

use vstd::prelude::*;
use crate::error::{ModelError, ModelErrorView};
use crate::planner::{op_has_source, ops_have_sources, TensorOperation};
use crate::registry::{copy_shape, ParentModel, ParentRegistry};
use crate::seqs::{first_where, first_where_is_least};
use crate::text::{push_text, string_of};

verus! {

/// Shape and byte range of one tensor of the output.
#[derive(Clone, Debug)]
pub struct OutputTensorInfo {
    pub name: String,
    pub shape: Vec<usize>,
    pub f32_byte_size: u64,
    pub data_offset: u64,
}

/// The value of an `OutputTensorInfo`, with the name as a sequence of
/// characters and the shape as a list.
pub struct OutputTensorView {
    pub name: Seq<char>,
    pub shape: Seq<usize>,
    pub f32_byte_size: u64,
    pub data_offset: u64,
}

impl View for OutputTensorInfo {
    type V = OutputTensorView;

    open spec fn view(&self) -> OutputTensorView {
        OutputTensorView {
            name: self.name@,
            shape: self.shape@,
            f32_byte_size: self.f32_byte_size,
            data_offset: self.data_offset,
        }
    }
}

/// The values of a list of manifest entries.
pub open spec fn entries_view(s: Seq<OutputTensorInfo>) -> Seq<OutputTensorView> {
    s.map_values(|t: OutputTensorInfo| t@)
}

/// The tensors of the output and the size of their data.
#[derive(Clone, Debug)]
pub struct OutputManifest {
    pub tensors: Vec<OutputTensorInfo>,
    pub total_data_bytes: u64,
}

/// The number of elements of a tensor of the given shape: the product of
/// its dimensions, which is 1 for a shape without dimensions.
pub open spec fn shape_elems(shape: Seq<usize>) -> nat
    decreases shape.len(),
{
    if shape.len() == 0 {
        1
    } else {
        shape_elems(shape.drop_last()) * (shape.last() as nat)
    }
}

/// The bytes that a tensor of the given shape occupies at four bytes per
/// element.
pub open spec fn dense_bytes(shape: Seq<usize>) -> nat {
    shape_elems(shape) * 4
}

/// The text of the error for a parent that lacks a tensor.
pub open spec fn missing_tensor_text(tensor: Seq<char>, parent_name: Seq<char>) -> Seq<char> {
    "Tensor '"@ + tensor + "' not found in parent '"@ + parent_name + "'"@
}

/// The error for an output that is too large to address.
pub open spec fn too_large() -> ModelErrorView {
    ModelErrorView::MergeError("Output size exceeds the 64-bit range"@)
}

/// The shape of the tensor `name` as the parent with the id `parent_id`
/// declares it.
pub open spec fn parent_shape(parents: Seq<ParentModel>, parent_id: Seq<char>, name: Seq<char>) -> Result<
    Seq<usize>,
    ModelErrorView,
> {
    match first_where(parents, |p: ParentModel| p.id@ == parent_id) {
        None => Err(ModelErrorView::ParentNotFound(parent_id)),
        Some(i) => match parents[i].compat.shape_of(name) {
            None => Err(ModelErrorView::MergeError(missing_tensor_text(name, parents[i].name@))),
            Some(shape) => Ok(shape),
        },
    }
}

/// Name and shape of the tensor that an operation produces; `None` for the
/// operation that carries over the accompanying files. A copy has the shape
/// that its parent declares, a merge the shape that its first parent
/// declares, a synthesis its own.
pub open spec fn op_tensor(op: TensorOperation, parents: Seq<ParentModel>) -> Result<
    Option<(Seq<char>, Seq<usize>)>,
    ModelErrorView,
>
    recommends
        op_has_source(op),
{
    match op {
        TensorOperation::Copy { tensor_name, parent_id } => match parent_shape(
            parents,
            parent_id@,
            tensor_name@,
        ) {
            Ok(shape) => Ok(Some((tensor_name@, shape))),
            Err(e) => Err(e),
        },
        TensorOperation::Merge { tensor_name, parent_ids, weights } => match parent_shape(
            parents,
            parent_ids@[0]@,
            tensor_name@,
        ) {
            Ok(shape) => Ok(Some((tensor_name@, shape))),
            Err(e) => Err(e),
        },
        TensorOperation::Synthesize { tensor_name, shape, strategy } => Ok(
            Some((tensor_name@, shape@)),
        ),
        TensorOperation::CopyMetadata { parent_id } => Ok(None),
    }
}

/// The byte at which the data of the listed tensors ends.
pub open spec fn data_end(entries: Seq<OutputTensorView>) -> nat {
    if entries.len() == 0 {
        0
    } else {
        (entries.last().data_offset + entries.last().f32_byte_size) as nat
    }
}

/// The manifest of a list of operations: each tensor starts where the one
/// before it ends. It fails with the error of the first operation whose
/// tensor cannot be resolved or whose data would end beyond the 64-bit
/// range.
pub open spec fn manifest_of(ops: Seq<TensorOperation>, parents: Seq<ParentModel>) -> Result<
    Seq<OutputTensorView>,
    ModelErrorView,
>
    decreases ops.len(),
{
    if ops.len() == 0 {
        Ok(Seq::empty())
    } else {
        match manifest_of(ops.drop_last(), parents) {
            Err(e) => Err(e),
            Ok(entries) => match op_tensor(ops.last(), parents) {
                Err(e) => Err(e),
                Ok(None) => Ok(entries),
                Ok(Some((name, shape))) => {
                    if data_end(entries) + dense_bytes(shape) > u64::MAX {
                        Err(too_large())
                    } else {
                        Ok(
                            entries.push(
                                OutputTensorView {
                                    name,
                                    shape,
                                    f32_byte_size: dense_bytes(shape) as u64,
                                    data_offset: data_end(entries) as u64,
                                },
                            ),
                        )
                    }
                },
            },
        }
    }
}

/// In a manifest the first tensor starts at byte 0, each further tensor
/// starts where the one before it ends, so that the byte ranges follow one
/// another without gap or overlap and the sizes add up to the end of the
/// data. Each entry's size is that of its shape.
pub proof fn manifest_is_contiguous(ops: Seq<TensorOperation>, parents: Seq<ParentModel>)
    requires
        manifest_of(ops, parents) is Ok,
    ensures
        ({
            let m = manifest_of(ops, parents)->Ok_0;
            &&& m.len() > 0 ==> m[0].data_offset == 0
            &&& forall|i: int|
                0 <= i < m.len() - 1 ==> (#[trigger] m[i]).data_offset + m[i].f32_byte_size == m[i
                    + 1].data_offset
            &&& forall|i: int|
                0 <= i < m.len() ==> (#[trigger] m[i]).f32_byte_size == dense_bytes(m[i].shape)
            &&& forall|i: int, j: int|
                0 <= i < j < m.len() ==> (#[trigger] m[i]).data_offset + m[i].f32_byte_size <= (
                #[trigger] m[j]).data_offset
            &&& forall|i: int|
                0 <= i < m.len() ==> (#[trigger] m[i]).data_offset + m[i].f32_byte_size
                    <= data_end(m)
            &&& m.len() <= ops.len()
        }),
    decreases ops.len(),
{
    if ops.len() > 0 {
        let prev_ops = ops.drop_last();
        manifest_is_contiguous(prev_ops, parents);
        let prev = manifest_of(prev_ops, parents)->Ok_0;
        let m = manifest_of(ops, parents)->Ok_0;
        if m.len() > prev.len() {
            assert(m.drop_last() =~= prev);
            assert forall|i: int| 0 <= i < m.len() - 1 implies (#[trigger] m[i]).data_offset
                + m[i].f32_byte_size == m[i + 1].data_offset by {
                if i < prev.len() - 1 {
                    assert(m[i] == prev[i]);
                    assert(m[i + 1] == prev[i + 1]);
                } else {
                    assert(m[i] == prev.last());
                }
            }
            assert forall|i: int, j: int| 0 <= i < j < m.len() implies (#[trigger] m[i]).data_offset
                + m[i].f32_byte_size <= (#[trigger] m[j]).data_offset by {
                assert(m[i] == prev[i]);
                if j < prev.len() {
                    assert(m[j] == prev[j]);
                }
            }
            assert forall|i: int| 0 <= i < m.len() implies (#[trigger] m[i]).f32_byte_size
                == dense_bytes(m[i].shape) by {
                if i < prev.len() {
                    assert(m[i] == prev[i]);
                }
            }
            assert forall|i: int| 0 <= i < m.len() implies (#[trigger] m[i]).data_offset
                + m[i].f32_byte_size <= data_end(m) by {
                if i < prev.len() {
                    assert(m[i] == prev[i]);
                }
            }
            if prev.len() > 0 {
                assert(m[0] == prev[0]);
            }
        }
    }
}

/// Where no tensor of a manifest is empty, the offsets increase strictly.
pub proof fn manifest_offsets_increase(ops: Seq<TensorOperation>, parents: Seq<ParentModel>)
    requires
        manifest_of(ops, parents) is Ok,
        forall|i: int|
            0 <= i < manifest_of(ops, parents)->Ok_0.len() ==> (#[trigger] manifest_of(
                ops,
                parents,
            )->Ok_0[i]).f32_byte_size > 0,
    ensures
        forall|i: int, j: int|
            0 <= i < j < manifest_of(ops, parents)->Ok_0.len() ==> (#[trigger] manifest_of(
                ops,
                parents,
            )->Ok_0[i]).data_offset < (#[trigger] manifest_of(ops, parents)->Ok_0[j]).data_offset,
{
    manifest_is_contiguous(ops, parents);
}

/// The product of two numbers, where it fits in 64 bits.
pub fn times(a: u64, b: u64) -> (r: Option<u64>)
    ensures
        r == (if a * b <= u64::MAX {
            Some((a * b) as u64)
        } else {
            None::<u64>
        }),
{
    assert(a * b <= 0xFFFF_FFFF_FFFF_FFFF * 0xFFFF_FFFF_FFFF_FFFF) by (nonlinear_arith)
        requires
            a <= 0xFFFF_FFFF_FFFF_FFFF,
            b <= 0xFFFF_FFFF_FFFF_FFFF,
    ;
    let wide: u128 = (a as u128) * (b as u128);
    if wide <= u64::MAX as u128 {
        Some(wide as u64)
    } else {
        None
    }
}

proof fn elems_zero(shape: Seq<usize>, z: int)
    requires
        0 <= z < shape.len(),
        shape[z] == 0,
    ensures
        shape_elems(shape) == 0,
    decreases shape.len(),
{
    if z == shape.len() - 1 {
        assert(shape_elems(shape.drop_last()) * 0 == 0);
    } else {
        elems_zero(shape.drop_last(), z);
        assert(0 * (shape.last() as nat) == 0);
    }
}

proof fn elems_grow(shape: Seq<usize>, k: int)
    requires
        0 <= k <= shape.len(),
        forall|i: int| 0 <= i < shape.len() ==> #[trigger] shape[i] > 0,
    ensures
        1 <= shape_elems(shape.take(k)) <= shape_elems(shape),
    decreases shape.len() - k,
{
    elems_at_least_one(shape, k);
    if k == shape.len() {
        assert(shape.take(k) =~= shape);
    } else {
        elems_grow(shape, k + 1);
        assert(shape.take(k + 1).drop_last() =~= shape.take(k));
        let a = shape_elems(shape.take(k));
        let d = shape[k] as nat;
        assert(a * d >= a) by (nonlinear_arith)
            requires
                a >= 1,
                d >= 1,
        ;
    }
}

proof fn elems_at_least_one(shape: Seq<usize>, k: int)
    requires
        0 <= k <= shape.len(),
        forall|i: int| 0 <= i < shape.len() ==> #[trigger] shape[i] > 0,
    ensures
        1 <= shape_elems(shape.take(k)),
    decreases k,
{
    if k == 0 {
        assert(shape.take(0) =~= Seq::<usize>::empty());
    } else {
        elems_at_least_one(shape, k - 1);
        assert(shape.take(k).drop_last() =~= shape.take(k - 1));
        let a = shape_elems(shape.take(k - 1));
        let d = shape[k - 1] as nat;
        assert(a * d >= 1) by (nonlinear_arith)
            requires
                a >= 1,
                d >= 1,
        ;
    }
}

/// The number of elements of a tensor of the given shape, where it fits in
/// 64 bits.
pub fn count_elements(shape: &[usize]) -> (r: Option<u64>)
    ensures
        r == (if shape_elems(shape@) <= u64::MAX {
            Some(shape_elems(shape@) as u64)
        } else {
            None::<u64>
        }),
{
    let mut z: usize = 0;
    while z < shape.len()
        invariant
            z <= shape.len(),
            forall|i: int| 0 <= i < z ==> #[trigger] shape@[i] > 0,
        decreases shape.len() - z,
    {
        if shape[z] == 0 {
            proof {
                elems_zero(shape@, z as int);
            }
            return Some(0);
        }
        z = z + 1;
    }
    let mut elems: u64 = 1;
    let mut i: usize = 0;
    assert(shape@.take(0) =~= Seq::<usize>::empty());
    while i < shape.len()
        invariant
            i <= shape.len(),
            forall|k: int| 0 <= k < shape.len() ==> #[trigger] shape@[k] > 0,
            elems == shape_elems(shape@.take(i as int)),
        decreases shape.len() - i,
    {
        proof {
            assert(shape@.take(i + 1).drop_last() =~= shape@.take(i as int));
            elems_grow(shape@, i + 1);
        }
        match times(elems, shape[i] as u64) {
            Some(next) => {
                elems = next;
            },
            None => {
                return None;
            },
        }
        i = i + 1;
    }
    assert(shape@.take(i as int) =~= shape@);
    Some(elems)
}

/// The bytes that a tensor of the given shape occupies at four bytes per
/// element, where that fits in 64 bits.
pub fn compute_f32_byte_size(shape: &[usize]) -> (r: Option<u64>)
    ensures
        r == (if dense_bytes(shape@) <= u64::MAX {
            Some(dense_bytes(shape@) as u64)
        } else {
            None::<u64>
        }),
{
    match count_elements(shape) {
        Some(n) => times(n, 4),
        None => None,
    }
}

/// Looks up the shape that a parent declares for a tensor.
fn resolve_shape(registry: &ParentRegistry, parent_id: &String, name: &String) -> (r: Result<
    Vec<usize>,
    ModelError,
>)
    ensures
        match r {
            Ok(shape) => parent_shape(registry@, parent_id@, name@) == Ok::<
                Seq<usize>,
                ModelErrorView,
            >(shape@),
            Err(e) => parent_shape(registry@, parent_id@, name@) == Err::<
                Seq<usize>,
                ModelErrorView,
            >(e@),
        },
{
    match registry.get(parent_id.as_str()) {
        None => Err(ModelError::ParentNotFound(parent_id.clone())),
        Some(parent) => {
            proof {
                first_where_is_least(registry@, |p: ParentModel| p.id@ == parent_id@);
            }
            match parent.compat.tensor_shape(name.as_str()) {
                None => {
                    let mut msg: Vec<char> = Vec::new();
                    push_text(&mut msg, "Tensor '");
                    push_text(&mut msg, name.as_str());
                    push_text(&mut msg, "' not found in parent '");
                    push_text(&mut msg, parent.name.as_str());
                    push_text(&mut msg, "'");
                    assert(msg@ =~= missing_tensor_text(name@, parent.name@));
                    Err(ModelError::MergeError(string_of(msg.as_slice())))
                },
                Some(shape) => {
                    let mut out: Vec<usize> = Vec::new();
                    let mut i: usize = 0;
                    while i < shape.len()
                        invariant
                            i <= shape.len(),
                            out@ == shape@.take(i as int),
                        decreases shape.len() - i,
                    {
                        out.push(shape[i]);
                        i = i + 1;
                        assert(out@ =~= shape@.take(i as int));
                    }
                    assert(shape@.take(shape.len() as int) =~= shape@);
                    Ok(out)
                },
            }
        },
    }
}

/// Computes the manifest of a plan's operations.
///
/// Every merge among the operations must name at least one parent.
pub fn build_output_manifest(operations: &[TensorOperation], registry: &ParentRegistry) -> (r:
    Result<OutputManifest, ModelError>)
    requires
        ops_have_sources(operations@),
    ensures
        match r {
            Ok(m) => {
                &&& manifest_of(operations@, registry@) == Ok::<
                    Seq<OutputTensorView>,
                    ModelErrorView,
                >(entries_view(m.tensors@))
                &&& m.total_data_bytes == data_end(entries_view(m.tensors@))
            },
            Err(e) => manifest_of(operations@, registry@) == Err::<
                Seq<OutputTensorView>,
                ModelErrorView,
            >(e@),
        },
{
    let mut tensors: Vec<OutputTensorInfo> = Vec::new();
    let mut current_offset: u64 = 0;
    let mut i: usize = 0;
    assert(operations@.take(0) =~= Seq::<TensorOperation>::empty());
    assert(entries_view(tensors@) =~= Seq::<OutputTensorView>::empty());
    while i < operations.len()
        invariant
            i <= operations.len(),
            ops_have_sources(operations@),
            manifest_of(operations@.take(i as int), registry@) == Ok::<
                Seq<OutputTensorView>,
                ModelErrorView,
            >(entries_view(tensors@)),
            current_offset == data_end(entries_view(tensors@)),
        decreases operations.len() - i,
    {
        let ghost done = operations@.take(i as int);
        let ghost next = operations@.take(i + 1);
        let ghost entries = entries_view(tensors@);
        proof {
            assert(next.drop_last() =~= done);
            assert(next.last() == operations@[i as int]);
            assert(op_has_source(operations@[i as int]));
        }
        let resolved: Option<(String, Vec<usize>)> = match &operations[i] {
            TensorOperation::Copy { tensor_name, parent_id } => {
                match resolve_shape(registry, parent_id, tensor_name) {
                    Ok(shape) => Some((tensor_name.clone(), shape)),
                    Err(e) => {
                        proof {
                            assert(manifest_of(next, registry@) is Err);
                            lemma_first_failure(operations@, registry@, i + 1);
                        }
                        return Err(e);
                    },
                }
            },
            TensorOperation::Merge { tensor_name, parent_ids, weights } => {
                match resolve_shape(registry, &parent_ids[0], tensor_name) {
                    Ok(shape) => Some((tensor_name.clone(), shape)),
                    Err(e) => {
                        proof {
                            assert(manifest_of(next, registry@) is Err);
                            lemma_first_failure(operations@, registry@, i + 1);
                        }
                        return Err(e);
                    },
                }
            },
            TensorOperation::Synthesize { tensor_name, shape, strategy } => Some(
                (tensor_name.clone(), copy_shape(shape)),
            ),
            TensorOperation::CopyMetadata { parent_id } => None,
        };
        match resolved {
            None => {},
            Some((name, shape)) => {
                let size = compute_f32_byte_size(shape.as_slice());
                let fits = match size {
                    Some(s) => s <= u64::MAX - current_offset,
                    None => false,
                };
                if !fits {
                    proof {
                        assert(manifest_of(next, registry@) == Err::<
                            Seq<OutputTensorView>,
                            ModelErrorView,
                        >(too_large()));
                        lemma_first_failure(operations@, registry@, i + 1);
                    }
                    return Err(
                        ModelError::MergeError("Output size exceeds the 64-bit range".to_owned()),
                    );
                }
                let byte_size: u64 = size.unwrap();
                tensors.push(
                    OutputTensorInfo {
                        name,
                        shape,
                        f32_byte_size: byte_size,
                        data_offset: current_offset,
                    },
                );
                proof {
                    assert(entries_view(tensors@) =~= entries.push(tensors@.last()@));
                }
                current_offset = current_offset + byte_size;
            },
        }
        i = i + 1;
    }
    assert(operations@.take(i as int) =~= operations@);
    Ok(OutputManifest { tensors, total_data_bytes: current_offset })
}

/// Once the manifest of the first `k` operations fails, the manifest of all
/// of them fails with the same error.
proof fn lemma_first_failure(ops: Seq<TensorOperation>, parents: Seq<ParentModel>, k: int)
    requires
        0 <= k <= ops.len(),
        manifest_of(ops.take(k), parents) is Err,
    ensures
        manifest_of(ops, parents) == manifest_of(ops.take(k), parents),
    decreases ops.len() - k,
{
    if k == ops.len() {
        assert(ops.take(k) =~= ops);
    } else {
        assert(ops.take(k + 1).drop_last() =~= ops.take(k));
        lemma_first_failure(ops, parents, k + 1);
    }
}

} // verus!
