//! The merge methods: what each is called, whether it needs a base tensor,
//! how many parents it asks for, and what it refuses before any arithmetic
//! is done. The arithmetic itself works on floating-point tensors and is
//! not part of this library.

use vstd::prelude::*;
use crate::config::MergeMethod;
use crate::error::{ModelError, ModelErrorView};
use crate::text::{decimal_text, push_decimal, push_text, string_of};

verus! {

/// The name of a method's strategy.
pub open spec fn strategy_name(m: MergeMethod) -> Seq<char> {
    match m {
        MergeMethod::Average => "Average"@,
        MergeMethod::Slerp => "SLERP"@,
        MergeMethod::TaskArithmetic => "Task Arithmetic"@,
        MergeMethod::Frankenmerge => "Frankenmerge"@,
        MergeMethod::Dare => "DARE"@,
        MergeMethod::Ties => "TIES"@,
        MergeMethod::Della => "DELLA"@,
        MergeMethod::Passthrough => "Passthrough"@,
        MergeMethod::ComponentMerge => "Component Merge"@,
        MergeMethod::TensorSurgery => "Tensor Surgery"@,
        MergeMethod::ParameterSlice => "Parameter Slice"@,
        MergeMethod::MoeConversion => "MoE Conversion"@,
    }
}

/// Why a method refuses to merge `count` tensors, with or without a base
/// tensor; `None` where it does not refuse. A method that computes task
/// vectors refuses where the base tensor is missing; spherical
/// interpolation refuses any number of tensors but two; slicing refuses
/// fewer than two; every other method refuses none at all.
pub open spec fn refusal(m: MergeMethod, count: nat, has_base: bool) -> Option<Seq<char>> {
    match m {
        MergeMethod::Average => if count == 0 {
            Some("No tensors to average"@)
        } else {
            None
        },
        MergeMethod::Slerp => if count != 2 {
            Some("SLERP requires exactly 2 tensors"@)
        } else {
            None
        },
        MergeMethod::TaskArithmetic => if !has_base {
            Some("Task Arithmetic requires a base model"@)
        } else {
            None
        },
        MergeMethod::Frankenmerge => if count == 0 {
            Some("No tensors provided"@)
        } else {
            None
        },
        MergeMethod::Dare => if !has_base {
            Some("DARE requires a base model"@)
        } else {
            None
        },
        MergeMethod::Ties => if !has_base {
            Some("TIES requires a base model"@)
        } else {
            None
        },
        MergeMethod::Della => if !has_base {
            Some("DELLA requires a base model"@)
        } else {
            None
        },
        MergeMethod::Passthrough => if count == 0 {
            Some("No tensor to pass through"@)
        } else {
            None
        },
        MergeMethod::ComponentMerge => if count == 0 {
            Some("No tensors for component merge"@)
        } else {
            None
        },
        MergeMethod::TensorSurgery => if count == 0 {
            Some("No tensors for tensor surgery"@)
        } else {
            None
        },
        MergeMethod::ParameterSlice => if count < 2 {
            Some("Parameter Slice requires at least 2 tensors"@)
        } else {
            None
        },
        MergeMethod::MoeConversion => if count == 0 {
            Some("No tensors for MoE conversion"@)
        } else {
            None
        },
    }
}

/// The name of a method's strategy.
pub fn name_of(m: MergeMethod) -> (r: &'static str)
    ensures
        r@ == strategy_name(m),
{
    match m {
        MergeMethod::Average => "Average",
        MergeMethod::Slerp => "SLERP",
        MergeMethod::TaskArithmetic => "Task Arithmetic",
        MergeMethod::Frankenmerge => "Frankenmerge",
        MergeMethod::Dare => "DARE",
        MergeMethod::Ties => "TIES",
        MergeMethod::Della => "DELLA",
        MergeMethod::Passthrough => "Passthrough",
        MergeMethod::ComponentMerge => "Component Merge",
        MergeMethod::TensorSurgery => "Tensor Surgery",
        MergeMethod::ParameterSlice => "Parameter Slice",
        MergeMethod::MoeConversion => "MoE Conversion",
    }
}

/// Checks whether a method accepts `count` tensors, with or without a base
/// tensor.
pub fn check_inputs(m: MergeMethod, count: usize, has_base: bool) -> (r: Result<(), ModelError>)
    ensures
        match r {
            Ok(_) => refusal(m, count as nat, has_base) is None,
            Err(e) => refusal(m, count as nat, has_base) is Some && e@ == ModelErrorView::MergeError(
                refusal(m, count as nat, has_base)->0,
            ),
        },
{
    let refused: Option<&'static str> = match m {
        MergeMethod::Average => if count == 0 {
            Some("No tensors to average")
        } else {
            None
        },
        MergeMethod::Slerp => if count != 2 {
            Some("SLERP requires exactly 2 tensors")
        } else {
            None
        },
        MergeMethod::TaskArithmetic => if !has_base {
            Some("Task Arithmetic requires a base model")
        } else {
            None
        },
        MergeMethod::Frankenmerge => if count == 0 {
            Some("No tensors provided")
        } else {
            None
        },
        MergeMethod::Dare => if !has_base {
            Some("DARE requires a base model")
        } else {
            None
        },
        MergeMethod::Ties => if !has_base {
            Some("TIES requires a base model")
        } else {
            None
        },
        MergeMethod::Della => if !has_base {
            Some("DELLA requires a base model")
        } else {
            None
        },
        MergeMethod::Passthrough => if count == 0 {
            Some("No tensor to pass through")
        } else {
            None
        },
        MergeMethod::ComponentMerge => if count == 0 {
            Some("No tensors for component merge")
        } else {
            None
        },
        MergeMethod::TensorSurgery => if count == 0 {
            Some("No tensors for tensor surgery")
        } else {
            None
        },
        MergeMethod::ParameterSlice => if count < 2 {
            Some("Parameter Slice requires at least 2 tensors")
        } else {
            None
        },
        MergeMethod::MoeConversion => if count == 0 {
            Some("No tensors for MoE conversion")
        } else {
            None
        },
    };
    match refused {
        Some(msg) => Err(ModelError::MergeError(msg.to_owned())),
        None => Ok(()),
    }
}

/// The text of the error for a slice dimension that the tensor lacks.
pub open spec fn slice_dim_text(slice_dim: nat, rank: nat) -> Seq<char> {
    "Slice dimension "@ + decimal_text(slice_dim) + " exceeds tensor rank "@ + decimal_text(rank)
}

/// The dimension along which slices are taken: the configured one, or the
/// first where none is configured. It must be one of the tensor's.
pub fn slice_dimension(configured: Option<usize>, rank: usize) -> (r: Result<usize, ModelError>)
    ensures
        match r {
            Ok(d) => d == (match configured {
                Some(c) => c,
                None => 0,
            }) && d < rank,
            Err(e) => {
                let d = match configured {
                    Some(c) => c,
                    None => 0,
                };
                d >= rank && e@ == ModelErrorView::MergeError(slice_dim_text(d as nat, rank as nat))
            },
        },
{
    let d: usize = match configured {
        Some(c) => c,
        None => 0,
    };
    if d >= rank {
        let mut msg: Vec<char> = Vec::new();
        push_text(&mut msg, "Slice dimension ");
        push_decimal(&mut msg, d as u64);
        push_text(&mut msg, " exceeds tensor rank ");
        push_decimal(&mut msg, rank as u64);
        assert(msg@ =~= slice_dim_text(d as nat, rank as nat));
        return Err(ModelError::MergeError(string_of(msg.as_slice())));
    }
    Ok(d)
}

/// Whether the configured ranges are used for slicing: they are where there
/// is one range per tensor.
pub fn uses_ranges(ranges: &Option<Vec<(usize, usize)>>, count: usize) -> (r: bool)
    ensures
        r == (ranges matches Some(list) && list@.len() == count),
{
    match ranges {
        Some(list) => list.len() == count,
        None => false,
    }
}

/// The normalized weighted sum of the parents' tensors.
#[derive(Clone, Copy, Debug, Default)]
pub struct AverageMerge;

impl AverageMerge {
    /// The method that this strategy carries out.
    pub open spec fn method() -> MergeMethod {
        MergeMethod::Average
    }

    /// The name of the strategy.
    pub fn name(&self) -> (r: &'static str)
        ensures
            r@ == strategy_name(MergeMethod::Average),
    {
        "Average"
    }

    /// Whether the strategy needs the tensor of a base model.
    pub fn requires_base(&self) -> (r: bool)
        ensures
            r == MergeMethod::Average.spec_requires_base(),
    {
        false
    }

    /// The least number of tensors that the strategy takes.
    pub fn min_parents(&self) -> (r: usize)
        ensures
            r == MergeMethod::Average.spec_min_parents(),
    {
        2
    }

    /// Checks whether the strategy accepts `count` tensors, with or without
    /// a base tensor.
    pub fn check(&self, count: usize, has_base: bool) -> (r: Result<(), ModelError>)
        ensures
            match r {
                Ok(_) => refusal(MergeMethod::Average, count as nat, has_base) is None,
                Err(e) => refusal(MergeMethod::Average, count as nat, has_base) is Some && e@
                    == ModelErrorView::MergeError(
                    refusal(MergeMethod::Average, count as nat, has_base)->0,
                ),
            },
    {
        check_inputs(MergeMethod::Average, count, has_base)
    }
}

/// Spherical interpolation between two parents' tensors.
#[derive(Clone, Copy, Debug, Default)]
pub struct SlerpMerge;

impl SlerpMerge {
    /// The method that this strategy carries out.
    pub open spec fn method() -> MergeMethod {
        MergeMethod::Slerp
    }

    /// The name of the strategy.
    pub fn name(&self) -> (r: &'static str)
        ensures
            r@ == strategy_name(MergeMethod::Slerp),
    {
        "SLERP"
    }

    /// Whether the strategy needs the tensor of a base model.
    pub fn requires_base(&self) -> (r: bool)
        ensures
            r == MergeMethod::Slerp.spec_requires_base(),
    {
        false
    }

    /// The least number of tensors that the strategy takes.
    pub fn min_parents(&self) -> (r: usize)
        ensures
            r == MergeMethod::Slerp.spec_min_parents(),
    {
        2
    }

    /// Checks whether the strategy accepts `count` tensors, with or without
    /// a base tensor.
    pub fn check(&self, count: usize, has_base: bool) -> (r: Result<(), ModelError>)
        ensures
            match r {
                Ok(_) => refusal(MergeMethod::Slerp, count as nat, has_base) is None,
                Err(e) => refusal(MergeMethod::Slerp, count as nat, has_base) is Some && e@
                    == ModelErrorView::MergeError(
                    refusal(MergeMethod::Slerp, count as nat, has_base)->0,
                ),
            },
    {
        check_inputs(MergeMethod::Slerp, count, has_base)
    }
}

/// The base tensor plus the scaled sum of the weighted task vectors.
#[derive(Clone, Copy, Debug, Default)]
pub struct TaskArithmeticMerge;

impl TaskArithmeticMerge {
    /// The method that this strategy carries out.
    pub open spec fn method() -> MergeMethod {
        MergeMethod::TaskArithmetic
    }

    /// The name of the strategy.
    pub fn name(&self) -> (r: &'static str)
        ensures
            r@ == strategy_name(MergeMethod::TaskArithmetic),
    {
        "Task Arithmetic"
    }

    /// Whether the strategy needs the tensor of a base model.
    pub fn requires_base(&self) -> (r: bool)
        ensures
            r == MergeMethod::TaskArithmetic.spec_requires_base(),
    {
        true
    }

    /// The least number of tensors that the strategy takes.
    pub fn min_parents(&self) -> (r: usize)
        ensures
            r == MergeMethod::TaskArithmetic.spec_min_parents(),
    {
        2
    }

    /// Checks whether the strategy accepts `count` tensors, with or without
    /// a base tensor.
    pub fn check(&self, count: usize, has_base: bool) -> (r: Result<(), ModelError>)
        ensures
            match r {
                Ok(_) => refusal(MergeMethod::TaskArithmetic, count as nat, has_base) is None,
                Err(e) => refusal(MergeMethod::TaskArithmetic, count as nat, has_base) is Some && e@
                    == ModelErrorView::MergeError(
                    refusal(MergeMethod::TaskArithmetic, count as nat, has_base)->0,
                ),
            },
    {
        check_inputs(MergeMethod::TaskArithmetic, count, has_base)
    }
}

/// The tensor of the parent with the greatest weight.
#[derive(Clone, Copy, Debug, Default)]
pub struct FrankenmergeMerge;

impl FrankenmergeMerge {
    /// The method that this strategy carries out.
    pub open spec fn method() -> MergeMethod {
        MergeMethod::Frankenmerge
    }

    /// The name of the strategy.
    pub fn name(&self) -> (r: &'static str)
        ensures
            r@ == strategy_name(MergeMethod::Frankenmerge),
    {
        "Frankenmerge"
    }

    /// Whether the strategy needs the tensor of a base model.
    pub fn requires_base(&self) -> (r: bool)
        ensures
            r == MergeMethod::Frankenmerge.spec_requires_base(),
    {
        false
    }

    /// The least number of tensors that the strategy takes.
    pub fn min_parents(&self) -> (r: usize)
        ensures
            r == MergeMethod::Frankenmerge.spec_min_parents(),
    {
        2
    }

    /// Checks whether the strategy accepts `count` tensors, with or without
    /// a base tensor.
    pub fn check(&self, count: usize, has_base: bool) -> (r: Result<(), ModelError>)
        ensures
            match r {
                Ok(_) => refusal(MergeMethod::Frankenmerge, count as nat, has_base) is None,
                Err(e) => refusal(MergeMethod::Frankenmerge, count as nat, has_base) is Some && e@
                    == ModelErrorView::MergeError(
                    refusal(MergeMethod::Frankenmerge, count as nat, has_base)->0,
                ),
            },
    {
        check_inputs(MergeMethod::Frankenmerge, count, has_base)
    }
}

/// Task vectors with random dropout and rescaling, added to the base tensor.
#[derive(Clone, Copy, Debug, Default)]
pub struct DareMerge;

impl DareMerge {
    /// The method that this strategy carries out.
    pub open spec fn method() -> MergeMethod {
        MergeMethod::Dare
    }

    /// The name of the strategy.
    pub fn name(&self) -> (r: &'static str)
        ensures
            r@ == strategy_name(MergeMethod::Dare),
    {
        "DARE"
    }

    /// Whether the strategy needs the tensor of a base model.
    pub fn requires_base(&self) -> (r: bool)
        ensures
            r == MergeMethod::Dare.spec_requires_base(),
    {
        true
    }

    /// The least number of tensors that the strategy takes.
    pub fn min_parents(&self) -> (r: usize)
        ensures
            r == MergeMethod::Dare.spec_min_parents(),
    {
        2
    }

    /// Checks whether the strategy accepts `count` tensors, with or without
    /// a base tensor.
    pub fn check(&self, count: usize, has_base: bool) -> (r: Result<(), ModelError>)
        ensures
            match r {
                Ok(_) => refusal(MergeMethod::Dare, count as nat, has_base) is None,
                Err(e) => refusal(MergeMethod::Dare, count as nat, has_base) is Some && e@
                    == ModelErrorView::MergeError(
                    refusal(MergeMethod::Dare, count as nat, has_base)->0,
                ),
            },
    {
        check_inputs(MergeMethod::Dare, count, has_base)
    }
}

/// Trimmed task vectors, merged where their signs agree with the elected sign.
#[derive(Clone, Copy, Debug, Default)]
pub struct TiesMerge;

impl TiesMerge {
    /// The method that this strategy carries out.
    pub open spec fn method() -> MergeMethod {
        MergeMethod::Ties
    }

    /// The name of the strategy.
    pub fn name(&self) -> (r: &'static str)
        ensures
            r@ == strategy_name(MergeMethod::Ties),
    {
        "TIES"
    }

    /// Whether the strategy needs the tensor of a base model.
    pub fn requires_base(&self) -> (r: bool)
        ensures
            r == MergeMethod::Ties.spec_requires_base(),
    {
        true
    }

    /// The least number of tensors that the strategy takes.
    pub fn min_parents(&self) -> (r: usize)
        ensures
            r == MergeMethod::Ties.spec_min_parents(),
    {
        2
    }

    /// Checks whether the strategy accepts `count` tensors, with or without
    /// a base tensor.
    pub fn check(&self, count: usize, has_base: bool) -> (r: Result<(), ModelError>)
        ensures
            match r {
                Ok(_) => refusal(MergeMethod::Ties, count as nat, has_base) is None,
                Err(e) => refusal(MergeMethod::Ties, count as nat, has_base) is Some && e@
                    == ModelErrorView::MergeError(
                    refusal(MergeMethod::Ties, count as nat, has_base)->0,
                ),
            },
    {
        check_inputs(MergeMethod::Ties, count, has_base)
    }
}

/// Task vectors with magnitude-dependent dropout, added to the base tensor.
#[derive(Clone, Copy, Debug, Default)]
pub struct DellaMerge;

impl DellaMerge {
    /// The method that this strategy carries out.
    pub open spec fn method() -> MergeMethod {
        MergeMethod::Della
    }

    /// The name of the strategy.
    pub fn name(&self) -> (r: &'static str)
        ensures
            r@ == strategy_name(MergeMethod::Della),
    {
        "DELLA"
    }

    /// Whether the strategy needs the tensor of a base model.
    pub fn requires_base(&self) -> (r: bool)
        ensures
            r == MergeMethod::Della.spec_requires_base(),
    {
        true
    }

    /// The least number of tensors that the strategy takes.
    pub fn min_parents(&self) -> (r: usize)
        ensures
            r == MergeMethod::Della.spec_min_parents(),
    {
        2
    }

    /// Checks whether the strategy accepts `count` tensors, with or without
    /// a base tensor.
    pub fn check(&self, count: usize, has_base: bool) -> (r: Result<(), ModelError>)
        ensures
            match r {
                Ok(_) => refusal(MergeMethod::Della, count as nat, has_base) is None,
                Err(e) => refusal(MergeMethod::Della, count as nat, has_base) is Some && e@
                    == ModelErrorView::MergeError(
                    refusal(MergeMethod::Della, count as nat, has_base)->0,
                ),
            },
    {
        check_inputs(MergeMethod::Della, count, has_base)
    }
}

/// The first tensor as it is.
#[derive(Clone, Copy, Debug, Default)]
pub struct PassthroughMerge;

impl PassthroughMerge {
    /// The method that this strategy carries out.
    pub open spec fn method() -> MergeMethod {
        MergeMethod::Passthrough
    }

    /// The name of the strategy.
    pub fn name(&self) -> (r: &'static str)
        ensures
            r@ == strategy_name(MergeMethod::Passthrough),
    {
        "Passthrough"
    }

    /// Whether the strategy needs the tensor of a base model.
    pub fn requires_base(&self) -> (r: bool)
        ensures
            r == MergeMethod::Passthrough.spec_requires_base(),
    {
        false
    }

    /// The least number of tensors that the strategy takes.
    pub fn min_parents(&self) -> (r: usize)
        ensures
            r == MergeMethod::Passthrough.spec_min_parents(),
    {
        1
    }

    /// Checks whether the strategy accepts `count` tensors, with or without
    /// a base tensor.
    pub fn check(&self, count: usize, has_base: bool) -> (r: Result<(), ModelError>)
        ensures
            match r {
                Ok(_) => refusal(MergeMethod::Passthrough, count as nat, has_base) is None,
                Err(e) => refusal(MergeMethod::Passthrough, count as nat, has_base) is Some && e@
                    == ModelErrorView::MergeError(
                    refusal(MergeMethod::Passthrough, count as nat, has_base)->0,
                ),
            },
    {
        check_inputs(MergeMethod::Passthrough, count, has_base)
    }
}

/// The normalized weighted average, for tensors that no component override routes.
#[derive(Clone, Copy, Debug, Default)]
pub struct ComponentMergeMerge;

impl ComponentMergeMerge {
    /// The method that this strategy carries out.
    pub open spec fn method() -> MergeMethod {
        MergeMethod::ComponentMerge
    }

    /// The name of the strategy.
    pub fn name(&self) -> (r: &'static str)
        ensures
            r@ == strategy_name(MergeMethod::ComponentMerge),
    {
        "Component Merge"
    }

    /// Whether the strategy needs the tensor of a base model.
    pub fn requires_base(&self) -> (r: bool)
        ensures
            r == MergeMethod::ComponentMerge.spec_requires_base(),
    {
        false
    }

    /// The least number of tensors that the strategy takes.
    pub fn min_parents(&self) -> (r: usize)
        ensures
            r == MergeMethod::ComponentMerge.spec_min_parents(),
    {
        2
    }

    /// Checks whether the strategy accepts `count` tensors, with or without
    /// a base tensor.
    pub fn check(&self, count: usize, has_base: bool) -> (r: Result<(), ModelError>)
        ensures
            match r {
                Ok(_) => refusal(MergeMethod::ComponentMerge, count as nat, has_base) is None,
                Err(e) => refusal(MergeMethod::ComponentMerge, count as nat, has_base) is Some && e@
                    == ModelErrorView::MergeError(
                    refusal(MergeMethod::ComponentMerge, count as nat, has_base)->0,
                ),
            },
    {
        check_inputs(MergeMethod::ComponentMerge, count, has_base)
    }
}

/// The tensor of the parent with the greatest weight.
#[derive(Clone, Copy, Debug, Default)]
pub struct TensorSurgeryMerge;

impl TensorSurgeryMerge {
    /// The method that this strategy carries out.
    pub open spec fn method() -> MergeMethod {
        MergeMethod::TensorSurgery
    }

    /// The name of the strategy.
    pub fn name(&self) -> (r: &'static str)
        ensures
            r@ == strategy_name(MergeMethod::TensorSurgery),
    {
        "Tensor Surgery"
    }

    /// Whether the strategy needs the tensor of a base model.
    pub fn requires_base(&self) -> (r: bool)
        ensures
            r == MergeMethod::TensorSurgery.spec_requires_base(),
    {
        false
    }

    /// The least number of tensors that the strategy takes.
    pub fn min_parents(&self) -> (r: usize)
        ensures
            r == MergeMethod::TensorSurgery.spec_min_parents(),
    {
        2
    }

    /// Checks whether the strategy accepts `count` tensors, with or without
    /// a base tensor.
    pub fn check(&self, count: usize, has_base: bool) -> (r: Result<(), ModelError>)
        ensures
            match r {
                Ok(_) => refusal(MergeMethod::TensorSurgery, count as nat, has_base) is None,
                Err(e) => refusal(MergeMethod::TensorSurgery, count as nat, has_base) is Some && e@
                    == ModelErrorView::MergeError(
                    refusal(MergeMethod::TensorSurgery, count as nat, has_base)->0,
                ),
            },
    {
        check_inputs(MergeMethod::TensorSurgery, count, has_base)
    }
}

/// Slices of the parents' tensors along one dimension, joined.
#[derive(Clone, Copy, Debug, Default)]
pub struct ParameterSliceMerge;

impl ParameterSliceMerge {
    /// The method that this strategy carries out.
    pub open spec fn method() -> MergeMethod {
        MergeMethod::ParameterSlice
    }

    /// The name of the strategy.
    pub fn name(&self) -> (r: &'static str)
        ensures
            r@ == strategy_name(MergeMethod::ParameterSlice),
    {
        "Parameter Slice"
    }

    /// Whether the strategy needs the tensor of a base model.
    pub fn requires_base(&self) -> (r: bool)
        ensures
            r == MergeMethod::ParameterSlice.spec_requires_base(),
    {
        false
    }

    /// The least number of tensors that the strategy takes.
    pub fn min_parents(&self) -> (r: usize)
        ensures
            r == MergeMethod::ParameterSlice.spec_min_parents(),
    {
        2
    }

    /// Checks whether the strategy accepts `count` tensors, with or without
    /// a base tensor.
    pub fn check(&self, count: usize, has_base: bool) -> (r: Result<(), ModelError>)
        ensures
            match r {
                Ok(_) => refusal(MergeMethod::ParameterSlice, count as nat, has_base) is None,
                Err(e) => refusal(MergeMethod::ParameterSlice, count as nat, has_base) is Some && e@
                    == ModelErrorView::MergeError(
                    refusal(MergeMethod::ParameterSlice, count as nat, has_base)->0,
                ),
            },
    {
        check_inputs(MergeMethod::ParameterSlice, count, has_base)
    }
}

/// The normalized weighted average, for tensors that do not become experts.
#[derive(Clone, Copy, Debug, Default)]
pub struct MoeConversionMerge;

impl MoeConversionMerge {
    /// The method that this strategy carries out.
    pub open spec fn method() -> MergeMethod {
        MergeMethod::MoeConversion
    }

    /// The name of the strategy.
    pub fn name(&self) -> (r: &'static str)
        ensures
            r@ == strategy_name(MergeMethod::MoeConversion),
    {
        "MoE Conversion"
    }

    /// Whether the strategy needs the tensor of a base model.
    pub fn requires_base(&self) -> (r: bool)
        ensures
            r == MergeMethod::MoeConversion.spec_requires_base(),
    {
        false
    }

    /// The least number of tensors that the strategy takes.
    pub fn min_parents(&self) -> (r: usize)
        ensures
            r == MergeMethod::MoeConversion.spec_min_parents(),
    {
        2
    }

    /// Checks whether the strategy accepts `count` tensors, with or without
    /// a base tensor.
    pub fn check(&self, count: usize, has_base: bool) -> (r: Result<(), ModelError>)
        ensures
            match r {
                Ok(_) => refusal(MergeMethod::MoeConversion, count as nat, has_base) is None,
                Err(e) => refusal(MergeMethod::MoeConversion, count as nat, has_base) is Some && e@
                    == ModelErrorView::MergeError(
                    refusal(MergeMethod::MoeConversion, count as nat, has_base)->0,
                ),
            },
    {
        check_inputs(MergeMethod::MoeConversion, count, has_base)
    }
}

/// Given two tensors, a method refuses a missing base tensor exactly when
/// it requires a base, and refuses nothing where the base tensor is there.
pub proof fn base_is_required_where_declared(m: MergeMethod)
    ensures
        refusal(m, 2, false) is Some <==> m.spec_requires_base(),
        refusal(m, 2, true) is None,
{
}

/// A method accepts as many tensors as the parents it asks for, given a
/// base tensor; spherical interpolation accepts two and no more.
pub proof fn min_parents_suffice(m: MergeMethod, count: nat)
    requires
        count >= m.spec_min_parents(),
        m == MergeMethod::Slerp ==> count == 2,
    ensures
        refusal(m, count, true) is None,
{
}

/// Spherical interpolation takes exactly two tensors.
pub proof fn interpolation_takes_two(count: nat, has_base: bool)
    ensures
        refusal(MergeMethod::Slerp, count, has_base) is None <==> count == 2,
{
}

} // verus!
