//! The declarative description of one merge.
//!
//! Real-valued settings (weights, interpolation factors, densities) are
//! carried as the bit patterns of double-precision numbers: planning passes
//! them through and never computes with them.

use vstd::prelude::*;
use vstd::std_specs::convert::FromSpecImpl;

verus! {

/// The algorithm that combines the parents' tensors.
#[derive(Clone, Copy, Debug, PartialEq, Eq, Structural, Hash)]
pub enum MergeMethod {
    Average,
    Slerp,
    TaskArithmetic,
    Frankenmerge,
    Dare,
    Ties,
    Della,
    Passthrough,
    ComponentMerge,
    TensorSurgery,
    ParameterSlice,
    MoeConversion,
}

impl MergeMethod {
    /// The method's name in capitals.
    pub open spec fn spec_display_name(self) -> Seq<char> {
        match self {
            MergeMethod::Average => "AVERAGE"@,
            MergeMethod::Slerp => "SLERP"@,
            MergeMethod::TaskArithmetic => "TASK ARITHMETIC"@,
            MergeMethod::Frankenmerge => "FRANKENMERGE"@,
            MergeMethod::Dare => "DARE"@,
            MergeMethod::Ties => "TIES"@,
            MergeMethod::Della => "DELLA"@,
            MergeMethod::Passthrough => "PASSTHROUGH"@,
            MergeMethod::ComponentMerge => "COMPONENT MERGE"@,
            MergeMethod::TensorSurgery => "TENSOR SURGERY"@,
            MergeMethod::ParameterSlice => "PARAMETER SLICE"@,
            MergeMethod::MoeConversion => "MOE CONVERSION"@,
        }
    }

    /// One sentence on what the method does.
    pub open spec fn spec_description(self) -> Seq<char> {
        match self {
            MergeMethod::Average => "Simple weighted average of tensors"@,
            MergeMethod::Slerp => "Spherical linear interpolation between two models"@,
            MergeMethod::TaskArithmetic => "Add task vectors to a base model"@,
            MergeMethod::Frankenmerge => "Stack layers from different models"@,
            MergeMethod::Dare => "Drop and rescale: random dropout with rescaling"@,
            MergeMethod::Ties => "Trim, elect sign, merge: task-specific merging"@,
            MergeMethod::Della => "Density-based DARE with lambda interpolation"@,
            MergeMethod::Passthrough => "Direct copy of tensors from a single parent"@,
            MergeMethod::ComponentMerge => "Route attention/MLP/norm to different parents"@,
            MergeMethod::TensorSurgery => "Per-tensor source mapping from parents"@,
            MergeMethod::ParameterSlice => "Dimensional slicing across parents"@,
            MergeMethod::MoeConversion => "Convert dense models to Mixture-of-Experts"@,
        }
    }

    /// The method computes task vectors, so it needs a base parent.
    pub open spec fn spec_requires_base(self) -> bool {
        self == MergeMethod::TaskArithmetic || self == MergeMethod::Dare || self
            == MergeMethod::Ties || self == MergeMethod::Della
    }

    /// The least number of parents that the method accepts.
    pub open spec fn spec_min_parents(self) -> usize {
        if self == MergeMethod::Passthrough {
            1
        } else {
            2
        }
    }

    /// How demanding the method is to use.
    pub open spec fn spec_difficulty(self) -> Seq<char> {
        match self {
            MergeMethod::Average | MergeMethod::Slerp | MergeMethod::Passthrough => "easy"@,
            MergeMethod::TaskArithmetic
            | MergeMethod::Frankenmerge
            | MergeMethod::Dare
            | MergeMethod::Ties => "intermediate"@,
            MergeMethod::Della
            | MergeMethod::ComponentMerge
            | MergeMethod::TensorSurgery
            | MergeMethod::ParameterSlice
            | MergeMethod::MoeConversion => "advanced"@,
        }
    }

    /// The method copies whole tensors and never combines two.
    pub open spec fn copies_layers(self) -> bool {
        self == MergeMethod::Frankenmerge || self == MergeMethod::Passthrough
    }

    /// Every method, in the order of their declaration.
    pub open spec fn spec_all() -> Seq<MergeMethod> {
        seq![
            MergeMethod::Average,
            MergeMethod::Slerp,
            MergeMethod::TaskArithmetic,
            MergeMethod::Frankenmerge,
            MergeMethod::Dare,
            MergeMethod::Ties,
            MergeMethod::Della,
            MergeMethod::Passthrough,
            MergeMethod::ComponentMerge,
            MergeMethod::TensorSurgery,
            MergeMethod::ParameterSlice,
            MergeMethod::MoeConversion,
        ]
    }

    /// The name of the method as it is shown.
    pub fn display_name(&self) -> (r: &'static str)
        ensures
            r@ == self.spec_display_name(),
    {
        match self {
            MergeMethod::Average => "AVERAGE",
            MergeMethod::Slerp => "SLERP",
            MergeMethod::TaskArithmetic => "TASK ARITHMETIC",
            MergeMethod::Frankenmerge => "FRANKENMERGE",
            MergeMethod::Dare => "DARE",
            MergeMethod::Ties => "TIES",
            MergeMethod::Della => "DELLA",
            MergeMethod::Passthrough => "PASSTHROUGH",
            MergeMethod::ComponentMerge => "COMPONENT MERGE",
            MergeMethod::TensorSurgery => "TENSOR SURGERY",
            MergeMethod::ParameterSlice => "PARAMETER SLICE",
            MergeMethod::MoeConversion => "MOE CONVERSION",
        }
    }

    /// What the method does, in a sentence.
    pub fn description(&self) -> (r: &'static str)
        ensures
            r@ == self.spec_description(),
    {
        match self {
            MergeMethod::Average => "Simple weighted average of tensors",
            MergeMethod::Slerp => "Spherical linear interpolation between two models",
            MergeMethod::TaskArithmetic => "Add task vectors to a base model",
            MergeMethod::Frankenmerge => "Stack layers from different models",
            MergeMethod::Dare => "Drop and rescale: random dropout with rescaling",
            MergeMethod::Ties => "Trim, elect sign, merge: task-specific merging",
            MergeMethod::Della => "Density-based DARE with lambda interpolation",
            MergeMethod::Passthrough => "Direct copy of tensors from a single parent",
            MergeMethod::ComponentMerge => "Route attention/MLP/norm to different parents",
            MergeMethod::TensorSurgery => "Per-tensor source mapping from parents",
            MergeMethod::ParameterSlice => "Dimensional slicing across parents",
            MergeMethod::MoeConversion => "Convert dense models to Mixture-of-Experts",
        }
    }

    /// Whether the method merges differences from a base model.
    pub fn requires_base(&self) -> (r: bool)
        ensures
            r == self.spec_requires_base(),
    {
        match self {
            MergeMethod::TaskArithmetic
            | MergeMethod::Dare
            | MergeMethod::Ties
            | MergeMethod::Della => true,
            _ => false,
        }
    }

    /// The least number of parents that the method takes.
    pub fn min_parents(&self) -> (r: usize)
        ensures
            r == self.spec_min_parents(),
    {
        match self {
            MergeMethod::Passthrough => 1,
            _ => 2,
        }
    }

    /// How demanding the method is to use.
    pub fn difficulty(&self) -> (r: &'static str)
        ensures
            r@ == self.spec_difficulty(),
    {
        match self {
            MergeMethod::Average | MergeMethod::Slerp | MergeMethod::Passthrough => "easy",
            MergeMethod::TaskArithmetic
            | MergeMethod::Frankenmerge
            | MergeMethod::Dare
            | MergeMethod::Ties => "intermediate",
            MergeMethod::Della
            | MergeMethod::ComponentMerge
            | MergeMethod::TensorSurgery
            | MergeMethod::ParameterSlice
            | MergeMethod::MoeConversion => "advanced",
        }
    }

    /// All methods, in the order in which they are offered.
    pub fn all() -> (r: &'static [MergeMethod])
        ensures
            r@ == MergeMethod::spec_all(),
    {
        &[
            MergeMethod::Average,
            MergeMethod::Slerp,
            MergeMethod::TaskArithmetic,
            MergeMethod::Frankenmerge,
            MergeMethod::Dare,
            MergeMethod::Ties,
            MergeMethod::Della,
            MergeMethod::Passthrough,
            MergeMethod::ComponentMerge,
            MergeMethod::TensorSurgery,
            MergeMethod::ParameterSlice,
            MergeMethod::MoeConversion,
        ]
    }
}

/// Every method is listed by `MergeMethod::all`.
pub proof fn all_methods_listed(m: MergeMethod)
    ensures
        MergeMethod::spec_all().contains(m),
{
    let all = MergeMethod::spec_all();
    match m {
        MergeMethod::Average => assert(all[0] == m),
        MergeMethod::Slerp => assert(all[1] == m),
        MergeMethod::TaskArithmetic => assert(all[2] == m),
        MergeMethod::Frankenmerge => assert(all[3] == m),
        MergeMethod::Dare => assert(all[4] == m),
        MergeMethod::Ties => assert(all[5] == m),
        MergeMethod::Della => assert(all[6] == m),
        MergeMethod::Passthrough => assert(all[7] == m),
        MergeMethod::ComponentMerge => assert(all[8] == m),
        MergeMethod::TensorSurgery => assert(all[9] == m),
        MergeMethod::ParameterSlice => assert(all[10] == m),
        MergeMethod::MoeConversion => assert(all[11] == m),
    }
}

/// The container format of the merged model.
#[derive(Clone, Copy, Debug, PartialEq, Eq, Structural)]
pub enum OutputFormat {
    SafeTensors,
    Gguf,
}

/// Where and under which name the merged model is written.
#[derive(Clone, Debug)]
pub struct OutputConfig {
    pub format: OutputFormat,
    pub path: String,
    pub model_name: String,
}

/// One parent of the merge and its weight.
#[derive(Clone, Debug)]
pub struct ParentWeight {
    pub parent_id: String,
    /// The weight, as the bits of a double-precision number.
    pub weight_bits: u64,
}

/// The parent that one layer of the offspring is taken from.
#[derive(Clone, Debug)]
pub struct LayerAssignment {
    pub layer_index: u64,
    pub source_parent_id: String,
}

/// The part of a layer that a component override speaks of.
#[derive(Clone, Copy, Debug, PartialEq, Eq, Structural)]
pub enum ComponentType {
    Attention,
    Mlp,
    Norm,
}

/// The parent that one kind of component is taken from, over a range of
/// layers (both ends included).
#[derive(Clone, Debug)]
pub struct ComponentOverride {
    pub component: ComponentType,
    pub parent_id: String,
    pub layer_start: u64,
    pub layer_end: u64,
}

/// The parent that one named tensor is taken from.
#[derive(Clone, Debug)]
pub struct TensorOverride {
    pub tensor_name: String,
    pub parent_id: String,
}

/// The settings of the individual methods; each is absent unless given.
/// Real numbers are carried as the bits of double-precision numbers.
#[derive(Clone, Debug)]
pub struct MethodParams {
    pub t: Option<u64>,
    pub scaling: Option<u64>,
    pub density: Option<u64>,
    pub majority_sign_method: Option<String>,
    pub trim_threshold: Option<u64>,
    pub lambda: Option<u64>,
    pub della_density: Option<u64>,
    pub num_experts: Option<usize>,
    pub experts_per_token: Option<usize>,
    pub slice_dim: Option<usize>,
    pub slice_ranges: Option<Vec<(usize, usize)>>,
}

impl Default for MethodParams {
    fn default() -> (r: MethodParams)
        ensures
            r.t is None,
            r.scaling is None,
            r.density is None,
            r.majority_sign_method is None,
            r.trim_threshold is None,
            r.lambda is None,
            r.della_density is None,
            r.num_experts is None,
            r.experts_per_token is None,
            r.slice_dim is None,
            r.slice_ranges is None,
    {
        MethodParams {
            t: None,
            scaling: None,
            density: None,
            majority_sign_method: None,
            trim_threshold: None,
            lambda: None,
            della_density: None,
            num_experts: None,
            experts_per_token: None,
            slice_dim: None,
            slice_ranges: None,
        }
    }
}

/// Everything that describes one merge.
#[derive(Clone, Debug)]
pub struct MergeConfig {
    pub parents: Vec<ParentWeight>,
    pub method: MergeMethod,
    pub params: MethodParams,
    pub base_parent_id: Option<String>,
    pub layer_assignments: Vec<LayerAssignment>,
    pub component_overrides: Vec<ComponentOverride>,
    pub tensor_overrides: Vec<TensorOverride>,
    pub output: OutputConfig,
    pub memory_limit_mb: Option<u64>,
    pub projection_strategy: Option<String>,
    pub skip_layers: Vec<u64>,
    pub batch_size: usize,
}

/// The batch size of a configuration that names none.
pub fn default_batch_size() -> (r: usize)
    ensures
        r == 1,
{
    1
}

/// What a method tells about itself.
#[derive(Clone, Debug)]
pub struct MergeMethodInfo {
    pub id: MergeMethod,
    pub name: String,
    pub description: String,
    pub requires_base: bool,
    pub min_parents: usize,
    pub difficulty: String,
}

impl MergeMethodInfo {
    /// The record describes the method `m`.
    pub open spec fn describes(self, m: MergeMethod) -> bool {
        &&& self.id == m
        &&& self.name@ == m.spec_display_name()
        &&& self.description@ == m.spec_description()
        &&& self.requires_base == m.spec_requires_base()
        &&& self.min_parents == m.spec_min_parents()
        &&& self.difficulty@ == m.spec_difficulty()
    }
}

impl From<MergeMethod> for MergeMethodInfo {
    fn from(m: MergeMethod) -> (r: MergeMethodInfo)
        ensures
            r.describes(m),
    {
        MergeMethodInfo {
            id: m,
            name: m.display_name().to_owned(),
            description: m.description().to_owned(),
            requires_base: m.requires_base(),
            min_parents: m.min_parents(),
            difficulty: m.difficulty().to_owned(),
        }
    }
}

impl FromSpecImpl<MergeMethod> for MergeMethodInfo {
    open spec fn obeys_from_spec() -> bool {
        false
    }

    open spec fn from_spec(m: MergeMethod) -> MergeMethodInfo {
        choose|r: MergeMethodInfo| r.describes(m)
    }
}

} // verus!
