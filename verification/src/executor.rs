//! The course of one merge, as a machine that is driven from outside.
//!
//! The machine decides what is done next; its driver does it (reads and
//! writes files, computes tensors, reports progress) and tells the machine
//! how it went. A merge passes through these stages: validating, planning,
//! opening the output, merging tensor by tensor in the order of the plan,
//! finalizing, copying the accompanying files, verifying.
//!
//! Before anything is planned or written, a merge is refused whose
//! configuration names fewer parents than the method asks for, or lacks the
//! base parent that the method needs.
//!
//! The driver samples the cancellation flag before each call. A set flag
//! ends the merge with the cancellation error: before the manifest is built,
//! before the output is opened, before each operation and before the output
//! is finalized. Whenever a merge ends with an error after the output has
//! been opened, the driver is told to remove the output file and the
//! directory that was made for it: a merge that fails leaves no output.

use vstd::prelude::*;
use crate::config::{MergeConfig, OutputFormat};
use crate::error::{ModelError, ModelErrorView};
use crate::model::{copy_opt_string, opt_text, ModelFormat};
use crate::numfmt::{file_size_text, format_file_size};
use crate::planner::{op_has_source, ops_have_sources, texts, TensorMergePlan, TensorOperation};
use crate::precompute::{build_output_manifest, entries_view, manifest_of, OutputManifest};
use crate::registry::{copy_shape, ParentModel, ParentRegistry};
use crate::seqs::{count_where, count_where_bound, first_where};
use crate::text::{decimal_text, push_decimal, push_text, str_eq, string_of};
use crate::validation::{
    missing_parent_text, no_base_message, no_base_text, too_few_message, too_few_text,
};

verus! {

/// The announcement of a stage.
#[derive(Clone, Debug)]
pub struct MergePhase {
    pub phase: String,
    pub detail: String,
}

/// How far a merge has come, in percent.
#[derive(Clone, Copy, Debug, PartialEq, Eq, Structural)]
pub enum Percent {
    /// This many percent.
    Fixed(u8),
    /// Ten percent plus eighty times the share of the operations that are
    /// done.
    Merging,
}

/// A report of progress.
#[derive(Clone, Debug)]
pub struct MergeProgress {
    pub stage: String,
    pub percent: Percent,
    pub message: String,
    pub current_tensor: Option<String>,
    pub tensors_done: usize,
    pub tensors_total: usize,
}

/// What a finished merge has produced.
#[derive(Clone, Debug)]
pub struct MergeResult {
    pub output_path: String,
    pub output_size: u64,
    pub output_size_display: String,
    pub tensors_written: usize,
    pub method: String,
    pub copied_files: Vec<String>,
}

/// Something to tell whoever watches the merge.
#[derive(Clone, Debug)]
pub enum Notice {
    Phase(MergePhase),
    Progress(MergeProgress),
}

/// A directory: the one at a path, or the one that holds the file at a
/// path.
#[derive(Clone, Debug)]
pub enum Folder {
    At(String),
    ParentOf(String),
}

/// The value of a `Folder`, with the path as a sequence of characters.
pub enum FolderView {
    At(Seq<char>),
    ParentOf(Seq<char>),
}

impl View for Folder {
    type V = FolderView;

    open spec fn view(&self) -> FolderView {
        match *self {
            Folder::At(p) => FolderView::At(p@),
            Folder::ParentOf(p) => FolderView::ParentOf(p@),
        }
    }
}

/// How the output is opened.
#[derive(Clone, Debug)]
pub enum WriterSetup {
    /// A SafeTensors file of the given name in a directory that is created
    /// where it is missing.
    SafeTensors { directory: String, file_name: String },
    /// A GGUF file. Its metadata is taken over from `source_gguf` where
    /// that is given; else it is made from the compatibility record of the
    /// parent at the position `parent` and from the files in `config_dir`.
    Gguf {
        file_path: String,
        model_name: String,
        source_gguf: Option<String>,
        parent: usize,
        config_dir: Option<Folder>,
    },
}

/// One parent tensor of a merge.
#[derive(Clone, Copy, Debug)]
pub struct Source {
    /// The position of the parent in the registry.
    pub parent: usize,
    /// The weight, as the bits of a double-precision number.
    pub weight_bits: u64,
}

/// Where the base tensor of a merge comes from.
#[derive(Clone, Copy, Debug, PartialEq, Eq, Structural)]
pub enum BaseTensor {
    /// The method uses none.
    Absent,
    /// The tensor of the same name of the parent at this position.
    FromParent(usize),
}

/// What the driver does next.
#[derive(Debug)]
pub enum Work {
    Nothing,
    OpenWriter { setup: WriterSetup, manifest: OutputManifest },
    CopyTensor { tensor_name: String, parent: usize },
    MergeTensors {
        tensor_name: String,
        sources: Vec<Source>,
        base: BaseTensor,
        projection: Option<String>,
    },
    SynthesizeTensor { tensor_name: String, shape: Vec<usize>, random: bool },
    FinishWriter,
    CopyAuxiliary { source: Option<Folder>, target: Folder, files: Vec<String> },
    MeasureOutput { path: String },
    /// The merge has failed. Where a path is given, the file there is
    /// removed; where a directory is given, it is removed with all that it
    /// holds.
    Abort { remove_output: Option<String>, remove_directory: Option<String>, error: ModelError },
    /// The merge is done.
    Complete { result: MergeResult },
}

/// What the driver announces, and then does.
#[derive(Debug)]
pub struct MergeAction {
    pub notices: Vec<Notice>,
    pub work: Work,
}

/// How the work that the driver was given went.
#[derive(Debug)]
pub enum MergeEvent {
    /// The work is done.
    Done,
    /// The output is open; this is the path of its file, and the
    /// directory that was made for it where one was made.
    Opened { file_path: String, created_directory: Option<String> },
    /// These accompanying files were copied.
    Copied { files: Vec<String> },
    /// The output has this many bytes.
    Measured { size: u64 },
    /// The work failed.
    Failed(ModelError),
}

/// The stages of a merge.
#[derive(Clone, Copy, Debug, PartialEq, Eq, Structural)]
pub enum MergeStage {
    Validating,
    Planning,
    Opening,
    Merging,
    Finalizing,
    Copying,
    Verifying,
    Finished,
}

/// The state of a merge between two steps.
#[derive(Debug)]
pub struct MergeRun {
    pub stage: MergeStage,
    /// The position in the plan of the operation that is under way, or of
    /// the next one where none is.
    pub next_op: usize,
    pub tensors_done: usize,
    /// The number of operations that produce a tensor.
    pub total_ops: usize,
    pub manifest: Option<OutputManifest>,
    pub output_file: Option<String>,
    /// The directory that was made for the output, where one was made.
    pub created_directory: Option<String>,
    pub copied_files: Vec<String>,
}

// ---------------------------------------------------------------------------
// What notices say
// ---------------------------------------------------------------------------

/// The notice announces the stage `phase` with the words `detail`.
pub open spec fn is_phase(n: Notice, phase: Seq<char>, detail: Seq<char>) -> bool {
    n matches Notice::Phase(p) && p.phase@ == phase && p.detail@ == detail
}

/// The notice reports this progress.
pub open spec fn is_progress(
    n: Notice,
    stage: Seq<char>,
    percent: Percent,
    message: Seq<char>,
    tensor: Option<Seq<char>>,
    done: usize,
    total: usize,
) -> bool {
    n matches Notice::Progress(p) && p.stage@ == stage && p.percent == percent && p.message@
        == message && opt_text(p.current_tensor) == tensor && p.tensors_done == done
        && p.tensors_total == total
}

/// The operation produces a tensor.
pub open spec fn makes_tensor(op: TensorOperation) -> bool {
    !(op is CopyMetadata)
}

/// The number of operations of a plan that produce a tensor.
pub open spec fn tensor_ops_in(ops: Seq<TensorOperation>) -> nat {
    count_where(ops, |op: TensorOperation| makes_tensor(op))
}

fn phase(name: &str, detail: &str) -> (n: Notice)
    ensures
        is_phase(n, name@, detail@),
{
    Notice::Phase(MergePhase { phase: name.to_owned(), detail: detail.to_owned() })
}

fn progress(
    stage: &str,
    percent: Percent,
    message: String,
    tensor: Option<String>,
    done: usize,
    total: usize,
) -> (n: Notice)
    ensures
        is_progress(n, stage@, percent, message@, opt_text(tensor), done, total),
{
    Notice::Progress(
        MergeProgress {
            stage: stage.to_owned(),
            percent,
            message,
            current_tensor: tensor,
            tensors_done: done,
            tensors_total: total,
        },
    )
}

fn abort(remove_output: Option<String>, error: ModelError) -> (a: MergeAction)
    ensures
        a.notices@.len() == 0,
        a.aborts(opt_text(remove_output), error@),
{
    MergeAction {
        notices: Vec::new(),
        work: Work::Abort { remove_output, remove_directory: None, error },
    }
}

fn abort_all(
    remove_output: Option<String>,
    remove_directory: Option<String>,
    error: ModelError,
) -> (a: MergeAction)
    ensures
        a.notices@.len() == 0,
        a.aborts_all(opt_text(remove_output), opt_text(remove_directory), error@),
{
    MergeAction {
        notices: Vec::new(),
        work: Work::Abort { remove_output, remove_directory, error },
    }
}

impl MergeAction {
    /// The action ends the merge with this error, has the file at `remove`
    /// removed where one is given, and then the directory `directory`
    /// where one is given.
    pub open spec fn aborts_all(
        self,
        remove: Option<Seq<char>>,
        directory: Option<Seq<char>>,
        error: ModelErrorView,
    ) -> bool {
        self.work matches Work::Abort { remove_output: r, remove_directory: d, error: e }
            && opt_text(r) == remove && opt_text(d) == directory && e@ == error
    }

    /// The action ends the merge with this error, and has the file at
    /// `remove` removed where one is given, and no directory.
    pub open spec fn aborts(self, remove: Option<Seq<char>>, error: ModelErrorView) -> bool {
        self.aborts_all(remove, None, error)
    }
}

impl MergeRun {
    /// The action ends the merge with this error and has removed what the
    /// merge has made so far: the output file, and the directory that was
    /// made for it.
    pub open spec fn undone_by(self, action: MergeAction, error: ModelErrorView) -> bool {
        action.aborts_all(opt_text(self.output_file), opt_text(self.created_directory), error)
    }
}

// ---------------------------------------------------------------------------
// Starting
// ---------------------------------------------------------------------------

fn count_tensor_ops(ops: &Vec<TensorOperation>) -> (r: usize)
    ensures
        r == tensor_ops_in(ops@),
{
    let ghost p = |op: TensorOperation| makes_tensor(op);
    let mut n: usize = 0;
    let mut i: usize = 0;
    assert(ops@.take(0) =~= Seq::<TensorOperation>::empty());
    while i < ops.len()
        invariant
            i <= ops.len(),
            p == (|op: TensorOperation| makes_tensor(op)),
            n == count_where(ops@.take(i as int), p),
            n <= i,
        decreases ops.len() - i,
    {
        assert(ops@.take(i + 1).drop_last() =~= ops@.take(i as int));
        match &ops[i] {
            TensorOperation::CopyMetadata { parent_id } => {},
            _ => {
                n = n + 1;
            },
        }
        i = i + 1;
    }
    assert(ops@.take(i as int) =~= ops@);
    n
}

/// Starts a merge: the state before the first step, and the announcement
/// that the merge is being validated.
pub fn begin(plan: &TensorMergePlan) -> (r: (MergeRun, MergeAction))
    ensures
        r.0.stage == MergeStage::Validating,
        r.0.next_op == 0,
        r.0.tensors_done == 0,
        r.0.total_ops == tensor_ops_in(plan.operations@),
        r.0.manifest is None,
        r.0.output_file is None,
        r.0.created_directory is None,
        r.0.fits(plan.operations@),
        r.1.work is Nothing,
        r.1.notices@.len() == 2,
        is_phase(r.1.notices@[0], "validating"@, "Checking compatibility"@),
        is_progress(
            r.1.notices@[1],
            "validating"@,
            Percent::Fixed(2),
            "Validating merge configuration..."@,
            None,
            0,
            r.0.total_ops,
        ),
{
    let total_ops = count_tensor_ops(&plan.operations);
    let mut notices: Vec<Notice> = Vec::new();
    notices.push(phase("validating", "Checking compatibility"));
    notices.push(
        progress(
            "validating",
            Percent::Fixed(2),
            "Validating merge configuration...".to_owned(),
            None,
            0,
            total_ops,
        ),
    );
    (
        MergeRun {
            stage: MergeStage::Validating,
            next_op: 0,
            tensors_done: 0,
            total_ops,
            manifest: None,
            output_file: None,
            created_directory: None,
            copied_files: Vec::new(),
        },
        MergeAction { notices, work: Work::Nothing },
    )
}

// ---------------------------------------------------------------------------
// Planning the output
// ---------------------------------------------------------------------------

/// The words that report the manifest.
pub open spec fn plan_text(tensors: nat, bytes: u64) -> Seq<char> {
    "Plan: "@ + decimal_text(tensors) + " tensors, "@ + file_size_text(bytes)
        + " estimated output"@
}

/// Why a merge is refused before anything is planned or written: the
/// configuration names fewer parents than the method asks for; or the
/// method needs a base parent, and none is configured or the registry does
/// not hold the one that is. `None` where the merge is not refused.
pub open spec fn run_refusal(config: MergeConfig, parents: Seq<ParentModel>) -> Option<
    Seq<char>,
> {
    if config.parents@.len() < config.method.spec_min_parents() {
        Some(too_few_text(config.method))
    } else if config.method.spec_requires_base() {
        match config.base_parent_id {
            None => Some(no_base_text(config.method)),
            Some(id) => if base_parent(config, parents) is None {
                Some(missing_parent_text(id@))
            } else {
                None
            },
        }
    } else {
        None
    }
}

/// A merge that is not refused has a parent for every merge operation and,
/// where the method needs one, a base parent that the registry holds.
pub proof fn accepted_runs_have_what_they_need(config: MergeConfig, parents: Seq<ParentModel>)
    requires
        run_refusal(config, parents) is None,
    ensures
        config.parents@.len() >= config.method.spec_min_parents(),
        config.parents@.len() >= 1,
        config.method.spec_requires_base() ==> base_parent(config, parents) is Some,
{
}

/// What planning the output yields.
pub open spec fn plans_output(
    run: MergeRun,
    cancelled: bool,
    config: MergeConfig,
    plan: TensorMergePlan,
    registry: ParentRegistry,
    r: (MergeRun, MergeAction),
) -> bool {
    &&& (r.0.next_op == run.next_op)
    &&& (r.0.tensors_done == run.tensors_done)
    &&& (r.0.total_ops == run.total_ops)
    &&& (r.0.output_file is None)
    &&& (r.0.created_directory is None)
    &&& (cancelled ==> r.0.stage == MergeStage::Finished && r.1.notices@.len() == 0
            && r.1.aborts(None, ModelErrorView::MergeCancelled))
    &&& (!cancelled && run_refusal(config, registry@) is Some ==> r.0.stage
            == MergeStage::Finished && r.1.notices@.len() == 0 && r.1.aborts(
            None,
            ModelErrorView::MergeError(run_refusal(config, registry@)->0),
        ))
    &&& (!cancelled && run_refusal(config, registry@) is None && !ops_have_sources(
            plan.operations@,
        ) ==> r.0.stage == MergeStage::Finished && r.1.notices@.len() == 0 && r.1.aborts(
            None,
            ModelErrorView::MergeError("A merge operation names no parent"@),
        ))
    &&& (!cancelled && run_refusal(config, registry@) is None && ops_have_sources(
            plan.operations@,
        ) ==> match manifest_of(plan.operations@, registry@) {
            Err(e) => {
                &&& r.0.stage == MergeStage::Finished
                &&& r.1.aborts(None, e)
                &&& r.1.notices@.len() == 1
                &&& is_phase(r.1.notices@[0], "planning"@, "Pre-computing tensor offsets"@)
            },
            Ok(entries) => {
                &&& r.0.stage == MergeStage::Planning
                &&& r.0.manifest is Some
                &&& entries_view(r.0.manifest->0.tensors@) == entries
                &&& r.1.work is Nothing
                &&& r.1.notices@.len() == 2
                &&& is_phase(r.1.notices@[0], "planning"@, "Pre-computing tensor offsets"@)
                &&& is_progress(
                    r.1.notices@[1],
                    "planning"@,
                    Percent::Fixed(7),
                    plan_text(entries.len(), r.0.manifest->0.total_data_bytes),
                    None,
                    0,
                    run.total_ops,
                )
            },
        })
}

fn refusal_of(config: &MergeConfig, registry: &ParentRegistry) -> (r: Option<String>)
    ensures
        opt_text(r) == run_refusal(*config, registry@),
{
    if config.parents.len() < config.method.min_parents() {
        return Some(too_few_message(config.method));
    }
    if config.method.requires_base() {
        match &config.base_parent_id {
            None => Some(no_base_message(config.method)),
            Some(id) => match find_base_parent(config, registry) {
                Some(b) => None,
                None => {
                    let mut msg: Vec<char> = Vec::new();
                    push_text(&mut msg, "Parent '");
                    push_text(&mut msg, id.as_str());
                    push_text(&mut msg, "' not found");
                    assert(msg@ =~= missing_parent_text(id@));
                    Some(string_of(msg.as_slice()))
                },
            },
        }
    } else {
        None
    }
}

/// After validation: refuses what cannot be merged, and builds the
/// manifest of what can.
///
/// A set cancellation flag ends the merge. A configuration with too few
/// parents for the method, or without the base parent that the method
/// needs, ends it before anything is planned or written, and so does a
/// plan with a merge operation that names no parent. A manifest that
/// cannot be built ends it after the planning stage has been announced.
pub fn plan_output(
    run: MergeRun,
    cancelled: bool,
    config: &MergeConfig,
    plan: &TensorMergePlan,
    registry: &ParentRegistry,
) -> (r: (MergeRun, MergeAction))
    requires
        run.stage == MergeStage::Validating,
    ensures
        plans_output(run, cancelled, *config, *plan, *registry, r),
{
    let mut run = run;
    run.created_directory = None;
    if cancelled {
        run.stage = MergeStage::Finished;
        run.manifest = None;
        run.output_file = None;
        return (run, abort(None, ModelError::MergeCancelled));
    }
    match refusal_of(config, registry) {
        Some(why) => {
            run.stage = MergeStage::Finished;
            run.manifest = None;
            run.output_file = None;
            return (run, abort(None, ModelError::MergeError(why)));
        },
        None => {},
    }
    if !plan_has_sources(plan) {
        run.stage = MergeStage::Finished;
        run.manifest = None;
        run.output_file = None;
        return (
            run,
            abort(None, ModelError::MergeError("A merge operation names no parent".to_owned())),
        );
    }
    let mut notices: Vec<Notice> = Vec::new();
    notices.push(phase("planning", "Pre-computing tensor offsets"));
    match build_output_manifest(plan.operations.as_slice(), registry) {
        Err(e) => {
            run.stage = MergeStage::Finished;
            run.manifest = None;
            run.output_file = None;
            (
                run,
                MergeAction {
                    notices,
                    work: Work::Abort { remove_output: None, remove_directory: None, error: e },
                },
            )
        },
        Ok(manifest) => {
            let mut msg: Vec<char> = Vec::new();
            push_text(&mut msg, "Plan: ");
            push_decimal(&mut msg, manifest.tensors.len() as u64);
            push_text(&mut msg, " tensors, ");
            let size = format_file_size(manifest.total_data_bytes);
            push_text(&mut msg, size.as_str());
            push_text(&mut msg, " estimated output");
            assert(msg@ =~= plan_text(manifest.tensors@.len() as nat, manifest.total_data_bytes));
            notices.push(
                progress(
                    "planning",
                    Percent::Fixed(7),
                    string_of(msg.as_slice()),
                    None,
                    0,
                    run.total_ops,
                ),
            );
            run.stage = MergeStage::Planning;
            run.manifest = Some(manifest);
            run.output_file = None;
            (run, MergeAction { notices, work: Work::Nothing })
        },
    }
}

// ---------------------------------------------------------------------------
// Opening the output
// ---------------------------------------------------------------------------

/// The position of the parent from which metadata is taken: the base
/// parent where one is configured and present, else the first parent.
pub open spec fn metadata_parent(config: MergeConfig, parents: Seq<ParentModel>) -> Option<int> {
    let base = match config.base_parent_id {
        Some(id) => first_where(parents, |p: ParentModel| p.id@ == id@),
        None => None,
    };
    match base {
        Some(i) => Some(i),
        None => if parents.len() > 0 {
            Some(0)
        } else {
            None
        },
    }
}

/// The position of the base parent, where one is configured and present.
pub open spec fn base_parent(config: MergeConfig, parents: Seq<ParentModel>) -> Option<int> {
    match config.base_parent_id {
        Some(id) => first_where(parents, |p: ParentModel| p.id@ == id@),
        None => None,
    }
}

/// The directory of a parent: the parent itself where it is a directory,
/// else the directory that holds its file.
pub open spec fn folder_of(p: ParentModel) -> FolderView {
    if p.is_dir {
        FolderView::At(p.file_path@)
    } else {
        FolderView::ParentOf(p.file_path@)
    }
}

/// The directory into which the accompanying files are copied.
pub open spec fn auxiliary_target(config: MergeConfig) -> FolderView {
    match config.output.format {
        OutputFormat::SafeTensors => FolderView::At(config.output.path@),
        OutputFormat::Gguf => FolderView::ParentOf(config.output.path@),
    }
}

/// The setup opens the output that the configuration describes.
pub open spec fn setup_fits(
    setup: WriterSetup,
    config: MergeConfig,
    parents: Seq<ParentModel>,
) -> bool {
    match config.output.format {
        OutputFormat::SafeTensors => setup matches WriterSetup::SafeTensors {
            directory,
            file_name,
        } && directory@ == config.output.path@ && file_name@ == "model.safetensors"@,
        OutputFormat::Gguf => {
            &&& metadata_parent(config, parents) is Some
            &&& setup matches WriterSetup::Gguf {
                file_path,
                model_name,
                source_gguf,
                parent,
                config_dir,
            } && {
                let mp = parents[metadata_parent(config, parents)->0];
                &&& file_path@ == config.output.path@
                &&& model_name@ == config.output.model_name@
                &&& parent == metadata_parent(config, parents)->0
                &&& opt_text(source_gguf) == (if mp.format == ModelFormat::Gguf {
                    Some(mp.file_path@)
                } else {
                    None
                })
                &&& match config_dir {
                    Some(dir) => mp.format != ModelFormat::Gguf && dir@ == folder_of(mp),
                    None => mp.format == ModelFormat::Gguf,
                }
            }
        },
    }
}

fn find_base_parent(config: &MergeConfig, registry: &ParentRegistry) -> (r: Option<usize>)
    ensures
        match r {
            Some(i) => base_parent(*config, registry@) == Some(i as int) && i < registry@.len(),
            None => base_parent(*config, registry@) is None,
        },
{
    match &config.base_parent_id {
        Some(id) => registry.position(id.as_str()),
        None => None,
    }
}

fn find_metadata_parent(config: &MergeConfig, registry: &ParentRegistry) -> (r: Option<usize>)
    ensures
        match r {
            Some(i) => metadata_parent(*config, registry@) == Some(i as int) && i < registry@.len(),
            None => metadata_parent(*config, registry@) is None,
        },
{
    match find_base_parent(config, registry) {
        Some(i) => Some(i),
        None => if registry.len() > 0 {
            Some(0)
        } else {
            None
        },
    }
}

fn folder_for(p: &ParentModel) -> (r: Folder)
    ensures
        r@ == folder_of(*p),
{
    if p.is_dir {
        Folder::At(p.file_path.clone())
    } else {
        Folder::ParentOf(p.file_path.clone())
    }
}

/// What opening the output yields.
pub open spec fn opens_output(
    run: MergeRun,
    cancelled: bool,
    config: MergeConfig,
    registry: ParentRegistry,
    r: (MergeRun, MergeAction),
) -> bool {
    &&& (r.0.next_op == run.next_op)
    &&& (r.0.tensors_done == run.tensors_done)
    &&& (r.0.total_ops == run.total_ops)
    &&& (r.0.output_file is None)
    &&& (r.0.created_directory is None)
    &&& (cancelled ==> r.0.stage == MergeStage::Finished && r.1.notices@.len() == 0
            && r.1.aborts(None, ModelErrorView::MergeCancelled))
    &&& (!cancelled ==> r.1.notices@.len() == 1 && is_phase(
            r.1.notices@[0],
            "merging"@,
            "Processing tensors"@,
        ))
    &&& (!cancelled && config.output.format == OutputFormat::Gguf && registry@.len() == 0
            ==> r.0.stage == MergeStage::Finished && r.1.aborts(
            None,
            ModelErrorView::MergeError("No parent for metadata"@),
        ))
    &&& (!cancelled && !(config.output.format == OutputFormat::Gguf && registry@.len() == 0)
            ==> r.0.stage == MergeStage::Opening && (r.1.work matches Work::OpenWriter {
            setup,
            manifest,
        } && setup_fits(setup, config, registry@) && entries_view(manifest.tensors@)
            == entries_view(run.manifest->0.tensors@) && manifest.total_data_bytes
            == run.manifest->0.total_data_bytes))
}

/// After planning: has the output opened.
///
/// A set cancellation flag ends the merge. So does a GGUF output for which
/// no parent is there to take metadata from, after the merging stage has
/// been announced.
pub fn open_output(
    run: MergeRun,
    cancelled: bool,
    config: &MergeConfig,
    registry: &ParentRegistry,
) -> (r: (MergeRun, MergeAction))
    requires
        run.stage == MergeStage::Planning,
        run.manifest is Some,
    ensures
        opens_output(run, cancelled, *config, *registry, r),
{
    let mut run = run;
    run.output_file = None;
    run.created_directory = None;
    if cancelled {
        run.stage = MergeStage::Finished;
        return (run, abort(None, ModelError::MergeCancelled));
    }
    let mut notices: Vec<Notice> = Vec::new();
    notices.push(phase("merging", "Processing tensors"));
    let parents = registry.all();
    let setup = match config.output.format {
        OutputFormat::SafeTensors => WriterSetup::SafeTensors {
            directory: config.output.path.clone(),
            file_name: "model.safetensors".to_owned(),
        },
        OutputFormat::Gguf => {
            match find_metadata_parent(config, registry) {
                None => {
                    run.stage = MergeStage::Finished;
                    return (
                        run,
                        MergeAction {
                            notices,
                            work: Work::Abort {
                                remove_output: None,
                                remove_directory: None,
                                error: ModelError::MergeError("No parent for metadata".to_owned()),
                            },
                        },
                    );
                },
                Some(i) => {
                    let mp = &parents[i];
                    let from_gguf = mp.format == ModelFormat::Gguf;
                    WriterSetup::Gguf {
                        file_path: config.output.path.clone(),
                        model_name: config.output.model_name.clone(),
                        source_gguf: if from_gguf {
                            Some(mp.file_path.clone())
                        } else {
                            None
                        },
                        parent: i,
                        config_dir: if from_gguf {
                            None
                        } else {
                            Some(folder_for(mp))
                        },
                    }
                },
            }
        },
    };
    let manifest = run.manifest.take().unwrap();
    run.stage = MergeStage::Opening;
    (run, MergeAction { notices, work: Work::OpenWriter { setup, manifest } })
}

// ---------------------------------------------------------------------------
// The state between two steps
// ---------------------------------------------------------------------------

/// The number of tensor-producing operations before position `k`.
pub open spec fn done_before(ops: Seq<TensorOperation>, k: int) -> nat {
    count_where(ops.take(k), |op: TensorOperation| makes_tensor(op))
}

impl MergeRun {
    /// The state is one that a merge over `ops` passes through: the counters
    /// say what has been done, and each stage has what it needs.
    pub open spec fn fits(&self, ops: Seq<TensorOperation>) -> bool {
        &&& self.total_ops == tensor_ops_in(ops)
        &&& match self.stage {
            MergeStage::Validating => self.next_op == 0 && self.tensors_done == 0
                && self.output_file is None && self.created_directory is None,
            MergeStage::Planning => self.next_op == 0 && self.tensors_done == 0
                && self.manifest is Some && self.output_file is None
                && self.created_directory is None,
            MergeStage::Opening => self.next_op == 0 && self.tensors_done == 0
                && self.output_file is None && self.created_directory is None,
            MergeStage::Merging => {
                &&& self.next_op < ops.len()
                &&& makes_tensor(ops[self.next_op as int])
                &&& self.tensors_done == done_before(ops, self.next_op as int)
                &&& self.output_file is Some
            },
            MergeStage::Finalizing | MergeStage::Copying | MergeStage::Verifying => {
                &&& self.tensors_done == self.total_ops
                &&& self.output_file is Some
            },
            MergeStage::Finished => true,
        }
    }
}

/// Counting up to a position and one further.
pub proof fn done_before_step(ops: Seq<TensorOperation>, k: int)
    requires
        0 <= k < ops.len(),
    ensures
        done_before(ops, k + 1) == done_before(ops, k) + if makes_tensor(ops[k]) {
            1nat
        } else {
            0nat
        },
        done_before(ops, k + 1) <= tensor_ops_in(ops),
        done_before(ops, k + 1) <= k + 1,
{
    let p = |op: TensorOperation| makes_tensor(op);
    assert(ops.take(k + 1).drop_last() =~= ops.take(k));
    count_where_bound(ops.take(k + 1), p);
    done_before_grows(ops, k + 1);
}

/// No more operations are done before a position than in the whole plan.
pub proof fn done_before_grows(ops: Seq<TensorOperation>, k: int)
    requires
        0 <= k <= ops.len(),
    ensures
        done_before(ops, k) <= tensor_ops_in(ops),
    decreases ops.len() - k,
{
    if k == ops.len() {
        assert(ops.take(k) =~= ops);
    } else {
        assert(ops.take(k + 1).drop_last() =~= ops.take(k));
        done_before_grows(ops, k + 1);
    }
}

// ---------------------------------------------------------------------------
// Merging
// ---------------------------------------------------------------------------

/// The error for an event that does not answer the work that was given.
pub open spec fn unexpected() -> ModelErrorView {
    ModelErrorView::MergeError("Unexpected event for this stage of the merge"@)
}

fn unexpected_event() -> (e: ModelError)
    ensures
        e@ == unexpected(),
{
    ModelError::MergeError("Unexpected event for this stage of the merge".to_owned())
}

/// The position of the first operation from `from` on that produces a
/// tensor.
pub open spec fn next_tensor_op(ops: Seq<TensorOperation>, from: int) -> Option<int> {
    crate::seqs::first_where_from(ops, |op: TensorOperation| makes_tensor(op), from)
}

fn find_tensor_op(ops: &Vec<TensorOperation>, from: usize) -> (r: Option<usize>)
    requires
        from <= ops@.len(),
    ensures
        match r {
            Some(q) => next_tensor_op(ops@, from as int) == Some(q as int) && from <= q < ops@.len()
                && makes_tensor(ops@[q as int]) && done_before(ops@, q as int) == done_before(
                ops@,
                from as int,
            ),
            None => next_tensor_op(ops@, from as int) is None && done_before(
                ops@,
                from as int,
            ) == tensor_ops_in(ops@),
        },
{
    let ghost p = |op: TensorOperation| makes_tensor(op);
    let mut q: usize = from;
    while q < ops.len()
        invariant
            from <= q <= ops.len(),
            p == (|op: TensorOperation| makes_tensor(op)),
            next_tensor_op(ops@, from as int) == crate::seqs::first_where_from(ops@, p, q as int),
            done_before(ops@, q as int) == done_before(ops@, from as int),
        decreases ops.len() - q,
    {
        match &ops[q] {
            TensorOperation::CopyMetadata { parent_id } => {},
            _ => {
                return Some(q);
            },
        }
        proof {
            done_before_step(ops@, q as int);
        }
        q = q + 1;
    }
    assert(ops@.take(q as int) =~= ops@);
    None
}

/// The words that report the copying of a tensor.
pub open spec fn copying_text(name: Seq<char>) -> Seq<char> {
    "Copying "@ + name
}

/// The words that report the merging of a tensor.
pub open spec fn merging_text(name: Seq<char>, parents: nat) -> Seq<char> {
    "Merging "@ + name + " ("@ + decimal_text(parents) + " parents)"@
}

/// The words that report the making of a tensor.
pub open spec fn synthesizing_text(name: Seq<char>) -> Seq<char> {
    "Synthesizing "@ + name
}

/// The words that report the finalizing of the output.
pub open spec fn finalizing_text(done: nat) -> Seq<char> {
    "Finalizing "@ + decimal_text(done) + " tensors..."@
}

/// The number of parent tensors of a merge: one per parent id that has a
/// weight.
pub open spec fn pairs_in(ids: Seq<String>, weights: Seq<u64>) -> int {
    if ids.len() <= weights.len() {
        ids.len() as int
    } else {
        weights.len() as int
    }
}

/// The first of the first `n` parent ids that no parent has.
pub open spec fn first_missing(ids: Seq<String>, parents: Seq<ParentModel>, n: int) -> Option<int> {
    first_where(
        ids.take(n),
        |id: String| first_where(parents, |p: ParentModel| p.id@ == id@) is None,
    )
}

/// Where the base tensor of a merge with `count` parent tensors comes
/// from: the base parent, for a method that needs one. No other tensor
/// stands in for a base that is missing.
pub open spec fn base_choice(
    config: MergeConfig,
    parents: Seq<ParentModel>,
    count: int,
) -> BaseTensor {
    if config.method.spec_requires_base() {
        match base_parent(config, parents) {
            Some(b) => BaseTensor::FromParent(b as usize),
            None => BaseTensor::Absent,
        }
    } else {
        BaseTensor::Absent
    }
}

/// The sources are the first `n` parents of the merge with their weights.
pub open spec fn sources_fit(
    sources: Seq<Source>,
    ids: Seq<String>,
    weights: Seq<u64>,
    parents: Seq<ParentModel>,
    n: int,
) -> bool {
    &&& sources.len() == n
    &&& forall|k: int|
        0 <= k < n ==> first_where(parents, |p: ParentModel| p.id@ == ids[k]@) == Some(
            (#[trigger] sources[k]).parent as int,
        ) && sources[k].weight_bits == weights[k]
}

/// What is done for the operation `op`, and announced before. Where the
/// operation names a parent that the registry does not hold, the merge
/// ends, and the output file and the directory that was made for it are
/// removed.
pub open spec fn acts_on(
    action: MergeAction,
    op: TensorOperation,
    config: MergeConfig,
    parents: Seq<ParentModel>,
    done: usize,
    total: usize,
    file: Option<Seq<char>>,
    directory: Option<Seq<char>>,
) -> bool {
    match op {
        TensorOperation::Copy { tensor_name, parent_id } => match first_where(
            parents,
            |p: ParentModel| p.id@ == parent_id@,
        ) {
            None => action.notices@.len() == 0 && action.aborts_all(
                file,
                directory,
                ModelErrorView::ParentNotFound(parent_id@),
            ),
            Some(i) => {
                &&& action.notices@.len() == 1
                &&& is_progress(
                    action.notices@[0],
                    "merging"@,
                    Percent::Merging,
                    copying_text(tensor_name@),
                    Some(tensor_name@),
                    done,
                    total,
                )
                &&& action.work matches Work::CopyTensor { tensor_name: n, parent } && n@
                    == tensor_name@ && parent == i
            },
        },
        TensorOperation::Merge { tensor_name, parent_ids, weights } => {
            let n = pairs_in(parent_ids@, weights@);
            &&& action.notices@.len() == 1
            &&& is_progress(
                action.notices@[0],
                "merging"@,
                Percent::Merging,
                merging_text(tensor_name@, parent_ids@.len()),
                Some(tensor_name@),
                done,
                total,
            )
            &&& match first_missing(parent_ids@, parents, n) {
                Some(k) => action.aborts_all(
                    file,
                    directory,
                    ModelErrorView::ParentNotFound(parent_ids@[k]@),
                ),
                None => action.work matches Work::MergeTensors {
                    tensor_name: name,
                    sources,
                    base,
                    projection,
                } && name@ == tensor_name@ && sources_fit(
                    sources@,
                    parent_ids@,
                    weights@,
                    parents,
                    n,
                ) && base == base_choice(config, parents, n) && opt_text(projection) == opt_text(
                    config.projection_strategy,
                ),
            }
        },
        TensorOperation::Synthesize { tensor_name, shape, strategy } => {
            &&& action.notices@.len() == 1
            &&& is_progress(
                action.notices@[0],
                "merging"@,
                Percent::Merging,
                synthesizing_text(tensor_name@),
                Some(tensor_name@),
                done,
                total,
            )
            &&& action.work matches Work::SynthesizeTensor { tensor_name: n, shape: s, random }
                && n@ == tensor_name@ && s@ == shape@ && random == (strategy@ == "random_init"@)
        },
        TensorOperation::CopyMetadata { parent_id } => false,
    }
}

fn merging_notice(message: Vec<char>, name: &String, done: usize, total: usize) -> (r: Vec<Notice>)
    ensures
        r@.len() == 1,
        is_progress(r@[0], "merging"@, Percent::Merging, message@, Some(name@), done, total),
{
    let mut notices: Vec<Notice> = Vec::new();
    notices.push(
        progress(
            "merging",
            Percent::Merging,
            string_of(message.as_slice()),
            Some(name.clone()),
            done,
            total,
        ),
    );
    notices
}

fn gather_sources(parent_ids: &Vec<String>, weights: &Vec<u64>, registry: &ParentRegistry) -> (r:
    Result<Vec<Source>, usize>)
    ensures
        match r {
            Ok(sources) => first_missing(
                parent_ids@,
                registry@,
                pairs_in(parent_ids@, weights@),
            ) is None && sources_fit(
                sources@,
                parent_ids@,
                weights@,
                registry@,
                pairs_in(parent_ids@, weights@),
            ),
            Err(k) => first_missing(parent_ids@, registry@, pairs_in(parent_ids@, weights@))
                == Some(k as int) && k < parent_ids@.len(),
        },
{
    let n: usize = if parent_ids.len() <= weights.len() {
        parent_ids.len()
    } else {
        weights.len()
    };
    let ghost missing = |id: String| first_where(registry@, |p: ParentModel| p.id@ == id@) is None;
    let ghost ids = parent_ids@.take(n as int);
    let mut sources: Vec<Source> = Vec::new();
    let mut k: usize = 0;
    while k < n
        invariant
            k <= n,
            n == pairs_in(parent_ids@, weights@),
            ids == parent_ids@.take(n as int),
            missing == (|id: String| first_where(registry@, |p: ParentModel| p.id@ == id@) is None),
            forall|j: int| 0 <= j < k ==> !missing(#[trigger] ids[j]),
            sources_fit(sources@, parent_ids@, weights@, registry@, k as int),
        decreases n - k,
    {
        assert(ids[k as int] == parent_ids@[k as int]);
        match registry.position(parent_ids[k].as_str()) {
            None => {
                proof {
                    crate::seqs::first_where_found(ids, missing, k as int);
                }
                return Err(k);
            },
            Some(i) => {
                sources.push(Source { parent: i, weight_bits: weights[k] });
            },
        }
        k = k + 1;
    }
    proof {
        crate::seqs::first_where_absent(ids, missing);
    }
    Ok(sources)
}

fn choose_base(config: &MergeConfig, registry: &ParentRegistry, count: usize) -> (r: BaseTensor)
    ensures
        r == base_choice(*config, registry@, count as int),
{
    if config.method.requires_base() {
        match find_base_parent(config, registry) {
            Some(b) => BaseTensor::FromParent(b),
            None => BaseTensor::Absent,
        }
    } else {
        BaseTensor::Absent
    }
}

fn act_on(
    op: &TensorOperation,
    config: &MergeConfig,
    registry: &ParentRegistry,
    done: usize,
    total: usize,
    file: &Option<String>,
    directory: &Option<String>,
) -> (r: MergeAction)
    requires
        makes_tensor(*op),
    ensures
        acts_on(r, *op, *config, registry@, done, total, opt_text(*file), opt_text(*directory)),
{
    match op {
        TensorOperation::Copy { tensor_name, parent_id } => {
            match registry.position(parent_id.as_str()) {
                None => abort_all(
                    copy_opt_string(file),
                    copy_opt_string(directory),
                    ModelError::ParentNotFound(parent_id.clone()),
                ),
                Some(i) => {
                    let mut msg: Vec<char> = Vec::new();
                    push_text(&mut msg, "Copying ");
                    push_text(&mut msg, tensor_name.as_str());
                    assert(msg@ =~= copying_text(tensor_name@));
                    MergeAction {
                        notices: merging_notice(msg, tensor_name, done, total),
                        work: Work::CopyTensor { tensor_name: tensor_name.clone(), parent: i },
                    }
                },
            }
        },
        TensorOperation::Merge { tensor_name, parent_ids, weights } => {
            let mut msg: Vec<char> = Vec::new();
            push_text(&mut msg, "Merging ");
            push_text(&mut msg, tensor_name.as_str());
            push_text(&mut msg, " (");
            push_decimal(&mut msg, parent_ids.len() as u64);
            push_text(&mut msg, " parents)");
            assert(msg@ =~= merging_text(tensor_name@, parent_ids@.len()));
            let notices = merging_notice(msg, tensor_name, done, total);
            match gather_sources(parent_ids, weights, registry) {
                Err(k) => MergeAction {
                    notices,
                    work: Work::Abort {
                        remove_output: copy_opt_string(file),
                        remove_directory: copy_opt_string(directory),
                        error: ModelError::ParentNotFound(parent_ids[k].clone()),
                    },
                },
                Ok(sources) => {
                    let base = choose_base(config, registry, sources.len());
                    MergeAction {
                        notices,
                        work: Work::MergeTensors {
                            tensor_name: tensor_name.clone(),
                            sources,
                            base,
                            projection: copy_opt_string(&config.projection_strategy),
                        },
                    }
                },
            }
        },
        TensorOperation::Synthesize { tensor_name, shape, strategy } => {
            let mut msg: Vec<char> = Vec::new();
            push_text(&mut msg, "Synthesizing ");
            push_text(&mut msg, tensor_name.as_str());
            assert(msg@ =~= synthesizing_text(tensor_name@));
            MergeAction {
                notices: merging_notice(msg, tensor_name, done, total),
                work: Work::SynthesizeTensor {
                    tensor_name: tensor_name.clone(),
                    shape: copy_shape(shape),
                    random: str_eq(strategy.as_str(), "random_init"),
                },
            }
        },
        TensorOperation::CopyMetadata { parent_id } => abort(None, unexpected_event()),
    }
}

/// The action has the output finalized.
pub open spec fn finishes(action: MergeAction, done: usize, total: usize) -> bool {
    &&& action.work is FinishWriter
    &&& action.notices@.len() == 2
    &&& is_phase(action.notices@[0], "writing"@, "Finalizing output file"@)
    &&& is_progress(
        action.notices@[1],
        "writing"@,
        Percent::Fixed(91),
        finalizing_text(done as nat),
        None,
        done,
        total,
    )
}

fn finish_action(done: usize, total: usize) -> (a: MergeAction)
    ensures
        finishes(a, done, total),
{
    let mut notices: Vec<Notice> = Vec::new();
    notices.push(phase("writing", "Finalizing output file"));
    let mut msg: Vec<char> = Vec::new();
    push_text(&mut msg, "Finalizing ");
    push_decimal(&mut msg, done as u64);
    push_text(&mut msg, " tensors...");
    assert(msg@ =~= finalizing_text(done as nat));
    notices.push(
        progress("writing", Percent::Fixed(91), string_of(msg.as_slice()), None, done, total),
    );
    MergeAction { notices, work: Work::FinishWriter }
}

/// The position from which the merge goes on after `event`: with the output
/// opened it starts at the first operation, with an operation done it
/// goes on behind that operation. `None` where the event is a failure or
/// does not answer the stage.
pub open spec fn resumes_at(run: MergeRun, event: MergeEvent) -> Option<int> {
    match (run.stage, event) {
        (MergeStage::Opening, MergeEvent::Opened { file_path, created_directory }) => Some(0),
        (MergeStage::Merging, MergeEvent::Done) => Some(run.next_op + 1),
        _ => None,
    }
}

/// What deciding on the next operation yields.
pub open spec fn takes_next_operation(
    run: MergeRun,
    event: MergeEvent,
    cancelled: bool,
    config: MergeConfig,
    plan: TensorMergePlan,
    registry: ParentRegistry,
    r: (MergeRun, MergeAction),
) -> bool {
    &&& (r.0.fits(plan.operations@))
    &&& (r.0.total_ops == run.total_ops)
    &&& (match resumes_at(run, event) {
            None => {
                &&& r.0.stage == MergeStage::Finished
                &&& r.1.notices@.len() == 0
                &&& match event {
                    MergeEvent::Failed(e) => run.undone_by(r.1, e@),
                    _ => run.undone_by(r.1, unexpected()),
                }
            },
            Some(p) => {
                let file = match event {
                    MergeEvent::Opened { file_path, created_directory } => file_path@,
                    _ => run.output_file->0@,
                };
                let directory = match event {
                    MergeEvent::Opened { file_path, created_directory } => opt_text(
                        created_directory,
                    ),
                    _ => opt_text(run.created_directory),
                };
                if cancelled {
                    &&& r.0.stage == MergeStage::Finished
                    &&& r.1.notices@.len() == 0
                    &&& r.1.aborts_all(Some(file), directory, ModelErrorView::MergeCancelled)
                } else {
                    match next_tensor_op(plan.operations@, p) {
                        None => {
                            &&& r.0.stage == MergeStage::Finalizing
                            &&& opt_text(r.0.output_file) == Some(file)
                            &&& opt_text(r.0.created_directory) == directory
                            &&& finishes(r.1, run.total_ops, run.total_ops)
                        },
                        Some(q) => {
                            &&& acts_on(
                                r.1,
                                plan.operations@[q],
                                config,
                                registry@,
                                done_before(plan.operations@, q) as usize,
                                run.total_ops,
                                Some(file),
                                directory,
                            )
                            &&& if r.1.work is Abort {
                                r.0.stage == MergeStage::Finished
                            } else {
                                &&& r.0.stage == MergeStage::Merging
                                &&& r.0.next_op == q
                                &&& r.0.tensors_done == done_before(plan.operations@, q)
                                &&& opt_text(r.0.output_file) == Some(file)
                                &&& opt_text(r.0.created_directory) == directory
                            }
                        },
                    }
                }
            },
        })
}

/// During merging: decides on the next operation.
///
/// The operations are taken in the order of the plan. A failure of the work
/// before ends the merge with its error, and so does a set cancellation
/// flag; either way the output file and the directory that was made for it
/// are removed. After the last operation the output is finalized.
pub fn next_operation(
    run: MergeRun,
    event: MergeEvent,
    cancelled: bool,
    config: &MergeConfig,
    plan: &TensorMergePlan,
    registry: &ParentRegistry,
) -> (r: (MergeRun, MergeAction))
    requires
        run.stage == MergeStage::Opening || run.stage == MergeStage::Merging,
        run.fits(plan.operations@),
    ensures
        takes_next_operation(run, event, cancelled, *config, *plan, *registry, r),
{
    let ghost ops = plan.operations@;
    let mut run = run;
    let from: usize = match event {
        MergeEvent::Failed(e) => {
            run.stage = MergeStage::Finished;
            let file = run.output_file.take();
            let directory = run.created_directory.take();
            return (run, abort_all(file, directory, e));
        },
        MergeEvent::Opened { file_path, created_directory } => {
            if run.stage != MergeStage::Opening {
                run.stage = MergeStage::Finished;
                let file = run.output_file.take();
                let directory = run.created_directory.take();
                return (run, abort_all(file, directory, unexpected_event()));
            }
            run.output_file = Some(file_path);
            run.created_directory = created_directory;
            assert(ops.take(0) =~= Seq::<TensorOperation>::empty());
            0
        },
        MergeEvent::Done => {
            if run.stage != MergeStage::Merging {
                run.stage = MergeStage::Finished;
                let file = run.output_file.take();
                let directory = run.created_directory.take();
                return (run, abort_all(file, directory, unexpected_event()));
            }
            let count: usize = plan.operations.len();
            proof {
                done_before_step(ops, run.next_op as int);
                assert(run.next_op < count);
            }
            run.tensors_done = run.tensors_done + 1;
            run.next_op + 1
        },
        _ => {
            run.stage = MergeStage::Finished;
            let file = run.output_file.take();
            let directory = run.created_directory.take();
            return (run, abort_all(file, directory, unexpected_event()));
        },
    };
    assert(run.tensors_done == done_before(ops, from as int));
    if cancelled {
        run.stage = MergeStage::Finished;
        let file = run.output_file.take();
        let directory = run.created_directory.take();
        return (run, abort_all(file, directory, ModelError::MergeCancelled));
    }
    match find_tensor_op(&plan.operations, from) {
        None => {
            run.stage = MergeStage::Finalizing;
            run.next_op = plan.operations.len();
            let action = finish_action(run.tensors_done, run.total_ops);
            (run, action)
        },
        Some(q) => {
            let action = act_on(
                &plan.operations[q],
                config,
                registry,
                run.tensors_done,
                run.total_ops,
                &run.output_file,
                &run.created_directory,
            );
            let failed = match &action.work {
                Work::Abort { remove_output, remove_directory, error } => true,
                _ => false,
            };
            if failed {
                run.stage = MergeStage::Finished;
            } else {
                run.stage = MergeStage::Merging;
                run.next_op = q;
            }
            (run, action)
        },
    }
}

// ---------------------------------------------------------------------------
// Finishing
// ---------------------------------------------------------------------------

/// The names of the files that accompany a model.
pub open spec fn auxiliary_names() -> Seq<Seq<char>> {
    seq![
        "tokenizer.json"@,
        "tokenizer_config.json"@,
        "tokenizer.model"@,
        "config.json"@,
        "generation_config.json"@,
        "special_tokens_map.json"@,
        "vocab.json"@,
        "merges.txt"@,
        "added_tokens.json"@,
        "preprocessor_config.json"@,
    ]
}

/// The names of the files that accompany a model.
pub fn auxiliary_files() -> (r: Vec<String>)
    ensures
        texts(r@) == auxiliary_names(),
{
    let mut files: Vec<String> = Vec::new();
    files.push("tokenizer.json".to_owned());
    files.push("tokenizer_config.json".to_owned());
    files.push("tokenizer.model".to_owned());
    files.push("config.json".to_owned());
    files.push("generation_config.json".to_owned());
    files.push("special_tokens_map.json".to_owned());
    files.push("vocab.json".to_owned());
    files.push("merges.txt".to_owned());
    files.push("added_tokens.json".to_owned());
    files.push("preprocessor_config.json".to_owned());
    assert(texts(files@) =~= auxiliary_names());
    files
}

/// The position of the parent whose accompanying files are copied: the
/// base parent where one is configured and present, else the first parent
/// that is a directory, else the first parent.
pub open spec fn auxiliary_parent(config: MergeConfig, parents: Seq<ParentModel>) -> Option<int> {
    match base_parent(config, parents) {
        Some(i) => Some(i),
        None => match first_where(parents, |p: ParentModel| p.is_dir) {
            Some(i) => Some(i),
            None => if parents.len() > 0 {
                Some(0)
            } else {
                None
            },
        },
    }
}

/// The directory from which the accompanying files are copied.
pub open spec fn auxiliary_source(config: MergeConfig, parents: Seq<ParentModel>) -> Option<
    FolderView,
> {
    match auxiliary_parent(config, parents) {
        Some(i) => Some(folder_of(parents[i])),
        None => None,
    }
}

/// The directory from which the accompanying files are copied.
pub fn find_auxiliary_source(config: &MergeConfig, registry: &ParentRegistry) -> (r: Option<Folder>)
    ensures
        match r {
            Some(f) => auxiliary_source(*config, registry@) == Some(f@),
            None => auxiliary_source(*config, registry@) is None,
        },
{
    let parents = registry.all();
    match find_base_parent(config, registry) {
        Some(i) => Some(folder_for(&parents[i])),
        None => {
            let ghost p = |m: ParentModel| m.is_dir;
            let mut i: usize = 0;
            while i < parents.len()
                invariant
                    i <= parents.len(),
                    parents@ == registry@,
                    base_parent(*config, registry@) is None,
                    p == (|m: ParentModel| m.is_dir),
                    forall|j: int| 0 <= j < i ==> !p(#[trigger] parents@[j]),
                decreases parents.len() - i,
            {
                if parents[i].is_dir {
                    proof {
                        crate::seqs::first_where_found(parents@, p, i as int);
                    }
                    return Some(folder_for(&parents[i]));
                }
                i = i + 1;
            }
            proof {
                crate::seqs::first_where_absent(parents@, p);
            }
            if parents.len() > 0 {
                Some(folder_for(&parents[0]))
            } else {
                None
            }
        },
    }
}

/// What the step after finalizing yields.
pub open spec fn copies_auxiliary(
    run: MergeRun,
    event: MergeEvent,
    config: MergeConfig,
    plan: TensorMergePlan,
    registry: ParentRegistry,
    r: (MergeRun, MergeAction),
) -> bool {
    &&& (r.0.fits(plan.operations@))
    &&& (match event {
            MergeEvent::Done => {
                &&& r.0.stage == MergeStage::Copying
                &&& r.0.tensors_done == run.tensors_done
                &&& opt_text(r.0.output_file) == opt_text(run.output_file)
                &&& opt_text(r.0.created_directory) == opt_text(run.created_directory)
                &&& r.1.notices@.len() == 1
                &&& is_phase(r.1.notices@[0], "copying"@, "Copying tokenizer and config files"@)
                &&& r.1.work matches Work::CopyAuxiliary { source, target, files } && target@
                    == auxiliary_target(config) && texts(files@) == auxiliary_names() && (match source {
                    Some(f) => auxiliary_source(config, registry@) == Some(f@),
                    None => auxiliary_source(config, registry@) is None,
                })
            },
            MergeEvent::Failed(e) => r.0.stage == MergeStage::Finished && r.1.notices@.len() == 0
                && run.undone_by(r.1, e@),
            _ => r.0.stage == MergeStage::Finished && r.1.notices@.len() == 0 && run.undone_by(
                r.1,
                unexpected(),
            ),
        })
}

/// After finalizing: has the accompanying files copied.
pub fn after_finish(
    run: MergeRun,
    event: MergeEvent,
    config: &MergeConfig,
    plan: &TensorMergePlan,
    registry: &ParentRegistry,
) -> (r: (MergeRun, MergeAction))
    requires
        run.stage == MergeStage::Finalizing,
        run.fits(plan.operations@),
    ensures
        copies_auxiliary(run, event, *config, *plan, *registry, r),
{
    let mut run = run;
    match event {
        MergeEvent::Done => {
            let mut notices: Vec<Notice> = Vec::new();
            notices.push(phase("copying", "Copying tokenizer and config files"));
            let target = match config.output.format {
                OutputFormat::SafeTensors => Folder::At(config.output.path.clone()),
                OutputFormat::Gguf => Folder::ParentOf(config.output.path.clone()),
            };
            run.stage = MergeStage::Copying;
            (
                run,
                MergeAction {
                    notices,
                    work: Work::CopyAuxiliary {
                        source: find_auxiliary_source(config, registry),
                        target,
                        files: auxiliary_files(),
                    },
                },
            )
        },
        MergeEvent::Failed(e) => {
            run.stage = MergeStage::Finished;
            let file = run.output_file.take();
            let directory = run.created_directory.take();
            (run, abort_all(file, directory, e))
        },
        _ => {
            run.stage = MergeStage::Finished;
            let file = run.output_file.take();
            let directory = run.created_directory.take();
            (run, abort_all(file, directory, unexpected_event()))
        },
    }
}

/// What the step after copying yields.
pub open spec fn measures_output(
    run: MergeRun,
    event: MergeEvent,
    plan: TensorMergePlan,
    r: (MergeRun, MergeAction),
) -> bool {
    &&& (r.0.fits(plan.operations@))
    &&& (match event {
            MergeEvent::Copied { files } => {
                &&& r.0.stage == MergeStage::Verifying
                &&& r.0.tensors_done == run.tensors_done
                &&& opt_text(r.0.output_file) == opt_text(run.output_file)
                &&& opt_text(r.0.created_directory) == opt_text(run.created_directory)
                &&& texts(r.0.copied_files@) == texts(files@)
                &&& r.1.notices@.len() == 2
                &&& is_phase(r.1.notices@[0], "verifying"@, "Checking output integrity"@)
                &&& is_progress(
                    r.1.notices@[1],
                    "verifying"@,
                    Percent::Fixed(97),
                    "Verifying output file..."@,
                    None,
                    run.total_ops,
                    run.total_ops,
                )
                &&& r.1.work matches Work::MeasureOutput { path } && Some(path@) == opt_text(
                    run.output_file,
                )
            },
            MergeEvent::Failed(e) => r.0.stage == MergeStage::Finished && r.1.notices@.len() == 0
                && run.undone_by(r.1, e@),
            _ => r.0.stage == MergeStage::Finished && r.1.notices@.len() == 0 && run.undone_by(
                r.1,
                unexpected(),
            ),
        })
}

/// After copying: has the output measured.
pub fn after_copy(run: MergeRun, event: MergeEvent, plan: &TensorMergePlan) -> (r: (
    MergeRun,
    MergeAction,
))
    requires
        run.stage == MergeStage::Copying,
        run.fits(plan.operations@),
    ensures
        measures_output(run, event, *plan, r),
{
    let mut run = run;
    match event {
        MergeEvent::Copied { files } => {
            let mut notices: Vec<Notice> = Vec::new();
            notices.push(phase("verifying", "Checking output integrity"));
            notices.push(
                progress(
                    "verifying",
                    Percent::Fixed(97),
                    "Verifying output file...".to_owned(),
                    None,
                    run.total_ops,
                    run.total_ops,
                ),
            );
            let path: String = match &run.output_file {
                Some(p) => p.clone(),
                None => String::new(),
            };
            run.copied_files = files;
            run.stage = MergeStage::Verifying;
            (run, MergeAction { notices, work: Work::MeasureOutput { path } })
        },
        MergeEvent::Failed(e) => {
            run.stage = MergeStage::Finished;
            let file = run.output_file.take();
            let directory = run.created_directory.take();
            (run, abort_all(file, directory, e))
        },
        _ => {
            run.stage = MergeStage::Finished;
            let file = run.output_file.take();
            let directory = run.created_directory.take();
            (run, abort_all(file, directory, unexpected_event()))
        },
    }
}

/// The words that report the end of the merge.
pub open spec fn complete_text(size: u64) -> Seq<char> {
    "Merge complete: "@ + file_size_text(size)
}

/// What the step after measuring yields: the result of the merge; or,
/// where measuring failed, the error, with the output file and the
/// directory that was made for it removed, so that a failed merge leaves
/// no output behind.
pub open spec fn completes(
    run: MergeRun,
    event: MergeEvent,
    config: MergeConfig,
    plan: TensorMergePlan,
    r: (MergeRun, MergeAction),
) -> bool {
    &&& (r.0.stage == MergeStage::Finished)
    &&& (r.0.fits(plan.operations@))
    &&& (match event {
            MergeEvent::Measured { size } => {
                &&& r.1.notices@.len() == 1
                &&& is_progress(
                    r.1.notices@[0],
                    "complete"@,
                    Percent::Fixed(100),
                    complete_text(size),
                    None,
                    run.total_ops,
                    run.total_ops,
                )
                &&& r.1.work matches Work::Complete { result } && Some(result.output_path@)
                    == opt_text(run.output_file) && result.output_size == size
                    && result.output_size_display@ == file_size_text(size)
                    && result.tensors_written == run.tensors_done && result.method@
                    == config.method.spec_display_name() && texts(result.copied_files@) == texts(
                    run.copied_files@,
                )
            },
            MergeEvent::Failed(e) => r.1.notices@.len() == 0 && run.undone_by(r.1, e@),
            _ => r.1.notices@.len() == 0 && run.undone_by(r.1, unexpected()),
        })
}

/// After measuring: ends the merge with its result.
pub fn after_measure(
    run: MergeRun,
    event: MergeEvent,
    config: &MergeConfig,
    plan: &TensorMergePlan,
) -> (r: (MergeRun, MergeAction))
    requires
        run.stage == MergeStage::Verifying,
        run.fits(plan.operations@),
    ensures
        completes(run, event, *config, *plan, r),
{
    let mut run = run;
    run.stage = MergeStage::Finished;
    match event {
        MergeEvent::Measured { size } => {
            let display = format_file_size(size);
            let mut msg: Vec<char> = Vec::new();
            push_text(&mut msg, "Merge complete: ");
            push_text(&mut msg, display.as_str());
            assert(msg@ =~= complete_text(size));
            let mut notices: Vec<Notice> = Vec::new();
            notices.push(
                progress(
                    "complete",
                    Percent::Fixed(100),
                    string_of(msg.as_slice()),
                    None,
                    run.total_ops,
                    run.total_ops,
                ),
            );
            let output_path: String = match &run.output_file {
                Some(p) => p.clone(),
                None => String::new(),
            };
            let mut copied: Vec<String> = Vec::new();
            let mut i: usize = 0;
            while i < run.copied_files.len()
                invariant
                    i <= run.copied_files.len(),
                    copied@.len() == i,
                    forall|j: int| 0 <= j < i ==> (#[trigger] copied@[j])@ == run.copied_files@[j]@,
                decreases run.copied_files.len() - i,
            {
                copied.push(run.copied_files[i].clone());
                i = i + 1;
            }
            assert(texts(copied@) =~= texts(run.copied_files@));
            let result = MergeResult {
                output_path,
                output_size: size,
                output_size_display: display,
                tensors_written: run.tensors_done,
                method: config.method.display_name().to_owned(),
                copied_files: copied,
            };
            (run, MergeAction { notices, work: Work::Complete { result } })
        },
        MergeEvent::Failed(e) => {
            let file = run.output_file.take();
            let directory = run.created_directory.take();
            (run, abort_all(file, directory, e))
        },
        _ => {
            let file = run.output_file.take();
            let directory = run.created_directory.take();
            (run, abort_all(file, directory, unexpected_event()))
        },
    }
}

/// Whether every merge of the plan names at least one parent.
pub fn plan_has_sources(plan: &TensorMergePlan) -> (r: bool)
    ensures
        r == ops_have_sources(plan.operations@),
{
    let mut i: usize = 0;
    while i < plan.operations.len()
        invariant
            i <= plan.operations.len(),
            forall|j: int| 0 <= j < i ==> op_has_source(
                #[trigger] plan.operations@[j],
            ),
        decreases plan.operations.len() - i,
    {
        match &plan.operations[i] {
            TensorOperation::Merge { tensor_name, parent_ids, weights } => {
                if parent_ids.len() == 0 {
                    return false;
                }
            },
            _ => {},
        }
        i = i + 1;
    }
    true
}

/// One step of a merge: given the state, how the last work went and
/// whether cancellation is asked for, the next state and what to do.
///
/// The step is that of the stage that the merge is in. A merge that has
/// ended stays ended.
pub fn advance(
    run: MergeRun,
    event: MergeEvent,
    cancelled: bool,
    config: &MergeConfig,
    plan: &TensorMergePlan,
    registry: &ParentRegistry,
) -> (r: (MergeRun, MergeAction))
    requires
        run.fits(plan.operations@),
    ensures
        r.0.fits(plan.operations@),
        match run.stage {
            MergeStage::Validating => plans_output(run, cancelled, *config, *plan, *registry, r),
            MergeStage::Planning => opens_output(run, cancelled, *config, *registry, r),
            MergeStage::Opening | MergeStage::Merging => takes_next_operation(
                run,
                event,
                cancelled,
                *config,
                *plan,
                *registry,
                r,
            ),
            MergeStage::Finalizing => copies_auxiliary(run, event, *config, *plan, *registry, r),
            MergeStage::Copying => measures_output(run, event, *plan, r),
            MergeStage::Verifying => completes(run, event, *config, *plan, r),
            MergeStage::Finished => r.0.stage == MergeStage::Finished && r.1.notices@.len() == 0
                && r.1.aborts(None, ModelErrorView::MergeError("The merge has ended"@)),
        },
        cancelled && (run.stage == MergeStage::Validating || run.stage == MergeStage::Planning)
            ==> r.0.stage == MergeStage::Finished && r.1.aborts(
            None,
            ModelErrorView::MergeCancelled,
        ),
        !cancelled && run.stage == MergeStage::Validating && run_refusal(*config, registry@)
            is Some ==> r.0.stage == MergeStage::Finished && r.1.aborts(
            None,
            ModelErrorView::MergeError(run_refusal(*config, registry@)->0),
        ),
        cancelled && resumes_at(run, event) is Some ==> r.0.stage == MergeStage::Finished && (
        r.1.work matches Work::Abort { remove_output, remove_directory, error }
            && remove_output is Some && error@ == ModelErrorView::MergeCancelled),
        r.1.work is Abort && run.output_file is Some && run.stage != MergeStage::Finished ==> (
        r.1.work matches Work::Abort {
            remove_output,
            remove_directory,
            error,
        } && opt_text(remove_output) == opt_text(run.output_file) && opt_text(remove_directory)
            == opt_text(run.created_directory)),
        r.1.work is Abort || r.1.work is Complete <==> r.0.stage == MergeStage::Finished,
{
    match run.stage {
        MergeStage::Validating => {
            let r = plan_output(run, cancelled, config, plan, registry);
            proof {
                assert(r.0.fits(plan.operations@));
            }
            r
        },
        MergeStage::Planning => open_output(run, cancelled, config, registry),
        MergeStage::Opening => next_operation(run, event, cancelled, config, plan, registry),
        MergeStage::Merging => next_operation(run, event, cancelled, config, plan, registry),
        MergeStage::Finalizing => after_finish(run, event, config, plan, registry),
        MergeStage::Copying => after_copy(run, event, plan),
        MergeStage::Verifying => after_measure(run, event, config, plan),
        MergeStage::Finished => {
            let mut run = run;
            run.stage = MergeStage::Finished;
            (run, abort(None, ModelError::MergeError("The merge has ended".to_owned())))
        },
    }
}

} // verus!
