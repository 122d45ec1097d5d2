//! The checks that a configuration must pass before a merge is started.

use vstd::prelude::*;
use crate::compatibility::{noted, text_list};
use crate::config::{MergeConfig, MergeMethod};
use crate::model::opt_text;
use crate::registry::{ParentModel, ParentRegistry};
use crate::seqs::first_where;
use crate::text::{decimal_text, push_decimal, push_text, string_of};

verus! {

/// The outcome of the checks.
#[derive(Clone, Debug)]
pub struct ValidationResult {
    pub valid: bool,
    pub errors: Vec<String>,
    pub warnings: Vec<String>,
}

/// The text of the error for too few parents.
pub open spec fn too_few_text(method: MergeMethod) -> Seq<char> {
    method.spec_display_name() + " requires at least "@ + decimal_text(
        method.spec_min_parents() as nat,
    ) + " parents"@
}

/// The text of the error for a missing base parent.
pub open spec fn no_base_text(method: MergeMethod) -> Seq<char> {
    method.spec_display_name() + " requires a base model"@
}

/// The text of the error for a parent that the registry does not hold.
pub open spec fn missing_parent_text(id: Seq<char>) -> Seq<char> {
    "Parent '"@ + id + "' not found"@
}

/// The registry holds no parent with the id `id`.
pub open spec fn is_missing(parents: Seq<ParentModel>, id: Seq<char>) -> bool {
    first_where(parents, |p: ParentModel| p.id@ == id) is None
}

/// One error for each of the first `n` configured parents that the
/// registry does not hold, in their order.
pub open spec fn missing_parents(config: MergeConfig, parents: Seq<ParentModel>, n: nat) -> Seq<
    Seq<char>,
>
    decreases n,
{
    if n == 0 {
        Seq::empty()
    } else {
        let rest = missing_parents(config, parents, (n - 1) as nat);
        let id = config.parents@[n - 1].parent_id@;
        if is_missing(parents, id) {
            rest.push(missing_parent_text(id))
        } else {
            rest
        }
    }
}

/// The errors of a configuration: too few parents for the method; no base
/// parent named though the method needs one; each configured parent that
/// the registry does not hold; no output path; no layer assignment for a
/// method that stacks layers.
pub open spec fn errors_of(config: MergeConfig, parents: Seq<ParentModel>) -> Seq<Seq<char>> {
    noted(parents.len() < config.method.spec_min_parents(), too_few_text(config.method)) + noted(
        config.method.spec_requires_base() && config.base_parent_id is None,
        no_base_text(config.method),
    ) + missing_parents(config, parents, config.parents@.len()) + noted(
        config.output.path@.len() == 0,
        "Output path is required"@,
    ) + noted(
        config.method == MergeMethod::Frankenmerge && config.layer_assignments@.len() == 0,
        "FRANKENMERGE requires layer assignments. Assign each offspring layer to a parent in the Layers tab."@,
    )
}

/// The warnings of a configuration: the note on the sum of the weights,
/// where there is one; a direct copy without layer assignments; a plain
/// average.
pub open spec fn warnings_of(
    config: MergeConfig,
    parents: Seq<ParentModel>,
    weight_note: Option<Seq<char>>,
) -> Seq<Seq<char>> {
    noted(
        weight_note is Some,
        match weight_note {
            Some(n) => n,
            None => Seq::empty(),
        },
    ) + noted(
        config.method == MergeMethod::Passthrough && config.layer_assignments@.len() == 0,
        "PASSTHROUGH with no layer assignments will copy all layers from the first parent."@,
    ) + noted(
        config.method == MergeMethod::Average && parents.len() >= 2,
        "AVERAGE merges all tensors by weighted mean. For dissimilar models this may produce incoherent output. Consider SLERP or FRANKENMERGE for better results."@,
    )
}

fn first(present: bool, text: String) -> (list: Vec<String>)
    ensures
        text_list(list@) == noted(present, text@),
{
    let mut list: Vec<String> = Vec::new();
    if present {
        list.push(text);
    }
    assert(text_list(list@) =~= noted(present, text@));
    list
}

fn note(list: &mut Vec<String>, present: bool, text: String)
    ensures
        text_list(final(list)@) == text_list(old(list)@) + noted(present, text@),
{
    let ghost before = text_list(list@);
    if present {
        list.push(text);
    }
    assert(text_list(list@) =~= before + noted(present, text@));
}

/// The error for too few parents.
pub fn too_few_message(method: MergeMethod) -> (r: String)
    ensures
        r@ == too_few_text(method),
{
    let mut msg: Vec<char> = Vec::new();
    push_text(&mut msg, method.display_name());
    push_text(&mut msg, " requires at least ");
    push_decimal(&mut msg, method.min_parents() as u64);
    push_text(&mut msg, " parents");
    assert(msg@ =~= too_few_text(method));
    string_of(msg.as_slice())
}

/// The error for a missing base parent.
pub fn no_base_message(method: MergeMethod) -> (r: String)
    ensures
        r@ == no_base_text(method),
{
    let mut msg: Vec<char> = Vec::new();
    push_text(&mut msg, method.display_name());
    push_text(&mut msg, " requires a base model");
    assert(msg@ =~= no_base_text(method));
    string_of(msg.as_slice())
}

fn add_missing(errors: &mut Vec<String>, config: &MergeConfig, registry: &ParentRegistry)
    ensures
        text_list(final(errors)@) == text_list(old(errors)@) + missing_parents(
            *config,
            registry@,
            config.parents@.len(),
        ),
{
    let ghost start = text_list(errors@);
    let mut i: usize = 0;
    assert(text_list(errors@) =~= start + missing_parents(*config, registry@, 0));
    while i < config.parents.len()
        invariant
            i <= config.parents.len(),
            text_list(errors@) == start + missing_parents(*config, registry@, i as nat),
        decreases config.parents.len() - i,
    {
        let ghost before = text_list(errors@);
        let id = &config.parents[i].parent_id;
        if registry.get(id.as_str()).is_none() {
            let mut msg: Vec<char> = Vec::new();
            push_text(&mut msg, "Parent '");
            push_text(&mut msg, id.as_str());
            push_text(&mut msg, "' not found");
            assert(msg@ =~= missing_parent_text(id@));
            errors.push(string_of(msg.as_slice()));
            assert(text_list(errors@) =~= before.push(missing_parent_text(id@)));
        }
        i = i + 1;
        assert(text_list(errors@) =~= start + missing_parents(*config, registry@, i as nat));
    }
}

/// Checks a configuration against the registry.
///
/// `weight_note` is the warning on the sum of the weights, where the sum
/// calls for one.
pub fn merge_validate_config(
    config: &MergeConfig,
    registry: &ParentRegistry,
    weight_note: Option<String>,
) -> (r: ValidationResult)
    ensures
        text_list(r.errors@) == errors_of(*config, registry@),
        text_list(r.warnings@) == warnings_of(*config, registry@, opt_text(weight_note)),
        r.valid == (errors_of(*config, registry@).len() == 0),
{
    let method = config.method;
    let mut errors = first(registry.len() < method.min_parents(), too_few_message(method));
    note(
        &mut errors,
        method.requires_base() && config.base_parent_id.is_none(),
        no_base_message(method),
    );
    add_missing(&mut errors, config, registry);
    note(&mut errors, config.output.path.as_str().is_empty(), "Output path is required".to_owned());
    note(
        &mut errors,
        method == MergeMethod::Frankenmerge && config.layer_assignments.len() == 0,
        "FRANKENMERGE requires layer assignments. Assign each offspring layer to a parent in the Layers tab.".to_owned(),
    );
    let has_note = weight_note.is_some();
    let note_text: String = match weight_note {
        Some(n) => n,
        None => String::new(),
    };
    let mut warnings = first(has_note, note_text);
    note(
        &mut warnings,
        method == MergeMethod::Passthrough && config.layer_assignments.len() == 0,
        "PASSTHROUGH with no layer assignments will copy all layers from the first parent.".to_owned(),
    );
    note(
        &mut warnings,
        method == MergeMethod::Average && registry.len() >= 2,
        "AVERAGE merges all tensors by weighted mean. For dissimilar models this may produce incoherent output. Consider SLERP or FRANKENMERGE for better results.".to_owned(),
    );
    ValidationResult { valid: errors.len() == 0, errors, warnings }
}

/// A configuration is valid exactly when there are enough parents for the
/// method, a base parent is named where the method needs one, every
/// configured parent is in the registry, an output path is given, and
/// layers are assigned where the method stacks layers.
pub proof fn valid_means(config: MergeConfig, parents: Seq<ParentModel>)
    ensures
        errors_of(config, parents).len() == 0 <==> {
            &&& parents.len() >= config.method.spec_min_parents()
            &&& (config.method.spec_requires_base() ==> config.base_parent_id is Some)
            &&& missing_parents(config, parents, config.parents@.len()).len() == 0
            &&& config.output.path@.len() > 0
            &&& (config.method == MergeMethod::Frankenmerge ==> config.layer_assignments@.len() > 0)
        },
{
}

/// No error is reported for a configured parent exactly when the registry
/// holds every configured parent.
pub proof fn none_missing_means(config: MergeConfig, parents: Seq<ParentModel>, n: nat)
    requires
        n <= config.parents@.len(),
    ensures
        missing_parents(config, parents, n).len() == 0 <==> forall|i: int|
            0 <= i < n ==> !is_missing(parents, (#[trigger] config.parents@[i]).parent_id@),
    decreases n,
{
    if n > 0 {
        none_missing_means(config, parents, (n - 1) as nat);
    }
}

} // verus!
