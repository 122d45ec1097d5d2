//! Whether the loaded parents can be merged, and what stands in the way.

use vstd::prelude::*;
use crate::numfmt::round_half_even;
use crate::registry::{shared_set, ParentModel, ParentRegistry};
use crate::text::{
    decimal_text, lowercase, lowercase_of, push_decimal, push_text, str_eq, string_of,
};

verus! {

/// One dimension in which the parents differ, with each parent's value.
#[derive(Clone, Debug)]
pub struct DimensionMismatch {
    pub dimension_name: String,
    pub values: Vec<(String, u64)>,
    pub severity: String,
}

/// The value of a `DimensionMismatch`, with each text as a sequence of
/// characters.
pub struct DimensionMismatchView {
    pub dimension_name: Seq<char>,
    pub values: Seq<(Seq<char>, u64)>,
    pub severity: Seq<char>,
}

/// The values of a list of named numbers.
pub open spec fn named_view(s: Seq<(String, u64)>) -> Seq<(Seq<char>, u64)> {
    Seq::new(s.len(), |i: int| (s[i].0@, s[i].1))
}

impl View for DimensionMismatch {
    type V = DimensionMismatchView;

    open spec fn view(&self) -> DimensionMismatchView {
        DimensionMismatchView {
            dimension_name: self.dimension_name@,
            values: named_view(self.values@),
            severity: self.severity@,
        }
    }
}

/// A way to merge parents in spite of a mismatch.
#[derive(Clone, Debug)]
pub struct ResolutionStrategy {
    pub name: String,
    pub description: String,
    pub applicable_to: Vec<String>,
    pub estimated_size_change_bytes: i64,
    pub quality_estimate: String,
    pub requires_training: bool,
}

/// The value of a `ResolutionStrategy`, with each text as a sequence of
/// characters.
pub struct ResolutionStrategyView {
    pub name: Seq<char>,
    pub description: Seq<char>,
    pub applicable_to: Seq<Seq<char>>,
    pub estimated_size_change_bytes: i64,
    pub quality_estimate: Seq<char>,
    pub requires_training: bool,
}

/// The texts of a list of strings.
pub open spec fn text_list(s: Seq<String>) -> Seq<Seq<char>> {
    Seq::new(s.len(), |i: int| s[i]@)
}

impl View for ResolutionStrategy {
    type V = ResolutionStrategyView;

    open spec fn view(&self) -> ResolutionStrategyView {
        ResolutionStrategyView {
            name: self.name@,
            description: self.description@,
            applicable_to: text_list(self.applicable_to@),
            estimated_size_change_bytes: self.estimated_size_change_bytes,
            quality_estimate: self.quality_estimate@,
            requires_training: self.requires_training,
        }
    }
}

/// The outcome of the compatibility check.
#[derive(Clone, Debug)]
pub struct CompatReport {
    pub compatible: bool,
    pub warnings: Vec<String>,
    pub errors: Vec<String>,
    pub shared_tensor_count: usize,
    pub total_tensor_count: usize,
    pub architecture_match: bool,
    pub dimension_match: bool,
    pub layer_count_match: bool,
    pub dimension_details: Vec<DimensionMismatch>,
    pub resolution_strategies: Vec<ResolutionStrategy>,
}

/// The value of a `CompatReport`, with lists in place of vectors and
/// sequences of characters in place of strings.
pub struct CompatReportView {
    pub compatible: bool,
    pub warnings: Seq<Seq<char>>,
    pub errors: Seq<Seq<char>>,
    pub shared_tensor_count: usize,
    pub total_tensor_count: usize,
    pub architecture_match: bool,
    pub dimension_match: bool,
    pub layer_count_match: bool,
    pub dimension_details: Seq<DimensionMismatchView>,
    pub resolution_strategies: Seq<ResolutionStrategyView>,
}

/// The values of a list of mismatches.
pub open spec fn details_view(s: Seq<DimensionMismatch>) -> Seq<DimensionMismatchView> {
    Seq::new(s.len(), |i: int| s[i]@)
}

/// The values of a list of strategies.
pub open spec fn strategies_view(s: Seq<ResolutionStrategy>) -> Seq<ResolutionStrategyView> {
    Seq::new(s.len(), |i: int| s[i]@)
}

impl View for CompatReport {
    type V = CompatReportView;

    open spec fn view(&self) -> CompatReportView {
        CompatReportView {
            compatible: self.compatible,
            warnings: text_list(self.warnings@),
            errors: text_list(self.errors@),
            shared_tensor_count: self.shared_tensor_count,
            total_tensor_count: self.total_tensor_count,
            architecture_match: self.architecture_match,
            dimension_match: self.dimension_match,
            layer_count_match: self.layer_count_match,
            dimension_details: details_view(self.dimension_details@),
            resolution_strategies: strategies_view(self.resolution_strategies@),
        }
    }
}

// ---------------------------------------------------------------------------
// The dimensions that are compared
// ---------------------------------------------------------------------------

/// A number that the parents are compared in.
#[derive(Clone, Copy, Debug, PartialEq, Eq, Structural)]
pub enum Dimension {
    Hidden,
    Layers,
    Vocab,
    AttentionHeads,
    KvHeads,
    Context,
}

impl Dimension {
    /// The parent's value in this dimension, where it is known.
    pub open spec fn spec_value(self, p: ParentModel) -> Option<u64> {
        match self {
            Dimension::Hidden => p.compat.hidden_size,
            Dimension::Layers => p.compat.num_layers,
            Dimension::Vocab => p.compat.vocab_size,
            Dimension::AttentionHeads => p.compat.num_attention_heads,
            Dimension::KvHeads => p.compat.num_kv_heads,
            Dimension::Context => p.compat.context_length,
        }
    }

    /// The name under which a mismatch in this dimension is reported.
    pub open spec fn spec_name(self) -> Seq<char> {
        match self {
            Dimension::Hidden => "hidden_dim"@,
            Dimension::Layers => "num_layers"@,
            Dimension::Vocab => "vocab_size"@,
            Dimension::AttentionHeads => "num_attention_heads"@,
            Dimension::KvHeads => "num_kv_heads"@,
            Dimension::Context => "context_length"@,
        }
    }

    /// The words with which a mismatch in this dimension is reported, before
    /// the values.
    pub open spec fn spec_lead(self) -> Seq<char> {
        match self {
            Dimension::Hidden => "Hidden dimension mismatch: "@,
            Dimension::Layers => "Layer count differs: "@,
            Dimension::Vocab => "Vocab size mismatch: "@,
            Dimension::AttentionHeads => "Attention head count differs: "@,
            Dimension::KvHeads => "KV head count differs: "@,
            Dimension::Context => "Context length differs: "@,
        }
    }

    /// The words after the values.
    pub open spec fn spec_tail(self) -> Seq<char> {
        match self {
            Dimension::Layers => " (Frankenmerge may be required)"@,
            _ => Seq::empty(),
        }
    }

    /// A mismatch in this dimension is an error; in every other it is a
    /// warning.
    pub open spec fn is_fatal(self) -> bool {
        self == Dimension::Hidden
    }

    /// What the parent tells of this dimension.
    pub fn value(&self, p: &ParentModel) -> (r: Option<u64>)
        ensures
            r == self.spec_value(*p),
    {
        match self {
            Dimension::Hidden => p.compat.hidden_size,
            Dimension::Layers => p.compat.num_layers,
            Dimension::Vocab => p.compat.vocab_size,
            Dimension::AttentionHeads => p.compat.num_attention_heads,
            Dimension::KvHeads => p.compat.num_kv_heads,
            Dimension::Context => p.compat.context_length,
        }
    }

    /// The name under which this dimension is reported.
    pub fn name(&self) -> (r: &'static str)
        ensures
            r@ == self.spec_name(),
    {
        match self {
            Dimension::Hidden => "hidden_dim",
            Dimension::Layers => "num_layers",
            Dimension::Vocab => "vocab_size",
            Dimension::AttentionHeads => "num_attention_heads",
            Dimension::KvHeads => "num_kv_heads",
            Dimension::Context => "context_length",
        }
    }

    fn lead(&self) -> (r: &'static str)
        ensures
            r@ == self.spec_lead(),
    {
        match self {
            Dimension::Hidden => "Hidden dimension mismatch: ",
            Dimension::Layers => "Layer count differs: ",
            Dimension::Vocab => "Vocab size mismatch: ",
            Dimension::AttentionHeads => "Attention head count differs: ",
            Dimension::KvHeads => "KV head count differs: ",
            Dimension::Context => "Context length differs: ",
        }
    }

    fn tail(&self) -> (r: &'static str)
        ensures
            r@ == self.spec_tail(),
    {
        match self {
            Dimension::Layers => " (Frankenmerge may be required)",
            _ => {
                proof {
                    reveal_strlit("");
                    assert(""@ =~= Seq::<char>::empty());
                }
                ""
            },
        }
    }
}

/// The values that the parents have in a dimension, parent after parent,
/// each with the parent's name; a parent without a value is left out.
pub open spec fn named_values(parents: Seq<ParentModel>, d: Dimension) -> Seq<(Seq<char>, u64)>
    decreases parents.len(),
{
    if parents.len() == 0 {
        Seq::empty()
    } else {
        let rest = named_values(parents.drop_last(), d);
        match d.spec_value(parents.last()) {
            Some(v) => rest.push((parents.last().name@, v)),
            None => rest,
        }
    }
}

/// Every number of the list equals the first.
pub open spec fn all_same(values: Seq<(Seq<char>, u64)>) -> bool {
    forall|i: int| 0 <= i < values.len() ==> (#[trigger] values[i]).1 == values[0].1
}

/// The numbers of the list, written with ` vs ` between them.
pub open spec fn versus_numbers(values: Seq<(Seq<char>, u64)>) -> Seq<char>
    decreases values.len(),
{
    if values.len() == 0 {
        Seq::empty()
    } else if values.len() == 1 {
        decimal_text(values[0].1 as nat)
    } else {
        versus_numbers(values.drop_last()) + " vs "@ + decimal_text(values.last().1 as nat)
    }
}

/// At least two parents have a value in the dimension, and not all of these
/// values are the same.
#[verifier::opaque]
pub open spec fn differs(parents: Seq<ParentModel>, d: Dimension) -> bool {
    named_values(parents, d).len() >= 2 && !all_same(named_values(parents, d))
}

/// Fewer than two parents have a value in the dimension.
#[verifier::opaque]
pub open spec fn unverified(parents: Seq<ParentModel>, d: Dimension) -> bool {
    named_values(parents, d).len() < 2
}

/// The message that reports a mismatch in a dimension.
#[verifier::opaque]
pub open spec fn mismatch_text(parents: Seq<ParentModel>, d: Dimension) -> Seq<char> {
    d.spec_lead() + versus_numbers(named_values(parents, d)) + d.spec_tail()
}

/// The record of a mismatch in a dimension.
#[verifier::opaque]
pub open spec fn mismatch_of(parents: Seq<ParentModel>, d: Dimension) -> DimensionMismatchView {
    DimensionMismatchView {
        dimension_name: d.spec_name(),
        values: named_values(parents, d),
        severity: if d.is_fatal() {
            "error"@
        } else {
            "warning"@
        },
    }
}

// ---------------------------------------------------------------------------
// Architectures
// ---------------------------------------------------------------------------

/// The architectures that the parents name, parent after parent.
pub open spec fn known_architectures(parents: Seq<ParentModel>) -> Seq<Seq<char>>
    decreases parents.len(),
{
    if parents.len() == 0 {
        Seq::empty()
    } else {
        let rest = known_architectures(parents.drop_last());
        match parents.last().compat.architecture {
            Some(a) => rest.push(a@),
            None => rest,
        }
    }
}

/// All architectures are the same but for their case.
pub open spec fn same_architecture(known: Seq<Seq<char>>) -> bool {
    forall|i: int|
        0 <= i < known.len() ==> lowercase_of(#[trigger] known[i]) == lowercase_of(known[0])
}

/// The texts of the list, written with ` vs ` between them.
pub open spec fn versus_texts(items: Seq<Seq<char>>) -> Seq<char>
    decreases items.len(),
{
    if items.len() == 0 {
        Seq::empty()
    } else if items.len() == 1 {
        items[0]
    } else {
        versus_texts(items.drop_last()) + " vs "@ + items.last()
    }
}

/// The architectures agree, or too few are known to say.
pub open spec fn architectures_match(parents: Seq<ParentModel>) -> bool {
    known_architectures(parents).len() < 2 || same_architecture(known_architectures(parents))
}

// ---------------------------------------------------------------------------
// Tensor names
// ---------------------------------------------------------------------------

/// The greatest number of tensors that a parent has.
pub open spec fn most_tensors(parents: Seq<ParentModel>) -> nat
    decreases parents.len(),
{
    if parents.len() == 0 {
        0
    } else {
        let rest = most_tensors(parents.drop_last());
        let own = parents.last().compat.tensor_metas@.len();
        if own > rest {
            own
        } else {
            rest
        }
    }
}

/// Two neighbours among the parents have different container formats.
#[verifier::opaque]
pub open spec fn mixed_formats(parents: Seq<ParentModel>) -> bool {
    exists|i: int| 0 <= i < parents.len() - 1 && (#[trigger] parents[i]).format != parents[i
        + 1].format
}

/// The share of `shared` in `most` as a whole percentage, rounded to the
/// nearest (to the even one of two equally near), with the two numbers.
#[verifier::opaque]
pub open spec fn overlap_figures(shared: nat, most: nat) -> Seq<char> {
    decimal_text(round_half_even(shared * 100, most)) + "% ("@ + decimal_text(shared) + "/"@
        + decimal_text(most) + ")"@
}

/// Fewer than half of the tensor names are shared.
pub open spec fn overlap_very_low(shared: nat, most: nat) -> bool {
    most > 0 && shared * 100 < most * 50
}

/// At least half but fewer than four fifths of the tensor names are
/// shared.
pub open spec fn overlap_low(shared: nat, most: nat) -> bool {
    most > 0 && !overlap_very_low(shared, most) && shared * 100 < most * 80
}

// ---------------------------------------------------------------------------
// The report
// ---------------------------------------------------------------------------

/// The list that holds `text` where `present` is true, and nothing else.
pub open spec fn noted(present: bool, text: Seq<char>) -> Seq<Seq<char>> {
    if present {
        seq![text]
    } else {
        Seq::empty()
    }
}

/// The warnings on what could not be verified.
pub open spec fn metadata_warnings(parents: Seq<ParentModel>) -> Seq<Seq<char>> {
    noted(
        known_architectures(parents).len() < 2,
        "Could not verify architecture compatibility (metadata missing)"@,
    ) + noted(
        unverified(parents, Dimension::Hidden),
        "Could not verify hidden dimension compatibility"@,
    ) + noted(
        unverified(parents, Dimension::Layers),
        "Could not verify layer count compatibility"@,
    )
}

/// The warnings on dimensions in which the parents differ.
pub open spec fn difference_warnings(parents: Seq<ParentModel>) -> Seq<Seq<char>> {
    noted(differs(parents, Dimension::Layers), mismatch_text(parents, Dimension::Layers)) + noted(
        differs(parents, Dimension::Vocab),
        mismatch_text(parents, Dimension::Vocab),
    ) + noted(
        differs(parents, Dimension::AttentionHeads),
        mismatch_text(parents, Dimension::AttentionHeads),
    ) + noted(differs(parents, Dimension::KvHeads), mismatch_text(parents, Dimension::KvHeads))
        + noted(differs(parents, Dimension::Context), mismatch_text(parents, Dimension::Context))
}

/// The warnings on the tensor names and on the formats.
pub open spec fn overlap_warnings(parents: Seq<ParentModel>) -> Seq<Seq<char>> {
    let shared = shared_set(parents).len();
    let most = most_tensors(parents);
    noted(
        overlap_low(shared, most),
        "Tensor name overlap below 80%: "@ + overlap_figures(shared, most),
    ) + noted(
        mixed_formats(parents),
        "Mixed formats detected (GGUF tensors will be dequantized to F32)"@,
    )
}

/// The warnings, in the order in which the checks are made.
pub open spec fn warnings_of(parents: Seq<ParentModel>) -> Seq<Seq<char>> {
    metadata_warnings(parents) + difference_warnings(parents) + overlap_warnings(parents)
}

/// The errors, in the order in which the checks are made.
pub open spec fn errors_of(parents: Seq<ParentModel>) -> Seq<Seq<char>> {
    let shared = shared_set(parents).len();
    let most = most_tensors(parents);
    noted(
        !architectures_match(parents),
        "Architecture mismatch: "@ + versus_texts(known_architectures(parents)),
    ) + noted(differs(parents, Dimension::Hidden), mismatch_text(parents, Dimension::Hidden))
        + noted(
        overlap_very_low(shared, most),
        "Very low tensor name overlap: "@ + overlap_figures(shared, most),
    )
}

/// The list that holds the mismatch in `d` where the parents differ in it.
pub open spec fn detail_when(parents: Seq<ParentModel>, d: Dimension) -> Seq<DimensionMismatchView> {
    if differs(parents, d) {
        seq![mismatch_of(parents, d)]
    } else {
        Seq::empty()
    }
}

/// The mismatches, in the order in which the checks are made.
pub open spec fn details_of(parents: Seq<ParentModel>) -> Seq<DimensionMismatchView> {
    detail_when(parents, Dimension::Hidden) + detail_when(parents, Dimension::Layers)
        + detail_when(parents, Dimension::Vocab) + detail_when(parents, Dimension::AttentionHeads)
        + detail_when(parents, Dimension::KvHeads) + detail_when(parents, Dimension::Context)
}

/// A strategy that needs no training and changes no size.
pub open spec fn strategy(
    name: Seq<char>,
    description: Seq<char>,
    applicable_to: Seq<Seq<char>>,
    quality: Seq<char>,
) -> ResolutionStrategyView {
    ResolutionStrategyView {
        name,
        description,
        applicable_to,
        estimated_size_change_bytes: 0,
        quality_estimate: quality,
        requires_training: false,
    }
}

/// The strategies that answer one mismatch.
pub open spec fn strategies_for(dimension_name: Seq<char>) -> Seq<ResolutionStrategyView> {
    if dimension_name == "hidden_dim"@ {
        seq![
            strategy(
                "zero_padding"@,
                "Pad smaller model's hidden dimension with zeros to match larger model"@,
                seq!["hidden_dim"@],
                "medium"@,
            ),
            strategy(
                "interpolation"@,
                "Interpolate tensor dimensions to match target size"@,
                seq!["hidden_dim"@],
                "medium"@,
            ),
            strategy(
                "truncation"@,
                "Truncate larger model's dimensions to match smaller model"@,
                seq!["hidden_dim"@],
                "low"@,
            ),
        ]
    } else if dimension_name == "vocab_size"@ {
        seq![
            strategy(
                "zero_padding"@,
                "Extend embedding matrix with zero rows for missing tokens"@,
                seq!["vocab_size"@],
                "high"@,
            ),
            strategy(
                "truncation"@,
                "Truncate vocabulary to smaller model's size"@,
                seq!["vocab_size"@],
                "medium"@,
            ),
        ]
    } else {
        Seq::empty()
    }
}

/// The strategies that answer the first `n` mismatches, one mismatch after
/// the other.
pub open spec fn strategies_upto(details: Seq<DimensionMismatchView>, n: nat) -> Seq<
    ResolutionStrategyView,
>
    decreases n,
{
    if n == 0 {
        Seq::empty()
    } else {
        strategies_upto(details, (n - 1) as nat) + strategies_for(details[n - 1].dimension_name)
    }
}

/// The names of the dimensions of a list of mismatches.
pub open spec fn dimension_names(details: Seq<DimensionMismatchView>) -> Seq<Seq<char>> {
    Seq::new(details.len(), |i: int| details[i].dimension_name)
}

/// The strategies that answer a list of mismatches: those for each
/// mismatch, and where there is any mismatch the conversion to a mixture of
/// experts, which answers them all.
pub open spec fn strategies_of(details: Seq<DimensionMismatchView>) -> Seq<ResolutionStrategyView> {
    let each = strategies_upto(details, details.len());
    if details.len() == 0 {
        each
    } else {
        each.push(
            strategy(
                "moe_routing"@,
                "Convert to Mixture-of-Experts: each parent becomes an expert, router handles dimension differences"@,
                dimension_names(details),
                "high"@,
            ),
        )
    }
}

/// The report on a list of parents.
pub open spec fn report_of(parents: Seq<ParentModel>) -> CompatReportView {
    if parents.len() < 2 {
        CompatReportView {
            compatible: false,
            warnings: Seq::empty(),
            errors: seq!["At least 2 parent models required"@],
            shared_tensor_count: 0,
            total_tensor_count: 0,
            architecture_match: false,
            dimension_match: false,
            layer_count_match: false,
            dimension_details: Seq::empty(),
            resolution_strategies: Seq::empty(),
        }
    } else {
        CompatReportView {
            compatible: errors_of(parents).len() == 0,
            warnings: warnings_of(parents),
            errors: errors_of(parents),
            shared_tensor_count: shared_set(parents).len() as usize,
            total_tensor_count: most_tensors(parents) as usize,
            architecture_match: architectures_match(parents),
            dimension_match: !differs(parents, Dimension::Hidden),
            layer_count_match: !differs(parents, Dimension::Layers),
            dimension_details: details_of(parents),
            resolution_strategies: strategies_of(details_of(parents)),
        }
    }
}

/// The parents are compatible exactly when the check finds no error: the
/// architectures agree, the hidden dimensions agree, and at least half of
/// the tensor names are shared.
pub proof fn compatible_means_no_error(parents: Seq<ParentModel>)
    requires
        parents.len() >= 2,
    ensures
        report_of(parents).compatible <==> (architectures_match(parents) && !differs(
            parents,
            Dimension::Hidden,
        ) && !overlap_very_low(shared_set(parents).len(), most_tensors(parents))),
{
    reveal(differs);
}

// ---------------------------------------------------------------------------
// Checking
// ---------------------------------------------------------------------------

fn collect_values(parents: &[ParentModel], d: Dimension) -> (r: Vec<(String, u64)>)
    ensures
        named_view(r@) == named_values(parents@, d),
{
    let mut out: Vec<(String, u64)> = Vec::new();
    let mut i: usize = 0;
    assert(parents@.take(0) =~= Seq::<ParentModel>::empty());
    assert(named_view(out@) =~= named_values(parents@.take(0), d));
    while i < parents.len()
        invariant
            i <= parents.len(),
            named_view(out@) == named_values(parents@.take(i as int), d),
        decreases parents.len() - i,
    {
        let ghost before = named_view(out@);
        assert(parents@.take(i + 1).drop_last() =~= parents@.take(i as int));
        match d.value(&parents[i]) {
            Some(v) => {
                out.push((parents[i].name.clone(), v));
                assert(named_view(out@) =~= before.push((parents@[i as int].name@, v)));
            },
            None => {},
        }
        i = i + 1;
    }
    assert(parents@.take(i as int) =~= parents@);
    out
}

fn values_all_same(values: &Vec<(String, u64)>) -> (r: bool)
    ensures
        r == all_same(named_view(values@)),
{
    let ghost list = named_view(values@);
    let mut i: usize = 0;
    while i < values.len()
        invariant
            i <= values.len(),
            list == named_view(values@),
            forall|j: int| 0 <= j < i ==> (#[trigger] list[j]).1 == list[0].1,
        decreases values.len() - i,
    {
        if values[i].1 != values[0].1 {
            assert(list[i as int].1 != list[0].1);
            return false;
        }
        i = i + 1;
    }
    true
}

fn push_versus_numbers(out: &mut Vec<char>, values: &Vec<(String, u64)>)
    ensures
        final(out)@ == old(out)@ + versus_numbers(named_view(values@)),
{
    let ghost list = named_view(values@);
    let mut i: usize = 0;
    assert(list.take(0) =~= Seq::<(Seq<char>, u64)>::empty());
    assert(out@ =~= old(out)@ + versus_numbers(list.take(0)));
    while i < values.len()
        invariant
            i <= values.len(),
            list == named_view(values@),
            out@ == old(out)@ + versus_numbers(list.take(i as int)),
        decreases values.len() - i,
    {
        assert(list.take(i + 1).drop_last() =~= list.take(i as int));
        assert(list.take(i + 1).last() == list[i as int]);
        if i > 0 {
            push_text(out, " vs ");
        }
        push_decimal(out, values[i].1);
        i = i + 1;
        assert(out@ =~= old(out)@ + versus_numbers(list.take(i as int)));
    }
    assert(list.take(i as int) =~= list);
}

/// What the check of one dimension finds.
struct Finding {
    differs: bool,
    unverified: bool,
    text: String,
    detail: Option<DimensionMismatch>,
}

fn check_dimension(parents: &[ParentModel], d: Dimension) -> (r: Finding)
    ensures
        r.describes(parents@, d),
{
    reveal(differs);
    reveal(unverified);
    reveal(mismatch_text);
    reveal(mismatch_of);
    let values = collect_values(parents, d);
    if values.len() < 2 {
        return Finding { differs: false, unverified: true, text: String::new(), detail: None };
    }
    if values_all_same(&values) {
        return Finding { differs: false, unverified: false, text: String::new(), detail: None };
    }
    let mut msg: Vec<char> = Vec::new();
    push_text(&mut msg, d.lead());
    push_versus_numbers(&mut msg, &values);
    push_text(&mut msg, d.tail());
    assert(msg@ =~= mismatch_text(parents@, d));
    let severity = match d {
        Dimension::Hidden => "error",
        _ => "warning",
    };
    Finding {
        differs: true,
        unverified: false,
        text: string_of(msg.as_slice()),
        detail: Some(
            DimensionMismatch {
                dimension_name: d.name().to_owned(),
                values,
                severity: severity.to_owned(),
            },
        ),
    }
}

fn collect_architectures(parents: &[ParentModel]) -> (r: Vec<String>)
    ensures
        text_list(r@) == known_architectures(parents@),
{
    let mut out: Vec<String> = Vec::new();
    let mut i: usize = 0;
    assert(parents@.take(0) =~= Seq::<ParentModel>::empty());
    assert(text_list(out@) =~= known_architectures(parents@.take(0)));
    while i < parents.len()
        invariant
            i <= parents.len(),
            text_list(out@) == known_architectures(parents@.take(i as int)),
        decreases parents.len() - i,
    {
        let ghost before = text_list(out@);
        assert(parents@.take(i + 1).drop_last() =~= parents@.take(i as int));
        match &parents[i].compat.architecture {
            Some(a) => {
                out.push(a.clone());
                assert(text_list(out@) =~= before.push(a@));
            },
            None => {},
        }
        i = i + 1;
    }
    assert(parents@.take(i as int) =~= parents@);
    out
}

fn architectures_same(known: &Vec<String>) -> (r: bool)
    requires
        known@.len() > 0,
    ensures
        r == same_architecture(text_list(known@)),
{
    let ghost list = text_list(known@);
    let first = lowercase(known[0].as_str());
    let mut i: usize = 0;
    while i < known.len()
        invariant
            i <= known.len(),
            list == text_list(known@),
            first@ == lowercase_of(list[0]),
            forall|j: int| 0 <= j < i ==> lowercase_of(#[trigger] list[j]) == lowercase_of(list[0]),
        decreases known.len() - i,
    {
        let lower = lowercase(known[i].as_str());
        if !str_eq(lower.as_str(), first.as_str()) {
            assert(lowercase_of(list[i as int]) != lowercase_of(list[0]));
            return false;
        }
        i = i + 1;
    }
    true
}

fn push_versus_texts(out: &mut Vec<char>, items: &Vec<String>)
    ensures
        final(out)@ == old(out)@ + versus_texts(text_list(items@)),
{
    let ghost list = text_list(items@);
    let mut i: usize = 0;
    assert(list.take(0) =~= Seq::<Seq<char>>::empty());
    assert(out@ =~= old(out)@ + versus_texts(list.take(0)));
    while i < items.len()
        invariant
            i <= items.len(),
            list == text_list(items@),
            out@ == old(out)@ + versus_texts(list.take(i as int)),
        decreases items.len() - i,
    {
        assert(list.take(i + 1).drop_last() =~= list.take(i as int));
        assert(list.take(i + 1).last() == list[i as int]);
        if i > 0 {
            push_text(out, " vs ");
        }
        push_text(out, items[i].as_str());
        i = i + 1;
        assert(out@ =~= old(out)@ + versus_texts(list.take(i as int)));
    }
    assert(list.take(i as int) =~= list);
}

fn count_most_tensors(parents: &[ParentModel]) -> (r: usize)
    ensures
        r == most_tensors(parents@),
{
    let mut most: usize = 0;
    let mut i: usize = 0;
    assert(parents@.take(0) =~= Seq::<ParentModel>::empty());
    while i < parents.len()
        invariant
            i <= parents.len(),
            most == most_tensors(parents@.take(i as int)),
        decreases parents.len() - i,
    {
        assert(parents@.take(i + 1).drop_last() =~= parents@.take(i as int));
        let own = parents[i].compat.tensor_metas.len();
        if own > most {
            most = own;
        }
        i = i + 1;
    }
    assert(parents@.take(i as int) =~= parents@);
    most
}

fn formats_mixed(parents: &[ParentModel]) -> (r: bool)
    ensures
        r == mixed_formats(parents@),
{
    reveal(mixed_formats);
    if parents.len() < 2 {
        return false;
    }
    let mut i: usize = 0;
    while i < parents.len() - 1
        invariant
            parents.len() >= 2,
            i <= parents.len() - 1,
            forall|j: int| 0 <= j < i ==> (#[trigger] parents@[j]).format == parents@[j + 1].format,
        decreases parents.len() - i,
    {
        if parents[i].format != parents[i + 1].format {
            proof {
                reveal(mixed_formats);
            }
            return true;
        }
        i = i + 1;
    }
    proof {
        reveal(mixed_formats);
    }
    false
}

fn push_overlap_figures(out: &mut Vec<char>, shared: usize, most: usize)
    requires
        most > 0,
        shared <= most,
    ensures
        final(out)@ == old(out)@ + overlap_figures(shared as nat, most as nat),
{
    reveal(overlap_figures);
    let num: u128 = (shared as u128) * 100;
    let den: u128 = most as u128;
    let q: u128 = num / den;
    let rem: u128 = num % den;
    assert(q <= 100) by (nonlinear_arith)
        requires
            q == num / den,
            num <= den * 100,
            den > 0,
    ;
    let pct: u128 = if 2 * rem < den {
        q
    } else if 2 * rem > den {
        q + 1
    } else if q % 2 == 0 {
        q
    } else {
        q + 1
    };
    push_decimal(out, pct as u64);
    push_text(out, "% (");
    push_decimal(out, shared as u64);
    push_text(out, "/");
    push_decimal(out, most as u64);
    push_text(out, ")");
    assert(out@ =~= old(out)@ + overlap_figures(shared as nat, most as nat));
}

fn make_strategy(name: &str, description: &str, dimension: &str, quality: &str) -> (r:
    ResolutionStrategy)
    ensures
        r@ == strategy(name@, description@, seq![dimension@], quality@),
{
    let mut applicable_to: Vec<String> = Vec::new();
    applicable_to.push(dimension.to_owned());
    assert(text_list(applicable_to@) =~= seq![dimension@]);
    ResolutionStrategy {
        name: name.to_owned(),
        description: description.to_owned(),
        applicable_to,
        estimated_size_change_bytes: 0,
        quality_estimate: quality.to_owned(),
        requires_training: false,
    }
}

fn push_strategies_for(out: &mut Vec<ResolutionStrategy>, dimension_name: &str)
    ensures
        strategies_view(final(out)@) == strategies_view(old(out)@) + strategies_for(
            dimension_name@,
        ),
{
    let ghost before = strategies_view(out@);
    if str_eq(dimension_name, "hidden_dim") {
        out.push(
            make_strategy(
                "zero_padding",
                "Pad smaller model's hidden dimension with zeros to match larger model",
                "hidden_dim",
                "medium",
            ),
        );
        out.push(
            make_strategy(
                "interpolation",
                "Interpolate tensor dimensions to match target size",
                "hidden_dim",
                "medium",
            ),
        );
        out.push(
            make_strategy(
                "truncation",
                "Truncate larger model's dimensions to match smaller model",
                "hidden_dim",
                "low",
            ),
        );
        assert(strategies_view(out@) =~= before + strategies_for(dimension_name@));
    } else if str_eq(dimension_name, "vocab_size") {
        out.push(
            make_strategy(
                "zero_padding",
                "Extend embedding matrix with zero rows for missing tokens",
                "vocab_size",
                "high",
            ),
        );
        out.push(
            make_strategy(
                "truncation",
                "Truncate vocabulary to smaller model's size",
                "vocab_size",
                "medium",
            ),
        );
        assert(strategies_view(out@) =~= before + strategies_for(dimension_name@));
    } else {
        assert(strategies_view(out@) =~= before + strategies_for(dimension_name@));
    }
}

/// The strategies that answer a list of mismatches.
pub fn generate_resolution_strategies(mismatches: &[DimensionMismatch]) -> (r: Vec<
    ResolutionStrategy,
>)
    ensures
        strategies_view(r@) == strategies_of(details_view(mismatches@)),
{
    let ghost details = details_view(mismatches@);
    let mut out: Vec<ResolutionStrategy> = Vec::new();
    let mut names: Vec<String> = Vec::new();
    let mut i: usize = 0;
    assert(strategies_view(out@) =~= strategies_upto(details, 0));
    while i < mismatches.len()
        invariant
            i <= mismatches.len(),
            details == details_view(mismatches@),
            strategies_view(out@) == strategies_upto(details, i as nat),
            names@.len() == i,
            forall|j: int| 0 <= j < i ==> (#[trigger] names@[j])@ == details[j].dimension_name,
        decreases mismatches.len() - i,
    {
        assert(details[i as int] == mismatches@[i as int]@);
        push_strategies_for(&mut out, mismatches[i].dimension_name.as_str());
        names.push(mismatches[i].dimension_name.clone());
        i = i + 1;
    }
    if mismatches.len() > 0 {
        assert(text_list(names@) =~= dimension_names(details));
        out.push(
            ResolutionStrategy {
                name: "moe_routing".to_owned(),
                description: "Convert to Mixture-of-Experts: each parent becomes an expert, router handles dimension differences".to_owned(),
                applicable_to: names,
                estimated_size_change_bytes: 0,
                quality_estimate: "high".to_owned(),
                requires_training: false,
            },
        );
        assert(strategies_view(out@) =~= strategies_of(details));
    }
    out
}

fn first_note(present: bool, text: String) -> (list: Vec<String>)
    ensures
        text_list(list@) == noted(present, text@),
{
    let mut list: Vec<String> = Vec::new();
    if present {
        list.push(text);
    }
    assert(text_list(list@) =~= noted(present, text@));
    list
}

fn note(list: &mut Vec<String>, present: bool, text: String)
    ensures
        text_list(final(list)@) == text_list(old(list)@) + noted(present, text@),
{
    let ghost before = text_list(list@);
    if present {
        list.push(text);
        assert(text_list(list@) =~= before + noted(present, text@));
    } else {
        assert(text_list(list@) =~= before + noted(present, text@));
    }
}

fn note_detail(list: &mut Vec<DimensionMismatch>, finding: Finding, Ghost(parents): Ghost<
    Seq<ParentModel>,
>, Ghost(d): Ghost<Dimension>)
    requires
        finding.describes(parents, d),
    ensures
        details_view(final(list)@) == details_view(old(list)@) + detail_when(parents, d),
{
    let ghost before = details_view(list@);
    match finding.detail {
        Some(detail) => {
            list.push(detail);
            assert(details_view(list@) =~= before + detail_when(parents, d));
        },
        None => {
            assert(details_view(list@) =~= before + detail_when(parents, d));
        },
    }
}

fn architecture_error(known: &Vec<String>) -> (r: String)
    ensures
        r@ == "Architecture mismatch: "@ + versus_texts(text_list(known@)),
{
    let mut msg: Vec<char> = Vec::new();
    push_text(&mut msg, "Architecture mismatch: ");
    push_versus_texts(&mut msg, known);
    assert(msg@ =~= "Architecture mismatch: "@ + versus_texts(text_list(known@)));
    string_of(msg.as_slice())
}

fn overlap_message(lead: &str, shared: usize, most: usize) -> (r: String)
    requires
        most > 0,
        shared <= most,
    ensures
        r@ == lead@ + overlap_figures(shared as nat, most as nat),
{
    let mut msg: Vec<char> = Vec::new();
    push_text(&mut msg, lead);
    push_overlap_figures(&mut msg, shared, most);
    assert(msg@ =~= lead@ + overlap_figures(shared as nat, most as nat));
    string_of(msg.as_slice())
}

impl Finding {
    /// The finding is that of the check of `d` over `parents`.
    spec fn describes(&self, parents: Seq<ParentModel>, d: Dimension) -> bool {
        &&& self.differs == differs(parents, d)
        &&& self.unverified == unverified(parents, d)
        &&& self.differs ==> self.text@ == mismatch_text(parents, d)
        &&& self.differs ==> self.detail is Some && self.detail->0@ == mismatch_of(parents, d)
        &&& !self.differs ==> self.detail is None
    }
}

fn join_lists(a: Vec<String>, b: Vec<String>) -> (r: Vec<String>)
    ensures
        text_list(r@) == text_list(a@) + text_list(b@),
{
    let mut out = a;
    let mut rest = b;
    let ghost first = text_list(out@);
    let ghost second = text_list(rest@);
    out.append(&mut rest);
    assert(text_list(out@) =~= first + second);
    out
}

fn build_metadata_warnings(
    parents: &[ParentModel],
    known_count: usize,
    hidden: &Finding,
    layers: &Finding,
) -> (r: Vec<String>)
    requires
        known_count == known_architectures(parents@).len(),
        hidden.describes(parents@, Dimension::Hidden),
        layers.describes(parents@, Dimension::Layers),
    ensures
        text_list(r@) == metadata_warnings(parents@),
{
    let mut warnings = first_note(
        known_count < 2,
        "Could not verify architecture compatibility (metadata missing)".to_owned(),
    );
    note(
        &mut warnings,
        hidden.unverified,
        "Could not verify hidden dimension compatibility".to_owned(),
    );
    note(
        &mut warnings,
        layers.unverified,
        "Could not verify layer count compatibility".to_owned(),
    );
    warnings
}

fn build_difference_warnings(
    parents: &[ParentModel],
    layers: &Finding,
    vocab: &Finding,
    heads: &Finding,
    kv_heads: &Finding,
    context: &Finding,
) -> (r: Vec<String>)
    requires
        layers.describes(parents@, Dimension::Layers),
        vocab.describes(parents@, Dimension::Vocab),
        heads.describes(parents@, Dimension::AttentionHeads),
        kv_heads.describes(parents@, Dimension::KvHeads),
        context.describes(parents@, Dimension::Context),
    ensures
        text_list(r@) == difference_warnings(parents@),
{
    let mut warnings = first_note(layers.differs, layers.text.clone());
    note(&mut warnings, vocab.differs, vocab.text.clone());
    note(&mut warnings, heads.differs, heads.text.clone());
    note(&mut warnings, kv_heads.differs, kv_heads.text.clone());
    note(&mut warnings, context.differs, context.text.clone());
    warnings
}

fn build_overlap_warnings(parents: &[ParentModel], shared: usize, most: usize) -> (r: Vec<String>)
    requires
        shared == shared_set(parents@).len(),
        most == most_tensors(parents@),
        shared <= most,
    ensures
        text_list(r@) == overlap_warnings(parents@),
{
    let very_low = most > 0 && (shared as u128) * 100 < (most as u128) * 50;
    let low = most > 0 && !very_low && (shared as u128) * 100 < (most as u128) * 80;
    let mixed = formats_mixed(parents);
    let low_text = if low {
        overlap_message("Tensor name overlap below 80%: ", shared, most)
    } else {
        String::new()
    };
    let mut warnings = first_note(low, low_text);
    note(
        &mut warnings,
        mixed,
        "Mixed formats detected (GGUF tensors will be dequantized to F32)".to_owned(),
    );
    warnings
}

fn build_warnings(
    parents: &[ParentModel],
    known_count: usize,
    hidden: &Finding,
    layers: &Finding,
    vocab: &Finding,
    heads: &Finding,
    kv_heads: &Finding,
    context: &Finding,
    shared: usize,
    most: usize,
) -> (r: Vec<String>)
    requires
        known_count == known_architectures(parents@).len(),
        hidden.describes(parents@, Dimension::Hidden),
        layers.describes(parents@, Dimension::Layers),
        vocab.describes(parents@, Dimension::Vocab),
        heads.describes(parents@, Dimension::AttentionHeads),
        kv_heads.describes(parents@, Dimension::KvHeads),
        context.describes(parents@, Dimension::Context),
        shared == shared_set(parents@).len(),
        most == most_tensors(parents@),
        shared <= most,
    ensures
        text_list(r@) == warnings_of(parents@),
{
    let first = build_metadata_warnings(parents, known_count, hidden, layers);
    let second = build_difference_warnings(parents, layers, vocab, heads, kv_heads, context);
    let third = build_overlap_warnings(parents, shared, most);
    join_lists(join_lists(first, second), third)
}

fn build_errors(
    parents: &[ParentModel],
    known: &Vec<String>,
    arch_match: bool,
    hidden: &Finding,
    shared: usize,
    most: usize,
) -> (r: Vec<String>)
    requires
        text_list(known@) == known_architectures(parents@),
        arch_match == architectures_match(parents@),
        hidden.describes(parents@, Dimension::Hidden),
        shared == shared_set(parents@).len(),
        most == most_tensors(parents@),
        shared <= most,
    ensures
        text_list(r@) == errors_of(parents@),
{
    let very_low = most > 0 && (shared as u128) * 100 < (most as u128) * 50;
    let arch_text = if !arch_match {
        architecture_error(known)
    } else {
        String::new()
    };
    let mut errors = first_note(!arch_match, arch_text);
    note(&mut errors, hidden.differs, hidden.text.clone());
    let very_low_text = if very_low {
        overlap_message("Very low tensor name overlap: ", shared, most)
    } else {
        String::new()
    };
    note(&mut errors, very_low, very_low_text);
    errors
}

fn build_details(
    parents: &[ParentModel],
    hidden: Finding,
    layers: Finding,
    vocab: Finding,
    heads: Finding,
    kv_heads: Finding,
    context: Finding,
) -> (r: Vec<DimensionMismatch>)
    requires
        hidden.describes(parents@, Dimension::Hidden),
        layers.describes(parents@, Dimension::Layers),
        vocab.describes(parents@, Dimension::Vocab),
        heads.describes(parents@, Dimension::AttentionHeads),
        kv_heads.describes(parents@, Dimension::KvHeads),
        context.describes(parents@, Dimension::Context),
    ensures
        details_view(r@) == details_of(parents@),
{
    let mut details: Vec<DimensionMismatch> = Vec::new();
    assert(details_view(details@) =~= Seq::<DimensionMismatchView>::empty());
    note_detail(&mut details, hidden, Ghost(parents@), Ghost(Dimension::Hidden));
    assert(details_view(details@) =~= detail_when(parents@, Dimension::Hidden));
    note_detail(&mut details, layers, Ghost(parents@), Ghost(Dimension::Layers));
    note_detail(&mut details, vocab, Ghost(parents@), Ghost(Dimension::Vocab));
    note_detail(&mut details, heads, Ghost(parents@), Ghost(Dimension::AttentionHeads));
    note_detail(&mut details, kv_heads, Ghost(parents@), Ghost(Dimension::KvHeads));
    note_detail(&mut details, context, Ghost(parents@), Ghost(Dimension::Context));
    details
}

fn too_few_parents() -> (r: CompatReport)
    ensures
        r@ == report_of(Seq::<ParentModel>::empty()),
{
    let mut errors: Vec<String> = Vec::new();
    errors.push("At least 2 parent models required".to_owned());
    let report = CompatReport {
        compatible: false,
        warnings: Vec::new(),
        errors,
        shared_tensor_count: 0,
        total_tensor_count: 0,
        architecture_match: false,
        dimension_match: false,
        layer_count_match: false,
        dimension_details: Vec::new(),
        resolution_strategies: Vec::new(),
    };
    assert(report@.warnings =~= Seq::<Seq<char>>::empty());
    assert(report@.errors =~= seq!["At least 2 parent models required"@]);
    assert(report@.dimension_details =~= Seq::<DimensionMismatchView>::empty());
    assert(report@.resolution_strategies =~= Seq::<ResolutionStrategyView>::empty());
    report
}

/// Checks whether the parents of the registry can be merged.
pub fn check_compatibility(registry: &ParentRegistry) -> (r: CompatReport)
    ensures
        r@ == report_of(registry@),
{
    let parents = registry.all();
    if parents.len() < 2 {
        return too_few_parents();
    }
    let known = collect_architectures(parents);
    let arch_match = known.len() < 2 || architectures_same(&known);
    let hidden = check_dimension(parents, Dimension::Hidden);
    let layers = check_dimension(parents, Dimension::Layers);
    let vocab = check_dimension(parents, Dimension::Vocab);
    let heads = check_dimension(parents, Dimension::AttentionHeads);
    let kv_heads = check_dimension(parents, Dimension::KvHeads);
    let context = check_dimension(parents, Dimension::Context);
    let shared = registry.shared_tensor_count();
    let most = count_most_tensors(parents);
    proof {
        shared_at_most(parents@);
    }
    let warnings = build_warnings(
        parents,
        known.len(),
        &hidden,
        &layers,
        &vocab,
        &heads,
        &kv_heads,
        &context,
        shared,
        most,
    );
    let errors = build_errors(parents, &known, arch_match, &hidden, shared, most);
    let dimension_match = !hidden.differs;
    let layer_count_match = !layers.differs;
    let details = build_details(parents, hidden, layers, vocab, heads, kv_heads, context);
    let resolution_strategies = generate_resolution_strategies(details.as_slice());
    CompatReport {
        compatible: errors.len() == 0,
        warnings,
        errors,
        shared_tensor_count: shared,
        total_tensor_count: most,
        architecture_match: arch_match,
        dimension_match,
        layer_count_match,
        dimension_details: details,
        resolution_strategies,
    }
}

/// No more tensor names are shared than the parent with the most tensors
/// has.
pub proof fn shared_at_most(parents: Seq<ParentModel>)
    requires
        parents.len() >= 2,
    ensures
        shared_set(parents).finite(),
        shared_set(parents).len() <= most_tensors(parents),
{
    let first = parents[0];
    let metas = first.compat.tensor_metas@;
    let names = Seq::new(metas.len(), |i: int| metas[i].name@);
    assert(shared_set(parents).subset_of(names.to_set())) by {
        assert forall|n: Seq<char>| shared_set(parents).contains(n) implies names.to_set().contains(
            n,
        ) by {
            assert(first.has_tensor(n));
            crate::seqs::first_where_is_least(metas, |m: crate::registry::TensorMeta| m.name@ == n);
            let k = first.compat.tensor_index(n)->0;
            assert(names[k] == n);
        }
    }
    vstd::seq_lib::seq_to_set_is_finite(names);
    names.lemma_cardinality_of_set();
    vstd::set_lib::lemma_len_subset(shared_set(parents), names.to_set());
    most_tensors_bounds(parents, 0);
}

/// Every parent has at most as many tensors as the parent with the most.
pub proof fn most_tensors_bounds(parents: Seq<ParentModel>, i: int)
    requires
        0 <= i < parents.len(),
    ensures
        parents[i].compat.tensor_metas@.len() <= most_tensors(parents),
    decreases parents.len(),
{
    if i < parents.len() - 1 {
        most_tensors_bounds(parents.drop_last(), i);
    }
}

} // verus!
