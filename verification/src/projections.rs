//! Deciding how a tensor is brought to another shape: which dimensions are
//! cut, which are filled up with zeros, and where values are interpolated.
//! The arithmetic on the values is not part of this library.

use vstd::prelude::*;
use crate::error::{ModelError, ModelErrorView};
use crate::text::{decimal_text, push_decimal, push_text, str_eq, string_of};

verus! {

/// What is done to one dimension: it is cut to `keep` entries, and then
/// `pad` zero entries are added.
#[derive(Clone, Copy, Debug, PartialEq, Eq, Structural)]
pub struct DimChange {
    pub keep: usize,
    pub pad: usize,
}

/// How a tensor is brought to a target shape.
#[derive(Clone, Debug)]
pub enum Projection {
    /// The tensor has the target shape already.
    Keep,
    /// Each dimension is cut and filled up as its change says.
    Resize(Vec<DimChange>),
    /// A vector is interpolated linearly to this length.
    Linear { target_len: usize },
    /// A matrix is resampled to this many rows and columns, each entry
    /// taken from its nearest neighbour.
    Nearest { rows: usize, cols: usize },
}

/// The text of the error for shapes of different rank.
pub open spec fn rank_text(source: nat, target: nat) -> Seq<char> {
    "Shape rank mismatch: source has "@ + decimal_text(source) + " dims, target has "@
        + decimal_text(target)
}

/// The text of the error for a dimension that is too long to be filled up.
pub open spec fn too_long_text(dim: nat, source: nat, target: nat) -> Seq<char> {
    "Cannot zero-pad: source dim "@ + decimal_text(dim) + " ("@ + decimal_text(source)
        + ") > target ("@ + decimal_text(target) + ")"@
}

/// The change that fills a dimension of `s` entries up to `t`.
pub open spec fn pad_change(s: usize, t: usize) -> DimChange {
    DimChange { keep: s, pad: if s < t {
        (t - s) as usize
    } else {
        0
    } }
}

/// The change that cuts a dimension of `s` entries down to `t`.
pub open spec fn cut_change(s: usize, t: usize) -> DimChange {
    DimChange { keep: if t < s {
        t
    } else {
        s
    }, pad: 0 }
}

/// The change that cuts a dimension of `s` entries down to `t` or fills it
/// up to `t`.
pub open spec fn fit_change(s: usize, t: usize) -> DimChange {
    DimChange { keep: if t < s {
        t
    } else {
        s
    }, pad: if s < t {
        (t - s) as usize
    } else {
        0
    } }
}

/// The first dimension in which the source is longer than the target.
pub open spec fn first_longer(source: Seq<usize>, target: Seq<usize>) -> Option<int> {
    crate::seqs::first_where(
        Seq::new(source.len(), |i: int| (source[i], target[i])),
        |p: (usize, usize)| p.0 > p.1,
    )
}

/// The kinds of change.
#[derive(Clone, Copy, Debug, PartialEq, Eq, Structural)]
pub enum Fitting {
    Pad,
    Cut,
    Fit,
}

impl Fitting {
    /// The change of a dimension of `s` entries towards `t`.
    pub open spec fn change(self, s: usize, t: usize) -> DimChange {
        match self {
            Fitting::Pad => pad_change(s, t),
            Fitting::Cut => cut_change(s, t),
            Fitting::Fit => fit_change(s, t),
        }
    }
}

/// The changes of all dimensions.
pub open spec fn changes(source: Seq<usize>, target: Seq<usize>, how: Fitting) -> Seq<DimChange> {
    Seq::new(source.len(), |i: int| how.change(source[i], target[i]))
}

/// How a tensor is brought to a target shape, with lists in place of
/// vectors.
pub enum ProjectionView {
    Keep,
    Resize(Seq<DimChange>),
    Linear { target_len: usize },
    Nearest { rows: usize, cols: usize },
}

impl View for Projection {
    type V = ProjectionView;

    open spec fn view(&self) -> ProjectionView {
        match *self {
            Projection::Keep => ProjectionView::Keep,
            Projection::Resize(c) => ProjectionView::Resize(c@),
            Projection::Linear { target_len } => ProjectionView::Linear { target_len },
            Projection::Nearest { rows, cols } => ProjectionView::Nearest { rows, cols },
        }
    }
}

/// The error of a projection.
pub open spec fn projection_error(text: Seq<char>) -> ModelErrorView {
    ModelErrorView::CandleError(text)
}

/// Filling up with zeros: every dimension must be at most as long as the
/// target's.
pub open spec fn zero_pad_plan(source: Seq<usize>, target: Seq<usize>) -> Result<
    ProjectionView,
    ModelErrorView,
> {
    if source.len() != target.len() {
        Err(projection_error(rank_text(source.len(), target.len())))
    } else if source == target {
        Ok(ProjectionView::Keep)
    } else {
        match first_longer(source, target) {
            Some(i) => Err(
                projection_error(too_long_text(i as nat, source[i] as nat, target[i] as nat)),
            ),
            None => Ok(ProjectionView::Resize(changes(source, target, Fitting::Pad))),
        }
    }
}

/// Cutting: every dimension that is longer than the target's is cut to it.
pub open spec fn truncate_plan(source: Seq<usize>, target: Seq<usize>) -> Result<
    ProjectionView,
    ModelErrorView,
> {
    if source.len() != target.len() {
        Err(projection_error(rank_text(source.len(), target.len())))
    } else if source == target {
        Ok(ProjectionView::Keep)
    } else {
        Ok(ProjectionView::Resize(changes(source, target, Fitting::Cut)))
    }
}

/// Some dimension of the target is 0.
pub open spec fn has_zero(target: Seq<usize>) -> bool {
    exists|i: int| 0 <= i < target.len() && #[trigger] target[i] == 0
}

/// Interpolating: a vector linearly, a matrix by nearest neighbours; a
/// tensor of higher rank is cut and filled up instead.
pub open spec fn interpolate_plan(source: Seq<usize>, target: Seq<usize>) -> Result<
    ProjectionView,
    ModelErrorView,
> {
    if source.len() != target.len() {
        Err(projection_error(rank_text(source.len(), target.len())))
    } else if source == target {
        Ok(ProjectionView::Keep)
    } else if source.len() == 1 {
        Ok(ProjectionView::Linear { target_len: target[0] })
    } else if source.len() == 2 {
        Ok(ProjectionView::Nearest { rows: target[0], cols: target[1] })
    } else if has_zero(target) {
        Err(projection_error("Invalid target shape"@))
    } else {
        Ok(ProjectionView::Resize(changes(source, target, Fitting::Fit)))
    }
}

/// The plan of the strategy `strategy`.
pub open spec fn adapt_plan(source: Seq<usize>, target: Seq<usize>, strategy: Seq<char>) -> Result<
    ProjectionView,
    ModelErrorView,
> {
    if strategy == "zero_padding"@ {
        zero_pad_plan(source, target)
    } else if strategy == "truncation"@ {
        truncate_plan(source, target)
    } else if strategy == "interpolation"@ {
        interpolate_plan(source, target)
    } else {
        Err(projection_error("Unknown projection strategy: "@ + strategy))
    }
}

/// The shape that a plan gives a tensor of the shape `source`.
pub open spec fn projected_shape(source: Seq<usize>, plan: ProjectionView) -> Seq<int> {
    match plan {
        ProjectionView::Keep => Seq::new(source.len(), |i: int| source[i] as int),
        ProjectionView::Resize(c) => Seq::new(c.len(), |i: int| c[i].keep + c[i].pad),
        ProjectionView::Linear { target_len } => seq![target_len as int],
        ProjectionView::Nearest { rows, cols } => seq![rows as int, cols as int],
    }
}

/// Filling up and interpolating give the target shape; cutting gives in
/// each dimension the shorter of source and target.
pub proof fn plans_reach_their_shape(source: Seq<usize>, target: Seq<usize>)
    ensures
        zero_pad_plan(source, target) is Ok ==> projected_shape(
            source,
            zero_pad_plan(source, target)->Ok_0,
        ) == Seq::new(target.len(), |i: int| target[i] as int),
        interpolate_plan(source, target) is Ok ==> projected_shape(
            source,
            interpolate_plan(source, target)->Ok_0,
        ) == Seq::new(target.len(), |i: int| target[i] as int),
        truncate_plan(source, target) is Ok ==> projected_shape(
            source,
            truncate_plan(source, target)->Ok_0,
        ) == Seq::new(
            source.len(),
            |i: int|
                if target[i] < source[i] {
                    target[i] as int
                } else {
                    source[i] as int
                },
        ),
{
    let goal = Seq::new(target.len(), |i: int| target[i] as int);
    if zero_pad_plan(source, target) is Ok {
        let got = projected_shape(source, zero_pad_plan(source, target)->Ok_0);
        if source != target {
            let pairs = Seq::new(source.len(), |i: int| (source[i], target[i]));
            crate::seqs::first_where_is_least(pairs, |p: (usize, usize)| p.0 > p.1);
            assert forall|i: int| 0 <= i < source.len() implies source[i] <= target[i] by {
                assert(pairs[i] == (source[i], target[i]));
            }
        }
        assert(got =~= goal);
    }
    if interpolate_plan(source, target) is Ok {
        assert(projected_shape(source, interpolate_plan(source, target)->Ok_0) =~= goal);
    }
    if truncate_plan(source, target) is Ok {
        assert(projected_shape(source, truncate_plan(source, target)->Ok_0) =~= Seq::new(
            source.len(),
            |i: int|
                if target[i] < source[i] {
                    target[i] as int
                } else {
                    source[i] as int
                },
        ));
    }
}

fn rank_error(source: usize, target: usize) -> (e: ModelError)
    ensures
        e@ == projection_error(rank_text(source as nat, target as nat)),
{
    let mut msg: Vec<char> = Vec::new();
    push_text(&mut msg, "Shape rank mismatch: source has ");
    push_decimal(&mut msg, source as u64);
    push_text(&mut msg, " dims, target has ");
    push_decimal(&mut msg, target as u64);
    assert(msg@ =~= rank_text(source as nat, target as nat));
    ModelError::CandleError(string_of(msg.as_slice()))
}

fn same_shape(a: &[usize], b: &[usize]) -> (r: bool)
    requires
        a@.len() == b@.len(),
    ensures
        r == (a@ == b@),
{
    let mut i: usize = 0;
    while i < a.len()
        invariant
            i <= a.len(),
            a@.len() == b@.len(),
            forall|j: int| 0 <= j < i ==> a@[j] == b@[j],
        decreases a.len() - i,
    {
        if a[i] != b[i] {
            return false;
        }
        i = i + 1;
    }
    assert(a@ =~= b@);
    true
}

fn make_changes(source: &[usize], target: &[usize], how: Fitting) -> (r: Vec<DimChange>)
    requires
        source@.len() == target@.len(),
    ensures
        r@ == changes(source@, target@, how),
{
    let mut out: Vec<DimChange> = Vec::new();
    let mut i: usize = 0;
    while i < source.len()
        invariant
            i <= source.len(),
            source@.len() == target@.len(),
            out@.len() == i,
            forall|j: int| 0 <= j < i ==> out@[j] == how.change(source@[j], target@[j]),
        decreases source.len() - i,
    {
        let s = source[i];
        let t = target[i];
        let change = match how {
            Fitting::Pad => DimChange { keep: s, pad: if s < t {
                t - s
            } else {
                0
            } },
            Fitting::Cut => DimChange { keep: if t < s {
                t
            } else {
                s
            }, pad: 0 },
            Fitting::Fit => DimChange { keep: if t < s {
                t
            } else {
                s
            }, pad: if s < t {
                t - s
            } else {
                0
            } },
        };
        out.push(change);
        i = i + 1;
    }
    assert(out@ =~= changes(source@, target@, how));
    out
}

/// Plans the filling up of a tensor with zeros.
pub fn zero_pad(source: &[usize], target: &[usize]) -> (r: Result<Projection, ModelError>)
    ensures
        match r {
            Ok(p) => zero_pad_plan(source@, target@) == Ok::<ProjectionView, ModelErrorView>(p@),
            Err(e) => zero_pad_plan(source@, target@) == Err::<ProjectionView, ModelErrorView>(e@),
        },
{
    if source.len() != target.len() {
        return Err(rank_error(source.len(), target.len()));
    }
    if same_shape(source, target) {
        return Ok(Projection::Keep);
    }
    let ghost pairs = Seq::new(source@.len(), |i: int| (source@[i], target@[i]));
    let ghost p = |p: (usize, usize)| p.0 > p.1;
    let mut i: usize = 0;
    while i < source.len()
        invariant
            i <= source.len(),
            source@.len() == target@.len(),
            pairs == Seq::new(source@.len(), |i: int| (source@[i], target@[i])),
            p == (|p: (usize, usize)| p.0 > p.1),
            forall|j: int| 0 <= j < i ==> !p(#[trigger] pairs[j]),
        decreases source.len() - i,
    {
        if source[i] > target[i] {
            proof {
                assert(p(pairs[i as int]));
                crate::seqs::first_where_found(pairs, p, i as int);
            }
            let mut msg: Vec<char> = Vec::new();
            push_text(&mut msg, "Cannot zero-pad: source dim ");
            push_decimal(&mut msg, i as u64);
            push_text(&mut msg, " (");
            push_decimal(&mut msg, source[i] as u64);
            push_text(&mut msg, ") > target (");
            push_decimal(&mut msg, target[i] as u64);
            push_text(&mut msg, ")");
            assert(msg@ =~= too_long_text(i as nat, source@[i as int] as nat, target@[i as int] as nat));
            return Err(ModelError::CandleError(string_of(msg.as_slice())));
        }
        i = i + 1;
    }
    proof {
        crate::seqs::first_where_absent(pairs, p);
    }
    Ok(Projection::Resize(make_changes(source, target, Fitting::Pad)))
}

/// Plans the cutting of a tensor.
pub fn truncate(source: &[usize], target: &[usize]) -> (r: Result<Projection, ModelError>)
    ensures
        match r {
            Ok(p) => truncate_plan(source@, target@) == Ok::<ProjectionView, ModelErrorView>(p@),
            Err(e) => truncate_plan(source@, target@) == Err::<ProjectionView, ModelErrorView>(e@),
        },
{
    if source.len() != target.len() {
        return Err(rank_error(source.len(), target.len()));
    }
    if same_shape(source, target) {
        return Ok(Projection::Keep);
    }
    Ok(Projection::Resize(make_changes(source, target, Fitting::Cut)))
}

/// Plans the interpolation of a tensor.
pub fn interpolate(source: &[usize], target: &[usize]) -> (r: Result<Projection, ModelError>)
    ensures
        match r {
            Ok(p) => interpolate_plan(source@, target@) == Ok::<ProjectionView, ModelErrorView>(p@),
            Err(e) => interpolate_plan(source@, target@) == Err::<ProjectionView, ModelErrorView>(
                e@,
            ),
        },
{
    if source.len() != target.len() {
        return Err(rank_error(source.len(), target.len()));
    }
    if same_shape(source, target) {
        return Ok(Projection::Keep);
    }
    if source.len() == 1 {
        return Ok(Projection::Linear { target_len: target[0] });
    }
    if source.len() == 2 {
        return Ok(Projection::Nearest { rows: target[0], cols: target[1] });
    }
    if source.len() == 0 {
        assert(source@ =~= target@);
    }
    let mut i: usize = 0;
    while i < target.len()
        invariant
            i <= target.len(),
            source@.len() == target@.len(),
            source@ != target@,
            source@.len() > 2,
            forall|j: int| 0 <= j < i ==> #[trigger] target@[j] != 0,
        decreases target.len() - i,
    {
        if target[i] == 0 {
            return Err(ModelError::CandleError("Invalid target shape".to_owned()));
        }
        i = i + 1;
    }
    Ok(Projection::Resize(make_changes(source, target, Fitting::Fit)))
}

/// Plans how a tensor of the shape `source` is brought to the shape
/// `target` by the strategy `strategy`: `zero_padding`, `truncation` or
/// `interpolation`.
pub fn adapt_tensor(source: &[usize], target: &[usize], strategy: &str) -> (r: Result<
    Projection,
    ModelError,
>)
    ensures
        match r {
            Ok(p) => adapt_plan(source@, target@, strategy@) == Ok::<
                ProjectionView,
                ModelErrorView,
            >(p@),
            Err(e) => adapt_plan(source@, target@, strategy@) == Err::<
                ProjectionView,
                ModelErrorView,
            >(e@),
        },
{
    if str_eq(strategy, "zero_padding") {
        zero_pad(source, target)
    } else if str_eq(strategy, "truncation") {
        truncate(source, target)
    } else if str_eq(strategy, "interpolation") {
        interpolate(source, target)
    } else {
        let mut msg: Vec<char> = Vec::new();
        push_text(&mut msg, "Unknown projection strategy: ");
        push_text(&mut msg, strategy);
        assert(msg@ =~= "Unknown projection strategy: "@ + strategy@);
        Err(ModelError::CandleError(string_of(msg.as_slice())))
    }
}

/// A rank mismatch is an error whatever the strategy.
pub proof fn rank_mismatch_always_fails(source: Seq<usize>, target: Seq<usize>, strategy: Seq<char>)
    requires
        source.len() != target.len(),
    ensures
        adapt_plan(source, target, strategy) is Err,
{
}

} // verus!
