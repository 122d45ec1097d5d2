//! Dividing one dimension of a tensor among the parents of a merge by
//! slices: which entries each parent contributes. The shares of the parents
//! are computed from their weights by the caller, in floating point; what is
//! made of the shares is decided here.

use vstd::prelude::*;

verus! {

/// A slice of a dimension.
#[derive(Clone, Copy, Debug, PartialEq, Eq, Structural)]
pub struct Slice {
    /// The first entry of the slice.
    pub offset: usize,
    /// The number of its entries.
    pub len: usize,
}

/// The length of the slice of the parent `i`, where `offset` entries are
/// given out already: the last parent takes what is left, every other
/// parent its share, and at least one entry.
pub open spec fn slice_len(dim: usize, shares: Seq<usize>, i: int, offset: usize) -> int {
    if i == shares.len() - 1 {
        dim - offset
    } else if shares[i] == 0 {
        1
    } else {
        shares[i] as int
    }
}

/// The slices of the parents from `i` on, where `offset` entries are given
/// out already. The first slice that would end beyond the dimension ends
/// the list: neither its parent nor a later one contributes.
pub open spec fn slices_from(dim: usize, shares: Seq<usize>, i: int, offset: usize) -> Seq<Slice>
    decreases shares.len() - i,
{
    if i < 0 || i >= shares.len() || offset > dim {
        Seq::empty()
    } else {
        let len = slice_len(dim, shares, i, offset);
        if offset + len > dim {
            Seq::empty()
        } else {
            seq![Slice { offset, len: len as usize }] + slices_from(
                dim,
                shares,
                i + 1,
                (offset + len) as usize,
            )
        }
    }
}

/// The slices of a dimension of `dim` entries for parents with the given
/// shares.
pub open spec fn weighted_slices_of(dim: usize, shares: Seq<usize>) -> Seq<Slice> {
    slices_from(dim, shares, 0, 0)
}

/// The slices lie one behind the other from `offset` on, within the
/// dimension, and no parent has more than one; where every parent from `i`
/// on has one, the slices reach the end of the dimension.
pub proof fn slices_tile(dim: usize, shares: Seq<usize>, i: int, offset: usize)
    requires
        0 <= i <= shares.len(),
        offset <= dim,
    ensures
        ({
            let slices = slices_from(dim, shares, i, offset);
            &&& slices.len() <= shares.len() - i
            &&& slices.len() > 0 ==> slices[0].offset == offset
            &&& forall|k: int|
                0 <= k < slices.len() ==> (#[trigger] slices[k]).offset + slices[k].len <= dim
            &&& forall|k: int|
                0 <= k < slices.len() - 1 ==> (#[trigger] slices[k]).offset + slices[k].len
                    == slices[k + 1].offset
            &&& slices.len() > 0 && slices.len() == shares.len() - i ==> slices.last().offset
                + slices.last().len == dim
        }),
    decreases shares.len() - i,
{
    let slices = slices_from(dim, shares, i, offset);
    if i < shares.len() {
        let len = slice_len(dim, shares, i, offset);
        if offset + len <= dim {
            let next = (offset + len) as usize;
            let rest = slices_from(dim, shares, i + 1, next);
            slices_tile(dim, shares, i + 1, next);
            assert(slices =~= seq![Slice { offset, len: len as usize }] + rest);
            assert forall|k: int| 0 <= k < slices.len() implies (#[trigger] slices[k]).offset
                + slices[k].len <= dim by {
                if k > 0 {
                    assert(slices[k] == rest[k - 1]);
                }
            }
            assert forall|k: int| 0 <= k < slices.len() - 1 implies (#[trigger] slices[k]).offset
                + slices[k].len == slices[k + 1].offset by {
                assert(slices[k + 1] == rest[k]);
                if k > 0 {
                    assert(slices[k] == rest[k - 1]);
                }
            }
            if slices.len() == shares.len() - i {
                if rest.len() > 0 {
                    assert(slices.last() == rest.last());
                }
            }
        }
    }
}

/// Divides a dimension of `dim_size` entries among parents with the given
/// shares.
pub fn weighted_slices(dim_size: usize, shares: &[usize]) -> (r: Vec<Slice>)
    ensures
        r@ == weighted_slices_of(dim_size, shares@),
{
    let mut out: Vec<Slice> = Vec::new();
    let mut offset: usize = 0;
    let mut i: usize = 0;
    let count = shares.len();
    assert(out@ + slices_from(dim_size, shares@, 0, 0) =~= weighted_slices_of(dim_size, shares@));
    while i < count
        invariant
            count == shares@.len(),
            i <= count,
            offset <= dim_size,
            out@ + slices_from(dim_size, shares@, i as int, offset) == weighted_slices_of(
                dim_size,
                shares@,
            ),
        decreases count - i,
    {
        let len: usize = if i == count - 1 {
            dim_size - offset
        } else if shares[i] == 0 {
            1
        } else {
            shares[i]
        };
        assert(len == slice_len(dim_size, shares@, i as int, offset));
        if len > dim_size - offset {
            assert(out@ + Seq::<Slice>::empty() =~= out@);
            return out;
        }
        let ghost before = out@;
        let ghost rest = slices_from(dim_size, shares@, i + 1, (offset + len) as usize);
        out.push(Slice { offset, len });
        assert(out@ + rest =~= before + (seq![Slice { offset, len }] + rest));
        offset = offset + len;
        i = i + 1;
    }
    assert(out@ + Seq::<Slice>::empty() =~= out@);
    out
}

/// The slices that configured ranges describe: each range runs from its
/// first number up to, and without, its second.
pub open spec fn range_slices_of(ranges: Seq<(usize, usize)>) -> Seq<Slice> {
    Seq::new(
        ranges.len(),
        |i: int| Slice { offset: ranges[i].0, len: (ranges[i].1 - ranges[i].0) as usize },
    )
}

/// No range ends before it begins.
pub open spec fn ranges_in_order(ranges: Seq<(usize, usize)>) -> bool {
    forall|i: int| 0 <= i < ranges.len() ==> (#[trigger] ranges[i]).0 <= ranges[i].1
}

/// Whether no range ends before it begins.
pub fn ranges_are_in_order(ranges: &[(usize, usize)]) -> (r: bool)
    ensures
        r == ranges_in_order(ranges@),
{
    let mut i: usize = 0;
    while i < ranges.len()
        invariant
            i <= ranges.len(),
            forall|j: int| 0 <= j < i ==> (#[trigger] ranges@[j]).0 <= ranges@[j].1,
        decreases ranges.len() - i,
    {
        if ranges[i].0 > ranges[i].1 {
            return false;
        }
        i = i + 1;
    }
    true
}

/// The slices that configured ranges describe.
pub fn range_slices(ranges: &[(usize, usize)]) -> (r: Vec<Slice>)
    requires
        ranges_in_order(ranges@),
    ensures
        r@ == range_slices_of(ranges@),
{
    let mut out: Vec<Slice> = Vec::new();
    let mut i: usize = 0;
    while i < ranges.len()
        invariant
            i <= ranges.len(),
            ranges_in_order(ranges@),
            out@ == range_slices_of(ranges@).take(i as int),
        decreases ranges.len() - i,
    {
        let (start, end) = ranges[i];
        assert(ranges@[i as int].0 <= ranges@[i as int].1);
        out.push(Slice { offset: start, len: end - start });
        i = i + 1;
        assert(out@ =~= range_slices_of(ranges@).take(i as int));
    }
    assert(range_slices_of(ranges@).take(i as int) =~= range_slices_of(ranges@));
    out
}

} // verus!
