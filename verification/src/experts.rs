//! The names of the tensors that a conversion to a mixture of experts
//! makes: each parent's copy of a feed-forward tensor bears the number of
//! the expert that the parent becomes.

use vstd::prelude::*;
use crate::text::{
    chars_of, contains, decimal_text, digit_char, digit_value, digits_value, find_sub, first_match,
    first_match_from_is_least, head_of, matches_at, push_chars, push_decimal, push_text, string_of,
    tail_of,
};

verus! {

/// The place at which the number of the expert is put into a name: before
/// the first `mlp`; without one, before the first `ffn_`; without either,
/// at the start.
pub open spec fn expert_place(name: Seq<char>) -> int {
    match first_match(name, "mlp"@) {
        Some(p) => p,
        None => match first_match(name, "ffn_"@) {
            Some(p) => p,
            None => 0,
        },
    }
}

/// What is put into the name of the copy that becomes expert `i`.
pub open spec fn expert_tag(i: nat) -> Seq<char> {
    "experts."@ + decimal_text(i) + "."@
}

/// The name of the copy of a feed-forward tensor that becomes expert `i`:
/// `model.layers.0.mlp.up_proj.weight` becomes
/// `model.layers.0.experts.1.mlp.up_proj.weight` for the expert 1.
pub open spec fn expert_name(name: Seq<char>, i: nat) -> Seq<char> {
    name.take(expert_place(name)) + expert_tag(i) + name.skip(expert_place(name))
}

/// The place lies within the name.
pub proof fn expert_place_is_within(name: Seq<char>)
    ensures
        0 <= expert_place(name) <= name.len(),
{
    first_match_from_is_least(name, "mlp"@, 0);
    first_match_from_is_least(name, "ffn_"@, 0);
}

/// A decimal text denotes the number it was made of.
pub proof fn decimal_text_denotes(n: nat)
    ensures
        digits_value(decimal_text(n)) == n,
    decreases n,
{
    if n < 10 {
        assert(decimal_text(n).drop_last() =~= Seq::<char>::empty());
        assert(digits_value(decimal_text(n).drop_last()) == 0);
        assert(digit_value(digit_char(n)) == n);
    } else {
        decimal_text_denotes(n / 10);
        assert(decimal_text(n).drop_last() =~= decimal_text(n / 10));
        assert(decimal_text(n).last() == digit_char(n % 10));
        assert(digit_value(digit_char(n % 10)) == n % 10);
    }
}

/// The name of an expert's copy holds `experts.` and the number of the
/// expert.
pub proof fn expert_name_holds_its_number(name: Seq<char>, i: nat)
    ensures
        contains(expert_name(name, i), "experts."@ + decimal_text(i)),
{
    expert_place_is_within(name);
    let p = expert_place(name);
    let mark = "experts."@ + decimal_text(i);
    let whole = expert_name(name, i);
    assert(whole.subrange(p, p + mark.len()) =~= mark);
    assert(matches_at(whole, mark, p));
}

/// The copies of one tensor for two different experts bear different
/// names.
pub proof fn expert_names_differ(name: Seq<char>, i: nat, j: nat)
    requires
        i != j,
    ensures
        expert_name(name, i) != expert_name(name, j),
{
    expert_place_is_within(name);
    let p = expert_place(name);
    let a = expert_name(name, i);
    let b = expert_name(name, j);
    let di = decimal_text(i);
    let dj = decimal_text(j);
    if a == b {
        reveal_strlit("experts.");
        reveal_strlit(".");
        assert(a.len() == name.len() + 9 + di.len());
        assert(b.len() == name.len() + 9 + dj.len());
        assert(di.len() == dj.len());
        assert(di =~= dj) by {
            assert forall|k: int| 0 <= k < di.len() implies di[k] == dj[k] by {
                assert(a[p + 8 + k] == di[k]);
                assert(b[p + 8 + k] == dj[k]);
            }
        }
        decimal_text_denotes(i);
        decimal_text_denotes(j);
    }
}

/// The name of the copy of a feed-forward tensor that becomes expert `i`.
pub fn make_expert_name(name: &str, i: usize) -> (r: String)
    ensures
        r@ == expert_name(name@, i as nat),
{
    let chars = chars_of(name);
    let mlp = chars_of("mlp");
    let ffn = chars_of("ffn_");
    let place: usize = match find_sub(chars.as_slice(), mlp.as_slice()) {
        Some(p) => p,
        None => match find_sub(chars.as_slice(), ffn.as_slice()) {
            Some(p) => p,
            None => 0,
        },
    };
    proof {
        expert_place_is_within(name@);
    }
    let mut out = head_of(chars.as_slice(), place);
    push_text(&mut out, "experts.");
    push_decimal(&mut out, i as u64);
    push_text(&mut out, ".");
    let rest = tail_of(chars.as_slice(), place);
    push_chars(&mut out, rest.as_slice());
    assert(out@ =~= expert_name(name@, i as nat));
    string_of(out.as_slice())
}

} // verus!
