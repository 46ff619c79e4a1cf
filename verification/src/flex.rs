//! Distribution of leftover space along one axis.
//!
//! Every child starts at its minimum. What is left of the available space is
//! then handed out in proportion to the children's weights, in two passes over
//! the children in declared order: loose children first, each capped at its
//! maximum, then tight children, which take their whole share. After each
//! child the share of a unit of weight is recomputed from what is still
//! left, so that space a capped child could not take goes to later children.

use vstd::prelude::*;
use vstd::arithmetic::div_mod::lemma_fundamental_div_mod;
use crate::geometry::{max_int, min_int, min_usize, sub_or_zero};
use crate::layout::{FlexFit, LayoutError};

verus! {

/// One child's request along the axis being distributed.
#[derive(Debug, Clone, Copy, PartialEq, Eq, Structural)]
pub struct MinMaxFlex {
    pub min: usize,
    pub max: usize,
    pub flex: usize,
    pub fit: FlexFit,
}

impl MinMaxFlex {
    pub fn new(min: usize, max: usize, flex: usize, fit: FlexFit) -> (r: Self)
        ensures
            r == (MinMaxFlex { min, max, flex, fit }),
    {
        MinMaxFlex { min, max, flex, fit }
    }
}

/// Sum of the minimums of the first `k` children.
pub open spec fn min_upto(items: Seq<MinMaxFlex>, k: int) -> int
    decreases k,
{
    if k <= 0 {
        0
    } else {
        min_upto(items, k - 1) + items[k - 1].min
    }
}

/// Sum of all minimums: the space that is never up for distribution.
pub open spec fn sum_min(items: Seq<MinMaxFlex>) -> int {
    min_upto(items, items.len() as int)
}

/// Sum of the weights of the first `k` children.
pub open spec fn weight_upto(items: Seq<MinMaxFlex>, k: int) -> int
    decreases k,
{
    if k <= 0 {
        0
    } else {
        weight_upto(items, k - 1) + items[k - 1].flex
    }
}

/// Sum of all weights.
pub open spec fn sum_weight(items: Seq<MinMaxFlex>) -> int {
    weight_upto(items, items.len() as int)
}

/// Sum of the weights of those among the first `k` children whose fit is `fit`.
pub open spec fn fit_weight(items: Seq<MinMaxFlex>, fit: FlexFit, k: int) -> int
    decreases k,
{
    if k <= 0 {
        0
    } else {
        fit_weight(items, fit, k - 1) + if items[k - 1].fit == fit {
            items[k - 1].flex as int
        } else {
            0
        }
    }
}

/// `space * weight / remaining`, rounded to the nearest whole cell, halves
/// rounding up. A child without weight, or a pass without weight left, gets
/// nothing.
pub open spec fn round_share(space: int, weight: int, remaining: int) -> int {
    if weight <= 0 || remaining <= 0 {
        0
    } else {
        let product = space * weight;
        product / remaining + if 2 * (product % remaining) >= remaining {
            1int
        } else {
            0int
        }
    }
}

/// What a child is granted on top of its minimum when `space` cells and
/// `remaining` units of weight are still undistributed.
pub open spec fn grant(item: MinMaxFlex, space: int, remaining: int) -> int {
    let proposed = round_share(space, item.flex as int, remaining);
    match item.fit {
        FlexFit::Loose => min_int(proposed, max_int(item.max - item.min, 0)),
        FlexFit::Tight => proposed,
    }
}

/// Space still undistributed after the pass over children of fit `fit` has
/// gone through the first `k` children, having started with `space` cells
/// and `weight` units of weight.
pub open spec fn space_left(
    items: Seq<MinMaxFlex>,
    fit: FlexFit,
    space: int,
    weight: int,
    k: int,
) -> int
    decreases k,
{
    if k <= 0 {
        space
    } else {
        let before = space_left(items, fit, space, weight, k - 1);
        if items[k - 1].fit == fit {
            before - grant(items[k - 1], before, weight - fit_weight(items, fit, k - 1))
        } else {
            before
        }
    }
}

/// Space still undistributed when it is the turn of child `i`: loose
/// children come before all tight ones, and within a pass the children are
/// taken in declared order.
pub open spec fn space_before(items: Seq<MinMaxFlex>, available: int, i: int) -> int {
    let n = items.len() as int;
    let space = available - sum_min(items);
    let weight = sum_weight(items);
    match items[i].fit {
        FlexFit::Loose => space_left(items, FlexFit::Loose, space, weight, i),
        FlexFit::Tight => space_left(
            items,
            FlexFit::Tight,
            space_left(items, FlexFit::Loose, space, weight, n),
            weight - fit_weight(items, FlexFit::Loose, n),
            i,
        ),
    }
}

/// Weight not yet served when it is the turn of child `i`, its own included.
pub open spec fn weight_before(items: Seq<MinMaxFlex>, i: int) -> int {
    let n = items.len() as int;
    match items[i].fit {
        FlexFit::Loose => sum_weight(items) - fit_weight(items, FlexFit::Loose, i),
        FlexFit::Tight => sum_weight(items) - fit_weight(items, FlexFit::Loose, n) - fit_weight(
            items,
            FlexFit::Tight,
            i,
        ),
    }
}

/// What child `i` is granted on top of its minimum when `available` cells are
/// distributed over `items`.
pub open spec fn flex_grant(items: Seq<MinMaxFlex>, available: int, i: int) -> int {
    grant(items[i], space_before(items, available, i), weight_before(items, i))
}

/// Final size of child `i`.
pub open spec fn flex_size(items: Seq<MinMaxFlex>, available: int, i: int) -> int {
    items[i].min + flex_grant(items, available, i)
}

/// Sum of the first `k` entries of a list of sizes.
pub open spec fn size_upto(sizes: Seq<usize>, k: int) -> int
    decreases k,
{
    if k <= 0 {
        0
    } else {
        size_upto(sizes, k - 1) + sizes[k - 1]
    }
}

/// Sum of a list of sizes.
pub open spec fn sum_sizes(sizes: Seq<usize>) -> int {
    size_upto(sizes, sizes.len() as int)
}

/// A prefix of the minimums never sums to more than all of them.
pub proof fn lemma_min_upto_monotonic(items: Seq<MinMaxFlex>, j: int, k: int)
    requires
        0 <= j <= k,
    ensures
        0 <= min_upto(items, j) <= min_upto(items, k),
    decreases k,
{
    if j < k {
        lemma_min_upto_monotonic(items, j, k - 1);
    } else if k > 0 {
        lemma_min_upto_monotonic(items, j - 1, k - 1);
    }
}

/// The weights of one fit among a prefix never sum to more than among a
/// longer prefix.
pub proof fn lemma_fit_weight_monotonic(items: Seq<MinMaxFlex>, fit: FlexFit, j: int, k: int)
    requires
        0 <= j <= k,
    ensures
        0 <= fit_weight(items, fit, j) <= fit_weight(items, fit, k),
    decreases k,
{
    if j < k {
        lemma_fit_weight_monotonic(items, fit, j, k - 1);
    } else if k > 0 {
        lemma_fit_weight_monotonic(items, fit, j - 1, k - 1);
    }
}

/// Every weight belongs to a loose or to a tight child.
pub proof fn lemma_weight_split(items: Seq<MinMaxFlex>, k: int)
    requires
        0 <= k,
    ensures
        weight_upto(items, k) == fit_weight(items, FlexFit::Loose, k) + fit_weight(
            items,
            FlexFit::Tight,
            k,
        ),
        weight_upto(items, k) <= k * usize::MAX,
    decreases k,
{
    if k > 0 {
        lemma_weight_split(items, k - 1);
        assert((k - 1) * usize::MAX + usize::MAX == k * usize::MAX) by (nonlinear_arith);
    }
}

/// A share is never negative and never more than the space it is cut from,
/// as long as the child's weight is part of the remaining weight.
pub proof fn lemma_round_share_bounds(space: int, weight: int, remaining: int)
    requires
        0 <= space,
        0 <= weight <= remaining,
    ensures
        0 <= round_share(space, weight, remaining) <= space,
{
    if weight > 0 {
        let product = space * weight;
        assert(0 <= product) by (nonlinear_arith)
            requires
                0 <= space,
                0 <= weight,
                product == space * weight,
        ;
        assert(product <= space * remaining) by (nonlinear_arith)
            requires
                0 <= space,
                weight <= remaining,
                product == space * weight,
        ;
        let q = product / remaining;
        let m = product % remaining;
        lemma_fundamental_div_mod(product, remaining);
        assert(0 <= q) by (nonlinear_arith)
            requires
                product == remaining * q + m,
                0 <= product,
                0 <= m < remaining,
        ;
        assert(q <= space && (q == space ==> m == 0)) by (nonlinear_arith)
            requires
                product == remaining * q + m,
                product <= space * remaining,
                0 <= m < remaining,
        ;
    }
}

/// A grant is never negative, never exceeds the space left, and keeps a
/// loose child whose range is in order within its maximum.
pub proof fn lemma_grant_bounds(item: MinMaxFlex, space: int, remaining: int)
    requires
        0 <= space,
        item.flex <= remaining,
    ensures
        0 <= grant(item, space, remaining) <= space,
        item.fit == FlexFit::Loose && item.min <= item.max ==> item.min + grant(
            item,
            space,
            remaining,
        ) <= item.max,
        item.fit == FlexFit::Tight ==> grant(item, space, remaining) == round_share(
            space,
            item.flex as int,
            remaining,
        ),
{
    lemma_round_share_bounds(space, item.flex as int, remaining);
}

/// During a pass the space left never becomes negative and never grows.
pub proof fn lemma_space_left_bounds(
    items: Seq<MinMaxFlex>,
    fit: FlexFit,
    space: int,
    weight: int,
    k: int,
)
    requires
        0 <= space,
        0 <= k <= items.len(),
        fit_weight(items, fit, items.len() as int) <= weight,
    ensures
        0 <= space_left(items, fit, space, weight, k) <= space,
    decreases k,
{
    if k > 0 {
        lemma_space_left_bounds(items, fit, space, weight, k - 1);
        lemma_fit_weight_monotonic(items, fit, k, items.len() as int);
        if items[k - 1].fit == fit {
            lemma_grant_bounds(
                items[k - 1],
                space_left(items, fit, space, weight, k - 1),
                weight - fit_weight(items, fit, k - 1),
            );
        }
    }
}

/// Replacing one entry changes the sum by the difference.
pub proof fn lemma_size_upto_update(sizes: Seq<usize>, i: int, v: usize, k: int)
    requires
        0 <= i < sizes.len(),
        0 <= k <= sizes.len(),
    ensures
        size_upto(sizes.update(i, v), k) == size_upto(sizes, k) + if i < k {
            v - sizes[i]
        } else {
            0
        },
    decreases k,
{
    if k > 0 {
        lemma_size_upto_update(sizes, i, v, k - 1);
    }
}

/// No entry is larger than a sum it is part of.
pub proof fn lemma_size_upto_bounds(sizes: Seq<usize>, i: int, k: int)
    requires
        0 <= i < k <= sizes.len(),
    ensures
        sizes[i] <= size_upto(sizes, k),
        0 <= size_upto(sizes, i),
    decreases k,
{
    if i < k - 1 {
        lemma_size_upto_bounds(sizes, i, k - 1);
    } else if i > 0 {
        lemma_size_upto_bounds(sizes, i - 1, k - 1);
    }
}

/// Appending an entry leaves the sums over the earlier entries as they were.
pub proof fn lemma_size_upto_push(sizes: Seq<usize>, v: usize, k: int)
    requires
        0 <= k <= sizes.len(),
    ensures
        size_upto(sizes.push(v), k) == size_upto(sizes, k),
    decreases k,
{
    if k > 0 {
        lemma_size_upto_push(sizes, v, k - 1);
    }
}

/// `space * weight / remaining` rounded to the nearest whole cell.
fn share_of(space: usize, weight: usize, remaining: u128) -> (r: usize)
    requires
        weight <= remaining,
    ensures
        r == round_share(space as int, weight as int, remaining as int),
        r <= space,
{
    if weight == 0 {
        return 0;
    }
    proof {
        lemma_round_share_bounds(space as int, weight as int, remaining as int);
        assert(space * weight <= usize::MAX * usize::MAX) by (nonlinear_arith)
            requires
                0 <= space <= usize::MAX,
                0 <= weight <= usize::MAX,
        ;
        assert(usize::MAX * usize::MAX <= 0xffff_ffff_ffff_ffff * 0xffff_ffff_ffff_ffff)
            by (nonlinear_arith)
            requires
                0 <= usize::MAX <= 0xffff_ffff_ffff_ffff,
        ;
        assert(0 <= space * weight) by (nonlinear_arith)
            requires
                0 <= space,
                0 <= weight,
        ;
    }
    let space_wide: u128 = space as u128;
    let weight_wide: u128 = weight as u128;
    let product: u128 = space_wide * weight_wide;
    let quotient: u128 = product / remaining;
    let rest: u128 = product % remaining;
    let rounded: u128 = if rest >= remaining - rest {
        quotient + 1
    } else {
        quotient
    };
    rounded as usize
}

/// Distributes `avail_size` cells over the children described by
/// `input_layout`.
///
/// Fails with `InsufficientSpace` exactly when the minimums alone do not fit.
/// Otherwise returns the space consumed and each child's final size, in the
/// order of the input: the child's minimum plus its grant. No child ends up
/// below its minimum, a loose child whose range is in order stays within its
/// maximum, and the sizes add up to the consumed space, which never exceeds
/// what was available.
pub fn compute_flex_layout(avail_size: usize, input_layout: &Vec<MinMaxFlex>) -> (r: Result<
    (usize, Vec<usize>),
    LayoutError,
>)
    ensures
        r is Ok <==> sum_min(input_layout@) <= avail_size,
        r is Err ==> r == Err::<(usize, Vec<usize>), LayoutError>(LayoutError::InsufficientSpace),
        r matches Ok((total, sizes)) ==> {
            &&& sizes@.len() == input_layout@.len()
            &&& forall|i: int|
                0 <= i < sizes@.len() ==> #[trigger] sizes@[i] == flex_size(
                    input_layout@,
                    avail_size as int,
                    i,
                )
            &&& forall|i: int| 0 <= i < sizes@.len() ==> input_layout@[i].min <= #[trigger] sizes@[i]
            &&& forall|i: int|
                0 <= i < sizes@.len() && input_layout@[i].fit == FlexFit::Loose
                    && input_layout@[i].min <= input_layout@[i].max ==> #[trigger] sizes@[i]
                    <= input_layout@[i].max
            &&& forall|i: int|
                0 <= i < sizes@.len() && input_layout@[i].fit == FlexFit::Tight
                    ==> #[trigger] sizes@[i] == input_layout@[i].min + round_share(
                    space_before(input_layout@, avail_size as int, i),
                    input_layout@[i].flex as int,
                    weight_before(input_layout@, i),
                )
            &&& total == sum_sizes(sizes@)
            &&& total <= avail_size
        },
{
    let n: usize = input_layout.len();
    let ghost items = input_layout@;
    let mut sizes: Vec<usize> = Vec::new();
    let mut fixed_sum: usize = 0;
    let mut flex_sum: u128 = 0;
    let mut i: usize = 0;
    while i < n
        invariant
            n == items.len(),
            items == input_layout@,
            0 <= i <= n,
            fixed_sum == min_upto(items, i as int),
            fixed_sum <= avail_size,
            flex_sum == weight_upto(items, i as int),
            sizes@.len() == i,
            forall|j: int| 0 <= j < i ==> #[trigger] sizes@[j] == items[j].min,
            size_upto(sizes@, i as int) == fixed_sum,
        decreases n - i,
    {
        let item = &input_layout[i];
        if item.min > avail_size - fixed_sum {
            proof {
                lemma_min_upto_monotonic(items, i + 1, n as int);
            }
            return Err(LayoutError::InsufficientSpace);
        }
        proof {
            lemma_weight_split(items, i as int);
            assert(i * usize::MAX + usize::MAX <= usize::MAX * usize::MAX) by (nonlinear_arith)
                requires
                    0 <= i < usize::MAX,
            ;
            assert(usize::MAX * usize::MAX <= 0xffff_ffff_ffff_ffff * 0xffff_ffff_ffff_ffff)
                by (nonlinear_arith)
                requires
                    0 <= usize::MAX <= 0xffff_ffff_ffff_ffff,
            ;
            lemma_size_upto_push(sizes@, item.min, i as int);
        }
        fixed_sum = fixed_sum + item.min;
        flex_sum = flex_sum + item.flex as u128;
        sizes.push(item.min);
        i = i + 1;
    }
    let ghost space0 = avail_size - fixed_sum;
    let ghost weight0 = flex_sum as int;
    proof {
        lemma_weight_split(items, n as int);
        lemma_fit_weight_monotonic(items, FlexFit::Tight, 0, n as int);
    }
    let mut total: usize = fixed_sum;
    let mut space: usize = avail_size - fixed_sum;
    let mut remaining: u128 = flex_sum;
    let mut i: usize = 0;
    while i < n
        invariant
            n == items.len(),
            items == input_layout@,
            0 <= i <= n,
            0 <= space0,
            space0 == avail_size - sum_min(items),
            weight0 == sum_weight(items),
            weight0 == fit_weight(items, FlexFit::Loose, n as int) + fit_weight(
                items,
                FlexFit::Tight,
                n as int,
            ),
            0 <= fit_weight(items, FlexFit::Tight, n as int),
            space == space_left(items, FlexFit::Loose, space0, weight0, i as int),
            remaining == weight0 - fit_weight(items, FlexFit::Loose, i as int),
            total + space == avail_size,
            sizes@.len() == n,
            total == sum_sizes(sizes@),
            forall|j: int|
                0 <= j < i && items[j].fit == FlexFit::Loose ==> #[trigger] sizes@[j] == flex_size(
                    items,
                    avail_size as int,
                    j,
                ),
            forall|j: int|
                0 <= j < n && !(j < i && items[j].fit == FlexFit::Loose) ==> #[trigger] sizes@[j]
                    == items[j].min,
            forall|j: int| 0 <= j < n ==> items[j].min <= #[trigger] sizes@[j],
            forall|j: int|
                0 <= j < n && items[j].fit == FlexFit::Loose && items[j].min <= items[j].max
                    ==> #[trigger] sizes@[j] <= items[j].max,
        decreases n - i,
    {
        let item = &input_layout[i];
        match item.fit {
            FlexFit::Loose => {
                proof {
                    lemma_fit_weight_monotonic(items, FlexFit::Loose, i + 1, n as int);
                    lemma_size_upto_update(
                        sizes@,
                        i as int,
                        (sizes@[i as int] + grant(*item, space as int, remaining as int)) as usize,
                        n as int,
                    );
                }
                let proposed: usize = share_of(space, item.flex, remaining);
                let room: usize = sub_or_zero(item.max, item.min);
                let add: usize = min_usize(room, proposed);
                space = space - add;
                remaining = remaining - item.flex as u128;
                let grown: usize = sizes[i] + add;
                sizes.set(i, grown);
                total = total + add;
            },
            FlexFit::Tight => {},
        }
        i = i + 1;
    }
    let ghost space1 = space as int;
    let ghost weight1 = remaining as int;
    let mut i: usize = 0;
    while i < n
        invariant
            n == items.len(),
            items == input_layout@,
            0 <= i <= n,
            0 <= space1,
            space0 == avail_size - sum_min(items),
            weight0 == sum_weight(items),
            space1 == space_left(items, FlexFit::Loose, space0, weight0, n as int),
            weight1 == weight0 - fit_weight(items, FlexFit::Loose, n as int),
            weight1 == fit_weight(items, FlexFit::Tight, n as int),
            space == space_left(items, FlexFit::Tight, space1, weight1, i as int),
            remaining == weight1 - fit_weight(items, FlexFit::Tight, i as int),
            total + space == avail_size,
            sizes@.len() == n,
            total == sum_sizes(sizes@),
            forall|j: int|
                0 <= j < n && (j < i || items[j].fit == FlexFit::Loose) ==> #[trigger] sizes@[j]
                    == flex_size(items, avail_size as int, j),
            forall|j: int|
                0 <= j < n && !(j < i || items[j].fit == FlexFit::Loose) ==> #[trigger] sizes@[j]
                    == items[j].min,
            forall|j: int| 0 <= j < n ==> items[j].min <= #[trigger] sizes@[j],
            forall|j: int|
                0 <= j < n && items[j].fit == FlexFit::Loose && items[j].min <= items[j].max
                    ==> #[trigger] sizes@[j] <= items[j].max,
        decreases n - i,
    {
        let item = &input_layout[i];
        match item.fit {
            FlexFit::Tight => {
                proof {
                    lemma_size_upto_bounds(sizes@, i as int, n as int);
                    lemma_fit_weight_monotonic(items, FlexFit::Tight, i + 1, n as int);
                    lemma_size_upto_update(
                        sizes@,
                        i as int,
                        (sizes@[i as int] + grant(*item, space as int, remaining as int)) as usize,
                        n as int,
                    );
                }
                let add: usize = share_of(space, item.flex, remaining);
                space = space - add;
                remaining = remaining - item.flex as u128;
                let grown: usize = sizes[i] + add;
                sizes.set(i, grown);
                total = total + add;
            },
            FlexFit::Loose => {},
        }
        i = i + 1;
    }
    Ok((total, sizes))
}

} // verus!
