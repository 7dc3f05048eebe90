//! The viewport partitioner: a pure function from a screen rectangle and a
//! declarative constraint list to an ordered sequence of sub-regions along
//! one axis.
//!
//! The split is deterministic. Every fixed constraint receives exactly its
//! requested length. Percentage constraints are resolved against the space
//! that remains after all fixed lengths are subtracted: each takes its
//! truncated share of that remaining pool (never more than the pool still
//! holds), and the last percentage constraint absorbs whatever the earlier
//! ones left behind, so truncation leftovers go to the last such partition.
//! The split fails with `InvalidLayout` exactly when the fixed lengths
//! alone ask for more than the region's extent along the axis.

use vstd::prelude::*;
use vstd::arithmetic::div_mod::lemma_div_pos_is_pos;
use vstd::arithmetic::mul::{lemma_mul_nonnegative, lemma_mul_upper_bound};
use vstd::math::min;
use crate::error::ConsoleError;

verus! {

/// A screen-space axis-aligned box: column `x`, row `y`, and a width and
/// height in character cells.
#[derive(Clone, Copy, Debug, PartialEq, Eq, Structural)]
pub struct Region {
    pub x: u16,
    pub y: u16,
    pub width: u16,
    pub height: u16,
}

impl Region {
    /// The region stays addressable in 16-bit screen coordinates.
    pub open spec fn wf(self) -> bool {
        &&& self.x + self.width <= u16::MAX
        &&& self.y + self.height <= u16::MAX
    }

    /// A region at `(x, y)` spanning `width` columns and `height` rows.
    pub fn new(x: u16, y: u16, width: u16, height: u16) -> (r: Region)
        requires
            x + width <= u16::MAX,
            y + height <= u16::MAX,
        ensures
            r == (Region { x, y, width, height }),
            r.wf(),
    {
        Region { x, y, width, height }
    }
}

/// `inner` lies entirely inside `outer`.
pub open spec fn region_within(inner: Region, outer: Region) -> bool {
    &&& outer.x <= inner.x
    &&& inner.x + inner.width <= outer.x + outer.width
    &&& outer.y <= inner.y
    &&& inner.y + inner.height <= outer.y + outer.height
}

/// The axis a region is split along.
#[derive(Clone, Copy, Debug, PartialEq, Eq, Structural)]
pub enum Axis {
    /// Pieces side by side, widths vary.
    Horizontal,
    /// Pieces stacked, heights vary.
    Vertical,
}

/// One declarative size request for a split.
#[derive(Clone, Copy, Debug, PartialEq, Eq, Structural)]
pub enum Constraint {
    /// A share of the space left after all fixed lengths, in percent.
    Percentage(u16),
    /// An exact length in cells.
    Fixed(u16),
}

/// The region's size along the split axis.
pub open spec fn extent_of(region: Region, axis: Axis) -> int {
    match axis {
        Axis::Horizontal => region.width as int,
        Axis::Vertical => region.height as int,
    }
}

/// The cells a constraint demands unconditionally.
pub open spec fn fixed_part(c: Constraint) -> int {
    match c {
        Constraint::Fixed(v) => v as int,
        Constraint::Percentage(_) => 0,
    }
}

/// Sum of the fixed lengths among the first `i` constraints.
pub open spec fn fixed_sum_first(cs: Seq<Constraint>, i: int) -> int
    decreases i,
{
    if i <= 0 {
        0
    } else {
        fixed_sum_first(cs, i - 1) + fixed_part(cs[i - 1])
    }
}

/// Sum of all fixed lengths in the constraint list.
pub open spec fn fixed_sum(cs: Seq<Constraint>) -> int {
    fixed_sum_first(cs, cs.len() as int)
}

/// Some constraint at index `from` or later is a percentage.
pub open spec fn has_percentage_from(cs: Seq<Constraint>, from: int) -> bool {
    exists|j: int| from <= j < cs.len() && (#[trigger] cs[j]) is Percentage
}

/// Some constraint in the list is a percentage.
pub open spec fn has_percentage(cs: Seq<Constraint>) -> bool {
    has_percentage_from(cs, 0)
}

/// How much of the percentage pool (`pt` cells at the start) is still
/// unassigned when resolution reaches constraint `i`. Fixed constraints
/// leave the pool alone; a percentage takes its truncated share of the
/// starting pool, capped by what is left, and the last percentage drains
/// the pool entirely.
pub open spec fn pool_at(cs: Seq<Constraint>, i: int, pt: int) -> int
    decreases i,
{
    if i <= 0 {
        pt
    } else {
        let prev = pool_at(cs, i - 1, pt);
        match cs[i - 1] {
            Constraint::Fixed(_) => prev,
            Constraint::Percentage(p) => if has_percentage_from(cs, i) {
                prev - min(pt * p / 100, prev)
            } else {
                0
            },
        }
    }
}

/// The cells assigned to constraint `i`.
pub open spec fn size_at(cs: Seq<Constraint>, i: int, pt: int) -> int {
    match cs[i] {
        Constraint::Fixed(v) => v as int,
        Constraint::Percentage(p) => if has_percentage_from(cs, i + 1) {
            min(pt * p / 100, pool_at(cs, i, pt))
        } else {
            pool_at(cs, i, pt)
        },
    }
}

/// Cells assigned to the first `i` constraints together; piece `i` starts
/// this far into the region.
pub open spec fn sizes_total(cs: Seq<Constraint>, i: int, pt: int) -> int
    decreases i,
{
    if i <= 0 {
        0
    } else {
        sizes_total(cs, i - 1, pt) + size_at(cs, i - 1, pt)
    }
}

/// The sub-region `offset` cells into `region` along `axis`, spanning
/// `size` cells along it and the region's full extent across it.
pub open spec fn sub_region(region: Region, axis: Axis, offset: int, size: int) -> Region {
    match axis {
        Axis::Horizontal => Region {
            x: (region.x + offset) as u16,
            y: region.y,
            width: size as u16,
            height: region.height,
        },
        Axis::Vertical => Region {
            x: region.x,
            y: (region.y + offset) as u16,
            width: region.width,
            height: size as u16,
        },
    }
}

/// The pieces a successful split returns, in constraint order.
pub open spec fn split_regions(region: Region, axis: Axis, cs: Seq<Constraint>) -> Seq<Region> {
    let pt = extent_of(region, axis) - fixed_sum(cs);
    Seq::new(cs.len(), |i: int| sub_region(region, axis, sizes_total(cs, i, pt), size_at(cs, i, pt)))
}

/// The fixed-length sum over a prefix is never negative.
proof fn lemma_fixed_sum_first_nonneg(cs: Seq<Constraint>, i: int)
    ensures
        0 <= fixed_sum_first(cs, i),
    decreases i,
{
    if i > 0 {
        lemma_fixed_sum_first_nonneg(cs, i - 1);
    }
}

/// The fixed-length sum grows with the prefix.
proof fn lemma_fixed_sum_first_mono(cs: Seq<Constraint>, i: int, j: int)
    requires
        0 <= i <= j,
    ensures
        fixed_sum_first(cs, i) <= fixed_sum_first(cs, j),
    decreases j - i,
{
    if i < j {
        lemma_fixed_sum_first_mono(cs, i, j - 1);
    }
}

/// The pool never goes negative and never exceeds its starting amount.
proof fn lemma_pool_at_bounds(cs: Seq<Constraint>, i: int, pt: int)
    requires
        0 <= pt,
    ensures
        0 <= pool_at(cs, i, pt) <= pt,
    decreases i,
{
    if i > 0 {
        lemma_pool_at_bounds(cs, i - 1, pt);
        match cs[i - 1] {
            Constraint::Fixed(_) => {},
            Constraint::Percentage(p) => {
                lemma_mul_nonnegative(pt, p as int);
                lemma_div_pos_is_pos(pt * p, 100);
            },
        }
    }
}

/// No piece has a negative size.
proof fn lemma_size_at_nonneg(cs: Seq<Constraint>, i: int, pt: int)
    requires
        0 <= pt,
    ensures
        0 <= size_at(cs, i, pt),
{
    lemma_pool_at_bounds(cs, i, pt);
    match cs[i] {
        Constraint::Fixed(_) => {},
        Constraint::Percentage(p) => {
            lemma_mul_nonnegative(pt, p as int);
            lemma_div_pos_is_pos(pt * p, 100);
        },
    }
}

/// Conservation: the cells handed out up to constraint `i` plus the pool
/// still unassigned equal the fixed lengths of the prefix plus the whole
/// starting pool.
proof fn lemma_sizes_total_eq(cs: Seq<Constraint>, i: int, pt: int)
    requires
        0 <= i,
    ensures
        sizes_total(cs, i, pt) + pool_at(cs, i, pt) == fixed_sum_first(cs, i) + pt,
    decreases i,
{
    if i > 0 {
        lemma_sizes_total_eq(cs, i - 1, pt);
    }
}

/// Assigned cells only accumulate as constraints are processed.
proof fn lemma_sizes_total_mono(cs: Seq<Constraint>, i: int, j: int, pt: int)
    requires
        0 <= i <= j,
        0 <= pt,
    ensures
        sizes_total(cs, i, pt) <= sizes_total(cs, j, pt),
    decreases j - i,
{
    if i < j {
        lemma_sizes_total_mono(cs, i, j - 1, pt);
        lemma_size_at_nonneg(cs, j - 1, pt);
    }
}

/// Once no percentage remains at or after index `i`, but the list holds
/// one somewhere, the pool is already drained when resolution reaches `i`.
proof fn lemma_pool_drained(cs: Seq<Constraint>, i: int, pt: int)
    requires
        0 <= i <= cs.len(),
        has_percentage(cs),
        !has_percentage_from(cs, i),
    ensures
        pool_at(cs, i, pt) == 0,
    decreases i,
{
    if i == 0 {
        assert(false);
    } else {
        if cs[i - 1] is Percentage {
        } else {
            assert(!has_percentage_from(cs, i - 1)) by {
                if has_percentage_from(cs, i - 1) {
                    let j = choose|j: int|
                        i - 1 <= j < cs.len() && (#[trigger] cs[j]) is Percentage;
                    assert(i <= j < cs.len() && cs[j] is Percentage);
                }
            }
            lemma_pool_drained(cs, i - 1, pt);
        }
    }
}

/// Without any percentage constraint the pool is never touched.
proof fn lemma_pool_untouched(cs: Seq<Constraint>, i: int, pt: int)
    requires
        0 <= i <= cs.len(),
        !has_percentage(cs),
    ensures
        pool_at(cs, i, pt) == pt,
    decreases i,
{
    if i > 0 {
        lemma_pool_untouched(cs, i - 1, pt);
        assert(!(cs[i - 1] is Percentage));
    }
}

/// Laws of a successful split. The pieces tile the region in constraint
/// order: piece `i` starts `sizes_total(cs, i, pt)` cells into the region
/// and spans `size_at(cs, i, pt)` cells, so each piece begins where the
/// one before it ends, no piece leaves the parent region, and none has
/// negative size. With at least one percentage constraint the pieces
/// consume the region's whole extent along the axis; with only fixed
/// constraints they consume exactly the sum of the fixed lengths.
pub proof fn lemma_split_within_parent(region: Region, axis: Axis, cs: Seq<Constraint>)
    requires
        region.wf(),
        fixed_sum(cs) <= extent_of(region, axis),
    ensures
        split_regions(region, axis, cs).len() == cs.len(),
        forall|i: int|
            0 <= i < cs.len() ==> region_within(
                #[trigger] split_regions(region, axis, cs)[i],
                region,
            ),
        has_percentage(cs) ==> sizes_total(cs, cs.len() as int, extent_of(region, axis) - fixed_sum(cs))
            == extent_of(region, axis),
        !has_percentage(cs) ==> sizes_total(cs, cs.len() as int, extent_of(region, axis) - fixed_sum(cs))
            == fixed_sum(cs),
{
    let extent = extent_of(region, axis);
    let pt = extent - fixed_sum(cs);
    let n = cs.len() as int;
    lemma_fixed_sum_first_nonneg(cs, n);
    lemma_sizes_total_eq(cs, n, pt);
    lemma_pool_at_bounds(cs, n, pt);
    if has_percentage(cs) {
        assert(!has_percentage_from(cs, n));
        lemma_pool_drained(cs, n, pt);
    } else {
        lemma_pool_untouched(cs, n, pt);
    }
    assert forall|i: int| 0 <= i < n implies region_within(
        #[trigger] split_regions(region, axis, cs)[i],
        region,
    ) by {
        lemma_sizes_total_mono(cs, 0, i, pt);
        lemma_sizes_total_mono(cs, i + 1, n, pt);
        lemma_size_at_nonneg(cs, i, pt);
        assert(sizes_total(cs, i + 1, pt) == sizes_total(cs, i, pt) + size_at(cs, i, pt));
        assert(sizes_total(cs, n, pt) <= extent);
        assert(split_regions(region, axis, cs)[i]
            == sub_region(region, axis, sizes_total(cs, i, pt), size_at(cs, i, pt)));
    }
}

/// Splits `region` along `axis` into one sub-region per constraint, in
/// constraint order, by the deterministic policy of this module. Fails
/// with `InvalidLayout` exactly when the fixed lengths together exceed
/// the region's extent along the axis.
pub fn split(region: Region, axis: Axis, constraints: &Vec<Constraint>) -> (r: Result<
    Vec<Region>,
    ConsoleError,
>)
    requires
        region.wf(),
    ensures
        r is Ok <==> fixed_sum(constraints@) <= extent_of(region, axis),
        r matches Ok(parts) ==> parts@ == split_regions(region, axis, constraints@),
        r is Err ==> r == Err::<Vec<Region>, ConsoleError>(ConsoleError::InvalidLayout),
{
    let ghost cs = constraints@;
    let extent: u16 = match axis {
        Axis::Horizontal => region.width,
        Axis::Vertical => region.height,
    };
    let n: usize = constraints.len();

    let mut fsum: u32 = 0;
    let mut i: usize = 0;
    while i < n
        invariant
            n == cs.len(),
            cs == constraints@,
            i <= n,
            extent as int == extent_of(region, axis),
            fsum as int == fixed_sum_first(cs, i as int),
            fsum <= extent as u32,
        decreases n - i,
    {
        match constraints[i] {
            Constraint::Fixed(v) => {
                let next: u32 = fsum + v as u32;
                if next > extent as u32 {
                    proof {
                        lemma_fixed_sum_first_mono(cs, i as int + 1, n as int);
                    }
                    return Err(ConsoleError::InvalidLayout);
                }
                fsum = next;
            },
            Constraint::Percentage(_) => {},
        }
        i = i + 1;
    }

    let mut last_pct: Option<usize> = None;
    let mut j: usize = 0;
    while j < n
        invariant
            n == cs.len(),
            cs == constraints@,
            j <= n,
            last_pct matches Some(t) ==> t < j && cs[t as int] is Percentage && (forall|u: int|
                t < u < j ==> !((#[trigger] cs[u]) is Percentage)),
            last_pct is None ==> forall|u: int| 0 <= u < j ==> !((#[trigger] cs[u]) is Percentage),
        decreases n - j,
    {
        match constraints[j] {
            Constraint::Percentage(_) => {
                last_pct = Some(j);
            },
            Constraint::Fixed(_) => {},
        }
        j = j + 1;
    }

    let pool0: u16 = extent - fsum as u16;
    let ghost pt = pool0 as int;
    let mut pool: u16 = pool0;
    let mut used: u16 = 0;
    let mut parts: Vec<Region> = Vec::new();
    let mut i: usize = 0;
    while i < n
        invariant
            n == cs.len(),
            cs == constraints@,
            i <= n,
            region.wf(),
            extent as int == extent_of(region, axis),
            fixed_sum(cs) <= extent as int,
            pool0 as int == extent as int - fixed_sum(cs),
            pt == pool0 as int,
            pool <= pool0,
            pool as int == pool_at(cs, i as int, pt),
            used as int == sizes_total(cs, i as int, pt),
            used as int + pool as int == fixed_sum_first(cs, i as int) + pool0 as int,
            parts@.len() == i as int,
            forall|k: int| 0 <= k < i as int ==> parts@[k] == split_regions(region, axis, cs)[k],
            last_pct matches Some(t) ==> t < n && cs[t as int] is Percentage && (forall|u: int|
                t < u < n ==> !((#[trigger] cs[u]) is Percentage)),
            last_pct is None ==> forall|u: int| 0 <= u < n ==> !((#[trigger] cs[u]) is Percentage),
        decreases n - i,
    {
        proof {
            lemma_fixed_sum_first_mono(cs, i as int, n as int);
            lemma_fixed_sum_first_mono(cs, i as int + 1, n as int);
        }
        let (size, next_pool): (u16, u16) = match constraints[i] {
            Constraint::Fixed(v) => {
                (v, pool)
            },
            Constraint::Percentage(p) => {
                let is_last: bool = match last_pct {
                    Some(t) => t == i,
                    None => false,
                };
                proof {
                    if is_last {
                        if has_percentage_from(cs, i as int + 1) {
                            let w = choose|w: int|
                                i as int + 1 <= w < cs.len() && (#[trigger] cs[w]) is Percentage;
                            assert(false);
                        }
                    } else {
                        match last_pct {
                            Some(t) => {
                                assert(!(t < i as int)) by {
                                    if t < i as int {
                                        assert(cs[i as int] is Percentage);
                                    }
                                }
                                assert(cs[t as int] is Percentage && i as int + 1 <= t < n as int);
                            },
                            None => {
                                assert(!(cs[i as int] is Percentage));
                            },
                        }
                    }
                }
                if is_last {
                    (pool, 0)
                } else {
                    proof {
                        lemma_mul_nonnegative(pt, p as int);
                        lemma_div_pos_is_pos(pt * p, 100);
                        lemma_mul_upper_bound(pt, 65535, p as int, 65535);
                    }
                    let share: u32 = pool0 as u32 * p as u32 / 100;
                    let s: u16 = if share > pool as u32 {
                        pool
                    } else {
                        share as u16
                    };
                    (s, pool - s)
                }
            },
        };
        proof {
            assert(size as int == size_at(cs, i as int, pt));
            assert(next_pool as int == pool_at(cs, i as int + 1, pt));
            assert(sizes_total(cs, i as int + 1, pt)
                == sizes_total(cs, i as int, pt) + size_at(cs, i as int, pt));
            assert(fixed_sum_first(cs, i as int + 1)
                == fixed_sum_first(cs, i as int) + fixed_part(cs[i as int]));
            assert(used as int + size as int + next_pool as int
                == fixed_sum_first(cs, i as int + 1) + pool0 as int);
            assert(used as int + size as int <= extent as int);
        }
        let piece: Region = match axis {
            Axis::Horizontal => Region {
                x: region.x + used,
                y: region.y,
                width: size,
                height: region.height,
            },
            Axis::Vertical => Region {
                x: region.x,
                y: region.y + used,
                width: region.width,
                height: size,
            },
        };
        proof {
            assert(piece == split_regions(region, axis, cs)[i as int]);
        }
        parts.push(piece);
        used = used + size;
        pool = next_pool;
        i = i + 1;
    }
    proof {
        assert(parts@ =~= split_regions(region, axis, cs));
    }
    Ok(parts)
}

} // verus!
