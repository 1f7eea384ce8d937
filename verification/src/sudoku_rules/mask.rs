//! Sets of digits as bit masks, and what each row, column and block holds.

use vstd::prelude::*;

use crate::sudoku_rules::model::{are_peers, block_of, column_of, fits, legal, lemma_units, row_of};

verus! {

/// Every digit's bit set at once: bits `1..=9` of a candidate mask.
pub const ALL_DIGITS: u16 = 0b11_1111_1110;

/// Whether the bit of `v` is set in `mask`.
pub open spec fn marks(mask: u16, v: int) -> bool {
    mask & (1u16 << (v as u16)) != 0
}

/// A row, a column or a block.
pub enum Unit {
    Row,
    Column,
    Block,
}

impl Unit {
    /// Which unit of this sort cell `i` is in.
    pub open spec fn of(self, i: int) -> int {
        match self {
            Unit::Row => row_of(i),
            Unit::Column => column_of(i),
            Unit::Block => block_of(i),
        }
    }
}

/// Some cell of the given unit holds `v`.
pub open spec fn holds(s: Seq<int>, unit: Unit, u: int, v: int) -> bool {
    exists|i: int| 0 <= i < 81 && #[trigger] unit.of(i) == u && s[i] == v
}

/// `masks` says, for each of the nine units, exactly which digits it holds.
pub open spec fn tally(masks: Seq<u16>, s: Seq<int>, unit: Unit) -> bool {
    &&& masks.len() == 9
    &&& forall|u: int, v: int|
        0 <= u < 9 && 1 <= v <= 9 ==> (#[trigger] marks(masks[u], v) <==> holds(s, unit, u, v))
}

pub proof fn lemma_mask_empty(v: int)
    requires
        0 <= v < 16,
    ensures
        !marks(0, v),
{
    let w = v as u16;
    assert(0u16 & (1u16 << w) == 0) by (bit_vector);
}

pub proof fn lemma_mask_with(mask: u16, v: int, w: int)
    requires
        0 <= v < 16,
        0 <= w < 16,
    ensures
        marks(mask | (1u16 << (v as u16)), w) <==> v == w || marks(mask, w),
{
    let (a, b) = (v as u16, w as u16);
    assert((mask | (1u16 << a)) & (1u16 << b) != 0 <==> a == b || mask & (1u16 << b) != 0)
        by (bit_vector)
        requires
            a < 16,
            b < 16,
    ;
}

pub proof fn lemma_mask_without(mask: u16, v: int, w: int)
    requires
        0 <= v < 16,
        0 <= w < 16,
    ensures
        marks(mask & !(1u16 << (v as u16)), w) <==> v != w && marks(mask, w),
{
    let (a, b) = (v as u16, w as u16);
    assert((mask & !(1u16 << a)) & (1u16 << b) != 0 <==> a != b && mask & (1u16 << b) != 0)
        by (bit_vector)
        requires
            a < 16,
            b < 16,
    ;
}

pub proof fn lemma_mask_union(x: u16, y: u16, z: u16, v: int)
    requires
        0 <= v < 16,
    ensures
        marks(x | y | z, v) <==> marks(x, v) || marks(y, v) || marks(z, v),
{
    let a = v as u16;
    assert((x | y | z) & (1u16 << a) != 0 <==> x & (1u16 << a) != 0 || y & (1u16 << a) != 0 || z & (
    1u16 << a) != 0) by (bit_vector)
        requires
            a < 16,
    ;
}

pub proof fn lemma_mask_candidates(used: u16, v: int)
    requires
        1 <= v <= 9,
    ensures
        marks(ALL_DIGITS & !used, v) <==> !marks(used, v),
{
    let a = v as u16;
    assert((0b11_1111_1110u16 & !used) & (1u16 << a) != 0 <==> used & (1u16 << a) == 0)
        by (bit_vector)
        requires
            1 <= a <= 9,
    ;
}

/// Masks of nothing tally a board without digits.
pub proof fn lemma_tally_empty(masks: Seq<u16>, s: Seq<int>, unit: Unit)
    requires
        masks.len() == 9,
        forall|u: int| 0 <= u < 9 ==> #[trigger] masks[u] == 0,
        forall|i: int| 0 <= i < 81 ==> #[trigger] s[i] == 0,
    ensures
        tally(masks, s, unit),
{
    assert forall|u: int, v: int| 0 <= u < 9 && 1 <= v <= 9 implies (#[trigger] marks(masks[u], v)
        <==> holds(s, unit, u, v)) by {
        assert(masks[u] == 0);
        lemma_mask_empty(v);
    }
}

/// Placing a digit sets its bit in the unit of its cell.
pub proof fn lemma_tally_place(masks: Seq<u16>, s: Seq<int>, unit: Unit, i: int, v: int)
    requires
        s.len() == 81,
        tally(masks, s, unit),
        0 <= i < 81,
        s[i] == 0,
        1 <= v <= 9,
    ensures
        0 <= unit.of(i) < 9,
        tally(
            masks.update(unit.of(i), masks[unit.of(i)] | (1u16 << (v as u16))),
            s.update(i, v),
            unit,
        ),
{
    lemma_units(i);
    let at = unit.of(i);
    let now = masks.update(at, masks[at] | (1u16 << (v as u16)));
    let t = s.update(i, v);
    assert forall|u: int, w: int| 0 <= u < 9 && 1 <= w <= 9 implies (#[trigger] marks(now[u], w)
        <==> holds(t, unit, u, w)) by {
        lemma_mask_with(masks[at], v, w);
        assert(marks(masks[u], w) <==> holds(s, unit, u, w));
        if holds(s, unit, u, w) {
            let k = choose|k: int| 0 <= k < 81 && #[trigger] unit.of(k) == u && s[k] == w;
            assert(k != i);
            assert(t[k] == w && unit.of(k) == u);
        }
        if holds(t, unit, u, w) {
            let k = choose|k: int| 0 <= k < 81 && #[trigger] unit.of(k) == u && t[k] == w;
            if k != i {
                assert(s[k] == w && unit.of(k) == u);
            }
        }
        if u == at && w == v {
            assert(t[i] == w && unit.of(i) == u);
        }
    }
}

/// Lifting the only copy of a digit clears its bit in the unit of its cell.
pub proof fn lemma_tally_lift(masks: Seq<u16>, s: Seq<int>, unit: Unit, i: int, v: int)
    requires
        s.len() == 81,
        legal(s),
        tally(masks, s, unit),
        0 <= i < 81,
        s[i] == v,
        1 <= v <= 9,
    ensures
        0 <= unit.of(i) < 9,
        tally(
            masks.update(unit.of(i), masks[unit.of(i)] & !(1u16 << (v as u16))),
            s.update(i, 0),
            unit,
        ),
{
    lemma_units(i);
    let at = unit.of(i);
    let now = masks.update(at, masks[at] & !(1u16 << (v as u16)));
    let t = s.update(i, 0);
    assert forall|u: int, w: int| 0 <= u < 9 && 1 <= w <= 9 implies (#[trigger] marks(now[u], w)
        <==> holds(t, unit, u, w)) by {
        lemma_mask_without(masks[at], v, w);
        assert(marks(masks[u], w) <==> holds(s, unit, u, w));
        if holds(s, unit, u, w) && !(u == at && w == v) {
            let k = choose|k: int| 0 <= k < 81 && #[trigger] unit.of(k) == u && s[k] == w;
            assert(t[k] == w && unit.of(k) == u);
        }
        if holds(t, unit, u, w) {
            let k = choose|k: int| 0 <= k < 81 && #[trigger] unit.of(k) == u && t[k] == w;
            assert(k != i);
            assert(s[k] == w && unit.of(k) == u);
            if u == at && w == v {
                assert(are_peers(i, k));
                assert(s[i] != s[k]);
            }
        }
    }
}

/// A digit fits an empty cell exactly where none of its three units holds it.
pub proof fn lemma_tally_fits(
    rows: Seq<u16>,
    columns: Seq<u16>,
    blocks: Seq<u16>,
    s: Seq<int>,
    i: int,
    v: int,
)
    requires
        s.len() == 81,
        tally(rows, s, Unit::Row),
        tally(columns, s, Unit::Column),
        tally(blocks, s, Unit::Block),
        0 <= i < 81,
        s[i] == 0,
        1 <= v <= 9,
    ensures
        fits(s, i, v) <==> !marks(rows[row_of(i)], v) && !marks(columns[column_of(i)], v) && !marks(
            blocks[block_of(i)],
            v,
        ),
{
    lemma_units(i);
    let (r, c, b) = (row_of(i), column_of(i), block_of(i));
    assert(marks(rows[r], v) <==> holds(s, Unit::Row, r, v));
    assert(marks(columns[c], v) <==> holds(s, Unit::Column, c, v));
    assert(marks(blocks[b], v) <==> holds(s, Unit::Block, b, v));
    if fits(s, i, v) {
        if holds(s, Unit::Row, r, v) {
            let k = choose|k: int| 0 <= k < 81 && #[trigger] Unit::Row.of(k) == r && s[k] == v;
            assert(are_peers(i, k));
        }
        if holds(s, Unit::Column, c, v) {
            let k = choose|k: int| 0 <= k < 81 && #[trigger] Unit::Column.of(k) == c && s[k] == v;
            assert(are_peers(i, k));
        }
        if holds(s, Unit::Block, b, v) {
            let k = choose|k: int| 0 <= k < 81 && #[trigger] Unit::Block.of(k) == b && s[k] == v;
            assert(are_peers(i, k));
        }
    } else {
        let k = choose|k: int| 0 <= k < 81 && #[trigger] are_peers(i, k) && s[k] == v;
        assert(Unit::Row.of(k) == row_of(k));
        assert(Unit::Column.of(k) == column_of(k));
        assert(Unit::Block.of(k) == block_of(k));
    }
}

} // verus!
