//! The typed witness cell model: an arena that hands out strongly-typed,
//! non-aliasing cell slots from a fixed-width table, and the per-row value
//! store those slots are assigned into.

use vstd::prelude::*;
use vstd::arithmetic::power2::pow2;
use crate::arith::lemma_u32_limbs;
use crate::arith::lemma_u64_limbs;

verus! {

/// The range discipline of a witness cell.
#[derive(Clone, Copy, PartialEq, Eq, Structural)]
pub enum CellKind {
    /// Constrained to {0, 1} (the identity `x * (1 - x) = 0`).
    Bit,
    /// Range-checked below `2^8`.
    U8,
    /// Range-checked below `2^16`.
    U16,
    /// Range-checked below `2^32`.
    U32,
    /// Range-checked below `2^64`.
    U64,
    /// The shared bounded range reused across many constructs.
    CommonRange,
    /// No range constraint; validity must be pinned by another identity.
    Unlimited,
}

/// Exclusive upper bound enforced on a cell of the given kind.
pub open spec fn kind_bound(k: CellKind) -> int {
    match k {
        CellKind::Bit => 2,
        CellKind::U8 => 0x100,
        CellKind::U16 => 0x10000,
        CellKind::U32 => 0x100000000,
        CellKind::U64 => 0x10000000000000000,
        CellKind::CommonRange => 0x100000000,
        CellKind::Unlimited => (0x10000000000000000 * 0x10000000000000000) as int,
    }
}

/// One assignment of all cells for a single trace step.
pub struct Row {
    pub vals: Vec<u128>,
}

impl View for Row {
    type V = Seq<u128>;

    open spec fn view(&self) -> Seq<u128> {
        self.vals@
    }
}

impl Row {
    /// A fresh row with every cell zeroed.
    pub fn new_zero(n: usize) -> (r: Row)
        ensures
            r@.len() == n,
            forall|i: int| 0 <= i < n ==> r@[i] == 0,
    {
        let mut vals: Vec<u128> = Vec::new();
        let mut i: usize = 0;
        while i < n
            invariant
                i <= n,
                vals@.len() == i,
                forall|j: int| 0 <= j < i ==> vals@[j] == 0,
            decreases n - i,
        {
            vals.push(0);
            i = i + 1;
        }
        Row { vals }
    }

    /// Writes a concrete value into one cell.
    pub fn set(&mut self, i: usize, v: u128)
        requires
            i < old(self)@.len(),
        ensures
            final(self)@ == old(self)@.update(i as int, v),
    {
        self.vals.set(i, v);
    }

    /// Reads the value of one cell.
    pub fn get(&self, i: usize) -> (v: u128)
        requires
            i < self@.len(),
        ensures
            v == self@[i as int],
    {
        self.vals[i]
    }

    /// Number of cells in the row.
    pub fn len(&self) -> (n: usize)
        ensures
            n == self@.len(),
    {
        self.vals.len()
    }
}

/// A row is well formed for a cell layout when every cell respects the range
/// discipline of its kind.
pub open spec fn row_wf(kinds: Seq<CellKind>, row: Seq<u128>) -> bool {
    &&& row.len() == kinds.len()
    &&& forall|i: int| 0 <= i < row.len() ==> (#[trigger] row[i]) < kind_bound(kinds[i])
}

/// A recorded 16-bit-limb decomposition: the value cell must always equal the
/// weighted sum of its limb cells, on every row.
pub struct Decomp {
    pub value_cell: usize,
    pub limbs: Vec<usize>,
}

/// Weighted little-endian sum of the limb cells of a decomposition.
pub open spec fn limbs_value(limbs: Seq<usize>, row: Seq<u128>) -> int
    decreases limbs.len(),
{
    if limbs.len() == 0 {
        0
    } else {
        crate::expr::cell_val(row, limbs[0] as int) + 0x10000 * limbs_value(limbs.drop_first(), row)
    }
}

/// All recorded decompositions hold on a row.
pub open spec fn decomps_ok(decomps: Seq<Decomp>, row: Seq<u128>) -> bool {
    forall|j: int|
        0 <= j < decomps.len() ==> crate::expr::cell_val(row, (#[trigger] decomps[j]).value_cell as int)
            == limbs_value(decomps[j].limbs@, row)
}

/// The value a 64-bit cell and its limbs carry on a row after being
/// assigned `v`.
pub open spec fn u64_cell_holds(c: AllocatedU64Cell, row: Seq<u128>, v: u64) -> bool {
    &&& crate::expr::cell_val(row, c.u64_cell as int) == v
    &&& crate::expr::cell_val(row, c.u16_cells_le[0] as int) == v as int % 0x10000
    &&& crate::expr::cell_val(row, c.u16_cells_le[1] as int) == (v as int / 0x10000) % 0x10000
    &&& crate::expr::cell_val(row, c.u16_cells_le[2] as int) == (v as int / 0x100000000) % 0x10000
    &&& crate::expr::cell_val(row, c.u16_cells_le[3] as int) == v as int / 0x1000000000000
}

/// The value a 32-bit cell and its limbs carry on a row after being
/// assigned `v`.
pub open spec fn u32_cell_holds(c: AllocatedU32Cell, row: Seq<u128>, v: u32) -> bool {
    &&& crate::expr::cell_val(row, c.u32_cell as int) == v
    &&& crate::expr::cell_val(row, c.u16_cells_le[0] as int) == v as int % 0x10000
    &&& crate::expr::cell_val(row, c.u16_cells_le[1] as int) == v as int / 0x10000
}

/// A handle on a bit-typed cell.
#[derive(Clone, Copy, PartialEq, Eq, Structural)]
pub struct AllocatedBitCell {
    pub cell: usize,
}

/// A handle on a byte-typed cell.
#[derive(Clone, Copy, PartialEq, Eq, Structural)]
pub struct AllocatedU8Cell {
    pub cell: usize,
}

/// A handle on a 16-bit cell.
#[derive(Clone, Copy, PartialEq, Eq, Structural)]
pub struct AllocatedU16Cell {
    pub cell: usize,
}

/// A handle on a shared-bounded-range cell.
#[derive(Clone, Copy, PartialEq, Eq, Structural)]
pub struct AllocatedCommonRangeCell {
    pub cell: usize,
}

/// A handle on an unconstrained cell.
#[derive(Clone, Copy, PartialEq, Eq, Structural)]
pub struct AllocatedUnlimitedCell {
    pub cell: usize,
}

/// A 32-bit cell with its little-endian 16-bit limb decomposition.
#[derive(Clone, Copy)]
pub struct AllocatedU32Cell {
    pub u32_cell: usize,
    pub u16_cells_le: [usize; 2],
}

/// A 64-bit cell with its little-endian 16-bit limb decomposition.
#[derive(Clone, Copy)]
pub struct AllocatedU64Cell {
    pub u64_cell: usize,
    pub u16_cells_le: [usize; 4],
}

/// The arena that hands out typed, non-aliasing cells. A cell index is never
/// re-allocated to a second owner; the kinds vector records the range
/// discipline of every slot handed out so far.
pub struct CellAllocator {
    pub kinds: Vec<CellKind>,
    pub decomps: Vec<Decomp>,
    pub capacity: usize,
}

impl CellAllocator {
    /// A fresh arena for a table with room for `capacity` cells.
    pub fn new(capacity: usize) -> (r: CellAllocator)
        ensures
            r.kinds@.len() == 0,
            r.decomps@.len() == 0,
            r.capacity == capacity,
    {
        CellAllocator { kinds: Vec::new(), decomps: Vec::new(), capacity }
    }

    /// Number of cells handed out so far.
    pub fn len(&self) -> (n: usize)
        ensures
            n == self.kinds@.len(),
    {
        self.kinds.len()
    }

    /// Whether the configuration fits the fixed table capacity.
    pub fn fits(&self) -> (r: bool)
        ensures
            r == (self.kinds@.len() <= self.capacity),
    {
        self.kinds.len() <= self.capacity
    }

    fn alloc_cell(&mut self, kind: CellKind) -> (id: usize)
        requires
            old(self).kinds@.len() < usize::MAX,
        ensures
            id == old(self).kinds@.len(),
            final(self).kinds@.len() == old(self).kinds@.len() + 1,
            forall|i: int|
                0 <= i < old(self).kinds@.len() ==> final(self).kinds@[i] == old(self).kinds@[i],
            final(self).kinds@.last() == kind,
            final(self).decomps == old(self).decomps,
            final(self).capacity == old(self).capacity,
    {
        let id = self.kinds.len();
        self.kinds.push(kind);
        id
    }

    /// Allocates a bit cell.
    pub fn alloc_bit_cell(&mut self) -> (c: AllocatedBitCell)
        requires
            old(self).kinds@.len() < usize::MAX,
        ensures
            c.cell == old(self).kinds@.len(),
            final(self).kinds@.len() == old(self).kinds@.len() + 1,
            forall|i: int|
                0 <= i < old(self).kinds@.len() ==> final(self).kinds@[i] == old(self).kinds@[i],
            final(self).kinds@.last() == CellKind::Bit,
            final(self).decomps == old(self).decomps,
            final(self).capacity == old(self).capacity,
    {
        AllocatedBitCell { cell: self.alloc_cell(CellKind::Bit) }
    }

    /// Allocates a byte cell.
    pub fn alloc_u8_cell(&mut self) -> (c: AllocatedU8Cell)
        requires
            old(self).kinds@.len() < usize::MAX,
        ensures
            c.cell == old(self).kinds@.len(),
            final(self).kinds@.len() == old(self).kinds@.len() + 1,
            forall|i: int|
                0 <= i < old(self).kinds@.len() ==> final(self).kinds@[i] == old(self).kinds@[i],
            final(self).kinds@.last() == CellKind::U8,
            final(self).decomps == old(self).decomps,
            final(self).capacity == old(self).capacity,
    {
        AllocatedU8Cell { cell: self.alloc_cell(CellKind::U8) }
    }

    /// Allocates a 16-bit cell.
    pub fn alloc_u16_cell(&mut self) -> (c: AllocatedU16Cell)
        requires
            old(self).kinds@.len() < usize::MAX,
        ensures
            c.cell == old(self).kinds@.len(),
            final(self).kinds@.len() == old(self).kinds@.len() + 1,
            forall|i: int|
                0 <= i < old(self).kinds@.len() ==> final(self).kinds@[i] == old(self).kinds@[i],
            final(self).kinds@.last() == CellKind::U16,
            final(self).decomps == old(self).decomps,
            final(self).capacity == old(self).capacity,
    {
        AllocatedU16Cell { cell: self.alloc_cell(CellKind::U16) }
    }

    /// Allocates a shared-bounded-range cell.
    pub fn alloc_common_range_cell(&mut self) -> (c: AllocatedCommonRangeCell)
        requires
            old(self).kinds@.len() < usize::MAX,
        ensures
            c.cell == old(self).kinds@.len(),
            final(self).kinds@.len() == old(self).kinds@.len() + 1,
            forall|i: int|
                0 <= i < old(self).kinds@.len() ==> final(self).kinds@[i] == old(self).kinds@[i],
            final(self).kinds@.last() == CellKind::CommonRange,
            final(self).decomps == old(self).decomps,
            final(self).capacity == old(self).capacity,
    {
        AllocatedCommonRangeCell { cell: self.alloc_cell(CellKind::CommonRange) }
    }

    /// Allocates an unconstrained cell.
    pub fn alloc_unlimited_cell(&mut self) -> (c: AllocatedUnlimitedCell)
        requires
            old(self).kinds@.len() < usize::MAX,
        ensures
            c.cell == old(self).kinds@.len(),
            final(self).kinds@.len() == old(self).kinds@.len() + 1,
            forall|i: int|
                0 <= i < old(self).kinds@.len() ==> final(self).kinds@[i] == old(self).kinds@[i],
            final(self).kinds@.last() == CellKind::Unlimited,
            final(self).decomps == old(self).decomps,
            final(self).capacity == old(self).capacity,
    {
        AllocatedUnlimitedCell { cell: self.alloc_cell(CellKind::Unlimited) }
    }

    /// Allocates a 32-bit cell together with its two 16-bit limbs, recording
    /// the decomposition so wider range checks are built from narrower ones.
    pub fn alloc_u32_cell(&mut self) -> (c: AllocatedU32Cell)
        requires
            old(self).kinds@.len() + 3 < usize::MAX,
        ensures
            c.u32_cell == old(self).kinds@.len(),
            c.u16_cells_le[0] == old(self).kinds@.len() + 1,
            c.u16_cells_le[1] == old(self).kinds@.len() + 2,
            final(self).kinds@.len() == old(self).kinds@.len() + 3,
            forall|i: int|
                0 <= i < old(self).kinds@.len() ==> final(self).kinds@[i] == old(self).kinds@[i],
            final(self).kinds@[old(self).kinds@.len() as int] == CellKind::U32,
            final(self).kinds@[old(self).kinds@.len() as int + 1] == CellKind::U16,
            final(self).kinds@[old(self).kinds@.len() as int + 2] == CellKind::U16,
            final(self).decomps@.len() == old(self).decomps@.len() + 1,
            forall|j: int|
                0 <= j < old(self).decomps@.len() ==> final(self).decomps@[j] == old(
                    self,
                ).decomps@[j],
            final(self).decomps@.last().value_cell == c.u32_cell,
            final(self).decomps@.last().limbs@ == seq![
                (old(self).kinds@.len() + 1) as usize,
                (old(self).kinds@.len() + 2) as usize,
            ],
            final(self).capacity == old(self).capacity,
    {
        let value = self.alloc_cell(CellKind::U32);
        let l0 = self.alloc_cell(CellKind::U16);
        let l1 = self.alloc_cell(CellKind::U16);
        let mut limbs: Vec<usize> = Vec::new();
        limbs.push(l0);
        limbs.push(l1);
        proof {
            assert(limbs@ =~= seq![l0, l1]);
        }
        self.decomps.push(Decomp { value_cell: value, limbs });
        AllocatedU32Cell { u32_cell: value, u16_cells_le: [l0, l1] }
    }

    /// Allocates a 64-bit cell together with its four 16-bit limbs, recording
    /// the decomposition.
    pub fn alloc_u64_cell(&mut self) -> (c: AllocatedU64Cell)
        requires
            old(self).kinds@.len() + 5 < usize::MAX,
        ensures
            c.u64_cell == old(self).kinds@.len(),
            c.u16_cells_le[0] == old(self).kinds@.len() + 1,
            c.u16_cells_le[1] == old(self).kinds@.len() + 2,
            c.u16_cells_le[2] == old(self).kinds@.len() + 3,
            c.u16_cells_le[3] == old(self).kinds@.len() + 4,
            final(self).kinds@.len() == old(self).kinds@.len() + 5,
            forall|i: int|
                0 <= i < old(self).kinds@.len() ==> final(self).kinds@[i] == old(self).kinds@[i],
            final(self).kinds@[old(self).kinds@.len() as int] == CellKind::U64,
            final(self).kinds@[old(self).kinds@.len() as int + 1] == CellKind::U16,
            final(self).kinds@[old(self).kinds@.len() as int + 2] == CellKind::U16,
            final(self).kinds@[old(self).kinds@.len() as int + 3] == CellKind::U16,
            final(self).kinds@[old(self).kinds@.len() as int + 4] == CellKind::U16,
            final(self).decomps@.len() == old(self).decomps@.len() + 1,
            forall|j: int|
                0 <= j < old(self).decomps@.len() ==> final(self).decomps@[j] == old(
                    self,
                ).decomps@[j],
            final(self).decomps@.last().value_cell == c.u64_cell,
            final(self).decomps@.last().limbs@ == seq![
                (old(self).kinds@.len() + 1) as usize,
                (old(self).kinds@.len() + 2) as usize,
                (old(self).kinds@.len() + 3) as usize,
                (old(self).kinds@.len() + 4) as usize,
            ],
            final(self).capacity == old(self).capacity,
    {
        let value = self.alloc_cell(CellKind::U64);
        let l0 = self.alloc_cell(CellKind::U16);
        let l1 = self.alloc_cell(CellKind::U16);
        let l2 = self.alloc_cell(CellKind::U16);
        let l3 = self.alloc_cell(CellKind::U16);
        let mut limbs: Vec<usize> = Vec::new();
        limbs.push(l0);
        limbs.push(l1);
        limbs.push(l2);
        limbs.push(l3);
        proof {
            assert(limbs@ =~= seq![l0, l1, l2, l3]);
        }
        self.decomps.push(Decomp { value_cell: value, limbs });
        AllocatedU64Cell { u64_cell: value, u16_cells_le: [l0, l1, l2, l3] }
    }
}

impl AllocatedBitCell {
    /// Writes a boolean into the cell as 0 or 1.
    pub fn assign(&self, row: &mut Row, v: bool)
        requires
            self.cell < old(row)@.len(),
        ensures
            final(row)@.len() == old(row)@.len(),
            final(row)@[self.cell as int] == (if v {
                1u128
            } else {
                0u128
            }),
            forall|i: int|
                0 <= i < old(row)@.len() && i != self.cell ==> final(row)@[i] == old(row)@[i],
    {
        row.set(self.cell, if v { 1 } else { 0 });
    }
}

impl AllocatedU8Cell {
    /// Writes a byte into the cell.
    pub fn assign(&self, row: &mut Row, v: u8)
        requires
            self.cell < old(row)@.len(),
        ensures
            final(row)@.len() == old(row)@.len(),
            final(row)@[self.cell as int] == v as u128,
            forall|i: int|
                0 <= i < old(row)@.len() && i != self.cell ==> final(row)@[i] == old(row)@[i],
    {
        row.set(self.cell, v as u128);
    }
}

impl AllocatedCommonRangeCell {
    /// Writes a value of the shared bounded range into the cell.
    pub fn assign(&self, row: &mut Row, v: u32)
        requires
            self.cell < old(row)@.len(),
        ensures
            final(row)@.len() == old(row)@.len(),
            final(row)@[self.cell as int] == v as u128,
            forall|i: int|
                0 <= i < old(row)@.len() && i != self.cell ==> final(row)@[i] == old(row)@[i],
    {
        row.set(self.cell, v as u128);
    }
}

impl AllocatedUnlimitedCell {
    /// Writes an arbitrary field value into the cell.
    pub fn assign(&self, row: &mut Row, v: u128)
        requires
            self.cell < old(row)@.len(),
        ensures
            final(row)@.len() == old(row)@.len(),
            final(row)@[self.cell as int] == v,
            forall|i: int|
                0 <= i < old(row)@.len() && i != self.cell ==> final(row)@[i] == old(row)@[i],
    {
        row.set(self.cell, v);
    }
}

impl AllocatedU32Cell {
    /// Writes a 32-bit value and its two 16-bit limbs.
    pub fn assign(&self, row: &mut Row, v: u32)
        requires
            self.u32_cell < old(row)@.len(),
            self.u16_cells_le[0] < old(row)@.len(),
            self.u16_cells_le[1] < old(row)@.len(),
            self.u32_cell != self.u16_cells_le[0],
            self.u32_cell != self.u16_cells_le[1],
            self.u16_cells_le[0] != self.u16_cells_le[1],
        ensures
            final(row)@.len() == old(row)@.len(),
            u32_cell_holds(*self, final(row)@, v),
            forall|i: int|
                0 <= i < old(row)@.len() && i != self.u32_cell && i != self.u16_cells_le[0] && i
                    != self.u16_cells_le[1] ==> final(row)@[i] == old(row)@[i],
            (v as u128) % 0x10000 + 0x10000 * ((v as u128) / 0x10000) == v,
            (v as u128) / 0x10000 < 0x10000,
    {
        proof {
            lemma_u32_limbs(v);
        }
        row.set(self.u32_cell, v as u128);
        row.set(self.u16_cells_le[0], (v as u128) % 0x10000);
        row.set(self.u16_cells_le[1], (v as u128) / 0x10000);
    }
}

impl AllocatedU64Cell {
    /// Writes a 64-bit value and its four 16-bit limbs.
    pub fn assign(&self, row: &mut Row, v: u64)
        requires
            self.u64_cell < old(row)@.len(),
            self.u16_cells_le[0] < old(row)@.len(),
            self.u16_cells_le[1] < old(row)@.len(),
            self.u16_cells_le[2] < old(row)@.len(),
            self.u16_cells_le[3] < old(row)@.len(),
            self.u64_cell != self.u16_cells_le[0],
            self.u64_cell != self.u16_cells_le[1],
            self.u64_cell != self.u16_cells_le[2],
            self.u64_cell != self.u16_cells_le[3],
            self.u16_cells_le[0] != self.u16_cells_le[1],
            self.u16_cells_le[0] != self.u16_cells_le[2],
            self.u16_cells_le[0] != self.u16_cells_le[3],
            self.u16_cells_le[1] != self.u16_cells_le[2],
            self.u16_cells_le[1] != self.u16_cells_le[3],
            self.u16_cells_le[2] != self.u16_cells_le[3],
        ensures
            final(row)@.len() == old(row)@.len(),
            u64_cell_holds(*self, final(row)@, v),
            forall|i: int|
                0 <= i < old(row)@.len() && i != self.u64_cell && i != self.u16_cells_le[0] && i
                    != self.u16_cells_le[1] && i != self.u16_cells_le[2] && i
                    != self.u16_cells_le[3] ==> final(row)@[i] == old(row)@[i],
            v == (v as int % 0x10000) + 0x10000 * ((v as int / 0x10000) % 0x10000) + 0x100000000 * (
            (v as int / 0x100000000) % 0x10000) + 0x1000000000000 * (v as int / 0x1000000000000),
            (v as u128) / 0x1000000000000 < 0x10000,
    {
        proof {
            lemma_u64_limbs(v);
        }
        row.set(self.u64_cell, v as u128);
        row.set(self.u16_cells_le[0], (v as u128) % 0x10000);
        row.set(self.u16_cells_le[1], ((v as u128) / 0x10000) % 0x10000);
        row.set(self.u16_cells_le[2], ((v as u128) / 0x100000000) % 0x10000);
        row.set(self.u16_cells_le[3], (v as u128) / 0x1000000000000);
    }
}

/// Closed form of `limbs_value` for a four-limb decomposition.
pub proof fn lemma_limbs_value4(a: usize, b: usize, c: usize, d: usize, row: Seq<u128>)
    ensures
        limbs_value(seq![a, b, c, d], row) == crate::expr::cell_val(row, a as int) + 0x10000
            * crate::expr::cell_val(row, b as int) + 0x100000000 * crate::expr::cell_val(
            row,
            c as int,
        ) + 0x1000000000000 * crate::expr::cell_val(row, d as int),
{
    let s = seq![a, b, c, d];
    assert(s.drop_first() =~= seq![b, c, d]);
    assert(seq![b, c, d].drop_first() =~= seq![c, d]);
    assert(seq![c, d].drop_first() =~= seq![d]);
    assert(seq![d].drop_first() =~= Seq::<usize>::empty());
    assert(limbs_value(Seq::<usize>::empty(), row) == 0);
    assert(limbs_value(seq![d], row) == crate::expr::cell_val(row, d as int));
    assert(limbs_value(seq![c, d], row) == crate::expr::cell_val(row, c as int) + 0x10000
        * crate::expr::cell_val(row, d as int));
    assert(limbs_value(seq![b, c, d], row) == crate::expr::cell_val(row, b as int) + 0x10000 * (
    crate::expr::cell_val(row, c as int) + 0x10000 * crate::expr::cell_val(row, d as int)));
}

/// Closed form of `limbs_value` for a two-limb decomposition.
pub proof fn lemma_limbs_value2(a: usize, b: usize, row: Seq<u128>)
    ensures
        limbs_value(seq![a, b], row) == crate::expr::cell_val(row, a as int) + 0x10000
            * crate::expr::cell_val(row, b as int),
{
    let s = seq![a, b];
    assert(s.drop_first() =~= seq![b]);
    assert(seq![b].drop_first() =~= Seq::<usize>::empty());
    assert(limbs_value(Seq::<usize>::empty(), row) == 0);
    assert(limbs_value(seq![b], row) == crate::expr::cell_val(row, b as int));
}

} // verus!
