//! Memory-consistency lookup cells: the handles through which an opcode
//! configuration claims "at event `eid` I read/wrote `address` in `location`
//! with width flag `w` and value `v`, valid for the window
//! `[start_eid, end_eid)`". Assigning a handle writes the window cells of the
//! row and issues the claim into the trace's claim list, which is checked
//! against the canonically ordered global memory history.

use vstd::prelude::*;
use crate::cell::AllocatedCommonRangeCell;
use crate::cell::AllocatedU64Cell;
use crate::cell::CellAllocator;
use crate::cell::CellKind;
use crate::cell::Row;
use crate::expr::Expr;
use crate::mtable::LocationType;
use crate::mtable::MemoryClaim;

verus! {

/// A read claim handle. The expressions record, at configuration time, how
/// the claimed tuple is derived from the row's cells; `value_cell` is `Some`
/// in the "with value" variant, where the observed value is determined by the
/// lookup itself and exposed to further identities.
pub struct AllocatedMemoryTableLookupReadCell {
    pub name: String,
    pub start_eid_cell: AllocatedCommonRangeCell,
    pub end_eid_cell: AllocatedCommonRangeCell,
    pub value_cell: Option<AllocatedU64Cell>,
    pub eid_expr: Expr,
    pub location_expr: Expr,
    pub address_expr: Expr,
    pub width_expr: Expr,
    pub value_expr: Expr,
    pub enable_expr: Expr,
}

/// A write claim handle; the claim's window starts at the issuing step's own
/// event id.
pub struct AllocatedMemoryTableLookupWriteCell {
    pub name: String,
    pub end_eid_cell: AllocatedCommonRangeCell,
    pub value_cell: Option<AllocatedU64Cell>,
    pub eid_expr: Expr,
    pub location_expr: Expr,
    pub address_expr: Expr,
    pub width_expr: Expr,
    pub value_expr: Expr,
    pub enable_expr: Expr,
}

impl CellAllocator {
    /// Allocates a read claim whose value is computed by the opcode itself.
    pub fn alloc_memory_table_lookup_read_cell(
        &mut self,
        name: &str,
        eid_expr: Expr,
        location_expr: Expr,
        address_expr: Expr,
        width_expr: Expr,
        value_expr: Expr,
        enable_expr: Expr,
    ) -> (c: AllocatedMemoryTableLookupReadCell)
        requires
            old(self).kinds@.len() + 2 < usize::MAX,
        ensures
            c.start_eid_cell.cell == old(self).kinds@.len(),
            c.end_eid_cell.cell == old(self).kinds@.len() + 1,
            c.value_cell is None,
            c.eid_expr == eid_expr,
            c.location_expr == location_expr,
            c.address_expr == address_expr,
            c.width_expr == width_expr,
            c.value_expr == value_expr,
            c.enable_expr == enable_expr,
            final(self).kinds@.len() == old(self).kinds@.len() + 2,
            forall|i: int|
                0 <= i < old(self).kinds@.len() ==> final(self).kinds@[i] == old(self).kinds@[i],
            final(self).kinds@[old(self).kinds@.len() as int] == CellKind::CommonRange,
            final(self).kinds@[old(self).kinds@.len() as int + 1] == CellKind::CommonRange,
            final(self).decomps == old(self).decomps,
            final(self).capacity == old(self).capacity,
    {
        let start_eid_cell = self.alloc_common_range_cell();
        let end_eid_cell = self.alloc_common_range_cell();
        AllocatedMemoryTableLookupReadCell {
            name: name.to_string(),
            start_eid_cell,
            end_eid_cell,
            value_cell: None,
            eid_expr,
            location_expr,
            address_expr,
            width_expr,
            value_expr,
            enable_expr,
        }
    }

    /// Allocates a read claim whose value is determined purely by the lookup;
    /// the observed value is exposed through an own 64-bit cell.
    pub fn alloc_memory_table_lookup_read_cell_with_value(
        &mut self,
        name: &str,
        eid_expr: Expr,
        location_expr: Expr,
        address_expr: Expr,
        width_expr: Expr,
        enable_expr: Expr,
    ) -> (c: AllocatedMemoryTableLookupReadCell)
        requires
            old(self).kinds@.len() + 7 < usize::MAX,
        ensures
            c.start_eid_cell.cell == old(self).kinds@.len(),
            c.end_eid_cell.cell == old(self).kinds@.len() + 1,
            c.value_cell matches Some(vc) && vc.u64_cell == old(self).kinds@.len() + 2
                && vc.u16_cells_le[0] == old(self).kinds@.len() + 3 && vc.u16_cells_le[1] == old(
                self,
            ).kinds@.len() + 4 && vc.u16_cells_le[2] == old(self).kinds@.len() + 5
                && vc.u16_cells_le[3] == old(self).kinds@.len() + 6,
            c.value_expr == Expr::Cell((old(self).kinds@.len() + 2) as usize),
            c.eid_expr == eid_expr,
            c.location_expr == location_expr,
            c.address_expr == address_expr,
            c.width_expr == width_expr,
            c.enable_expr == enable_expr,
            final(self).kinds@.len() == old(self).kinds@.len() + 7,
            forall|i: int|
                0 <= i < old(self).kinds@.len() ==> final(self).kinds@[i] == old(self).kinds@[i],
            final(self).kinds@[old(self).kinds@.len() as int] == CellKind::CommonRange,
            final(self).kinds@[old(self).kinds@.len() as int + 1] == CellKind::CommonRange,
            final(self).kinds@[old(self).kinds@.len() as int + 2] == CellKind::U64,
            final(self).kinds@[old(self).kinds@.len() as int + 3] == CellKind::U16,
            final(self).kinds@[old(self).kinds@.len() as int + 4] == CellKind::U16,
            final(self).kinds@[old(self).kinds@.len() as int + 5] == CellKind::U16,
            final(self).kinds@[old(self).kinds@.len() as int + 6] == CellKind::U16,
            final(self).decomps@.len() == old(self).decomps@.len() + 1,
            forall|j: int|
                0 <= j < old(self).decomps@.len() ==> final(self).decomps@[j] == old(
                    self,
                ).decomps@[j],
            final(self).decomps@.last().value_cell == old(self).kinds@.len() + 2,
            final(self).decomps@.last().limbs@ == seq![
                (old(self).kinds@.len() + 3) as usize,
                (old(self).kinds@.len() + 4) as usize,
                (old(self).kinds@.len() + 5) as usize,
                (old(self).kinds@.len() + 6) as usize,
            ],
            final(self).capacity == old(self).capacity,
    {
        let start_eid_cell = self.alloc_common_range_cell();
        let end_eid_cell = self.alloc_common_range_cell();
        let vc = self.alloc_u64_cell();
        AllocatedMemoryTableLookupReadCell {
            name: name.to_string(),
            start_eid_cell,
            end_eid_cell,
            value_cell: Some(vc),
            eid_expr,
            location_expr,
            address_expr,
            width_expr,
            value_expr: Expr::Cell(vc.u64_cell),
            enable_expr,
        }
    }

    /// Allocates a write claim whose value is computed by the opcode itself.
    pub fn alloc_memory_table_lookup_write_cell(
        &mut self,
        name: &str,
        eid_expr: Expr,
        location_expr: Expr,
        address_expr: Expr,
        width_expr: Expr,
        value_expr: Expr,
        enable_expr: Expr,
    ) -> (c: AllocatedMemoryTableLookupWriteCell)
        requires
            old(self).kinds@.len() + 1 < usize::MAX,
        ensures
            c.end_eid_cell.cell == old(self).kinds@.len(),
            c.value_cell is None,
            c.eid_expr == eid_expr,
            c.location_expr == location_expr,
            c.address_expr == address_expr,
            c.width_expr == width_expr,
            c.value_expr == value_expr,
            c.enable_expr == enable_expr,
            final(self).kinds@.len() == old(self).kinds@.len() + 1,
            forall|i: int|
                0 <= i < old(self).kinds@.len() ==> final(self).kinds@[i] == old(self).kinds@[i],
            final(self).kinds@.last() == CellKind::CommonRange,
            final(self).decomps == old(self).decomps,
            final(self).capacity == old(self).capacity,
    {
        let end_eid_cell = self.alloc_common_range_cell();
        AllocatedMemoryTableLookupWriteCell {
            name: name.to_string(),
            end_eid_cell,
            value_cell: None,
            eid_expr,
            location_expr,
            address_expr,
            width_expr,
            value_expr,
            enable_expr,
        }
    }

    /// Allocates a write claim whose written value is carried by an own
    /// 64-bit cell, for identities over the new block contents.
    pub fn alloc_memory_table_lookup_write_cell_with_value(
        &mut self,
        name: &str,
        eid_expr: Expr,
        location_expr: Expr,
        address_expr: Expr,
        width_expr: Expr,
        enable_expr: Expr,
    ) -> (c: AllocatedMemoryTableLookupWriteCell)
        requires
            old(self).kinds@.len() + 6 < usize::MAX,
        ensures
            c.end_eid_cell.cell == old(self).kinds@.len(),
            c.value_cell matches Some(vc) && vc.u64_cell == old(self).kinds@.len() + 1
                && vc.u16_cells_le[0] == old(self).kinds@.len() + 2 && vc.u16_cells_le[1] == old(
                self,
            ).kinds@.len() + 3 && vc.u16_cells_le[2] == old(self).kinds@.len() + 4
                && vc.u16_cells_le[3] == old(self).kinds@.len() + 5,
            c.value_expr == Expr::Cell((old(self).kinds@.len() + 1) as usize),
            c.eid_expr == eid_expr,
            c.location_expr == location_expr,
            c.address_expr == address_expr,
            c.width_expr == width_expr,
            c.enable_expr == enable_expr,
            final(self).kinds@.len() == old(self).kinds@.len() + 6,
            forall|i: int|
                0 <= i < old(self).kinds@.len() ==> final(self).kinds@[i] == old(self).kinds@[i],
            final(self).kinds@[old(self).kinds@.len() as int] == CellKind::CommonRange,
            final(self).kinds@[old(self).kinds@.len() as int + 1] == CellKind::U64,
            final(self).kinds@[old(self).kinds@.len() as int + 2] == CellKind::U16,
            final(self).kinds@[old(self).kinds@.len() as int + 3] == CellKind::U16,
            final(self).kinds@[old(self).kinds@.len() as int + 4] == CellKind::U16,
            final(self).kinds@[old(self).kinds@.len() as int + 5] == CellKind::U16,
            final(self).decomps@.len() == old(self).decomps@.len() + 1,
            forall|j: int|
                0 <= j < old(self).decomps@.len() ==> final(self).decomps@[j] == old(
                    self,
                ).decomps@[j],
            final(self).decomps@.last().value_cell == old(self).kinds@.len() + 1,
            final(self).decomps@.last().limbs@ == seq![
                (old(self).kinds@.len() + 2) as usize,
                (old(self).kinds@.len() + 3) as usize,
                (old(self).kinds@.len() + 4) as usize,
                (old(self).kinds@.len() + 5) as usize,
            ],
            final(self).capacity == old(self).capacity,
    {
        let end_eid_cell = self.alloc_common_range_cell();
        let vc = self.alloc_u64_cell();
        AllocatedMemoryTableLookupWriteCell {
            name: name.to_string(),
            end_eid_cell,
            value_cell: Some(vc),
            eid_expr,
            location_expr,
            address_expr,
            width_expr,
            value_expr: Expr::Cell(vc.u64_cell),
            enable_expr,
        }
    }
}

impl AllocatedMemoryTableLookupReadCell {
    /// Fills the window cells for one read occurrence and issues the claim.
    pub fn assign(
        &self,
        row: &mut Row,
        claims: &mut Vec<MemoryClaim>,
        start_eid: u32,
        eid: u32,
        end_eid: u32,
        address: u32,
        location: LocationType,
        is_narrow: bool,
        value: u64,
    )
        requires
            self.start_eid_cell.cell < old(row)@.len(),
            self.end_eid_cell.cell < old(row)@.len(),
            self.start_eid_cell.cell != self.end_eid_cell.cell,
            self.value_cell matches Some(vc) ==> vc.u64_cell < old(row)@.len() && vc.u16_cells_le[0]
                < old(row)@.len() && vc.u16_cells_le[1] < old(row)@.len() && vc.u16_cells_le[2]
                < old(row)@.len() && vc.u16_cells_le[3] < old(row)@.len(),
            self.value_cell matches Some(vc) ==> vc.u64_cell != self.start_eid_cell.cell
                && vc.u64_cell != self.end_eid_cell.cell && vc.u16_cells_le[0]
                != self.start_eid_cell.cell && vc.u16_cells_le[0] != self.end_eid_cell.cell
                && vc.u16_cells_le[1] != self.start_eid_cell.cell && vc.u16_cells_le[1]
                != self.end_eid_cell.cell && vc.u16_cells_le[2] != self.start_eid_cell.cell
                && vc.u16_cells_le[2] != self.end_eid_cell.cell && vc.u16_cells_le[3]
                != self.start_eid_cell.cell && vc.u16_cells_le[3] != self.end_eid_cell.cell
                && vc.u64_cell != vc.u16_cells_le[0] && vc.u64_cell != vc.u16_cells_le[1]
                && vc.u64_cell != vc.u16_cells_le[2] && vc.u64_cell != vc.u16_cells_le[3]
                && vc.u16_cells_le[0] != vc.u16_cells_le[1] && vc.u16_cells_le[0]
                != vc.u16_cells_le[2] && vc.u16_cells_le[0] != vc.u16_cells_le[3]
                && vc.u16_cells_le[1] != vc.u16_cells_le[2] && vc.u16_cells_le[1]
                != vc.u16_cells_le[3] && vc.u16_cells_le[2] != vc.u16_cells_le[3],
        ensures
            final(row)@.len() == old(row)@.len(),
            final(row)@[self.start_eid_cell.cell as int] == start_eid as u128,
            final(row)@[self.end_eid_cell.cell as int] == end_eid as u128,
            self.value_cell matches Some(vc) ==> crate::cell::u64_cell_holds(
                vc,
                final(row)@,
                value,
            ),
            forall|i: int|
                0 <= i < old(row)@.len() && i != self.start_eid_cell.cell && i
                    != self.end_eid_cell.cell && (match self.value_cell {
                    None => true,
                    Some(vc) => i != vc.u64_cell && i != vc.u16_cells_le[0] && i
                        != vc.u16_cells_le[1] && i != vc.u16_cells_le[2] && i
                        != vc.u16_cells_le[3],
                }) ==> final(row)@[i] == old(row)@[i],
            final(claims)@ == old(claims)@.push(
                (MemoryClaim {
                    eid,
                    start_eid,
                    end_eid,
                    location,
                    address,
                    is_narrow,
                    value,
                    is_write: false,
                }),
            ),
    {
        self.start_eid_cell.assign(row, start_eid);
        self.end_eid_cell.assign(row, end_eid);
        match &self.value_cell {
            None => {},
            Some(vc) => {
                vc.assign(row, value);
            },
        }
        claims.push(
            MemoryClaim {
                eid,
                start_eid,
                end_eid,
                location,
                address,
                is_narrow,
                value,
                is_write: false,
            },
        );
    }
}

impl AllocatedMemoryTableLookupWriteCell {
    /// Fills the window cells for one write occurrence and issues the claim;
    /// the write opens the window `[eid, end_eid)`.
    pub fn assign(
        &self,
        row: &mut Row,
        claims: &mut Vec<MemoryClaim>,
        eid: u32,
        end_eid: u32,
        address: u32,
        location: LocationType,
        is_narrow: bool,
        value: u64,
    )
        requires
            self.end_eid_cell.cell < old(row)@.len(),
            self.value_cell matches Some(vc) ==> vc.u64_cell < old(row)@.len() && vc.u16_cells_le[0]
                < old(row)@.len() && vc.u16_cells_le[1] < old(row)@.len() && vc.u16_cells_le[2]
                < old(row)@.len() && vc.u16_cells_le[3] < old(row)@.len(),
            self.value_cell matches Some(vc) ==> vc.u64_cell != self.end_eid_cell.cell
                && vc.u16_cells_le[0] != self.end_eid_cell.cell && vc.u16_cells_le[1]
                != self.end_eid_cell.cell && vc.u16_cells_le[2] != self.end_eid_cell.cell
                && vc.u16_cells_le[3] != self.end_eid_cell.cell && vc.u64_cell
                != vc.u16_cells_le[0] && vc.u64_cell != vc.u16_cells_le[1] && vc.u64_cell
                != vc.u16_cells_le[2] && vc.u64_cell != vc.u16_cells_le[3] && vc.u16_cells_le[0]
                != vc.u16_cells_le[1] && vc.u16_cells_le[0] != vc.u16_cells_le[2]
                && vc.u16_cells_le[0] != vc.u16_cells_le[3] && vc.u16_cells_le[1]
                != vc.u16_cells_le[2] && vc.u16_cells_le[1] != vc.u16_cells_le[3]
                && vc.u16_cells_le[2] != vc.u16_cells_le[3],
        ensures
            final(row)@.len() == old(row)@.len(),
            final(row)@[self.end_eid_cell.cell as int] == end_eid as u128,
            self.value_cell matches Some(vc) ==> crate::cell::u64_cell_holds(
                vc,
                final(row)@,
                value,
            ),
            forall|i: int|
                0 <= i < old(row)@.len() && i != self.end_eid_cell.cell && (match self.value_cell {
                    None => true,
                    Some(vc) => i != vc.u64_cell && i != vc.u16_cells_le[0] && i
                        != vc.u16_cells_le[1] && i != vc.u16_cells_le[2] && i
                        != vc.u16_cells_le[3],
                }) ==> final(row)@[i] == old(row)@[i],
            final(claims)@ == old(claims)@.push(
                (MemoryClaim {
                    eid,
                    start_eid: eid,
                    end_eid,
                    location,
                    address,
                    is_narrow,
                    value,
                    is_write: true,
                }),
            ),
    {
        self.end_eid_cell.assign(row, end_eid);
        match &self.value_cell {
            None => {},
            Some(vc) => {
                vc.assign(row, value);
            },
        }
        claims.push(
            MemoryClaim {
                eid,
                start_eid: eid,
                end_eid,
                location,
                address,
                is_narrow,
                value,
                is_write: true,
            },
        );
    }
}

} // verus!
