//! Arithmetization of the local-variable store opcode: the value on top of
//! the stack is re-written into the slot `depth` positions below; one stack
//! read and one stack write are claimed, and the stack pointer rises by one.

use vstd::prelude::*;
use crate::cell::AllocatedBitCell;
use crate::cell::AllocatedCommonRangeCell;
use crate::cell::AllocatedU64Cell;
use crate::cell::CellAllocator;
use crate::cell::CellKind;
use crate::cell::Row;
use crate::cell::u64_cell_holds;
use crate::encode::OPCODE_ARG0_BASE;
use crate::encode::OPCODE_CLASS_BASE;
use crate::encode::OpcodeClass;
use crate::err::AssignError;
use crate::etable::EventTableCommonConfig;
use crate::expr::Expr;
use crate::expr::cell_val;
use crate::expr::ConstraintBuilder;
use crate::expr::eadd;
use crate::expr::ecell;
use crate::expr::econst;
use crate::expr::emul;
use crate::lookup::AllocatedMemoryTableLookupReadCell;
use crate::lookup::AllocatedMemoryTableLookupWriteCell;
use crate::mtable::LocationType;
use crate::mtable::MemoryClaim;
use crate::step::EventTableEntryWithMemoryInfo;
use crate::step::StepInfo;
use crate::step::VarType;

verus! {

/// Number of cells owned by one local-variable-store configuration.
pub const LOCAL_SET_CELL_COUNT: usize = 10;

/// The cells of the local-variable-store configuration, allocated once per
/// table construction and reused across all rows executing this opcode.
pub struct LocalSetConfig {
    pub offset_cell: AllocatedCommonRangeCell,
    pub is_i32_cell: AllocatedBitCell,
    pub value_cell: AllocatedU64Cell,
    pub memory_table_lookup_stack_read: AllocatedMemoryTableLookupReadCell,
    pub memory_table_lookup_stack_write: AllocatedMemoryTableLookupWriteCell,
    /// First cell index of this configuration's contiguous block.
    pub first_cell: usize,
}

/// Builds the local-variable-store configuration.
pub struct LocalSetConfigBuilder {}

impl LocalSetConfig {
    /// Cell indices of this configuration: a contiguous block starting at
    /// `first_cell`, disjoint from the shared context.
    pub open spec fn ids_wf(self, n: int) -> bool {
        let b = self.first_cell as int;
        &&& crate::etable::COMMON_CELL_COUNT <= b
        &&& b + LOCAL_SET_CELL_COUNT <= n
        &&& self.is_i32_cell.cell == b
        &&& self.offset_cell.cell == b + 1
        &&& self.value_cell.u64_cell == b + 2
        &&& self.value_cell.u16_cells_le[0] == b + 3
        &&& self.value_cell.u16_cells_le[1] == b + 4
        &&& self.value_cell.u16_cells_le[2] == b + 5
        &&& self.value_cell.u16_cells_le[3] == b + 6
        &&& self.memory_table_lookup_stack_read.start_eid_cell.cell == b + 7
        &&& self.memory_table_lookup_stack_read.end_eid_cell.cell == b + 8
        &&& self.memory_table_lookup_stack_read.value_cell is None
        &&& self.memory_table_lookup_stack_write.end_eid_cell.cell == b + 9
        &&& self.memory_table_lookup_stack_write.value_cell is None
    }

    /// Layout and range disciplines of this configuration.
    pub open spec fn wf(self, kinds: Seq<CellKind>) -> bool {
        let b = self.first_cell as int;
        &&& self.ids_wf(kinds.len() as int)
        &&& kinds[b] == CellKind::Bit
        &&& kinds[b + 1] == CellKind::CommonRange
        &&& kinds[b + 2] == CellKind::U64
        &&& kinds[b + 3] == CellKind::U16
        &&& kinds[b + 4] == CellKind::U16
        &&& kinds[b + 5] == CellKind::U16
        &&& kinds[b + 6] == CellKind::U16
        &&& kinds[b + 7] == CellKind::CommonRange
        &&& kinds[b + 8] == CellKind::CommonRange
        &&& kinds[b + 9] == CellKind::CommonRange
    }

    /// Value of the opcode-encoding expression on a row.
    pub open spec fn opcode_eval(self, row: Seq<u128>) -> int {
        OpcodeClass::LocalSet.spec_code() * OPCODE_CLASS_BASE + cell_val(
            row,
            self.is_i32_cell.cell as int,
        ) * OPCODE_ARG0_BASE + cell_val(row, self.offset_cell.cell as int)
    }

    /// The canonical field expression encoding this opcode's identity plus
    /// its static operand bits.
    pub fn opcode(&self) -> (e: Expr)
        ensures
            forall|row: Seq<u128>| #[trigger] e.eval(row) == self.opcode_eval(row),
    {
        eadd(
            eadd(
                econst(OpcodeClass::LocalSet.code() as u128 * OPCODE_CLASS_BASE),
                emul(ecell(self.is_i32_cell.cell), econst(OPCODE_ARG0_BASE)),
            ),
            ecell(self.offset_cell.cell),
        )
    }

    /// Net stack-pointer change of this opcode.
    pub fn sp_diff(&self) -> (e: Option<Expr>)
        ensures
            e matches Some(d) && forall|row: Seq<u128>| #[trigger] (e->Some_0).eval(row) == 1,
    {
        Some(econst(1))
    }

    /// Number of memory claims issued per row.
    pub fn mops(&self) -> (e: Option<Expr>)
        ensures
            e matches Some(d) && forall|row: Seq<u128>| #[trigger] (e->Some_0).eval(row) == 1,
    {
        Some(econst(1))
    }

    /// Concrete number of memory writes of one occurrence.
    pub fn memory_writing_ops(&self, _entry: &crate::step::EventTableEntry) -> (r: u32)
        ensures
            r == 1,
    {
        1
    }
}

impl LocalSetConfig {
    /// The claimed tuples, as recorded at configuration time: how each claim
    /// handle derives its event id, location, address, width flag, value and
    /// enable indicator from the row's cells.
    pub open spec fn lookup_exprs_wf(self) -> bool {
        let b = self.first_cell as int;
        let rd = self.memory_table_lookup_stack_read;
        let wr = self.memory_table_lookup_stack_write;
        &&& forall|row: Seq<u128>| #[trigger] rd.eid_expr.eval(row) == cell_val(row, 3)
        &&& forall|row: Seq<u128>|
            #[trigger] rd.location_expr.eval(row) == LocationType::Stack.spec_code()
        &&& forall|row: Seq<u128>| #[trigger] rd.address_expr.eval(row) == cell_val(row, 4) + 1
        &&& forall|row: Seq<u128>| #[trigger] rd.width_expr.eval(row) == cell_val(row, b)
        &&& forall|row: Seq<u128>| #[trigger] rd.value_expr.eval(row) == cell_val(row, b + 2)
        &&& forall|row: Seq<u128>| #[trigger] rd.enable_expr.eval(row) == 1
        &&& forall|row: Seq<u128>| #[trigger] wr.eid_expr.eval(row) == cell_val(row, 3)
        &&& forall|row: Seq<u128>|
            #[trigger] wr.location_expr.eval(row) == LocationType::Stack.spec_code()
        &&& forall|row: Seq<u128>|
            #[trigger] wr.address_expr.eval(row) == cell_val(row, 4) + 1 + cell_val(row, b + 1)
        &&& forall|row: Seq<u128>| #[trigger] wr.width_expr.eval(row) == cell_val(row, b)
        &&& forall|row: Seq<u128>| #[trigger] wr.value_expr.eval(row) == cell_val(row, b + 2)
        &&& forall|row: Seq<u128>| #[trigger] wr.enable_expr.eval(row) == 1
    }
}

impl LocalSetConfig {
    /// The values this opcode's cells carry after assigning one valid step.
    pub open spec fn local_set_row_values(self, row: Seq<u128>, e: EventTableEntryWithMemoryInfo)
        -> bool {
        match e.eentry.step_info {
            StepInfo::SetLocal { vtype, depth, value } => {
                &&& cell_val(row, self.is_i32_cell.cell as int) == (if vtype == VarType::I32 {
                    1int
                } else {
                    0int
                })
                &&& cell_val(row, self.offset_cell.cell as int) == depth
                &&& u64_cell_holds(self.value_cell, row, value)
                &&& cell_val(row, self.memory_table_lookup_stack_read.start_eid_cell.cell as int)
                    == e.memory_rw_entries@[0].start_eid
                &&& cell_val(row, self.memory_table_lookup_stack_read.end_eid_cell.cell as int)
                    == e.memory_rw_entries@[0].end_eid
                &&& cell_val(row, self.memory_table_lookup_stack_write.end_eid_cell.cell as int)
                    == e.memory_rw_entries@[1].end_eid
            },
            _ => false,
        }
    }
}

/// The step payload matches this opcode, respects the machine bounds, and
/// carries well ordered event-id windows: the read's window opens strictly
/// before this step and closes no earlier, the write's window closes
/// strictly after this step (`start_eid < end_eid` for every issued record).
pub open spec fn local_set_step_valid(e: EventTableEntryWithMemoryInfo) -> bool {
    match e.eentry.step_info {
        StepInfo::SetLocal { vtype, depth, value } => {
            &&& e.memory_rw_entries@.len() >= 2
            &&& e.eentry.sp + 1 + depth <= u32::MAX
            &&& e.memory_rw_entries@[0].start_eid < e.eentry.eid
            &&& e.eentry.eid <= e.memory_rw_entries@[0].end_eid
            &&& e.eentry.eid < e.memory_rw_entries@[1].end_eid
        },
        _ => false,
    }
}

/// Every claim a valid occurrence issues has a well formed window.
pub proof fn lemma_local_set_claims_window_wf(e: EventTableEntryWithMemoryInfo, j: int)
    requires
        local_set_step_valid(e),
        0 <= j < local_set_claims(e).len(),
    ensures
        crate::mtable::claim_window_wf(local_set_claims(e)[j]),
{
}

/// The two claims one occurrence issues: a stack read of the value at
/// `sp + 1` and a stack write of the same value at `sp + 1 + depth`.
pub open spec fn local_set_claims(e: EventTableEntryWithMemoryInfo) -> Seq<MemoryClaim>
    recommends
        local_set_step_valid(e),
{
    match e.eentry.step_info {
        StepInfo::SetLocal { vtype, depth, value } => seq![
            (MemoryClaim {
                eid: e.eentry.eid,
                start_eid: e.memory_rw_entries@[0].start_eid,
                end_eid: e.memory_rw_entries@[0].end_eid,
                location: LocationType::Stack,
                address: (e.eentry.sp + 1) as u32,
                is_narrow: vtype == VarType::I32,
                value,
                is_write: false,
            }),
            (MemoryClaim {
                eid: e.eentry.eid,
                start_eid: e.eentry.eid,
                end_eid: e.memory_rw_entries@[1].end_eid,
                location: LocationType::Stack,
                address: (e.eentry.sp + 1 + depth) as u32,
                is_narrow: vtype == VarType::I32,
                value,
                is_write: true,
            }),
        ],
        _ => Seq::empty(),
    }
}

impl LocalSetConfigBuilder {
    /// Allocates the opcode's cells and registers its claims; this opcode
    /// needs no identity of its own beyond the typed cells and the claims.
    pub fn configure(
        common: &EventTableCommonConfig,
        alloc: &mut CellAllocator,
        builder: &mut ConstraintBuilder,
    ) -> (r: LocalSetConfig)
        requires
            common.ids_wf(old(alloc).kinds@.len() as int),
            old(alloc).kinds@.len() + LOCAL_SET_CELL_COUNT < usize::MAX,
        ensures
            r.first_cell == old(alloc).kinds@.len(),
            r.wf(final(alloc).kinds@),
            final(alloc).kinds@.len() == old(alloc).kinds@.len() + LOCAL_SET_CELL_COUNT,
            forall|i: int|
                0 <= i < old(alloc).kinds@.len() ==> final(alloc).kinds@[i] == old(
                    alloc,
                ).kinds@[i],
            final(alloc).decomps@.len() == old(alloc).decomps@.len() + 1,
            forall|j: int|
                0 <= j < old(alloc).decomps@.len() ==> final(alloc).decomps@[j] == old(
                    alloc,
                ).decomps@[j],
            final(alloc).decomps@.last().value_cell == r.value_cell.u64_cell,
            final(alloc).decomps@.last().limbs@ == seq![
                r.value_cell.u16_cells_le[0],
                r.value_cell.u16_cells_le[1],
                r.value_cell.u16_cells_le[2],
                r.value_cell.u16_cells_le[3],
            ],
            final(alloc).capacity == old(alloc).capacity,
            *final(builder) == *old(builder),
            r.lookup_exprs_wf(),
    {
        let first_cell = alloc.len();
        let is_i32_cell = alloc.alloc_bit_cell();
        let offset_cell = alloc.alloc_common_range_cell();
        let value_cell = alloc.alloc_u64_cell();

        let memory_table_lookup_stack_read = alloc.alloc_memory_table_lookup_read_cell(
            "op_local_set stack read",
            ecell(common.eid_cell.cell),
            econst(LocationType::Stack.code() as u128),
            eadd(ecell(common.sp_cell.cell), econst(1)),
            ecell(is_i32_cell.cell),
            ecell(value_cell.u64_cell),
            econst(1),
        );

        let memory_table_lookup_stack_write = alloc.alloc_memory_table_lookup_write_cell(
            "op_local_set stack write",
            ecell(common.eid_cell.cell),
            econst(LocationType::Stack.code() as u128),
            eadd(eadd(ecell(common.sp_cell.cell), econst(1)), ecell(offset_cell.cell)),
            ecell(is_i32_cell.cell),
            ecell(value_cell.u64_cell),
            econst(1),
        );

        LocalSetConfig {
            offset_cell,
            is_i32_cell,
            value_cell,
            memory_table_lookup_stack_read,
            memory_table_lookup_stack_write,
            first_cell,
        }
    }
}

impl LocalSetConfig {
    /// Fills this opcode's cells from one concrete step and issues its two
    /// stack claims. Fails, without touching the row, exactly when the step
    /// payload does not match this opcode's expected shape or carries
    /// disordered windows; such a failure signals a dispatch bug and is
    /// fatal: the driver aborts the whole assignment on it.
    pub fn assign(
        &self,
        row: &mut Row,
        claims: &mut Vec<MemoryClaim>,
        entry: &EventTableEntryWithMemoryInfo,
    ) -> (r: Result<(), AssignError>)
        requires
            self.ids_wf(old(row)@.len() as int),
        ensures
            r is Ok <==> local_set_step_valid(*entry),
            r is Err ==> final(row)@ == old(row)@ && final(claims)@ == old(claims)@,
            r is Ok ==> {
                &&& final(row)@.len() == old(row)@.len()
                &&& self.local_set_row_values(final(row)@, *entry)
                &&& final(claims)@ == old(claims)@ + local_set_claims(*entry)
                &&& forall|i: int|
                    0 <= i < final(row)@.len() && !(self.first_cell <= i < self.first_cell
                        + LOCAL_SET_CELL_COUNT) ==> final(row)@[i] == old(row)@[i]
            },
    {
        match &entry.eentry.step_info {
            StepInfo::SetLocal { vtype, depth, value } => {
                if entry.memory_rw_entries.len() < 2 {
                    return Err(AssignError::MissingMemoryWindows);
                }
                if !(entry.eentry.sp as u64 + 1 + *depth as u64 <= u32::MAX as u64) {
                    return Err(AssignError::StackAddressOverflow);
                }
                let window_ok = entry.memory_rw_entries[0].start_eid < entry.eentry.eid
                    && entry.eentry.eid <= entry.memory_rw_entries[0].end_eid
                    && entry.eentry.eid < entry.memory_rw_entries[1].end_eid;
                if !window_ok {
                    return Err(AssignError::InvalidMemoryWindow);
                }
                let is_i32 = *vtype == VarType::I32;
                self.is_i32_cell.assign(row, is_i32);
                self.value_cell.assign(row, *value);
                self.offset_cell.assign(row, *depth);

                self.memory_table_lookup_stack_read.assign(
                    row,
                    claims,
                    entry.memory_rw_entries[0].start_eid,
                    entry.eentry.eid,
                    entry.memory_rw_entries[0].end_eid,
                    entry.eentry.sp + 1,
                    LocationType::Stack,
                    is_i32,
                    *value,
                );

                self.memory_table_lookup_stack_write.assign(
                    row,
                    claims,
                    entry.eentry.eid,
                    entry.memory_rw_entries[1].end_eid,
                    entry.eentry.sp + 1 + *depth,
                    LocationType::Stack,
                    is_i32,
                    *value,
                );

                proof {
                    assert(final(claims)@ =~= old(claims)@ + local_set_claims(*entry));
                }
                Ok(())
            },
            _ => Err(AssignError::UnexpectedStepShape),
        }
    }
}

} // verus!
