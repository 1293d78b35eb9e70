//! Arithmetization of the heap store opcode: a 1/2/4/8-byte value is written
//! at a byte-addressable effective address, possibly straddling two 8-byte
//! blocks. The pre-existing double-block value is split into tailing, picked
//! and leading parts at the byte position; the identities reassemble the
//! unchanged part in two independent ways and tie the written blocks to the
//! wrapped stored value scaled by the same power-of-two factor.

use vstd::prelude::*;
use vstd::arithmetic::power2::pow2;
use crate::cell::AllocatedBitCell;
use crate::cell::AllocatedCommonRangeCell;
use crate::cell::AllocatedU32Cell;
use crate::cell::AllocatedU64Cell;
use crate::cell::AllocatedU8Cell;
use crate::cell::AllocatedUnlimitedCell;
use crate::cell::CellAllocator;
use crate::cell::CellKind;
use crate::cell::Row;
use crate::encode::OPCODE_ARG0_BASE;
use crate::encode::OPCODE_ARG1_BASE;
use crate::encode::OPCODE_CLASS_BASE;
use crate::encode::OpcodeClass;
use crate::etable::EventTableCommonConfig;
use crate::etable::POW_TABLE_POWER_START;
use crate::expr::Expr;
use crate::expr::cell_val;
use crate::expr::ConstraintBuilder;
use crate::expr::eadd;
use crate::expr::ecell;
use crate::expr::econst;
use crate::expr::emul;
use crate::expr::esub;
use crate::lookup::AllocatedMemoryTableLookupReadCell;
use crate::lookup::AllocatedMemoryTableLookupWriteCell;
use crate::mtable::LocationType;
use crate::mtable::MemoryClaim;
use crate::step::EventTableEntryWithMemoryInfo;
use crate::step::StepInfo;
use crate::step::VarType;

verus! {

/// Bytes per heap block.
pub const WASM_BLOCK_BYTE_SIZE: u64 = 8;

/// Blocks per 64 KiB memory page.
pub const WASM_BLOCKS_PER_PAGE: u64 = 8192;

/// Largest page count the machine may allocate.
pub const WASM_MAX_PAGES: u32 = 65536;

/// Number of cells owned by one heap-store configuration.
pub const STORE_CELL_COUNT: usize = 86;

/// Number of identities one heap-store configuration registers.
pub const STORE_CONSTRAINT_COUNT: usize = 14;

/// The cells of the heap-store configuration.
pub struct StoreConfig {
    /// Store offset decoded from the opcode.
    pub opcode_store_offset: AllocatedU32Cell,
    /// Heap block index of the first touched block.
    pub load_block_index: AllocatedU32Cell,
    /// 3-bit decomposition of the in-block byte position.
    pub load_block_inner_pos_bits: [AllocatedBitCell; 3],
    /// The in-block byte position; pinned by its bit decomposition.
    pub load_block_inner_pos: AllocatedUnlimitedCell,
    /// 1 exactly when the access straddles two blocks.
    pub is_cross_block: AllocatedBitCell,
    pub cross_block_rem: AllocatedCommonRangeCell,
    /// Helper proving `cross_block_rem < WASM_BLOCK_BYTE_SIZE`.
    pub cross_block_rem_diff: AllocatedCommonRangeCell,
    pub load_tailing: AllocatedU64Cell,
    /// Helper proving `load_tailing < 2^(8 * inner_pos)`.
    pub load_tailing_diff: AllocatedU64Cell,
    pub load_picked: AllocatedU64Cell,
    pub load_leading: AllocatedU64Cell,
    /// Helper proving the picked value fits one byte for 1-byte stores.
    pub load_picked_byte_proof: AllocatedU8Cell,
    /// The pre-existing value outside the written bytes.
    pub unchanged_value: AllocatedUnlimitedCell,
    /// Number of bytes written.
    pub bytes: AllocatedUnlimitedCell,
    /// `2^(8 * bytes)`.
    pub len_modulus: AllocatedUnlimitedCell,
    pub store_value: AllocatedU64Cell,
    pub store_value_tailing_u16_u8_high: AllocatedU8Cell,
    pub store_value_tailing_u16_u8_low: AllocatedU8Cell,
    /// The stored value truncated to the access width.
    pub store_value_wrapped: AllocatedUnlimitedCell,
    pub is_one_byte: AllocatedBitCell,
    pub is_two_bytes: AllocatedBitCell,
    pub is_four_bytes: AllocatedBitCell,
    pub is_eight_bytes: AllocatedBitCell,
    pub is_i32: AllocatedBitCell,
    pub memory_table_lookup_stack_read_val: AllocatedMemoryTableLookupReadCell,
    pub memory_table_lookup_stack_read_pos: AllocatedMemoryTableLookupReadCell,
    pub memory_table_lookup_heap_read1: AllocatedMemoryTableLookupReadCell,
    pub memory_table_lookup_heap_read2: AllocatedMemoryTableLookupReadCell,
    pub memory_table_lookup_heap_write1: AllocatedMemoryTableLookupWriteCell,
    pub memory_table_lookup_heap_write2: AllocatedMemoryTableLookupWriteCell,
    /// Shared power-table pair, owned by the common context.
    pub lookup_pow_modulus: AllocatedUnlimitedCell,
    pub lookup_pow_power: AllocatedUnlimitedCell,
    /// Shared allocated-pages cell, owned by the common context.
    pub mpages_cell: AllocatedCommonRangeCell,
    /// Helper proving the touched blocks lie within the allocated pages.
    pub address_within_allocated_pages_helper: AllocatedCommonRangeCell,
    /// First cell index of this configuration's contiguous block.
    pub first_cell: usize,
}

/// Builds the heap-store configuration.
pub struct StoreConfigBuilder;

impl StoreConfig {
    /// Cell indices of this configuration: a contiguous block starting at
    /// `first_cell`, plus the shared cells it reads or fills.
    pub open spec fn ids_wf(self, n: int) -> bool {
        let b = self.first_cell as int;
        &&& crate::etable::COMMON_CELL_COUNT <= b
        &&& b + STORE_CELL_COUNT <= n
        &&& self.opcode_store_offset.u32_cell == b
        &&& self.opcode_store_offset.u16_cells_le[0] == b + 1
        &&& self.opcode_store_offset.u16_cells_le[1] == b + 2
        &&& self.load_block_index.u32_cell == b + 3
        &&& self.load_block_index.u16_cells_le[0] == b + 4
        &&& self.load_block_index.u16_cells_le[1] == b + 5
        &&& self.load_block_inner_pos_bits[0].cell == b + 6
        &&& self.load_block_inner_pos_bits[1].cell == b + 7
        &&& self.load_block_inner_pos_bits[2].cell == b + 8
        &&& self.load_block_inner_pos.cell == b + 9
        &&& self.is_cross_block.cell == b + 10
        &&& self.cross_block_rem.cell == b + 11
        &&& self.cross_block_rem_diff.cell == b + 12
        &&& self.bytes.cell == b + 13
        &&& self.len_modulus.cell == b + 14
        &&& self.load_tailing.u64_cell == b + 15
        &&& self.load_tailing.u16_cells_le[0] == b + 16
        &&& self.load_tailing.u16_cells_le[1] == b + 17
        &&& self.load_tailing.u16_cells_le[2] == b + 18
        &&& self.load_tailing.u16_cells_le[3] == b + 19
        &&& self.load_tailing_diff.u64_cell == b + 20
        &&& self.load_tailing_diff.u16_cells_le[0] == b + 21
        &&& self.load_tailing_diff.u16_cells_le[1] == b + 22
        &&& self.load_tailing_diff.u16_cells_le[2] == b + 23
        &&& self.load_tailing_diff.u16_cells_le[3] == b + 24
        &&& self.load_picked.u64_cell == b + 25
        &&& self.load_picked.u16_cells_le[0] == b + 26
        &&& self.load_picked.u16_cells_le[1] == b + 27
        &&& self.load_picked.u16_cells_le[2] == b + 28
        &&& self.load_picked.u16_cells_le[3] == b + 29
        &&& self.load_picked_byte_proof.cell == b + 30
        &&& self.load_leading.u64_cell == b + 31
        &&& self.load_leading.u16_cells_le[0] == b + 32
        &&& self.load_leading.u16_cells_le[1] == b + 33
        &&& self.load_leading.u16_cells_le[2] == b + 34
        &&& self.load_leading.u16_cells_le[3] == b + 35
        &&& self.store_value.u64_cell == b + 36
        &&& self.store_value.u16_cells_le[0] == b + 37
        &&& self.store_value.u16_cells_le[1] == b + 38
        &&& self.store_value.u16_cells_le[2] == b + 39
        &&& self.store_value.u16_cells_le[3] == b + 40
        &&& self.store_value_wrapped.cell == b + 41
        &&& self.is_one_byte.cell == b + 42
        &&& self.is_two_bytes.cell == b + 43
        &&& self.is_four_bytes.cell == b + 44
        &&& self.is_eight_bytes.cell == b + 45
        &&& self.is_i32.cell == b + 46
        &&& self.memory_table_lookup_stack_read_val.start_eid_cell.cell == b + 47
        &&& self.memory_table_lookup_stack_read_val.end_eid_cell.cell == b + 48
        &&& self.memory_table_lookup_stack_read_val.value_cell is None
        &&& self.memory_table_lookup_stack_read_pos.start_eid_cell.cell == b + 49
        &&& self.memory_table_lookup_stack_read_pos.end_eid_cell.cell == b + 50
        &&& (self.memory_table_lookup_stack_read_pos.value_cell matches Some(vc) && vc.u64_cell == b
            + 51 && vc.u16_cells_le[0] == b + 52 && vc.u16_cells_le[1] == b + 53
            && vc.u16_cells_le[2] == b + 54 && vc.u16_cells_le[3] == b + 55)
        &&& self.memory_table_lookup_heap_read1.start_eid_cell.cell == b + 56
        &&& self.memory_table_lookup_heap_read1.end_eid_cell.cell == b + 57
        &&& (self.memory_table_lookup_heap_read1.value_cell matches Some(vc) && vc.u64_cell == b
            + 58 && vc.u16_cells_le[0] == b + 59 && vc.u16_cells_le[1] == b + 60
            && vc.u16_cells_le[2] == b + 61 && vc.u16_cells_le[3] == b + 62)
        &&& self.memory_table_lookup_heap_read2.start_eid_cell.cell == b + 63
        &&& self.memory_table_lookup_heap_read2.end_eid_cell.cell == b + 64
        &&& (self.memory_table_lookup_heap_read2.value_cell matches Some(vc) && vc.u64_cell == b
            + 65 && vc.u16_cells_le[0] == b + 66 && vc.u16_cells_le[1] == b + 67
            && vc.u16_cells_le[2] == b + 68 && vc.u16_cells_le[3] == b + 69)
        &&& self.memory_table_lookup_heap_write1.end_eid_cell.cell == b + 70
        &&& (self.memory_table_lookup_heap_write1.value_cell matches Some(vc) && vc.u64_cell == b
            + 71 && vc.u16_cells_le[0] == b + 72 && vc.u16_cells_le[1] == b + 73
            && vc.u16_cells_le[2] == b + 74 && vc.u16_cells_le[3] == b + 75)
        &&& self.memory_table_lookup_heap_write2.end_eid_cell.cell == b + 76
        &&& (self.memory_table_lookup_heap_write2.value_cell matches Some(vc) && vc.u64_cell == b
            + 77 && vc.u16_cells_le[0] == b + 78 && vc.u16_cells_le[1] == b + 79
            && vc.u16_cells_le[2] == b + 80 && vc.u16_cells_le[3] == b + 81)
        &&& self.unchanged_value.cell == b + 82
        &&& self.store_value_tailing_u16_u8_high.cell == b + 83
        &&& self.store_value_tailing_u16_u8_low.cell == b + 84
        &&& self.address_within_allocated_pages_helper.cell == b + 85
        &&& self.lookup_pow_power.cell == 7
        &&& self.lookup_pow_modulus.cell == 8
        &&& self.mpages_cell.cell == 5
    }

    /// Layout and range disciplines of this configuration.
    pub open spec fn wf(self, kinds: Seq<CellKind>) -> bool {
        let b = self.first_cell as int;
        &&& self.ids_wf(kinds.len() as int)
        &&& kinds[b] == CellKind::U32
        &&& kinds[b + 1] == CellKind::U16
        &&& kinds[b + 2] == CellKind::U16
        &&& kinds[b + 3] == CellKind::U32
        &&& kinds[b + 4] == CellKind::U16
        &&& kinds[b + 5] == CellKind::U16
        &&& kinds[b + 6] == CellKind::Bit
        &&& kinds[b + 7] == CellKind::Bit
        &&& kinds[b + 8] == CellKind::Bit
        &&& kinds[b + 9] == CellKind::Unlimited
        &&& kinds[b + 10] == CellKind::Bit
        &&& kinds[b + 11] == CellKind::CommonRange
        &&& kinds[b + 12] == CellKind::CommonRange
        &&& kinds[b + 13] == CellKind::Unlimited
        &&& kinds[b + 14] == CellKind::Unlimited
        &&& kinds[b + 15] == CellKind::U64
        &&& kinds[b + 16] == CellKind::U16
        &&& kinds[b + 17] == CellKind::U16
        &&& kinds[b + 18] == CellKind::U16
        &&& kinds[b + 19] == CellKind::U16
        &&& kinds[b + 20] == CellKind::U64
        &&& kinds[b + 21] == CellKind::U16
        &&& kinds[b + 22] == CellKind::U16
        &&& kinds[b + 23] == CellKind::U16
        &&& kinds[b + 24] == CellKind::U16
        &&& kinds[b + 25] == CellKind::U64
        &&& kinds[b + 26] == CellKind::U16
        &&& kinds[b + 27] == CellKind::U16
        &&& kinds[b + 28] == CellKind::U16
        &&& kinds[b + 29] == CellKind::U16
        &&& kinds[b + 30] == CellKind::U8
        &&& kinds[b + 31] == CellKind::U64
        &&& kinds[b + 32] == CellKind::U16
        &&& kinds[b + 33] == CellKind::U16
        &&& kinds[b + 34] == CellKind::U16
        &&& kinds[b + 35] == CellKind::U16
        &&& kinds[b + 36] == CellKind::U64
        &&& kinds[b + 37] == CellKind::U16
        &&& kinds[b + 38] == CellKind::U16
        &&& kinds[b + 39] == CellKind::U16
        &&& kinds[b + 40] == CellKind::U16
        &&& kinds[b + 41] == CellKind::Unlimited
        &&& kinds[b + 42] == CellKind::Bit
        &&& kinds[b + 43] == CellKind::Bit
        &&& kinds[b + 44] == CellKind::Bit
        &&& kinds[b + 45] == CellKind::Bit
        &&& kinds[b + 46] == CellKind::Bit
        &&& kinds[b + 47] == CellKind::CommonRange
        &&& kinds[b + 48] == CellKind::CommonRange
        &&& kinds[b + 49] == CellKind::CommonRange
        &&& kinds[b + 50] == CellKind::CommonRange
        &&& kinds[b + 51] == CellKind::U64
        &&& kinds[b + 52] == CellKind::U16
        &&& kinds[b + 53] == CellKind::U16
        &&& kinds[b + 54] == CellKind::U16
        &&& kinds[b + 55] == CellKind::U16
        &&& kinds[b + 56] == CellKind::CommonRange
        &&& kinds[b + 57] == CellKind::CommonRange
        &&& kinds[b + 58] == CellKind::U64
        &&& kinds[b + 59] == CellKind::U16
        &&& kinds[b + 60] == CellKind::U16
        &&& kinds[b + 61] == CellKind::U16
        &&& kinds[b + 62] == CellKind::U16
        &&& kinds[b + 63] == CellKind::CommonRange
        &&& kinds[b + 64] == CellKind::CommonRange
        &&& kinds[b + 65] == CellKind::U64
        &&& kinds[b + 66] == CellKind::U16
        &&& kinds[b + 67] == CellKind::U16
        &&& kinds[b + 68] == CellKind::U16
        &&& kinds[b + 69] == CellKind::U16
        &&& kinds[b + 70] == CellKind::CommonRange
        &&& kinds[b + 71] == CellKind::U64
        &&& kinds[b + 72] == CellKind::U16
        &&& kinds[b + 73] == CellKind::U16
        &&& kinds[b + 74] == CellKind::U16
        &&& kinds[b + 75] == CellKind::U16
        &&& kinds[b + 76] == CellKind::CommonRange
        &&& kinds[b + 77] == CellKind::U64
        &&& kinds[b + 78] == CellKind::U16
        &&& kinds[b + 79] == CellKind::U16
        &&& kinds[b + 80] == CellKind::U16
        &&& kinds[b + 81] == CellKind::U16
        &&& kinds[b + 82] == CellKind::Unlimited
        &&& kinds[b + 83] == CellKind::U8
        &&& kinds[b + 84] == CellKind::U8
        &&& kinds[b + 85] == CellKind::CommonRange
    }

    /// Cell carrying the raw store address observed by the stack read at
    /// `sp + 2`.
    pub open spec fn store_base_cell(self) -> int {
        self.first_cell + 51
    }

    /// Value of the opcode-encoding expression on a row.
    pub open spec fn opcode_eval(self, row: Seq<u128>) -> int {
        OpcodeClass::Store.spec_code() * OPCODE_CLASS_BASE + cell_val(
            row,
            self.is_i32.cell as int,
        ) * OPCODE_ARG0_BASE + (cell_val(row, self.is_eight_bytes.cell as int) * 3 + cell_val(
            row,
            self.is_four_bytes.cell as int,
        ) * 2 + cell_val(row, self.is_two_bytes.cell as int) + 1) * OPCODE_ARG1_BASE + cell_val(
            row,
            self.opcode_store_offset.u32_cell as int,
        )
    }

    /// The canonical field expression encoding this opcode's identity plus
    /// its static operand bits.
    pub fn opcode(&self) -> (e: Expr)
        ensures
            forall|row: Seq<u128>| #[trigger] e.eval(row) == self.opcode_eval(row),
    {
        let store_size = eadd(
            eadd(
                eadd(
                    emul(ecell(self.is_eight_bytes.cell), econst(3)),
                    emul(ecell(self.is_four_bytes.cell), econst(2)),
                ),
                ecell(self.is_two_bytes.cell),
            ),
            econst(1),
        );
        eadd(
            eadd(
                eadd(
                    econst(OpcodeClass::Store.code() as u128 * OPCODE_CLASS_BASE),
                    emul(ecell(self.is_i32.cell), econst(OPCODE_ARG0_BASE)),
                ),
                emul(store_size, econst(OPCODE_ARG1_BASE)),
            ),
            ecell(self.opcode_store_offset.u32_cell),
        )
    }

    /// Net stack-pointer change: address and value are both popped.
    pub fn sp_diff(&self) -> (e: Option<Expr>)
        ensures
            e matches Some(d) && forall|row: Seq<u128>| #[trigger] (e->Some_0).eval(row) == 2,
    {
        Some(econst(2))
    }

    /// Number of heap block pairs claimed per row: one, plus one more when
    /// the access crosses a block boundary.
    pub fn mops(&self) -> (e: Option<Expr>)
        ensures
            e matches Some(d) && forall|row: Seq<u128>|
                #[trigger] (e->Some_0).eval(row) == 1 + cell_val(
                    row,
                    self.is_cross_block.cell as int,
                ),
    {
        Some(eadd(econst(1), ecell(self.is_cross_block.cell)))
    }

    /// Concrete number of heap writes of one occurrence: 2 when the access
    /// straddles a block boundary, else 1. A payload of another opcode is a
    /// dispatch bug and is excluded.
    pub fn memory_writing_ops(&self, entry: &crate::step::EventTableEntry) -> (r: u32)
        requires
            entry.step_info is Store,
        ensures
            r == (if entry.step_info->Store_effective_address as int % 8
                + entry.step_info->Store_store_size.spec_byte_size() > 8 {
                2int
            } else {
                1int
            }),
    {
        match &entry.step_info {
            StepInfo::Store { store_size, effective_address, .. } => {
                let inner = effective_address % 8;
                if inner as u64 + store_size.byte_size() > WASM_BLOCK_BYTE_SIZE {
                    2
                } else {
                    1
                }
            },
            _ => 0,
        }
    }
}

impl StoreConfig {
    /// Cell carrying the first heap block's pre-write value.
    pub open spec fn heap_read1_value_cell(self) -> int {
        self.first_cell + 58
    }

    /// Cell carrying the second heap block's pre-write value.
    pub open spec fn heap_read2_value_cell(self) -> int {
        self.first_cell + 65
    }

    /// Cell carrying the first heap block's post-write value.
    pub open spec fn heap_write1_value_cell(self) -> int {
        self.first_cell + 71
    }

    /// Cell carrying the second heap block's post-write value.
    pub open spec fn heap_write2_value_cell(self) -> int {
        self.first_cell + 77
    }

    /// The claimed tuples, as recorded at configuration time: how each claim
    /// handle derives its event id, location, address, width flag, value and
    /// enable indicator from the row's cells.
    pub open spec fn lookup_exprs_wf(self) -> bool {
        let b = self.first_cell as int;
        let rv = self.memory_table_lookup_stack_read_val;
        let rp = self.memory_table_lookup_stack_read_pos;
        let h1 = self.memory_table_lookup_heap_read1;
        let h2 = self.memory_table_lookup_heap_read2;
        let w1 = self.memory_table_lookup_heap_write1;
        let w2 = self.memory_table_lookup_heap_write2;
        &&& forall|row: Seq<u128>| #[trigger] rv.eid_expr.eval(row) == cell_val(row, 3)
        &&& forall|row: Seq<u128>|
            #[trigger] rv.location_expr.eval(row) == LocationType::Stack.spec_code()
        &&& forall|row: Seq<u128>| #[trigger] rv.address_expr.eval(row) == cell_val(row, 4) + 1
        &&& forall|row: Seq<u128>| #[trigger] rv.width_expr.eval(row) == cell_val(row, b + 46)
        &&& forall|row: Seq<u128>| #[trigger] rv.value_expr.eval(row) == cell_val(row, b + 36)
        &&& forall|row: Seq<u128>| #[trigger] rv.enable_expr.eval(row) == 1
        &&& forall|row: Seq<u128>| #[trigger] rp.eid_expr.eval(row) == cell_val(row, 3)
        &&& forall|row: Seq<u128>|
            #[trigger] rp.location_expr.eval(row) == LocationType::Stack.spec_code()
        &&& forall|row: Seq<u128>| #[trigger] rp.address_expr.eval(row) == cell_val(row, 4) + 2
        &&& forall|row: Seq<u128>| #[trigger] rp.width_expr.eval(row) == 1
        &&& forall|row: Seq<u128>| #[trigger] rp.value_expr.eval(row) == cell_val(row, b + 51)
        &&& forall|row: Seq<u128>| #[trigger] rp.enable_expr.eval(row) == 1
        &&& forall|row: Seq<u128>| #[trigger] h1.eid_expr.eval(row) == cell_val(row, 3)
        &&& forall|row: Seq<u128>|
            #[trigger] h1.location_expr.eval(row) == LocationType::Heap.spec_code()
        &&& forall|row: Seq<u128>| #[trigger] h1.address_expr.eval(row) == cell_val(row, b + 3)
        &&& forall|row: Seq<u128>| #[trigger] h1.width_expr.eval(row) == 0
        &&& forall|row: Seq<u128>| #[trigger] h1.value_expr.eval(row) == cell_val(row, b + 58)
        &&& forall|row: Seq<u128>| #[trigger] h1.enable_expr.eval(row) == 1
        &&& forall|row: Seq<u128>| #[trigger] h2.eid_expr.eval(row) == cell_val(row, 3)
        &&& forall|row: Seq<u128>|
            #[trigger] h2.location_expr.eval(row) == LocationType::Heap.spec_code()
        &&& forall|row: Seq<u128>| #[trigger] h2.address_expr.eval(row) == cell_val(row, b + 3) + 1
        &&& forall|row: Seq<u128>| #[trigger] h2.width_expr.eval(row) == 0
        &&& forall|row: Seq<u128>| #[trigger] h2.value_expr.eval(row) == cell_val(row, b + 65)
        &&& forall|row: Seq<u128>| #[trigger] h2.enable_expr.eval(row) == cell_val(row, b + 10)
        &&& forall|row: Seq<u128>| #[trigger] w1.eid_expr.eval(row) == cell_val(row, 3)
        &&& forall|row: Seq<u128>|
            #[trigger] w1.location_expr.eval(row) == LocationType::Heap.spec_code()
        &&& forall|row: Seq<u128>| #[trigger] w1.address_expr.eval(row) == cell_val(row, b + 3)
        &&& forall|row: Seq<u128>| #[trigger] w1.width_expr.eval(row) == 0
        &&& forall|row: Seq<u128>| #[trigger] w1.value_expr.eval(row) == cell_val(row, b + 71)
        &&& forall|row: Seq<u128>| #[trigger] w1.enable_expr.eval(row) == 1
        &&& forall|row: Seq<u128>| #[trigger] w2.eid_expr.eval(row) == cell_val(row, 3)
        &&& forall|row: Seq<u128>|
            #[trigger] w2.location_expr.eval(row) == LocationType::Heap.spec_code()
        &&& forall|row: Seq<u128>| #[trigger] w2.address_expr.eval(row) == cell_val(row, b + 3) + 1
        &&& forall|row: Seq<u128>| #[trigger] w2.width_expr.eval(row) == 0
        &&& forall|row: Seq<u128>| #[trigger] w2.value_expr.eval(row) == cell_val(row, b + 77)
        &&& forall|row: Seq<u128>| #[trigger] w2.enable_expr.eval(row) == cell_val(row, b + 10)
    }

    /// Exactly one width-class bit is set.
    pub open spec fn c_length_eval(self, row: Seq<u128>) -> int {
        cell_val(row, self.is_one_byte.cell as int) + cell_val(row, self.is_two_bytes.cell as int)
            + cell_val(row, self.is_four_bytes.cell as int) + cell_val(
            row,
            self.is_eight_bytes.cell as int,
        ) - 1
    }

    /// The byte count matches the width-class bits.
    pub open spec fn c_bytes_eval(self, row: Seq<u128>) -> int {
        cell_val(row, self.bytes.cell as int) - 1 - cell_val(row, self.is_two_bytes.cell as int) - 3
            * cell_val(row, self.is_four_bytes.cell as int) - 7 * cell_val(
            row,
            self.is_eight_bytes.cell as int,
        )
    }

    /// Block index and in-block position split the effective address.
    pub open spec fn c_block_index_eval(self, row: Seq<u128>) -> int {
        cell_val(row, self.load_block_index.u32_cell as int) * 8 + cell_val(
            row,
            self.load_block_inner_pos.cell as int,
        ) - cell_val(row, self.opcode_store_offset.u32_cell as int) - cell_val(
            row,
            self.store_base_cell(),
        )
    }

    /// The in-block position equals its own 3-bit decomposition.
    pub open spec fn c_inner_pos_bits_eval(self, row: Seq<u128>) -> int {
        cell_val(row, self.load_block_inner_pos.cell as int) - cell_val(
            row,
            self.load_block_inner_pos_bits[0].cell as int,
        ) - 2 * cell_val(row, self.load_block_inner_pos_bits[1].cell as int) - 4 * cell_val(
            row,
            self.load_block_inner_pos_bits[2].cell as int,
        )
    }

    /// The cross-block indicator is forced by position plus width.
    pub open spec fn c_cross_eval(self, row: Seq<u128>) -> int {
        cell_val(row, self.is_cross_block.cell as int) * 8 + cell_val(
            row,
            self.cross_block_rem.cell as int,
        ) - cell_val(row, self.load_block_inner_pos.cell as int) - cell_val(
            row,
            self.bytes.cell as int,
        ) + 1
    }

    /// The cross-block remainder stays below the block size.
    pub open spec fn c_rem_range_eval(self, row: Seq<u128>) -> int {
        cell_val(row, self.cross_block_rem.cell as int) + cell_val(
            row,
            self.cross_block_rem_diff.cell as int,
        ) - 7
    }

    /// Without a crossing, the second block's read value contributes zero.
    pub open spec fn c_heap2_zero_eval(self, row: Seq<u128>) -> int {
        (cell_val(row, self.is_cross_block.cell as int) - 1) * cell_val(
            row,
            self.heap_read2_value_cell(),
        )
    }

    /// The length modulus matches the width-class bits.
    pub open spec fn c_len_modulus_eval(self, row: Seq<u128>) -> int {
        cell_val(row, self.len_modulus.cell as int) - cell_val(row, self.is_one_byte.cell as int)
            * 0x100 - cell_val(row, self.is_two_bytes.cell as int) * 0x10000 - cell_val(
            row,
            self.is_four_bytes.cell as int,
        ) * 0x100000000 - cell_val(row, self.is_eight_bytes.cell as int) * 0x10000000000000000
    }

    /// The unchanged value reassembled from tailing, leading and the moduli.
    pub open spec fn c_pick1_eval(self, row: Seq<u128>) -> int {
        cell_val(row, self.unchanged_value.cell as int) - cell_val(
            row,
            self.load_tailing.u64_cell as int,
        ) - cell_val(row, self.load_leading.u64_cell as int) * cell_val(
            row,
            self.lookup_pow_modulus.cell as int,
        ) * cell_val(row, self.len_modulus.cell as int)
    }

    /// The unchanged value reassembled from the two raw block reads.
    pub open spec fn c_pick2_eval(self, row: Seq<u128>) -> int {
        cell_val(row, self.unchanged_value.cell as int) + cell_val(
            row,
            self.load_picked.u64_cell as int,
        ) * cell_val(row, self.lookup_pow_modulus.cell as int) - cell_val(
            row,
            self.heap_read1_value_cell(),
        ) - cell_val(row, self.heap_read2_value_cell()) * 0x10000000000000000
    }

    /// The new block contents reassembled from the wrapped stored value.
    pub open spec fn c_pick3_eval(self, row: Seq<u128>) -> int {
        cell_val(row, self.unchanged_value.cell as int) + cell_val(
            row,
            self.store_value_wrapped.cell as int,
        ) * cell_val(row, self.lookup_pow_modulus.cell as int) - cell_val(
            row,
            self.heap_write1_value_cell(),
        ) - cell_val(row, self.heap_write2_value_cell()) * 0x10000000000000000
    }

    /// The tailing part stays below the position modulus.
    pub open spec fn c_pick_helper_eval(self, row: Seq<u128>) -> int {
        cell_val(row, self.load_tailing.u64_cell as int) + cell_val(
            row,
            self.load_tailing_diff.u64_cell as int,
        ) + 1 - cell_val(row, self.lookup_pow_modulus.cell as int)
    }

    /// Four-byte picks have empty high limbs.
    pub open spec fn c_size_check4_eval(self, row: Seq<u128>) -> int {
        cell_val(row, self.is_four_bytes.cell as int) * (cell_val(
            row,
            self.load_picked.u16_cells_le[2] as int,
        ) + cell_val(row, self.load_picked.u16_cells_le[3] as int))
    }

    /// Two-byte picks fit their first limb.
    pub open spec fn c_size_check2_eval(self, row: Seq<u128>) -> int {
        cell_val(row, self.is_two_bytes.cell as int) * (cell_val(
            row,
            self.load_picked.u64_cell as int,
        ) - cell_val(row, self.load_picked.u16_cells_le[0] as int))
    }

    /// One-byte picks fit one byte.
    pub open spec fn c_size_check1_eval(self, row: Seq<u128>) -> int {
        cell_val(row, self.is_one_byte.cell as int) * (cell_val(
            row,
            self.load_picked.u64_cell as int,
        ) - cell_val(row, self.load_picked_byte_proof.cell as int))
    }

    /// The stored value's first limb splits into two bytes.
    pub open spec fn c_tailing_u16_eval(self, row: Seq<u128>) -> int {
        cell_val(row, self.store_value_tailing_u16_u8_high.cell as int) * 0x100 + cell_val(
            row,
            self.store_value_tailing_u16_u8_low.cell as int,
        ) - cell_val(row, self.store_value.u16_cells_le[0] as int)
    }

    /// The wrapped value truncates the stored value to the access width.
    pub open spec fn c_value_wrap_eval(self, row: Seq<u128>) -> int {
        cell_val(row, self.store_value_wrapped.cell as int) - (cell_val(
            row,
            self.is_one_byte.cell as int,
        ) * cell_val(row, self.store_value_tailing_u16_u8_low.cell as int) + cell_val(
            row,
            self.is_two_bytes.cell as int,
        ) * cell_val(row, self.store_value.u16_cells_le[0] as int) + cell_val(
            row,
            self.is_four_bytes.cell as int,
        ) * (cell_val(row, self.store_value.u16_cells_le[0] as int) + cell_val(
            row,
            self.store_value.u16_cells_le[1] as int,
        ) * 0x10000) + cell_val(row, self.is_eight_bytes.cell as int) * cell_val(
            row,
            self.store_value.u64_cell as int,
        ))
    }

    /// The power lookup encodes eight times the in-block position.
    pub open spec fn c_pow_lookup_eval(self, row: Seq<u128>) -> int {
        cell_val(row, self.lookup_pow_power.cell as int) - (cell_val(
            row,
            self.load_block_inner_pos.cell as int,
        ) * 8 + POW_TABLE_POWER_START)
    }

    /// The touched blocks lie within the allocated pages.
    pub open spec fn c_allocated_eval(self, row: Seq<u128>) -> int {
        cell_val(row, self.load_block_index.u32_cell as int) + cell_val(
            row,
            self.is_cross_block.cell as int,
        ) + 1 + cell_val(row, self.address_within_allocated_pages_helper.cell as int) - cell_val(
            row,
            self.mpages_cell.cell as int,
        ) * 8192
    }
}

/// The raw double-block value before the write.
pub open spec fn store_load_value(pre1: u64, pre2: u64) -> int {
    pre1 + pre2 * 0x10000000000000000
}

/// Bytes of the first block below the written byte position.
pub open spec fn store_tailing(pre1: u64, pre2: u64, inner: nat) -> int {
    store_load_value(pre1, pre2) % (pow2((8 * inner) as nat) as int)
}

/// The pre-existing bytes at the written position.
pub open spec fn store_picked(pre1: u64, pre2: u64, inner: nat, len: nat) -> int {
    (store_load_value(pre1, pre2) / (pow2((8 * inner) as nat) as int)) % (pow2(
        (8 * len) as nat,
    ) as int)
}

/// Bytes above the written byte range.
pub open spec fn store_leading(pre1: u64, pre2: u64, inner: nat, len: nat) -> int {
    store_load_value(pre1, pre2) / (pow2((8 * (inner + len)) as nat) as int)
}

/// The stored value truncated to the access width.
pub open spec fn store_wrapped(value: u64, len: nat) -> int {
    (value as int) % (pow2((8 * len) as nat) as int)
}

/// The pre-existing value outside the written bytes.
pub open spec fn store_unchanged(pre1: u64, pre2: u64, inner: nat, len: nat) -> int {
    store_tailing(pre1, pre2, inner) + pow2((8 * (inner + len)) as nat) * store_leading(
        pre1,
        pre2,
        inner,
        len,
    )
}

/// The double-block value after the write.
pub open spec fn store_new_value(pre1: u64, pre2: u64, inner: nat, len: nat, value: u64) -> int {
    store_unchanged(pre1, pre2, inner, len) + store_wrapped(value, len) * pow2((8 * inner) as nat)
}

/// The tailing/picked/leading split of the pre-write double-block value, with
/// the bounds the range cells rely on.
pub proof fn lemma_store_split(pre1: u64, pre2: u64, inner: nat, len: nat, value: u64)
    requires
        inner < 8,
        1 <= len <= 8,
    ensures
        store_load_value(pre1, pre2) == store_tailing(pre1, pre2, inner) + pow2((8 * inner) as nat)
            * store_picked(pre1, pre2, inner, len) + pow2((8 * (inner + len)) as nat)
            * store_leading(pre1, pre2, inner, len),
        0 <= store_tailing(pre1, pre2, inner) < pow2((8 * inner) as nat),
        pow2((8 * inner) as nat) <= 0x100000000000000,
        0 <= store_picked(pre1, pre2, inner, len) < pow2((8 * len) as nat),
        pow2((8 * len) as nat) <= 0x10000000000000000,
        0 <= store_leading(pre1, pre2, inner, len),
        pre2 == 0 ==> store_leading(pre1, pre2, inner, len) < 0x10000000000000000,
        inner + len > 8 ==> store_leading(pre1, pre2, inner, len) < 0x10000000000000000,
        0 <= store_wrapped(value, len) < pow2((8 * len) as nat),
        store_unchanged(pre1, pre2, inner, len) == store_load_value(pre1, pre2) - pow2(
            (8 * inner) as nat,
        ) * store_picked(pre1, pre2, inner, len),
        0 <= store_unchanged(pre1, pre2, inner, len) <= store_load_value(pre1, pre2),
        0 <= store_new_value(pre1, pre2, inner, len, value) < 0x10000000000000000
            * 0x10000000000000000,
        (pre2 == 0 && inner + len <= 8) ==> store_new_value(pre1, pre2, inner, len, value)
            < 0x10000000000000000,
{
    let lv = store_load_value(pre1, pre2);
    let t = (8 * inner) as nat;
    let l = (8 * len) as nat;
    let tl = (8 * (inner + len)) as nat;
    assert(tl == t + l);
    vstd::arithmetic::power2::lemma_pow2_pos(t);
    vstd::arithmetic::power2::lemma_pow2_pos(l);
    vstd::arithmetic::power2::lemma_pow2_pos(tl);
    vstd::arithmetic::power2::lemma2_to64();
    vstd::arithmetic::power2::lemma2_to64_rest();
    assert(lv < pow2(128)) by {
        vstd::arithmetic::power2::lemma_pow2_adds(64, 64);
        assert(pre1 < pow2(64) && pre2 < pow2(64));
        assert((pre2 as int) * 0x10000000000000000 <= (pow2(64) - 1) * 0x10000000000000000) by {
            crate::arith::lemma_mul_le(pre2 as int, pow2(64) - 1, 0x10000000000000000);
        }
    }
    crate::arith::lemma_three_part_split(lv, t, l);
    if t < 56 {
        vstd::arithmetic::power2::lemma_pow2_strictly_increases(t, 56);
    }
    if l < 64 {
        vstd::arithmetic::power2::lemma_pow2_strictly_increases(l, 64);
    }
    let leading = store_leading(pre1, pre2, inner, len);
    if pre2 == 0 {
        assert(lv == pre1);
        assert(leading <= lv) by {
            vstd::arithmetic::div_mod::lemma_div_is_ordered_by_denominator(lv, 1, pow2(tl) as int);
            vstd::arithmetic::div_mod::lemma_div_basics_1(lv);
        }
    }
    if inner + len > 8 {
        assert(tl >= 72);
        crate::arith::lemma_div_pow2_bound(lv, tl, 128);
        assert(pow2((128 - tl) as nat) <= pow2(56)) by {
            if 128 - tl < 56 {
                vstd::arithmetic::power2::lemma_pow2_strictly_increases((128 - tl) as nat, 56);
            }
        }
    }
    // bound on the new value
    assert(pow2(tl) == pow2(t) * pow2(l)) by {
        vstd::arithmetic::power2::lemma_pow2_adds(t, l);
    }
    let w = store_wrapped(value, len);
    assert(0 <= w < pow2(l)) by {
        vstd::arithmetic::div_mod::lemma_mod_division_less_than_divisor(value as int, pow2(l) as int);
    }
    let tail = store_tailing(pre1, pre2, inner);
    let nv = store_new_value(pre1, pre2, inner, len, value);
    assert(nv == tail + w * pow2(t) + pow2(tl) * leading);
    assert(tail + w * pow2(t) < pow2(tl)) by (nonlinear_arith)
        requires
            0 <= tail < pow2(t),
            0 <= w < pow2(l),
            pow2(tl) == pow2(t) * pow2(l),
            pow2(t) >= 1,
            pow2(l) >= 1,
    {
    }
    crate::arith::lemma_div_pow2_bound(lv, tl, 128);
    assert(leading < pow2((128 - tl) as nat));
    assert(nv < pow2(tl) * (leading + 1)) by (nonlinear_arith)
        requires
            nv == tail + w * pow2(t) + pow2(tl) * leading,
            tail + w * pow2(t) < pow2(tl),
            pow2(tl) >= 1,
    {
    }
    assert(pow2(tl) * (leading + 1) <= pow2(128)) by {
        crate::arith::lemma_mul_le(leading + 1, pow2((128 - tl) as nat) as int, pow2(tl) as int);
        vstd::arithmetic::power2::lemma_pow2_adds(tl, (128 - tl) as nat);
        assert((leading + 1) * pow2(tl) == pow2(tl) * (leading + 1)) by (nonlinear_arith);
        assert(pow2((128 - tl) as nat) * pow2(tl) == pow2(128)) by (nonlinear_arith)
            requires
                pow2(tl) * pow2((128 - tl) as nat) == pow2(128),
        ;
    }
    assert(pow2(128) == 0x10000000000000000 * 0x10000000000000000) by {
        vstd::arithmetic::power2::lemma_pow2_adds(64, 64);
    }
    if pre2 == 0 && inner + len <= 8 {
        assert(tl <= 64);
        assert(lv < pow2(64));
        crate::arith::lemma_div_pow2_bound(lv, tl, 64);
        assert(leading < pow2((64 - tl) as nat));
        assert(nv < pow2(tl) * (leading + 1));
        assert(pow2(tl) * (leading + 1) <= pow2(64)) by {
            crate::arith::lemma_mul_le(leading + 1, pow2((64 - tl) as nat) as int, pow2(tl) as int);
            vstd::arithmetic::power2::lemma_pow2_adds(tl, (64 - tl) as nat);
            assert((leading + 1) * pow2(tl) == pow2(tl) * (leading + 1)) by (nonlinear_arith);
            assert(pow2((64 - tl) as nat) * pow2(tl) == pow2(64)) by (nonlinear_arith)
                requires
                    pow2(tl) * pow2((64 - tl) as nat) == pow2(64),
            ;
        }
    }
    assert(store_unchanged(pre1, pre2, inner, len) == lv - pow2(t) * store_picked(
        pre1,
        pre2,
        inner,
        len,
    ));
    assert(0 <= pow2(t) * store_picked(pre1, pre2, inner, len)) by (nonlinear_arith)
        requires
            pow2(t) >= 1,
            store_picked(pre1, pre2, inner, len) >= 0,
    {
    }
}

/// The step payload matches this opcode, is internally consistent, and
/// respects the machine bounds: the effective address is base plus offset,
/// the touched blocks lie within the allocated pages, the recorded
/// post-write blocks equal the patched pre-write blocks, and every event-id
/// window is well ordered (a read's window opens strictly before this step
/// and closes no earlier, a write's window closes strictly after it, so
/// `start_eid < end_eid` for every issued record).
pub open spec fn store_step_valid(e: EventTableEntryWithMemoryInfo) -> bool {
    match e.eentry.step_info {
        StepInfo::Store {
            vtype,
            store_size,
            offset,
            raw_address,
            effective_address,
            pre_block_value1,
            updated_block_value1,
            pre_block_value2,
            updated_block_value2,
            value,
        } => {
            let len = store_size.spec_byte_size() as nat;
            let inner = (effective_address as int % 8) as nat;
            let block = effective_address as int / 8;
            let cross = inner + len > 8;
            let nv = store_new_value(pre_block_value1, pre_block_value2, inner, len, value);
            &&& e.memory_rw_entries@.len() >= (if cross {
                6int
            } else {
                4int
            })
            &&& effective_address == raw_address + offset
            &&& e.eentry.sp + 2 <= u32::MAX
            &&& e.eentry.allocated_memory_pages <= WASM_MAX_PAGES
            &&& block + (if cross {
                1int
            } else {
                0int
            }) + 1 <= e.eentry.allocated_memory_pages * WASM_BLOCKS_PER_PAGE
            &&& (!cross ==> pre_block_value2 == 0 && updated_block_value2 == 0)
            &&& updated_block_value1 == nv % 0x10000000000000000
            &&& updated_block_value2 == nv / 0x10000000000000000
            &&& e.memory_rw_entries@[0].start_eid < e.eentry.eid
            &&& e.eentry.eid <= e.memory_rw_entries@[0].end_eid
            &&& e.memory_rw_entries@[1].start_eid < e.eentry.eid
            &&& e.eentry.eid <= e.memory_rw_entries@[1].end_eid
            &&& e.memory_rw_entries@[2].start_eid < e.eentry.eid
            &&& e.eentry.eid <= e.memory_rw_entries@[2].end_eid
            &&& e.eentry.eid < e.memory_rw_entries@[3].end_eid
            &&& (cross ==> e.memory_rw_entries@[4].start_eid < e.eentry.eid && e.eentry.eid
                <= e.memory_rw_entries@[4].end_eid && e.eentry.eid
                < e.memory_rw_entries@[5].end_eid)
        },
        _ => false,
    }
}

/// Every claim a valid occurrence issues has a well formed window.
pub proof fn lemma_store_claims_window_wf(e: EventTableEntryWithMemoryInfo, j: int)
    requires
        store_step_valid(e),
        0 <= j < store_claims(e).len(),
    ensures
        crate::mtable::claim_window_wf(store_claims(e)[j]),
{
}

/// The claims one occurrence issues, in order: a stack read of the value, a
/// stack read of the raw address, a heap read and write of the first block,
/// and, only when the access crosses a block boundary, a heap read and write
/// of the adjacent block.
pub open spec fn store_claims(e: EventTableEntryWithMemoryInfo) -> Seq<MemoryClaim>
    recommends
        store_step_valid(e),
{
    match e.eentry.step_info {
        StepInfo::Store {
            vtype,
            store_size,
            offset,
            raw_address,
            effective_address,
            pre_block_value1,
            updated_block_value1,
            pre_block_value2,
            updated_block_value2,
            value,
        } => {
            let len = store_size.spec_byte_size() as nat;
            let inner = (effective_address as int % 8) as nat;
            let block = (effective_address / 8) as u32;
            let cross = inner + len > 8;
            let eid = e.eentry.eid;
            let base = seq![
                (MemoryClaim {
                    eid,
                    start_eid: e.memory_rw_entries@[0].start_eid,
                    end_eid: e.memory_rw_entries@[0].end_eid,
                    location: LocationType::Stack,
                    address: (e.eentry.sp + 1) as u32,
                    is_narrow: vtype == VarType::I32,
                    value,
                    is_write: false,
                }),
                (MemoryClaim {
                    eid,
                    start_eid: e.memory_rw_entries@[1].start_eid,
                    end_eid: e.memory_rw_entries@[1].end_eid,
                    location: LocationType::Stack,
                    address: (e.eentry.sp + 2) as u32,
                    is_narrow: true,
                    value: raw_address as u64,
                    is_write: false,
                }),
                (MemoryClaim {
                    eid,
                    start_eid: e.memory_rw_entries@[2].start_eid,
                    end_eid: e.memory_rw_entries@[2].end_eid,
                    location: LocationType::Heap,
                    address: block,
                    is_narrow: false,
                    value: pre_block_value1,
                    is_write: false,
                }),
                (MemoryClaim {
                    eid,
                    start_eid: eid,
                    end_eid: e.memory_rw_entries@[3].end_eid,
                    location: LocationType::Heap,
                    address: block,
                    is_narrow: false,
                    value: updated_block_value1,
                    is_write: true,
                }),
            ];
            if cross {
                base + seq![
                    (MemoryClaim {
                        eid,
                        start_eid: e.memory_rw_entries@[4].start_eid,
                        end_eid: e.memory_rw_entries@[4].end_eid,
                        location: LocationType::Heap,
                        address: (block + 1) as u32,
                        is_narrow: false,
                        value: pre_block_value2,
                        is_write: false,
                    }),
                    (MemoryClaim {
                        eid,
                        start_eid: eid,
                        end_eid: e.memory_rw_entries@[5].end_eid,
                        location: LocationType::Heap,
                        address: (block + 1) as u32,
                        is_narrow: false,
                        value: updated_block_value2,
                        is_write: true,
                    }),
                ]
            } else {
                base
            }
        },
        _ => Seq::empty(),
    }
}

impl StoreConfigBuilder {
    /// Allocates the opcode's cells in the fixed order the layout predicate
    /// pins down.
    #[verifier::rlimit(100)]
    #[verifier::spinoff_prover]
    fn allocate(common: &EventTableCommonConfig, alloc: &mut CellAllocator) -> (r: StoreConfig)
        requires
            common.ids_wf(old(alloc).kinds@.len() as int),
            old(alloc).kinds@.len() + STORE_CELL_COUNT < usize::MAX,
        ensures
            r.first_cell == old(alloc).kinds@.len(),
            r.wf(final(alloc).kinds@),
            final(alloc).kinds@.len() == old(alloc).kinds@.len() + STORE_CELL_COUNT,
            forall|i: int|
                0 <= i < old(alloc).kinds@.len() ==> final(alloc).kinds@[i] == old(
                    alloc,
                ).kinds@[i],
            final(alloc).decomps@.len() == old(alloc).decomps@.len() + 12,
            forall|j: int|
                0 <= j < old(alloc).decomps@.len() ==> final(alloc).decomps@[j] == old(
                    alloc,
                ).decomps@[j],
            store_decomps_pinned(r, final(alloc).decomps@, old(alloc).decomps@.len() as int),
            final(alloc).capacity == old(alloc).capacity,
            r.lookup_exprs_wf(),
    {
        let first_cell = alloc.len();
        let opcode_store_offset = alloc.alloc_u32_cell();
        let load_block_index = alloc.alloc_u32_cell();
        let pb0 = alloc.alloc_bit_cell();
        let pb1 = alloc.alloc_bit_cell();
        let pb2 = alloc.alloc_bit_cell();
        let load_block_inner_pos_bits = [pb0, pb1, pb2];
        let load_block_inner_pos = alloc.alloc_unlimited_cell();
        let is_cross_block = alloc.alloc_bit_cell();
        let cross_block_rem = alloc.alloc_common_range_cell();
        let cross_block_rem_diff = alloc.alloc_common_range_cell();
        let bytes = alloc.alloc_unlimited_cell();
        let len_modulus = alloc.alloc_unlimited_cell();
        let load_tailing = alloc.alloc_u64_cell();
        let load_tailing_diff = alloc.alloc_u64_cell();
        let load_picked = alloc.alloc_u64_cell();
        let load_picked_byte_proof = alloc.alloc_u8_cell();
        let load_leading = alloc.alloc_u64_cell();
        let store_value = alloc.alloc_u64_cell();
        let store_value_wrapped = alloc.alloc_unlimited_cell();
        let is_one_byte = alloc.alloc_bit_cell();
        let is_two_bytes = alloc.alloc_bit_cell();
        let is_four_bytes = alloc.alloc_bit_cell();
        let is_eight_bytes = alloc.alloc_bit_cell();
        let is_i32 = alloc.alloc_bit_cell();

        let memory_table_lookup_stack_read_val = alloc.alloc_memory_table_lookup_read_cell(
            "store read data",
            ecell(common.eid_cell.cell),
            econst(LocationType::Stack.code() as u128),
            eadd(ecell(common.sp_cell.cell), econst(1)),
            ecell(is_i32.cell),
            ecell(store_value.u64_cell),
            econst(1),
        );
        let memory_table_lookup_stack_read_pos = alloc
            .alloc_memory_table_lookup_read_cell_with_value(
            "store read pos",
            ecell(common.eid_cell.cell),
            econst(LocationType::Stack.code() as u128),
            eadd(ecell(common.sp_cell.cell), econst(2)),
            econst(1),
            econst(1),
        );
        let memory_table_lookup_heap_read1 = alloc.alloc_memory_table_lookup_read_cell_with_value(
            "store load origin1",
            ecell(common.eid_cell.cell),
            econst(LocationType::Heap.code() as u128),
            ecell(load_block_index.u32_cell),
            econst(0),
            econst(1),
        );
        let memory_table_lookup_heap_read2 = alloc.alloc_memory_table_lookup_read_cell_with_value(
            "store load origin2",
            ecell(common.eid_cell.cell),
            econst(LocationType::Heap.code() as u128),
            eadd(ecell(load_block_index.u32_cell), econst(1)),
            econst(0),
            ecell(is_cross_block.cell),
        );
        let memory_table_lookup_heap_write1 = alloc.alloc_memory_table_lookup_write_cell_with_value(
            "store write res1",
            ecell(common.eid_cell.cell),
            econst(LocationType::Heap.code() as u128),
            ecell(load_block_index.u32_cell),
            econst(0),
            econst(1),
        );
        let memory_table_lookup_heap_write2 = alloc.alloc_memory_table_lookup_write_cell_with_value(
            "store write res2",
            ecell(common.eid_cell.cell),
            econst(LocationType::Heap.code() as u128),
            eadd(ecell(load_block_index.u32_cell), econst(1)),
            econst(0),
            ecell(is_cross_block.cell),
        );
        let unchanged_value = alloc.alloc_unlimited_cell();
        let store_value_tailing_u16_u8_high = alloc.alloc_u8_cell();
        let store_value_tailing_u16_u8_low = alloc.alloc_u8_cell();
        let address_within_allocated_pages_helper = alloc.alloc_common_range_cell();

        let store_base = match &memory_table_lookup_stack_read_pos.value_cell {
            Some(vc) => vc.u64_cell,
            None => 0,
        };
        let heap1_val = match &memory_table_lookup_heap_read1.value_cell {
            Some(vc) => vc.u64_cell,
            None => 0,
        };
        let heap2_val = match &memory_table_lookup_heap_read2.value_cell {
            Some(vc) => vc.u64_cell,
            None => 0,
        };
        let wheap1_val = match &memory_table_lookup_heap_write1.value_cell {
            Some(vc) => vc.u64_cell,
            None => 0,
        };
        let wheap2_val = match &memory_table_lookup_heap_write2.value_cell {
            Some(vc) => vc.u64_cell,
            None => 0,
        };
        StoreConfig {
            opcode_store_offset,
            load_block_index,
            load_block_inner_pos_bits,
            load_block_inner_pos,
            is_cross_block,
            cross_block_rem,
            cross_block_rem_diff,
            load_tailing,
            load_tailing_diff,
            load_picked,
            load_leading,
            load_picked_byte_proof,
            unchanged_value,
            bytes,
            len_modulus,
            store_value,
            store_value_tailing_u16_u8_high,
            store_value_tailing_u16_u8_low,
            store_value_wrapped,
            is_one_byte,
            is_two_bytes,
            is_four_bytes,
            is_eight_bytes,
            is_i32,
            memory_table_lookup_stack_read_val,
            memory_table_lookup_stack_read_pos,
            memory_table_lookup_heap_read1,
            memory_table_lookup_heap_read2,
            memory_table_lookup_heap_write1,
            memory_table_lookup_heap_write2,
            lookup_pow_modulus: common.pow_table_lookup_modulus_cell,
            lookup_pow_power: common.pow_table_lookup_power_cell,
            mpages_cell: common.mpages_cell,
            address_within_allocated_pages_helper,
            first_cell,
        }
    }

    /// Registers the opcode's identities under the caller's current gate.
    #[verifier::rlimit(100)]
    #[verifier::spinoff_prover]
    fn register(common: &EventTableCommonConfig, r: &StoreConfig, builder: &mut ConstraintBuilder)
        requires
            old(builder).constraints@.len() + STORE_CONSTRAINT_COUNT < usize::MAX,
            r.ids_wf(r.first_cell + STORE_CELL_COUNT),
            common.pow_table_lookup_modulus_cell == r.lookup_pow_modulus,
            common.pow_table_lookup_power_cell == r.lookup_pow_power,
            common.mpages_cell == r.mpages_cell,
        ensures
            final(builder).gate == old(builder).gate,
            final(builder).constraints@.len() == old(builder).constraints@.len()
                + STORE_CONSTRAINT_COUNT,
            forall|i: int|
                0 <= i < old(builder).constraints@.len() ==> final(builder).constraints@[i] == old(
                    builder,
                ).constraints@[i],
            forall|k: int|
                old(builder).constraints@.len() <= k < old(builder).constraints@.len()
                    + STORE_CONSTRAINT_COUNT ==> (#[trigger] final(builder).constraints@[k]).gate
                    == old(builder).gate,
            store_constraints_pinned(*r, final(builder).constraints@, old(
                builder,
            ).constraints@.len() as int),
    {
        let opcode_store_offset = r.opcode_store_offset;
        let load_block_index = r.load_block_index;
        let pb0 = r.load_block_inner_pos_bits[0];
        let pb1 = r.load_block_inner_pos_bits[1];
        let pb2 = r.load_block_inner_pos_bits[2];
        let load_block_inner_pos = r.load_block_inner_pos;
        let is_cross_block = r.is_cross_block;
        let cross_block_rem = r.cross_block_rem;
        let cross_block_rem_diff = r.cross_block_rem_diff;
        let bytes = r.bytes;
        let len_modulus = r.len_modulus;
        let load_tailing = r.load_tailing;
        let load_tailing_diff = r.load_tailing_diff;
        let load_picked = r.load_picked;
        let load_picked_byte_proof = r.load_picked_byte_proof;
        let load_leading = r.load_leading;
        let store_value = r.store_value;
        let store_value_wrapped = r.store_value_wrapped;
        let is_one_byte = r.is_one_byte;
        let is_two_bytes = r.is_two_bytes;
        let is_four_bytes = r.is_four_bytes;
        let is_eight_bytes = r.is_eight_bytes;
        let unchanged_value = r.unchanged_value;
        let store_value_tailing_u16_u8_high = r.store_value_tailing_u16_u8_high;
        let store_value_tailing_u16_u8_low = r.store_value_tailing_u16_u8_low;
        let address_within_allocated_pages_helper = r.address_within_allocated_pages_helper;
        let store_base = match &r.memory_table_lookup_stack_read_pos.value_cell {
            Some(vc) => vc.u64_cell,
            None => 0,
        };
        let heap1_val = match &r.memory_table_lookup_heap_read1.value_cell {
            Some(vc) => vc.u64_cell,
            None => 0,
        };
        let heap2_val = match &r.memory_table_lookup_heap_read2.value_cell {
            Some(vc) => vc.u64_cell,
            None => 0,
        };
        let wheap1_val = match &r.memory_table_lookup_heap_write1.value_cell {
            Some(vc) => vc.u64_cell,
            None => 0,
        };
        let wheap2_val = match &r.memory_table_lookup_heap_write2.value_cell {
            Some(vc) => vc.u64_cell,
            None => 0,
        };
        let mut e0: Vec<Expr> = Vec::new();
        e0.push(
            esub(
                eadd(
                    eadd(eadd(ecell(is_one_byte.cell), ecell(is_two_bytes.cell)), ecell(
                        is_four_bytes.cell,
                    )),
                    ecell(is_eight_bytes.cell),
                ),
                econst(1),
            ),
        );
        builder.push("op_store length", e0);

        let mut e1: Vec<Expr> = Vec::new();
        e1.push(
            esub(
                esub(
                    esub(esub(ecell(bytes.cell), econst(1)), ecell(is_two_bytes.cell)),
                    emul(econst(3), ecell(is_four_bytes.cell)),
                ),
                emul(econst(7), ecell(is_eight_bytes.cell)),
            ),
        );
        builder.push("op_store bytes", e1);

        let mut e2: Vec<Expr> = Vec::new();
        e2.push(
            esub(
                esub(
                    eadd(
                        emul(ecell(load_block_index.u32_cell), econst(8)),
                        ecell(load_block_inner_pos.cell),
                    ),
                    ecell(opcode_store_offset.u32_cell),
                ),
                ecell(store_base),
            ),
        );
        e2.push(
            esub(
                esub(
                    esub(ecell(load_block_inner_pos.cell), ecell(pb0.cell)),
                    emul(econst(2), ecell(pb1.cell)),
                ),
                emul(econst(4), ecell(pb2.cell)),
            ),
        );
        builder.push("op_store load_block_index", e2);

        let mut e3: Vec<Expr> = Vec::new();
        e3.push(
            eadd(
                esub(
                    esub(
                        eadd(emul(ecell(is_cross_block.cell), econst(8)), ecell(
                            cross_block_rem.cell,
                        )),
                        ecell(load_block_inner_pos.cell),
                    ),
                    ecell(bytes.cell),
                ),
                econst(1),
            ),
        );
        e3.push(
            esub(eadd(ecell(cross_block_rem.cell), ecell(cross_block_rem_diff.cell)), econst(7)),
        );
        e3.push(emul(esub(ecell(is_cross_block.cell), econst(1)), ecell(heap2_val)));
        builder.push("op_store cross_block", e3);

        let mut e4: Vec<Expr> = Vec::new();
        e4.push(
            esub(
                esub(
                    esub(
                        esub(ecell(len_modulus.cell), emul(ecell(is_one_byte.cell), econst(0x100))),
                        emul(ecell(is_two_bytes.cell), econst(0x10000)),
                    ),
                    emul(ecell(is_four_bytes.cell), econst(0x100000000)),
                ),
                emul(ecell(is_eight_bytes.cell), econst(0x10000000000000000)),
            ),
        );
        builder.push("op_store len modulus", e4);

        let mut e5: Vec<Expr> = Vec::new();
        e5.push(
            esub(
                esub(ecell(unchanged_value.cell), ecell(load_tailing.u64_cell)),
                emul(
                    emul(ecell(load_leading.u64_cell), ecell(common.pow_table_lookup_modulus_cell.cell)),
                    ecell(len_modulus.cell),
                ),
            ),
        );
        builder.push("op_store pick value1", e5);

        let mut e6: Vec<Expr> = Vec::new();
        e6.push(
            esub(
                esub(
                    eadd(
                        ecell(unchanged_value.cell),
                        emul(ecell(load_picked.u64_cell), ecell(
                            common.pow_table_lookup_modulus_cell.cell,
                        )),
                    ),
                    ecell(heap1_val),
                ),
                emul(ecell(heap2_val), econst(0x10000000000000000)),
            ),
        );
        builder.push("op_store pick value2", e6);

        let mut e7: Vec<Expr> = Vec::new();
        e7.push(
            esub(
                esub(
                    eadd(
                        ecell(unchanged_value.cell),
                        emul(ecell(store_value_wrapped.cell), ecell(
                            common.pow_table_lookup_modulus_cell.cell,
                        )),
                    ),
                    ecell(wheap1_val),
                ),
                emul(ecell(wheap2_val), econst(0x10000000000000000)),
            ),
        );
        builder.push("op_store pick value3", e7);

        let mut e8: Vec<Expr> = Vec::new();
        e8.push(
            esub(
                eadd(
                    eadd(ecell(load_tailing.u64_cell), ecell(load_tailing_diff.u64_cell)),
                    econst(1),
                ),
                ecell(common.pow_table_lookup_modulus_cell.cell),
            ),
        );
        builder.push("op_store pick helper value check", e8);

        let mut e9: Vec<Expr> = Vec::new();
        e9.push(
            emul(
                ecell(is_four_bytes.cell),
                eadd(ecell(load_picked.u16_cells_le[2]), ecell(load_picked.u16_cells_le[3])),
            ),
        );
        e9.push(
            emul(
                ecell(is_two_bytes.cell),
                esub(ecell(load_picked.u64_cell), ecell(load_picked.u16_cells_le[0])),
            ),
        );
        e9.push(
            emul(
                ecell(is_one_byte.cell),
                esub(ecell(load_picked.u64_cell), ecell(load_picked_byte_proof.cell)),
            ),
        );
        builder.push("op_store pick value size check", e9);

        let mut e10: Vec<Expr> = Vec::new();
        e10.push(
            esub(
                eadd(
                    emul(ecell(store_value_tailing_u16_u8_high.cell), econst(0x100)),
                    ecell(store_value_tailing_u16_u8_low.cell),
                ),
                ecell(store_value.u16_cells_le[0]),
            ),
        );
        builder.push("op_store tailing u16 decompose", e10);

        let mut e11: Vec<Expr> = Vec::new();
        e11.push(
            esub(
                ecell(store_value_wrapped.cell),
                eadd(
                    eadd(
                        eadd(
                            emul(ecell(is_one_byte.cell), ecell(
                                store_value_tailing_u16_u8_low.cell,
                            )),
                            emul(ecell(is_two_bytes.cell), ecell(store_value.u16_cells_le[0])),
                        ),
                        emul(
                            ecell(is_four_bytes.cell),
                            eadd(
                                ecell(store_value.u16_cells_le[0]),
                                emul(ecell(store_value.u16_cells_le[1]), econst(0x10000)),
                            ),
                        ),
                    ),
                    emul(ecell(is_eight_bytes.cell), ecell(store_value.u64_cell)),
                ),
            ),
        );
        builder.push("op_store value wrap", e11);

        let mut e12: Vec<Expr> = Vec::new();
        e12.push(
            esub(
                ecell(common.pow_table_lookup_power_cell.cell),
                eadd(
                    emul(ecell(load_block_inner_pos.cell), econst(8)),
                    econst(POW_TABLE_POWER_START as u128),
                ),
            ),
        );
        builder.push("op_store pow lookup", e12);

        let mut e13: Vec<Expr> = Vec::new();
        e13.push(
            esub(
                eadd(
                    eadd(
                        eadd(ecell(load_block_index.u32_cell), ecell(is_cross_block.cell)),
                        econst(1),
                    ),
                    ecell(address_within_allocated_pages_helper.cell),
                ),
                emul(ecell(common.mpages_cell.cell), econst(8192)),
            ),
        );
        builder.push("op_store allocated address", e13);
    }

    /// Allocates the opcode's cells and registers its identities. The
    /// identities are pushed under the caller's current gate (this opcode's
    /// selector).
    pub fn configure(
        common: &EventTableCommonConfig,
        alloc: &mut CellAllocator,
        builder: &mut ConstraintBuilder,
    ) -> (r: StoreConfig)
        requires
            common.ids_wf(old(alloc).kinds@.len() as int),
            old(alloc).kinds@.len() + STORE_CELL_COUNT < usize::MAX,
            old(builder).constraints@.len() + STORE_CONSTRAINT_COUNT < usize::MAX,
        ensures
            r.first_cell == old(alloc).kinds@.len(),
            r.wf(final(alloc).kinds@),
            final(alloc).kinds@.len() == old(alloc).kinds@.len() + STORE_CELL_COUNT,
            forall|i: int|
                0 <= i < old(alloc).kinds@.len() ==> final(alloc).kinds@[i] == old(
                    alloc,
                ).kinds@[i],
            final(alloc).decomps@.len() == old(alloc).decomps@.len() + 12,
            forall|j: int|
                0 <= j < old(alloc).decomps@.len() ==> final(alloc).decomps@[j] == old(
                    alloc,
                ).decomps@[j],
            store_decomps_pinned(r, final(alloc).decomps@, old(alloc).decomps@.len() as int),
            final(alloc).capacity == old(alloc).capacity,
            final(builder).gate == old(builder).gate,
            final(builder).constraints@.len() == old(builder).constraints@.len()
                + STORE_CONSTRAINT_COUNT,
            forall|i: int|
                0 <= i < old(builder).constraints@.len() ==> final(builder).constraints@[i] == old(
                    builder,
                ).constraints@[i],
            forall|k: int|
                old(builder).constraints@.len() <= k < old(builder).constraints@.len()
                    + STORE_CONSTRAINT_COUNT ==> (#[trigger] final(builder).constraints@[k]).gate
                    == old(builder).gate,
            store_constraints_pinned(r, final(builder).constraints@, old(
                builder,
            ).constraints@.len() as int),
            r.lookup_exprs_wf(),
    {
        let r = Self::allocate(common, alloc);
        Self::register(common, &r, builder);
        r
    }
}

/// The decompositions this configuration appends to the arena, starting at
/// index `d`: its two 32-bit cells, its five own 64-bit cells, and the five
/// lookup value cells, in allocation order.
pub open spec fn store_decomps_pinned(
    r: StoreConfig,
    decomps: Seq<crate::cell::Decomp>,
    d: int,
) -> bool {
    let b = r.first_cell as int;
    &&& d + 12 <= decomps.len()
    &&& decomps[d].value_cell == b && decomps[d].limbs@ == seq![(b + 1) as usize, (b + 2) as usize]
    &&& decomps[d + 1].value_cell == b + 3 && decomps[d + 1].limbs@ == seq![
        (b + 4) as usize,
        (b + 5) as usize,
    ]
    &&& decomps[d + 2].value_cell == b + 15 && decomps[d + 2].limbs@ == seq![
        (b + 16) as usize,
        (b + 17) as usize,
        (b + 18) as usize,
        (b + 19) as usize,
    ]
    &&& decomps[d + 3].value_cell == b + 20 && decomps[d + 3].limbs@ == seq![
        (b + 21) as usize,
        (b + 22) as usize,
        (b + 23) as usize,
        (b + 24) as usize,
    ]
    &&& decomps[d + 4].value_cell == b + 25 && decomps[d + 4].limbs@ == seq![
        (b + 26) as usize,
        (b + 27) as usize,
        (b + 28) as usize,
        (b + 29) as usize,
    ]
    &&& decomps[d + 5].value_cell == b + 31 && decomps[d + 5].limbs@ == seq![
        (b + 32) as usize,
        (b + 33) as usize,
        (b + 34) as usize,
        (b + 35) as usize,
    ]
    &&& decomps[d + 6].value_cell == b + 36 && decomps[d + 6].limbs@ == seq![
        (b + 37) as usize,
        (b + 38) as usize,
        (b + 39) as usize,
        (b + 40) as usize,
    ]
    &&& decomps[d + 7].value_cell == b + 51 && decomps[d + 7].limbs@ == seq![
        (b + 52) as usize,
        (b + 53) as usize,
        (b + 54) as usize,
        (b + 55) as usize,
    ]
    &&& decomps[d + 8].value_cell == b + 58 && decomps[d + 8].limbs@ == seq![
        (b + 59) as usize,
        (b + 60) as usize,
        (b + 61) as usize,
        (b + 62) as usize,
    ]
    &&& decomps[d + 9].value_cell == b + 65 && decomps[d + 9].limbs@ == seq![
        (b + 66) as usize,
        (b + 67) as usize,
        (b + 68) as usize,
        (b + 69) as usize,
    ]
    &&& decomps[d + 10].value_cell == b + 71 && decomps[d + 10].limbs@ == seq![
        (b + 72) as usize,
        (b + 73) as usize,
        (b + 74) as usize,
        (b + 75) as usize,
    ]
    &&& decomps[d + 11].value_cell == b + 77 && decomps[d + 11].limbs@ == seq![
        (b + 78) as usize,
        (b + 79) as usize,
        (b + 80) as usize,
        (b + 81) as usize,
    ]
}

/// The identities this configuration appends to the accumulator, starting at
/// index `c`: each expression's value on any row, in registration order.
pub open spec fn store_constraints_pinned(
    r: StoreConfig,
    cs: Seq<crate::expr::Constraint>,
    c: int,
) -> bool {
    &&& c + STORE_CONSTRAINT_COUNT <= cs.len()
    &&& cs[c].exprs@.len() == 1 && (forall|row: Seq<u128>|
        #[trigger] cs[c].exprs@[0].eval(row) == r.c_length_eval(row))
    &&& cs[c + 1].exprs@.len() == 1 && (forall|row: Seq<u128>|
        #[trigger] cs[c + 1].exprs@[0].eval(row) == r.c_bytes_eval(row))
    &&& cs[c + 2].exprs@.len() == 2 && (forall|row: Seq<u128>|
        #[trigger] cs[c + 2].exprs@[0].eval(row) == r.c_block_index_eval(row)) && (forall|
        row: Seq<u128>,
    |
        #[trigger] cs[c + 2].exprs@[1].eval(row) == r.c_inner_pos_bits_eval(row))
    &&& cs[c + 3].exprs@.len() == 3 && (forall|row: Seq<u128>|
        #[trigger] cs[c + 3].exprs@[0].eval(row) == r.c_cross_eval(row)) && (forall|
        row: Seq<u128>,
    |
        #[trigger] cs[c + 3].exprs@[1].eval(row) == r.c_rem_range_eval(row)) && (forall|
        row: Seq<u128>,
    |
        #[trigger] cs[c + 3].exprs@[2].eval(row) == r.c_heap2_zero_eval(row))
    &&& cs[c + 4].exprs@.len() == 1 && (forall|row: Seq<u128>|
        #[trigger] cs[c + 4].exprs@[0].eval(row) == r.c_len_modulus_eval(row))
    &&& cs[c + 5].exprs@.len() == 1 && (forall|row: Seq<u128>|
        #[trigger] cs[c + 5].exprs@[0].eval(row) == r.c_pick1_eval(row))
    &&& cs[c + 6].exprs@.len() == 1 && (forall|row: Seq<u128>|
        #[trigger] cs[c + 6].exprs@[0].eval(row) == r.c_pick2_eval(row))
    &&& cs[c + 7].exprs@.len() == 1 && (forall|row: Seq<u128>|
        #[trigger] cs[c + 7].exprs@[0].eval(row) == r.c_pick3_eval(row))
    &&& cs[c + 8].exprs@.len() == 1 && (forall|row: Seq<u128>|
        #[trigger] cs[c + 8].exprs@[0].eval(row) == r.c_pick_helper_eval(row))
    &&& cs[c + 9].exprs@.len() == 3 && (forall|row: Seq<u128>|
        #[trigger] cs[c + 9].exprs@[0].eval(row) == r.c_size_check4_eval(row)) && (forall|
        row: Seq<u128>,
    |
        #[trigger] cs[c + 9].exprs@[1].eval(row) == r.c_size_check2_eval(row)) && (forall|
        row: Seq<u128>,
    |
        #[trigger] cs[c + 9].exprs@[2].eval(row) == r.c_size_check1_eval(row))
    &&& cs[c + 10].exprs@.len() == 1 && (forall|row: Seq<u128>|
        #[trigger] cs[c + 10].exprs@[0].eval(row) == r.c_tailing_u16_eval(row))
    &&& cs[c + 11].exprs@.len() == 1 && (forall|row: Seq<u128>|
        #[trigger] cs[c + 11].exprs@[0].eval(row) == r.c_value_wrap_eval(row))
    &&& cs[c + 12].exprs@.len() == 1 && (forall|row: Seq<u128>|
        #[trigger] cs[c + 12].exprs@[0].eval(row) == r.c_pow_lookup_eval(row))
    &&& cs[c + 13].exprs@.len() == 1 && (forall|row: Seq<u128>|
        #[trigger] cs[c + 13].exprs@[0].eval(row) == r.c_allocated_eval(row))
}

/// Intermediate values of one heap-store assignment.
struct StoreVals {
    inner: u32,
    block: u32,
    cross: bool,
    pos_modulus: u128,
    len_mod: u128,
    tailing: u64,
    tailing_diff: u64,
    picked: u64,
    leading: u64,
    wrapped: u64,
    unchanged: u128,
    new_lv: u128,
    expected1: u64,
    expected2: u64,
}

/// Derives block index, byte position, the three-part split of the pre-write
/// double block, the wrapped value, and the expected post-write blocks.
#[verifier::rlimit(100)]
#[verifier::spinoff_prover]
fn store_compute(pre1: u64, pre2: u64, effective_address: u32, len: u64, value: u64) -> (v:
    StoreVals)
    requires
        len == 1 || len == 2 || len == 4 || len == 8,
        pre2 == 0 || effective_address as int % 8 + len > 8,
    ensures
        v.inner == effective_address as int % 8,
        v.block == effective_address as int / 8,
        v.cross == (v.inner + len > 8),
        v.pos_modulus == pow2((8 * v.inner) as nat),
        v.len_mod == pow2((8 * len) as nat),
        v.tailing == store_tailing(pre1, pre2, v.inner as nat),
        v.tailing_diff == v.pos_modulus - 1 - v.tailing,
        v.picked == store_picked(pre1, pre2, v.inner as nat, len as nat),
        v.leading == store_leading(pre1, pre2, v.inner as nat, len as nat),
        v.wrapped == store_wrapped(value, len as nat),
        v.unchanged == store_unchanged(pre1, pre2, v.inner as nat, len as nat),
        v.new_lv == store_new_value(pre1, pre2, v.inner as nat, len as nat, value),
        v.expected1 == v.new_lv as int % 0x10000000000000000,
        v.expected2 == v.new_lv as int / 0x10000000000000000,
        (pre2 == 0 && !v.cross) ==> v.expected2 == 0,
{
    let inner: u32 = effective_address % 8;
    let block: u32 = effective_address / 8;
    let cross = inner as u64 + len > 8;
    proof {
        lemma_store_split(pre1, pre2, inner as nat, len as nat, value);
        vstd::arithmetic::power2::lemma_pow2_adds((8 * inner) as nat, (8 * len) as nat);
        vstd::arithmetic::power2::lemma_pow2_pos((8 * inner) as nat);
        vstd::arithmetic::power2::lemma_pow2_pos((8 * len) as nat);
        vstd::arithmetic::power2::lemma_pow2_pos((8 * (inner + len)) as nat);
    }
    let pos_modulus: u128 = crate::arith::pow2_u128(8 * inner as u64);
    let len_mod: u128 = crate::arith::pow2_u128(8 * len);
    let lv: u128 = (pre2 as u128) * 0x10000000000000000 + (pre1 as u128);
    proof {
        assert(pos_modulus as int * len_mod as int == pow2((8 * (inner + len)) as nat));
        if 8 * (inner + len) < 128 {
            vstd::arithmetic::power2::lemma_pow2_strictly_increases(
                (8 * (inner + len)) as nat,
                128,
            );
        }
        assert(pow2(128) == 0x10000000000000000 * 0x10000000000000000) by {
            vstd::arithmetic::power2::lemma_pow2_adds(64, 64);
            vstd::arithmetic::power2::lemma2_to64();
        }
    }
    let sum_modulus: u128 = pos_modulus * len_mod;
    proof {
        assert(sum_modulus == pow2((8 * (inner + len)) as nat));
        assert(lv == store_load_value(pre1, pre2));
    }
    let tailing128 = lv % pos_modulus;
    let picked128 = (lv / pos_modulus) % len_mod;
    let leading128 = lv / sum_modulus;
    proof {
        assert(tailing128 == store_tailing(pre1, pre2, inner as nat));
        assert(picked128 == store_picked(pre1, pre2, inner as nat, len as nat));
        assert(leading128 == store_leading(pre1, pre2, inner as nat, len as nat)) by {
            vstd::arithmetic::div_mod::lemma_div_denominator(
                lv as int,
                pos_modulus as int,
                len_mod as int,
            );
        }
        assert(tailing128 < pos_modulus);
        assert(picked128 < len_mod);
        assert(leading128 < 0x10000000000000000);
    }
    let tailing: u64 = tailing128 as u64;
    let tailing_diff: u64 = (pos_modulus - 1 - tailing128) as u64;
    let picked: u64 = picked128 as u64;
    let leading: u64 = leading128 as u64;
    let wrapped128 = (value as u128) % len_mod;
    let wrapped: u64 = wrapped128 as u64;
    proof {
        assert(lv as int == tailing128 + pos_modulus * picked128 + sum_modulus * leading128);
        assert(sum_modulus * leading128 + tailing128 <= lv) by (nonlinear_arith)
            requires
                lv as int == tailing128 + pos_modulus * picked128 + sum_modulus * leading128,
                pos_modulus >= 1,
                picked128 >= 0,
        ;
        assert((leading as u128) as int * sum_modulus as int == sum_modulus as int
            * leading128 as int) by (nonlinear_arith)
            requires
                leading == leading128,
        ;
    }
    let unchanged: u128 = (leading as u128) * sum_modulus + tailing128;
    proof {
        assert(unchanged == store_unchanged(pre1, pre2, inner as nat, len as nat)) by {
            assert((leading as u128) as int * sum_modulus as int == pow2(
                (8 * (inner + len)) as nat,
            ) * store_leading(pre1, pre2, inner as nat, len as nat)) by (nonlinear_arith)
                requires
                    leading as int == store_leading(pre1, pre2, inner as nat, len as nat),
                    sum_modulus as int == pow2((8 * (inner + len)) as nat),
            ;
        }
    }
    proof {
        assert(store_new_value(pre1, pre2, inner as nat, len as nat, value) < 0x10000000000000000
            * 0x10000000000000000);
        assert((wrapped as u128) as int * pos_modulus as int == store_wrapped(value, len as nat)
            * pow2((8 * inner) as nat)) by (nonlinear_arith)
            requires
                wrapped as int == store_wrapped(value, len as nat),
                pos_modulus as int == pow2((8 * inner) as nat),
        ;
    }
    let new_lv: u128 = unchanged + (wrapped as u128) * pos_modulus;
    proof {
        assert(new_lv == store_new_value(pre1, pre2, inner as nat, len as nat, value));
    }
    let expected1: u64 = (new_lv % 0x10000000000000000) as u64;
    let expected2: u64 = (new_lv / 0x10000000000000000) as u64;
    proof {
        vstd::arithmetic::div_mod::lemma_mod_division_less_than_divisor(
            new_lv as int,
            0x10000000000000000,
        );
        assert(new_lv as int / 0x10000000000000000 < 0x10000000000000000) by {
            vstd::arithmetic::div_mod::lemma_multiply_divide_lt(
                new_lv as int,
                0x10000000000000000,
                0x10000000000000000,
            );
        }
        if pre2 == 0 && !cross {
            assert(new_lv < 0x10000000000000000);
        }
    }
    StoreVals {
        inner,
        block,
        cross,
        pos_modulus,
        len_mod,
        tailing,
        tailing_diff,
        picked,
        leading,
        wrapped,
        unchanged,
        new_lv,
        expected1,
        expected2,
    }
}

/// Value-level facts behind each registered identity of one valid heap-store
/// occurrence.
pub proof fn lemma_store_identity_values(pre1: u64, pre2: u64, ea: u32, len: nat, value: u64)
    requires
        len == 1 || len == 2 || len == 4 || len == 8,
    ensures
        ({
            let inner = (ea as int % 8) as nat;
            let t = pow2((8 * inner) as nat) as int;
            let l = pow2((8 * len) as nat) as int;
            let tl = pow2((8 * (inner + len)) as nat) as int;
            let tailing = store_tailing(pre1, pre2, inner);
            let picked = store_picked(pre1, pre2, inner, len);
            let leading = store_leading(pre1, pre2, inner, len);
            let wrapped = store_wrapped(value, len);
            let nv = store_new_value(pre1, pre2, inner, len, value);
            &&& store_load_value(pre1, pre2) == tailing + t * picked + tl * leading
            &&& 0 <= tailing < t
            &&& 0 <= picked < l
            &&& 0 <= leading
            &&& (leading * t) * l == tl * leading
            &&& picked * t == t * picked
            &&& wrapped * t == store_wrapped(value, len) * t
            &&& 0 <= nv
            &&& nv == nv % 0x10000000000000000 + (nv / 0x10000000000000000) * 0x10000000000000000
            &&& (len == 4 ==> (picked / 0x100000000) % 0x10000 == 0 && picked / 0x1000000000000
                == 0)
            &&& (len == 2 ==> picked % 0x10000 == picked && picked / 0x100000000 == 0 && picked
                / 0x1000000000000 == 0)
            &&& (len == 1 ==> 0 <= picked < 0x100)
            &&& (len == 8 ==> wrapped == value)
            &&& (len == 4 ==> wrapped == value as int % 0x10000 + ((value as int / 0x10000)
                % 0x10000) * 0x10000)
            &&& (len == 2 ==> wrapped == value as int % 0x10000)
            &&& (len == 1 ==> wrapped == value as int % 0x100)
            &&& ((value as int / 0x100) % 0x100) * 0x100 + value as int % 0x100 == value as int
                % 0x10000
            &&& inner == inner % 2 + 2 * ((inner / 2) % 2) + 4 * (inner / 4)
            &&& inner % 2 < 2 && (inner / 2) % 2 < 2 && inner / 4 < 2
            &&& (inner + len > 8 ==> (inner + len - 1) as int % 8 == inner + len - 9)
            &&& (inner + len <= 8 ==> (inner + len - 1) as int % 8 == inner + len - 1)
            &&& ea == 8 * (ea as int / 8) + ea as int % 8
            &&& 0 <= ea as int % 8 < 8
            &&& pow2(8) == 0x100 && pow2(16) == 0x10000 && pow2(32) == 0x100000000 && pow2(64)
                == 0x10000000000000000
        }),
{
    let inner = (ea as int % 8) as nat;
    vstd::arithmetic::div_mod::lemma_mod_division_less_than_divisor(ea as int, 8);
    vstd::arithmetic::div_mod::lemma_fundamental_div_mod(ea as int, 8);
    lemma_store_split(pre1, pre2, inner, len, value);
    vstd::arithmetic::power2::lemma2_to64();
    vstd::arithmetic::power2::lemma2_to64_rest();
    let t = pow2((8 * inner) as nat) as int;
    let l = pow2((8 * len) as nat) as int;
    let tl = pow2((8 * (inner + len)) as nat) as int;
    let tailing = store_tailing(pre1, pre2, inner);
    let picked = store_picked(pre1, pre2, inner, len);
    let leading = store_leading(pre1, pre2, inner, len);
    let wrapped = store_wrapped(value, len);
    let nv = store_new_value(pre1, pre2, inner, len, value);
    assert(tl == t * l) by {
        vstd::arithmetic::power2::lemma_pow2_adds((8 * inner) as nat, (8 * len) as nat);
    }
    assert((leading * t) * l == tl * leading) by (nonlinear_arith)
        requires
            tl == t * l,
    ;
    assert(picked * t == t * picked) by (nonlinear_arith);
    assert(0 <= nv) by {
        assert(0 <= wrapped * t) by (nonlinear_arith)
            requires
                wrapped >= 0,
                t >= 1,
        ;
        assert(0 <= tl * leading) by (nonlinear_arith)
            requires
                leading >= 0,
                tl >= 1,
        ;
    }
    assert(nv == nv % 0x10000000000000000 + (nv / 0x10000000000000000) * 0x10000000000000000) by {
        vstd::arithmetic::div_mod::lemma_fundamental_div_mod(nv, 0x10000000000000000);
        assert(0x10000000000000000 * (nv / 0x10000000000000000) == (nv / 0x10000000000000000)
            * 0x10000000000000000) by (nonlinear_arith);
    }
    if len == 4 {
        assert(picked < 0x100000000);
        assert(picked / 0x100000000 == 0) by {
            vstd::arithmetic::div_mod::lemma_basic_div(picked, 0x100000000);
        }
        assert(picked / 0x1000000000000 == 0) by {
            vstd::arithmetic::div_mod::lemma_basic_div(picked, 0x1000000000000);
        }
        assert(wrapped == value as int % 0x10000 + ((value as int / 0x10000) % 0x10000) * 0x10000)
            by {
            vstd::arithmetic::div_mod::lemma_mod_breakdown(value as int, 0x10000, 0x10000);
        }
    }
    if len == 2 {
        assert(picked < 0x10000);
        vstd::arithmetic::div_mod::lemma_small_mod(picked as nat, 0x10000);
        vstd::arithmetic::div_mod::lemma_basic_div(picked, 0x100000000);
        vstd::arithmetic::div_mod::lemma_basic_div(picked, 0x1000000000000);
    }
    if len == 8 {
        vstd::arithmetic::div_mod::lemma_small_mod(value as nat, 0x10000000000000000);
    }
    assert(((value as int / 0x100) % 0x100) * 0x100 + value as int % 0x100 == value as int
        % 0x10000) by {
        vstd::arithmetic::div_mod::lemma_mod_breakdown(value as int, 0x100, 0x100);
    }
    assert(inner == inner % 2 + 2 * ((inner / 2) % 2) + 4 * (inner / 4)) by {
        vstd::arithmetic::div_mod::lemma_fundamental_div_mod(inner as int, 2);
        vstd::arithmetic::div_mod::lemma_fundamental_div_mod(inner as int / 2, 2);
        vstd::arithmetic::div_mod::lemma_div_denominator(inner as int, 2, 2);
    }
    assert(inner % 2 < 2 && (inner / 2) % 2 < 2) by {
        vstd::arithmetic::div_mod::lemma_mod_division_less_than_divisor(inner as int, 2);
        vstd::arithmetic::div_mod::lemma_mod_division_less_than_divisor(inner as int / 2, 2);
    }
    assert(inner / 4 < 2) by {
        vstd::arithmetic::div_mod::lemma_multiply_divide_lt(inner as int, 4, 2);
    }
    if inner + len > 8 {
        let x = (inner + len - 1) as int;
        assert(8 <= x < 16);
        assert(x % 8 == x - 8) by {
            vstd::arithmetic::div_mod::lemma_mod_add_multiples_vanish(x - 8, 8);
            vstd::arithmetic::div_mod::lemma_small_mod((x - 8) as nat, 8);
        }
    } else {
        vstd::arithmetic::div_mod::lemma_small_mod((inner + len - 1) as nat, 8);
    }
}

impl StoreConfig {
    /// The values this opcode's cells carry after assigning one valid step.
    pub open spec fn store_row_values(self, row: Seq<u128>, e: EventTableEntryWithMemoryInfo)
        -> bool {
        match e.eentry.step_info {
            StepInfo::Store {
                vtype,
                store_size,
                offset,
                raw_address,
                effective_address,
                pre_block_value1,
                updated_block_value1,
                pre_block_value2,
                updated_block_value2,
                value,
            } => {
                let len = store_size.spec_byte_size() as nat;
                let inner = (effective_address as int % 8) as nat;
                let block = effective_address as int / 8;
                let cross = inner + len > 8;
                &&& crate::cell::u32_cell_holds(self.opcode_store_offset, row, offset)
                &&& crate::cell::u32_cell_holds(self.load_block_index, row, block as u32)
                &&& cell_val(row, self.load_block_inner_pos_bits[0].cell as int) == inner % 2
                &&& cell_val(row, self.load_block_inner_pos_bits[1].cell as int) == (inner / 2) % 2
                &&& cell_val(row, self.load_block_inner_pos_bits[2].cell as int) == inner / 4
                &&& cell_val(row, self.load_block_inner_pos.cell as int) == inner
                &&& cell_val(row, self.is_cross_block.cell as int) == (if cross {
                    1int
                } else {
                    0int
                })
                &&& cell_val(row, self.cross_block_rem.cell as int) == (inner + len - 1) as int % 8
                &&& cell_val(row, self.cross_block_rem_diff.cell as int) == 7 - (inner + len
                    - 1) as int % 8
                &&& cell_val(row, self.bytes.cell as int) == len
                &&& cell_val(row, self.len_modulus.cell as int) == pow2((8 * len) as nat)
                &&& crate::cell::u64_cell_holds(
                    self.load_tailing,
                    row,
                    store_tailing(pre_block_value1, pre_block_value2, inner) as u64,
                )
                &&& crate::cell::u64_cell_holds(
                    self.load_tailing_diff,
                    row,
                    (pow2((8 * inner) as nat) - 1 - store_tailing(
                        pre_block_value1,
                        pre_block_value2,
                        inner,
                    )) as u64,
                )
                &&& crate::cell::u64_cell_holds(
                    self.load_picked,
                    row,
                    store_picked(pre_block_value1, pre_block_value2, inner, len) as u64,
                )
                &&& cell_val(row, self.load_picked_byte_proof.cell as int) == (if len == 1 {
                    store_picked(pre_block_value1, pre_block_value2, inner, len)
                } else {
                    0int
                })
                &&& crate::cell::u64_cell_holds(
                    self.load_leading,
                    row,
                    store_leading(pre_block_value1, pre_block_value2, inner, len) as u64,
                )
                &&& crate::cell::u64_cell_holds(self.store_value, row, value)
                &&& cell_val(row, self.store_value_wrapped.cell as int) == store_wrapped(
                    value,
                    len,
                )
                &&& cell_val(row, self.is_one_byte.cell as int) == (if len == 1 {
                    1int
                } else {
                    0int
                })
                &&& cell_val(row, self.is_two_bytes.cell as int) == (if len == 2 {
                    1int
                } else {
                    0int
                })
                &&& cell_val(row, self.is_four_bytes.cell as int) == (if len == 4 {
                    1int
                } else {
                    0int
                })
                &&& cell_val(row, self.is_eight_bytes.cell as int) == (if len == 8 {
                    1int
                } else {
                    0int
                })
                &&& cell_val(row, self.is_i32.cell as int) == (if vtype == VarType::I32 {
                    1int
                } else {
                    0int
                })
                &&& cell_val(row, self.unchanged_value.cell as int) == store_unchanged(
                    pre_block_value1,
                    pre_block_value2,
                    inner,
                    len,
                )
                &&& cell_val(row, self.store_value_tailing_u16_u8_high.cell as int) == (value as int
                    / 0x100) % 0x100
                &&& cell_val(row, self.store_value_tailing_u16_u8_low.cell as int) == value as int
                    % 0x100
                &&& cell_val(row, self.address_within_allocated_pages_helper.cell as int)
                    == e.eentry.allocated_memory_pages * 8192 - (block + (if cross {
                    1int
                } else {
                    0int
                }) + 1)
                &&& cell_val(row, self.lookup_pow_power.cell as int) == 8 * inner
                    + POW_TABLE_POWER_START
                &&& cell_val(row, self.lookup_pow_modulus.cell as int) == pow2((8 * inner) as nat)
                &&& cell_val(row, self.memory_table_lookup_stack_read_val.start_eid_cell.cell as int)
                    == e.memory_rw_entries@[0].start_eid
                &&& cell_val(row, self.memory_table_lookup_stack_read_val.end_eid_cell.cell as int)
                    == e.memory_rw_entries@[0].end_eid
                &&& cell_val(row, self.memory_table_lookup_stack_read_pos.start_eid_cell.cell as int)
                    == e.memory_rw_entries@[1].start_eid
                &&& cell_val(row, self.memory_table_lookup_stack_read_pos.end_eid_cell.cell as int)
                    == e.memory_rw_entries@[1].end_eid
                &&& cell_val(row, self.store_base_cell()) == raw_address
                &&& (self.memory_table_lookup_stack_read_pos.value_cell matches Some(vc)
                    && crate::cell::u64_cell_holds(vc, row, raw_address as u64))
                &&& cell_val(row, self.memory_table_lookup_heap_read1.start_eid_cell.cell as int)
                    == e.memory_rw_entries@[2].start_eid
                &&& cell_val(row, self.memory_table_lookup_heap_read1.end_eid_cell.cell as int)
                    == e.memory_rw_entries@[2].end_eid
                &&& cell_val(row, self.heap_read1_value_cell()) == pre_block_value1
                &&& (self.memory_table_lookup_heap_read1.value_cell matches Some(vc)
                    && crate::cell::u64_cell_holds(vc, row, pre_block_value1))
                &&& cell_val(row, self.memory_table_lookup_heap_write1.end_eid_cell.cell as int)
                    == e.memory_rw_entries@[3].end_eid
                &&& cell_val(row, self.heap_write1_value_cell()) == updated_block_value1
                &&& (self.memory_table_lookup_heap_write1.value_cell matches Some(vc)
                    && crate::cell::u64_cell_holds(vc, row, updated_block_value1))
                &&& cell_val(row, self.memory_table_lookup_heap_read2.start_eid_cell.cell as int)
                    == (if cross {
                    e.memory_rw_entries@[4].start_eid as int
                } else {
                    0int
                })
                &&& cell_val(row, self.memory_table_lookup_heap_read2.end_eid_cell.cell as int) == (
                if cross {
                    e.memory_rw_entries@[4].end_eid as int
                } else {
                    0int
                })
                &&& cell_val(row, self.heap_read2_value_cell()) == pre_block_value2
                &&& (self.memory_table_lookup_heap_read2.value_cell matches Some(vc)
                    && crate::cell::u64_cell_holds(vc, row, pre_block_value2))
                &&& cell_val(row, self.memory_table_lookup_heap_write2.end_eid_cell.cell as int)
                    == (if cross {
                    e.memory_rw_entries@[5].end_eid as int
                } else {
                    0int
                })
                &&& cell_val(row, self.heap_write2_value_cell()) == updated_block_value2
                &&& (self.memory_table_lookup_heap_write2.value_cell matches Some(vc)
                    && crate::cell::u64_cell_holds(vc, row, updated_block_value2))
            },
            _ => false,
        }
    }

    /// Every registered identity of this opcode evaluates to zero on the row.
    pub open spec fn store_identities_zero(self, row: Seq<u128>) -> bool {
        &&& self.c_length_eval(row) == 0
        &&& self.c_bytes_eval(row) == 0
        &&& self.c_block_index_eval(row) == 0
        &&& self.c_inner_pos_bits_eval(row) == 0
        &&& self.c_cross_eval(row) == 0
        &&& self.c_rem_range_eval(row) == 0
        &&& self.c_heap2_zero_eval(row) == 0
        &&& self.c_len_modulus_eval(row) == 0
        &&& self.c_pick1_eval(row) == 0
        &&& self.c_pick2_eval(row) == 0
        &&& self.c_pick3_eval(row) == 0
        &&& self.c_pick_helper_eval(row) == 0
        &&& self.c_size_check4_eval(row) == 0
        &&& self.c_size_check2_eval(row) == 0
        &&& self.c_size_check1_eval(row) == 0
        &&& self.c_tailing_u16_eval(row) == 0
        &&& self.c_value_wrap_eval(row) == 0
        &&& self.c_pow_lookup_eval(row) == 0
        &&& self.c_allocated_eval(row) == 0
    }
}

/// On any row carrying the values of one valid heap-store step, every
/// registered identity of the configuration evaluates to zero.
#[verifier::rlimit(100)]
#[verifier::spinoff_prover]
pub proof fn lemma_store_identities(
    s: StoreConfig,
    row: Seq<u128>,
    e: EventTableEntryWithMemoryInfo,
)
    requires
        store_step_valid(e),
        s.store_row_values(row, e),
        cell_val(row, s.mpages_cell.cell as int) == e.eentry.allocated_memory_pages,
    ensures
        s.store_identities_zero(row),
{
    match e.eentry.step_info {
        StepInfo::Store {
            vtype,
            store_size,
            offset,
            raw_address,
            effective_address,
            pre_block_value1,
            updated_block_value1,
            pre_block_value2,
            updated_block_value2,
            value,
        } => {
            let len = store_size.spec_byte_size() as nat;
            let inner = (effective_address as int % 8) as nat;
            let block = effective_address as int / 8;
            let cross = inner + len > 8;
            lemma_store_identity_values(
                pre_block_value1,
                pre_block_value2,
                effective_address,
                len,
                value,
            );
            lemma_store_split(
                pre_block_value1,
                pre_block_value2,
                ((effective_address as int) % 8) as nat,
                len,
                value,
            );
            let t = pow2((8 * inner) as nat) as int;
            let l = pow2((8 * len) as nat) as int;
            let tl = pow2((8 * (inner + len)) as nat) as int;
            let tailing = store_tailing(pre_block_value1, pre_block_value2, inner);
            let picked = store_picked(pre_block_value1, pre_block_value2, inner, len);
            let leading = store_leading(pre_block_value1, pre_block_value2, inner, len);
            let wrapped = store_wrapped(value, len);
            let nv = store_new_value(pre_block_value1, pre_block_value2, inner, len, value);
            let lv = store_load_value(pre_block_value1, pre_block_value2);
            // pick value1: the unchanged part from (tailing, leading, moduli)
            assert(s.c_pick1_eval(row) == 0) by {
                assert(cell_val(row, s.unchanged_value.cell as int) == tailing + tl * leading);
                assert((leading * t) * l == tl * leading);
            }
            // pick value2: the unchanged part from the raw block reads
            assert(s.c_pick2_eval(row) == 0) by {
                assert(lv == tailing + t * picked + tl * leading);
                assert(picked * t == t * picked);
            }
            // pick value3: the new contents from the wrapped stored value
            assert(s.c_pick3_eval(row) == 0) by {
                assert(nv == (tailing + tl * leading) + wrapped * t);
                assert(nv == nv % 0x10000000000000000 + (nv / 0x10000000000000000)
                    * 0x10000000000000000);
                assert(updated_block_value1 == nv % 0x10000000000000000);
                assert(updated_block_value2 == nv / 0x10000000000000000);
            }
            // heap2 zero: forced by the cross indicator or by validity
            assert(s.c_heap2_zero_eval(row) == 0) by {
                if cross {
                    assert(cell_val(row, s.is_cross_block.cell as int) == 1);
                } else {
                    assert(cell_val(row, s.heap_read2_value_cell()) == 0);
                }
            }
            // block index: the effective address is base plus offset
            assert(s.c_block_index_eval(row) == 0) by {
                assert(effective_address == 8 * block + inner);
                assert(effective_address == raw_address + offset);
            }
            assert(s.c_value_wrap_eval(row) == 0);
            assert(s.c_size_check4_eval(row) == 0);
            assert(s.c_size_check2_eval(row) == 0);
            assert(s.c_size_check1_eval(row) == 0);
            assert(s.c_tailing_u16_eval(row) == 0);
            assert(s.c_len_modulus_eval(row) == 0);
            assert(s.c_length_eval(row) == 0);
            assert(s.c_bytes_eval(row) == 0);
            assert(s.c_inner_pos_bits_eval(row) == 0);
            assert(s.c_cross_eval(row) == 0);
            assert(s.c_rem_range_eval(row) == 0);
            assert(s.c_pick_helper_eval(row) == 0);
            assert(s.c_pow_lookup_eval(row) == 0);
            assert(s.c_allocated_eval(row) == 0);
        },
        _ => {},
    }
}

impl StoreConfig {
    /// Fills this opcode's cells from one concrete step and issues its heap
    /// and stack claims. Fails, without touching the row, exactly when the
    /// step payload does not match this opcode's expected shape, is
    /// internally inconsistent, or reaches beyond the allocated pages; such
    /// a failure signals a dispatch or interpreter bug and is fatal: the
    /// driver aborts the whole assignment on it.
    #[verifier::rlimit(100)]
    #[verifier::spinoff_prover]
    pub fn assign(
        &self,
        row: &mut Row,
        claims: &mut Vec<MemoryClaim>,
        entry: &EventTableEntryWithMemoryInfo,
    ) -> (r: Result<(), crate::err::AssignError>)
        requires
            self.ids_wf(old(row)@.len() as int),
        ensures
            r is Ok <==> store_step_valid(*entry),
            r is Err ==> final(row)@ == old(row)@ && final(claims)@ == old(claims)@,
            r is Ok ==> {
                &&& final(row)@.len() == old(row)@.len()
                &&& self.store_row_values(final(row)@, *entry)
                &&& final(claims)@ == old(claims)@ + store_claims(*entry)
                &&& forall|i: int|
                    0 <= i < final(row)@.len() && !(self.first_cell <= i < self.first_cell
                        + STORE_CELL_COUNT) && i != self.lookup_pow_power.cell && i
                        != self.lookup_pow_modulus.cell ==> final(row)@[i] == old(row)@[i]
            },
    {
        match &entry.eentry.step_info {
            StepInfo::Store {
                vtype,
                store_size,
                offset,
                raw_address,
                effective_address,
                pre_block_value1,
                updated_block_value1,
                pre_block_value2,
                updated_block_value2,
                value,
            } => {
                let len: u64 = store_size.byte_size();
                let ea: u32 = *effective_address;
                let inner: u32 = ea % 8;
                let block: u32 = ea / 8;
                let cross = inner as u64 + len > WASM_BLOCK_BYTE_SIZE;
                let needed: usize = if cross {
                    6
                } else {
                    4
                };
                if entry.memory_rw_entries.len() < needed {
                    return Err(crate::err::AssignError::MissingMemoryWindows);
                }
                if (*raw_address as u64) + (*offset as u64) != ea as u64 {
                    return Err(crate::err::AssignError::InconsistentAddress);
                }
                if entry.eentry.sp > u32::MAX - 2 {
                    return Err(crate::err::AssignError::StackAddressOverflow);
                }
                if entry.eentry.allocated_memory_pages > WASM_MAX_PAGES {
                    return Err(crate::err::AssignError::PageCountTooLarge);
                }
                let cross_add: u64 = if cross {
                    1
                } else {
                    0
                };
                if (block as u64) + cross_add + 1 > (entry.eentry.allocated_memory_pages as u64)
                    * WASM_BLOCKS_PER_PAGE {
                    return Err(crate::err::AssignError::AddressOutOfBounds);
                }
                if !cross && (*pre_block_value2 != 0 || *updated_block_value2 != 0) {
                    return Err(crate::err::AssignError::InconsistentBlockValues);
                }
                let eid = entry.eentry.eid;
                let mut window_ok = entry.memory_rw_entries[0].start_eid < eid && eid
                    <= entry.memory_rw_entries[0].end_eid && entry.memory_rw_entries[1].start_eid
                    < eid && eid <= entry.memory_rw_entries[1].end_eid
                    && entry.memory_rw_entries[2].start_eid < eid && eid
                    <= entry.memory_rw_entries[2].end_eid && eid
                    < entry.memory_rw_entries[3].end_eid;
                if cross {
                    window_ok = window_ok && entry.memory_rw_entries[4].start_eid < eid && eid
                        <= entry.memory_rw_entries[4].end_eid && eid
                        < entry.memory_rw_entries[5].end_eid;
                }
                if !window_ok {
                    return Err(crate::err::AssignError::InvalidMemoryWindow);
                }
                let v = store_compute(*pre_block_value1, *pre_block_value2, ea, len, *value);
                if *updated_block_value1 != v.expected1 {
                    return Err(crate::err::AssignError::InconsistentBlockValues);
                }
                if cross && *updated_block_value2 != v.expected2 {
                    return Err(crate::err::AssignError::InconsistentBlockValues);
                }
                proof {
                    assert(store_step_valid(*entry));
                }
                let is_i32_flag = *vtype == VarType::I32;

                self.opcode_store_offset.assign(row, *offset);
                self.load_block_index.assign(row, block);
                self.load_block_inner_pos_bits[0].assign(row, inner % 2 == 1);
                self.load_block_inner_pos_bits[1].assign(row, (inner / 2) % 2 == 1);
                self.load_block_inner_pos_bits[2].assign(row, inner / 4 == 1);
                self.load_block_inner_pos.assign(row, inner as u128);
                self.is_cross_block.assign(row, cross);
                let rem: u32 = ((inner as u64 + len - 1) % 8) as u32;
                self.cross_block_rem.assign(row, rem);
                self.cross_block_rem_diff.assign(row, 7 - rem);
                self.bytes.assign(row, len as u128);
                self.len_modulus.assign(row, v.len_mod);
                self.load_tailing.assign(row, v.tailing);
                self.load_tailing_diff.assign(row, v.tailing_diff);
                self.load_picked.assign(row, v.picked);
                proof {
                    if len == 1 {
                        lemma_store_identity_values(
                            *pre_block_value1,
                            *pre_block_value2,
                            ea,
                            len as nat,
                            *value,
                        );
                    }
                }
                self.load_picked_byte_proof.assign(
                    row,
                    if len == 1 {
                        v.picked as u8
                    } else {
                        0
                    },
                );
                self.load_leading.assign(row, v.leading);
                self.store_value.assign(row, *value);
                self.store_value_wrapped.assign(row, v.wrapped as u128);
                self.is_one_byte.assign(row, len == 1);
                self.is_two_bytes.assign(row, len == 2);
                self.is_four_bytes.assign(row, len == 4);
                self.is_eight_bytes.assign(row, len == 8);
                self.is_i32.assign(row, is_i32_flag);
                self.unchanged_value.assign(row, v.unchanged);
                self.store_value_tailing_u16_u8_high.assign(row, ((*value / 0x100) % 0x100) as u8);
                self.store_value_tailing_u16_u8_low.assign(row, (*value % 0x100) as u8);
                let helper: u32 = ((entry.eentry.allocated_memory_pages as u64)
                    * WASM_BLOCKS_PER_PAGE - ((block as u64) + cross_add + 1)) as u32;
                self.address_within_allocated_pages_helper.assign(row, helper);
                self.lookup_pow_power.assign(
                    row,
                    8 * (inner as u128) + (POW_TABLE_POWER_START as u128),
                );
                self.lookup_pow_modulus.assign(row, v.pos_modulus);

                self.memory_table_lookup_stack_read_val.assign(
                    row,
                    claims,
                    entry.memory_rw_entries[0].start_eid,
                    entry.eentry.eid,
                    entry.memory_rw_entries[0].end_eid,
                    entry.eentry.sp + 1,
                    LocationType::Stack,
                    is_i32_flag,
                    *value,
                );
                self.memory_table_lookup_stack_read_pos.assign(
                    row,
                    claims,
                    entry.memory_rw_entries[1].start_eid,
                    entry.eentry.eid,
                    entry.memory_rw_entries[1].end_eid,
                    entry.eentry.sp + 2,
                    LocationType::Stack,
                    true,
                    *raw_address as u64,
                );
                self.memory_table_lookup_heap_read1.assign(
                    row,
                    claims,
                    entry.memory_rw_entries[2].start_eid,
                    entry.eentry.eid,
                    entry.memory_rw_entries[2].end_eid,
                    block,
                    LocationType::Heap,
                    false,
                    *pre_block_value1,
                );
                self.memory_table_lookup_heap_write1.assign(
                    row,
                    claims,
                    entry.eentry.eid,
                    entry.memory_rw_entries[3].end_eid,
                    block,
                    LocationType::Heap,
                    false,
                    *updated_block_value1,
                );
                if cross {
                    self.memory_table_lookup_heap_read2.assign(
                        row,
                        claims,
                        entry.memory_rw_entries[4].start_eid,
                        entry.eentry.eid,
                        entry.memory_rw_entries[4].end_eid,
                        block + 1,
                        LocationType::Heap,
                        false,
                        *pre_block_value2,
                    );
                    self.memory_table_lookup_heap_write2.assign(
                        row,
                        claims,
                        entry.eentry.eid,
                        entry.memory_rw_entries[5].end_eid,
                        block + 1,
                        LocationType::Heap,
                        false,
                        *updated_block_value2,
                    );
                } else {
                    self.memory_table_lookup_heap_read2.start_eid_cell.assign(row, 0);
                    self.memory_table_lookup_heap_read2.end_eid_cell.assign(row, 0);
                    match &self.memory_table_lookup_heap_read2.value_cell {
                        Some(vc) => vc.assign(row, 0),
                        None => {},
                    }
                    self.memory_table_lookup_heap_write2.end_eid_cell.assign(row, 0);
                    match &self.memory_table_lookup_heap_write2.value_cell {
                        Some(vc) => vc.assign(row, 0),
                        None => {},
                    }
                }
                proof {
                    assert(final(claims)@ =~= old(claims)@ + store_claims(*entry));
                }
                Ok(())
            },
            _ => Err(crate::err::AssignError::UnexpectedStepShape),
        }
    }
}

/// THE BYTE PATCH LAW: the post-write double-block value reassembled from
/// the tailing/wrapped/leading parts is byte-identical to patching the
/// pre-write double block at the claimed offset and width in a reference
/// byte buffer: bytes inside the written range come from the stored value,
/// all others are unchanged.
pub proof fn lemma_store_patch_bytes(
    pre1: u64,
    pre2: u64,
    inner: nat,
    len: nat,
    value: u64,
    i: nat,
)
    requires
        inner < 8,
        len == 1 || len == 2 || len == 4 || len == 8,
        i < 16,
    ensures
        inner <= i < inner + len ==> crate::arith::byte_of(
            store_new_value(pre1, pre2, inner, len, value),
            i,
        ) == crate::arith::byte_of(value as int, (i - inner) as nat),
        !(inner <= i < inner + len) ==> crate::arith::byte_of(
            store_new_value(pre1, pre2, inner, len, value),
            i,
        ) == crate::arith::byte_of(store_load_value(pre1, pre2), i),
{
    let lv = store_load_value(pre1, pre2);
    let nv = store_new_value(pre1, pre2, inner, len, value);
    let t = pow2((8 * inner) as nat) as int;
    let l = pow2((8 * len) as nat) as int;
    let tailing = store_tailing(pre1, pre2, inner);
    let picked = store_picked(pre1, pre2, inner, len);
    let leading = store_leading(pre1, pre2, inner, len);
    let wrapped = store_wrapped(value, len);
    lemma_store_split(pre1, pre2, inner, len, value);
    vstd::arithmetic::power2::lemma_pow2_pos((8 * inner) as nat);
    vstd::arithmetic::power2::lemma_pow2_pos((8 * len) as nat);
    vstd::arithmetic::power2::lemma_pow2_adds((8 * inner) as nat, (8 * len) as nat);
    // both values split as low + 2^(8 inner) * middle-and-high
    let old_hi = picked + l * leading;
    let new_hi = wrapped + l * leading;
    assert(0 <= l * leading) by (nonlinear_arith)
        requires
            l >= 1,
            leading >= 0,
    ;
    assert(lv == tailing + t * old_hi) by (nonlinear_arith)
        requires
            lv == tailing + t * picked + (t * l) * leading,
            old_hi == picked + l * leading,
    ;
    assert(nv == tailing + l * leading * t + wrapped * t) by (nonlinear_arith)
        requires
            nv == (tailing + (t * l) * leading) + wrapped * t,
    ;
    assert(nv == tailing + t * new_hi) by (nonlinear_arith)
        requires
            nv == tailing + l * leading * t + wrapped * t,
            new_hi == wrapped + l * leading,
    ;
    if i < inner {
        crate::arith::lemma_byte_of_split(tailing, new_hi, inner, i);
        crate::arith::lemma_byte_of_split(tailing, old_hi, inner, i);
    } else {
        crate::arith::lemma_byte_of_split(tailing, new_hi, inner, i);
        crate::arith::lemma_byte_of_split(tailing, old_hi, inner, i);
        let j = (i - inner) as nat;
        if j < len {
            crate::arith::lemma_byte_of_split(wrapped, leading, len, j);
            crate::arith::lemma_byte_of_mod(value as int, len, j);
        } else {
            crate::arith::lemma_byte_of_split(wrapped, leading, len, j);
            crate::arith::lemma_byte_of_split(picked, leading, len, j);
        }
    }
}

} // verus!
