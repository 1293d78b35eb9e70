//! The shared row context of the event table: the cells every opcode
//! configuration may read (event id, stack pointer, allocated pages), the
//! per-opcode selector bits, and the shared power-of-two lookup pair.

use vstd::prelude::*;
use vstd::arithmetic::power2::pow2;
use crate::cell::AllocatedBitCell;
use crate::cell::AllocatedCommonRangeCell;
use crate::cell::AllocatedUnlimitedCell;
use crate::cell::CellAllocator;
use crate::cell::CellKind;
use crate::cell::Decomp;
use crate::cell::Row;
use crate::cell::decomps_ok;
use crate::cell::row_wf;
use crate::err::ConfigError;
use crate::err::TraceError;
use crate::expr::Constraint;
use crate::expr::ConstraintBuilder;
use crate::expr::Expr;
use crate::expr::cell_val;
use crate::expr::constraint_holds;
use crate::expr::eadd;
use crate::expr::ecell;
use crate::expr::econst;
use crate::expr::emul;
use crate::expr::esub;
use crate::mtable::MemoryClaim;
use crate::op_local_set::LOCAL_SET_CELL_COUNT;
use crate::op_local_set::LocalSetConfig;
use crate::op_local_set::LocalSetConfigBuilder;
use crate::op_local_set::local_set_claims;
use crate::op_local_set::local_set_step_valid;
use crate::op_store::STORE_CELL_COUNT;
use crate::op_store::STORE_CONSTRAINT_COUNT;
use crate::op_store::StoreConfig;
use crate::op_store::StoreConfigBuilder;
use crate::op_store::store_claims;
use crate::op_store::store_constraints_pinned;
use crate::op_store::store_decomps_pinned;
use crate::op_store::store_step_valid;
use crate::step::EventTableEntryWithMemoryInfo;
use crate::step::StepInfo;
use crate::step::VarType;

verus! {

/// Offset added to an exponent when encoding it for the power table.
pub const POW_TABLE_POWER_START: u64 = 128;

/// The power-of-two lookup table: a row's `(power, modulus)` pair must either
/// be the disabled pair `(0, 0)` or encode `modulus = 2^e` with
/// `power = POW_TABLE_POWER_START + e` for some byte-position exponent
/// `e < 64`.
pub open spec fn pow_pair_ok(power: int, modulus: int) -> bool {
    ||| (power == 0 && modulus == 0)
    ||| (exists|e: nat| e < 64 && power == POW_TABLE_POWER_START + e && modulus == pow2(e))
}

/// The cells of the shared row context, owned by the common row and read-only
/// to opcode configurations (except the power lookup pair, which the active
/// opcode fills).
pub struct EventTableCommonConfig {
    /// 1 on rows carrying a step, 0 on padding rows.
    pub enabled_cell: AllocatedBitCell,
    /// 1 exactly on rows executing a local-variable store.
    pub sel_local_set_cell: AllocatedBitCell,
    /// 1 exactly on rows executing a heap store.
    pub sel_store_cell: AllocatedBitCell,
    pub eid_cell: AllocatedCommonRangeCell,
    pub sp_cell: AllocatedCommonRangeCell,
    pub mpages_cell: AllocatedCommonRangeCell,
    /// The encoded opcode of the row, checked against the active selector.
    pub opcode_cell: AllocatedUnlimitedCell,
    pub pow_table_lookup_power_cell: AllocatedUnlimitedCell,
    pub pow_table_lookup_modulus_cell: AllocatedUnlimitedCell,
}

/// Number of cells of the shared row context.
pub const COMMON_CELL_COUNT: usize = 9;

impl EventTableCommonConfig {
    /// Cell indices of the shared context, fixed at the head of the table.
    pub open spec fn ids_wf(self, n: int) -> bool {
        &&& COMMON_CELL_COUNT <= n
        &&& self.enabled_cell.cell == 0
        &&& self.sel_local_set_cell.cell == 1
        &&& self.sel_store_cell.cell == 2
        &&& self.eid_cell.cell == 3
        &&& self.sp_cell.cell == 4
        &&& self.mpages_cell.cell == 5
        &&& self.opcode_cell.cell == 6
        &&& self.pow_table_lookup_power_cell.cell == 7
        &&& self.pow_table_lookup_modulus_cell.cell == 8
    }

    /// Layout and range disciplines of the shared context.
    pub open spec fn wf(self, kinds: Seq<CellKind>) -> bool {
        &&& self.ids_wf(kinds.len() as int)
        &&& kinds[0] == CellKind::Bit
        &&& kinds[1] == CellKind::Bit
        &&& kinds[2] == CellKind::Bit
        &&& kinds[3] == CellKind::CommonRange
        &&& kinds[4] == CellKind::CommonRange
        &&& kinds[5] == CellKind::CommonRange
        &&& kinds[6] == CellKind::Unlimited
        &&& kinds[7] == CellKind::Unlimited
        &&& kinds[8] == CellKind::Unlimited
    }

    /// Allocates the shared row context at the head of a fresh table.
    pub fn configure(alloc: &mut CellAllocator) -> (r: EventTableCommonConfig)
        requires
            old(alloc).kinds@.len() == 0,
            old(alloc).decomps@.len() == 0,
        ensures
            r.wf(final(alloc).kinds@),
            final(alloc).kinds@.len() == COMMON_CELL_COUNT,
            final(alloc).decomps@.len() == 0,
            final(alloc).capacity == old(alloc).capacity,
    {
        let enabled_cell = alloc.alloc_bit_cell();
        let sel_local_set_cell = alloc.alloc_bit_cell();
        let sel_store_cell = alloc.alloc_bit_cell();
        let eid_cell = alloc.alloc_common_range_cell();
        let sp_cell = alloc.alloc_common_range_cell();
        let mpages_cell = alloc.alloc_common_range_cell();
        let opcode_cell = alloc.alloc_unlimited_cell();
        let pow_table_lookup_power_cell = alloc.alloc_unlimited_cell();
        let pow_table_lookup_modulus_cell = alloc.alloc_unlimited_cell();
        EventTableCommonConfig {
            enabled_cell,
            sel_local_set_cell,
            sel_store_cell,
            eid_cell,
            sp_cell,
            mpages_cell,
            opcode_cell,
            pow_table_lookup_power_cell,
            pow_table_lookup_modulus_cell,
        }
    }
}

/// Total number of cells of the configured event table.
pub const EVENT_TABLE_CELL_COUNT: usize = 105;

/// The full configuration of the event table: the shared context, one
/// configuration per opcode kind (a closed set with a total mapping from
/// opcode tag to configuration), and the cell layout and identities they
/// registered.
pub struct EventTableConfig {
    pub common: EventTableCommonConfig,
    pub local_set: LocalSetConfig,
    pub store: StoreConfig,
    pub kinds: Vec<CellKind>,
    pub decomps: Vec<Decomp>,
    pub constraints: Vec<Constraint>,
    pub capacity: usize,
}

impl EventTableConfig {
    /// The fixed layout of the whole table, with each opcode's identities at
    /// their pinned positions.
    pub open spec fn wf(self) -> bool {
        &&& self.common.wf(self.kinds@)
        &&& self.local_set.wf(self.kinds@)
        &&& self.local_set.first_cell == COMMON_CELL_COUNT
        &&& self.store.wf(self.kinds@)
        &&& self.store.first_cell == COMMON_CELL_COUNT + LOCAL_SET_CELL_COUNT
        &&& self.kinds@.len() == EVENT_TABLE_CELL_COUNT
        &&& self.decomps@.len() == 13
        &&& self.decomps@[0].value_cell == self.local_set.value_cell.u64_cell
        &&& self.decomps@[0].limbs@ == seq![
            self.local_set.value_cell.u16_cells_le[0],
            self.local_set.value_cell.u16_cells_le[1],
            self.local_set.value_cell.u16_cells_le[2],
            self.local_set.value_cell.u16_cells_le[3],
        ]
        &&& store_decomps_pinned(self.store, self.decomps@, 1)
        &&& self.constraints@.len() == STORE_CONSTRAINT_COUNT + 2
        &&& store_constraints_pinned(self.store, self.constraints@, 0)
        &&& forall|k: int|
            0 <= k < STORE_CONSTRAINT_COUNT ==> (#[trigger] self.constraints@[k]).gate
                == Expr::Cell(self.common.sel_store_cell.cell)
        &&& self.constraints@[STORE_CONSTRAINT_COUNT as int].gate == Expr::Cell(
            self.common.enabled_cell.cell,
        )
        &&& self.constraints@[STORE_CONSTRAINT_COUNT as int].exprs@.len() == 1
        &&& (forall|row: Seq<u128>|
            #[trigger] self.constraints@[STORE_CONSTRAINT_COUNT as int].exprs@[0].eval(row)
                == cell_val(row, self.common.sel_local_set_cell.cell as int) + cell_val(
                row,
                self.common.sel_store_cell.cell as int,
            ) - 1)
        &&& self.constraints@[STORE_CONSTRAINT_COUNT + 1].gate == Expr::Cell(
            self.common.enabled_cell.cell,
        )
        &&& self.constraints@[STORE_CONSTRAINT_COUNT + 1].exprs@.len() == 1
        &&& (forall|row: Seq<u128>|
            #[trigger] self.constraints@[STORE_CONSTRAINT_COUNT + 1].exprs@[0].eval(row)
                == cell_val(row, self.common.opcode_cell.cell as int) - cell_val(
                row,
                self.common.sel_local_set_cell.cell as int,
            ) * self.local_set.opcode_eval(row) - cell_val(
                row,
                self.common.sel_store_cell.cell as int,
            ) * self.store.opcode_eval(row))
    }
}

/// A row satisfies the whole configured system: every cell respects its
/// range discipline, every recorded limb decomposition holds, every gated
/// identity evaluates to zero, and the power-lookup pair is in the power
/// table.
pub open spec fn row_ok(c: EventTableConfig, row: Seq<u128>) -> bool {
    &&& row_wf(c.kinds@, row)
    &&& decomps_ok(c.decomps@, row)
    &&& forall|k: int|
        0 <= k < c.constraints@.len() ==> constraint_holds(#[trigger] c.constraints@[k], row)
    &&& pow_pair_ok(
        cell_val(row, c.common.pow_table_lookup_power_cell.cell as int),
        cell_val(row, c.common.pow_table_lookup_modulus_cell.cell as int),
    )
}

/// Builds the full event table configuration once, before any row is
/// assigned: the shared context, then each opcode configuration under its
/// own selector gate, then the table-level selection identities. Fails
/// exactly when the configured cells exceed the fixed capacity.
#[verifier::rlimit(100)]
#[verifier::spinoff_prover]
pub fn configure_event_table(capacity: usize) -> (r: Result<EventTableConfig, ConfigError>)
    ensures
        r matches Ok(c) ==> c.wf() && c.capacity == capacity,
        r is Ok <==> EVENT_TABLE_CELL_COUNT <= capacity,
{
    let mut alloc = CellAllocator::new(capacity);
    let common = EventTableCommonConfig::configure(&mut alloc);
    let mut builder = ConstraintBuilder::new();
    builder.set_gate(ecell(common.sel_local_set_cell.cell));
    let local_set = LocalSetConfigBuilder::configure(&common, &mut alloc, &mut builder);
    builder.set_gate(ecell(common.sel_store_cell.cell));
    let store = StoreConfigBuilder::configure(&common, &mut alloc, &mut builder);
    builder.set_gate(ecell(common.enabled_cell.cell));
    let mut sel_exprs: Vec<Expr> = Vec::new();
    sel_exprs.push(
        esub(
            eadd(ecell(common.sel_local_set_cell.cell), ecell(common.sel_store_cell.cell)),
            econst(1),
        ),
    );
    builder.push("etable op selectors", sel_exprs);
    let mut opcode_exprs: Vec<Expr> = Vec::new();
    opcode_exprs.push(
        esub(
            esub(
                ecell(common.opcode_cell.cell),
                emul(ecell(common.sel_local_set_cell.cell), local_set.opcode()),
            ),
            emul(ecell(common.sel_store_cell.cell), store.opcode()),
        ),
    );
    builder.push("etable opcode", opcode_exprs);
    if !alloc.fits() {
        return Err(ConfigError::CellCapacityExceeded);
    }
    Ok(
        EventTableConfig {
            common,
            local_set,
            store,
            kinds: alloc.kinds,
            decomps: alloc.decomps,
            constraints: builder.constraints,
            capacity,
        },
    )
}

/// Whether a step's payload is valid for the opcode it carries.
pub open spec fn step_valid(e: EventTableEntryWithMemoryInfo) -> bool {
    match e.eentry.step_info {
        StepInfo::SetLocal { .. } => local_set_step_valid(e),
        StepInfo::Store { .. } => store_step_valid(e),
    }
}

/// Net stack-pointer change of a step.
pub open spec fn step_sp_delta(e: EventTableEntryWithMemoryInfo) -> int {
    match e.eentry.step_info {
        StepInfo::SetLocal { .. } => 1,
        StepInfo::Store { .. } => 2,
    }
}

/// The memory claims a step issues, in order.
pub open spec fn step_claims(e: EventTableEntryWithMemoryInfo) -> Seq<MemoryClaim> {
    match e.eentry.step_info {
        StepInfo::SetLocal { .. } => local_set_claims(e),
        StepInfo::Store { .. } => store_claims(e),
    }
}

/// The number of memory-consistency operations a step accounts for.
pub open spec fn step_mops(e: EventTableEntryWithMemoryInfo) -> int {
    match e.eentry.step_info {
        StepInfo::SetLocal { .. } => 1,
        StepInfo::Store { effective_address, store_size, .. } => 1 + (if effective_address as int
            % 8 + store_size.spec_byte_size() > 8 {
            1int
        } else {
            0int
        }),
    }
}

/// The number of memory writes a step performs.
pub open spec fn step_writes(e: EventTableEntryWithMemoryInfo) -> int {
    match e.eentry.step_info {
        StepInfo::SetLocal { .. } => 1,
        StepInfo::Store { effective_address, store_size, .. } => (if effective_address as int % 8
            + store_size.spec_byte_size() > 8 {
            2int
        } else {
            1int
        }),
    }
}

/// The canonical opcode encoding of a step.
pub open spec fn step_encode(e: EventTableEntryWithMemoryInfo) -> int {
    match e.eentry.step_info {
        StepInfo::SetLocal { vtype, depth, .. } => crate::encode::spec_encode_local_set(
            vtype == VarType::I32,
            depth,
        ),
        StepInfo::Store { vtype, store_size, offset, .. } => crate::encode::spec_encode_store(
            vtype == VarType::I32,
            store_size.spec_byte_size(),
            offset,
        ),
    }
}

/// A trace is well formed when every step is valid for its opcode, event ids
/// increase strictly from at least 1, and each step's recorded stack pointer
/// continues the previous step's stack pointer by that step's delta.
pub open spec fn trace_wf(tr: Seq<EventTableEntryWithMemoryInfo>) -> bool {
    &&& forall|i: int| 0 <= i < tr.len() ==> step_valid(#[trigger] tr[i])
    &&& (tr.len() > 0 ==> tr[0].eentry.eid >= 1)
    &&& forall|i: int|
        0 < i < tr.len() ==> (#[trigger] tr[i]).eentry.eid > tr[i - 1].eentry.eid
    &&& forall|i: int|
        0 < i < tr.len() ==> (#[trigger] tr[i]).eentry.sp == tr[i - 1].eentry.sp + step_sp_delta(
            tr[i - 1],
        )
}

/// All claims of a trace, in event order.
pub open spec fn trace_claims(tr: Seq<EventTableEntryWithMemoryInfo>) -> Seq<MemoryClaim>
    decreases tr.len(),
{
    if tr.len() == 0 {
        Seq::empty()
    } else {
        trace_claims(tr.drop_last()) + step_claims(tr.last())
    }
}

/// Total memory-consistency operations of a trace.
pub open spec fn trace_mops(tr: Seq<EventTableEntryWithMemoryInfo>) -> int
    decreases tr.len(),
{
    if tr.len() == 0 {
        0
    } else {
        trace_mops(tr.drop_last()) + step_mops(tr.last())
    }
}

/// Total memory writes of a trace.
pub open spec fn trace_writes(tr: Seq<EventTableEntryWithMemoryInfo>) -> int
    decreases tr.len(),
{
    if tr.len() == 0 {
        0
    } else {
        trace_writes(tr.drop_last()) + step_writes(tr.last())
    }
}

/// The stack pointer reproduced by accumulating the per-step deltas from the
/// first recorded stack pointer.
pub open spec fn replay_sp(tr: Seq<EventTableEntryWithMemoryInfo>, i: int) -> int
    recommends
        0 <= i < tr.len(),
    decreases i,
{
    if i <= 0 {
        if tr.len() > 0 {
            tr[0].eentry.sp as int
        } else {
            0
        }
    } else {
        replay_sp(tr, i - 1) + step_sp_delta(tr[i - 1])
    }
}

/// THE STACK POINTER REPLAY LAW: on a well formed trace, accumulating the
/// per-opcode stack-pointer deltas row by row reproduces the stack pointer
/// recorded in every step record.
pub proof fn lemma_sp_replay(tr: Seq<EventTableEntryWithMemoryInfo>, i: int)
    requires
        trace_wf(tr),
        0 <= i < tr.len(),
    ensures
        replay_sp(tr, i) == tr[i].eentry.sp,
    decreases i,
{
    if i > 0 {
        lemma_sp_replay(tr, i - 1);
    }
}

/// Every memory claim of a well formed trace has a well formed window: its
/// `start_eid` lies strictly below its `end_eid`, a read's window opens
/// strictly before the claiming step and closes no earlier, and a write
/// opens its own window.
pub proof fn lemma_trace_claims_window_wf(tr: Seq<EventTableEntryWithMemoryInfo>)
    requires
        trace_wf(tr),
    ensures
        forall|j: int|
            0 <= j < trace_claims(tr).len() ==> crate::mtable::claim_window_wf(
                #[trigger] trace_claims(tr)[j],
            ),
    decreases tr.len(),
{
    if tr.len() > 0 {
        let head = tr.drop_last();
        let last = tr.last();
        assert(trace_wf(head)) by {
            assert(forall|i: int| 0 <= i < head.len() ==> step_valid(#[trigger] head[i]));
        }
        lemma_trace_claims_window_wf(head);
        assert(step_valid(last));
        assert forall|j: int|
            0 <= j < step_claims(last).len() implies crate::mtable::claim_window_wf(
            #[trigger] step_claims(last)[j],
        ) by {
            match last.eentry.step_info {
                StepInfo::SetLocal { .. } => {
                    crate::op_local_set::lemma_local_set_claims_window_wf(last, j);
                },
                StepInfo::Store { .. } => {
                    crate::op_store::lemma_store_claims_window_wf(last, j);
                },
            }
        }
        assert(trace_claims(tr) == trace_claims(head) + step_claims(last));
    }
}

/// The filled witness table of one trace slice: one row per step, the memory
/// claims in event order, and the aggregate counts consumed by the
/// surrounding table.
pub struct AssignedEventTable {
    pub rows: Vec<Row>,
    pub claims: Vec<MemoryClaim>,
    pub mops: u64,
    pub memory_writing_ops: u64,
}

impl AssignedEventTable {
    /// Sorts this slice's claims by slot and window start and checks the
    /// memory consistency chain. Success exhibits an ordering of the claims
    /// in which every read observes the value of the most recent prior
    /// write of its slot (or the canonical initial value); failure exhibits
    /// a canonically sorted ordering on which the chain condition breaks.
    pub fn check_memory_consistency(&self) -> (r: bool)
        ensures
            r ==> exists|s: Seq<MemoryClaim>|
                s.to_multiset() == self.claims@.to_multiset() && vstd::relations::sorted_by(
                    s,
                    crate::mtable::claim_leq_fn(),
                ) && crate::mtable::claims_chain_ok(s),
            !r ==> exists|s: Seq<MemoryClaim>|
                s.to_multiset() == self.claims@.to_multiset() && vstd::relations::sorted_by(
                    s,
                    crate::mtable::claim_leq_fn(),
                ) && !crate::mtable::claims_chain_ok(s),
    {
        let sorted = crate::mtable::sort_claims(&self.claims);
        let ok = crate::mtable::check_claims_chain(&sorted);
        proof {
            assert(sorted@.to_multiset() == self.claims@.to_multiset() && vstd::relations::sorted_by(
                sorted@,
                crate::mtable::claim_leq_fn(),
            ));
            if ok {
                assert(crate::mtable::claims_chain_ok(sorted@));
            } else {
                assert(!crate::mtable::claims_chain_ok(sorted@));
            }
        }
        ok
    }
}

/// The values the shared context cells carry on an assigned row.
pub open spec fn common_row_values(
    c: EventTableConfig,
    row: Seq<u128>,
    e: EventTableEntryWithMemoryInfo,
) -> bool {
    &&& cell_val(row, c.common.enabled_cell.cell as int) == 1
    &&& cell_val(row, c.common.sel_local_set_cell.cell as int) == (match e.eentry.step_info {
        StepInfo::SetLocal { .. } => 1int,
        _ => 0int,
    })
    &&& cell_val(row, c.common.sel_store_cell.cell as int) == (match e.eentry.step_info {
        StepInfo::Store { .. } => 1int,
        _ => 0int,
    })
    &&& cell_val(row, c.common.eid_cell.cell as int) == e.eentry.eid
    &&& cell_val(row, c.common.sp_cell.cell as int) == e.eentry.sp
    &&& cell_val(row, c.common.mpages_cell.cell as int) == e.eentry.allocated_memory_pages
    &&& cell_val(row, c.common.opcode_cell.cell as int) == step_encode(e)
}

/// A row assigned from a valid local-variable-store step satisfies the whole
/// configured system.
#[verifier::rlimit(100)]
#[verifier::spinoff_prover]
pub proof fn lemma_row_ok_local_set(
    c: EventTableConfig,
    row: Seq<u128>,
    e: EventTableEntryWithMemoryInfo,
)
    requires
        c.wf(),
        e.eentry.step_info is SetLocal,
        local_set_step_valid(e),
        common_row_values(c, row, e),
        c.local_set.local_set_row_values(row, e),
        cell_val(row, c.common.pow_table_lookup_power_cell.cell as int) == 0,
        cell_val(row, c.common.pow_table_lookup_modulus_cell.cell as int) == 0,
        forall|i: int|
            c.store.first_cell <= i < c.store.first_cell + STORE_CELL_COUNT ==> row[i] == 0,
        row.len() == EVENT_TABLE_CELL_COUNT,
    ensures
        row_ok(c, row),
{
    let value = e.eentry.step_info->SetLocal_value;
    crate::arith::lemma_u64_limbs(value);
    let ls = c.local_set;
    let st = c.store;
    let b = st.first_cell as int;
    // range disciplines
    assert(row_wf(c.kinds@, row)) by {
        assert forall|i: int| 0 <= i < row.len() implies (#[trigger] row[i]) < crate::cell::kind_bound(
            c.kinds@[i],
        ) by {
            if b <= i < b + STORE_CELL_COUNT {
                assert(row[i] == 0);
            }
        }
    }
    // limb decompositions
    assert(decomps_ok(c.decomps@, row)) by {
        lemma_decomps_zero_or_assigned(c, row);
        crate::cell::lemma_limbs_value4(
            ls.value_cell.u16_cells_le[0],
            ls.value_cell.u16_cells_le[1],
            ls.value_cell.u16_cells_le[2],
            ls.value_cell.u16_cells_le[3],
            row,
        );
    }
    // identities: the store identities are gated off, the table identities
    // follow from the selector and opcode values
    assert forall|k: int| 0 <= k < c.constraints@.len() implies constraint_holds(
        #[trigger] c.constraints@[k],
        row,
    ) by {
        if k < STORE_CONSTRAINT_COUNT {
            assert(c.constraints@[k].gate.eval(row) == 0);
            assert forall|j: int|
                0 <= j < c.constraints@[k].exprs@.len() implies c.constraints@[k].gate.eval(row)
                * (#[trigger] c.constraints@[k].exprs@[j].eval(row)) == 0 by {
                assert(0 * c.constraints@[k].exprs@[j].eval(row) == 0) by (nonlinear_arith);
            }
        } else if k == STORE_CONSTRAINT_COUNT {
            assert(c.constraints@[k].gate.eval(row) == 1);
        } else {
            assert(c.constraints@[k].gate.eval(row) == 1);
            assert(c.constraints@[k].exprs@[0].eval(row) == cell_val(
                row,
                c.common.opcode_cell.cell as int,
            ) - 1 * ls.opcode_eval(row) - 0 * st.opcode_eval(row));
            assert(1 * ls.opcode_eval(row) == ls.opcode_eval(row)) by (nonlinear_arith);
            assert(0 * st.opcode_eval(row) == 0) by (nonlinear_arith);
            assert(ls.opcode_eval(row) == step_encode(e));
        }
    }
    assert(pow_pair_ok(0, 0));
}

/// A row assigned from a valid heap-store step satisfies the whole
/// configured system.
#[verifier::rlimit(100)]
#[verifier::spinoff_prover]
pub proof fn lemma_row_ok_store(
    c: EventTableConfig,
    row: Seq<u128>,
    e: EventTableEntryWithMemoryInfo,
)
    requires
        c.wf(),
        e.eentry.step_info is Store,
        store_step_valid(e),
        common_row_values(c, row, e),
        c.store.store_row_values(row, e),
        forall|i: int|
            c.local_set.first_cell <= i < c.local_set.first_cell + LOCAL_SET_CELL_COUNT ==> row[i]
                == 0,
        row.len() == EVENT_TABLE_CELL_COUNT,
    ensures
        row_ok(c, row),
{
    let st = c.store;
    let ls = c.local_set;
    let b = st.first_cell as int;
    let info = e.eentry.step_info;
    let pre1 = info->Store_pre_block_value1;
    let pre2 = info->Store_pre_block_value2;
    let up1 = info->Store_updated_block_value1;
    let up2 = info->Store_updated_block_value2;
    let value = info->Store_value;
    let ea = info->Store_effective_address;
    let offset = info->Store_offset;
    let raw = info->Store_raw_address;
    let len = info->Store_store_size.spec_byte_size() as nat;
    let inner = (ea as int % 8) as nat;
    lemma_store_picked_byte_bound(pre1, pre2, ea, len, value);
    crate::op_store::lemma_store_split(pre1, pre2, inner, len, value);
    crate::arith::lemma_u64_limbs(value);
    crate::arith::lemma_u64_limbs(pre1);
    crate::arith::lemma_u64_limbs(pre2);
    crate::arith::lemma_u64_limbs(up1);
    crate::arith::lemma_u64_limbs(up2);
    crate::arith::lemma_u64_limbs(raw as u64);
    crate::arith::lemma_u32_limbs(offset);
    crate::arith::lemma_u32_limbs((ea / 8) as u32);
    lemma_store_row_wf(c, row, e);
    lemma_store_row_decomps(c, row, e);
    // identities
    crate::op_store::lemma_store_identities(st, row, e);
    assert forall|k: int| 0 <= k < c.constraints@.len() implies constraint_holds(
        #[trigger] c.constraints@[k],
        row,
    ) by {
        if k < STORE_CONSTRAINT_COUNT {
            assert(c.constraints@[k].gate.eval(row) == 1);
            assert forall|j: int|
                0 <= j < c.constraints@[k].exprs@.len() implies c.constraints@[k].gate.eval(row)
                * (#[trigger] c.constraints@[k].exprs@[j].eval(row)) == 0 by {
                lemma_store_constraint_expr_zero(c, row, e, k, j);
            }
        } else if k == STORE_CONSTRAINT_COUNT {
            assert(c.constraints@[k].gate.eval(row) == 1);
        } else {
            assert(c.constraints@[k].gate.eval(row) == 1);
            assert(c.constraints@[k].exprs@[0].eval(row) == cell_val(
                row,
                c.common.opcode_cell.cell as int,
            ) - 0 * ls.opcode_eval(row) - 1 * st.opcode_eval(row));
            assert(1 * st.opcode_eval(row) == st.opcode_eval(row)) by (nonlinear_arith);
            assert(0 * ls.opcode_eval(row) == 0) by (nonlinear_arith);
            assert(st.opcode_eval(row) == step_encode(e));
        }
    }
    // the power pair is in the table with exponent 8 * inner
    assert(pow_pair_ok(
        cell_val(row, c.common.pow_table_lookup_power_cell.cell as int),
        cell_val(row, c.common.pow_table_lookup_modulus_cell.cell as int),
    )) by {
        let ex = (8 * inner) as nat;
        assert(ex < 64);
        assert(cell_val(row, c.common.pow_table_lookup_power_cell.cell as int)
            == POW_TABLE_POWER_START + ex && cell_val(
            row,
            c.common.pow_table_lookup_modulus_cell.cell as int,
        ) == pow2(ex));
    }
}

/// Every recorded decomposition's cells are either the zeroed cells of an
/// inactive opcode or carry an assigned value with its limbs; in both cases
/// the decomposition holds.
#[verifier::rlimit(100)]
#[verifier::spinoff_prover]
proof fn lemma_decomps_zero_or_assigned(c: EventTableConfig, row: Seq<u128>)
    requires
        c.wf(),
        row.len() == EVENT_TABLE_CELL_COUNT,
    ensures
        forall|j: int|
            1 <= j < 13 ==> decomp_sum_closed(#[trigger] c.decomps@[j], row),
        decomp_sum_closed(c.decomps@[0], row),
{
    let b = c.store.first_cell as int;
    crate::cell::lemma_limbs_value4(
        c.local_set.value_cell.u16_cells_le[0],
        c.local_set.value_cell.u16_cells_le[1],
        c.local_set.value_cell.u16_cells_le[2],
        c.local_set.value_cell.u16_cells_le[3],
        row,
    );
    crate::cell::lemma_limbs_value2(((b + 1) as usize), ((b + 2) as usize), row);
    crate::cell::lemma_limbs_value2(((b + 4) as usize), ((b + 5) as usize), row);
    crate::cell::lemma_limbs_value4(
        ((b + 16) as usize),
        ((b + 17) as usize),
        ((b + 18) as usize),
        ((b + 19) as usize),
        row,
    );
    crate::cell::lemma_limbs_value4(
        ((b + 21) as usize),
        ((b + 22) as usize),
        ((b + 23) as usize),
        ((b + 24) as usize),
        row,
    );
    crate::cell::lemma_limbs_value4(
        ((b + 26) as usize),
        ((b + 27) as usize),
        ((b + 28) as usize),
        ((b + 29) as usize),
        row,
    );
    crate::cell::lemma_limbs_value4(
        ((b + 32) as usize),
        ((b + 33) as usize),
        ((b + 34) as usize),
        ((b + 35) as usize),
        row,
    );
    crate::cell::lemma_limbs_value4(
        ((b + 37) as usize),
        ((b + 38) as usize),
        ((b + 39) as usize),
        ((b + 40) as usize),
        row,
    );
    crate::cell::lemma_limbs_value4(
        ((b + 52) as usize),
        ((b + 53) as usize),
        ((b + 54) as usize),
        ((b + 55) as usize),
        row,
    );
    crate::cell::lemma_limbs_value4(
        ((b + 59) as usize),
        ((b + 60) as usize),
        ((b + 61) as usize),
        ((b + 62) as usize),
        row,
    );
    crate::cell::lemma_limbs_value4(
        ((b + 66) as usize),
        ((b + 67) as usize),
        ((b + 68) as usize),
        ((b + 69) as usize),
        row,
    );
    crate::cell::lemma_limbs_value4(
        ((b + 72) as usize),
        ((b + 73) as usize),
        ((b + 74) as usize),
        ((b + 75) as usize),
        row,
    );
    crate::cell::lemma_limbs_value4(
        ((b + 78) as usize),
        ((b + 79) as usize),
        ((b + 80) as usize),
        ((b + 81) as usize),
        row,
    );
}

/// The closed form of one decomposition's limb sum.
pub open spec fn decomp_sum_closed(d: Decomp, row: Seq<u128>) -> bool {
    if d.limbs@.len() == 2 {
        crate::cell::limbs_value(d.limbs@, row) == cell_val(row, d.limbs@[0] as int) + 0x10000
            * cell_val(row, d.limbs@[1] as int)
    } else if d.limbs@.len() == 4 {
        crate::cell::limbs_value(d.limbs@, row) == cell_val(row, d.limbs@[0] as int) + 0x10000
            * cell_val(row, d.limbs@[1] as int) + 0x100000000 * cell_val(row, d.limbs@[2] as int)
            + 0x1000000000000 * cell_val(row, d.limbs@[3] as int)
    } else {
        true
    }
}

/// For a one-byte store, the picked value fits one byte (so the byte-proof
/// cell respects its range). Narrowed from the full identity-value facts to
/// keep the row lemmas' search space small.
proof fn lemma_store_picked_byte_bound(pre1: u64, pre2: u64, ea: u32, len: nat, value: u64)
    requires
        len == 1 || len == 2 || len == 4 || len == 8,
    ensures
        len == 1 ==> 0 <= crate::op_store::store_picked(
            pre1,
            pre2,
            (ea as int % 8) as nat,
            len,
        ) < 0x100,
{
    crate::op_store::lemma_store_identity_values(pre1, pre2, ea, len, value);
}

/// One gated store identity vanishes on a row where all the store
/// identities' values are zero and the store selector is 1.
proof fn lemma_store_constraint_expr_zero(
    c: EventTableConfig,
    row: Seq<u128>,
    e: EventTableEntryWithMemoryInfo,
    k: int,
    j: int,
)
    requires
        c.wf(),
        c.store.store_identities_zero(row),
        cell_val(row, c.common.sel_store_cell.cell as int) == 1,
        0 <= k < STORE_CONSTRAINT_COUNT,
        0 <= j < c.constraints@[k].exprs@.len(),
    ensures
        c.constraints@[k].gate.eval(row) * c.constraints@[k].exprs@[j].eval(row) == 0,
{
    let st = c.store;
    assert(c.constraints@[k].gate.eval(row) == 1);
    let v = c.constraints@[k].exprs@[j].eval(row);
    if k == 0 {
        assert(v == st.c_length_eval(row));
    } else if k == 1 {
        assert(v == st.c_bytes_eval(row));
    } else if k == 2 {
        if j == 0 {
            assert(v == st.c_block_index_eval(row));
        } else {
            assert(v == st.c_inner_pos_bits_eval(row));
        }
    } else if k == 3 {
        if j == 0 {
            assert(v == st.c_cross_eval(row));
        } else if j == 1 {
            assert(v == st.c_rem_range_eval(row));
        } else {
            assert(v == st.c_heap2_zero_eval(row));
        }
    } else if k == 4 {
        assert(v == st.c_len_modulus_eval(row));
    } else if k == 5 {
        assert(v == st.c_pick1_eval(row));
    } else if k == 6 {
        assert(v == st.c_pick2_eval(row));
    } else if k == 7 {
        assert(v == st.c_pick3_eval(row));
    } else if k == 8 {
        assert(v == st.c_pick_helper_eval(row));
    } else if k == 9 {
        if j == 0 {
            assert(v == st.c_size_check4_eval(row));
        } else if j == 1 {
            assert(v == st.c_size_check2_eval(row));
        } else {
            assert(v == st.c_size_check1_eval(row));
        }
    } else if k == 10 {
        assert(v == st.c_tailing_u16_eval(row));
    } else if k == 11 {
        assert(v == st.c_value_wrap_eval(row));
    } else if k == 12 {
        assert(v == st.c_pow_lookup_eval(row));
    } else {
        assert(v == st.c_allocated_eval(row));
    }
    assert(v == 0);
}

/// Range disciplines of a row assigned from a valid heap-store step.
#[verifier::rlimit(100)]
#[verifier::spinoff_prover]
proof fn lemma_store_row_wf(c: EventTableConfig, row: Seq<u128>, e: EventTableEntryWithMemoryInfo)
    requires
        c.wf(),
        e.eentry.step_info is Store,
        store_step_valid(e),
        common_row_values(c, row, e),
        c.store.store_row_values(row, e),
        forall|i: int|
            c.local_set.first_cell <= i < c.local_set.first_cell + LOCAL_SET_CELL_COUNT ==> row[i]
                == 0,
        row.len() == EVENT_TABLE_CELL_COUNT,
    ensures
        row_wf(c.kinds@, row),
{
    let ls = c.local_set;
    let info = e.eentry.step_info;
    let pre1 = info->Store_pre_block_value1;
    let pre2 = info->Store_pre_block_value2;
    let up1 = info->Store_updated_block_value1;
    let up2 = info->Store_updated_block_value2;
    let value = info->Store_value;
    let ea = info->Store_effective_address;
    let offset = info->Store_offset;
    let raw = info->Store_raw_address;
    let len = info->Store_store_size.spec_byte_size() as nat;
    let inner = (ea as int % 8) as nat;
    lemma_store_picked_byte_bound(pre1, pre2, ea, len, value);
    crate::op_store::lemma_store_split(pre1, pre2, inner, len, value);
    crate::arith::lemma_u64_limbs(value);
    crate::arith::lemma_u64_limbs(pre1);
    crate::arith::lemma_u64_limbs(pre2);
    crate::arith::lemma_u64_limbs(up1);
    crate::arith::lemma_u64_limbs(up2);
    crate::arith::lemma_u64_limbs(raw as u64);
    crate::arith::lemma_u32_limbs(offset);
    crate::arith::lemma_u32_limbs((ea / 8) as u32);
    assert forall|i: int| 0 <= i < row.len() implies (#[trigger] row[i]) < crate::cell::kind_bound(
        c.kinds@[i],
    ) by {
        if ls.first_cell <= i < ls.first_cell + LOCAL_SET_CELL_COUNT {
            assert(row[i] == 0);
        }
    }
}

/// Limb decompositions of a row assigned from a valid heap-store step.
#[verifier::rlimit(100)]
#[verifier::spinoff_prover]
proof fn lemma_store_row_decomps(
    c: EventTableConfig,
    row: Seq<u128>,
    e: EventTableEntryWithMemoryInfo,
)
    requires
        c.wf(),
        e.eentry.step_info is Store,
        store_step_valid(e),
        c.store.store_row_values(row, e),
        forall|i: int|
            c.local_set.first_cell <= i < c.local_set.first_cell + LOCAL_SET_CELL_COUNT ==> row[i]
                == 0,
        row.len() == EVENT_TABLE_CELL_COUNT,
    ensures
        decomps_ok(c.decomps@, row),
{
    let info = e.eentry.step_info;
    let value = info->Store_value;
    let pre1 = info->Store_pre_block_value1;
    let pre2 = info->Store_pre_block_value2;
    let inner = ((info->Store_effective_address as int) % 8) as nat;
    let len = info->Store_store_size.spec_byte_size() as nat;
    crate::arith::lemma_u64_limbs(value);
    crate::arith::lemma_u64_limbs(pre1);
    crate::arith::lemma_u64_limbs(pre2);
    crate::arith::lemma_u64_limbs(info->Store_updated_block_value1);
    crate::arith::lemma_u64_limbs(info->Store_updated_block_value2);
    crate::arith::lemma_u64_limbs(info->Store_raw_address as u64);
    crate::arith::lemma_u64_limbs(crate::op_store::store_tailing(pre1, pre2, inner) as u64);
    crate::arith::lemma_u64_limbs(
        (pow2((8 * inner) as nat) - 1 - crate::op_store::store_tailing(pre1, pre2, inner)) as u64,
    );
    crate::arith::lemma_u64_limbs(crate::op_store::store_picked(pre1, pre2, inner, len) as u64);
    crate::arith::lemma_u64_limbs(crate::op_store::store_leading(pre1, pre2, inner, len) as u64);
    crate::arith::lemma_u32_limbs(info->Store_offset);
    crate::arith::lemma_u32_limbs((info->Store_effective_address / 8) as u32);
    lemma_decomps_zero_or_assigned(c, row);
    crate::cell::lemma_limbs_value4(
        c.local_set.value_cell.u16_cells_le[0],
        c.local_set.value_cell.u16_cells_le[1],
        c.local_set.value_cell.u16_cells_le[2],
        c.local_set.value_cell.u16_cells_le[3],
        row,
    );
    assert forall|j: int|
        0 <= j < c.decomps@.len() implies cell_val(
        row,
        (#[trigger] c.decomps@[j]).value_cell as int,
    ) == crate::cell::limbs_value(c.decomps@[j].limbs@, row) by {
        if j == 0 {
            assert(cell_val(row, c.decomps@[0].value_cell as int) == crate::cell::limbs_value(
                c.decomps@[0].limbs@,
                row,
            ));
        } else if j == 1 {
            assert(cell_val(row, c.decomps@[1].value_cell as int) == crate::cell::limbs_value(
                c.decomps@[1].limbs@,
                row,
            ));
        } else if j == 2 {
            assert(cell_val(row, c.decomps@[2].value_cell as int) == crate::cell::limbs_value(
                c.decomps@[2].limbs@,
                row,
            ));
        } else if j == 3 {
            assert(cell_val(row, c.decomps@[3].value_cell as int) == crate::cell::limbs_value(
                c.decomps@[3].limbs@,
                row,
            ));
        } else if j == 4 {
            assert(cell_val(row, c.decomps@[4].value_cell as int) == crate::cell::limbs_value(
                c.decomps@[4].limbs@,
                row,
            ));
        } else if j == 5 {
            assert(cell_val(row, c.decomps@[5].value_cell as int) == crate::cell::limbs_value(
                c.decomps@[5].limbs@,
                row,
            ));
        } else if j == 6 {
            assert(cell_val(row, c.decomps@[6].value_cell as int) == crate::cell::limbs_value(
                c.decomps@[6].limbs@,
                row,
            ));
        } else if j == 7 {
            assert(cell_val(row, c.decomps@[7].value_cell as int) == crate::cell::limbs_value(
                c.decomps@[7].limbs@,
                row,
            ));
        } else if j == 8 {
            assert(cell_val(row, c.decomps@[8].value_cell as int) == crate::cell::limbs_value(
                c.decomps@[8].limbs@,
                row,
            ));
        } else if j == 9 {
            assert(cell_val(row, c.decomps@[9].value_cell as int) == crate::cell::limbs_value(
                c.decomps@[9].limbs@,
                row,
            ));
        } else if j == 10 {
            assert(cell_val(row, c.decomps@[10].value_cell as int) == crate::cell::limbs_value(
                c.decomps@[10].limbs@,
                row,
            ));
        } else if j == 11 {
            assert(cell_val(row, c.decomps@[11].value_cell as int) == crate::cell::limbs_value(
                c.decomps@[11].limbs@,
                row,
            ));
        } else {
            assert(cell_val(row, c.decomps@[12].value_cell as int) == crate::cell::limbs_value(
                c.decomps@[12].limbs@,
                row,
            ));
        }
    }
}

/// Iterates the step records in event order, dispatches each to its opcode
/// configuration, fills the common cells of its row, and aggregates the
/// per-row summaries. Succeeds exactly on well formed traces; on success
/// every produced row satisfies the whole configured system, and the claim
/// list is exactly the trace's claims in event order.
#[verifier::rlimit(100)]
#[verifier::spinoff_prover]
pub fn assign_event_table(
    config: &EventTableConfig,
    trace: &Vec<EventTableEntryWithMemoryInfo>,
) -> (r: Result<AssignedEventTable, TraceError>)
    requires
        config.wf(),
        trace@.len() <= 0xFFFFFFFF,
    ensures
        r is Ok <==> trace_wf(trace@),
        r matches Ok(a) ==> {
            &&& a.rows@.len() == trace@.len()
            &&& forall|i: int| 0 <= i < a.rows@.len() ==> row_ok(*config, (#[trigger] a.rows@[i])@)
            &&& a.claims@ == trace_claims(trace@)
            &&& forall|j: int|
                0 <= j < a.claims@.len() ==> crate::mtable::claim_window_wf(
                    #[trigger] a.claims@[j],
                )
            &&& a.mops == trace_mops(trace@)
            &&& a.memory_writing_ops == trace_writes(trace@)
        },
{
    let n = trace.len();
    let mut rows: Vec<Row> = Vec::new();
    let mut claims: Vec<MemoryClaim> = Vec::new();
    let mut mops: u64 = 0;
    let mut writes: u64 = 0;
    let mut i: usize = 0;
    proof {
        assert(trace@.take(0) =~= Seq::<EventTableEntryWithMemoryInfo>::empty());
    }
    while i < n
        invariant
            config.wf(),
            i <= n,
            n == trace@.len() <= 0xFFFFFFFF,
            rows@.len() == i,
            forall|k: int| 0 <= k < i ==> row_ok(*config, (#[trigger] rows@[k])@),
            claims@ == trace_claims(trace@.take(i as int)),
            mops == trace_mops(trace@.take(i as int)),
            writes == trace_writes(trace@.take(i as int)),
            mops <= 2 * i,
            writes <= 2 * i,
            forall|k: int| 0 <= k < i ==> step_valid(#[trigger] trace@[k]),
            i > 0 ==> trace@[0].eentry.eid >= 1,
            forall|k: int|
                0 < k < i ==> (#[trigger] trace@[k]).eentry.eid > trace@[k - 1].eentry.eid,
            forall|k: int|
                0 < k < i ==> (#[trigger] trace@[k]).eentry.sp == trace@[k - 1].eentry.sp
                    + step_sp_delta(trace@[k - 1]),
        decreases n - i,
    {
        let entry = &trace[i];
        // event order and stack pointer continuity
        if i == 0 {
            if entry.eentry.eid < 1 {
                return Err(TraceError::NonMonotonicEid);
            }
        } else {
            let prev = &trace[i - 1];
            if entry.eentry.eid <= prev.eentry.eid {
                return Err(TraceError::NonMonotonicEid);
            }
            let prev_delta: u32 = match &prev.eentry.step_info {
                StepInfo::SetLocal { .. } => 1,
                StepInfo::Store { .. } => 2,
            };
            if !(prev.eentry.sp as u64 + prev_delta as u64 == entry.eentry.sp as u64) {
                return Err(TraceError::StackPointerMismatch);
            }
        }
        let mut row = Row::new_zero(config.kinds.len());
        // shared context cells
        config.common.enabled_cell.assign(&mut row, true);
        config.common.eid_cell.assign(&mut row, entry.eentry.eid);
        config.common.sp_cell.assign(&mut row, entry.eentry.sp);
        config.common.mpages_cell.assign(&mut row, entry.eentry.allocated_memory_pages);
        let step_mops_now: u64;
        let step_writes_now: u64;
        match &entry.eentry.step_info {
            StepInfo::SetLocal { vtype, depth, .. } => {
                config.common.sel_local_set_cell.assign(&mut row, true);
                config.common.sel_store_cell.assign(&mut row, false);
                let enc = crate::encode::encode_local_set(*vtype == VarType::I32, *depth);
                config.common.opcode_cell.assign(&mut row, enc);
                match config.local_set.assign(&mut row, &mut claims, entry) {
                    Ok(()) => {},
                    Err(err) => {
                        return Err(TraceError::Assign(err));
                    },
                }
                step_mops_now = 1;
                step_writes_now = 1;
                proof {
                    lemma_row_ok_local_set(*config, row@, *entry);
                }
            },
            StepInfo::Store { vtype, store_size, offset, effective_address, .. } => {
                config.common.sel_local_set_cell.assign(&mut row, false);
                config.common.sel_store_cell.assign(&mut row, true);
                let enc = crate::encode::encode_store(
                    *vtype == VarType::I32,
                    store_size.byte_size(),
                    *offset,
                );
                config.common.opcode_cell.assign(&mut row, enc);
                match config.store.assign(&mut row, &mut claims, entry) {
                    Ok(()) => {},
                    Err(err) => {
                        return Err(TraceError::Assign(err));
                    },
                }
                let crossing = effective_address % 8 + store_size.byte_size() as u32 > 8;
                step_mops_now = if crossing {
                    2
                } else {
                    1
                };
                step_writes_now = if crossing {
                    2
                } else {
                    1
                };
                proof {
                    lemma_row_ok_store(*config, row@, *entry);
                }
            },
        }
        rows.push(row);
        mops = mops + step_mops_now;
        writes = writes + step_writes_now;
        proof {
            assert(trace@.take(i + 1).drop_last() =~= trace@.take(i as int));
            assert(trace@.take(i + 1).last() == trace@[i as int]);
            assert(claims@ =~= trace_claims(trace@.take(i + 1)));
        }
        i = i + 1;
    }
    proof {
        assert(trace@.take(n as int) =~= trace@);
        lemma_trace_claims_window_wf(trace@);
    }
    Ok(AssignedEventTable { rows, claims, mops, memory_writing_ops: writes })
}

} // verus!
