// Row-level tests of the two opcode configurations: the configure → assign →
// evaluate-all-identities round trip, the concrete store and local-set
// scenarios, and the boundary cases of the byte-addressable store.

use zkwasm_arith::cell::CellKind;
use zkwasm_arith::cell::Row;
use zkwasm_arith::err::AssignError;
use zkwasm_arith::err::TraceError;
use zkwasm_arith::etable::EventTableConfig;
use zkwasm_arith::etable::assign_event_table;
use zkwasm_arith::etable::configure_event_table;
use zkwasm_arith::expr::Expr;
use zkwasm_arith::mtable::LocationType;
use zkwasm_arith::step::EventTableEntry;
use zkwasm_arith::step::EventTableEntryWithMemoryInfo;
use zkwasm_arith::step::MemoryRwEntry;
use zkwasm_arith::step::MemoryWriteSize;
use zkwasm_arith::step::StepInfo;
use zkwasm_arith::step::VarType;

fn eval(e: &Expr, row: &[u128]) -> u128 {
    match e {
        Expr::Const(c) => *c,
        Expr::Cell(i) => {
            if *i < row.len() {
                row[*i]
            } else {
                0
            }
        }
        Expr::Add(a, b) => eval(a, row).wrapping_add(eval(b, row)),
        Expr::Sub(a, b) => eval(a, row).wrapping_sub(eval(b, row)),
        Expr::Mul(a, b) => eval(a, row).wrapping_mul(eval(b, row)),
    }
}

fn all_identities_zero(config: &EventTableConfig, row: &Row) -> bool {
    for c in config.constraints.iter() {
        let gate = eval(&c.gate, &row.vals);
        for e in c.exprs.iter() {
            if gate.wrapping_mul(eval(e, &row.vals)) != 0 {
                return false;
            }
        }
    }
    true
}

fn rw(entries: Vec<(u32, u32)>) -> Vec<MemoryRwEntry> {
    entries
        .into_iter()
        .map(|(s, e)| MemoryRwEntry { start_eid: s, end_eid: e })
        .collect()
}

fn local_set_entry(
    eid: u32,
    sp: u32,
    pages: u32,
    vtype: VarType,
    depth: u32,
    value: u64,
    windows: Vec<(u32, u32)>,
) -> EventTableEntryWithMemoryInfo {
    EventTableEntryWithMemoryInfo {
        eentry: EventTableEntry {
            eid,
            sp,
            allocated_memory_pages: pages,
            step_info: StepInfo::SetLocal { vtype, depth, value },
        },
        memory_rw_entries: rw(windows),
    }
}

fn byte_size(size: MemoryWriteSize) -> u32 {
    match size {
        MemoryWriteSize::U8 => 1,
        MemoryWriteSize::U16 => 2,
        MemoryWriteSize::U32 => 4,
        MemoryWriteSize::U64 => 8,
    }
}

// Reference byte-buffer patch of the two blocks at the effective address.
fn patched_blocks(pre1: u64, pre2: u64, ea: u32, len: u32, value: u64) -> (u64, u64) {
    let mut bytes = [0u8; 16];
    bytes[..8].copy_from_slice(&pre1.to_le_bytes());
    bytes[8..].copy_from_slice(&pre2.to_le_bytes());
    let inner = (ea % 8) as usize;
    let vb = value.to_le_bytes();
    for k in 0..(len as usize) {
        bytes[inner + k] = vb[k];
    }
    let mut b1 = [0u8; 8];
    let mut b2 = [0u8; 8];
    b1.copy_from_slice(&bytes[..8]);
    b2.copy_from_slice(&bytes[8..]);
    (u64::from_le_bytes(b1), u64::from_le_bytes(b2))
}

fn store_entry(
    eid: u32,
    sp: u32,
    pages: u32,
    vtype: VarType,
    size: MemoryWriteSize,
    offset: u32,
    raw_address: u32,
    pre1: u64,
    pre2: u64,
    value: u64,
    windows: Vec<(u32, u32)>,
) -> EventTableEntryWithMemoryInfo {
    let ea = raw_address + offset;
    let (up1, up2) = patched_blocks(pre1, pre2, ea, byte_size(size), value);
    EventTableEntryWithMemoryInfo {
        eentry: EventTableEntry {
            eid,
            sp,
            allocated_memory_pages: pages,
            step_info: StepInfo::Store {
                vtype,
                store_size: size,
                offset,
                raw_address,
                effective_address: ea,
                pre_block_value1: pre1,
                updated_block_value1: up1,
                pre_block_value2: pre2,
                updated_block_value2: up2,
                value,
            },
        },
        memory_rw_entries: rw(windows),
    }
}

fn config() -> EventTableConfig {
    configure_event_table(256).expect("the table must fit 256 cells")
}

#[test]
fn configure_fits_capacity() {
    assert!(configure_event_table(105).is_ok());
    assert!(configure_event_table(104).is_err());
}

#[test]
fn local_set_scenario_depth_three() {
    // A local-variable store of the 4-byte value 0xdeadbeef at depth 3 with
    // sp = 10 claims a stack read at 11 and a stack write at 14, both with
    // the narrow width flag, and raises the stack pointer by one.
    let c = config();
    let entry = local_set_entry(5, 10, 1, VarType::I32, 3, 0xdeadbeef, vec![(2, 9), (5, 9)]);
    let mut row = Row::new_zero(c.kinds.len());
    let mut claims = Vec::new();
    c.local_set
        .assign(&mut row, &mut claims, &entry)
        .expect("a well formed local-set step must assign");
    assert_eq!(claims.len(), 2);
    assert_eq!(claims[0].address, 11);
    assert_eq!(claims[0].value, 0xdeadbeef);
    assert!(claims[0].is_narrow);
    assert!(!claims[0].is_write);
    assert_eq!(claims[0].location, LocationType::Stack);
    assert_eq!(claims[0].start_eid, 2);
    assert_eq!(claims[0].end_eid, 9);
    assert_eq!(claims[1].address, 14);
    assert_eq!(claims[1].value, 0xdeadbeef);
    assert!(claims[1].is_narrow);
    assert!(claims[1].is_write);
    assert_eq!(claims[1].start_eid, 5);
    let sp_diff = c.local_set.sp_diff().expect("a delta is defined");
    assert_eq!(eval(&sp_diff, &row.vals), 1);
}

#[test]
fn store_scenario_cross_block() {
    // A 2-byte store at effective address 15 (block 1, in-block position 7)
    // must set the cross-block indicator, issue four heap claims (read and
    // write on blocks 1 and 2), and report two memory writes.
    let c = config();
    let entry = store_entry(
        7,
        10,
        1,
        VarType::I32,
        MemoryWriteSize::U16,
        5,
        10,
        0x1111111111111111,
        0x2222222222222222,
        0xabcd,
        vec![(1, 9), (2, 9), (3, 7), (7, 9), (4, 7), (7, 9)],
    );
    let mut row = Row::new_zero(c.kinds.len());
    let mut claims = Vec::new();
    c.store
        .assign(&mut row, &mut claims, &entry)
        .expect("a well formed store step must assign");
    assert_eq!(claims.len(), 6);
    let heap: Vec<_> = claims
        .iter()
        .filter(|cl| cl.location == LocationType::Heap)
        .collect();
    assert_eq!(heap.len(), 4);
    assert_eq!((heap[0].address, heap[0].is_write), (1, false));
    assert_eq!((heap[1].address, heap[1].is_write), (1, true));
    assert_eq!((heap[2].address, heap[2].is_write), (2, false));
    assert_eq!((heap[3].address, heap[3].is_write), (2, true));
    assert_eq!(heap[0].value, 0x1111111111111111);
    // low byte of the stored value replaces the top byte of block 1
    assert_eq!(heap[1].value, 0xcd11111111111111);
    // high byte replaces the bottom byte of block 2
    assert_eq!(heap[3].value, 0x22222222222222ab);
    assert_eq!(c.store.memory_writing_ops(&entry.eentry), 2);
    // cross-block indicator is the cell right after the three position bits
    let is_cross_cell = c.store.first_cell + 10;
    assert_eq!(row.vals[is_cross_cell], 1);
    let mops = c.store.mops().expect("a count is defined");
    assert_eq!(eval(&mops, &row.vals), 2);
}

#[test]
fn store_rows_satisfy_all_identities() {
    // configure → assign → evaluate-all-identities == 0, on an assortment of
    // widths, positions and values.
    let c = config();
    let cases = vec![
        (MemoryWriteSize::U8, 0, 0x40, 0xff),
        (MemoryWriteSize::U8, 7, 0x10, 0x7f),
        (MemoryWriteSize::U16, 7, 0x08, 0xabcd),
        (MemoryWriteSize::U16, 3, 0x18, 0xffff),
        (MemoryWriteSize::U32, 5, 0x20, 0xdeadbeef),
        (MemoryWriteSize::U32, 4, 0x28, 0x01020304),
        (MemoryWriteSize::U64, 0, 0x30, 0x1122334455667788),
        (MemoryWriteSize::U64, 3, 0x38, 0xffffffffffffffff),
    ];
    for (size, inner, base, value) in cases {
        let ea: u32 = base + inner;
        let crosses = inner + byte_size(size) > 8;
        let pre2: u64 = if crosses { 0xf0f0f0f0f0f0f0f0 } else { 0 };
        let entry = store_entry(
            9,
            10,
            2,
            VarType::I64,
            size,
            3,
            ea - 3,
            0x8877665544332211,
            pre2,
            value,
            vec![(1, 19), (2, 19), (3, 9), (9, 19), (4, 9), (9, 19)],
        );
        let trace = vec![entry];
        let assigned = assign_event_table(&c, &trace).expect("the trace is well formed");
        assert_eq!(assigned.rows.len(), 1);
        assert!(all_identities_zero(&c, &assigned.rows[0]));
        // every cell respects its range discipline
        for (i, v) in assigned.rows[0].vals.iter().enumerate() {
            assert!((*v as i128) < kind_bound_i128(&c, i));
        }
    }
}

fn kind_bound_i128(c: &EventTableConfig, i: usize) -> i128 {
    match c.kinds[i] {
        CellKind::Bit => 2,
        CellKind::U8 => 1i128 << 8,
        CellKind::U16 => 1i128 << 16,
        CellKind::U32 => 1i128 << 32,
        CellKind::U64 => 1i128 << 64,
        CellKind::CommonRange => 1i128 << 32,
        CellKind::Unlimited => i128::MAX,
    }
}

#[test]
fn local_set_rows_satisfy_all_identities() {
    let c = config();
    let entry = local_set_entry(3, 100, 1, VarType::I64, 7, u64::MAX, vec![(1, 8), (3, 8)]);
    let trace = vec![entry];
    let assigned = assign_event_table(&c, &trace).expect("the trace is well formed");
    assert!(all_identities_zero(&c, &assigned.rows[0]));
}

#[test]
fn store_full_block_no_cross() {
    // width 8 at in-block position 0: no crossing, the block is replaced
    // exactly.
    let c = config();
    let entry = store_entry(
        2,
        10,
        1,
        VarType::I64,
        MemoryWriteSize::U64,
        0,
        8,
        0x0102030405060708,
        0,
        0xcafebabecafebabe,
        vec![(1, 9), (1, 9), (1, 2), (2, 9)],
    );
    let mut row = Row::new_zero(c.kinds.len());
    let mut claims = Vec::new();
    c.store.assign(&mut row, &mut claims, &entry).expect("must assign");
    assert_eq!(claims.len(), 4);
    assert_eq!(c.store.memory_writing_ops(&entry.eentry), 1);
    let heap_write = claims.iter().find(|cl| cl.is_write).unwrap();
    assert_eq!(heap_write.value, 0xcafebabecafebabe);
    assert_eq!(row.vals[c.store.first_cell + 10], 0);
}

#[test]
fn store_one_byte_at_position_seven_stays_in_block() {
    // width 1 at in-block position 7 fills the block exactly to its
    // boundary: the crossing condition is position + width > 8, so this
    // access stays within one block.
    let c = config();
    let entry = store_entry(
        2,
        10,
        1,
        VarType::I32,
        MemoryWriteSize::U8,
        7,
        8,
        0,
        0,
        0x5a,
        vec![(1, 9), (1, 9), (1, 2), (2, 9)],
    );
    let mut row = Row::new_zero(c.kinds.len());
    let mut claims = Vec::new();
    c.store.assign(&mut row, &mut claims, &entry).expect("must assign");
    assert_eq!(claims.len(), 4);
    assert_eq!(row.vals[c.store.first_cell + 10], 0);
    assert_eq!(c.store.memory_writing_ops(&entry.eentry), 1);
    let first_write = claims.iter().find(|cl| cl.is_write).unwrap();
    assert_eq!(first_write.value, 0x5a00000000000000);
}

#[test]
fn store_two_bytes_at_position_seven_crosses() {
    // the smallest genuinely crossing access: position 7 plus width 2
    let c = config();
    let entry = store_entry(
        2,
        10,
        1,
        VarType::I32,
        MemoryWriteSize::U16,
        7,
        8,
        0,
        0,
        0xbeef,
        vec![(1, 9), (1, 9), (1, 2), (2, 9), (1, 2), (2, 9)],
    );
    let mut row = Row::new_zero(c.kinds.len());
    let mut claims = Vec::new();
    c.store.assign(&mut row, &mut claims, &entry).expect("must assign");
    assert_eq!(claims.len(), 6);
    assert_eq!(row.vals[c.store.first_cell + 10], 1);
    assert_eq!(c.store.memory_writing_ops(&entry.eentry), 2);
}

#[test]
fn store_block_bound_checks() {
    // one page holds 8192 blocks; the last block passes the bound check, the
    // block at the bound fails it.
    let c = config();
    let last_ok = store_entry(
        2,
        10,
        1,
        VarType::I32,
        MemoryWriteSize::U8,
        0,
        8191 * 8,
        0,
        0,
        1,
        vec![(1, 9), (1, 9), (1, 2), (2, 9)],
    );
    let mut row = Row::new_zero(c.kinds.len());
    let mut claims = Vec::new();
    assert!(c.store.assign(&mut row, &mut claims, &last_ok).is_ok());

    let out_of_bounds = store_entry(
        2,
        10,
        1,
        VarType::I32,
        MemoryWriteSize::U8,
        0,
        8192 * 8,
        0,
        0,
        1,
        vec![(1, 9), (1, 9), (1, 2), (2, 9)],
    );
    let mut row2 = Row::new_zero(c.kinds.len());
    let mut claims2 = Vec::new();
    assert_eq!(
        c.store.assign(&mut row2, &mut claims2, &out_of_bounds),
        Err(AssignError::AddressOutOfBounds)
    );
    assert!(claims2.is_empty());

    // crossing out of the last block also fails
    let cross_out = store_entry(
        2,
        10,
        1,
        VarType::I32,
        MemoryWriteSize::U16,
        0,
        8191 * 8 + 7,
        0,
        0,
        1,
        vec![(1, 9), (1, 9), (1, 2), (2, 9), (1, 2), (2, 9)],
    );
    let mut row3 = Row::new_zero(c.kinds.len());
    let mut claims3 = Vec::new();
    assert_eq!(
        c.store.assign(&mut row3, &mut claims3, &cross_out),
        Err(AssignError::AddressOutOfBounds)
    );
}

#[test]
fn store_rejects_inconsistent_payload() {
    let c = config();
    let mut entry = store_entry(
        2,
        10,
        1,
        VarType::I32,
        MemoryWriteSize::U8,
        0,
        8,
        0,
        0,
        1,
        vec![(1, 9), (1, 9), (1, 2), (2, 9)],
    );
    if let StepInfo::Store {
        ref mut updated_block_value1, ..
    } = entry.eentry.step_info
    {
        *updated_block_value1 ^= 0xff00;
    }
    let mut row = Row::new_zero(c.kinds.len());
    let mut claims = Vec::new();
    assert_eq!(
        c.store.assign(&mut row, &mut claims, &entry),
        Err(AssignError::InconsistentBlockValues)
    );
}

#[test]
fn assign_rejects_wrong_payload_shape() {
    let c = config();
    let entry = local_set_entry(5, 10, 1, VarType::I32, 3, 7, vec![(2, 9), (5, 9)]);
    let mut row = Row::new_zero(c.kinds.len());
    let mut claims = Vec::new();
    assert_eq!(
        c.store.assign(&mut row, &mut claims, &entry),
        Err(AssignError::UnexpectedStepShape)
    );
}

#[test]
fn driver_replays_stack_pointer() {
    // the accumulated deltas reproduce the recorded stack pointers
    let c = config();
    let s1 = local_set_entry(1, 10, 1, VarType::I32, 3, 0, vec![(0, 100), (1, 100)]);
    let s2 = local_set_entry(2, 11, 1, VarType::I64, 0, 0, vec![(0, 100), (2, 100)]);
    let s3 = store_entry(
        3,
        12,
        1,
        VarType::I64,
        MemoryWriteSize::U64,
        0,
        0,
        0,
        0,
        0,
        vec![(0, 100), (0, 100), (0, 3), (3, 100)],
    );
    let s4 = local_set_entry(4, 14, 1, VarType::I32, 1, 0, vec![(0, 100), (4, 100)]);
    let trace = vec![s1, s2, s3, s4];
    let assigned = assign_event_table(&c, &trace).expect("the trace is well formed");
    assert_eq!(assigned.rows.len(), 4);
    // deltas: +1, +1, +2 reproduce sp = 10, 11, 12, 14
    let mut sp: u32 = 10;
    let deltas = [1u32, 1, 2, 1];
    for (k, e) in trace.iter().enumerate() {
        assert_eq!(e.eentry.sp, sp);
        sp += deltas[k];
    }
    assert_eq!(assigned.mops, 4);
    assert_eq!(assigned.memory_writing_ops, 4);
}

#[test]
fn driver_rejects_broken_stack_pointer() {
    let c = config();
    let s1 = local_set_entry(1, 10, 1, VarType::I32, 3, 0, vec![(0, 100), (1, 100)]);
    let s2 = local_set_entry(2, 13, 1, VarType::I64, 0, 0, vec![(0, 100), (2, 100)]);
    let trace = vec![s1, s2];
    assert_eq!(
        assign_event_table(&c, &trace).err(),
        Some(TraceError::StackPointerMismatch)
    );
}

#[test]
fn driver_rejects_non_monotonic_eids() {
    let c = config();
    let s1 = local_set_entry(5, 10, 1, VarType::I32, 3, 0, vec![(0, 100), (5, 100)]);
    let s2 = local_set_entry(5, 11, 1, VarType::I64, 0, 0, vec![(0, 100), (5, 100)]);
    let trace = vec![s1, s2];
    assert_eq!(
        assign_event_table(&c, &trace).err(),
        Some(TraceError::NonMonotonicEid)
    );
    let s0 = local_set_entry(0, 10, 1, VarType::I32, 3, 0, vec![(0, 100), (0, 100)]);
    assert_eq!(
        assign_event_table(&c, &vec![s0]).err(),
        Some(TraceError::NonMonotonicEid)
    );
}

#[test]
fn store_post_blocks_match_reference_patch() {
    // re-deriving the post-write blocks from the per-row cells matches the
    // reference byte-buffer patch
    let c = config();
    let entry = store_entry(
        7,
        10,
        1,
        VarType::I64,
        MemoryWriteSize::U32,
        1,
        12,
        0x1234567890abcdef,
        0xfedcba0987654321,
        0xa5a5a5a5,
        vec![(1, 9), (2, 9), (3, 7), (7, 9), (4, 7), (7, 9)],
    );
    let mut row = Row::new_zero(c.kinds.len());
    let mut claims = Vec::new();
    c.store.assign(&mut row, &mut claims, &entry).expect("must assign");
    let b = c.store.first_cell;
    // unchanged + wrapped * 2^(8*inner) reassembles the patched double block
    let unchanged = row.vals[b + 82];
    let wrapped = row.vals[b + 41];
    let pos_modulus = row.vals[8];
    let new_lv = unchanged + wrapped * pos_modulus;
    let (up1, up2) = patched_blocks(0x1234567890abcdef, 0xfedcba0987654321, 13, 4, 0xa5a5a5a5);
    assert_eq!(new_lv, (up2 as u128) << 64 | up1 as u128);
}

#[test]
fn store_rejects_missing_memory_windows() {
    let c = config();
    let mut entry = store_entry(
        2,
        10,
        1,
        VarType::I32,
        MemoryWriteSize::U8,
        0,
        8,
        0,
        0,
        1,
        vec![(1, 9), (1, 9), (1, 2), (2, 9)],
    );
    entry.memory_rw_entries.truncate(3);
    let mut row = Row::new_zero(c.kinds.len());
    let mut claims = Vec::new();
    assert_eq!(
        c.store.assign(&mut row, &mut claims, &entry),
        Err(AssignError::MissingMemoryWindows)
    );
}

#[test]
fn store_rejects_inconsistent_effective_address() {
    let c = config();
    let mut entry = store_entry(
        2,
        10,
        1,
        VarType::I32,
        MemoryWriteSize::U8,
        0,
        8,
        0,
        0,
        1,
        vec![(1, 9), (1, 9), (1, 2), (2, 9)],
    );
    if let StepInfo::Store { ref mut raw_address, .. } = entry.eentry.step_info {
        *raw_address += 1;
    }
    let mut row = Row::new_zero(c.kinds.len());
    let mut claims = Vec::new();
    assert_eq!(
        c.store.assign(&mut row, &mut claims, &entry),
        Err(AssignError::InconsistentAddress)
    );
}

#[test]
fn store_rejects_oversized_page_count() {
    let c = config();
    let mut entry = store_entry(
        2,
        10,
        1,
        VarType::I32,
        MemoryWriteSize::U8,
        0,
        8,
        0,
        0,
        1,
        vec![(1, 9), (1, 9), (1, 2), (2, 9)],
    );
    entry.eentry.allocated_memory_pages = 65537;
    let mut row = Row::new_zero(c.kinds.len());
    let mut claims = Vec::new();
    assert_eq!(
        c.store.assign(&mut row, &mut claims, &entry),
        Err(AssignError::PageCountTooLarge)
    );
}

#[test]
fn local_set_rejects_stack_address_overflow() {
    let c = config();
    let entry = local_set_entry(5, u32::MAX - 1, 1, VarType::I32, 3, 7, vec![(2, 9), (5, 9)]);
    let mut row = Row::new_zero(c.kinds.len());
    let mut claims = Vec::new();
    assert_eq!(
        c.local_set.assign(&mut row, &mut claims, &entry),
        Err(AssignError::StackAddressOverflow)
    );
}

#[test]
fn local_set_rejects_disordered_windows() {
    // a read window that opens at the step's own eid violates the ordering
    let c = config();
    let entry = local_set_entry(5, 10, 1, VarType::I32, 3, 7, vec![(5, 9), (5, 9)]);
    let mut row = Row::new_zero(c.kinds.len());
    let mut claims = Vec::new();
    assert_eq!(
        c.local_set.assign(&mut row, &mut claims, &entry),
        Err(AssignError::InvalidMemoryWindow)
    );
}

#[test]
fn store_rejects_disordered_windows() {
    // a heap write window that closes at the step's own eid violates the
    // ordering (start_eid < end_eid must hold strictly)
    let c = config();
    let entry = store_entry(
        2,
        10,
        1,
        VarType::I32,
        MemoryWriteSize::U8,
        0,
        8,
        0,
        0,
        1,
        vec![(1, 9), (1, 9), (1, 2), (2, 2)],
    );
    let mut row = Row::new_zero(c.kinds.len());
    let mut claims = Vec::new();
    assert_eq!(
        c.store.assign(&mut row, &mut claims, &entry),
        Err(AssignError::InvalidMemoryWindow)
    );
}
