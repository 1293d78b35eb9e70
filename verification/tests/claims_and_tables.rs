// Tests of the memory-consistency chain, the opcode encoding, the auxiliary
// tables, and the image digest check.

use zkwasm_arith::context::AssignedContextColumns;
use zkwasm_arith::context::ContextContHelperTableChip;
use zkwasm_arith::context::ContextContHelperTableConfig;
use zkwasm_arith::encode::encode_local_set;
use zkwasm_arith::encode::encode_store;
use zkwasm_arith::err::Error;
use zkwasm_arith::err::PreCheckErr;
use zkwasm_arith::etable::assign_event_table;
use zkwasm_arith::etable::configure_event_table;
use zkwasm_arith::foreign_table_enable_lines;
use zkwasm_arith::host_call::ExternalHostCallChip;
use zkwasm_arith::host_call::ExternalHostCallEntry;
use zkwasm_arith::host_call::ExternalHostCallTable;
use zkwasm_arith::host_call::ExternalHostCallTableConfig;
use zkwasm_arith::image::image_consistent_check;
use zkwasm_arith::mtable::LocationType;
use zkwasm_arith::mtable::MemoryClaim;
use zkwasm_arith::mtable::check_claims_chain;
use zkwasm_arith::mtable::sort_claims;
use zkwasm_arith::step::EventTableEntry;
use zkwasm_arith::step::EventTableEntryWithMemoryInfo;
use zkwasm_arith::step::MemoryRwEntry;
use zkwasm_arith::step::MemoryWriteSize;
use zkwasm_arith::step::StepInfo;
use zkwasm_arith::step::VarType;

fn claim(
    eid: u32,
    start: u32,
    end: u32,
    location: LocationType,
    address: u32,
    value: u64,
    is_write: bool,
) -> MemoryClaim {
    MemoryClaim {
        eid,
        start_eid: start,
        end_eid: end,
        location,
        address,
        is_narrow: false,
        value,
        is_write,
    }
}

#[test]
fn chain_accepts_write_then_reads() {
    // write at eid 2, reads at eids 5 and 7, superseding write at eid 9
    let claims = vec![
        claim(2, 2, 5, LocationType::Heap, 4, 11, true),
        claim(5, 2, 7, LocationType::Heap, 4, 11, false),
        claim(7, 2, 9, LocationType::Heap, 4, 11, false),
        claim(9, 9, 20, LocationType::Heap, 4, 12, true),
    ];
    assert!(check_claims_chain(&claims));
}

#[test]
fn chain_accepts_initial_read_of_zero() {
    let claims = vec![claim(3, 0, 10, LocationType::Stack, 7, 0, false)];
    assert!(check_claims_chain(&claims));
}

#[test]
fn chain_rejects_initial_read_of_nonzero() {
    let claims = vec![claim(3, 0, 10, LocationType::Stack, 7, 5, false)];
    assert!(!check_claims_chain(&claims));
}

#[test]
fn chain_rejects_read_of_stale_value() {
    let claims = vec![
        claim(2, 2, 5, LocationType::Heap, 4, 11, true),
        claim(5, 2, 9, LocationType::Heap, 4, 999, false),
    ];
    assert!(!check_claims_chain(&claims));
}

#[test]
fn chain_rejects_gap_between_windows() {
    // the second write's window start does not meet the first window's end
    let claims = vec![
        claim(2, 2, 5, LocationType::Heap, 4, 11, true),
        claim(9, 9, 20, LocationType::Heap, 4, 12, true),
    ];
    assert!(!check_claims_chain(&claims));
}

#[test]
fn sort_orders_by_slot_then_window() {
    let a = claim(2, 2, 5, LocationType::Heap, 4, 11, true);
    let b = claim(5, 2, 7, LocationType::Heap, 4, 11, false);
    let c = claim(1, 1, 9, LocationType::Stack, 9, 3, true);
    let d = claim(7, 7, 9, LocationType::Heap, 3, 8, true);
    let sorted = sort_claims(&vec![b, d, a, c]);
    // stack before heap, heap by address, within a slot writes before reads
    assert_eq!(sorted[0], c);
    assert_eq!(sorted[1], d);
    assert_eq!(sorted[2], a);
    assert_eq!(sorted[3], b);
}

#[test]
fn slots_never_alias_across_locations() {
    // claims of different address spaces keep their order even at the
    // extremes of the 32-bit address range: every stack claim sorts before
    // every heap claim
    let stack_far = claim(2, 2, 50, LocationType::Stack, u32::MAX, 7, true);
    let heap_zero = claim(1, 1, 9, LocationType::Heap, 0, 11, true);
    let sorted = sort_claims(&vec![heap_zero, stack_far]);
    assert_eq!(sorted[0], stack_far);
    assert_eq!(sorted[1], heap_zero);
}

#[test]
fn interleaved_slot_cannot_hide_a_stale_read() {
    // a write to a large stack address must not break up the heap slot's
    // run in the canonical order: the read observing the superseded window
    // [1,9) past the write at eid 3 is still detected after sorting
    let claims = vec![
        claim(1, 1, 9, LocationType::Heap, 0, 11, true),
        claim(9, 1, 9, LocationType::Heap, 0, 11, false),
        claim(2, 2, 50, LocationType::Stack, 0x1000000, 7, true),
        claim(3, 3, 50, LocationType::Heap, 0, 12, true),
    ];
    let sorted = sort_claims(&claims);
    assert!(!check_claims_chain(&sorted));
}

#[test]
fn driver_claims_form_consistent_chain() {
    // a small trace whose memory accesses only ever observe values written
    // earlier (or the canonical initial zero) sorts into a valid chain
    let c = configure_event_table(256).expect("fits");
    let s1 = EventTableEntryWithMemoryInfo {
        eentry: EventTableEntry {
            eid: 1,
            sp: 10,
            allocated_memory_pages: 1,
            step_info: StepInfo::SetLocal { vtype: VarType::I32, depth: 3, value: 0 },
        },
        memory_rw_entries: vec![
            MemoryRwEntry { start_eid: 0, end_eid: 100 },
            MemoryRwEntry { start_eid: 1, end_eid: 100 },
        ],
    };
    let s2 = EventTableEntryWithMemoryInfo {
        eentry: EventTableEntry {
            eid: 2,
            sp: 11,
            allocated_memory_pages: 1,
            step_info: StepInfo::Store {
                vtype: VarType::I64,
                store_size: MemoryWriteSize::U64,
                offset: 0,
                raw_address: 0,
                effective_address: 0,
                pre_block_value1: 0,
                updated_block_value1: 0,
                pre_block_value2: 0,
                updated_block_value2: 0,
                value: 0,
            },
        },
        memory_rw_entries: vec![
            MemoryRwEntry { start_eid: 0, end_eid: 100 },
            MemoryRwEntry { start_eid: 0, end_eid: 100 },
            MemoryRwEntry { start_eid: 0, end_eid: 2 },
            MemoryRwEntry { start_eid: 2, end_eid: 100 },
        ],
    };
    let assigned = assign_event_table(&c, &vec![s1, s2]).expect("the trace is well formed");
    assert_eq!(assigned.claims.len(), 6);
    let sorted = sort_claims(&assigned.claims);
    assert!(check_claims_chain(&sorted));
    assert!(assigned.check_memory_consistency());
}

#[test]
fn tampered_claims_fail_consistency() {
    let c = configure_event_table(256).expect("fits");
    let s1 = EventTableEntryWithMemoryInfo {
        eentry: EventTableEntry {
            eid: 1,
            sp: 10,
            allocated_memory_pages: 1,
            step_info: StepInfo::SetLocal { vtype: VarType::I32, depth: 3, value: 5 },
        },
        memory_rw_entries: vec![
            MemoryRwEntry { start_eid: 0, end_eid: 100 },
            MemoryRwEntry { start_eid: 1, end_eid: 100 },
        ],
    };
    // the read at stack slot 11 claims the initial value is 5, not 0
    let assigned = assign_event_table(&c, &vec![s1]).expect("the trace is well formed");
    assert!(!assigned.check_memory_consistency());
}

#[test]
fn opcode_encodings_are_exact() {
    assert_eq!(
        encode_local_set(true, 3),
        (1u128 << 96) + (1u128 << 80) + 3
    );
    assert_eq!(encode_local_set(false, 0), 1u128 << 96);
    assert_eq!(
        encode_store(true, 4, 0x1000),
        2 * (1u128 << 96) + (1u128 << 80) + 3 * (1u128 << 64) + 0x1000
    );
    assert_eq!(
        encode_store(false, 8, 0),
        2 * (1u128 << 96) + 4 * (1u128 << 64)
    );
    assert_eq!(
        encode_store(false, 1, 7),
        2 * (1u128 << 96) + 1 * (1u128 << 64) + 7
    );
}

#[test]
fn foreign_table_lines_are_half_the_table() {
    assert_eq!(foreign_table_enable_lines(1), 1);
    assert_eq!(foreign_table_enable_lines(18), 1 << 17);
    assert_eq!(foreign_table_enable_lines(22), 1 << 21);
}

#[test]
fn image_check_against_recorded_digest() {
    // digest of the empty image
    let empty_digest = b"d41d8cd98f00b204e9800998ecf8427e".to_vec();
    assert!(image_consistent_check(&Some(empty_digest), &Vec::new()));
    // digest of "abc"
    let abc = b"abc".to_vec();
    let abc_digest = b"900150983cd24fb0d6963f7d28e17f72".to_vec();
    assert!(image_consistent_check(&Some(abc_digest), &abc));
    // the digest is not the image itself
    assert!(!image_consistent_check(&Some(b"abc".to_vec()), &abc));
    // a changed image no longer matches
    let abd = b"abd".to_vec();
    let abc_digest2 = b"900150983cd24fb0d6963f7d28e17f72".to_vec();
    assert!(!image_consistent_check(&Some(abc_digest2), &abd));
    // with no recorded digest the check passes
    assert!(image_consistent_check(&None, &abc));
}

#[test]
fn host_call_table_columns() {
    let table = ExternalHostCallTable {
        entries: vec![
            ExternalHostCallEntry { op: 1, value: 42 },
            ExternalHostCallEntry { op: 2, value: 43 },
        ],
    };
    let chip = ExternalHostCallChip::new(ExternalHostCallTableConfig {}, 5);
    let cols = chip.assign(&table).expect("two calls fit five rows");
    assert_eq!(cols.idx, vec![0, 1, 2, 3, 4]);
    assert_eq!(cols.opcode, vec![0, 1, 2]);
    assert_eq!(cols.operand, vec![0, 42, 43]);
}

#[test]
fn host_call_table_overflow() {
    let table = ExternalHostCallTable {
        entries: vec![
            ExternalHostCallEntry { op: 1, value: 42 },
            ExternalHostCallEntry { op: 2, value: 43 },
        ],
    };
    let chip = ExternalHostCallChip::new(ExternalHostCallTableConfig {}, 2);
    assert!(chip.assign(&table).is_err());
}

#[test]
fn context_helper_columns_start_at_row_one() {
    let chip = ContextContHelperTableChip::new(ContextContHelperTableConfig {});
    let cols: AssignedContextColumns = chip.assign(&vec![7, 8], &vec![9]);
    assert_eq!(cols.input, vec![0, 7, 8]);
    assert_eq!(cols.output, vec![0, 9]);
}

#[test]
fn loader_error_messages() {
    assert!(Error::PreCheck(PreCheckErr::ZkmainNotExists).message().len() > 0);
    assert!(
        Error::PreCheck(PreCheckErr::ZkmainIsNotFunction)
            .message()
            .contains("ZkmainIsNotFunction")
    );
}
