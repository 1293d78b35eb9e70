//! Step records: one VM instruction occurrence as supplied by the interpreter,
//! together with the event-id windows of its memory accesses.

use vstd::prelude::*;

verus! {

/// Machine value width of a stack slot.
#[derive(Clone, Copy, PartialEq, Eq, Structural)]
pub enum VarType {
    I32,
    I64,
}

/// Width in bytes of a heap store.
#[derive(Clone, Copy, PartialEq, Eq, Structural)]
pub enum MemoryWriteSize {
    U8,
    U16,
    U32,
    U64,
}

impl MemoryWriteSize {
    /// Number of bytes written.
    pub open spec fn spec_byte_size(self) -> u64 {
        match self {
            MemoryWriteSize::U8 => 1,
            MemoryWriteSize::U16 => 2,
            MemoryWriteSize::U32 => 4,
            MemoryWriteSize::U64 => 8,
        }
    }

    /// Number of bytes written.
    #[verifier::when_used_as_spec(spec_byte_size)]
    pub fn byte_size(self) -> (r: u64)
        ensures
            r == self.spec_byte_size(),
    {
        match self {
            MemoryWriteSize::U8 => 1,
            MemoryWriteSize::U16 => 2,
            MemoryWriteSize::U32 => 4,
            MemoryWriteSize::U64 => 8,
        }
    }
}

/// Opcode-specific payload of one step.
#[derive(Clone, Copy, PartialEq, Eq, Structural)]
pub enum StepInfo {
    /// Store the value read from the top of the stack into a deeper slot.
    SetLocal { vtype: VarType, depth: u32, value: u64 },
    /// Store a 1/2/4/8-byte value at a byte-addressable heap address,
    /// possibly crossing an 8-byte block boundary. The pre/post block values
    /// record the raw 8-byte blocks before and after the write; when the
    /// access does not cross, the second pair is zero.
    Store {
        vtype: VarType,
        store_size: MemoryWriteSize,
        offset: u32,
        raw_address: u32,
        effective_address: u32,
        pre_block_value1: u64,
        updated_block_value1: u64,
        pre_block_value2: u64,
        updated_block_value2: u64,
        value: u64,
    },
}

/// One VM step: its position in the trace, the machine state before the step,
/// and the decoded payload.
#[derive(Clone, Copy, PartialEq, Eq, Structural)]
pub struct EventTableEntry {
    /// Strictly increasing event id; the temporal key for memory ordering.
    pub eid: u32,
    /// Stack pointer before the step.
    pub sp: u32,
    /// Allocated memory pages before the step.
    pub allocated_memory_pages: u32,
    pub step_info: StepInfo,
}

/// Event-id window of one memory access: the write producing the observed
/// value happened at `start_eid`, the next access to the same address at
/// `end_eid`.
#[derive(Clone, Copy, PartialEq, Eq, Structural)]
pub struct MemoryRwEntry {
    pub start_eid: u32,
    pub end_eid: u32,
}

/// A step record together with the windows of its memory accesses, in the
/// order the opcode issues its claims.
pub struct EventTableEntryWithMemoryInfo {
    pub eentry: EventTableEntry,
    pub memory_rw_entries: Vec<MemoryRwEntry>,
}

} // verus!
