//! Canonical field encoding of an opcode's numeric identity and its static
//! operand bits, used by the table-selection identity.

use vstd::prelude::*;

verus! {

/// Weight of the instruction-class code inside the opcode encoding (`2^96`).
pub const OPCODE_CLASS_BASE: u128 = 0x1000000000000000000000000;

/// Weight of the first static operand bit (`2^80`).
pub const OPCODE_ARG0_BASE: u128 = 0x100000000000000000000;

/// Weight of the second static operand (`2^64`).
pub const OPCODE_ARG1_BASE: u128 = 0x10000000000000000;

/// The closed set of instruction classes arithmetized here.
#[derive(Clone, Copy, PartialEq, Eq, Structural, Debug)]
pub enum OpcodeClass {
    LocalSet,
    Store,
}

impl OpcodeClass {
    /// Numeric class code.
    pub open spec fn spec_code(self) -> u64 {
        match self {
            OpcodeClass::LocalSet => 1,
            OpcodeClass::Store => 2,
        }
    }

    /// Numeric class code.
    #[verifier::when_used_as_spec(spec_code)]
    pub fn code(self) -> (r: u64)
        ensures
            r == self.spec_code(),
    {
        match self {
            OpcodeClass::LocalSet => 1,
            OpcodeClass::Store => 2,
        }
    }
}

/// Encoding of one local-variable-store occurrence: class code, width flag,
/// and target depth.
pub open spec fn spec_encode_local_set(is_i32: bool, depth: u32) -> int {
    OpcodeClass::LocalSet.spec_code() * OPCODE_CLASS_BASE + (if is_i32 {
        1int
    } else {
        0int
    }) * OPCODE_ARG0_BASE + depth
}

/// Encoding of one local-variable-store occurrence.
pub fn encode_local_set(is_i32: bool, depth: u32) -> (r: u128)
    ensures
        r == spec_encode_local_set(is_i32, depth),
{
    OpcodeClass::LocalSet.code() as u128 * OPCODE_CLASS_BASE + (if is_i32 {
        1u128
    } else {
        0u128
    }) * OPCODE_ARG0_BASE + depth as u128
}

/// Size code of a heap store: 1, 2, 3, 4 for 1, 2, 4, 8 bytes.
pub open spec fn spec_store_size_code(len: u64) -> int {
    if len == 8 {
        4
    } else if len == 4 {
        3
    } else if len == 2 {
        2
    } else {
        1
    }
}

/// Encoding of one heap-store occurrence: class code, width flag, size code,
/// and static store offset.
pub open spec fn spec_encode_store(is_i32: bool, len: u64, offset: u32) -> int {
    OpcodeClass::Store.spec_code() * OPCODE_CLASS_BASE + (if is_i32 {
        1int
    } else {
        0int
    }) * OPCODE_ARG0_BASE + spec_store_size_code(len) * OPCODE_ARG1_BASE + offset
}

/// Encoding of one heap-store occurrence.
pub fn encode_store(is_i32: bool, len: u64, offset: u32) -> (r: u128)
    ensures
        r == spec_encode_store(is_i32, len, offset),
{
    let size_code: u128 = if len == 8 {
        4
    } else if len == 4 {
        3
    } else if len == 2 {
        2
    } else {
        1
    };
    OpcodeClass::Store.code() as u128 * OPCODE_CLASS_BASE + (if is_i32 {
        1u128
    } else {
        0u128
    }) * OPCODE_ARG0_BASE + size_code * OPCODE_ARG1_BASE + offset as u128
}

} // verus!
