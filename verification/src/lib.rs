//! Arithmetization of a stack-machine execution trace into polynomial
//! identities over typed witness cells, with byte-exact memory consistency
//! claims.
//!
//! The table is built in two phases. During configuration, each opcode kind
//! allocates strongly-typed cells from the shared arena (`cell`), registers
//! named identities gated by its selector (`expr`), and sets up its memory
//! claim handles (`lookup`). During assignment, the driver (`etable`)
//! dispatches every step record (`step`) to its configuration
//! (`op_local_set`, `op_store`), fills one row per step, and collects the
//! memory claims whose canonical ordering is checked for read-after-write
//! consistency (`mtable`).

use vstd::prelude::*;

pub mod arith;
pub mod cell;
pub mod context;
pub mod encode;
pub mod err;
pub mod image;
pub mod etable;
pub mod expr;
pub mod host_call;
pub mod op_local_set;
pub mod op_store;
pub mod lookup;
pub mod mtable;
pub mod step;

verus! {

/// Number of rows a foreign table may occupy in a table of `2^k` rows.
///
/// Half of the rows are reserved for the event table, the other half is
/// available to foreign tables.
pub fn foreign_table_enable_lines(k: u32) -> (r: usize)
    requires
        1 <= k <= 31,
    ensures
        r == vstd::arithmetic::power2::pow2((k - 1) as nat),
{
    proof {
        vstd::arithmetic::power2::lemma2_to64();
    }
    let mut r: usize = 1;
    let mut i: u32 = 0;
    while i < k - 1
        invariant
            i <= k - 1 <= 30,
            r == vstd::arithmetic::power2::pow2(i as nat),
            r <= usize::MAX / 2,
        decreases k - 1 - i,
    {
        proof {
            vstd::arithmetic::power2::lemma_pow2_unfold((i + 1) as nat);
            vstd::arithmetic::power2::lemma2_to64();
            vstd::arithmetic::power2::lemma_pow2_strictly_increases((i + 1) as nat, 31);
        }
        r = r * 2;
        i = i + 1;
    }
    r
}

} // verus!
