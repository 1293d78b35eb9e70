//! Memory-consistency claims: every opcode occurrence that touches memory
//! issues a claim `(eid, start_eid, end_eid, location, address, width flag,
//! value, read/write)`; sorting all claims of a trace by address and window
//! start must yield a chain in which every read observes the value of the
//! most recent prior write.

use vstd::prelude::*;
use vstd::relations::sorted_by;

verus! {

/// Address space of a memory access.
#[derive(Clone, Copy, PartialEq, Eq, Structural, Debug)]
pub enum LocationType {
    Stack,
    Heap,
}

impl LocationType {
    /// Field encoding of the location tag.
    pub open spec fn spec_code(self) -> u64 {
        match self {
            LocationType::Stack => 1,
            LocationType::Heap => 2,
        }
    }

    /// Field encoding of the location tag.
    #[verifier::when_used_as_spec(spec_code)]
    pub fn code(self) -> (r: u64)
        ensures
            r == self.spec_code(),
    {
        match self {
            LocationType::Stack => 1,
            LocationType::Heap => 2,
        }
    }
}

/// One memory-consistency claim.
#[derive(Clone, Copy, PartialEq, Eq, Structural, Debug)]
pub struct MemoryClaim {
    /// Event id of the step issuing the claim.
    pub eid: u32,
    /// Event id of the write that produced the observed value; equals `eid`
    /// for a write claim.
    pub start_eid: u32,
    /// Event id of the next access to the same address.
    pub end_eid: u32,
    pub location: LocationType,
    pub address: u32,
    /// True when the access carries the narrow (32-bit) width flag.
    pub is_narrow: bool,
    pub value: u64,
    pub is_write: bool,
}

/// Sort key: location, then address, then window start, then writes before
/// reads, then event id. Encoded into one integer so that the order is total
/// and transitive by construction; each field's weight lies above the whole
/// range of the fields below it (the location at `2^104`, above the full
/// 32-bit address range at `2^72`), so distinct slots never alias.
pub open spec fn claim_key(c: MemoryClaim) -> int {
    c.location.spec_code() * 0x100000000000000000000000000 + c.address * (0x100
        * 0x10000000000000000) + c.start_eid * 0x10000000000 + (if c.is_write {
        0int
    } else {
        1int
    }) * 0x100000000 + c.eid
}

/// Total order on claims used for the canonical chain.
pub open spec fn claim_le(a: MemoryClaim, b: MemoryClaim) -> bool {
    claim_key(a) <= claim_key(b)
}

/// Two claims touch the same cell of the same address space.
pub open spec fn same_slot(a: MemoryClaim, b: MemoryClaim) -> bool {
    a.location == b.location && a.address == b.address
}

/// Two claims observe the same write window of the same slot.
pub open spec fn same_window(a: MemoryClaim, b: MemoryClaim) -> bool {
    same_slot(a, b) && a.start_eid == b.start_eid
}

/// Exec comparison realizing `claim_le`.
pub fn claim_le_exec(a: &MemoryClaim, b: &MemoryClaim) -> (r: bool)
    ensures
        r == claim_le(*a, *b),
{
    let ka: u128 = (a.location.code() as u128) * 0x100000000000000000000000000 + (
    a.address as u128) * 0x1000000000000000000 + (a.start_eid as u128) * 0x10000000000 + (
    if a.is_write {
        0u128
    } else {
        1u128
    }) * 0x100000000 + (a.eid as u128);
    let kb: u128 = (b.location.code() as u128) * 0x100000000000000000000000000 + (
    b.address as u128) * 0x1000000000000000000 + (b.start_eid as u128) * 0x10000000000 + (
    if b.is_write {
        0u128
    } else {
        1u128
    }) * 0x100000000 + (b.eid as u128);
    ka <= kb
}

/// Whether a claim may legally open its run in the canonical chain: a write
/// opens a fresh window at its own event id, a read may only open a slot's
/// history if it observes the canonical initial value.
pub open spec fn opens_slot(c: MemoryClaim) -> bool {
    c.is_write || (c.start_eid == 0 && c.value == 0)
}

/// Basic sanity of a single claim's window: a write opens its own window; a
/// read observes a strictly earlier write (or the initial value) and may sit
/// at the very end of its window, where the next write supersedes it.
pub open spec fn claim_window_wf(c: MemoryClaim) -> bool {
    &&& c.start_eid < c.end_eid
    &&& c.eid <= c.end_eid
    &&& (c.is_write ==> c.eid == c.start_eid)
    &&& (!c.is_write ==> c.start_eid < c.eid)
}

/// Relation between a claim and its predecessor on the same slot: either it
/// reads the same window (same value, window end of the predecessor pointing
/// at its event id), or it opens the next window with a write.
pub open spec fn chain_step(p: MemoryClaim, c: MemoryClaim) -> bool {
    if c.start_eid == p.start_eid {
        &&& !c.is_write
        &&& c.value == p.value
        &&& p.end_eid == c.eid
    } else {
        &&& c.is_write
        &&& p.end_eid == c.start_eid
    }
}

/// The chain condition at one index of a (sorted) claim sequence: the claim
/// has a well formed window; if it is the first claim of its slot it opens
/// the slot, otherwise it relates to its predecessor by `chain_step`.
pub open spec fn chain_at(s: Seq<MemoryClaim>, i: int) -> bool {
    &&& claim_window_wf(s[i])
    &&& ((i == 0 || !same_slot(s[i - 1], s[i])) ==> opens_slot(s[i]))
    &&& ((0 < i && same_slot(s[i - 1], s[i])) ==> chain_step(s[i - 1], s[i]))
}

/// The chain condition on a (sorted) claim sequence.
pub open spec fn claims_chain_ok(s: Seq<MemoryClaim>) -> bool {
    forall|i: int| 0 <= i < s.len() ==> #[trigger] chain_at(s, i)
}

/// Exec check of the chain condition over a sequence of claims.
pub fn check_claims_chain(claims: &Vec<MemoryClaim>) -> (r: bool)
    ensures
        r == claims_chain_ok(claims@),
{
    let n = claims.len();
    let mut i: usize = 0;
    while i < n
        invariant
            i <= n,
            n == claims@.len(),
            forall|k: int| 0 <= k < i ==> #[trigger] chain_at(claims@, k),
        decreases n - i,
    {
        let c = claims[i];
        let wf = c.start_eid < c.end_eid && c.eid <= c.end_eid && (!c.is_write || c.eid
            == c.start_eid) && (c.is_write || c.start_eid < c.eid);
        let opens = c.is_write || (c.start_eid == 0 && c.value == 0);
        let here_ok: bool;
        if i == 0 {
            here_ok = wf && opens;
        } else {
            let p = claims[i - 1];
            let same = p.location.code() == c.location.code() && p.address == c.address;
            proof {
                assert(same == same_slot(claims@[i - 1], claims@[i as int]));
            }
            if same {
                let step_ok = if c.start_eid == p.start_eid {
                    !c.is_write && c.value == p.value && p.end_eid == c.eid
                } else {
                    c.is_write && p.end_eid == c.start_eid
                };
                here_ok = wf && step_ok;
            } else {
                here_ok = wf && opens;
            }
        }
        if !here_ok {
            proof {
                assert(!chain_at(claims@, i as int));
            }
            return false;
        }
        proof {
            assert(chain_at(claims@, i as int));
        }
        i = i + 1;
    }
    true
}

/// The canonical order as a function value, for `sorted_by`.
pub open spec fn claim_leq_fn() -> spec_fn(MemoryClaim, MemoryClaim) -> bool {
    |x: MemoryClaim, y: MemoryClaim| claim_le(x, y)
}

/// Sorts claims by the canonical key (insertion sort).
pub fn sort_claims(claims: &Vec<MemoryClaim>) -> (r: Vec<MemoryClaim>)
    ensures
        sorted_by(r@, claim_leq_fn()),
        r@.to_multiset() == claims@.to_multiset(),
        r@.len() == claims@.len(),
{
    let ghost f = claim_leq_fn();
    let mut r: Vec<MemoryClaim> = Vec::new();
    proof {
        assert(r@ =~= claims@.take(0));
    }
    let mut i: usize = 0;
    while i < claims.len()
        invariant
            i <= claims@.len(),
            sorted_by(r@, f),
            f == claim_leq_fn(),
            r@.to_multiset() == claims@.take(i as int).to_multiset(),
            r@.len() == i,
        decreases claims@.len() - i,
    {
        let c = claims[i];
        let mut j: usize = 0;
        while j < r.len() && claim_le_exec(&r[j], &c)
            invariant
                j <= r@.len(),
                forall|k: int| 0 <= k < j ==> claim_le(#[trigger] r@[k], c),
            decreases r@.len() - j,
        {
            j = j + 1;
        }
        proof {
            assert forall|k: int| j <= k < r@.len() implies claim_le(c, #[trigger] r@[k]) by {
                if k > j {
                    assert(f(r@[j as int], r@[k]));
                }
            }
        }
        let ghost old_r = r@;
        r.insert(j, c);
        proof {
            assert(r@ == old_r.insert(j as int, c));
            old_r.insert_ensures(j as int, c);
            assert forall|x: int, y: int| 0 <= x < y < r@.len() implies #[trigger] f(
                r@[x],
                r@[y],
            ) by {
                if y < j {
                    assert(f(old_r[x], old_r[y]));
                } else if y == j {
                    assert(claim_le(old_r[x], c));
                } else if x < j {
                    if y - 1 == x {
                        assert(claim_le(old_r[x], c));
                        assert(r@[y] == c);
                    } else {
                        assert(f(old_r[x], old_r[y - 1]));
                    }
                } else if x == j {
                    assert(claim_le(c, old_r[y - 1]));
                } else {
                    assert(f(old_r[x - 1], old_r[y - 1]));
                }
            }
            assert(r@.to_multiset() == claims@.take(i as int + 1).to_multiset()) by {
                assert(old_r.insert(j as int, c).to_multiset() =~= old_r.to_multiset().insert(c))
                    by {
                    vstd::seq_lib::to_multiset_insert(old_r, j as int, c);
                }
                assert(claims@.take(i as int + 1) =~= claims@.take(i as int).push(c));
                claims@.take(i as int).to_multiset_ensures();
                assert(claims@.take(i as int).push(c).to_multiset() =~= claims@.take(
                    i as int,
                ).to_multiset().insert(c));
            }
        }
        i = i + 1;
    }
    proof {
        assert(claims@.take(claims@.len() as int) == claims@);
    }
    r
}

/// THE MEMORY CONSISTENCY LAW: in a sorted, chain-consistent claim sequence,
/// every read either observes the canonical initial value of its slot, or
/// there is a write to the same slot opening the very window the read sits
/// in — the most recent prior write — and the read observes that write's
/// value.
pub proof fn lemma_memory_read_consistent(s: Seq<MemoryClaim>, j: int)
    requires
        claims_chain_ok(s),
        0 <= j < s.len(),
        !s[j].is_write,
    ensures
        (s[j].start_eid == 0 && s[j].value == 0) || (exists|i: int|
            0 <= i < j && (#[trigger] s[i]).is_write && same_window(s[i], s[j]) && s[i].value
                == s[j].value),
    decreases j,
{
    assert(chain_at(s, j));
    if j == 0 || !same_slot(s[j - 1], s[j]) {
        assert(opens_slot(s[j]));
    } else {
        assert(chain_step(s[j - 1], s[j]));
        if s[j].start_eid == s[j - 1].start_eid {
            if s[j - 1].is_write {
                assert(s[j - 1].is_write && same_window(s[j - 1], s[j]) && s[j - 1].value
                    == s[j].value);
            } else {
                lemma_memory_read_consistent(s, j - 1);
                if s[j - 1].start_eid == 0 && s[j - 1].value == 0 {
                } else {
                    let i = choose|i: int|
                        0 <= i < j - 1 && (#[trigger] s[i]).is_write && same_window(s[i], s[j - 1])
                            && s[i].value == s[j - 1].value;
                    assert(s[i].is_write && same_window(s[i], s[j]) && s[i].value == s[j].value);
                }
            }
        } else {
            // a new window may only be opened by a write, and this claim is a read
            assert(false);
        }
    }
}

} // verus!
