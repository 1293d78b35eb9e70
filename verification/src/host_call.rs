//! The external host call table: one row per host call occurrence, with a
//! fixed running index column and advice columns carrying the call's opcode
//! and operand, preceded by one zero row.

use vstd::prelude::*;
use crate::err::ConfigError;

verus! {

/// One recorded host call.
#[derive(Clone, Copy, PartialEq, Eq, Structural)]
pub struct ExternalHostCallEntry {
    pub op: u32,
    pub value: u64,
}

/// The recorded host calls of one trace slice, in event order.
pub struct ExternalHostCallTable {
    pub entries: Vec<ExternalHostCallEntry>,
}

impl ExternalHostCallTable {
    /// The recorded host calls.
    pub fn entries(&self) -> (r: &Vec<ExternalHostCallEntry>)
        ensures
            r@ == self.entries@,
    {
        &self.entries
    }
}

/// Column layout marker of the host call table.
pub struct ExternalHostCallTableConfig {}

/// Fills the host call table region.
pub struct ExternalHostCallChip {
    pub config: ExternalHostCallTableConfig,
    pub maximal_available_rows: usize,
}

/// The filled columns of the host call table.
pub struct AssignedHostCallColumns {
    pub idx: Vec<u64>,
    pub opcode: Vec<u64>,
    pub operand: Vec<u64>,
}

impl ExternalHostCallChip {
    /// A chip for a region with the given row budget.
    pub fn new(config: ExternalHostCallTableConfig, maximal_available_rows: usize) -> (r:
        ExternalHostCallChip)
        ensures
            r.maximal_available_rows == maximal_available_rows,
    {
        ExternalHostCallChip { config, maximal_available_rows }
    }

    /// Fills the fixed index column over the whole region and the advice
    /// columns with one zero row followed by the recorded calls. Fails
    /// exactly when the calls do not fit the region.
    pub fn assign(self, table: &ExternalHostCallTable) -> (r: Result<
        AssignedHostCallColumns,
        ConfigError,
    >)
        ensures
            r is Ok <==> table.entries@.len() + 1 <= self.maximal_available_rows,
            r matches Ok(a) ==> {
                &&& a.idx@.len() == self.maximal_available_rows
                &&& forall|i: int| 0 <= i < a.idx@.len() ==> a.idx@[i] == i
                &&& a.opcode@.len() == table.entries@.len() + 1
                &&& a.operand@.len() == table.entries@.len() + 1
                &&& a.opcode@[0] == 0 && a.operand@[0] == 0
                &&& forall|k: int|
                    0 <= k < table.entries@.len() ==> a.opcode@[k + 1] == (#[trigger] table.entries@[k]).op
                &&& forall|k: int|
                    0 <= k < table.entries@.len() ==> a.operand@[k + 1] == (#[trigger] table.entries@[k]).value
            },
    {
        if table.entries.len() >= self.maximal_available_rows {
            return Err(ConfigError::CellCapacityExceeded);
        }
        let mut idx: Vec<u64> = Vec::new();
        let mut offset: usize = 0;
        while offset < self.maximal_available_rows
            invariant
                offset <= self.maximal_available_rows <= usize::MAX,
                idx@.len() == offset,
                forall|i: int| 0 <= i < offset ==> idx@[i] == i,
            decreases self.maximal_available_rows - offset,
        {
            idx.push(offset as u64);
            offset = offset + 1;
        }
        let mut opcode: Vec<u64> = Vec::new();
        let mut operand: Vec<u64> = Vec::new();
        opcode.push(0);
        operand.push(0);
        let mut k: usize = 0;
        while k < table.entries.len()
            invariant
                k <= table.entries@.len(),
                opcode@.len() == k + 1,
                operand@.len() == k + 1,
                opcode@[0] == 0 && operand@[0] == 0,
                forall|j: int| 0 <= j < k ==> opcode@[j + 1] == (#[trigger] table.entries@[j]).op,
                forall|j: int|
                    0 <= j < k ==> operand@[j + 1] == (#[trigger] table.entries@[j]).value,
            decreases table.entries@.len() - k,
        {
            opcode.push(table.entries[k].op as u64);
            operand.push(table.entries[k].value);
            k = k + 1;
        }
        Ok(AssignedHostCallColumns { idx, opcode, operand })
    }
}

} // verus!
