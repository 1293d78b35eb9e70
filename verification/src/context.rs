//! The context continuation helper table: the context values one slice hands
//! to the next, laid out from row 1 (row 0 of the fixed index column is
//! reserved).

use vstd::prelude::*;

verus! {

/// Column layout marker of the context continuation helper table.
pub struct ContextContHelperTableConfig {}

/// Fills the context continuation helper region.
pub struct ContextContHelperTableChip {
    pub config: ContextContHelperTableConfig,
}

/// The filled input and output columns; index 0 carries the reserved zero
/// row, the value fed at position `i` of either slice boundary stands at
/// index `i + 1`.
pub struct AssignedContextColumns {
    pub input: Vec<u64>,
    pub output: Vec<u64>,
}

impl ContextContHelperTableChip {
    /// A chip over the given column layout.
    pub fn new(config: ContextContHelperTableConfig) -> (r: ContextContHelperTableChip)
    {
        ContextContHelperTableChip { config }
    }

    /// Lays the context inputs and outputs out from row 1.
    pub fn assign(&self, inputs: &Vec<u64>, outputs: &Vec<u64>) -> (r: AssignedContextColumns)
        requires
            inputs@.len() < usize::MAX,
            outputs@.len() < usize::MAX,
        ensures
            r.input@.len() == inputs@.len() + 1,
            r.output@.len() == outputs@.len() + 1,
            r.input@[0] == 0 && r.output@[0] == 0,
            forall|i: int| 0 <= i < inputs@.len() ==> r.input@[i + 1] == inputs@[i],
            forall|i: int| 0 <= i < outputs@.len() ==> r.output@[i + 1] == outputs@[i],
    {
        let mut input: Vec<u64> = Vec::new();
        input.push(0);
        let mut i: usize = 0;
        while i < inputs.len()
            invariant
                i <= inputs@.len(),
                input@.len() == i + 1,
                input@[0] == 0,
                forall|j: int| 0 <= j < i ==> input@[j + 1] == inputs@[j],
            decreases inputs@.len() - i,
        {
            input.push(inputs[i]);
            i = i + 1;
        }
        let mut output: Vec<u64> = Vec::new();
        output.push(0);
        let mut k: usize = 0;
        while k < outputs.len()
            invariant
                k <= outputs@.len(),
                output@.len() == k + 1,
                output@[0] == 0,
                forall|j: int| 0 <= j < k ==> output@[j + 1] == outputs@[j],
            decreases outputs@.len() - k,
        {
            output.push(outputs[k]);
            k = k + 1;
        }
        AssignedContextColumns { input, output }
    }
}

} // verus!
