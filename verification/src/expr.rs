//! Polynomial expressions over the cells of one witness row, and the
//! accumulator that collects named identities gated by an opcode selector.

use vstd::prelude::*;

verus! {

/// A polynomial expression over the witness cells of one row.
///
/// Constants are small integers embedded into the field; an identity built
/// from these expressions is required to evaluate to zero over the integers,
/// which implies it vanishes in any prime field large enough to avoid
/// wraparound.
pub enum Expr {
    /// A constant.
    Const(u128),
    /// The value of the cell with the given index in the current row.
    Cell(usize),
    Add(Box<Expr>, Box<Expr>),
    Sub(Box<Expr>, Box<Expr>),
    Mul(Box<Expr>, Box<Expr>),
}

/// The value of cell `i` on a row; out-of-range indices read as zero.
pub open spec fn cell_val(row: Seq<u128>, i: int) -> int {
    if 0 <= i < row.len() {
        row[i] as int
    } else {
        0
    }
}

impl Expr {
    /// Mathematical value of the expression on a row, over the integers.
    pub open spec fn eval(self, row: Seq<u128>) -> int
        decreases self,
    {
        match self {
            Expr::Const(c) => c as int,
            Expr::Cell(i) => cell_val(row, i as int),
            Expr::Add(a, b) => a.eval(row) + b.eval(row),
            Expr::Sub(a, b) => a.eval(row) - b.eval(row),
            Expr::Mul(a, b) => a.eval(row) * b.eval(row),
        }
    }
}

/// Builds `Expr::Const`.
pub fn econst(c: u128) -> (r: Expr)
    ensures
        r == Expr::Const(c),
        forall|row: Seq<u128>| #[trigger] r.eval(row) == c,
{
    Expr::Const(c)
}

/// Builds `Expr::Cell`.
pub fn ecell(i: usize) -> (r: Expr)
    ensures
        r == Expr::Cell(i),
        forall|row: Seq<u128>| #[trigger] r.eval(row) == cell_val(row, i as int),
{
    Expr::Cell(i)
}

/// Builds `Expr::Add`.
pub fn eadd(a: Expr, b: Expr) -> (r: Expr)
    ensures
        r == Expr::Add(Box::new(a), Box::new(b)),
        forall|row: Seq<u128>| #[trigger] r.eval(row) == a.eval(row) + b.eval(row),
{
    Expr::Add(Box::new(a), Box::new(b))
}

/// Builds `Expr::Sub`.
pub fn esub(a: Expr, b: Expr) -> (r: Expr)
    ensures
        r == Expr::Sub(Box::new(a), Box::new(b)),
        forall|row: Seq<u128>| #[trigger] r.eval(row) == a.eval(row) - b.eval(row),
{
    Expr::Sub(Box::new(a), Box::new(b))
}

/// Builds `Expr::Mul`.
pub fn emul(a: Expr, b: Expr) -> (r: Expr)
    ensures
        r == Expr::Mul(Box::new(a), Box::new(b)),
        forall|row: Seq<u128>| #[trigger] r.eval(row) == a.eval(row) * b.eval(row),
{
    Expr::Mul(Box::new(a), Box::new(b))
}

/// A named identity. Wherever its selector expression is 1, the listed
/// expressions must all evaluate to zero; where the selector is 0 the
/// identity is off, so identities of different opcodes never interact.
pub struct Constraint {
    pub name: String,
    pub gate: Expr,
    pub exprs: Vec<Expr>,
}

/// A constraint is satisfied on a row when each gated expression vanishes.
pub open spec fn constraint_holds(c: Constraint, row: Seq<u128>) -> bool {
    forall|k: int|
        0 <= k < c.exprs@.len() ==> c.gate.eval(row) * (#[trigger] c.exprs@[k].eval(row)) == 0
}

/// Accumulates named identities; every identity pushed while a gate is set is
/// implicitly multiplied by that gate, so a configuration never gates its own
/// identities by hand.
pub struct ConstraintBuilder {
    pub constraints: Vec<Constraint>,
    pub gate: Expr,
}

impl ConstraintBuilder {
    /// An empty accumulator whose identities are initially ungated.
    pub fn new() -> (r: ConstraintBuilder)
        ensures
            r.constraints@.len() == 0,
            r.gate == Expr::Const(1),
    {
        ConstraintBuilder { constraints: Vec::new(), gate: Expr::Const(1) }
    }

    /// Chooses the selector expression attached to each identity registered
    /// from now on.
    pub fn set_gate(&mut self, gate: Expr)
        ensures
            final(self).constraints == old(self).constraints,
            final(self).gate == gate,
    {
        self.gate = gate;
    }

    /// Registers a named identity under the current gate. Registration is
    /// purely additive: no removal operation exists.
    pub fn push(&mut self, name: &str, exprs: Vec<Expr>)
        ensures
            final(self).gate == old(self).gate,
            final(self).constraints@.len() == old(self).constraints@.len() + 1,
            forall|i: int|
                0 <= i < old(self).constraints@.len() ==> final(self).constraints@[i] == old(
                    self,
                ).constraints@[i],
            final(self).constraints@[old(self).constraints@.len() as int].name@ == name@,
            final(self).constraints@[old(self).constraints@.len() as int].gate == old(self).gate,
            final(self).constraints@[old(self).constraints@.len() as int].exprs == exprs,
    {
        let c = Constraint { name: name.to_string(), gate: self.gate.clone(), exprs };
        self.constraints.push(c);
    }
}

impl Clone for Expr {
    /// A deep copy with the same mathematical value.
    fn clone(&self) -> (r: Expr)
        ensures
            r == *self,
        decreases self,
    {
        match self {
            Expr::Const(c) => Expr::Const(*c),
            Expr::Cell(i) => Expr::Cell(*i),
            Expr::Add(a, b) => Expr::Add(Box::new((**a).clone()), Box::new((**b).clone())),
            Expr::Sub(a, b) => Expr::Sub(Box::new((**a).clone()), Box::new((**b).clone())),
            Expr::Mul(a, b) => Expr::Mul(Box::new((**a).clone()), Box::new((**b).clone())),
        }
    }
}

} // verus!
