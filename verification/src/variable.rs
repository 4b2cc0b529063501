//! Storage locations of program variables.

use vstd::prelude::*;

verus! {

/// Where a variable lives.
#[derive(Clone, Copy, Debug, PartialEq, Eq, Hash, Structural)]
pub enum VariableSourceType {
    StackVariableSourceType,
    RegisterVariableSourceType,
    FlagVariableSourceType,
}

/// A variable: the kind of its storage, an index that tells apart variables
/// sharing one storage, and the storage itself (a register number or a stack
/// offset). Two variables are equal when all three agree.
#[derive(Clone, Copy, Debug, PartialEq, Eq, Hash, Structural)]
pub struct Variable {
    pub t: VariableSourceType,
    pub index: u32,
    pub storage: i64,
}

impl Variable {
    pub fn new(t: VariableSourceType, index: u32, storage: i64) -> (r: Self)
        ensures
            r == (Variable { t, index, storage }),
    {
        Self { t, index, storage }
    }

    pub fn index(&self) -> (r: u32)
        ensures
            r == self.index,
    {
        self.index
    }

    pub fn storage(&self) -> (r: i64)
        ensures
            r == self.storage,
    {
        self.storage
    }

    pub fn t(&self) -> (r: VariableSourceType)
        ensures
            r == self.t,
    {
        self.t
    }
}

/// A variable at one of its versions in single-assignment form.
#[derive(Clone, Copy, Debug, PartialEq, Eq, Hash, Structural)]
pub struct SSAVariable {
    pub variable: Variable,
    pub version: usize,
}

impl SSAVariable {
    pub fn new(variable: Variable, version: usize) -> (r: Self)
        ensures
            r == (SSAVariable { variable, version }),
    {
        Self { variable, version }
    }
}

/// Two versioned variables are the same exactly when the variable and the
/// version agree, and two variables when kind, index and storage agree.
pub proof fn lemma_variable_identity(a: SSAVariable, b: SSAVariable)
    ensures
        (a == b) <==> (a.variable.t == b.variable.t && a.variable.index == b.variable.index
            && a.variable.storage == b.variable.storage && a.version == b.version),
{
}

} // verus!
