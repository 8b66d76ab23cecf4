//! Test cases and the blocks they are made of.

use vstd::prelude::*;

verus! {

/// How a block of a case relates to what it names.
#[derive(Clone, Copy, Debug, PartialEq, Eq, Structural)]
pub enum BlockKind {
    Loop,
    SelfReference,
    Reference,
}

/// What a block of a case holds.
#[derive(Clone, Copy, Debug, PartialEq, Eq, Structural)]
pub enum BlockType {
    InMemory,
    DataTable,
    Assertion,
    YesCase,
    NoCase,
    Loop,
    Condition,
    ActionGroup,
}

/// A named test.
#[derive(Debug)]
pub struct Case {
    pub id: u128,
    pub name: String,
    pub description: Option<String>,
    pub app_id: u128,
}

/// One entry of a case.
#[derive(Clone, Copy, Debug, PartialEq, Eq, Structural)]
pub struct CaseBlock {
    pub id: u128,
    pub case_id: u128,
    /// The position of the block inside its case.
    pub execution_order: i32,
    pub kind: BlockKind,
    pub type_field: BlockType,
    /// The artifact that the block runs.
    pub reference: Option<u128>,
    /// The block that this one is nested in.
    pub parent_id: Option<u128>,
}

} // verus!
