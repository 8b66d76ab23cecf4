//! Suites and the blocks they are made of.

use vstd::prelude::*;

verus! {

/// What a block of a suite points to.
#[derive(Clone, Copy, Debug, PartialEq, Eq, Structural)]
pub enum SuiteBlockType {
    /// The block runs a test case.
    TestCase,
}

/// A copy of an optional text.
pub fn copy_text(text: &Option<String>) -> (copy: Option<String>)
    ensures
        copy == *text,
{
    match text {
        Some(value) => Some(value.clone()),
        None => None,
    }
}

/// An ordered container of blocks, owned by an application.
#[derive(Debug)]
pub struct Suite {
    pub id: u128,
    pub name: String,
    pub description: Option<String>,
    pub app_id: u128,
    /// The blocks of the suite in execution order, where they were asked for.
    pub suite_execution: Option<Vec<SuiteBlock>>,
}

/// One entry of a suite.
#[derive(Debug)]
pub struct SuiteBlock {
    pub id: u128,
    pub suite_id: u128,
    /// The position of the block inside its suite.
    pub execution_order: i32,
    pub type_field: SuiteBlockType,
    /// The artifact that the block runs.
    pub reference: Option<u128>,
    /// The name of the referenced artifact, where it was looked up.
    pub name: Option<String>,
    /// The description of the referenced artifact, where it was looked up.
    pub description: Option<String>,
}

impl SuiteBlock {
    /// The block at another position.
    pub open spec fn placed(self, order: int) -> SuiteBlock {
        SuiteBlock { execution_order: order as i32, ..self }
    }

    /// The block as it is stored in a suite: under a given identifier, in a
    /// given suite, at a given position.
    pub open spec fn stored(self, id: u128, suite: u128, order: int) -> SuiteBlock {
        SuiteBlock { id, suite_id: suite, execution_order: order as i32, ..self }
    }

    /// A copy of the block.
    pub fn duplicate(&self) -> (copy: SuiteBlock)
        ensures
            copy == *self,
    {
        SuiteBlock {
            id: self.id,
            suite_id: self.suite_id,
            execution_order: self.execution_order,
            type_field: self.type_field,
            reference: self.reference,
            name: copy_text(&self.name),
            description: copy_text(&self.description),
        }
    }
}


/// A copy of a list of blocks.
pub fn copy_blocks(blocks: &Vec<SuiteBlock>) -> (copy: Vec<SuiteBlock>)
    ensures
        copy@ == blocks@,
{
    let mut copy: Vec<SuiteBlock> = Vec::new();
    let mut i: usize = 0;
    while i < blocks.len()
        invariant
            i <= blocks@.len(),
            copy@ == blocks@.take(i as int),
        decreases blocks@.len() - i,
    {
        copy.push(blocks[i].duplicate());
        proof {
            assert(blocks@.take(i + 1) =~= blocks@.take(i as int).push(blocks@[i as int]));
        }
        i = i + 1;
    }
    proof {
        assert(blocks@.take(i as int) =~= blocks@);
    }
    copy
}

impl Suite {
    /// The suite as it is stored: under a given identifier, in a given
    /// application.
    pub open spec fn stored(self, id: u128, app: u128) -> Suite {
        Suite { id, app_id: app, ..self }
    }
}

} // verus!
