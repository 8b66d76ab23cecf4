//! Leaf steps: single actions against the browser.

use vstd::prelude::*;

verus! {

/// What a step does.
#[derive(Clone, Copy, Debug, PartialEq, Eq, Structural)]
pub enum ActionKind {
    Click,
    Enter,
    DoubleClick,
    Open,
    VerifyText,
    /// A kind that the executor does not know.
    Unknown,
}

/// How a step addresses its element.
#[derive(Clone, Copy, Debug, PartialEq, Eq, Structural)]
pub enum ActionTargetKind {
    Css,
    Id,
    Xpath,
}

/// One leaf step of an action group.
#[derive(Debug)]
pub struct Action {
    pub id: u128,
    pub action_group_id: u128,
    /// The position of the step inside its group.
    pub execution_order: i32,
    pub description: Option<String>,
    pub kind: ActionKind,
    pub data_value: Option<String>,
    pub target_kind: Option<ActionTargetKind>,
    pub target_value: Option<String>,
}

} // verus!
