//! The data that an action works with.

use vstd::prelude::*;
use vstd::string::StringExecFns;

verus! {

/// Where the data of an action comes from.
#[derive(Clone, Copy, Debug, PartialEq, Eq, Structural)]
pub enum ATargetKind {
    /// The value is worked out while the run executes.
    Runtime,
    /// The value is written down with the action.
    Static,
}

/// One datum of an action.
#[derive(Debug)]
pub struct Model {
    pub id: u128,
    pub kind: ATargetKind,
    pub value: String,
    /// The action that the datum belongs to.
    pub action_id: u128,
}

/// The records that a datum is related to.
#[derive(Clone, Copy, Debug, PartialEq, Eq, Structural)]
pub enum Relation {
    /// The action that the datum belongs to.
    Action,
}

impl ATargetKind {
    /// The text that stands for the value in storage.
    pub open spec fn code(self) -> Seq<char> {
        match self {
            ATargetKind::Runtime => "Runtime"@,
            ATargetKind::Static => "Static"@,
        }
    }

    /// The text that stands for the value in storage.
    pub fn to_value(&self) -> (text: String)
        ensures
            text@ == self.code(),
    {
        match self {
            ATargetKind::Runtime => String::from_str("Runtime"),
            ATargetKind::Static => String::from_str("Static"),
        }
    }

    /// The value that a text of storage stands for, if it stands for one.
    pub fn try_from_value(text: &String) -> (value: Option<ATargetKind>)
        ensures
            value matches Some(kind) ==> kind.code() == text@,
            value is None ==> forall|kind: ATargetKind| kind.code() != text@,
    {
        if *text == String::from_str("Runtime") {
            Some(ATargetKind::Runtime)
        } else if *text == String::from_str("Static") {
            Some(ATargetKind::Static)
        } else {
            None
        }
    }
}

} // verus!
