//! The audit log: one record per executed node, at every level of a run.
//!
//! The records form a tree by parent pointers, rooted at the execution
//! request. A record is opened right before its node executes and closed
//! exactly once, when the node has finished.

use vstd::prelude::*;
use crate::clock::{elapsed, elapsed_millis, now_millis};
use crate::ident::{fresh_id, is_random, lemma_random_not_nil, NIL};

verus! {

/// The level of the node that a record stands for.
#[derive(Clone, Copy, Debug, PartialEq, Eq, Structural)]
pub enum ItemLogType {
    ActionGroup,
    Action,
    Assertion,
    TestCase,
    TestCaseBlock,
    TestSuite,
    TestSuiteBlock,
}

/// How far the node of a record has come.
#[derive(Clone, Copy, Debug, PartialEq, Eq, Structural)]
pub enum ItemLogStatus {
    Running,
    Success,
    Failed,
}

/// One audit record.
#[derive(Clone, Copy, Debug, PartialEq, Eq, Structural)]
pub struct ItemLog {
    pub id: u128,
    /// The execution request that the record belongs to.
    pub er_id: i32,
    /// The artifact that caused the node to execute.
    pub ref_id: Option<u128>,
    pub ref_type: ItemLogType,
    /// The artifact that the node executes.
    pub step_id: u128,
    /// The record of the parent node.
    pub log_id: Option<u128>,
    pub status: ItemLogStatus,
    /// When the node started, in milliseconds since the epoch.
    pub started_at: i64,
    /// When the node finished, once it has.
    pub finished_at: Option<i64>,
    /// How long the node took, in milliseconds; 0 while it runs.
    pub execution_time: i32,
}

/// The terminal status of a node by its outcome.
pub open spec fn terminal(succeeded: bool) -> ItemLogStatus {
    if succeeded {
        ItemLogStatus::Success
    } else {
        ItemLogStatus::Failed
    }
}

impl ItemLog {
    /// The record of a node that starts at `now`.
    pub open spec fn opened(
        id: u128,
        now: i64,
        er_id: i32,
        ref_id: Option<u128>,
        ref_type: ItemLogType,
        step_id: u128,
        log_id: Option<u128>,
    ) -> ItemLog {
        ItemLog {
            id,
            er_id,
            ref_id,
            ref_type,
            step_id,
            log_id,
            status: ItemLogStatus::Running,
            started_at: now,
            finished_at: None,
            execution_time: 0,
        }
    }

    /// The record after its node finished at `now`. A record that is closed
    /// already stays as it is.
    pub open spec fn closed(self, succeeded: bool, now: i64) -> ItemLog {
        if self.status == ItemLogStatus::Running {
            ItemLog {
                status: terminal(succeeded),
                finished_at: Some(now),
                execution_time: elapsed(self.started_at, now),
                ..self
            }
        } else {
            self
        }
    }

    /// Whether the node still runs.
    pub open spec fn running(self) -> bool {
        self.status == ItemLogStatus::Running
    }

    /// Whether the timing of the record fits its status: no finish time while
    /// the node runs, and afterwards the finish time with the time elapsed
    /// since the start.
    pub open spec fn wf(self) -> bool {
        if self.status == ItemLogStatus::Running {
            self.finished_at is None && self.execution_time == 0
        } else {
            self.finished_at matches Some(finished) && self.execution_time == elapsed(
                self.started_at,
                finished,
            )
        }
    }

    /// Opens the record of a node that starts at `now`, under the identifier
    /// `id`.
    pub fn open_at(
        id: u128,
        now: i64,
        er_id: i32,
        ref_id: Option<u128>,
        ref_type: ItemLogType,
        step_id: u128,
        log_id: Option<u128>,
    ) -> (log: ItemLog)
        ensures
            log == ItemLog::opened(id, now, er_id, ref_id, ref_type, step_id, log_id),
            log.wf(),
    {
        ItemLog {
            id,
            er_id,
            ref_id,
            ref_type,
            step_id,
            log_id,
            status: ItemLogStatus::Running,
            started_at: now,
            finished_at: None,
            execution_time: 0,
        }
    }

    /// Opens the record of a node that starts now, under a fresh identifier.
    pub fn new(
        er_id: i32,
        ref_id: Option<u128>,
        ref_type: ItemLogType,
        step_id: u128,
        log_id: Option<u128>,
    ) -> (log: ItemLog)
        ensures
            log == ItemLog::opened(log.id, log.started_at, er_id, ref_id, ref_type, step_id, log_id),
            is_random(log.id),
            log.id != NIL,
            log.wf(),
    {
        let id: u128 = fresh_id();
        let now: i64 = now_millis();
        proof {
            lemma_random_not_nil(id);
        }
        ItemLog::open_at(id, now, er_id, ref_id, ref_type, step_id, log_id)
    }

    /// Closes the record of a node that finished at `now`.
    pub fn close_at(&mut self, succeeded: bool, now: i64)
        ensures
            *final(self) == old(self).closed(succeeded, now),
            old(self).wf() ==> final(self).wf(),
            !final(self).running(),
    {
        if self.status == ItemLogStatus::Running {
            self.status = if succeeded {
                ItemLogStatus::Success
            } else {
                ItemLogStatus::Failed
            };
            self.finished_at = Some(now);
            self.execution_time = elapsed_millis(self.started_at, now);
        }
    }

    /// Closes the record of a node that finished now with the given status.
    /// A record that is closed already stays as it is.
    pub fn save_status(&mut self, succeeded: bool)
        ensures
            old(self).running() ==> final(self).finished_at is Some && *final(self) == old(
                self,
            ).closed(succeeded, final(self).finished_at.unwrap()),
            !old(self).running() ==> *final(self) == *old(self),
            old(self).wf() ==> final(self).wf(),
            !final(self).running(),
    {
        let now: i64 = now_millis();
        self.close_at(succeeded, now);
    }
}

} // verus!
