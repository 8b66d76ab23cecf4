//! Execution requests: one record per triggered run.

use vstd::prelude::*;
use crate::clock::now_millis;
use crate::entity::suite::copy_text;
use crate::error::EngineError;

verus! {

/// What a run executes.
#[derive(Clone, Copy, Debug, PartialEq, Eq, Structural)]
pub enum ExecutionType {
    TestCase,
    TestSuite,
}

/// What set a run off.
#[derive(Clone, Copy, Debug, PartialEq, Eq, Structural)]
pub enum ExecutionKind {
    Trigger,
}

/// How far a run has come.
#[derive(Clone, Copy, Debug, PartialEq, Eq, Structural)]
pub enum ExecutionStatus {
    Started,
    Running,
    Completed,
    Failed,
}

/// Whether an outcome gives a run up: a storage failure does, since nothing
/// of the run can be kept any more. Every other outcome ends the run.
pub open spec fn gives_up(outcome: Result<(), EngineError>) -> bool {
    outcome matches Err(error) && error.is_storage()
}

/// The status that a run ends with. A run that went through its dispatcher
/// is completed whether or not one of its nodes failed: failures are read
/// from the audit log, not from the request.
pub open spec fn concluding(outcome: Result<(), EngineError>) -> ExecutionStatus {
    ExecutionStatus::Completed
}

/// The record of one triggered run.
#[derive(Debug)]
pub struct ExecutionRequest {
    /// The key under which storage keeps the request; 0 until it is stored.
    pub id: i32,
    /// The case or suite that the run executes.
    pub reference: u128,
    pub history_type: ExecutionType,
    pub kind: ExecutionKind,
    pub status: ExecutionStatus,
    pub is_dry_run: bool,
    pub description: Option<String>,
    /// The user that set the run off.
    pub triggered_by: i32,
    /// When the run was set off, in milliseconds since the epoch.
    pub triggered_at: i64,
    /// When the run ended, once it has.
    pub finished_at: Option<i64>,
}

impl ExecutionRequest {
    /// The request of a run that is set off at `now`.
    pub open spec fn triggered(
        reference: u128,
        history_type: ExecutionType,
        kind: ExecutionKind,
        status: ExecutionStatus,
        triggered_by: i32,
        is_dry_run: bool,
        description: Option<String>,
        now: i64,
    ) -> ExecutionRequest {
        ExecutionRequest {
            id: 0,
            reference,
            history_type,
            kind,
            status,
            is_dry_run,
            description,
            triggered_by,
            triggered_at: now,
            finished_at: None,
        }
    }

    /// The request after its dispatcher came back with `outcome` at `now`:
    /// ended, with the finish time and the terminal status, unless the
    /// outcome gives the run up.
    pub open spec fn concluded(self, outcome: Result<(), EngineError>, now: i64) -> ExecutionRequest {
        if gives_up(outcome) {
            self
        } else {
            ExecutionRequest { status: concluding(outcome), finished_at: Some(now), ..self }
        }
    }

    /// What the trigger of the run is answered with: the key of the request,
    /// whatever the nodes of the run came to, unless the outcome gives the
    /// run up.
    pub open spec fn answer(self, outcome: Result<(), EngineError>) -> Result<i32, EngineError> {
        if gives_up(outcome) {
            Err(outcome->Err_0)
        } else {
            Ok(self.id)
        }
    }

    /// Whether the run has ended.
    pub open spec fn is_ended(self) -> bool {
        self.status == ExecutionStatus::Completed || self.status == ExecutionStatus::Failed
    }

    /// The request of a run that is set off at `now`.
    pub fn new_at(
        reference: u128,
        history_type: ExecutionType,
        kind: ExecutionKind,
        status: ExecutionStatus,
        triggered_by: i32,
        is_dry_run: bool,
        description: Option<String>,
        now: i64,
    ) -> (request: ExecutionRequest)
        ensures
            request == ExecutionRequest::triggered(
                reference,
                history_type,
                kind,
                status,
                triggered_by,
                is_dry_run,
                description,
                now,
            ),
    {
        ExecutionRequest {
            id: 0,
            reference,
            history_type,
            kind,
            status,
            is_dry_run,
            description,
            triggered_by,
            triggered_at: now,
            finished_at: None,
        }
    }

    /// The request of a run that is set off now.
    pub fn new(
        reference: u128,
        history_type: ExecutionType,
        kind: ExecutionKind,
        status: ExecutionStatus,
        triggered_by: i32,
        is_dry_run: bool,
        description: Option<String>,
    ) -> (request: ExecutionRequest)
        ensures
            request == ExecutionRequest::triggered(
                reference,
                history_type,
                kind,
                status,
                triggered_by,
                is_dry_run,
                description,
                request.triggered_at,
            ),
    {
        let now: i64 = now_millis();
        ExecutionRequest::new_at(
            reference,
            history_type,
            kind,
            status,
            triggered_by,
            is_dry_run,
            description,
            now,
        )
    }

    /// Takes the outcome that the dispatcher of the run came back with at
    /// `now`. The run ends as completed, whether or not a node failed, and
    /// the trigger is answered with the key of the request. Only a storage
    /// failure gives the run up: the request stays as it is, and the failure
    /// is the answer.
    pub fn conclude_at(&mut self, outcome: Result<(), EngineError>, now: i64) -> (answer: Result<
        i32,
        EngineError,
    >)
        ensures
            *final(self) == old(self).concluded(outcome, now),
            answer == old(self).answer(outcome),
            !gives_up(outcome) ==> final(self).status == ExecutionStatus::Completed && final(self).is_ended(),
    {
        match outcome {
            Err(error) => {
                if error.from_storage() {
                    return Err(error);
                }
            },
            Ok(_) => {},
        }
        self.finished_at = Some(now);
        self.status = ExecutionStatus::Completed;
        Ok(self.id)
    }

    /// Takes the outcome that the dispatcher of the run came back with now;
    /// see [`ExecutionRequest::conclude_at`].
    pub fn conclude(&mut self, outcome: Result<(), EngineError>) -> (answer: Result<
        i32,
        EngineError,
    >)
        ensures
            gives_up(outcome) ==> *final(self) == *old(self),
            !gives_up(outcome) ==> final(self).finished_at is Some && *final(self) == old(self).concluded(outcome, final(self).finished_at.unwrap()),
            answer == old(self).answer(outcome),
            !gives_up(outcome) ==> final(self).status == ExecutionStatus::Completed && final(self).is_ended(),
    {
        let now: i64 = now_millis();
        self.conclude_at(outcome, now)
    }
}

impl ExecutionRequest {
    /// A copy of the request.
    pub fn duplicate(&self) -> (copy: ExecutionRequest)
        ensures
            copy == *self,
    {
        ExecutionRequest {
            id: self.id,
            reference: self.reference,
            history_type: self.history_type,
            kind: self.kind,
            status: self.status,
            is_dry_run: self.is_dry_run,
            description: copy_text(&self.description),
            triggered_by: self.triggered_by,
            triggered_at: self.triggered_at,
            finished_at: self.finished_at,
        }
    }
}

} // verus!
