//! The history service: execution requests and the audit records below them.
//!
//! The audit records of a run are flat; the tree of the run is read off
//! their parent pointers.

use vstd::prelude::*;
use vstd::string::StringExecFns;
use crate::clock::now_millis;
use crate::entity::log::{ItemLog, ItemLogType};
use crate::entity::request::{ExecutionKind, ExecutionRequest, ExecutionStatus, ExecutionType};
use crate::error::{OrcaError, OrcaErrorView, OrcaRepoError, RepoErrorView};
use crate::ident::{hyphenated, id_text};

verus! {

/// The execution requests and audit records at hand.
pub struct HistoryService {
    pub requests: Vec<ExecutionRequest>,
    pub logs: Vec<ItemLog>,
}

/// Whether a record is the one of the node `step` at the level `level`
/// within the run `history`.
pub open spec fn is_node(log: ItemLog, history: i32, level: ItemLogType, step: u128) -> bool {
    log.er_id == history && log.ref_type == level && log.step_id == step
}

/// Whether a record is shown below the record `parent` within the run
/// `history`: it points to `parent`, and stands for a test case, an action
/// group or an action.
pub open spec fn is_shown_below(log: ItemLog, history: i32, parent: u128) -> bool {
    &&& log.er_id == history
    &&& log.log_id == Some(parent)
    &&& (log.ref_type == ItemLogType::TestCase || log.ref_type == ItemLogType::ActionGroup
        || log.ref_type == ItemLogType::Action)
}

/// Whether index `at` is the first that holds the record of the node.
pub open spec fn node_at(
    logs: Seq<ItemLog>,
    history: i32,
    level: ItemLogType,
    step: u128,
    at: int,
) -> bool {
    &&& 0 <= at < logs.len()
    &&& is_node(logs[at], history, level, step)
    &&& forall|j: int| 0 <= j < at ==> !is_node(#[trigger] logs[j], history, level, step)
}

/// Whether a record of the node is at hand.
pub open spec fn has_node(logs: Seq<ItemLog>, history: i32, level: ItemLogType, step: u128) -> bool {
    exists|at: int| node_at(logs, history, level, step, at)
}

/// The records shown below `parent` within the run `history`, in the order
/// they are kept in.
pub open spec fn shown_below(logs: Seq<ItemLog>, history: i32, parent: u128) -> Seq<ItemLog> {
    logs.filter(|log: ItemLog| is_shown_below(log, history, parent))
}

/// Whether index `at` is the first that holds the request kept under `id`.
pub open spec fn request_at(requests: Seq<ExecutionRequest>, id: i32, at: int) -> bool {
    &&& 0 <= at < requests.len()
    &&& requests[at].id == id
    &&& forall|j: int| 0 <= j < at ==> (#[trigger] requests[j]).id != id
}

impl HistoryService {
    /// A service with the given rows at hand.
    pub fn new(requests: Vec<ExecutionRequest>, logs: Vec<ItemLog>) -> (service: HistoryService)
        ensures
            service.requests == requests,
            service.logs == logs,
    {
        HistoryService { requests, logs }
    }

    /// The records below a node of a run: the record of the node `log_id` at
    /// the level `log_type` is looked up within the run `history_id`, and
    /// the records of test cases, action groups and actions that point to it
    /// come back. Fails where the node has no record in that run.
    pub fn log_by_id(&self, history_id: i32, log_type: ItemLogType, log_id: u128) -> (result:
        Result<Vec<ItemLog>, OrcaError>)
        ensures
            result is Ok <==> has_node(self.logs@, history_id, log_type, log_id),
            result matches Ok(children) ==> exists|at: int|
                node_at(self.logs@, history_id, log_type, log_id, at) && children@ == shown_below(
                    self.logs@,
                    history_id,
                    self.logs@[at].id,
                ),
            result matches Err(error) ==> error@ == OrcaErrorView::RepoError(
                RepoErrorView::ModelNotFound("Log"@, hyphenated(log_id)),
            ),
    {
        let mut i: usize = 0;
        let mut found: Option<u128> = None;
        while i < self.logs.len() && found.is_none()
            invariant
                i <= self.logs@.len(),
                found is None ==> forall|j: int|
                    0 <= j < i ==> !is_node(#[trigger] self.logs@[j], history_id, log_type, log_id),
                found matches Some(parent) ==> i > 0 && node_at(
                    self.logs@,
                    history_id,
                    log_type,
                    log_id,
                    i - 1,
                ) && parent == self.logs@[i - 1].id,
            decreases self.logs@.len() - i,
        {
            let log = self.logs[i];
            if log.er_id == history_id && log.ref_type == log_type && log.step_id == log_id {
                found = Some(log.id);
            }
            i = i + 1;
        }
        match found {
            None => {
                proof {
                    if has_node(self.logs@, history_id, log_type, log_id) {
                        let at = choose|at: int|
                            node_at(self.logs@, history_id, log_type, log_id, at);
                        assert(is_node(self.logs@[at], history_id, log_type, log_id));
                    }
                }
                Err(
                    OrcaError::RepoError(
                        OrcaRepoError::ModelNotFound(String::from_str("Log"), id_text(log_id)),
                    ),
                )
            },
            Some(parent) => {
                let ghost shown = |log: ItemLog| is_shown_below(log, history_id, parent);
                let mut children: Vec<ItemLog> = Vec::new();
                let mut k: usize = 0;
                proof {
                    reveal(Seq::filter);
                    assert(self.logs@.take(0).filter(shown) =~= children@);
                }
                while k < self.logs.len()
                    invariant
                        k <= self.logs@.len(),
                        shown == |log: ItemLog| is_shown_below(log, history_id, parent),
                        children@ == self.logs@.take(k as int).filter(shown),
                    decreases self.logs@.len() - k,
                {
                    let log = self.logs[k];
                    proof {
                        reveal(Seq::filter);
                        let next = self.logs@.take(k + 1);
                        assert(next.drop_last() =~= self.logs@.take(k as int));
                        assert(next.last() == log);
                    }
                    let of_level = match log.ref_type {
                        ItemLogType::TestCase => true,
                        ItemLogType::ActionGroup => true,
                        ItemLogType::Action => true,
                        _ => false,
                    };
                    let below = match log.log_id {
                        Some(pointer) => pointer == parent,
                        None => false,
                    };
                    if log.er_id == history_id && below && of_level {
                        children.push(log);
                    }
                    k = k + 1;
                }
                proof {
                    assert(self.logs@.take(k as int) =~= self.logs@);
                    assert(node_at(self.logs@, history_id, log_type, log_id, i - 1));
                }
                Ok(children)
            },
        }
    }

    /// The execution request kept under `id`. Fails where there is none; the
    /// failure names the key by its decimal text.
    pub fn by_id(&self, id: i32) -> (result: Result<ExecutionRequest, OrcaError>)
        ensures
            result is Ok <==> exists|at: int| request_at(self.requests@, id, at),
            result matches Ok(request) ==> exists|at: int|
                request_at(self.requests@, id, at) && request == self.requests@[at],
            result matches Err(error) ==> (error matches OrcaError::RepoError(
                OrcaRepoError::ModelNotFound(kind, key),
            ) && kind@ == "Request History"@ && vstd::string::to_string_from_display_ensures::<i32>(
                &id,
                key,
            )),
    {
        let mut i: usize = 0;
        while i < self.requests.len()
            invariant
                i <= self.requests@.len(),
                forall|j: int| 0 <= j < i ==> (#[trigger] self.requests@[j]).id != id,
            decreases self.requests@.len() - i,
        {
            if self.requests[i].id == id {
                proof {
                    assert(request_at(self.requests@, id, i as int));
                }
                return Ok(self.requests[i].duplicate());
            }
            i = i + 1;
        }
        proof {
            if exists|at: int| request_at(self.requests@, id, at) {
                let at = choose|at: int| request_at(self.requests@, id, at);
                assert(self.requests@[at].id == id);
            }
        }
        Err(
            OrcaError::RepoError(
                OrcaRepoError::ModelNotFound(String::from_str("Request History"), id.to_string()),
            ),
        )
    }

    /// The execution requests at hand.
    pub fn list_history(&self) -> (requests: &Vec<ExecutionRequest>)
        ensures
            requests@ == self.requests@,
    {
        &self.requests
    }

    /// The request of a run of `id` that is under way since `now`, set off
    /// by the first user; it is a dry run only where that is asked for.
    pub fn create_history_at(
        id: u128,
        kind: ExecutionKind,
        history_type: ExecutionType,
        desc: Option<String>,
        is_dry_run: Option<bool>,
        now: i64,
    ) -> (request: ExecutionRequest)
        ensures
            request == ExecutionRequest::triggered(
                id,
                history_type,
                kind,
                ExecutionStatus::Running,
                1,
                is_dry_run == Some(true),
                desc,
                now,
            ),
    {
        let dry: bool = match is_dry_run {
            Some(flag) => flag,
            None => false,
        };
        ExecutionRequest::new_at(id, history_type, kind, ExecutionStatus::Running, 1, dry, desc, now)
    }

    /// The request of a run of `id` that is under way since now; see
    /// [`HistoryService::create_history_at`].
    pub fn create_history(
        id: u128,
        kind: ExecutionKind,
        history_type: ExecutionType,
        desc: Option<String>,
        is_dry_run: Option<bool>,
    ) -> (request: ExecutionRequest)
        ensures
            request == ExecutionRequest::triggered(
                id,
                history_type,
                kind,
                ExecutionStatus::Running,
                1,
                is_dry_run == Some(true),
                desc,
                request.triggered_at,
            ),
    {
        let now: i64 = now_millis();
        HistoryService::create_history_at(id, kind, history_type, desc, is_dry_run, now)
    }
}

} // verus!
