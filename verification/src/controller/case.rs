//! The case dispatcher: the blocks of one test case, in ascending execution
//! order, under the fail-fast policy.
//!
//! The dispatcher opens the record of the case, takes the blocks one by one,
//! opens a record for each, says where the block is to be dispatched to, and
//! closes the record with what came of it. The first block that fails ends
//! the case: the blocks behind it get no record, the record of the case is
//! closed as failed, and the failure goes to the caller.

use vstd::prelude::*;
use vstd::string::StringExecFns;
use crate::audit::{AuditPass, FailurePolicy, PassView, Visit};
use crate::controller::action::{ActionController, GroupView, ACTION_PAGE_SIZE};
use crate::entity::case::{BlockKind, BlockType, Case, CaseBlock};
use crate::entity::log::{ItemLog, ItemLogType};
use crate::entity::request::{ExecutionKind, ExecutionRequest, ExecutionStatus, ExecutionType};
use crate::error::{EngineError, EngineErrorView};
use crate::ident::{hyphenated, id_text, NIL};
use crate::paging::{PageCursor, PageRequest};

verus! {

/// How many blocks of a case are loaded at once.
pub const CASE_PAGE_SIZE: u64 = 10;

/// Where a block of a case goes.
#[derive(Debug)]
pub enum CaseDispatch {
    /// The action group `group` is to be executed on behalf of the block
    /// `ref_id`, and the outcome handed to [`CaseController::settle`].
    ActionGroup { group: u128, ref_id: u128 },
    /// The block cannot be dispatched. Its record is closed as failed.
    Rejected(EngineError),
    /// The dispatcher takes no more blocks. The block has no record.
    Halted,
}

/// The dispatcher of one test case.
pub struct CaseController {
    case_id: u128,
    pass: AuditPass,
    cursor: PageCursor,
}

/// The mathematical content of a [`CaseController`].
pub struct CaseView {
    /// The case that is executed.
    pub case_id: u128,
    /// The pass over the blocks of the case.
    pub pass: PassView,
    /// The cursor over the blocks of the case.
    pub cursor: PageCursor,
}

/// Where a block of a case is dispatched to: a reference to an action group
/// or to an assertion goes to the action group it names. A reference that
/// names nothing is reported as a missing parameter of the block, and any
/// other combination of kind and type is not supported.
pub open spec fn routed(block: CaseBlock) -> Result<u128, EngineErrorView> {
    if block.kind == BlockKind::Reference && (block.type_field == BlockType::ActionGroup
        || block.type_field == BlockType::Assertion) {
        match block.reference {
            Some(group) => Ok(group),
            None => Err(
                EngineErrorView::MissingParameter("Case Block Reference"@, hyphenated(block.id)),
            ),
        }
    } else {
        Err(EngineErrorView::UnsupportedOperation("case block"@))
    }
}

/// The description of a run of the case `id`.
pub open spec fn case_run_description(id: u128) -> Seq<char> {
    "[TC] Executing - "@ + hyphenated(id)
}

impl View for CaseController {
    type V = CaseView;

    closed spec fn view(&self) -> CaseView {
        CaseView { case_id: self.case_id, pass: self.pass@, cursor: self.cursor }
    }
}

impl CaseController {
    /// Whether the dispatcher is consistent.
    pub open spec fn wf(&self) -> bool {
        self@.pass.wf()
    }

    /// Sets a run of the case `id` off: the execution request of the run,
    /// started now, to be stored before the case executes.
    pub fn run(id: u128, is_dry_run: bool) -> (request: ExecutionRequest)
        ensures
            request.description matches Some(text) && text@ == case_run_description(id),
            request == ExecutionRequest::triggered(
                id,
                ExecutionType::TestCase,
                ExecutionKind::Trigger,
                ExecutionStatus::Started,
                0,
                is_dry_run,
                request.description,
                request.triggered_at,
            ),
    {
        let description = String::from_str("[TC] Executing - ").concat(id_text(id).as_str());
        ExecutionRequest::new(
            id,
            ExecutionType::TestCase,
            ExecutionKind::Trigger,
            ExecutionStatus::Started,
            0,
            is_dry_run,
            Some(description),
        )
    }

    /// Begins the execution of the case `id` within the run `er`: opens the
    /// record of the case under the parent record `log`, on behalf of the
    /// artifact `ref_id`.
    pub fn new(er: &ExecutionRequest, id: u128, log: Option<&ItemLog>, ref_id: Option<u128>) -> (controller:
        CaseController)
        ensures
            controller.wf(),
            controller@.case_id == id,
            controller@.cursor == PageCursor::start(CASE_PAGE_SIZE),
            controller@.pass == PassView::begun(
                FailurePolicy::Abort,
                ItemLogType::TestCase,
                ItemLogType::TestCaseBlock,
                er.id,
                id,
                ref_id,
                match log {
                    Some(parent) => Some(parent.id),
                    None => None,
                },
                controller@.pass.summary.id,
                controller@.pass.summary.started_at,
            ),
            controller@.pass.summary.id != NIL,
            controller@.pass.accepting(),
    {
        let parent: Option<u128> = match log {
            Some(record) => Some(record.id),
            None => None,
        };
        let pass = AuditPass::begin(
            FailurePolicy::Abort,
            ItemLogType::TestCase,
            ItemLogType::TestCaseBlock,
            er.id,
            id,
            ref_id,
            parent,
        );
        CaseController { case_id: id, pass, cursor: PageCursor::new(CASE_PAGE_SIZE) }
    }

    /// Takes the case as it was loaded. Where there is no such case, the
    /// execution fails as not found: no block is taken any more.
    pub fn execute(&mut self, case: Option<&Case>)
        requires
            old(self).wf(),
        ensures
            final(self).wf(),
            final(self)@.case_id == old(self)@.case_id,
            final(self)@.cursor == old(self)@.cursor,
            case is Some || !old(self)@.pass.accepting() ==> final(self)@ == old(self)@,
            case is None && old(self)@.pass.accepting() ==> (final(self)@.pass.failure matches Some(
                error,
            ) && error@ == EngineErrorView::NotFound("Case"@, hyphenated(old(self)@.case_id))
                && final(self)@.pass == old(self)@.pass.failed(error)),
    {
        if case.is_none() {
            let error = EngineError::NotFound(String::from_str("Case"), id_text(self.case_id));
            self.pass.fail(error);
        }
    }

    /// The page of blocks to load next, in ascending execution order: none
    /// once the case has failed, its record is closed or its blocks are used
    /// up.
    pub fn next_page(&self) -> (request: Option<PageRequest>)
        ensures
            request == if self@.pass.halted() || self@.pass.closed() {
                None
            } else {
                self@.cursor.pending()
            },
    {
        if self.pass.is_halted() || self.pass.is_closed() {
            None
        } else {
            self.cursor.request()
        }
    }

    /// Takes note of the page of blocks that was loaded.
    pub fn page_received(&mut self, rows: usize)
        ensures
            final(self)@ == (CaseView { cursor: old(self)@.cursor.advanced(rows), ..old(self)@ }),
    {
        self.cursor.received(rows);
    }

    /// Where a block is dispatched to.
    pub fn switch_block(block: &CaseBlock) -> (route: Result<u128, EngineError>)
        ensures
            route is Ok <==> routed(*block) is Ok,
            route matches Ok(group) ==> routed(*block) == Ok::<u128, EngineErrorView>(group),
            route matches Err(error) ==> routed(*block) == Err::<u128, EngineErrorView>(error@),
    {
        match block.kind {
            BlockKind::Reference => match block.type_field {
                BlockType::ActionGroup | BlockType::Assertion => match block.reference {
                    Some(group) => Ok(group),
                    None => Err(
                        EngineError::MissingParameter(
                            String::from_str("Case Block Reference"),
                            id_text(block.id),
                        ),
                    ),
                },
                _ => Err(EngineError::UnsupportedOperation(String::from_str("case block"))),
            },
            _ => Err(EngineError::UnsupportedOperation(String::from_str("case block"))),
        }
    }

    /// Takes the next block of the case.
    ///
    /// Where the dispatcher takes no more blocks, nothing changes. Otherwise
    /// the record of the block is opened; where the block can be dispatched,
    /// the record stays open until the outcome is settled; where it cannot,
    /// the record is closed as failed at once, which ends the case.
    pub fn process(&mut self, block: &CaseBlock) -> (dispatch: CaseDispatch)
        requires
            old(self).wf(),
        ensures
            final(self).wf(),
            final(self)@.case_id == old(self)@.case_id,
            final(self)@.cursor == old(self)@.cursor,
            !old(self)@.pass.accepting() ==> dispatch is Halted && final(self)@ == old(self)@,
            old(self)@.pass.accepting() ==> final(self)@.pass.entries.len() > 0 && match routed(
                *block,
            ) {
                Ok(group) => dispatch == (CaseDispatch::ActionGroup { group, ref_id: block.id })
                    && final(self)@.pass == old(self)@.pass.opened_block(
                    block.id,
                    block.reference,
                    final(self)@.pass.entries.last().id,
                    final(self)@.pass.entries.last().started_at,
                ) && final(self)@.pass.in_flight(),
                Err(reason) => final(self)@.pass.entries.last().finished_at is Some && (
                dispatch matches CaseDispatch::Rejected(error) && error@ == reason && final(self)@.pass == old(self)@.pass.visited(
                    Visit {
                        step_id: block.id,
                        ref_id: block.reference,
                        log_id: final(self)@.pass.entries.last().id,
                        started: final(self)@.pass.entries.last().started_at,
                        finished: final(self)@.pass.entries.last().finished_at.unwrap(),
                        outcome: Err(error),
                    },
                )),
            },
    {
        if !self.pass.open_block(block.id, block.reference) {
            return CaseDispatch::Halted;
        }
        match CaseController::switch_block(block) {
            Ok(group) => CaseDispatch::ActionGroup { group, ref_id: block.id },
            Err(error) => {
                self.pass.close_block(Err(error.duplicate()));
                CaseDispatch::Rejected(error)
            },
        }
    }

    /// The executor of the action group that a block of the case runs.
    pub fn process_action_group(&self, group: u128) -> (controller: ActionController)
        ensures
            controller@ == (GroupView {
                group,
                cursor: PageCursor::start(ACTION_PAGE_SIZE),
                failure: None,
            }),
    {
        ActionController::new(group)
    }

    /// Settles the block in flight with the outcome of its dispatch: its
    /// record is closed, as failed where the dispatch failed, and a failure
    /// ends the case. Without a block in flight nothing changes.
    pub fn settle(&mut self, outcome: Result<(), EngineError>)
        requires
            old(self).wf(),
        ensures
            final(self).wf(),
            final(self)@.case_id == old(self)@.case_id,
            final(self)@.cursor == old(self)@.cursor,
            !final(self)@.pass.in_flight(),
            !old(self)@.pass.in_flight() ==> final(self)@ == old(self)@,
            old(self)@.pass.in_flight() ==> final(self)@.pass.entries.len() > 0 && final(self)@.pass.entries.last().finished_at is Some && final(self)@.pass == old(self)@.pass.settled(outcome, final(self)@.pass.entries.last().finished_at.unwrap()),
    {
        self.pass.close_block(outcome);
    }

    /// Ends the execution of the case: closes its record, as failed where a
    /// failure ended the case, and reports that failure.
    pub fn finish(&mut self) -> (result: Result<(), EngineError>)
        requires
            old(self).wf(),
        ensures
            final(self).wf(),
            final(self)@.case_id == old(self)@.case_id,
            final(self)@.cursor == old(self)@.cursor,
            final(self)@.pass.closed(),
            result == final(self)@.pass.result(),
            old(self)@.pass.closed() ==> final(self)@ == old(self)@,
            !old(self)@.pass.closed() ==> final(self)@.pass.summary.finished_at is Some && final(self)@.pass == old(self)@.pass.concluded(final(self)@.pass.summary.finished_at.unwrap()),
    {
        self.pass.conclude()
    }

    /// The record of the case as it stands.
    pub fn log(&self) -> (log: ItemLog)
        ensures
            log == self@.pass.summary,
    {
        self.pass.summary()
    }

    /// The record of the block that was taken last.
    pub fn block_log(&self) -> (log: Option<ItemLog>)
        ensures
            log is Some <==> self@.pass.entries.len() > 0,
            log matches Some(entry) ==> entry == self@.pass.entries.last(),
    {
        self.pass.last_entry()
    }

    /// The records of the blocks that were taken, in order.
    pub fn block_logs(&self) -> (logs: &Vec<ItemLog>)
        ensures
            logs@ == self@.pass.entries,
    {
        self.pass.entries()
    }

    /// Whether a failure has ended the case.
    pub fn is_halted(&self) -> (halted: bool)
        ensures
            halted == self@.pass.halted(),
    {
        self.pass.is_halted()
    }
}

} // verus!
