//! The suite dispatcher: the blocks of one suite, in ascending execution
//! order, under the continue policy.
//!
//! The dispatcher opens the record of the suite, takes the blocks one by
//! one, opens a record for each, says which case the block runs, and closes
//! the record with what came of the case. A block that fails is recorded as
//! failed, and the suite goes on with the next one; only a storage failure
//! ends the suite early.

use vstd::prelude::*;
use vstd::string::StringExecFns;
use crate::audit::{AuditPass, FailurePolicy, PassView, Visit};
use crate::controller::case::{CaseController, CASE_PAGE_SIZE};
use crate::entity::log::{ItemLog, ItemLogType};
use crate::entity::request::{ExecutionKind, ExecutionRequest, ExecutionStatus, ExecutionType};
use crate::entity::suite::{Suite, SuiteBlock, SuiteBlockType};
use crate::error::{EngineError, EngineErrorView};
use crate::ident::{hyphenated, id_text, NIL};
use crate::paging::{PageCursor, PageRequest};

verus! {

/// How many blocks of a suite are loaded at once.
pub const SUITE_PAGE_SIZE: u64 = 10;

/// Where a block of a suite goes.
#[derive(Debug)]
pub enum SuiteDispatch {
    /// The case `case` is to be executed on behalf of the block `ref_id`,
    /// under the record of the suite, and the outcome handed to
    /// [`SuiteController::settle`].
    TestCase { case: u128, ref_id: u128 },
    /// The block cannot be dispatched. Its record is closed as failed.
    Rejected(EngineError),
    /// The dispatcher takes no more blocks. The block has no record.
    Halted,
}

/// The dispatcher of one suite.
pub struct SuiteController {
    suite_id: u128,
    pass: AuditPass,
    cursor: PageCursor,
}

/// The mathematical content of a [`SuiteController`].
pub struct SuiteView {
    /// The suite that is executed.
    pub suite_id: u128,
    /// The pass over the blocks of the suite.
    pub pass: PassView,
    /// The cursor over the blocks of the suite.
    pub cursor: PageCursor,
}

/// Where a block of a suite is dispatched to: the case it names. A block
/// that names nothing is reported as a missing parameter of the block.
pub open spec fn routed(block: SuiteBlock) -> Result<u128, EngineErrorView> {
    match block.type_field {
        SuiteBlockType::TestCase => match block.reference {
            Some(case) => Ok(case),
            None => Err(
                EngineErrorView::MissingParameter("Suite Reference"@, hyphenated(block.id)),
            ),
        },
    }
}

/// The description of a run of the suite `id`.
pub open spec fn suite_run_description(id: u128) -> Seq<char> {
    "[TS] Executing - "@ + hyphenated(id)
}

impl View for SuiteController {
    type V = SuiteView;

    closed spec fn view(&self) -> SuiteView {
        SuiteView { suite_id: self.suite_id, pass: self.pass@, cursor: self.cursor }
    }
}

impl SuiteController {
    /// Whether the dispatcher is consistent.
    pub open spec fn wf(&self) -> bool {
        self@.pass.wf()
    }

    /// Sets a run of the suite `id` off: the execution request of the run,
    /// started now, to be stored before the suite executes.
    pub fn run(id: u128, is_dry_run: bool) -> (request: ExecutionRequest)
        ensures
            request.description matches Some(text) && text@ == suite_run_description(id),
            request == ExecutionRequest::triggered(
                id,
                ExecutionType::TestSuite,
                ExecutionKind::Trigger,
                ExecutionStatus::Started,
                0,
                is_dry_run,
                request.description,
                request.triggered_at,
            ),
    {
        let description = String::from_str("[TS] Executing - ").concat(id_text(id).as_str());
        ExecutionRequest::new(
            id,
            ExecutionType::TestSuite,
            ExecutionKind::Trigger,
            ExecutionStatus::Started,
            0,
            is_dry_run,
            Some(description),
        )
    }

    /// Begins the execution of the suite `id` within the run `er`: opens the
    /// record of the suite under the parent record `log`.
    pub fn new(er: &ExecutionRequest, id: u128, log: Option<&ItemLog>) -> (controller:
        SuiteController)
        ensures
            controller.wf(),
            controller@.suite_id == id,
            controller@.cursor == PageCursor::start(SUITE_PAGE_SIZE),
            controller@.pass == PassView::begun(
                FailurePolicy::Continue,
                ItemLogType::TestSuite,
                ItemLogType::TestSuiteBlock,
                er.id,
                id,
                None,
                match log {
                    Some(parent) => Some(parent.id),
                    None => None,
                },
                controller@.pass.summary.id,
                controller@.pass.summary.started_at,
            ),
            controller@.pass.summary.id != NIL,
            controller@.pass.accepting(),
    {
        let parent: Option<u128> = match log {
            Some(record) => Some(record.id),
            None => None,
        };
        let pass = AuditPass::begin(
            FailurePolicy::Continue,
            ItemLogType::TestSuite,
            ItemLogType::TestSuiteBlock,
            er.id,
            id,
            None,
            parent,
        );
        SuiteController { suite_id: id, pass, cursor: PageCursor::new(SUITE_PAGE_SIZE) }
    }

    /// Takes the suite as it was loaded. Where there is no such suite, the
    /// execution fails as not found: no block is taken any more.
    pub fn execute(&mut self, suite: Option<&Suite>)
        requires
            old(self).wf(),
        ensures
            final(self).wf(),
            final(self)@.suite_id == old(self)@.suite_id,
            final(self)@.cursor == old(self)@.cursor,
            suite is Some || !old(self)@.pass.accepting() ==> final(self)@ == old(self)@,
            suite is None && old(self)@.pass.accepting() ==> (final(self)@.pass.failure matches Some(
                error,
            ) && error@ == EngineErrorView::NotFound("Suite"@, hyphenated(old(self)@.suite_id))
                && final(self)@.pass == old(self)@.pass.failed(error)),
    {
        if suite.is_none() {
            let error = EngineError::NotFound(String::from_str("Suite"), id_text(self.suite_id));
            self.pass.fail(error);
        }
    }

    /// The page of blocks to load next, in ascending execution order: none
    /// once the suite has ended early, its record is closed or its blocks
    /// are used up.
    pub fn next_page(&self) -> (request: Option<PageRequest>)
        ensures
            request == if self@.pass.halted() || self@.pass.closed() {
                None
            } else {
                self@.cursor.pending()
            },
    {
        if self.pass.is_halted() || self.pass.is_closed() {
            None
        } else {
            self.cursor.request()
        }
    }

    /// Takes note of the page of blocks that was loaded.
    pub fn page_received(&mut self, rows: usize)
        ensures
            final(self)@ == (SuiteView { cursor: old(self)@.cursor.advanced(rows), ..old(self)@ }),
    {
        self.cursor.received(rows);
    }

    /// Where a block is dispatched to.
    pub fn switch_block(block: &SuiteBlock) -> (route: Result<u128, EngineError>)
        ensures
            route is Ok <==> routed(*block) is Ok,
            route matches Ok(case) ==> routed(*block) == Ok::<u128, EngineErrorView>(case),
            route matches Err(error) ==> routed(*block) == Err::<u128, EngineErrorView>(error@),
    {
        match block.type_field {
            SuiteBlockType::TestCase => match block.reference {
                Some(case) => Ok(case),
                None => Err(
                    EngineError::MissingParameter(
                        String::from_str("Suite Reference"),
                        id_text(block.id),
                    ),
                ),
            },
        }
    }

    /// Takes the next block of the suite.
    ///
    /// Where the dispatcher takes no more blocks, nothing changes. Otherwise
    /// the record of the block is opened; where the block names a case, the
    /// record stays open until the outcome is settled; where it names none,
    /// the record is closed as failed at once, and the suite goes on.
    pub fn process(&mut self, block: &SuiteBlock) -> (dispatch: SuiteDispatch)
        requires
            old(self).wf(),
        ensures
            final(self).wf(),
            final(self)@.suite_id == old(self)@.suite_id,
            final(self)@.cursor == old(self)@.cursor,
            !old(self)@.pass.accepting() ==> dispatch is Halted && final(self)@ == old(self)@,
            old(self)@.pass.accepting() ==> final(self)@.pass.entries.len() > 0 && match routed(
                *block,
            ) {
                Ok(case) => dispatch == (SuiteDispatch::TestCase { case, ref_id: block.id })
                    && final(self)@.pass == old(self)@.pass.opened_block(
                    block.id,
                    block.reference,
                    final(self)@.pass.entries.last().id,
                    final(self)@.pass.entries.last().started_at,
                ) && final(self)@.pass.in_flight(),
                Err(reason) => final(self)@.pass.entries.last().finished_at is Some && (
                dispatch matches SuiteDispatch::Rejected(error) && error@ == reason && final(self)@.pass == old(self)@.pass.visited(
                    Visit {
                        step_id: block.id,
                        ref_id: block.reference,
                        log_id: final(self)@.pass.entries.last().id,
                        started: final(self)@.pass.entries.last().started_at,
                        finished: final(self)@.pass.entries.last().finished_at.unwrap(),
                        outcome: Err(error),
                    },
                )),
            },
    {
        if !self.pass.open_block(block.id, block.reference) {
            return SuiteDispatch::Halted;
        }
        match SuiteController::switch_block(block) {
            Ok(case) => SuiteDispatch::TestCase { case, ref_id: block.id },
            Err(error) => {
                self.pass.close_block(Err(error.duplicate()));
                SuiteDispatch::Rejected(error)
            },
        }
    }

    /// The dispatcher of the case that a block of the suite runs: the case
    /// `case` executes on behalf of the block `ref_id`, and its record hangs
    /// below the record of the suite.
    pub fn open_case(&self, er: &ExecutionRequest, case: u128, ref_id: u128) -> (controller:
        CaseController)
        ensures
            controller.wf(),
            controller@.case_id == case,
            controller@.cursor == PageCursor::start(CASE_PAGE_SIZE),
            controller@.pass == PassView::begun(
                FailurePolicy::Abort,
                ItemLogType::TestCase,
                ItemLogType::TestCaseBlock,
                er.id,
                case,
                Some(ref_id),
                Some(self@.pass.summary.id),
                controller@.pass.summary.id,
                controller@.pass.summary.started_at,
            ),
            controller@.pass.summary.id != NIL,
            controller@.pass.accepting(),
    {
        let parent = self.pass.summary();
        CaseController::new(er, case, Some(&parent), Some(ref_id))
    }

    /// Settles the block in flight with the outcome of its case: its record
    /// is closed, as failed where the case failed. The suite goes on unless
    /// the failure came from storage. Without a block in flight nothing
    /// changes.
    pub fn settle(&mut self, outcome: Result<(), EngineError>)
        requires
            old(self).wf(),
        ensures
            final(self).wf(),
            final(self)@.suite_id == old(self)@.suite_id,
            final(self)@.cursor == old(self)@.cursor,
            !final(self)@.pass.in_flight(),
            !old(self)@.pass.in_flight() ==> final(self)@ == old(self)@,
            old(self)@.pass.in_flight() ==> final(self)@.pass.entries.len() > 0 && final(self)@.pass.entries.last().finished_at is Some && final(self)@.pass == old(self)@.pass.settled(outcome, final(self)@.pass.entries.last().finished_at.unwrap()),
    {
        self.pass.close_block(outcome);
    }

    /// Ends the execution of the suite: closes its record, as failed where
    /// the suite ended early, and reports that failure. Failed blocks that
    /// the suite went on from do not fail the suite.
    pub fn finish(&mut self) -> (result: Result<(), EngineError>)
        requires
            old(self).wf(),
        ensures
            final(self).wf(),
            final(self)@.suite_id == old(self)@.suite_id,
            final(self)@.cursor == old(self)@.cursor,
            final(self)@.pass.closed(),
            result == final(self)@.pass.result(),
            old(self)@.pass.closed() ==> final(self)@ == old(self)@,
            !old(self)@.pass.closed() ==> final(self)@.pass.summary.finished_at is Some && final(self)@.pass == old(self)@.pass.concluded(final(self)@.pass.summary.finished_at.unwrap()),
    {
        self.pass.conclude()
    }

    /// The record of the suite as it stands.
    pub fn log(&self) -> (log: ItemLog)
        ensures
            log == self@.pass.summary,
    {
        self.pass.summary()
    }

    /// The record of the block that was taken last.
    pub fn block_log(&self) -> (log: Option<ItemLog>)
        ensures
            log is Some <==> self@.pass.entries.len() > 0,
            log matches Some(entry) ==> entry == self@.pass.entries.last(),
    {
        self.pass.last_entry()
    }

    /// The records of the blocks that were taken, in order.
    pub fn block_logs(&self) -> (logs: &Vec<ItemLog>)
        ensures
            logs@ == self@.pass.entries,
    {
        self.pass.entries()
    }

    /// Whether a failure has ended the suite early.
    pub fn is_halted(&self) -> (halted: bool)
        ensures
            halted == self@.pass.halted(),
    {
        self.pass.is_halted()
    }
}

} // verus!
