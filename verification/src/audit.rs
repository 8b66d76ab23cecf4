//! One pass of a dispatcher over its ordered blocks, with its audit trail.
//!
//! A pass owns the summary record of its node and one record per block. A
//! block is opened right before it is dispatched and settled with the outcome
//! that the dispatch brought back. What a failed block means for the rest of
//! the pass is the failure policy's to say: `Abort` halts the pass at the
//! first failure, `Continue` records the failure and goes on. A storage
//! failure halts the pass under either policy.

use vstd::prelude::*;
use crate::entity::log::{ItemLog, ItemLogStatus, ItemLogType};
use crate::error::EngineError;
use crate::ident::NIL;

verus! {

/// What a failed block means for the blocks behind it.
#[derive(Clone, Copy, Debug, PartialEq, Eq, Structural)]
pub enum FailurePolicy {
    /// The first failure ends the pass; the blocks behind it are not touched.
    Abort,
    /// A failure is recorded, and the pass goes on with the next block.
    Continue,
}

/// A pass in progress.
pub struct AuditPass {
    policy: FailurePolicy,
    block_type: ItemLogType,
    summary: ItemLog,
    entries: Vec<ItemLog>,
    failure: Option<EngineError>,
}

/// The mathematical content of a pass.
pub struct PassView {
    pub policy: FailurePolicy,
    /// The level that the block records are written for.
    pub block_type: ItemLogType,
    /// The record of the node that the pass executes.
    pub summary: ItemLog,
    /// The records of the blocks that were opened, in the order of opening.
    pub entries: Seq<ItemLog>,
    /// The failure that halted the pass.
    pub failure: Option<EngineError>,
}

/// One block as a pass met it: the block, the identifier and the times that
/// its record got, and the outcome of its dispatch.
pub struct Visit {
    pub step_id: u128,
    pub ref_id: Option<u128>,
    pub log_id: u128,
    pub started: i64,
    pub finished: i64,
    pub outcome: Result<(), EngineError>,
}

/// Whether an outcome halts a pass under a policy: a failure under `Abort`,
/// and a storage failure under either policy.
pub open spec fn halts(policy: FailurePolicy, outcome: Result<(), EngineError>) -> bool {
    outcome matches Err(error) && (policy == FailurePolicy::Abort || error.is_storage())
}

impl PassView {
    /// A pass right after its summary record was opened.
    pub open spec fn begun(
        policy: FailurePolicy,
        summary_type: ItemLogType,
        block_type: ItemLogType,
        er_id: i32,
        step_id: u128,
        ref_id: Option<u128>,
        parent: Option<u128>,
        id: u128,
        now: i64,
    ) -> PassView {
        PassView {
            policy,
            block_type,
            summary: ItemLog::opened(id, now, er_id, ref_id, summary_type, step_id, parent),
            entries: Seq::empty(),
            failure: None,
        }
    }

    /// Whether a failure has halted the pass.
    pub open spec fn halted(self) -> bool {
        self.failure is Some
    }

    /// Whether the summary record is closed.
    pub open spec fn closed(self) -> bool {
        !self.summary.running()
    }

    /// Whether a block is opened and not settled yet.
    pub open spec fn in_flight(self) -> bool {
        self.entries.len() > 0 && self.entries.last().running()
    }

    /// Whether the pass takes another block.
    pub open spec fn accepting(self) -> bool {
        !self.halted() && !self.closed() && !self.in_flight()
    }

    /// The record that a block gets when it is opened.
    pub open spec fn entry(self, step_id: u128, ref_id: Option<u128>, id: u128, now: i64) -> ItemLog {
        ItemLog::opened(
            id,
            now,
            self.summary.er_id,
            ref_id,
            self.block_type,
            step_id,
            Some(self.summary.id),
        )
    }

    /// The pass after a block was offered to it: with the block's record
    /// where it takes another block, unchanged where it does not.
    pub open spec fn opened_block(
        self,
        step_id: u128,
        ref_id: Option<u128>,
        id: u128,
        now: i64,
    ) -> PassView {
        if self.accepting() {
            PassView { entries: self.entries.push(self.entry(step_id, ref_id, id, now)), ..self }
        } else {
            self
        }
    }

    /// The pass after the block in flight was settled: its record is closed
    /// by the outcome, and the pass is halted where the outcome halts it.
    /// Without a block in flight nothing changes.
    pub open spec fn settled(self, outcome: Result<(), EngineError>, now: i64) -> PassView {
        if self.in_flight() {
            let entries = self.entries.drop_last().push(
                self.entries.last().closed(outcome is Ok, now),
            );
            if halts(self.policy, outcome) {
                PassView { entries, failure: Some(outcome->Err_0), ..self }
            } else {
                PassView { entries, ..self }
            }
        } else {
            self
        }
    }

    /// The pass after a failure outside of any block, such as the node's own
    /// artifact being absent: halted, whatever the policy. A pass that does
    /// not take another block stays as it is.
    pub open spec fn failed(self, error: EngineError) -> PassView {
        if self.accepting() {
            PassView { failure: Some(error), ..self }
        } else {
            self
        }
    }

    /// The pass after its node finished: a block still in flight is settled
    /// as forbidden, and the summary record is closed, as failed where the
    /// pass was halted. A closed pass stays as it is.
    pub open spec fn concluded(self, now: i64) -> PassView {
        if self.closed() {
            self
        } else {
            let last = self.settled(Err(EngineError::Forbidden), now);
            PassView { summary: last.summary.closed(last.failure is None, now), ..last }
        }
    }

    /// What the pass reports to its caller: the failure that halted it.
    pub open spec fn result(self) -> Result<(), EngineError> {
        match self.failure {
            Some(error) => Err(error),
            None => Ok(()),
        }
    }

    /// The pass after it met one block from opening to settling.
    pub open spec fn visited(self, visit: Visit) -> PassView {
        self.opened_block(visit.step_id, visit.ref_id, visit.log_id, visit.started).settled(
            visit.outcome,
            visit.finished,
        )
    }

    /// The pass after it met a row of blocks, one after the other.
    pub open spec fn walked(self, visits: Seq<Visit>) -> PassView
        decreases visits.len(),
    {
        if visits.len() == 0 {
            self
        } else {
            self.walked(visits.drop_last()).visited(visits.last())
        }
    }

    /// The closed record of a block that the pass met.
    pub open spec fn record(self, visit: Visit) -> ItemLog {
        self.entry(visit.step_id, visit.ref_id, visit.log_id, visit.started).closed(
            visit.outcome is Ok,
            visit.finished,
        )
    }

    /// Whether the pass is consistent: every record is timed as its status
    /// says; every block record belongs to the summary's execution request,
    /// points to the summary as its parent and is of the pass's block level;
    /// only the last block may be in flight, and only in a pass that is
    /// neither halted nor closed; and a closed summary is failed exactly
    /// where the pass was halted.
    pub open spec fn wf(self) -> bool {
        &&& self.summary.wf()
        &&& forall|i: int|
            0 <= i < self.entries.len() ==> {
                &&& (#[trigger] self.entries[i]).wf()
                &&& self.entries[i].er_id == self.summary.er_id
                &&& self.entries[i].log_id == Some(self.summary.id)
                &&& self.entries[i].ref_type == self.block_type
            }
        &&& forall|i: int|
            0 <= i < self.entries.len() - 1 ==> !(#[trigger] self.entries[i]).running()
        &&& self.in_flight() ==> !self.halted() && !self.closed()
        &&& self.closed() ==> (self.summary.status == ItemLogStatus::Success <==> self.failure is None)
    }
}

/// Once a pass is closed, none of its records runs any more: the summary is
/// a success or failed, and so is the record of every block.
pub proof fn lemma_closed_pass_is_settled(pass: PassView)
    requires
        pass.wf(),
        pass.closed(),
    ensures
        !pass.summary.running(),
        forall|i: int| 0 <= i < pass.entries.len() ==> !(#[trigger] pass.entries[i]).running(),
{
    assert forall|i: int| 0 <= i < pass.entries.len() implies !(#[trigger] pass.entries[i]).running() by {
        if i == pass.entries.len() - 1 {
            assert(!pass.in_flight());
        }
    }
}

/// A pass that has met a row of blocks none of which halted it holds one
/// closed record per block, in order, and still takes blocks.
pub proof fn lemma_walk_without_halt(pass: PassView, visits: Seq<Visit>)
    requires
        pass.accepting(),
        forall|i: int| 0 <= i < visits.len() ==> !halts(pass.policy, (#[trigger] visits[i]).outcome),
    ensures
        ({
            let end = pass.walked(visits);
            &&& end.accepting()
            &&& end.policy == pass.policy
            &&& end.block_type == pass.block_type
            &&& end.summary == pass.summary
            &&& end.entries.len() == pass.entries.len() + visits.len()
            &&& end.entries.take(pass.entries.len() as int) == pass.entries
            &&& forall|i: int|
                0 <= i < visits.len() ==> (#[trigger] end.entries[pass.entries.len() + i])
                    == pass.record(visits[i])
        }),
    decreases visits.len(),
{
    if visits.len() == 0 {
        assert(pass.entries.take(pass.entries.len() as int) =~= pass.entries);
    } else {
        let front = visits.drop_last();
        lemma_walk_without_halt(pass, front);
        let middle = pass.walked(front);
        let visit = visits.last();
        let end = middle.visited(visit);
        assert(!halts(pass.policy, visits[visits.len() - 1].outcome));
        let opened = middle.opened_block(visit.step_id, visit.ref_id, visit.log_id, visit.started);
        assert(opened.in_flight());
        assert(opened.entries.drop_last() =~= middle.entries);
        assert(end.entries =~= middle.entries.push(pass.record(visit)));
        assert(end.entries.take(pass.entries.len() as int) =~= middle.entries.take(
            pass.entries.len() as int,
        ));
        assert forall|i: int| 0 <= i < visits.len() implies (#[trigger] end.entries[pass.entries.len()
            + i]) == pass.record(visits[i]) by {
            if i < front.len() {
                assert(end.entries[pass.entries.len() + i] == middle.entries[pass.entries.len()
                    + i]);
                assert(front[i] == visits[i]);
            }
        }
    }
}

/// A pass that has met a row of blocks, of which the one at index `k` is the
/// first to halt it, holds the closed records of the blocks up to `k` and no
/// record of a block behind `k`; it is halted by the failure of block `k`.
pub proof fn lemma_walk_until_halt(pass: PassView, visits: Seq<Visit>, k: int)
    requires
        pass.accepting(),
        0 <= k < visits.len(),
        forall|i: int| 0 <= i < k ==> !halts(pass.policy, (#[trigger] visits[i]).outcome),
        halts(pass.policy, visits[k].outcome),
    ensures
        ({
            let end = pass.walked(visits);
            &&& end.halted()
            &&& !end.in_flight()
            &&& end.failure == Some(visits[k].outcome->Err_0)
            &&& end.policy == pass.policy
            &&& end.block_type == pass.block_type
            &&& end.summary == pass.summary
            &&& end.entries.len() == pass.entries.len() + k + 1
            &&& end.entries.take(pass.entries.len() as int) == pass.entries
            &&& forall|i: int|
                0 <= i <= k ==> (#[trigger] end.entries[pass.entries.len() + i]) == pass.record(
                    visits[i],
                )
        }),
    decreases visits.len(),
{
    let front = visits.drop_last();
    let visit = visits.last();
    if visits.len() == k + 1 {
        assert forall|i: int| 0 <= i < front.len() implies !halts(
            pass.policy,
            (#[trigger] front[i]).outcome,
        ) by {
            assert(front[i] == visits[i]);
        }
        lemma_walk_without_halt(pass, front);
        let middle = pass.walked(front);
        let end = middle.visited(visit);
        let opened = middle.opened_block(visit.step_id, visit.ref_id, visit.log_id, visit.started);
        assert(opened.in_flight());
        assert(opened.entries.drop_last() =~= middle.entries);
        assert(end.entries =~= middle.entries.push(pass.record(visit)));
        assert(end.entries.take(pass.entries.len() as int) =~= middle.entries.take(
            pass.entries.len() as int,
        ));
        assert forall|i: int| 0 <= i <= k implies (#[trigger] end.entries[pass.entries.len() + i])
            == pass.record(visits[i]) by {
            if i < k {
                assert(end.entries[pass.entries.len() + i] == middle.entries[pass.entries.len()
                    + i]);
                assert(front[i] == visits[i]);
            }
        }
    } else {
        assert forall|i: int| 0 <= i < k implies !halts(pass.policy, (#[trigger] front[i]).outcome) by {
            assert(front[i] == visits[i]);
        }
        assert(front[k] == visits[k]);
        lemma_walk_until_halt(pass, front, k);
        let middle = pass.walked(front);
        assert(middle.visited(visit) == middle);
    }
}

/// Under the policy `Continue`, a failed block does not end the pass: where
/// no block fails on storage, the pass holds one closed record per block,
/// in order, each failed exactly where its block failed, and the summary is
/// closed as a success.
pub proof fn lemma_continue_logs_every_block(pass: PassView, visits: Seq<Visit>, now: i64)
    requires
        pass.accepting(),
        pass.entries.len() == 0,
        pass.policy == FailurePolicy::Continue,
        forall|i: int|
            0 <= i < visits.len() && (#[trigger] visits[i]).outcome is Err
                ==> !visits[i].outcome->Err_0.is_storage(),
    ensures
        ({
            let end = pass.walked(visits);
            &&& end.entries.len() == visits.len()
            &&& forall|i: int|
                0 <= i < visits.len() ==> {
                    &&& (#[trigger] end.entries[i]) == pass.record(visits[i])
                    &&& end.entries[i].step_id == visits[i].step_id
                    &&& end.entries[i].status == if visits[i].outcome is Ok {
                        ItemLogStatus::Success
                    } else {
                        ItemLogStatus::Failed
                    }
                }
            &&& !end.halted()
            &&& end.concluded(now).entries == end.entries
            &&& end.concluded(now).summary.status == ItemLogStatus::Success
            &&& end.concluded(now).result() is Ok
        }),
{
    assert forall|i: int| 0 <= i < visits.len() implies !halts(
        pass.policy,
        (#[trigger] visits[i]).outcome,
    ) by {}
    lemma_walk_without_halt(pass, visits);
    let end = pass.walked(visits);
    assert forall|i: int| 0 <= i < visits.len() implies (#[trigger] end.entries[i]) == pass.record(
        visits[i],
    ) by {
        assert(end.entries[pass.entries.len() + i] == pass.record(visits[i]));
    }
}

/// Under the policy `Abort`, the first failed block ends the pass: the pass
/// holds the closed records of the blocks before it, all successes, and the
/// failed record of the block itself; the blocks behind it have no record;
/// and the summary is closed as failed, with the block's failure as the
/// result.
pub proof fn lemma_abort_stops_at_first_failure(
    pass: PassView,
    visits: Seq<Visit>,
    k: int,
    now: i64,
)
    requires
        pass.accepting(),
        pass.entries.len() == 0,
        pass.policy == FailurePolicy::Abort,
        0 <= k < visits.len(),
        forall|i: int| 0 <= i < k ==> (#[trigger] visits[i]).outcome is Ok,
        visits[k].outcome is Err,
    ensures
        ({
            let end = pass.walked(visits);
            &&& end.entries.len() == k + 1
            &&& forall|i: int|
                0 <= i < k ==> (#[trigger] end.entries[i]) == pass.record(visits[i])
                    && end.entries[i].status == ItemLogStatus::Success
            &&& end.entries[k] == pass.record(visits[k])
            &&& end.entries[k].status == ItemLogStatus::Failed
            &&& end.failure == Some(visits[k].outcome->Err_0)
            &&& end.concluded(now).entries == end.entries
            &&& end.concluded(now).summary.status == ItemLogStatus::Failed
            &&& end.concluded(now).result() == Err::<(), EngineError>(visits[k].outcome->Err_0)
        }),
{
    assert forall|i: int| 0 <= i < k implies !halts(pass.policy, (#[trigger] visits[i]).outcome) by {}
    lemma_walk_until_halt(pass, visits, k);
    let end = pass.walked(visits);
    assert forall|i: int| 0 <= i <= k implies (#[trigger] end.entries[i]) == pass.record(
        visits[i],
    ) by {
        assert(end.entries[pass.entries.len() + i] == pass.record(visits[i]));
    }
}

impl View for AuditPass {
    type V = PassView;

    closed spec fn view(&self) -> PassView {
        PassView {
            policy: self.policy,
            block_type: self.block_type,
            summary: self.summary,
            entries: self.entries@,
            failure: self.failure,
        }
    }
}

impl AuditPass {
    /// Begins a pass: opens the summary record of the node `step_id`, now and
    /// under a fresh identifier.
    pub fn begin(
        policy: FailurePolicy,
        summary_type: ItemLogType,
        block_type: ItemLogType,
        er_id: i32,
        step_id: u128,
        ref_id: Option<u128>,
        parent: Option<u128>,
    ) -> (pass: AuditPass)
        ensures
            pass@ == PassView::begun(
                policy,
                summary_type,
                block_type,
                er_id,
                step_id,
                ref_id,
                parent,
                pass@.summary.id,
                pass@.summary.started_at,
            ),
            pass@.summary.id != NIL,
            pass@.accepting(),
            pass@.wf(),
    {
        let summary = ItemLog::new(er_id, ref_id, summary_type, step_id, parent);
        AuditPass { policy, block_type, summary, entries: Vec::new(), failure: None }
    }

    /// The failure policy of the pass.
    pub fn policy(&self) -> (policy: FailurePolicy)
        ensures
            policy == self@.policy,
    {
        self.policy
    }

    /// The summary record as it stands.
    pub fn summary(&self) -> (summary: ItemLog)
        ensures
            summary == self@.summary,
    {
        self.summary
    }

    /// The block records as they stand, in the order of opening.
    pub fn entries(&self) -> (entries: &Vec<ItemLog>)
        ensures
            entries@ == self@.entries,
    {
        &self.entries
    }

    /// The record of the block that was opened last.
    pub fn last_entry(&self) -> (entry: Option<ItemLog>)
        ensures
            entry is Some <==> self@.entries.len() > 0,
            entry matches Some(log) ==> log == self@.entries.last(),
    {
        let n: usize = self.entries.len();
        if n == 0 {
            None
        } else {
            Some(self.entries[n - 1])
        }
    }

    /// Whether a failure has halted the pass.
    pub fn is_halted(&self) -> (halted: bool)
        ensures
            halted == self@.halted(),
    {
        self.failure.is_some()
    }

    /// Whether the summary record is closed.
    pub fn is_closed(&self) -> (closed: bool)
        ensures
            closed == self@.closed(),
    {
        match self.summary.status {
            ItemLogStatus::Running => false,
            _ => true,
        }
    }

    /// Whether a block is opened and not settled yet.
    pub fn is_in_flight(&self) -> (in_flight: bool)
        ensures
            in_flight == self@.in_flight(),
    {
        let n: usize = self.entries.len();
        if n == 0 {
            false
        } else {
            match self.entries[n - 1].status {
                ItemLogStatus::Running => true,
                _ => false,
            }
        }
    }

    /// Whether the pass takes another block.
    pub fn is_accepting(&self) -> (accepting: bool)
        ensures
            accepting == self@.accepting(),
    {
        !self.is_halted() && !self.is_closed() && !self.is_in_flight()
    }

    /// Offers a block to the pass. Where the pass takes another block, the
    /// block's record is opened, now and under a fresh identifier; where it
    /// does not, nothing changes.
    pub fn open_block(&mut self, step_id: u128, ref_id: Option<u128>) -> (opened: bool)
        requires
            old(self)@.wf(),
        ensures
            final(self)@.wf(),
            opened == old(self)@.accepting(),
            opened ==> final(self)@.entries.len() > 0 && final(self)@ == old(self)@.opened_block(
                step_id,
                ref_id,
                final(self)@.entries.last().id,
                final(self)@.entries.last().started_at,
            ) && final(self)@.entries.last().id != NIL && final(self)@.in_flight(),
            !opened ==> final(self)@ == old(self)@,
    {
        if !self.is_accepting() {
            return false;
        }
        let entry = ItemLog::new(
            self.summary.er_id,
            ref_id,
            self.block_type,
            step_id,
            Some(self.summary.id),
        );
        self.entries.push(entry);
        true
    }

    /// Settles the block in flight with the outcome of its dispatch: closes
    /// its record now, and halts the pass where the outcome halts it.
    /// Without a block in flight nothing changes.
    pub fn close_block(&mut self, outcome: Result<(), EngineError>)
        requires
            old(self)@.wf(),
        ensures
            final(self)@.wf(),
            !final(self)@.in_flight(),
            old(self)@.in_flight() ==> final(self)@.entries.len() > 0 && final(self)@.entries.last().finished_at is Some && final(self)@ == old(self)@.settled(
                outcome,
                final(self)@.entries.last().finished_at.unwrap(),
            ),
            !old(self)@.in_flight() ==> final(self)@ == old(self)@,
    {
        if !self.is_in_flight() {
            return ;
        }
        let ghost before = self@;
        let mut entry = self.entries.pop().unwrap();
        match outcome {
            Ok(_) => {
                entry.save_status(true);
                self.entries.push(entry);
            },
            Err(error) => {
                entry.save_status(false);
                self.entries.push(entry);
                let halting = match self.policy {
                    FailurePolicy::Abort => true,
                    FailurePolicy::Continue => error.from_storage(),
                };
                if halting {
                    self.failure = Some(error);
                }
            },
        }
        proof {
            let now = entry.finished_at.unwrap();
            assert(self@.entries =~= before.settled(outcome, now).entries);
        }
    }

    /// Records a failure outside of any block and halts the pass. A pass
    /// that does not take another block stays as it is.
    pub fn fail(&mut self, error: EngineError)
        requires
            old(self)@.wf(),
        ensures
            final(self)@.wf(),
            final(self)@ == old(self)@.failed(error),
    {
        if self.is_accepting() {
            self.failure = Some(error);
        }
    }

    /// Concludes the pass: settles a block still in flight as forbidden,
    /// closes the summary record now, and reports the failure that halted
    /// the pass. A closed pass stays as it is and reports the same again.
    pub fn conclude(&mut self) -> (result: Result<(), EngineError>)
        requires
            old(self)@.wf(),
        ensures
            final(self)@.wf(),
            final(self)@.closed(),
            result == final(self)@.result(),
            old(self)@.closed() ==> final(self)@ == old(self)@,
            !old(self)@.closed() ==> final(self)@.summary.finished_at is Some && final(self)@
                == old(self)@.concluded(final(self)@.summary.finished_at.unwrap()),
    {
        if !self.is_closed() {
            let now: i64 = crate::clock::now_millis();
            self.conclude_at(now);
        }
        match &self.failure {
            Some(error) => Err(error.duplicate()),
            None => Ok(()),
        }
    }

    /// Concludes an open pass at the time `now`.
    fn conclude_at(&mut self, now: i64)
        requires
            old(self)@.wf(),
            !old(self)@.closed(),
        ensures
            final(self)@.wf(),
            final(self)@ == old(self)@.concluded(now),
            final(self)@.summary.finished_at == Some(now),
    {
        let ghost before = self@;
        if self.is_in_flight() {
            let mut entry = self.entries.pop().unwrap();
            entry.close_at(false, now);
            self.entries.push(entry);
            let halting = match self.policy {
                FailurePolicy::Abort => true,
                FailurePolicy::Continue => false,
            };
            if halting {
                self.failure = Some(EngineError::Forbidden);
            }
        }
        proof {
            assert(self@.entries =~= before.settled(Err(EngineError::Forbidden), now).entries);
        }
        let succeeded = self.failure.is_none();
        self.summary.close_at(succeeded, now);
    }
}

} // verus!
