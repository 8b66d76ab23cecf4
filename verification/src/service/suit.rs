//! The suite service: the suites of one application and their blocks.
//!
//! An operation on the blocks of a suite is planned first: the position of a
//! new block, the bulk update that shifts the blocks around it. The service
//! carries a plan out on the rows it has at hand; a caller that keeps the
//! rows in storage carries the same plan out there.

use vstd::prelude::*;
use vstd::multiset::Multiset;
use vstd::string::StringExecFns;
use crate::entity::case::Case;
use crate::entity::suite::{copy_text, Suite, SuiteBlock};
use crate::error::{OrcaError, OrcaErrorView, OrcaRepoError, RepoErrorView};
use crate::ident::{fresh_id, hyphenated, id_text, is_random, lemma_random_not_nil, NIL};
use crate::ordering::{
    apply_shift,
    find_block,
    first_at,
    highest,
    highest_order,
    holds,
    index_of,
    insert_plan,
    insert_position,
    inserted,
    lemma_insert_plan,
    lemma_move_plan,
    lemma_move_to_own_position,
    move_plan,
    moved,
    planned_insert,
    planned_move,
    remove_block,
    without,
    InsertPlan,
    Shift,
};

verus! {

/// The suites of one application, with their blocks.
pub struct SuitService {
    /// The application that the service acts for.
    pub app_id: u128,
    /// The suites at hand.
    pub suites: Vec<Suite>,
    /// The blocks at hand, of whichever suite.
    pub blocks: Vec<SuiteBlock>,
}

/// The failure that reports a missing model of the named kind.
pub open spec fn model_not_found(kind: Seq<char>, id: u128) -> OrcaErrorView {
    OrcaErrorView::RepoError(RepoErrorView::ModelNotFound(kind, hyphenated(id)))
}

/// The failure that reports an execution order beyond the range of its field.
pub open spec fn order_out_of_range() -> OrcaErrorView {
    OrcaErrorView::DataBaseError("execution order out of range"@)
}

/// Whether index `at` is the first that holds a suite named `id`.
pub open spec fn suite_at(suites: Seq<Suite>, id: u128, at: int) -> bool {
    &&& 0 <= at < suites.len()
    &&& suites[at].id == id
    &&& forall|j: int| 0 <= j < at ==> suites[j].id != id
}

/// Whether a suite named `id` is at hand.
pub open spec fn has_suite(suites: Seq<Suite>, id: u128) -> bool {
    exists|at: int| suite_at(suites, id, at)
}

/// A block of a batch as it is stored in `suite`: under its own name where
/// it has one, under `fresh` where its name is nil.
pub open spec fn adopted(block: SuiteBlock, suite: u128, fresh: u128) -> SuiteBlock {
    SuiteBlock { id: if block.id == NIL { fresh } else { block.id }, suite_id: suite, ..block }
}

/// Whether index `at` is the first that holds a case named `id`.
pub open spec fn case_at(cases: Seq<Case>, id: u128, at: int) -> bool {
    &&& 0 <= at < cases.len()
    &&& cases[at].id == id
    &&& forall|j: int| 0 <= j < at ==> (#[trigger] cases[j]).id != id
}

/// A block with the name and the description of the case it refers to,
/// where it refers to one of the given cases; the block itself otherwise.
pub open spec fn described(block: SuiteBlock, cases: Seq<Case>) -> SuiteBlock {
    match block.reference {
        Some(reference) => if exists|at: int| case_at(cases, reference, at) {
            let at = choose|at: int| case_at(cases, reference, at);
            SuiteBlock { name: Some(cases[at].name), description: cases[at].description, ..block }
        } else {
            block
        },
        None => block,
    }
}

/// The blocks of the suite `suite`, each with the name and the description
/// of its case.
pub open spec fn listing(blocks: Seq<SuiteBlock>, suite: u128, cases: Seq<Case>) -> Multiset<
    SuiteBlock,
>
    decreases blocks.len(),
{
    if blocks.len() == 0 {
        Multiset::empty()
    } else {
        let rest = listing(blocks.drop_last(), suite, cases);
        if blocks.last().suite_id == suite {
            rest.insert(described(blocks.last(), cases))
        } else {
            rest
        }
    }
}

/// Whether a list of blocks stands in ascending execution order.
pub open spec fn ascending(list: Seq<SuiteBlock>) -> bool {
    forall|i: int, j: int|
        0 <= i < j < list.len() ==> (#[trigger] list[i]).execution_order <= (
        #[trigger] list[j]).execution_order
}

fn find_case(cases: &Vec<Case>, id: u128) -> (found: Option<usize>)
    ensures
        found is Some <==> exists|at: int| case_at(cases@, id, at),
        found matches Some(at) ==> case_at(cases@, id, at as int) && at == choose|at: int|
            case_at(cases@, id, at),
{
    let mut i: usize = 0;
    while i < cases.len()
        invariant
            i <= cases@.len(),
            forall|j: int| 0 <= j < i ==> (#[trigger] cases@[j]).id != id,
        decreases cases@.len() - i,
    {
        if cases[i].id == id {
            proof {
                assert(case_at(cases@, id, i as int));
                let other = choose|at: int| case_at(cases@, id, at);
                assert(case_at(cases@, id, other));
                if other < i {
                    assert(cases@[other].id != id);
                }
                if i < other {
                    assert(cases@[i as int].id != id);
                }
            }
            return Some(i);
        }
        i = i + 1;
    }
    proof {
        if exists|at: int| case_at(cases@, id, at) {
            let at = choose|at: int| case_at(cases@, id, at);
            assert(cases@[at].id == id);
        }
    }
    None
}

fn describe(block: &SuiteBlock, cases: &Vec<Case>) -> (shown: SuiteBlock)
    ensures
        shown == described(*block, cases@),
{
    let mut shown = block.duplicate();
    match block.reference {
        Some(reference) => match find_case(cases, reference) {
            Some(at) => {
                shown.name = Some(cases[at].name.clone());
                shown.description = copy_text(&cases[at].description);
            },
            None => {},
        },
        None => {},
    }
    shown
}

fn not_found(kind: &str, id: u128) -> (error: OrcaError)
    ensures
        error@ == model_not_found(kind@, id),
{
    OrcaError::RepoError(OrcaRepoError::ModelNotFound(String::from_str(kind), id_text(id)))
}

impl SuitService {
    /// A service for the application `app_id`, with no rows at hand.
    pub fn new(app_id: u128) -> (service: SuitService)
        ensures
            service.app_id == app_id,
            service.suites@.len() == 0,
            service.blocks@.len() == 0,
    {
        SuitService { app_id, suites: Vec::new(), blocks: Vec::new() }
    }

    /// Stores a new suite under the identifier `id` in the service's
    /// application, and returns that identifier.
    pub fn create_suit_as(&mut self, body: Suite, id: u128) -> (stored: u128)
        ensures
            stored == id,
            final(self).suites@ == old(self).suites@.push(body.stored(id, old(self).app_id)),
            final(self).blocks@ == old(self).blocks@,
            final(self).app_id == old(self).app_id,
    {
        let mut suite = body;
        suite.id = id;
        suite.app_id = self.app_id;
        self.suites.push(suite);
        id
    }

    /// Stores a new suite under a fresh identifier in the service's
    /// application, and returns that identifier.
    pub fn create_suit(&mut self, body: Suite) -> (stored: u128)
        ensures
            is_random(stored),
            stored != NIL,
            final(self).suites@ == old(self).suites@.push(body.stored(stored, old(self).app_id)),
            final(self).blocks@ == old(self).blocks@,
            final(self).app_id == old(self).app_id,
    {
        let id: u128 = fresh_id();
        proof {
            lemma_random_not_nil(id);
        }
        self.create_suit_as(body, id)
    }

    /// Deletes the suite named `suite_id`. Fails where no such suite is at
    /// hand, and changes nothing in that case.
    pub fn delete(&mut self, suite_id: u128) -> (result: Result<(), OrcaError>)
        ensures
            final(self).app_id == old(self).app_id,
            final(self).blocks@ == old(self).blocks@,
            result is Ok <==> has_suite(old(self).suites@, suite_id),
            result is Ok ==> exists|at: int|
                suite_at(old(self).suites@, suite_id, at) && final(self).suites@ == old(self).suites@.remove(at),
            result matches Err(error) ==> error@ == model_not_found("Suite"@, suite_id) && final(self).suites@ == old(self).suites@,
    {
        let mut i: usize = 0;
        while i < self.suites.len()
            invariant
                i <= self.suites@.len(),
                *self == *old(self),
                forall|j: int| 0 <= j < i ==> self.suites@[j].id != suite_id,
            decreases self.suites@.len() - i,
        {
            if self.suites[i].id == suite_id {
                proof {
                    assert(suite_at(self.suites@, suite_id, i as int));
                }
                self.suites.remove(i);
                return Ok(());
            }
            i = i + 1;
        }
        proof {
            if has_suite(self.suites@, suite_id) {
                let at = choose|at: int| suite_at(self.suites@, suite_id, at);
                assert(self.suites@[at].id == suite_id);
            }
        }
        Err(not_found("Suite", suite_id))
    }

    /// Stores a batch of blocks in the suite `suite_id`. A block with a nil
    /// name gets a fresh one; every block keeps its position.
    pub fn batch_update_suite_block(&mut self, suite_id: u128, body: Vec<SuiteBlock>) -> (result:
        Result<(), OrcaError>)
        ensures
            result is Ok,
            final(self).app_id == old(self).app_id,
            final(self).suites@ == old(self).suites@,
            final(self).blocks@.len() == old(self).blocks@.len() + body@.len(),
            final(self).blocks@.take(old(self).blocks@.len() as int) == old(self).blocks@,
            forall|i: int|
                0 <= i < body@.len() ==> (#[trigger] final(self).blocks@[old(self).blocks@.len()
                    + i]) == adopted(
                    body@[i],
                    suite_id,
                    final(self).blocks@[old(self).blocks@.len() + i].id,
                ) && final(self).blocks@[old(self).blocks@.len() + i].id != NIL,
    {
        let ghost before = self.blocks@;
        let ghost batch = body@;
        let mut rest = body;
        let mut taken: Vec<SuiteBlock> = Vec::new();
        // The batch is taken from its end, so it is put back in two steps.
        while rest.len() > 0
            invariant
                rest@.len() + taken@.len() == batch.len(),
                rest@ == batch.take(rest@.len() as int),
                forall|k: int|
                    0 <= k < taken@.len() ==> (#[trigger] taken@[k]) == adopted(
                        batch[batch.len() - 1 - k],
                        suite_id,
                        taken@[k].id,
                    ) && taken@[k].id != NIL,
            decreases rest@.len(),
        {
            let ghost at = rest@.len() - 1;
            let mut block = rest.pop().unwrap();
            if block.id == NIL {
                let id: u128 = fresh_id();
                proof {
                    lemma_random_not_nil(id);
                }
                block.id = id;
            }
            block.suite_id = suite_id;
            taken.push(block);
            proof {
                assert(rest@ =~= batch.take(at));
            }
        }
        while taken.len() > 0
            invariant
                self.app_id == old(self).app_id,
                self.suites@ == old(self).suites@,
                self.blocks@.len() + taken@.len() == before.len() + batch.len(),
                self.blocks@.take(before.len() as int) == before,
                before.len() <= self.blocks@.len(),
                forall|k: int|
                    0 <= k < taken@.len() ==> (#[trigger] taken@[k]) == adopted(
                        batch[batch.len() - 1 - k],
                        suite_id,
                        taken@[k].id,
                    ) && taken@[k].id != NIL,
                forall|i: int|
                    0 <= i < self.blocks@.len() - before.len() ==> (#[trigger] self.blocks@[before.len()
                        + i]) == adopted(batch[i], suite_id, self.blocks@[before.len() + i].id)
                        && self.blocks@[before.len() + i].id != NIL,
            decreases taken@.len(),
        {
            let ghost stored = self.blocks@;
            let ghost k = taken@.len() - 1;
            let block = taken.pop().unwrap();
            proof {
                assert(block == adopted(batch[batch.len() - 1 - k], suite_id, block.id));
            }
            self.blocks.push(block);
            proof {
                assert(self.blocks@.take(before.len() as int) =~= stored.take(before.len() as int));
                assert forall|i: int| 0 <= i < self.blocks@.len() - before.len() implies (
                #[trigger] self.blocks@[before.len() + i]) == adopted(
                    batch[i],
                    suite_id,
                    self.blocks@[before.len() + i].id,
                ) && self.blocks@[before.len() + i].id != NIL by {
                    if i < stored.len() - before.len() {
                        assert(self.blocks@[before.len() + i] == stored[before.len() + i]);
                    }
                }
            }
        }
        Ok(())
    }

    /// The suite named `suite_id` with its blocks: the blocks of the suite in
    /// ascending execution order, each with the name and the description of
    /// the case it refers to, where `cases` holds that case. Fails where no
    /// such suite is at hand.
    pub fn get_suite_info(&self, suite_id: u128, cases: &Vec<Case>) -> (result: Result<
        Suite,
        OrcaError,
    >)
        ensures
            result is Ok <==> has_suite(self.suites@, suite_id),
            result matches Err(error) ==> error@ == model_not_found("Test Suite"@, suite_id),
            result matches Ok(suite) ==> (exists|at: int|
                suite_at(self.suites@, suite_id, at) && suite == (Suite {
                    suite_execution: suite.suite_execution,
                    ..self.suites@[at]
                })) && (suite.suite_execution matches Some(list) && ascending(list@)
                && list@.to_multiset() == listing(self.blocks@, suite_id, cases@)),
    {
        let mut at: usize = 0;
        while at < self.suites.len() && self.suites[at].id != suite_id
            invariant
                at <= self.suites@.len(),
                forall|j: int| 0 <= j < at ==> self.suites@[j].id != suite_id,
            decreases self.suites@.len() - at,
        {
            at = at + 1;
        }
        if at >= self.suites.len() {
            proof {
                if has_suite(self.suites@, suite_id) {
                    let other = choose|other: int| suite_at(self.suites@, suite_id, other);
                    assert(self.suites@[other].id == suite_id);
                }
            }
            return Err(not_found("Test Suite", suite_id));
        }
        proof {
            assert(suite_at(self.suites@, suite_id, at as int));
        }
        let mut list: Vec<SuiteBlock> = Vec::new();
        let mut i: usize = 0;
        proof {
            assert(list@.to_multiset() =~= Multiset::<SuiteBlock>::empty()) by {
                broadcast use vstd::seq_lib::to_multiset_len;

                assert(list@.to_multiset().len() == 0);
            }
        }
        while i < self.blocks.len()
            invariant
                i <= self.blocks@.len(),
                ascending(list@),
                list@.to_multiset() == listing(self.blocks@.take(i as int), suite_id, cases@),
            decreases self.blocks@.len() - i,
        {
            proof {
                let next = self.blocks@.take(i + 1);
                assert(next.drop_last() =~= self.blocks@.take(i as int));
                assert(next.last() == self.blocks@[i as int]);
            }
            if self.blocks[i].suite_id == suite_id {
                let shown = describe(&self.blocks[i], cases);
                let order: i32 = shown.execution_order;
                let mut position: usize = 0;
                while position < list.len() && list[position].execution_order <= order
                    invariant
                        position <= list@.len(),
                        forall|k: int|
                            0 <= k < position ==> (#[trigger] list@[k]).execution_order <= order,
                    decreases list@.len() - position,
                {
                    position = position + 1;
                }
                let ghost before = list@;
                list.insert(position, shown);
                proof {
                    vstd::seq_lib::to_multiset_insert(before, position as int, shown);
                    assert forall|a: int, b: int| 0 <= a < b < list@.len() implies (
                    #[trigger] list@[a]).execution_order <= (#[trigger] list@[b]).execution_order by {
                        let from_a = if a < position {
                            a
                        } else {
                            a - 1
                        };
                        let from_b = if b < position {
                            b
                        } else {
                            b - 1
                        };
                        if a != position {
                            assert(list@[a] == before[from_a]);
                        }
                        if b != position {
                            assert(list@[b] == before[from_b]);
                        }
                        if a == position {
                            assert(before[position as int].execution_order > order);
                            assert(before[position as int].execution_order
                                <= before[from_b].execution_order || position == from_b);
                        }
                    }
                }
            }
            i = i + 1;
        }
        proof {
            assert(self.blocks@.take(i as int) =~= self.blocks@);
        }
        Ok(
            Suite {
                id: self.suites[at].id,
                name: self.suites[at].name.clone(),
                description: copy_text(&self.suites[at].description),
                app_id: self.suites[at].app_id,
                suite_execution: Some(list),
            },
        )
    }

    /// Plans the insertion of a block into the suite `suite_id`, whose
    /// highest execution order is `top`: the position of the new block and
    /// the bulk update that makes room for it. Fails where the scope already
    /// reaches the highest position there is.
    pub fn push_plan(suite_id: u128, top: Option<i32>, index: Option<i32>) -> (result: Result<
        InsertPlan,
        OrcaError,
    >)
        ensures
            result is Err <==> top == Some(i32::MAX),
            result matches Err(error) ==> error@ == order_out_of_range(),
            result matches Ok(plan) ==> Some(plan) == planned_insert(
                suite_id,
                match top {
                    Some(order) => Some(order as int),
                    None => None,
                },
                index,
            ),
    {
        match insert_plan(suite_id, top, index) {
            Some(plan) => Ok(plan),
            None => Err(OrcaError::DataBaseError(String::from_str("execution order out of range"))),
        }
    }

    /// The block `body` as it is stored in the suite `suite_id` at
    /// `position`, under the identifier `id`.
    pub fn place_block_as(suite_id: u128, body: SuiteBlock, position: i32, id: u128) -> (stored:
        SuiteBlock)
        ensures
            stored == body.stored(id, suite_id, position as int),
    {
        let mut block = body;
        block.id = id;
        block.suite_id = suite_id;
        block.execution_order = position;
        block
    }

    /// The block `body` as it is stored in the suite `suite_id` at
    /// `position`, under a fresh identifier.
    pub fn place_block(suite_id: u128, body: SuiteBlock, position: i32) -> (stored: SuiteBlock)
        ensures
            stored == body.stored(stored.id, suite_id, position as int),
            is_random(stored.id),
            stored.id != NIL,
    {
        let id: u128 = fresh_id();
        proof {
            lemma_random_not_nil(id);
        }
        SuitService::place_block_as(suite_id, body, position, id)
    }

    /// Plans the move of the block named `block_id` to the position
    /// `location`; `found` is that block as it stands. The plan is the block
    /// as it stands afterwards, and the bulk update that shifts the blocks
    /// between its old and its new position. Fails where there is no such
    /// block.
    pub fn reorder_plan(found: Option<&SuiteBlock>, block_id: u128, location: i32) -> (result:
        Result<(SuiteBlock, Option<Shift>), OrcaError>)
        ensures
            result is Ok <==> found is Some,
            result matches Err(error) ==> error@ == model_not_found("Block"@, block_id),
            result matches Ok(plan) ==> plan.0 == found.unwrap().placed(location as int) && plan.1
                == planned_move(found.unwrap().suite_id, found.unwrap().execution_order, location),
    {
        match found {
            None => Err(not_found("Block", block_id)),
            Some(block) => {
                let shift = move_plan(block.suite_id, block.execution_order, location);
                let mut moved = block.duplicate();
                moved.execution_order = location;
                Ok((moved, shift))
            },
        }
    }

    /// Inserts `body` into the suite `suite_id` under the identifier `id`, at
    /// the position `index` or, where none is given or it lies too far
    /// behind, behind the last block. The blocks at that position and behind
    /// it go one position up first. Fails, and changes nothing, where the
    /// scope already reaches the highest position there is.
    pub fn push_block_as(
        &mut self,
        suite_id: u128,
        body: SuiteBlock,
        index: Option<i32>,
        id: u128,
    ) -> (result: Result<SuiteBlock, OrcaError>)
        ensures
            final(self).app_id == old(self).app_id,
            final(self).suites@ == old(self).suites@,
            result is Err <==> highest(old(self).blocks@, suite_id) == Some(i32::MAX as int),
            result matches Err(error) ==> error@ == order_out_of_range() && final(self).blocks@
                == old(self).blocks@,
            result matches Ok(stored) ==> final(self).blocks@ == inserted(
                old(self).blocks@,
                suite_id,
                body,
                index,
                id,
            ) && stored == body.stored(
                id,
                suite_id,
                insert_position(old(self).blocks@, suite_id, index),
            ) && stored.execution_order == insert_position(old(self).blocks@, suite_id, index),
    {
        let top = highest_order(&self.blocks, suite_id);
        let plan = SuitService::push_plan(suite_id, top, index)?;
        proof {
            lemma_insert_plan(self.blocks@, suite_id, index);
        }
        match plan.shift {
            Some(shift) => apply_shift(&mut self.blocks, &shift),
            None => {},
        }
        let block = SuitService::place_block_as(suite_id, body, plan.position, id);
        let stored = block.duplicate();
        self.blocks.push(block);
        Ok(stored)
    }

    /// Inserts `body` into the suite `suite_id` under a fresh identifier; see
    /// [`SuitService::push_block_as`].
    pub fn push_block(&mut self, suite_id: u128, body: SuiteBlock, index: Option<i32>) -> (result:
        Result<SuiteBlock, OrcaError>)
        ensures
            final(self).app_id == old(self).app_id,
            final(self).suites@ == old(self).suites@,
            result is Err <==> highest(old(self).blocks@, suite_id) == Some(i32::MAX as int),
            result matches Err(error) ==> error@ == order_out_of_range() && final(self).blocks@
                == old(self).blocks@,
            result matches Ok(stored) ==> is_random(stored.id) && stored.id != NIL && final(self).blocks@ == inserted(old(self).blocks@, suite_id, body, index, stored.id) && stored
                == body.stored(
                stored.id,
                suite_id,
                insert_position(old(self).blocks@, suite_id, index),
            ) && stored.execution_order == insert_position(old(self).blocks@, suite_id, index),
    {
        let id: u128 = fresh_id();
        proof {
            lemma_random_not_nil(id);
        }
        self.push_block_as(suite_id, body, index, id)
    }

    /// Deletes the blocks named `block_id`. The blocks that stay keep their
    /// positions: the scope has a gap afterwards.
    pub fn delete_block(&mut self, block_id: u128) -> (result: Result<(), OrcaError>)
        ensures
            result is Ok,
            final(self).app_id == old(self).app_id,
            final(self).suites@ == old(self).suites@,
            final(self).blocks@ == without(old(self).blocks@, block_id),
    {
        remove_block(&mut self.blocks, block_id);
        Ok(())
    }

    /// Moves the block named `block_id` to the position `location` of its
    /// suite and returns the block as it stands afterwards. The blocks
    /// between its old and its new position go one position towards the old
    /// one. Fails, and changes nothing, where no such block is at hand.
    pub fn reorder_block(&mut self, block_id: u128, location: i32) -> (result: Result<
        SuiteBlock,
        OrcaError,
    >)
        ensures
            final(self).app_id == old(self).app_id,
            final(self).suites@ == old(self).suites@,
            result is Ok <==> holds(old(self).blocks@, block_id),
            result matches Err(error) ==> error@ == model_not_found("Block"@, block_id) && final(self).blocks@ == old(self).blocks@,
            result matches Ok(block) ==> ({
                let at = index_of(old(self).blocks@, block_id);
                &&& first_at(old(self).blocks@, block_id, at)
                &&& final(self).blocks@ == moved(old(self).blocks@, at, location as int)
                &&& block == old(self).blocks@[at].placed(location as int)
                &&& block.execution_order == location
                &&& old(self).blocks@[at].execution_order == location ==> final(self).blocks@
                    == old(self).blocks@
            }),
    {
        match find_block(&self.blocks, block_id) {
            None => Err(not_found("Block", block_id)),
            Some(at) => {
                proof {
                    if self.blocks@[at as int].execution_order == location {
                        lemma_move_to_own_position(self.blocks@, at as int);
                    }
                    lemma_move_plan(self.blocks@, at as int, location);
                }
                let (moved, shift) = SuitService::reorder_plan(
                    Some(&self.blocks[at]),
                    block_id,
                    location,
                )?;
                match shift {
                    Some(bulk) => apply_shift(&mut self.blocks, &bulk),
                    None => {},
                }
                self.blocks[at].execution_order = location;
                Ok(moved)
            },
        }
    }
}

} // verus!
