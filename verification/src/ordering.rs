//! The block ordering engine.
//!
//! Every block of a suite carries an execution order. The engine inserts a
//! block at a position and moves a block to a position, shifting the blocks
//! in between by one, and removes blocks without renumbering the rest. A
//! table of blocks may hold the blocks of many suites; each operation touches
//! the blocks of one suite only, its scope.

use vstd::prelude::*;
use crate::entity::suite::SuiteBlock;

verus! {

/// The highest execution order in the scope of `suite`, if the scope holds a
/// block at all.
pub open spec fn highest(blocks: Seq<SuiteBlock>, suite: u128) -> Option<int>
    decreases blocks.len(),
{
    if blocks.len() == 0 {
        None
    } else {
        let rest = highest(blocks.drop_last(), suite);
        let block = blocks.last();
        if block.suite_id != suite {
            rest
        } else {
            match rest {
                None => Some(block.execution_order as int),
                Some(top) => if top < block.execution_order {
                    Some(block.execution_order as int)
                } else {
                    Some(top)
                },
            }
        }
    }
}

/// The position behind the last block of the scope: one more than the highest
/// execution order, and 1 in an empty scope.
pub open spec fn last_index(blocks: Seq<SuiteBlock>, suite: u128) -> int {
    match highest(blocks, suite) {
        None => 1,
        Some(top) => top + 1,
    }
}

/// The position a new block is placed at: the desired one where it does not
/// lie behind the last index, the last index otherwise.
pub open spec fn insert_position(blocks: Seq<SuiteBlock>, suite: u128, desired: Option<i32>) -> int {
    let last = last_index(blocks, suite);
    match desired {
        Some(position) => if position > last {
            last
        } else {
            position as int
        },
        None => last,
    }
}

/// A block after room was made at position `from` of the scope of `suite`:
/// one position up where it stood at `from` or behind it.
pub open spec fn shifted_up(block: SuiteBlock, suite: u128, from: int) -> SuiteBlock {
    if block.suite_id == suite && block.execution_order >= from {
        block.placed(block.execution_order + 1)
    } else {
        block
    }
}

/// The table after room was made at position `from` of the scope of `suite`.
pub open spec fn with_room(blocks: Seq<SuiteBlock>, suite: u128, from: int) -> Seq<SuiteBlock> {
    blocks.map_values(|block: SuiteBlock| shifted_up(block, suite, from))
}

/// The table after `body` was inserted into the scope of `suite` under the
/// identifier `id`.
pub open spec fn inserted(
    blocks: Seq<SuiteBlock>,
    suite: u128,
    body: SuiteBlock,
    desired: Option<i32>,
    id: u128,
) -> Seq<SuiteBlock> {
    let position = insert_position(blocks, suite, desired);
    with_room(blocks, suite, position).push(body.stored(id, suite, position))
}

/// A block of the table after another block of the scope of `suite` moved
/// from position `old` to position `new`: one position down where it stood
/// behind `old` up to `new`, one position up where it stood from `new` up to
/// before `old`.
pub open spec fn relocated(block: SuiteBlock, suite: u128, old: int, new: int) -> SuiteBlock {
    if block.suite_id != suite {
        block
    } else if old < block.execution_order <= new {
        block.placed(block.execution_order - 1)
    } else if new <= block.execution_order < old {
        block.placed(block.execution_order + 1)
    } else {
        block
    }
}

/// The table after the block at index `at` moved to position `new`.
pub open spec fn moved(blocks: Seq<SuiteBlock>, at: int, new: int) -> Seq<SuiteBlock> {
    Seq::new(
        blocks.len(),
        |j: int|
            if j == at {
                blocks[at].placed(new)
            } else {
                relocated(
                    blocks[j],
                    blocks[at].suite_id,
                    blocks[at].execution_order as int,
                    new,
                )
            },
    )
}

/// Whether index `at` is the first of the table that holds a block named `id`.
pub open spec fn first_at(blocks: Seq<SuiteBlock>, id: u128, at: int) -> bool {
    &&& 0 <= at < blocks.len()
    &&& blocks[at].id == id
    &&& forall|j: int| 0 <= j < at ==> blocks[j].id != id
}

/// Whether the table holds a block named `id`.
pub open spec fn holds(blocks: Seq<SuiteBlock>, id: u128) -> bool {
    exists|at: int| first_at(blocks, id, at)
}

/// The first index of the table that holds a block named `id`.
pub open spec fn index_of(blocks: Seq<SuiteBlock>, id: u128) -> int {
    choose|at: int| first_at(blocks, id, at)
}

/// The table without the blocks named `id`. The other blocks keep their
/// execution order: a removal leaves a gap.
pub open spec fn without(blocks: Seq<SuiteBlock>, id: u128) -> Seq<SuiteBlock> {
    blocks.filter(|block: SuiteBlock| block.id != id)
}

/// Whether index `at` of the table holds a block of the scope of `suite` at
/// position `order`.
pub open spec fn stands_at(blocks: Seq<SuiteBlock>, suite: u128, order: int, at: int) -> bool {
    &&& 0 <= at < blocks.len()
    &&& blocks[at].suite_id == suite
    &&& blocks[at].execution_order == order
}

/// Whether some block of the scope of `suite` stands at position `order`.
pub open spec fn occupied(blocks: Seq<SuiteBlock>, suite: u128, order: int) -> bool {
    exists|at: int| stands_at(blocks, suite, order, at)
}

/// Whether no two blocks of the scope of `suite` share a position.
pub open spec fn distinct_orders(blocks: Seq<SuiteBlock>, suite: u128) -> bool {
    forall|i: int, j: int|
        0 <= i < blocks.len() && 0 <= j < blocks.len() && i != j && (#[trigger] blocks[i]).suite_id
            == suite && (#[trigger] blocks[j]).suite_id == suite ==> blocks[i].execution_order
            != blocks[j].execution_order
}

/// Whether the scope of `suite` is dense with `size` blocks: no two blocks
/// share a position, and the occupied positions are exactly `1..=size`.
pub open spec fn dense(blocks: Seq<SuiteBlock>, suite: u128, size: int) -> bool {
    &&& distinct_orders(blocks, suite)
    &&& forall|order: int| #[trigger] occupied(blocks, suite, order) <==> 1 <= order <= size
}

/// A bulk update of execution orders: every block of the scope of `suite`
/// that stands at a position from `first` to `last` goes one position up or
/// down.
#[derive(Clone, Copy, Debug, PartialEq, Eq, Structural)]
pub struct Shift {
    pub suite: u128,
    /// The first position that is shifted.
    pub first: i32,
    /// The last position that is shifted.
    pub last: i32,
    /// Whether the blocks go up; they go down otherwise.
    pub up: bool,
}

/// What an insertion does to the blocks that stand already: the position of
/// the new block, and the shift that makes room for it, if room is needed.
#[derive(Clone, Copy, Debug, PartialEq, Eq, Structural)]
pub struct InsertPlan {
    pub position: i32,
    pub shift: Option<Shift>,
}

impl Shift {
    /// Whether the shift moves a block.
    pub open spec fn covers(self, block: SuiteBlock) -> bool {
        block.suite_id == self.suite && self.first <= block.execution_order <= self.last
    }

    /// A block after the shift.
    pub open spec fn shifted(self, block: SuiteBlock) -> SuiteBlock {
        if self.covers(block) {
            block.placed(
                if self.up {
                    block.execution_order + 1
                } else {
                    block.execution_order - 1
                },
            )
        } else {
            block
        }
    }

    /// The table after the shift.
    pub open spec fn applied(self, blocks: Seq<SuiteBlock>) -> Seq<SuiteBlock> {
        blocks.map_values(|block: SuiteBlock| self.shifted(block))
    }

    /// Whether every position that the shift produces lies within the range
    /// of its field.
    pub open spec fn wf(self) -> bool {
        if self.up {
            self.last < i32::MAX
        } else {
            self.first > i32::MIN
        }
    }
}

/// The table after an optional shift.
pub open spec fn shifted_by(shift: Option<Shift>, blocks: Seq<SuiteBlock>) -> Seq<SuiteBlock> {
    match shift {
        Some(shift) => shift.applied(blocks),
        None => blocks,
    }
}

/// The plan of an insertion into the scope of `suite`, whose highest
/// execution order is `top`: the new block goes to the desired position
/// where that does not lie behind the last index, to the last index
/// otherwise, and the blocks from that position up to the highest one go one
/// position up. There is no plan where the scope reaches the highest
/// position that there is.
pub open spec fn planned_insert(suite: u128, top: Option<int>, desired: Option<i32>) -> Option<
    InsertPlan,
> {
    let last = match top {
        None => 1,
        Some(order) => order + 1,
    };
    let position = match desired {
        Some(wanted) => if wanted > last {
            last
        } else {
            wanted as int
        },
        None => last,
    };
    if last > i32::MAX {
        None
    } else {
        Some(
            InsertPlan {
                position: position as i32,
                shift: if position == last {
                    None
                } else {
                    Some(Shift { suite, first: position as i32, last: (last - 1) as i32, up: true })
                },
            },
        )
    }
}

/// The shift that goes with the move of a block of `suite` from position
/// `old` to position `new`: the blocks behind `old` up to `new` go one
/// position down, or the blocks from `new` up to before `old` go one position
/// up. A move to the same position shifts nothing.
pub open spec fn planned_move(suite: u128, old: i32, new: i32) -> Option<Shift> {
    if new > old {
        Some(Shift { suite, first: (old + 1) as i32, last: new, up: false })
    } else if new < old {
        Some(Shift { suite, first: new, last: (old - 1) as i32, up: true })
    } else {
        None
    }
}

/// Only one index is the first to hold a block named `id`.
pub proof fn lemma_first_at_unique(blocks: Seq<SuiteBlock>, id: u128, at: int)
    requires
        first_at(blocks, id, at),
    ensures
        holds(blocks, id),
        index_of(blocks, id) == at,
{
    let other = index_of(blocks, id);
    assert(first_at(blocks, id, other));
    if other < at {
        assert(blocks[other].id != id);
    }
    if at < other {
        assert(blocks[at].id != id);
    }
}

/// The highest execution order is attained in the scope and bounds it; there
/// is none exactly where the scope is empty.
pub proof fn lemma_highest(blocks: Seq<SuiteBlock>, suite: u128)
    ensures
        highest(blocks, suite) is None ==> forall|i: int|
            0 <= i < blocks.len() ==> (#[trigger] blocks[i]).suite_id != suite,
        highest(blocks, suite) matches Some(top) ==> occupied(blocks, suite, top) && forall|
            i: int,
        |
            0 <= i < blocks.len() && (#[trigger] blocks[i]).suite_id == suite
                ==> blocks[i].execution_order <= top,
    decreases blocks.len(),
{
    if blocks.len() > 0 {
        let front = blocks.drop_last();
        lemma_highest(front, suite);
        assert forall|i: int| 0 <= i < front.len() implies front[i] == blocks[i] by {}
        match highest(front, suite) {
            Some(top) => {
                let at = choose|at: int| stands_at(front, suite, top, at);
                assert(stands_at(blocks, suite, top, at));
            },
            None => {},
        }
        match highest(blocks, suite) {
            Some(top) => {
                if blocks.last().suite_id == suite && blocks.last().execution_order == top {
                    assert(stands_at(blocks, suite, top, blocks.len() - 1));
                }
                assert forall|i: int|
                    0 <= i < blocks.len() && (#[trigger] blocks[i]).suite_id
                        == suite implies blocks[i].execution_order <= top by {
                    if i < front.len() {
                        assert(front[i].suite_id == suite);
                    }
                }
            },
            None => {
                assert forall|i: int| 0 <= i < blocks.len() implies (#[trigger] blocks[i]).suite_id
                    != suite by {
                    if i < front.len() {
                        assert(front[i].suite_id != suite);
                    }
                }
            },
        }
    }
}

/// In a dense scope of `size` blocks the position behind the last block is
/// `size + 1`.
pub proof fn lemma_dense_last_index(blocks: Seq<SuiteBlock>, suite: u128, size: int)
    requires
        dense(blocks, suite, size),
        0 <= size,
    ensures
        last_index(blocks, suite) == size + 1,
{
    lemma_highest(blocks, suite);
    match highest(blocks, suite) {
        Some(top) => {
            assert(occupied(blocks, suite, top));
            if top < size {
                assert(occupied(blocks, suite, size));
                let at = choose|at: int| stands_at(blocks, suite, size, at);
                assert(blocks[at].suite_id == suite);
            }
        },
        None => {
            if size >= 1 {
                assert(occupied(blocks, suite, 1));
                let at = choose|at: int| stands_at(blocks, suite, 1, at);
                assert(blocks[at].suite_id == suite);
            }
        },
    }
}


/// Inserting into a dense scope keeps it dense: the new block stands at the
/// position asked for (behind the last block where none, or one too far
/// behind, was asked for), every block that stood at that position or behind
/// it stands one position further, every other block is untouched, and the
/// occupied positions are `1..=size + 1` without duplicates.
pub proof fn lemma_insert_into_dense(
    blocks: Seq<SuiteBlock>,
    suite: u128,
    body: SuiteBlock,
    desired: Option<i32>,
    id: u128,
    size: int,
)
    requires
        dense(blocks, suite, size),
        0 <= size < i32::MAX,
        desired matches Some(position) ==> 1 <= position,
    ensures
        ({
            let position = insert_position(blocks, suite, desired);
            let after = inserted(blocks, suite, body, desired, id);
            &&& 1 <= position <= size + 1
            &&& desired matches Some(wanted) ==> position == if wanted <= size + 1 {
                wanted as int
            } else {
                size + 1
            }
            &&& desired is None ==> position == size + 1
            &&& after.len() == blocks.len() + 1
            &&& after.last() == body.stored(id, suite, position)
            &&& after.last().execution_order == position
            &&& forall|i: int|
                0 <= i < blocks.len() && (#[trigger] blocks[i]).suite_id == suite
                    && blocks[i].execution_order >= position ==> after[i].execution_order
                    == blocks[i].execution_order + 1 && after[i] == blocks[i].placed(
                    blocks[i].execution_order + 1,
                )
            &&& forall|i: int|
                0 <= i < blocks.len() && !((#[trigger] blocks[i]).suite_id == suite
                    && blocks[i].execution_order >= position) ==> after[i] == blocks[i]
            &&& dense(after, suite, size + 1)
        }),
{
    lemma_dense_last_index(blocks, suite, size);
    let position = insert_position(blocks, suite, desired);
    let after = inserted(blocks, suite, body, desired, id);
    let n = blocks.len() as int;
    assert forall|i: int| 0 <= i < n && (#[trigger] blocks[i]).suite_id == suite implies 1
        <= blocks[i].execution_order <= size by {
        assert(stands_at(blocks, suite, blocks[i].execution_order as int, i));
        assert(occupied(blocks, suite, blocks[i].execution_order as int));
    }
    assert forall|order: int| #[trigger] occupied(after, suite, order) <==> 1 <= order <= size
        + 1 by {
        if occupied(after, suite, order) {
            let at = choose|at: int| stands_at(after, suite, order, at);
            if at < n {
                assert(blocks[at].suite_id == suite);
            }
        }
        if 1 <= order <= size + 1 {
            if order == position {
                assert(stands_at(after, suite, order, n));
            } else if order < position {
                assert(occupied(blocks, suite, order));
                let at = choose|at: int| stands_at(blocks, suite, order, at);
                assert(stands_at(after, suite, order, at));
            } else {
                let below = order - 1;
                assert(occupied(blocks, suite, below));
                let at = choose|at: int| stands_at(blocks, suite, below, at);
                assert(stands_at(after, suite, order, at));
            }
        }
    }
    assert forall|i: int, j: int|
        0 <= i < after.len() && 0 <= j < after.len() && i != j && (#[trigger] after[i]).suite_id
            == suite && (#[trigger] after[j]).suite_id == suite implies after[i].execution_order
            != after[j].execution_order by {
        if i < n {
            assert(blocks[i].suite_id == suite);
        }
        if j < n {
            assert(blocks[j].suite_id == suite);
        }
    }
}

/// Moving a block inside a dense scope keeps the scope dense: the moved block
/// stands at the new position, the blocks between the old and the new
/// position stand one position nearer to the old one, every other block is
/// untouched, and the occupied positions are the same as before.
pub proof fn lemma_move_in_dense(blocks: Seq<SuiteBlock>, at: int, new: i32, size: int)
    requires
        0 <= at < blocks.len(),
        dense(blocks, blocks[at].suite_id, size),
        1 <= new <= size,
    ensures
        ({
            let suite = blocks[at].suite_id;
            let old = blocks[at].execution_order;
            let after = moved(blocks, at, new as int);
            &&& after.len() == blocks.len()
            &&& after[at] == blocks[at].placed(new as int)
            &&& after[at].execution_order == new
            &&& forall|j: int|
                0 <= j < blocks.len() && j != at && (#[trigger] blocks[j]).suite_id == suite && old
                    < blocks[j].execution_order <= new ==> after[j] == blocks[j].placed(
                    blocks[j].execution_order - 1,
                ) && after[j].execution_order == blocks[j].execution_order - 1
            &&& forall|j: int|
                0 <= j < blocks.len() && j != at && (#[trigger] blocks[j]).suite_id == suite && new
                    <= blocks[j].execution_order < old ==> after[j] == blocks[j].placed(
                    blocks[j].execution_order + 1,
                ) && after[j].execution_order == blocks[j].execution_order + 1
            &&& forall|j: int|
                0 <= j < blocks.len() && j != at && !((#[trigger] blocks[j]).suite_id == suite && (
                old < blocks[j].execution_order <= new || new <= blocks[j].execution_order < old))
                    ==> after[j] == blocks[j]
            &&& dense(after, suite, size)
        }),
{
    let suite = blocks[at].suite_id;
    let old = blocks[at].execution_order as int;
    let after = moved(blocks, at, new as int);
    let n = blocks.len() as int;
    assert forall|i: int| 0 <= i < n && (#[trigger] blocks[i]).suite_id == suite implies 1
        <= blocks[i].execution_order <= size by {
        assert(stands_at(blocks, suite, blocks[i].execution_order as int, i));
        assert(occupied(blocks, suite, blocks[i].execution_order as int));
    }
    assert(blocks[at].suite_id == suite);
    assert forall|order: int| #[trigger] occupied(after, suite, order) <==> 1 <= order
        <= size by {
        if occupied(after, suite, order) {
            let j = choose|j: int| stands_at(after, suite, order, j);
            assert(blocks[j].suite_id == suite);
        }
        if 1 <= order <= size {
            if order == new {
                assert(stands_at(after, suite, order, at));
            } else {
                let source = if old < new && old <= order < new {
                    order + 1
                } else if new < old && new < order <= old {
                    order - 1
                } else {
                    order
                };
                assert(occupied(blocks, suite, source));
                let j = choose|j: int| stands_at(blocks, suite, source, j);
                if j == at {
                    assert(source == old);
                }
                assert(stands_at(after, suite, order, j));
            }
        }
    }
    assert forall|i: int, j: int|
        0 <= i < after.len() && 0 <= j < after.len() && i != j && (#[trigger] after[i]).suite_id
            == suite && (#[trigger] after[j]).suite_id == suite implies after[i].execution_order
            != after[j].execution_order by {
        assert(blocks[i].suite_id == suite);
        assert(blocks[j].suite_id == suite);
    }
}

/// Moving a block to the position it stands at changes nothing.
pub proof fn lemma_move_to_own_position(blocks: Seq<SuiteBlock>, at: int)
    requires
        0 <= at < blocks.len(),
    ensures
        moved(blocks, at, blocks[at].execution_order as int) == blocks,
{
    assert(moved(blocks, at, blocks[at].execution_order as int) =~= blocks);
}

/// Removing a block right after it was inserted leaves the table as it stood
/// once room had been made for the block: the blocks behind the position keep
/// their shift, and the position itself stays empty.
pub proof fn lemma_insert_then_remove(
    blocks: Seq<SuiteBlock>,
    suite: u128,
    body: SuiteBlock,
    desired: Option<i32>,
    id: u128,
)
    requires
        forall|i: int| 0 <= i < blocks.len() ==> (#[trigger] blocks[i]).id != id,
    ensures
        without(inserted(blocks, suite, body, desired, id), id) == with_room(
            blocks,
            suite,
            insert_position(blocks, suite, desired),
        ),
{
    let position = insert_position(blocks, suite, desired);
    let room = with_room(blocks, suite, position);
    let keep = |block: SuiteBlock| block.id != id;
    let after = inserted(blocks, suite, body, desired, id);
    assert(after.drop_last() =~= room);
    reveal(Seq::filter);
    assert(after.filter(keep) == room.filter(keep));
    lemma_keeps_all(room, id);
}

/// Removing a name that the table does not hold changes nothing.
pub proof fn lemma_keeps_all(blocks: Seq<SuiteBlock>, id: u128)
    requires
        forall|i: int| 0 <= i < blocks.len() ==> (#[trigger] blocks[i]).id != id,
    ensures
        without(blocks, id) == blocks,
    decreases blocks.len(),
{
    let keep = |block: SuiteBlock| block.id != id;
    reveal(Seq::filter);
    if blocks.len() > 0 {
        lemma_keeps_all(blocks.drop_last(), id);
        assert(blocks.drop_last().push(blocks.last()) =~= blocks);
    } else {
        assert(blocks.filter(keep) =~= blocks);
    }
}

/// The highest execution order in the scope of `suite`.
pub fn highest_order(blocks: &Vec<SuiteBlock>, suite: u128) -> (top: Option<i32>)
    ensures
        top is None <==> highest(blocks@, suite) is None,
        top matches Some(order) ==> highest(blocks@, suite) == Some(order as int),
{
    let mut top: Option<i32> = None;
    let mut i: usize = 0;
    while i < blocks.len()
        invariant
            i <= blocks@.len(),
            top is None <==> highest(blocks@.take(i as int), suite) is None,
            top matches Some(order) ==> highest(blocks@.take(i as int), suite) == Some(
                order as int,
            ),
        decreases blocks@.len() - i,
    {
        proof {
            let next = blocks@.take(i + 1);
            assert(next.drop_last() =~= blocks@.take(i as int));
            assert(next.last() == blocks@[i as int]);
        }
        if blocks[i].suite_id == suite {
            let order: i32 = blocks[i].execution_order;
            top = match top {
                None => Some(order),
                Some(best) => if best < order {
                    Some(order)
                } else {
                    Some(best)
                },
            };
        }
        i = i + 1;
    }
    proof {
        assert(blocks@.take(i as int) =~= blocks@);
    }
    top
}

/// Carrying the plan of an insertion out makes the room that the insertion
/// needs: the shift of the plan, applied to a table whose scope has the
/// highest execution order that the plan was made for, leaves the table with
/// every block at the new position or behind it one position up.
pub proof fn lemma_insert_plan(blocks: Seq<SuiteBlock>, suite: u128, desired: Option<i32>)
    requires
        planned_insert(suite, highest(blocks, suite), desired) is Some,
    ensures
        ({
            let plan = planned_insert(suite, highest(blocks, suite), desired).unwrap();
            &&& plan.position == insert_position(blocks, suite, desired)
            &&& shifted_by(plan.shift, blocks) == with_room(blocks, suite, plan.position as int)
            &&& plan.shift matches Some(shift) ==> shift.wf() && shift.suite == suite
        }),
{
    lemma_highest(blocks, suite);
    let plan = planned_insert(suite, highest(blocks, suite), desired).unwrap();
    assert(shifted_by(plan.shift, blocks) =~= with_room(blocks, suite, plan.position as int));
}

/// Carrying the plan of a move out moves the block: the shift of the plan,
/// applied to the table, and the block itself set to its new position leave
/// the table as the move describes it.
pub proof fn lemma_move_plan(blocks: Seq<SuiteBlock>, at: int, new: i32)
    requires
        0 <= at < blocks.len(),
    ensures
        ({
            let shift = planned_move(blocks[at].suite_id, blocks[at].execution_order, new);
            &&& shifted_by(shift, blocks).update(at, blocks[at].placed(new as int)) == moved(
                blocks,
                at,
                new as int,
            )
            &&& shift matches Some(bulk) ==> bulk.wf() && !bulk.covers(blocks[at])
        }),
{
    let shift = planned_move(blocks[at].suite_id, blocks[at].execution_order, new);
    assert(shifted_by(shift, blocks).update(at, blocks[at].placed(new as int)) =~= moved(
        blocks,
        at,
        new as int,
    ));
}

/// Plans an insertion into the scope of `suite`, whose highest execution
/// order is `top`.
pub fn insert_plan(suite: u128, top: Option<i32>, index: Option<i32>) -> (plan: Option<InsertPlan>)
    ensures
        plan == planned_insert(
            suite,
            match top {
                Some(order) => Some(order as int),
                None => None,
            },
            index,
        ),
{
    let last_index: i32 = match top {
        None => 1,
        Some(order) => {
            if order == i32::MAX {
                return None;
            }
            order + 1
        },
    };
    let position: i32 = match index {
        Some(wanted) => if wanted > last_index {
            last_index
        } else {
            wanted
        },
        None => last_index,
    };
    let shift = if position == last_index {
        None
    } else {
        Some(Shift { suite, first: position, last: last_index - 1, up: true })
    };
    Some(InsertPlan { position, shift })
}

/// Plans the move of a block of `suite` from position `old` to position
/// `new`.
pub fn move_plan(suite: u128, old: i32, new: i32) -> (shift: Option<Shift>)
    ensures
        shift == planned_move(suite, old, new),
{
    if new > old {
        Some(Shift { suite, first: old + 1, last: new, up: false })
    } else if new < old {
        Some(Shift { suite, first: new, last: old - 1, up: true })
    } else {
        None
    }
}

/// Carries a shift out on the blocks at hand.
pub fn apply_shift(blocks: &mut Vec<SuiteBlock>, shift: &Shift)
    requires
        shift.wf(),
    ensures
        final(blocks)@ == shift.applied(old(blocks)@),
{
    let mut i: usize = 0;
    while i < blocks.len()
        invariant
            i <= blocks@.len(),
            blocks@.len() == old(blocks)@.len(),
            shift.wf(),
            forall|j: int| 0 <= j < i ==> blocks@[j] == shift.shifted(old(blocks)@[j]),
            forall|j: int| i <= j < blocks@.len() ==> blocks@[j] == old(blocks)@[j],
        decreases blocks@.len() - i,
    {
        let order: i32 = blocks[i].execution_order;
        if blocks[i].suite_id == shift.suite && shift.first <= order && order <= shift.last {
            if shift.up {
                blocks[i].execution_order = order + 1;
            } else {
                blocks[i].execution_order = order - 1;
            }
        }
        i = i + 1;
    }
    proof {
        assert(blocks@ =~= shift.applied(old(blocks)@));
    }
}

/// Looks a block up by its name: the first index that holds it.
pub fn find_block(blocks: &Vec<SuiteBlock>, id: u128) -> (found: Option<usize>)
    ensures
        found is Some <==> holds(blocks@, id),
        found matches Some(at) ==> first_at(blocks@, id, at as int) && at == index_of(blocks@, id),
{
    let mut i: usize = 0;
    while i < blocks.len()
        invariant
            i <= blocks@.len(),
            forall|j: int| 0 <= j < i ==> blocks@[j].id != id,
        decreases blocks@.len() - i,
    {
        if blocks[i].id == id {
            proof {
                lemma_first_at_unique(blocks@, id, i as int);
            }
            return Some(i);
        }
        i = i + 1;
    }
    proof {
        if holds(blocks@, id) {
            let at = index_of(blocks@, id);
            assert(first_at(blocks@, id, at));
        }
    }
    None
}

/// Removes the blocks named `id`. The other blocks keep their order: the
/// removal leaves a gap and renumbers nothing.
pub fn remove_block(blocks: &mut Vec<SuiteBlock>, id: u128)
    ensures
        final(blocks)@ == without(old(blocks)@, id),
{
    let ghost keep = |block: SuiteBlock| block.id != id;
    let mut i: usize = 0;
    let ghost mut seen: int = 0;
    proof {
        reveal(Seq::filter);
        assert(old(blocks)@.take(0).filter(keep) =~= blocks@.take(0));
    }
    while i < blocks.len()
        invariant
            i <= blocks@.len(),
            0 <= seen <= old(blocks)@.len(),
            blocks@.len() - i == old(blocks)@.len() - seen,
            blocks@.take(i as int) == old(blocks)@.take(seen).filter(keep),
            forall|j: int| i <= j < blocks@.len() ==> blocks@[j] == old(blocks)@[j - i + seen],
            keep == |block: SuiteBlock| block.id != id,
        decreases blocks@.len() - i,
    {
        proof {
            reveal(Seq::filter);
            let next = old(blocks)@.take(seen + 1);
            assert(next.drop_last() =~= old(blocks)@.take(seen));
            assert(next.last() == old(blocks)@[seen]);
        }
        if blocks[i].id == id {
            let ghost before = blocks@;
            blocks.remove(i);
            proof {
                assert(blocks@.take(i as int) =~= before.take(i as int));
                seen = seen + 1;
            }
        } else {
            proof {
                assert(blocks@.take(i + 1) =~= blocks@.take(i as int).push(blocks@[i as int]));
                seen = seen + 1;
            }
            i = i + 1;
        }
    }
    proof {
        assert(blocks@.take(i as int) =~= blocks@);
        assert(old(blocks)@.take(seen) =~= old(blocks)@);
    }
}

} // verus!
