use orca::controller::action::{ActionController, DriverCommand, DriverReply};
use orca::controller::case::{CaseController, CaseDispatch};
use orca::controller::suite::{SuiteController, SuiteDispatch};
use orca::entity::action::{Action, ActionKind, ActionTargetKind};
use orca::entity::case::{BlockKind, BlockType, Case, CaseBlock};
use orca::entity::log::{ItemLog, ItemLogStatus, ItemLogType};
use orca::entity::request::{ExecutionKind, ExecutionRequest, ExecutionStatus, ExecutionType};
use orca::entity::suite::{Suite, SuiteBlock, SuiteBlockType};
use orca::error::EngineError;
use orca::paging::PageRequest;

fn case(id: u128) -> Case {
    Case { id, name: "case".to_string(), description: None, app_id: 1 }
}

fn suite(id: u128) -> Suite {
    Suite { id, name: "suite".to_string(), description: None, app_id: 1, suite_execution: None }
}

fn case_block(id: u128, order: i32, group: u128) -> CaseBlock {
    CaseBlock {
        id,
        case_id: 70,
        execution_order: order,
        kind: BlockKind::Reference,
        type_field: BlockType::ActionGroup,
        reference: Some(group),
        parent_id: None,
    }
}

fn suite_block(id: u128, order: i32, case: Option<u128>) -> SuiteBlock {
    SuiteBlock {
        id,
        suite_id: 80,
        execution_order: order,
        type_field: SuiteBlockType::TestCase,
        reference: case,
        name: None,
        description: None,
    }
}

fn action(kind: ActionKind, data: Option<&str>) -> Action {
    Action {
        id: 5,
        action_group_id: 6,
        execution_order: 1,
        description: None,
        kind,
        data_value: data.map(|d| d.to_string()),
        target_kind: Some(ActionTargetKind::Css),
        target_value: Some("#field".to_string()),
    }
}

/// Runs an action group against a browser that performs every command.
fn run_group(group: u128, actions: &[Action]) -> Result<(), EngineError> {
    let mut controller = ActionController::new(group);
    for action in actions {
        if let Some(command) = controller.execute(action) {
            let reply = match &command {
                DriverCommand::ReadText { expected, .. } => DriverReply::Text(expected.clone()),
                _ => DriverReply::Done,
            };
            controller.settle(&command, reply);
        }
    }
    controller.finish()
}

/// Runs a case whose blocks refer to the groups; a group is given by its
/// actions.
fn run_case(
    er: &ExecutionRequest,
    id: u128,
    parent: Option<&ItemLog>,
    ref_id: Option<u128>,
    blocks: &[(CaseBlock, Vec<Action>)],
    journal: &mut Vec<ItemLog>,
) -> Result<(), EngineError> {
    let mut controller = CaseController::new(er, id, parent, ref_id);
    controller.execute(Some(&case(id)));
    for (block, actions) in blocks {
        match controller.process(block) {
            CaseDispatch::ActionGroup { group, ref_id } => {
                assert_eq!(ref_id, block.id);
                let outcome = run_group(group, actions);
                controller.settle(outcome);
            }
            CaseDispatch::Rejected(_) => {}
            CaseDispatch::Halted => break,
        }
    }
    let result = controller.finish();
    journal.push(controller.log());
    journal.extend(controller.block_logs().iter().copied());
    result
}

fn stored_request(mut request: ExecutionRequest, id: i32) -> ExecutionRequest {
    request.id = id;
    request
}

#[test]
fn a_case_with_a_failing_second_block_aborts() {
    let mut er = stored_request(CaseController::run(70, false), 12);
    assert_eq!(er.status, ExecutionStatus::Started);
    assert_eq!(er.history_type, ExecutionType::TestCase);
    assert_eq!(er.kind, ExecutionKind::Trigger);
    assert_eq!(er.reference, 70);
    assert_eq!(
        er.description,
        Some("[TC] Executing - 00000000-0000-0000-0000-000000000046".to_string())
    );
    assert_eq!(er.finished_at, None);
    let blocks = vec![
        (case_block(1, 1, 201), vec![action(ActionKind::Open, Some("https://example.org"))]),
        (case_block(2, 2, 202), vec![action(ActionKind::Enter, None)]),
        (case_block(3, 3, 203), vec![action(ActionKind::Click, Some("#go"))]),
    ];
    let mut journal = Vec::new();
    let result = run_case(&er, 70, None, Some(70), &blocks, &mut journal);
    match &result {
        Err(EngineError::MissingParameter(field, _)) => assert_eq!(field, "action.data_value"),
        _ => panic!("the case did not abort"),
    }
    let answer = er.conclude(result);
    assert!(matches!(answer, Ok(12)));
    assert_eq!(journal.len(), 3);
    let case_log = journal[0];
    assert_eq!(case_log.ref_type, ItemLogType::TestCase);
    assert_eq!(case_log.status, ItemLogStatus::Failed);
    assert_eq!(case_log.step_id, 70);
    assert_eq!(case_log.ref_id, Some(70));
    assert_eq!(case_log.er_id, 12);
    assert_eq!(journal[1].step_id, 1);
    assert_eq!(journal[1].status, ItemLogStatus::Success);
    assert_eq!(journal[2].step_id, 2);
    assert_eq!(journal[2].status, ItemLogStatus::Failed);
    assert!(journal.iter().all(|log| log.step_id != 3));
    assert!(journal[1..].iter().all(|log| log.log_id == Some(case_log.id)
        && log.ref_type == ItemLogType::TestCaseBlock
        && log.er_id == 12));
    assert!(journal.iter().all(|log| log.status != ItemLogStatus::Running));
    assert_eq!(er.status, ExecutionStatus::Completed);
    assert!(er.finished_at.is_some());
}

#[test]
fn a_suite_goes_on_behind_a_failing_case() {
    let mut er = stored_request(SuiteController::run(80, true), 13);
    assert_eq!(er.history_type, ExecutionType::TestSuite);
    assert!(er.is_dry_run);
    assert_eq!(
        er.description,
        Some("[TS] Executing - 00000000-0000-0000-0000-000000000050".to_string())
    );
    // The case named 71 fails in its only block; the case named 72
    // succeeds, also behind the failure.
    let blocks = vec![suite_block(1, 1, Some(72)), suite_block(2, 2, Some(71)), suite_block(3, 3, Some(72))];
    let mut journal = Vec::new();
    let mut executed = Vec::new();
    let mut controller = SuiteController::new(&er, 80, None);
    controller.execute(Some(&suite(80)));
    for block in &blocks {
        match controller.process(block) {
            SuiteDispatch::TestCase { case, ref_id } => {
                executed.push(case);
                let steps = if case == 71 {
                    vec![(case_block(9, 1, 300), vec![action(ActionKind::VerifyText, None)])]
                } else {
                    vec![(case_block(9, 1, 300), vec![action(ActionKind::VerifyText, Some("hello"))])]
                };
                let parent = controller.log();
                let outcome = run_case(&er, case, Some(&parent), Some(ref_id), &steps, &mut journal);
                controller.settle(outcome);
            }
            SuiteDispatch::Rejected(_) => {}
            SuiteDispatch::Halted => break,
        }
    }
    let result = controller.finish();
    assert!(result.is_ok());
    assert!(matches!(er.conclude(result), Ok(13)));
    assert_eq!(executed, vec![72, 71, 72]);
    let suite_log = controller.log();
    assert_eq!(suite_log.status, ItemLogStatus::Success);
    assert_eq!(suite_log.ref_type, ItemLogType::TestSuite);
    assert_eq!(suite_log.ref_id, None);
    let block_logs = controller.block_logs();
    assert_eq!(
        block_logs.iter().map(|log| (log.step_id, log.ref_id, log.status)).collect::<Vec<_>>(),
        vec![
            (1, Some(72), ItemLogStatus::Success),
            (2, Some(71), ItemLogStatus::Failed),
            (3, Some(72), ItemLogStatus::Success)
        ]
    );
    assert!(block_logs.iter().all(|log| log.log_id == Some(suite_log.id)
        && log.ref_type == ItemLogType::TestSuiteBlock));
    // The records of the cases hang below the record of the suite.
    let case_logs: Vec<&ItemLog> =
        journal.iter().filter(|log| log.ref_type == ItemLogType::TestCase).collect();
    assert_eq!(case_logs.len(), 3);
    assert!(case_logs.iter().all(|log| log.log_id == Some(suite_log.id)));
    assert_eq!(
        case_logs.iter().map(|log| (log.step_id, log.ref_id, log.status)).collect::<Vec<_>>(),
        vec![
            (72, Some(1), ItemLogStatus::Success),
            (71, Some(2), ItemLogStatus::Failed),
            (72, Some(3), ItemLogStatus::Success)
        ]
    );
    assert_eq!(er.status, ExecutionStatus::Completed);
}

#[test]
fn a_suite_with_a_succeeding_and_a_failing_case_logs_both_blocks() {
    let er = stored_request(SuiteController::run(80, false), 14);
    let mut controller = SuiteController::new(&er, 80, None);
    controller.execute(Some(&suite(80)));
    let mut executed = Vec::new();
    for (block, ok) in [(suite_block(1, 1, Some(501)), true), (suite_block(2, 2, Some(502)), false)] {
        match controller.process(&block) {
            SuiteDispatch::TestCase { case, .. } => {
                executed.push(case);
                controller.settle(if ok { Ok(()) } else { Err(EngineError::Forbidden) });
            }
            _ => panic!("the block was not dispatched"),
        }
    }
    assert!(controller.finish().is_ok());
    assert_eq!(executed, vec![501, 502]);
    assert_eq!(
        controller.block_logs().iter().map(|log| log.status).collect::<Vec<_>>(),
        vec![ItemLogStatus::Success, ItemLogStatus::Failed]
    );
    assert_eq!(controller.log().status, ItemLogStatus::Success);
}

#[test]
fn a_suite_block_without_a_case_is_rejected_and_the_suite_goes_on() {
    let er = stored_request(SuiteController::run(80, false), 15);
    let mut controller = SuiteController::new(&er, 80, None);
    controller.execute(Some(&suite(80)));
    match controller.process(&suite_block(0xab, 1, None)) {
        SuiteDispatch::Rejected(EngineError::MissingParameter(field, context)) => {
            assert_eq!(field, "Suite Reference");
            assert_eq!(context, "00000000-0000-0000-0000-0000000000ab");
        }
        _ => panic!("the block went through"),
    }
    assert_eq!(controller.block_log().unwrap().status, ItemLogStatus::Failed);
    assert!(!controller.is_halted());
    assert!(matches!(
        controller.process(&suite_block(2, 2, Some(7))),
        SuiteDispatch::TestCase { case: 7, ref_id: 2 }
    ));
}

#[test]
fn a_missing_suite_fails_as_not_found() {
    let er = stored_request(SuiteController::run(0x50, false), 16);
    let mut controller = SuiteController::new(&er, 0x50, None);
    controller.execute(None);
    assert!(controller.is_halted());
    assert_eq!(controller.next_page(), None);
    assert!(matches!(controller.process(&suite_block(1, 1, Some(7))), SuiteDispatch::Halted));
    match controller.finish() {
        Err(EngineError::NotFound(kind, key)) => {
            assert_eq!(kind, "Suite");
            assert_eq!(key, "00000000-0000-0000-0000-000000000050");
        }
        _ => panic!("the suite was found"),
    }
    assert_eq!(controller.log().status, ItemLogStatus::Failed);
    assert_eq!(controller.block_logs().len(), 0);
}

#[test]
fn a_missing_case_fails_as_not_found() {
    let er = stored_request(CaseController::run(0x46, false), 17);
    let mut controller = CaseController::new(&er, 0x46, None, None);
    controller.execute(None);
    assert!(matches!(controller.process(&case_block(1, 1, 9)), CaseDispatch::Halted));
    match controller.finish() {
        Err(EngineError::NotFound(kind, key)) => {
            assert_eq!(kind, "Case");
            assert_eq!(key, "00000000-0000-0000-0000-000000000046");
        }
        _ => panic!("the case was found"),
    }
    assert_eq!(controller.log().status, ItemLogStatus::Failed);
    assert!(controller.block_log().is_none());
}

#[test]
fn case_blocks_are_dispatched_by_kind_and_type() {
    let mut block = case_block(0xab, 1, 9);
    assert!(matches!(CaseController::switch_block(&block), Ok(9)));
    block.type_field = BlockType::Assertion;
    assert!(matches!(CaseController::switch_block(&block), Ok(9)));
    block.reference = None;
    match CaseController::switch_block(&block) {
        Err(EngineError::MissingParameter(field, context)) => {
            assert_eq!(field, "Case Block Reference");
            assert_eq!(context, "00000000-0000-0000-0000-0000000000ab");
        }
        _ => panic!("a block without a reference went through"),
    }
    block.reference = Some(9);
    for unsupported in [
        BlockType::InMemory,
        BlockType::DataTable,
        BlockType::YesCase,
        BlockType::NoCase,
        BlockType::Loop,
        BlockType::Condition,
    ] {
        block.type_field = unsupported;
        assert!(matches!(
            CaseController::switch_block(&block),
            Err(EngineError::UnsupportedOperation(_))
        ));
    }
    block.type_field = BlockType::ActionGroup;
    for kind in [BlockKind::Loop, BlockKind::SelfReference] {
        block.kind = kind;
        match CaseController::switch_block(&block) {
            Err(EngineError::UnsupportedOperation(what)) => assert_eq!(what, "case block"),
            _ => panic!("an unsupported block went through"),
        }
    }
}

#[test]
fn an_unsupported_case_block_ends_the_case() {
    let er = stored_request(CaseController::run(70, false), 18);
    let mut controller = CaseController::new(&er, 70, None, None);
    controller.execute(Some(&case(70)));
    let mut looping = case_block(1, 1, 9);
    looping.kind = BlockKind::Loop;
    assert!(matches!(
        controller.process(&looping),
        CaseDispatch::Rejected(EngineError::UnsupportedOperation(_))
    ));
    assert_eq!(controller.block_log().unwrap().status, ItemLogStatus::Failed);
    assert!(controller.is_halted());
    assert!(matches!(controller.process(&case_block(2, 2, 9)), CaseDispatch::Halted));
    assert_eq!(controller.block_logs().len(), 1);
    assert!(matches!(controller.finish(), Err(EngineError::UnsupportedOperation(_))));
    assert_eq!(controller.log().status, ItemLogStatus::Failed);
}

#[test]
fn a_case_without_failures_succeeds() {
    let er = stored_request(CaseController::run(70, false), 19);
    let blocks = vec![
        (case_block(1, 1, 201), vec![action(ActionKind::Open, Some("https://example.org"))]),
        (case_block(2, 2, 202), vec![action(ActionKind::DoubleClick, None)]),
    ];
    let mut journal = Vec::new();
    let parent = ItemLog::open_at(99, 0, 19, None, ItemLogType::TestSuite, 80, None);
    assert!(run_case(&er, 70, Some(&parent), Some(4), &blocks, &mut journal).is_ok());
    assert_eq!(journal.len(), 3);
    assert_eq!(journal[0].status, ItemLogStatus::Success);
    assert_eq!(journal[0].log_id, Some(99));
    assert_eq!(journal[0].ref_id, Some(4));
    assert!(journal[1..].iter().all(|log| log.status == ItemLogStatus::Success));
    assert_eq!(journal[1].ref_id, Some(201));
    assert_eq!(journal[2].ref_id, Some(202));
}

#[test]
fn a_dispatcher_pages_through_its_blocks_by_ten() {
    let er = stored_request(CaseController::run(70, false), 20);
    let mut controller = CaseController::new(&er, 70, None, None);
    controller.execute(Some(&case(70)));
    assert_eq!(controller.next_page(), Some(PageRequest { page: 0, offset: 0, limit: 10 }));
    controller.page_received(10);
    assert_eq!(controller.next_page(), Some(PageRequest { page: 1, offset: 10, limit: 10 }));
    controller.page_received(0);
    assert_eq!(controller.next_page(), None);

    let mut failing = CaseController::new(&er, 70, None, None);
    assert!(matches!(failing.process(&case_block(1, 1, 9)), CaseDispatch::ActionGroup { .. }));
    failing.settle(Err(EngineError::Forbidden));
    assert_eq!(failing.next_page(), None);

    let suite_controller = SuiteController::new(&er, 80, None);
    assert_eq!(suite_controller.next_page(), Some(PageRequest { page: 0, offset: 0, limit: 10 }));
}

#[test]
fn a_run_ends_completed_whatever_its_nodes_came_to() {
    let mut request = ExecutionRequest::new_at(
        70,
        ExecutionType::TestCase,
        ExecutionKind::Trigger,
        ExecutionStatus::Started,
        0,
        false,
        None,
        1_000,
    );
    assert_eq!(request.triggered_at, 1_000);
    assert_eq!(request.id, 0);
    request.id = 31;
    let answer = request.conclude_at(Err(EngineError::Forbidden), 4_000);
    assert!(matches!(answer, Ok(31)));
    assert_eq!(request.status, ExecutionStatus::Completed);
    assert_eq!(request.finished_at, Some(4_000));
    let mut other = request.duplicate();
    other.status = ExecutionStatus::Started;
    assert!(matches!(other.conclude_at(Ok(()), 5_000), Ok(31)));
    assert_eq!(other.status, ExecutionStatus::Completed);
    assert_eq!(other.finished_at, Some(5_000));
    assert_eq!(other.reference, 70);
}

#[test]
fn a_storage_failure_gives_the_run_up() {
    let mut request = ExecutionRequest::new_at(
        70,
        ExecutionType::TestCase,
        ExecutionKind::Trigger,
        ExecutionStatus::Started,
        0,
        false,
        None,
        1_000,
    );
    let answer =
        request.conclude_at(Err(EngineError::DatabaseError("connection lost".to_string())), 4_000);
    match answer {
        Err(EngineError::DatabaseError(cause)) => assert_eq!(cause, "connection lost"),
        _ => panic!("the run went on"),
    }
    assert_eq!(request.status, ExecutionStatus::Started);
    assert_eq!(request.finished_at, None);
}
