use orca::audit::{AuditPass, FailurePolicy};
use orca::clock::elapsed_millis;
use orca::entity::log::{ItemLog, ItemLogStatus, ItemLogType};
use orca::error::EngineError;
use orca::ident::is_nil;
use orca::paging::{PageCursor, PageRequest};

#[test]
fn elapsed_millis_is_the_difference_of_the_two_instants() {
    assert_eq!(elapsed_millis(1_000, 1_250), 250);
    assert_eq!(elapsed_millis(1_700_000_000_000, 1_700_000_003_500), 3_500);
    assert_eq!(elapsed_millis(5, 5), 0);
}

#[test]
fn elapsed_millis_keeps_the_low_bits_of_a_long_span() {
    assert_eq!(elapsed_millis(0, 1 << 32), 0);
    assert_eq!(elapsed_millis(0, (1 << 32) + 7), 7);
    assert_eq!(elapsed_millis(10, 3), -7);
}

#[test]
fn the_clock_runs_forward_from_the_epoch() {
    let first = ItemLog::new(1, None, ItemLogType::TestCase, 2, None);
    let second = ItemLog::new(1, None, ItemLogType::TestCase, 2, None);
    assert!(first.started_at > 1_600_000_000_000);
    assert!(second.started_at >= first.started_at);
}

#[test]
fn fresh_identifiers_are_random_ones() {
    let id = ItemLog::new(1, None, ItemLogType::TestCase, 2, None).id;
    assert!(!is_nil(id));
    assert!(is_nil(0));
    assert_eq!(
        id & 0x0000_0000_0000_f000_c000_0000_0000_0000,
        0x0000_0000_0000_4000_8000_0000_0000_0000
    );
    assert_ne!(id, ItemLog::new(1, None, ItemLogType::TestCase, 2, None).id);
}

fn text_of(id: u128) -> String {
    let er = orca::controller::case::CaseController::run(id, false);
    er.description.unwrap()["[TC] Executing - ".len()..].to_string()
}

#[test]
fn identifiers_are_written_hyphenated() {
    assert_eq!(text_of(0x0123456789abcdef0fedcba987654321), "01234567-89ab-cdef-0fed-cba987654321");
    assert_eq!(text_of(0), "00000000-0000-0000-0000-000000000000");
    assert_eq!(text_of(u128::MAX), "ffffffff-ffff-ffff-ffff-ffffffffffff");
    assert_eq!(text_of(10), "00000000-0000-0000-0000-00000000000a");
}

#[test]
fn a_record_is_opened_running() {
    let log = ItemLog::open_at(7, 1_000, 3, Some(11), ItemLogType::TestCase, 12, Some(13));
    assert_eq!(
        log,
        ItemLog {
            id: 7,
            er_id: 3,
            ref_id: Some(11),
            ref_type: ItemLogType::TestCase,
            step_id: 12,
            log_id: Some(13),
            status: ItemLogStatus::Running,
            started_at: 1_000,
            finished_at: None,
            execution_time: 0,
        }
    );
}

#[test]
fn a_record_is_closed_once() {
    let mut log = ItemLog::open_at(7, 1_000, 3, None, ItemLogType::TestSuite, 12, None);
    log.close_at(false, 1_400);
    assert_eq!(log.status, ItemLogStatus::Failed);
    assert_eq!(log.finished_at, Some(1_400));
    assert_eq!(log.execution_time, 400);
    let closed = log;
    log.close_at(true, 9_000);
    assert_eq!(log, closed);
    log.save_status(true);
    assert_eq!(log, closed);
}

#[test]
fn a_new_record_is_closed_with_its_elapsed_time() {
    let mut log = ItemLog::new(3, None, ItemLogType::TestSuiteBlock, 12, Some(5));
    assert_ne!(log.id, 0);
    assert_eq!(log.status, ItemLogStatus::Running);
    assert_eq!(log.er_id, 3);
    assert_eq!(log.step_id, 12);
    assert_eq!(log.log_id, Some(5));
    log.save_status(true);
    assert_eq!(log.status, ItemLogStatus::Success);
    let finished = log.finished_at.unwrap();
    assert!(finished >= log.started_at);
    assert_eq!(log.execution_time as i64, finished - log.started_at);
}

fn statuses(pass: &AuditPass) -> Vec<ItemLogStatus> {
    pass.entries().iter().map(|e| e.status).collect()
}

fn missing() -> EngineError {
    EngineError::MissingParameter("action.data_value".to_string(), "x".to_string())
}

#[test]
fn an_aborting_pass_stops_at_the_first_failure() {
    let mut pass = AuditPass::begin(
        FailurePolicy::Abort,
        ItemLogType::TestCase,
        ItemLogType::TestCaseBlock,
        4,
        50,
        None,
        None,
    );
    let outcomes = [true, true, false, true, true];
    let mut opened = 0;
    for (k, ok) in outcomes.iter().enumerate() {
        if pass.open_block(100 + k as u128, None) {
            opened += 1;
            pass.close_block(if *ok { Ok(()) } else { Err(missing()) });
        }
    }
    assert_eq!(opened, 3);
    assert_eq!(
        statuses(&pass),
        vec![ItemLogStatus::Success, ItemLogStatus::Success, ItemLogStatus::Failed]
    );
    assert!(pass.is_halted());
    let result = pass.conclude();
    assert!(matches!(result, Err(EngineError::MissingParameter(_, _))));
    assert_eq!(pass.summary().status, ItemLogStatus::Failed);
    assert_eq!(pass.entries().len(), 3);
}

#[test]
fn a_continuing_pass_logs_every_block() {
    let mut pass = AuditPass::begin(
        FailurePolicy::Continue,
        ItemLogType::TestSuite,
        ItemLogType::TestSuiteBlock,
        4,
        50,
        None,
        None,
    );
    let outcomes = [true, false, true, false, true];
    for (k, ok) in outcomes.iter().enumerate() {
        assert!(pass.open_block(100 + k as u128, Some(k as u128)));
        pass.close_block(if *ok { Ok(()) } else { Err(missing()) });
    }
    assert_eq!(
        statuses(&pass),
        vec![
            ItemLogStatus::Success,
            ItemLogStatus::Failed,
            ItemLogStatus::Success,
            ItemLogStatus::Failed,
            ItemLogStatus::Success
        ]
    );
    let summary = pass.summary();
    for (k, entry) in pass.entries().iter().enumerate() {
        assert_eq!(entry.step_id, 100 + k as u128);
        assert_eq!(entry.ref_id, Some(k as u128));
        assert_eq!(entry.log_id, Some(summary.id));
        assert_eq!(entry.er_id, 4);
        assert_eq!(entry.ref_type, ItemLogType::TestSuiteBlock);
        assert!(entry.finished_at.is_some());
    }
    assert!(!pass.is_halted());
    assert!(pass.conclude().is_ok());
    assert_eq!(pass.summary().status, ItemLogStatus::Success);
}

#[test]
fn a_storage_failure_halts_a_continuing_pass() {
    let mut pass = AuditPass::begin(
        FailurePolicy::Continue,
        ItemLogType::TestSuite,
        ItemLogType::TestSuiteBlock,
        4,
        50,
        None,
        None,
    );
    assert!(pass.open_block(1, None));
    pass.close_block(Err(EngineError::DatabaseError("connection lost".to_string())));
    assert!(pass.is_halted());
    assert!(!pass.open_block(2, None));
    assert_eq!(pass.entries().len(), 1);
    match pass.conclude() {
        Err(EngineError::DatabaseError(cause)) => assert_eq!(cause, "connection lost"),
        _ => panic!("the storage failure was lost"),
    }
    assert_eq!(pass.summary().status, ItemLogStatus::Failed);
}

#[test]
fn a_pass_takes_one_block_at_a_time() {
    let mut pass = AuditPass::begin(
        FailurePolicy::Abort,
        ItemLogType::TestCase,
        ItemLogType::TestCaseBlock,
        4,
        50,
        Some(9),
        Some(8),
    );
    assert_eq!(pass.summary().ref_id, Some(9));
    assert_eq!(pass.summary().log_id, Some(8));
    assert_eq!(pass.summary().ref_type, ItemLogType::TestCase);
    assert!(pass.last_entry().is_none());
    pass.close_block(Ok(()));
    assert_eq!(pass.entries().len(), 0);
    assert!(pass.open_block(1, None));
    assert!(pass.is_in_flight());
    assert!(!pass.open_block(2, None));
    assert_eq!(pass.entries().len(), 1);
    pass.close_block(Ok(()));
    assert!(!pass.is_in_flight());
    assert_eq!(pass.last_entry().unwrap().status, ItemLogStatus::Success);
}

#[test]
fn concluding_settles_a_block_in_flight_as_forbidden() {
    let mut pass = AuditPass::begin(
        FailurePolicy::Abort,
        ItemLogType::TestCase,
        ItemLogType::TestCaseBlock,
        4,
        50,
        None,
        None,
    );
    assert!(pass.open_block(1, None));
    assert!(matches!(pass.conclude(), Err(EngineError::Forbidden)));
    assert_eq!(pass.last_entry().unwrap().status, ItemLogStatus::Failed);
    assert_eq!(pass.summary().status, ItemLogStatus::Failed);
    assert!(pass.is_closed());
    let closed = pass.summary();
    assert!(matches!(pass.conclude(), Err(EngineError::Forbidden)));
    assert_eq!(pass.summary(), closed);
    assert!(!pass.open_block(2, None));
}

#[test]
fn a_failure_outside_of_a_block_halts_the_pass() {
    let mut pass = AuditPass::begin(
        FailurePolicy::Continue,
        ItemLogType::TestSuite,
        ItemLogType::TestSuiteBlock,
        4,
        50,
        None,
        None,
    );
    assert_eq!(pass.policy(), FailurePolicy::Continue);
    pass.fail(EngineError::NotFound("Suite".to_string(), "50".to_string()));
    assert!(pass.is_halted());
    assert!(!pass.is_accepting());
    assert!(!pass.open_block(1, None));
    assert!(matches!(pass.conclude(), Err(EngineError::NotFound(_, _))));
    assert_eq!(pass.summary().status, ItemLogStatus::Failed);
}

#[test]
fn a_cursor_walks_the_pages_until_one_is_empty() {
    let mut cursor = PageCursor::new(10);
    assert_eq!(cursor.request(), Some(PageRequest { page: 0, offset: 0, limit: 10 }));
    assert!(cursor.received(10));
    assert_eq!(cursor.request(), Some(PageRequest { page: 1, offset: 10, limit: 10 }));
    assert!(cursor.received(3));
    assert_eq!(cursor.request(), Some(PageRequest { page: 2, offset: 20, limit: 10 }));
    assert!(!cursor.received(0));
    assert_eq!(cursor.request(), None);
    assert!(!cursor.received(5));
    assert_eq!(cursor.request(), None);
}

#[test]
fn a_cursor_without_a_page_size_asks_for_nothing() {
    let cursor = PageCursor::new(0);
    assert_eq!(cursor.request(), None);
}

#[test]
fn a_cursor_stops_where_the_offset_leaves_its_range() {
    let cursor = PageCursor { page_size: 1 << 40, page: 1 << 30, exhausted: false };
    assert_eq!(cursor.request(), None);
}
