use orca::entity::attachment::{StorageCategory, StorageType};
use orca::entity::data::ATargetKind;
use orca::entity::log::{ItemLog, ItemLogType};
use orca::entity::request::{ExecutionKind, ExecutionRequest, ExecutionStatus, ExecutionType};
use orca::error::{EngineError, EntityError, OrcaError, OrcaRepoError};
use orca::service::history::HistoryService;

#[test]
fn repository_errors_have_their_messages() {
    assert_eq!(OrcaRepoError::NotFound("x".to_string()).message(), "Item Not Found: x");
    assert_eq!(
        OrcaRepoError::ModelNotFound("Block".to_string(), "7".to_string()).message(),
        "Block Not Found: 7"
    );
    assert_eq!(OrcaRepoError::InvalidUsername("ann".to_string()).message(), "Invalid UserName: ann");
}

#[test]
fn engine_errors_have_their_messages() {
    assert_eq!(
        EngineError::NotFound("Case".to_string(), "7".to_string()).message(),
        "Case Not Found: 7"
    );
    assert_eq!(
        EngineError::MissingParameter("action.data_value".to_string(), "7".to_string()).message(),
        "Missing Parameter - action.data_value: 7"
    );
    assert_eq!(EngineError::Forbidden.message(), "You are forbidden to access requested file.");
    assert_eq!(EngineError::DatabaseError("down".to_string()).message(), "Database error: down");
    assert_eq!(
        EngineError::UnsupportedOperation("case block".to_string()).message(),
        "Unsupported operation: case block"
    );
    assert_eq!(EngineError::WebdriverError("gone".to_string()).message(), "Webdriver error: gone");
    assert!(EngineError::DatabaseError("down".to_string()).from_storage());
    assert!(!EngineError::Forbidden.from_storage());
    let copy = EngineError::NotFound("Case".to_string(), "7".to_string()).duplicate();
    assert!(matches!(copy, EngineError::NotFound(kind, key) if kind == "Case" && key == "7"));
}

#[test]
fn entity_errors_have_their_messages() {
    assert_eq!(
        EntityError::FailedActiveModelConvert("no key".to_string()).message(),
        "Failed to convert Active Model : no key"
    );
}

#[test]
fn service_errors_have_their_messages() {
    assert_eq!(OrcaError::DataBaseError("down".to_string()).message(), "DbErr error: down");
    assert_eq!(
        OrcaError::RepoError(OrcaRepoError::NotFound("x".to_string())).message(),
        "OrcaRepoError error: Item Not Found: x"
    );
    assert_eq!(
        OrcaError::SerializerError("eof".to_string()).message(),
        "SerializerError error: eof"
    );
    assert_eq!(
        OrcaError::EngineError(EngineError::Forbidden).message(),
        "EngineError error: You are forbidden to access requested file."
    );
    assert_eq!(OrcaError::CeriumError("s3".to_string()).message(), "CeriumError error: s3");
}

#[test]
fn a_refused_request_is_answered_with_not_found() {
    let response =
        OrcaError::RepoError(OrcaRepoError::ModelNotFound("Suite".to_string(), "7".to_string()))
            .into_response();
    assert_eq!(response, (404, "Suite Not Found: 7".to_string()));
}

#[test]
fn any_other_failure_is_answered_with_a_server_error() {
    assert_eq!(
        OrcaError::DataBaseError("down".to_string()).into_response(),
        (500, "down".to_string())
    );
    assert_eq!(
        OrcaError::SerializerError("eof".to_string()).into_response(),
        (500, "eof".to_string())
    );
    assert_eq!(OrcaError::CeriumError("s3".to_string()).into_response(), (500, "s3".to_string()));
    assert_eq!(
        OrcaError::EngineError(EngineError::DatabaseError("down".to_string())).into_response(),
        (500, "Database error: down".to_string())
    );
}

#[test]
fn storage_codes_go_both_ways() {
    for kind in [StorageType::InBuild, StorageType::S3, StorageType::GCS] {
        assert_eq!(StorageType::try_from_value(&kind.to_value()), Some(kind));
    }
    assert_eq!(StorageType::InBuild.to_value(), "IB");
    assert_eq!(StorageType::S3.to_value(), "s3");
    assert_eq!(StorageType::GCS.to_value(), "GCS");
    assert_eq!(StorageType::try_from_value(&"S3".to_string()), None);
    for kind in [StorageCategory::Evidence, StorageCategory::MockData, StorageCategory::GCS] {
        assert_eq!(StorageCategory::try_from_value(&kind.to_value()), Some(kind));
    }
    assert_eq!(StorageCategory::MockData.to_value(), "MockData");
    assert_eq!(StorageCategory::try_from_value(&"".to_string()), None);
    for kind in [ATargetKind::Runtime, ATargetKind::Static] {
        assert_eq!(ATargetKind::try_from_value(&kind.to_value()), Some(kind));
    }
    assert_eq!(ATargetKind::Static.to_value(), "Static");
    assert_eq!(ATargetKind::try_from_value(&"static".to_string()), None);
}

fn record(id: u128, er: i32, level: ItemLogType, step: u128, parent: Option<u128>) -> ItemLog {
    ItemLog::open_at(id, 0, er, None, level, step, parent)
}

fn history() -> HistoryService {
    let logs = vec![
        record(1, 5, ItemLogType::TestSuite, 80, None),
        record(2, 5, ItemLogType::TestSuiteBlock, 81, Some(1)),
        record(3, 5, ItemLogType::TestCase, 70, Some(1)),
        record(4, 5, ItemLogType::TestCaseBlock, 71, Some(3)),
        record(5, 5, ItemLogType::ActionGroup, 60, Some(3)),
        record(6, 5, ItemLogType::Action, 61, Some(1)),
        record(7, 6, ItemLogType::TestCase, 70, Some(1)),
        record(8, 6, ItemLogType::TestSuite, 80, None),
    ];
    let mut first = ExecutionRequest::new_at(
        80,
        ExecutionType::TestSuite,
        ExecutionKind::Trigger,
        ExecutionStatus::Started,
        0,
        false,
        Some("first".to_string()),
        10,
    );
    first.id = 5;
    let mut second = first.duplicate();
    second.id = 6;
    second.description = Some("second".to_string());
    HistoryService::new(vec![first, second], logs)
}

#[test]
fn the_records_below_a_node_are_those_that_point_to_it() {
    let service = history();
    let below = service.log_by_id(5, ItemLogType::TestSuite, 80).unwrap();
    assert_eq!(below.iter().map(|log| log.id).collect::<Vec<u128>>(), vec![3, 6]);
    let below = service.log_by_id(5, ItemLogType::TestCase, 70).unwrap();
    assert_eq!(below.iter().map(|log| log.id).collect::<Vec<u128>>(), vec![5]);
    let below = service.log_by_id(6, ItemLogType::TestSuite, 80).unwrap();
    assert_eq!(below.len(), 0);
}

#[test]
fn a_node_without_a_record_is_not_found() {
    let service = history();
    match service.log_by_id(5, ItemLogType::TestCase, 0xab) {
        Err(OrcaError::RepoError(OrcaRepoError::ModelNotFound(kind, key))) => {
            assert_eq!(kind, "Log");
            assert_eq!(key, "00000000-0000-0000-0000-0000000000ab");
        }
        _ => panic!("a record was found"),
    }
    assert!(service.log_by_id(7, ItemLogType::TestSuite, 80).is_err());
    assert!(service.log_by_id(5, ItemLogType::TestCase, 80).is_err());
}

#[test]
fn a_request_is_looked_up_by_its_key() {
    let service = history();
    assert_eq!(service.by_id(6).unwrap().description, Some("second".to_string()));
    assert_eq!(service.list_history().len(), 2);
    match service.by_id(-12) {
        Err(OrcaError::RepoError(OrcaRepoError::ModelNotFound(kind, key))) => {
            assert_eq!(kind, "Request History");
            assert_eq!(key, "-12");
        }
        _ => panic!("a request was found"),
    }
}

#[test]
fn a_history_entry_starts_running() {
    let request = HistoryService::create_history_at(
        70,
        ExecutionKind::Trigger,
        ExecutionType::TestCase,
        Some("nightly".to_string()),
        None,
        1_234,
    );
    assert_eq!(request.status, ExecutionStatus::Running);
    assert_eq!(request.reference, 70);
    assert!(!request.is_dry_run);
    assert_eq!(request.triggered_by, 1);
    assert_eq!(request.triggered_at, 1_234);
    assert_eq!(request.description, Some("nightly".to_string()));
    let dry = HistoryService::create_history(
        70,
        ExecutionKind::Trigger,
        ExecutionType::TestSuite,
        None,
        Some(true),
    );
    assert!(dry.is_dry_run);
    assert_eq!(dry.history_type, ExecutionType::TestSuite);
    assert!(dry.triggered_at > 0);
}
