use orca::controller::action::{ActionController, DriverCommand, DriverReply, Step};
use orca::entity::action::{Action, ActionKind, ActionTargetKind};
use orca::error::EngineError;
use orca::paging::PageRequest;

const ID: u128 = 0x0123456789abcdef0fedcba987654321;
const ID_TEXT: &str = "01234567-89ab-cdef-0fed-cba987654321";

fn step(
    kind: ActionKind,
    data: Option<&str>,
    target_kind: Option<ActionTargetKind>,
    target: Option<&str>,
) -> Action {
    Action {
        id: ID,
        action_group_id: 6,
        execution_order: 1,
        description: Some("a step".to_string()),
        kind,
        data_value: data.map(|d| d.to_string()),
        target_kind,
        target_value: target.map(|t| t.to_string()),
    }
}

fn expect_missing(result: Result<Step, EngineError>, name: &str) {
    match result {
        Err(EngineError::MissingParameter(field, context)) => {
            assert_eq!(field, name);
            assert_eq!(context, ID_TEXT);
        }
        _ => panic!("the step was planned"),
    }
}

#[test]
fn open_navigates_to_its_data_value() {
    let planned = ActionController::step_executor(&step(ActionKind::Open, Some("https://example.org"), None, None));
    match planned {
        Ok(Step::Drive(DriverCommand::Open { url })) => assert_eq!(url, "https://example.org"),
        _ => panic!("no navigation was planned"),
    }
}

#[test]
fn open_without_an_address_is_forbidden() {
    let planned = ActionController::step_executor(&step(ActionKind::Open, None, None, None));
    assert!(matches!(planned, Err(EngineError::Forbidden)));
}

#[test]
fn enter_types_its_data_value_into_its_target() {
    let planned = ActionController::step_executor(&step(
        ActionKind::Enter,
        Some("secret"),
        Some(ActionTargetKind::Id),
        Some("password"),
    ));
    match planned {
        Ok(Step::Drive(DriverCommand::SendKeys { locator, text })) => {
            assert_eq!(locator.kind, ActionTargetKind::Id);
            assert_eq!(locator.value, "password");
            assert_eq!(text, "secret");
        }
        _ => panic!("no typing was planned"),
    }
}

#[test]
fn enter_names_the_field_that_is_missing() {
    let kind = Some(ActionTargetKind::Css);
    expect_missing(
        ActionController::step_executor(&step(ActionKind::Enter, None, None, None)),
        "action.data_value",
    );
    expect_missing(
        ActionController::step_executor(&step(ActionKind::Enter, Some("x"), None, None)),
        "action.target_value",
    );
    expect_missing(
        ActionController::step_executor(&step(ActionKind::Enter, Some("x"), None, Some("#a"))),
        "action.target_kind",
    );
    expect_missing(
        ActionController::step_executor(&step(ActionKind::Enter, None, kind, Some("#a"))),
        "action.data_value",
    );
}

#[test]
fn click_addresses_its_element_by_the_data_value() {
    let planned = ActionController::step_executor(&step(
        ActionKind::Click,
        Some("//button"),
        Some(ActionTargetKind::Xpath),
        None,
    ));
    match planned {
        Ok(Step::Drive(DriverCommand::Click { locator })) => {
            assert_eq!(locator.kind, ActionTargetKind::Xpath);
            assert_eq!(locator.value, "//button");
        }
        _ => panic!("no click was planned"),
    }
}

#[test]
fn click_names_the_field_that_is_missing() {
    expect_missing(
        ActionController::step_executor(&step(ActionKind::Click, None, Some(ActionTargetKind::Css), Some("#a"))),
        "action.target_value",
    );
    expect_missing(
        ActionController::step_executor(&step(ActionKind::Click, Some("#a"), None, Some("#a"))),
        "action.target_kind",
    );
}

#[test]
fn verify_text_reads_its_target_and_expects_its_data_value() {
    let planned = ActionController::step_executor(&step(
        ActionKind::VerifyText,
        Some("Welcome"),
        Some(ActionTargetKind::Css),
        Some("h1"),
    ));
    match planned {
        Ok(Step::Drive(DriverCommand::ReadText { locator, expected })) => {
            assert_eq!(locator.kind, ActionTargetKind::Css);
            assert_eq!(locator.value, "h1");
            assert_eq!(expected, "Welcome");
        }
        _ => panic!("no reading was planned"),
    }
}

#[test]
fn verify_text_names_the_field_that_is_missing() {
    let kind = Some(ActionTargetKind::Css);
    expect_missing(
        ActionController::step_executor(&step(ActionKind::VerifyText, None, kind, Some("h1"))),
        "action.data_value",
    );
    expect_missing(
        ActionController::step_executor(&step(ActionKind::VerifyText, Some("x"), kind, None)),
        "action.target_value",
    );
    expect_missing(
        ActionController::step_executor(&step(ActionKind::VerifyText, Some("x"), None, Some("h1"))),
        "action.target_kind",
    );
}

#[test]
fn double_click_does_nothing() {
    let planned = ActionController::step_executor(&step(ActionKind::DoubleClick, None, None, None));
    assert!(matches!(planned, Ok(Step::Skip)));
}

#[test]
fn an_unknown_kind_is_not_supported() {
    let planned = ActionController::step_executor(&step(ActionKind::Unknown, Some("x"), None, None));
    match planned {
        Err(EngineError::UnsupportedOperation(what)) => assert_eq!(what, "action kind"),
        _ => panic!("an unknown kind was planned"),
    }
}

fn read(expected: &str) -> DriverCommand {
    match ActionController::step_executor(&step(
        ActionKind::VerifyText,
        Some(expected),
        Some(ActionTargetKind::Css),
        Some("h1"),
    )) {
        Ok(Step::Drive(command)) => command,
        _ => panic!("no reading was planned"),
    }
}

#[test]
fn a_text_that_matches_verifies() {
    assert!(ActionController::verify(&read("Welcome"), DriverReply::Text("Welcome".to_string())).is_ok());
}

#[test]
fn a_text_that_differs_fails_the_step() {
    match ActionController::verify(&read("Welcome"), DriverReply::Text("Goodbye".to_string())) {
        Err(EngineError::MissingParameter(field, expected)) => {
            assert_eq!(field, "action.data_value");
            assert_eq!(expected, "Welcome");
        }
        _ => panic!("the mismatch went through"),
    }
}

#[test]
fn a_reading_without_a_text_is_a_driver_failure() {
    match ActionController::verify(&read("Welcome"), DriverReply::Done) {
        Err(EngineError::WebdriverError(cause)) => assert_eq!(cause, "no text was read"),
        _ => panic!("the reading went through"),
    }
}

#[test]
fn a_failed_command_is_a_driver_failure() {
    let open = DriverCommand::Open { url: "https://example.org".to_string() };
    match ActionController::verify(&open, DriverReply::Failed("no such window".to_string())) {
        Err(EngineError::WebdriverError(cause)) => assert_eq!(cause, "no such window"),
        _ => panic!("the failure went through"),
    }
    assert!(ActionController::verify(&open, DriverReply::Done).is_ok());
    assert!(ActionController::verify(&open, DriverReply::Text("ignored".to_string())).is_ok());
}

#[test]
fn the_first_failing_step_ends_the_group() {
    let mut controller = ActionController::new(6);
    assert_eq!(controller.group(), 6);
    let first = controller.execute(&step(ActionKind::Open, Some("https://example.org"), None, None));
    let command = first.unwrap();
    controller.settle(&command, DriverReply::Done);
    assert!(!controller.is_halted());
    assert!(controller.execute(&step(ActionKind::DoubleClick, None, None, None)).is_none());
    assert!(!controller.is_halted());
    assert!(controller.execute(&step(ActionKind::Enter, None, None, None)).is_none());
    assert!(controller.is_halted());
    // The steps behind the failure are not planned any more.
    assert!(controller.execute(&step(ActionKind::Open, Some("https://example.org"), None, None)).is_none());
    controller.settle(&command, DriverReply::Failed("late".to_string()));
    match controller.finish() {
        Err(EngineError::MissingParameter(field, _)) => assert_eq!(field, "action.data_value"),
        _ => panic!("the group did not fail"),
    }
}

#[test]
fn a_failing_reply_ends_the_group() {
    let mut controller = ActionController::new(6);
    let command = controller
        .execute(&step(ActionKind::VerifyText, Some("a"), Some(ActionTargetKind::Id), Some("b")))
        .unwrap();
    controller.settle(&command, DriverReply::Text("c".to_string()));
    assert!(controller.is_halted());
    assert_eq!(controller.next_page(), None);
    assert!(matches!(controller.finish(), Err(EngineError::MissingParameter(_, _))));
}

#[test]
fn a_group_pages_through_its_actions_by_fifty() {
    let mut controller = ActionController::new(6);
    assert_eq!(controller.next_page(), Some(PageRequest { page: 0, offset: 0, limit: 50 }));
    controller.page_received(50);
    assert_eq!(controller.next_page(), Some(PageRequest { page: 1, offset: 50, limit: 50 }));
    controller.page_received(0);
    assert_eq!(controller.next_page(), None);
    assert!(controller.finish().is_ok());
}
