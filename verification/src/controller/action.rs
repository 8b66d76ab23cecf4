//! The action executor: the leaf steps of an action group, one by one.
//!
//! A step is planned from its action: the fields it needs are looked up, and
//! the command for the browser comes out. The browser's reply is judged
//! next. The first step that fails ends the group: the steps behind it are
//! not planned any more.

use vstd::prelude::*;
use vstd::string::StringExecFns;
use crate::entity::action::{Action, ActionKind, ActionTargetKind};
use crate::error::{EngineError, EngineErrorView};
use crate::ident::{hyphenated, id_text};
use crate::paging::{PageCursor, PageRequest};

verus! {

/// How many actions of a group are loaded at once.
pub const ACTION_PAGE_SIZE: u64 = 50;

/// The address of an element: a strategy and the value to look for.
#[derive(Debug)]
pub struct Locator {
    pub kind: ActionTargetKind,
    pub value: String,
}

/// What the browser is asked to do.
#[derive(Debug)]
pub enum DriverCommand {
    /// Navigate to an address.
    Open { url: String },
    /// Find an element and type a text into it.
    SendKeys { locator: Locator, text: String },
    /// Find an element and click it.
    Click { locator: Locator },
    /// Find an element and read its rendered content, which is expected to
    /// equal a given text.
    ReadText { locator: Locator, expected: String },
}

/// What a step comes to.
#[derive(Debug)]
pub enum Step {
    /// The browser is to perform a command.
    Drive(DriverCommand),
    /// Nothing is to be done.
    Skip,
}

/// What the browser answered.
#[derive(Debug)]
pub enum DriverReply {
    /// The command was performed.
    Done,
    /// The command was performed and brought back a text.
    Text(String),
    /// The command failed; the text says why.
    Failed(String),
}

/// The mathematical content of a [`DriverCommand`].
pub enum CommandView {
    Open { url: Seq<char> },
    SendKeys { kind: ActionTargetKind, target: Seq<char>, text: Seq<char> },
    Click { kind: ActionTargetKind, target: Seq<char> },
    ReadText { kind: ActionTargetKind, target: Seq<char>, expected: Seq<char> },
}

/// The mathematical content of a [`Step`].
pub enum StepView {
    Drive(CommandView),
    Skip,
}

/// The mathematical content of a [`DriverReply`].
pub enum ReplyView {
    Done,
    Text(Seq<char>),
    Failed(Seq<char>),
}

impl View for DriverCommand {
    type V = CommandView;

    open spec fn view(&self) -> CommandView {
        match self {
            DriverCommand::Open { url } => CommandView::Open { url: url@ },
            DriverCommand::SendKeys { locator, text } => CommandView::SendKeys {
                kind: locator.kind,
                target: locator.value@,
                text: text@,
            },
            DriverCommand::Click { locator } => CommandView::Click {
                kind: locator.kind,
                target: locator.value@,
            },
            DriverCommand::ReadText { locator, expected } => CommandView::ReadText {
                kind: locator.kind,
                target: locator.value@,
                expected: expected@,
            },
        }
    }
}

impl View for Step {
    type V = StepView;

    open spec fn view(&self) -> StepView {
        match self {
            Step::Drive(command) => StepView::Drive(command@),
            Step::Skip => StepView::Skip,
        }
    }
}

impl View for DriverReply {
    type V = ReplyView;

    open spec fn view(&self) -> ReplyView {
        match self {
            DriverReply::Done => ReplyView::Done,
            DriverReply::Text(text) => ReplyView::Text(text@),
            DriverReply::Failed(cause) => ReplyView::Failed(cause@),
        }
    }
}

/// The content of an optional text.
pub open spec fn text_of(value: Option<String>) -> Option<Seq<char>> {
    match value {
        Some(text) => Some(text@),
        None => None,
    }
}

/// The failure that reports an absent field of the action named `id`.
pub open spec fn missing(field: Seq<char>, id: u128) -> EngineErrorView {
    EngineErrorView::MissingParameter(field, hyphenated(id))
}

/// What an action comes to.
///
/// * `Open` navigates to its data value, and is forbidden without one.
/// * `Enter` types its data value into the element that its target kind and
///   target value address.
/// * `Click` clicks the element that its target kind and its data value
///   address.
/// * `VerifyText` reads the element that its target kind and target value
///   address, and expects its data value there.
/// * `DoubleClick` does nothing.
/// * Any other kind is not supported.
///
/// A field that is needed and absent is reported by its name; where several
/// are absent, the data value is reported before the target value, and that
/// before the target kind.
pub open spec fn planned(action: Action) -> Result<StepView, EngineErrorView> {
    let data = text_of(action.data_value);
    let target = text_of(action.target_value);
    match action.kind {
        ActionKind::Open => match data {
            None => Err(EngineErrorView::Forbidden),
            Some(url) => Ok(StepView::Drive(CommandView::Open { url })),
        },
        ActionKind::Enter => if data is None {
            Err(missing("action.data_value"@, action.id))
        } else if target is None {
            Err(missing("action.target_value"@, action.id))
        } else if action.target_kind is None {
            Err(missing("action.target_kind"@, action.id))
        } else {
            Ok(
                StepView::Drive(
                    CommandView::SendKeys {
                        kind: action.target_kind.unwrap(),
                        target: target.unwrap(),
                        text: data.unwrap(),
                    },
                ),
            )
        },
        ActionKind::Click => if data is None {
            Err(missing("action.target_value"@, action.id))
        } else if action.target_kind is None {
            Err(missing("action.target_kind"@, action.id))
        } else {
            Ok(
                StepView::Drive(
                    CommandView::Click { kind: action.target_kind.unwrap(), target: data.unwrap() },
                ),
            )
        },
        ActionKind::VerifyText => if data is None {
            Err(missing("action.data_value"@, action.id))
        } else if target is None {
            Err(missing("action.target_value"@, action.id))
        } else if action.target_kind is None {
            Err(missing("action.target_kind"@, action.id))
        } else {
            Ok(
                StepView::Drive(
                    CommandView::ReadText {
                        kind: action.target_kind.unwrap(),
                        target: target.unwrap(),
                        expected: data.unwrap(),
                    },
                ),
            )
        },
        ActionKind::DoubleClick => Ok(StepView::Skip),
        ActionKind::Unknown => Err(EngineErrorView::UnsupportedOperation("action kind"@)),
    }
}

/// What the browser's reply to a command comes to.
///
/// A failed command is a driver failure. A text that was read and differs
/// from the expected one is a failure of the step, reported with the
/// expected text; a read that brought no text back is a driver failure.
/// Everything else is a success.
pub open spec fn judged(command: CommandView, reply: ReplyView) -> Result<(), EngineErrorView> {
    match reply {
        ReplyView::Failed(cause) => Err(EngineErrorView::WebdriverError(cause)),
        ReplyView::Text(text) => match command {
            CommandView::ReadText { expected, .. } => if text == expected {
                Ok(())
            } else {
                Err(EngineErrorView::MissingParameter("action.data_value"@, expected))
            },
            _ => Ok(()),
        },
        ReplyView::Done => match command {
            CommandView::ReadText { .. } => Err(
                EngineErrorView::WebdriverError("no text was read"@),
            ),
            _ => Ok(()),
        },
    }
}

/// The content of a result that carries an engine error.
pub open spec fn outcome_view(outcome: Result<(), EngineError>) -> Result<(), EngineErrorView> {
    match outcome {
        Ok(_) => Ok(()),
        Err(error) => Err(error@),
    }
}

fn missing_parameter(field: &str, id: u128) -> (error: EngineError)
    ensures
        error@ == missing(field@, id),
{
    EngineError::MissingParameter(String::from_str(field), id_text(id))
}

/// The executor of one action group.
pub struct ActionController {
    group: u128,
    cursor: PageCursor,
    failure: Option<EngineError>,
}

/// The mathematical content of an [`ActionController`].
pub struct GroupView {
    /// The action group that is executed.
    pub group: u128,
    /// The cursor over the group's actions.
    pub cursor: PageCursor,
    /// The failure that ended the group.
    pub failure: Option<EngineError>,
}

impl GroupView {
    /// Whether a step has failed.
    pub open spec fn halted(self) -> bool {
        self.failure is Some
    }

    /// What the group reports to its caller.
    pub open spec fn result(self) -> Result<(), EngineError> {
        match self.failure {
            Some(error) => Err(error),
            None => Ok(()),
        }
    }
}

impl View for ActionController {
    type V = GroupView;

    closed spec fn view(&self) -> GroupView {
        GroupView { group: self.group, cursor: self.cursor, failure: self.failure }
    }
}

impl ActionController {
    /// An executor for the action group `action_group_id`, before its first
    /// step.
    pub fn new(action_group_id: u128) -> (controller: ActionController)
        ensures
            controller@ == (GroupView {
                group: action_group_id,
                cursor: PageCursor::start(ACTION_PAGE_SIZE),
                failure: None,
            }),
    {
        ActionController {
            group: action_group_id,
            cursor: PageCursor::new(ACTION_PAGE_SIZE),
            failure: None,
        }
    }

    /// The action group that is executed.
    pub fn group(&self) -> (group: u128)
        ensures
            group == self@.group,
    {
        self.group
    }

    /// Whether a step has failed.
    pub fn is_halted(&self) -> (halted: bool)
        ensures
            halted == self@.halted(),
    {
        self.failure.is_some()
    }

    /// The page of actions to load next, in ascending execution order: none
    /// once a step has failed or the group's actions are used up.
    pub fn next_page(&self) -> (request: Option<PageRequest>)
        ensures
            request == if self@.halted() {
                None
            } else {
                self@.cursor.pending()
            },
    {
        if self.failure.is_some() {
            None
        } else {
            self.cursor.request()
        }
    }

    /// Takes note of the page of actions that was loaded.
    pub fn page_received(&mut self, rows: usize)
        ensures
            final(self)@ == (GroupView { cursor: old(self)@.cursor.advanced(rows), ..old(self)@ }),
    {
        self.cursor.received(rows);
    }

    /// Plans one step: what the action comes to, by its kind and fields.
    pub fn step_executor(action: &Action) -> (step: Result<Step, EngineError>)
        ensures
            step is Ok <==> planned(*action) is Ok,
            step matches Ok(planned_step) ==> Ok::<StepView, EngineErrorView>(planned_step@)
                == planned(*action),
            step matches Err(error) ==> Err::<StepView, EngineErrorView>(error@) == planned(
                *action,
            ),
    {
        match action.kind {
            ActionKind::Open => ActionController::command_open(action),
            ActionKind::Enter => ActionController::command_enter(action),
            ActionKind::Click => ActionController::command_click(action),
            ActionKind::VerifyText => ActionController::command_verify_text(action),
            ActionKind::DoubleClick => Ok(Step::Skip),
            ActionKind::Unknown => Err(
                EngineError::UnsupportedOperation(String::from_str("action kind")),
            ),
        }
    }

    fn command_open(action: &Action) -> (step: Result<Step, EngineError>)
        requires
            action.kind == ActionKind::Open,
        ensures
            step is Ok <==> planned(*action) is Ok,
            step matches Ok(planned_step) ==> Ok::<StepView, EngineErrorView>(planned_step@)
                == planned(*action),
            step matches Err(error) ==> Err::<StepView, EngineErrorView>(error@) == planned(
                *action,
            ),
    {
        match &action.data_value {
            None => Err(EngineError::Forbidden),
            Some(url) => Ok(Step::Drive(DriverCommand::Open { url: url.clone() })),
        }
    }

    fn command_enter(action: &Action) -> (step: Result<Step, EngineError>)
        requires
            action.kind == ActionKind::Enter,
        ensures
            step is Ok <==> planned(*action) is Ok,
            step matches Ok(planned_step) ==> Ok::<StepView, EngineErrorView>(planned_step@)
                == planned(*action),
            step matches Err(error) ==> Err::<StepView, EngineErrorView>(error@) == planned(
                *action,
            ),
    {
        let data_value = match &action.data_value {
            None => { return Err(missing_parameter("action.data_value", action.id)); },
            Some(text) => text.clone(),
        };
        let target_value = match &action.target_value {
            None => { return Err(missing_parameter("action.target_value", action.id)); },
            Some(text) => text.clone(),
        };
        let target_kind = match action.target_kind {
            None => { return Err(missing_parameter("action.target_kind", action.id)); },
            Some(kind) => kind,
        };
        Ok(
            Step::Drive(
                DriverCommand::SendKeys {
                    locator: Locator { kind: target_kind, value: target_value },
                    text: data_value,
                },
            ),
        )
    }

    fn command_click(action: &Action) -> (step: Result<Step, EngineError>)
        requires
            action.kind == ActionKind::Click,
        ensures
            step is Ok <==> planned(*action) is Ok,
            step matches Ok(planned_step) ==> Ok::<StepView, EngineErrorView>(planned_step@)
                == planned(*action),
            step matches Err(error) ==> Err::<StepView, EngineErrorView>(error@) == planned(
                *action,
            ),
    {
        let target_value = match &action.data_value {
            None => { return Err(missing_parameter("action.target_value", action.id)); },
            Some(text) => text.clone(),
        };
        let target_kind = match action.target_kind {
            None => { return Err(missing_parameter("action.target_kind", action.id)); },
            Some(kind) => kind,
        };
        Ok(
            Step::Drive(
                DriverCommand::Click { locator: Locator { kind: target_kind, value: target_value } },
            ),
        )
    }

    fn command_verify_text(action: &Action) -> (step: Result<Step, EngineError>)
        requires
            action.kind == ActionKind::VerifyText,
        ensures
            step is Ok <==> planned(*action) is Ok,
            step matches Ok(planned_step) ==> Ok::<StepView, EngineErrorView>(planned_step@)
                == planned(*action),
            step matches Err(error) ==> Err::<StepView, EngineErrorView>(error@) == planned(
                *action,
            ),
    {
        let data_value = match &action.data_value {
            None => { return Err(missing_parameter("action.data_value", action.id)); },
            Some(text) => text.clone(),
        };
        let target_value = match &action.target_value {
            None => { return Err(missing_parameter("action.target_value", action.id)); },
            Some(text) => text.clone(),
        };
        let target_kind = match action.target_kind {
            None => { return Err(missing_parameter("action.target_kind", action.id)); },
            Some(kind) => kind,
        };
        Ok(
            Step::Drive(
                DriverCommand::ReadText {
                    locator: Locator { kind: target_kind, value: target_value },
                    expected: data_value,
                },
            ),
        )
    }

    /// Judges the browser's reply to a command.
    pub fn verify(command: &DriverCommand, reply: DriverReply) -> (outcome: Result<
        (),
        EngineError,
    >)
        ensures
            outcome_view(outcome) == judged(command@, reply@),
    {
        match reply {
            DriverReply::Failed(cause) => Err(EngineError::WebdriverError(cause)),
            DriverReply::Text(text) => match command {
                DriverCommand::ReadText { locator: _, expected } => {
                    if text == *expected {
                        Ok(())
                    } else {
                        Err(
                            EngineError::MissingParameter(
                                String::from_str("action.data_value"),
                                expected.clone(),
                            ),
                        )
                    }
                },
                _ => Ok(()),
            },
            DriverReply::Done => match command {
                DriverCommand::ReadText { locator: _, expected: _ } => Err(
                    EngineError::WebdriverError(String::from_str("no text was read")),
                ),
                _ => Ok(()),
            },
        }
    }

    /// Takes the next action of the group. Once a step has failed, the
    /// action is not executed: nothing is to be done and nothing changes.
    /// Before that, the action is planned: the command for the browser
    /// comes back, or nothing where the action needs none or cannot be
    /// planned, in which case the failure ends the group.
    pub fn execute(&mut self, action: &Action) -> (command: Option<DriverCommand>)
        ensures
            final(self)@.group == old(self)@.group,
            final(self)@.cursor == old(self)@.cursor,
            old(self)@.halted() ==> command is None && final(self)@ == old(self)@,
            !old(self)@.halted() ==> match planned(*action) {
                Ok(StepView::Drive(wanted)) => final(self)@ == old(self)@ && (
                command matches Some(given) && given@ == wanted),
                Ok(StepView::Skip) => command is None && final(self)@ == old(self)@,
                Err(reason) => command is None && (final(self)@.failure matches Some(error)
                    && error@ == reason),
            },
    {
        if self.failure.is_some() {
            return None;
        }
        match ActionController::step_executor(action) {
            Ok(Step::Drive(command)) => Some(command),
            Ok(Step::Skip) => None,
            Err(error) => {
                self.failure = Some(error);
                None
            },
        }
    }

    /// Takes the browser's reply to the command of the last action. A reply
    /// that fails the step ends the group. Once a step has failed, nothing
    /// changes.
    pub fn settle(&mut self, command: &DriverCommand, reply: DriverReply)
        ensures
            final(self)@.group == old(self)@.group,
            final(self)@.cursor == old(self)@.cursor,
            old(self)@.halted() ==> final(self)@ == old(self)@,
            !old(self)@.halted() ==> outcome_view(final(self)@.result()) == judged(
                command@,
                reply@,
            ),
    {
        if self.failure.is_some() {
            return ;
        }
        match ActionController::verify(command, reply) {
            Ok(_) => {},
            Err(error) => {
                self.failure = Some(error);
            },
        }
    }

    /// What the group reports to its caller: the failure of the step that
    /// ended it, or success.
    pub fn finish(&self) -> (result: Result<(), EngineError>)
        ensures
            result == self@.result(),
    {
        match &self.failure {
            Some(error) => Err(error.duplicate()),
            None => Ok(()),
        }
    }
}

} // verus!
