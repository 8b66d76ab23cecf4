//! The error taxonomy of the platform.

use vstd::prelude::*;
use vstd::string::StringExecFns;

verus! {

/// Failures of the repositories behind the authoring services.
#[derive(Debug)]
pub enum OrcaRepoError {
    /// An item that was asked for does not exist.
    NotFound(String),
    /// A model of the named kind with the given key does not exist.
    ModelNotFound(String, String),
    /// The credentials of the named user were refused.
    InvalidUsername(String),
}

/// The mathematical content of an [`OrcaRepoError`].
pub enum RepoErrorView {
    NotFound(Seq<char>),
    ModelNotFound(Seq<char>, Seq<char>),
    InvalidUsername(Seq<char>),
}

impl RepoErrorView {
    /// The message shown to a user.
    pub open spec fn message(self) -> Seq<char> {
        match self {
            RepoErrorView::NotFound(item) => "Item Not Found: "@ + item,
            RepoErrorView::ModelNotFound(kind, key) => kind + " Not Found: "@ + key,
            RepoErrorView::InvalidUsername(user) => "Invalid UserName: "@ + user,
        }
    }
}

impl View for OrcaRepoError {
    type V = RepoErrorView;

    open spec fn view(&self) -> RepoErrorView {
        match self {
            OrcaRepoError::NotFound(item) => RepoErrorView::NotFound(item@),
            OrcaRepoError::ModelNotFound(kind, key) => RepoErrorView::ModelNotFound(kind@, key@),
            OrcaRepoError::InvalidUsername(user) => RepoErrorView::InvalidUsername(user@),
        }
    }
}

impl OrcaRepoError {
    /// The message shown to a user.
    pub fn message(&self) -> (text: String)
        ensures
            text@ == self@.message(),
    {
        match self {
            OrcaRepoError::NotFound(item) => {
                String::from_str("Item Not Found: ").concat(item.as_str())
            },
            OrcaRepoError::ModelNotFound(kind, key) => {
                kind.clone().concat(" Not Found: ").concat(key.as_str())
            },
            OrcaRepoError::InvalidUsername(user) => {
                String::from_str("Invalid UserName: ").concat(user.as_str())
            },
        }
    }
}

/// Failures raised while a run executes.
#[derive(Debug)]
pub enum EngineError {
    /// A referenced artifact of the named kind does not exist.
    NotFound(String, String),
    /// A required field is absent: the field's name and the context it was
    /// looked up in.
    MissingParameter(String, String),
    /// The action cannot proceed given the current state.
    Forbidden,
    /// A storage operation failed.
    DatabaseError(String),
    /// The combination of block or action kinds is not implemented.
    UnsupportedOperation(String),
    /// The browser driver reported a failure.
    WebdriverError(String),
}

/// The mathematical content of an [`EngineError`].
pub enum EngineErrorView {
    NotFound(Seq<char>, Seq<char>),
    MissingParameter(Seq<char>, Seq<char>),
    Forbidden,
    DatabaseError(Seq<char>),
    UnsupportedOperation(Seq<char>),
    WebdriverError(Seq<char>),
}

impl EngineErrorView {
    /// The message shown to a user.
    pub open spec fn message(self) -> Seq<char> {
        match self {
            EngineErrorView::NotFound(kind, key) => kind + " Not Found: "@ + key,
            EngineErrorView::MissingParameter(field, context) => "Missing Parameter - "@ + field
                + ": "@ + context,
            EngineErrorView::Forbidden => "You are forbidden to access requested file."@,
            EngineErrorView::DatabaseError(cause) => "Database error: "@ + cause,
            EngineErrorView::UnsupportedOperation(what) => "Unsupported operation: "@ + what,
            EngineErrorView::WebdriverError(cause) => "Webdriver error: "@ + cause,
        }
    }
}

impl View for EngineError {
    type V = EngineErrorView;

    open spec fn view(&self) -> EngineErrorView {
        match self {
            EngineError::NotFound(kind, key) => EngineErrorView::NotFound(kind@, key@),
            EngineError::MissingParameter(field, context) => EngineErrorView::MissingParameter(
                field@,
                context@,
            ),
            EngineError::Forbidden => EngineErrorView::Forbidden,
            EngineError::DatabaseError(cause) => EngineErrorView::DatabaseError(cause@),
            EngineError::UnsupportedOperation(what) => EngineErrorView::UnsupportedOperation(what@),
            EngineError::WebdriverError(cause) => EngineErrorView::WebdriverError(cause@),
        }
    }
}

impl EngineError {
    /// Whether the failure came from storage. Such a failure is never
    /// recovered from: it ends the run whatever the failure policy.
    pub open spec fn is_storage(&self) -> bool {
        self is DatabaseError
    }

    /// Whether the failure came from storage.
    pub fn from_storage(&self) -> (storage: bool)
        ensures
            storage == self.is_storage(),
    {
        match self {
            EngineError::DatabaseError(_) => true,
            _ => false,
        }
    }

    /// A copy of the error.
    pub fn duplicate(&self) -> (copy: EngineError)
        ensures
            copy == *self,
    {
        match self {
            EngineError::NotFound(kind, key) => EngineError::NotFound(kind.clone(), key.clone()),
            EngineError::MissingParameter(field, context) => EngineError::MissingParameter(
                field.clone(),
                context.clone(),
            ),
            EngineError::Forbidden => EngineError::Forbidden,
            EngineError::DatabaseError(cause) => EngineError::DatabaseError(cause.clone()),
            EngineError::UnsupportedOperation(what) => EngineError::UnsupportedOperation(
                what.clone(),
            ),
            EngineError::WebdriverError(cause) => EngineError::WebdriverError(cause.clone()),
        }
    }

    /// The message shown to a user.
    pub fn message(&self) -> (text: String)
        ensures
            text@ == self@.message(),
    {
        match self {
            EngineError::NotFound(kind, key) => {
                kind.clone().concat(" Not Found: ").concat(key.as_str())
            },
            EngineError::MissingParameter(field, context) => {
                String::from_str("Missing Parameter - ").concat(field.as_str()).concat(
                    ": ",
                ).concat(context.as_str())
            },
            EngineError::Forbidden => String::from_str(
                "You are forbidden to access requested file.",
            ),
            EngineError::DatabaseError(cause) => {
                String::from_str("Database error: ").concat(cause.as_str())
            },
            EngineError::UnsupportedOperation(what) => {
                String::from_str("Unsupported operation: ").concat(what.as_str())
            },
            EngineError::WebdriverError(cause) => {
                String::from_str("Webdriver error: ").concat(cause.as_str())
            },
        }
    }
}

/// Failures of the entity layer.
#[derive(Debug)]
pub enum EntityError {
    /// A record could not be converted into its stored form; the text is the
    /// storage layer's account of the failure.
    FailedActiveModelConvert(String),
}

impl EntityError {
    /// The message shown to a user.
    pub fn message(&self) -> (text: String)
        ensures
            self matches EntityError::FailedActiveModelConvert(cause) && text@
                == "Failed to convert Active Model : "@ + cause@,
    {
        match self {
            EntityError::FailedActiveModelConvert(cause) => {
                String::from_str("Failed to convert Active Model : ").concat(cause.as_str())
            },
        }
    }
}

/// The top-level error of the services. Failures that reach the services from
/// storage, from serialisation and from the automation client are carried by
/// their text.
#[derive(Debug)]
pub enum OrcaError {
    /// A storage operation failed.
    DataBaseError(String),
    /// A repository refused the request.
    RepoError(OrcaRepoError),
    /// A value could not be serialised.
    SerializerError(String),
    /// A run failed.
    EngineError(EngineError),
    /// The automation client failed.
    CeriumError(String),
}

/// The mathematical content of an [`OrcaError`].
pub enum OrcaErrorView {
    DataBaseError(Seq<char>),
    RepoError(RepoErrorView),
    SerializerError(Seq<char>),
    EngineError(EngineErrorView),
    CeriumError(Seq<char>),
}

impl OrcaErrorView {
    /// The status code a failed request is answered with: 404 where a
    /// repository refused the request, 500 for everything else.
    pub open spec fn status(self) -> int {
        match self {
            OrcaErrorView::RepoError(_) => 404,
            _ => 500,
        }
    }

    /// The error text a failed request is answered with: the message of the
    /// failure that the error wraps.
    pub open spec fn detail(self) -> Seq<char> {
        match self {
            OrcaErrorView::DataBaseError(cause) => cause,
            OrcaErrorView::RepoError(inner) => inner.message(),
            OrcaErrorView::SerializerError(cause) => cause,
            OrcaErrorView::EngineError(inner) => inner.message(),
            OrcaErrorView::CeriumError(cause) => cause,
        }
    }

    /// The message shown to a user.
    pub open spec fn message(self) -> Seq<char> {
        match self {
            OrcaErrorView::DataBaseError(cause) => "DbErr error: "@ + cause,
            OrcaErrorView::RepoError(inner) => "OrcaRepoError error: "@ + inner.message(),
            OrcaErrorView::SerializerError(cause) => "SerializerError error: "@ + cause,
            OrcaErrorView::EngineError(inner) => "EngineError error: "@ + inner.message(),
            OrcaErrorView::CeriumError(cause) => "CeriumError error: "@ + cause,
        }
    }
}

impl View for OrcaError {
    type V = OrcaErrorView;

    open spec fn view(&self) -> OrcaErrorView {
        match self {
            OrcaError::DataBaseError(cause) => OrcaErrorView::DataBaseError(cause@),
            OrcaError::RepoError(inner) => OrcaErrorView::RepoError(inner@),
            OrcaError::SerializerError(cause) => OrcaErrorView::SerializerError(cause@),
            OrcaError::EngineError(inner) => OrcaErrorView::EngineError(inner@),
            OrcaError::CeriumError(cause) => OrcaErrorView::CeriumError(cause@),
        }
    }
}

impl OrcaError {
    /// The message shown to a user.
    pub fn message(&self) -> (text: String)
        ensures
            text@ == self@.message(),
    {
        match self {
            OrcaError::DataBaseError(cause) => {
                String::from_str("DbErr error: ").concat(cause.as_str())
            },
            OrcaError::RepoError(inner) => {
                let detail = inner.message();
                String::from_str("OrcaRepoError error: ").concat(detail.as_str())
            },
            OrcaError::SerializerError(cause) => {
                String::from_str("SerializerError error: ").concat(cause.as_str())
            },
            OrcaError::EngineError(inner) => {
                let detail = inner.message();
                String::from_str("EngineError error: ").concat(detail.as_str())
            },
            OrcaError::CeriumError(cause) => {
                String::from_str("CeriumError error: ").concat(cause.as_str())
            },
        }
    }

    /// What a failed request is answered with: the status code and the error
    /// text that the response body carries under the key `error`.
    pub fn into_response(self) -> (response: (u16, String))
        ensures
            response.0 == self@.status(),
            response.1@ == self@.detail(),
    {
        match self {
            OrcaError::DataBaseError(cause) => (500, cause),
            OrcaError::RepoError(inner) => (404, inner.message()),
            OrcaError::SerializerError(cause) => (500, cause),
            OrcaError::EngineError(inner) => (500, inner.message()),
            OrcaError::CeriumError(cause) => (500, cause),
        }
    }
}

} // verus!
