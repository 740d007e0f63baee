//! The failure kinds shared by every component.

use vstd::prelude::*;
use vstd::string::*;

verus! {

/// The four failure domains.
#[derive(Clone, Copy, Debug, PartialEq, Eq, Structural)]
pub enum ErrorKind {
    Environment,
    Api,
    Request,
    General,
}

/// A failure as a mathematical value: its kind and the characters of its
/// message.
pub struct Failure {
    pub kind: ErrorKind,
    pub message: Seq<char>,
}

/// A failure of configuration, of the generation service, of a page fetch,
/// or of the extraction pipeline, each with a readable message.
#[derive(Debug, PartialEq, Eq)]
pub enum AiInterfaceError {
    /// Configuration or secret loading failed before any network activity.
    Environment(String),
    /// The generation service failed; holds the description of the nested
    /// failure.
    Api(String),
    /// The HTTP layer failed while a page was fetched.
    Request(String),
    /// Any other failure of the extraction pipeline.
    General(String),
}

impl View for AiInterfaceError {
    type V = Failure;

    open spec fn view(&self) -> Failure {
        match self {
            AiInterfaceError::Environment(m) => Failure { kind: ErrorKind::Environment, message: m@ },
            AiInterfaceError::Api(m) => Failure { kind: ErrorKind::Api, message: m@ },
            AiInterfaceError::Request(m) => Failure { kind: ErrorKind::Request, message: m@ },
            AiInterfaceError::General(m) => Failure { kind: ErrorKind::General, message: m@ },
        }
    }
}

/// The label that a rendering starts with.
pub open spec fn label(kind: ErrorKind) -> Seq<char> {
    match kind {
        ErrorKind::Environment => "Environment Error: "@,
        ErrorKind::Api => "Gemini API Error: "@,
        ErrorKind::Request => "Request Error: "@,
        ErrorKind::General => "General Error: "@,
    }
}

/// The rendering of a failure: the label of its kind, then its message.
pub open spec fn rendering(failure: Failure) -> Seq<char> {
    label(failure.kind) + failure.message
}

/// A failure of the generation service, with the description of the
/// nested failure as its message.
pub open spec fn api_failure(description: Seq<char>) -> Failure {
    Failure { kind: ErrorKind::Api, message: description }
}

/// Wraps the description of a failure of the generation service: of
/// building its client, of building a request, or of executing one.
pub fn api_error(description: String) -> (error: AiInterfaceError)
    ensures
        error@ == api_failure(description@),
{
    AiInterfaceError::Api(description)
}

/// The label of a kind.
pub fn kind_label(kind: ErrorKind) -> (text: &'static str)
    ensures
        text@ == label(kind),
{
    match kind {
        ErrorKind::Environment => "Environment Error: ",
        ErrorKind::Api => "Gemini API Error: ",
        ErrorKind::Request => "Request Error: ",
        ErrorKind::General => "General Error: ",
    }
}

impl AiInterfaceError {
    /// The failure domain of this error.
    pub fn kind(&self) -> (kind: ErrorKind)
        ensures
            kind == self@.kind,
    {
        match self {
            AiInterfaceError::Environment(_) => ErrorKind::Environment,
            AiInterfaceError::Api(_) => ErrorKind::Api,
            AiInterfaceError::Request(_) => ErrorKind::Request,
            AiInterfaceError::General(_) => ErrorKind::General,
        }
    }

    /// The message that the error carries, without the label.
    pub fn message(&self) -> (message: &str)
        ensures
            message@ == self@.message,
    {
        match self {
            AiInterfaceError::Environment(m) => m.as_str(),
            AiInterfaceError::Api(m) => m.as_str(),
            AiInterfaceError::Request(m) => m.as_str(),
            AiInterfaceError::General(m) => m.as_str(),
        }
    }

    /// Renders the error as the label of its kind followed by its message.
    pub fn to_string(&self) -> (text: String)
        ensures
            text@ == rendering(self@),
    {
        let mut text = String::from_str(kind_label(self.kind()));
        text.append(self.message());
        text
    }
}

} // verus!
