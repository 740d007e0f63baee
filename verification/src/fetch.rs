//! The decisions of a page fetch: from what the HTTP layer reports to what
//! is done next.

use crate::error::{AiInterfaceError, ErrorKind, Failure};
use crate::extract::{extract_text, outcome_view, page_text};
use crate::interface::AiInterface;
use crate::text::{is_trimmed, trimmed};
use vstd::prelude::*;
use vstd::string::*;

verus! {

/// What the HTTP layer reports while a page is fetched.
#[derive(Debug, PartialEq, Eq)]
pub enum FetchEvent {
    /// The request could not be sent, or no response came.
    SendFailed { detail: String },
    /// A response came, with this status code; `detail` describes the
    /// status for a message.
    Responded { status: u16, detail: String },
    /// The body of the response could not be read as text.
    BodyFailed { detail: String },
    /// The body of the response, read to its end.
    BodyRead { body: String },
}

/// What follows an event of a page fetch.
#[derive(Debug, PartialEq, Eq)]
pub enum FetchStep {
    /// The response is accepted: its body is to be read.
    ReadBody,
    /// The fetch is over, with the text of the page or with a failure.
    Done(Result<String, AiInterfaceError>),
}

/// A `FetchStep` as a mathematical value.
pub enum FetchStepView {
    ReadBody,
    Done(Result<Seq<char>, Failure>),
}

impl View for FetchStep {
    type V = FetchStepView;

    open spec fn view(&self) -> FetchStepView {
        match self {
            FetchStep::ReadBody => FetchStepView::ReadBody,
            FetchStep::Done(outcome) => FetchStepView::Done(outcome_view(*outcome)),
        }
    }
}

/// What is said where a request could not be sent.
pub const SEND_FAILED: &'static str = "Failed to connect or send request: ";

/// What is said of a status outside the success class.
pub const STATUS_REJECTED: &'static str = "HTTP error status: ";

/// What is said where a body could not be read.
pub const BODY_FAILED: &'static str = "Failed to read response body: ";

/// Whether a status code is of the success class.
pub open spec fn is_success(status: u16) -> bool {
    200 <= status < 300
}

/// A failure of the HTTP layer: what went wrong, then the detail reported.
pub open spec fn request_failure(what: Seq<char>, detail: Seq<char>) -> Failure {
    Failure { kind: ErrorKind::Request, message: what + detail }
}

/// Whether an event ends the fetch with a failure of the HTTP layer.
pub open spec fn is_fetch_failure(event: FetchEvent) -> bool {
    match event {
        FetchEvent::SendFailed { .. } => true,
        FetchEvent::Responded { status, .. } => !is_success(status),
        FetchEvent::BodyFailed { .. } => true,
        FetchEvent::BodyRead { .. } => false,
    }
}

/// What follows each event of a page fetch.
pub open spec fn fetch_step(event: FetchEvent) -> FetchStepView {
    match event {
        FetchEvent::SendFailed { detail } => FetchStepView::Done(
            Err(request_failure(SEND_FAILED@, detail@)),
        ),
        FetchEvent::Responded { status, detail } => if is_success(status) {
            FetchStepView::ReadBody
        } else {
            FetchStepView::Done(Err(request_failure(STATUS_REJECTED@, detail@)))
        },
        FetchEvent::BodyFailed { detail } => FetchStepView::Done(
            Err(request_failure(BODY_FAILED@, detail@)),
        ),
        FetchEvent::BodyRead { body } => FetchStepView::Done(page_text(body@)),
    }
}

/// Tests a status code for the success class.
pub fn status_is_success(status: u16) -> (success: bool)
    ensures
        success == is_success(status),
{
    200 <= status && status < 300
}

/// Makes the `Request` error whose message is `what` followed by `detail`.
fn request_error(what: &str, detail: &str) -> (error: AiInterfaceError)
    ensures
        error@ == request_failure(what@, detail@),
{
    let mut message = String::from_str(what);
    message.append(detail);
    AiInterfaceError::Request(message)
}

impl AiInterface {
    /// Decides what follows an event of a page fetch.
    ///
    /// A request that could not be sent, a status outside the success
    /// class and a body that could not be read each end the fetch with a
    /// `Request` error; after a status outside the success class the body
    /// is not asked for. A status of the success class asks for the body.
    /// A body ends the fetch with the text of the page: what lies below
    /// the `body` element of the markup, trimmed; or with a `General`
    /// error where the text cannot be had from the body.
    pub fn scrape_website(&self, event: FetchEvent) -> (step: FetchStep)
        ensures
            step@ == fetch_step(event),
            is_fetch_failure(event) ==> (step matches FetchStep::Done(Err(error)) && error@.kind
                == ErrorKind::Request),
            step matches FetchStep::Done(Ok(text)) ==> is_trimmed(text@) && trimmed(text@)
                == text@,
    {
        match event {
            FetchEvent::SendFailed { detail } => FetchStep::Done(
                Err(request_error(SEND_FAILED, detail.as_str())),
            ),
            FetchEvent::Responded { status, detail } => {
                if status_is_success(status) {
                    FetchStep::ReadBody
                } else {
                    FetchStep::Done(Err(request_error(STATUS_REJECTED, detail.as_str())))
                }
            },
            FetchEvent::BodyFailed { detail } => FetchStep::Done(
                Err(request_error(BODY_FAILED, detail.as_str())),
            ),
            FetchEvent::BodyRead { body } => FetchStep::Done(extract_text(body.as_str())),
        }
    }
}

} // verus!
