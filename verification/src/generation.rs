//! The request sent to the generation service and what is made of its
//! reply.

use crate::error::{api_error, api_failure, AiInterfaceError, Failure};
use crate::extract::outcome_view;
use crate::interface::AiInterface;
use vstd::prelude::*;
use vstd::string::*;

verus! {

/// Who speaks in a message.
#[derive(Clone, Copy, Debug, PartialEq, Eq, Structural)]
pub enum Role {
    User,
    Model,
}

/// One message of a conversation.
#[derive(Debug, PartialEq, Eq)]
pub struct Message {
    pub role: Role,
    pub text: String,
}

/// A request for generated text: the model asked and the conversation so
/// far.
#[derive(Debug, PartialEq, Eq)]
pub struct GenerationRequest {
    pub model: String,
    pub messages: Vec<Message>,
}

/// One part of the content of a candidate: text, or anything else.
#[derive(Debug, PartialEq, Eq)]
pub enum Part {
    Text(String),
    Other,
}

/// One candidate reply, with the parts of its content where it has any.
#[derive(Debug, PartialEq, Eq)]
pub struct Candidate {
    pub parts: Option<Vec<Part>>,
}

/// The reply of the generation service: its candidates in order.
#[derive(Debug, PartialEq, Eq)]
pub struct GenerationResponse {
    pub candidates: Vec<Candidate>,
}

/// How a call of the generation service ended.
#[derive(Debug, PartialEq, Eq)]
pub enum GenerationOutcome {
    /// The service replied.
    Replied { response: GenerationResponse },
    /// Building or executing the request failed; `description` renders the
    /// nested failure.
    Failed { description: String },
}

/// The model that every request asks.
pub const MODEL: &'static str = "gemini-2.5-flash-lite";

/// What stands for a reply that holds no text.
pub const NO_TEXT: &'static str = "The model returned no text.";

/// A `GenerationRequest` as a mathematical value: the model and, for each
/// message, its role and its text.
pub struct RequestView {
    pub model: Seq<char>,
    pub messages: Seq<(Role, Seq<char>)>,
}

impl View for GenerationRequest {
    type V = RequestView;

    open spec fn view(&self) -> RequestView {
        RequestView {
            model: self.model@,
            messages: self.messages@.map_values(|m: Message| (m.role, m.text@)),
        }
    }
}

/// The request for a prompt: the fixed model, and the prompt as the single
/// message, spoken by the user.
pub open spec fn request_for(prompt: Seq<char>) -> RequestView {
    RequestView { model: MODEL@, messages: seq![(Role::User, prompt)] }
}

/// The text of the first part of the first candidate, where there is one
/// and it is text.
pub open spec fn first_text(response: GenerationResponse) -> Option<Seq<char>> {
    if response.candidates@.len() == 0 {
        None
    } else {
        match response.candidates@[0].parts {
            Some(parts) => if parts@.len() == 0 {
                None
            } else {
                match parts@[0] {
                    Part::Text(text) => Some(text@),
                    Part::Other => None,
                }
            },
            None => None,
        }
    }
}

/// The text of a reply: its first text, or the sentinel.
pub open spec fn reply_text(response: GenerationResponse) -> Seq<char> {
    match first_text(response) {
        Some(text) => text,
        None => NO_TEXT@,
    }
}

/// What a call of the generation service comes to.
pub open spec fn generation_result(outcome: GenerationOutcome) -> Result<Seq<char>, Failure> {
    match outcome {
        GenerationOutcome::Replied { response } => Ok(reply_text(response)),
        GenerationOutcome::Failed { description } => Err(api_failure(description@)),
    }
}

impl AiInterface {
    /// Builds the request for a prompt: the fixed model, and the prompt as
    /// a single message of the user.
    pub fn generation_request(&self, prompt: String) -> (request: GenerationRequest)
        ensures
            request@ == request_for(prompt@),
    {
        let mut messages: Vec<Message> = Vec::new();
        messages.push(Message { role: Role::User, text: prompt });
        let request = GenerationRequest {
            model: String::from_str(MODEL),
            messages,
        };
        assert(request@.messages =~= seq![(Role::User, prompt@)]);
        request
    }

    /// Makes the result of a call of the generation service.
    ///
    /// A failed call is an `Api` error that holds the description of the
    /// failure. A reply gives the text of the first part of its first
    /// candidate; where there is no candidate, no part, or a part that is
    /// no text, it gives the sentinel, which is no error.
    pub fn generate_text(&self, outcome: GenerationOutcome) -> (result: Result<
        String,
        AiInterfaceError,
    >)
        ensures
            outcome_view(result) == generation_result(outcome),
            outcome is Replied <==> result is Ok,
            outcome matches GenerationOutcome::Replied { response } ==> (
            response.candidates@.len() == 0 ==> outcome_view(result) == Ok::<Seq<char>, Failure>(
                NO_TEXT@,
            )),
    {
        match outcome {
            GenerationOutcome::Failed { description } => Err(api_error(description)),
            GenerationOutcome::Replied { response } => {
                if response.candidates.len() > 0 {
                    if let Some(parts) = &response.candidates[0].parts {
                        if parts.len() > 0 {
                            if let Part::Text(text) = &parts[0] {
                                return Ok(text.clone());
                            }
                        }
                    }
                }
                Ok(String::from_str(NO_TEXT))
            },
        }
    }
}

} // verus!
