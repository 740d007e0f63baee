//! Grounded question answering over a fixed set of web pages.
//!
//! The crate holds the decisions of the pipeline: which page is fetched
//! next, when a fetch has failed, how the text of a page is obtained from
//! its markup, how the prompt is composed and what is made of the reply.
//! Network calls are left to the caller, which performs each [`Action`]
//! and reports what came of it as an [`Event`].

pub mod error;
pub mod extract;
pub mod fetch;
pub mod generation;
pub mod interface;
pub mod orchestrator;
pub mod prompt;
pub mod text;

pub use crate::error::{AiInterfaceError, ErrorKind};
pub use crate::fetch::{FetchEvent, FetchStep};
pub use crate::generation::{GenerationOutcome, GenerationRequest, GenerationResponse};
pub use crate::interface::AiInterface;
pub use crate::orchestrator::{Action, Event, Run, Stage};
