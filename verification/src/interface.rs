//! The interface and its credentials.

use crate::error::{AiInterfaceError, ErrorKind, Failure};
use vstd::prelude::*;
use vstd::string::*;

verus! {

/// The interface to the pages and to the generation service. It holds the
/// API key, which is read once when the interface is made and never
/// changes.
pub struct AiInterface {
    api_key: String,
}

/// What is said where the environment holds no API key.
pub const MISSING_KEY: &'static str =
    "GEMINI_API_KEY not found. Check your .env file or environment.";

/// The failure of an interface made without an API key.
pub open spec fn missing_key() -> Failure {
    Failure { kind: ErrorKind::Environment, message: MISSING_KEY@ }
}

/// Whether the environment holds a usable API key: one that is set and not
/// empty.
pub open spec fn key_present(api_key: Option<String>) -> bool {
    api_key matches Some(key) && key@.len() > 0
}

impl View for AiInterface {
    type V = Seq<char>;

    /// The API key.
    closed spec fn view(&self) -> Seq<char> {
        self.api_key@
    }
}

impl AiInterface {
    /// An interface never holds an empty key.
    #[verifier::type_invariant]
    spec fn holds_key(self) -> bool {
        self.api_key@.len() > 0
    }

    /// Makes the interface from the API key as the environment holds it:
    /// `None` where the variable is not set. A missing or empty key is an
    /// `Environment` error; any other key is kept as it is.
    pub fn new(api_key: Option<String>) -> (made: Result<AiInterface, AiInterfaceError>)
        ensures
            key_present(api_key) ==> made is Ok && made->Ok_0@ == api_key->Some_0@,
            !key_present(api_key) ==> made is Err && made->Err_0@ == missing_key(),
    {
        match api_key {
            Some(key) => {
                if !key.as_str().is_empty() {
                    return Ok(AiInterface { api_key: key });
                }
            },
            None => {},
        }
        Err(AiInterfaceError::Environment(String::from_str(MISSING_KEY)))
    }

    /// The API key that the interface was made with.
    pub fn api_key(&self) -> (key: &str)
        ensures
            key@ == self@,
            key@.len() > 0,
    {
        proof {
            use_type_invariant(self);
        }
        self.api_key.as_str()
    }
}

} // verus!
