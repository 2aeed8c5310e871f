//! The error type bot operations report.
use vstd::prelude::*;

use crate::text::{push_str, to_owned};

verus! {

broadcast use vstd::string::group_string_axioms;

/// `serde_json::Error`, carried opaquely inside [`BotError::Serialization`].
#[verifier::external_type_specification]
#[verifier::external_body]
pub struct ExJsonError(serde_json::Error);

/// Main error type for bot operations
///
/// A clean shutdown is not an error: running a bot until its shutdown signal
/// fires ends with `Ok(())`.
#[derive(Debug)]
pub enum BotError {
    Connection(String),
    Auth(String),
    Api(String),
    Serialization(serde_json::Error),
    Other(String),
}

impl BotError {
    /// The user-facing text of this error.
    pub fn message(&self) -> (r: String)
        ensures
            match self {
                BotError::Connection(s) => r@ == "connection failed: "@ + s@,
                BotError::Auth(s) => r@ == "authentication failed: "@ + s@,
                BotError::Api(s) => r@ == "API request failed: "@ + s@,
                BotError::Serialization(e) => exists|t: String|
                    vstd::string::to_string_from_display_ensures(e, t) && r@
                        == "serialization error: "@ + t@,
                BotError::Other(s) => r@ == s@,
            },
    {
        match self {
            BotError::Connection(s) => {
                let mut r = to_owned("connection failed: ");
                push_str(&mut r, s.as_str());
                r
            },
            BotError::Auth(s) => {
                let mut r = to_owned("authentication failed: ");
                push_str(&mut r, s.as_str());
                r
            },
            BotError::Api(s) => {
                let mut r = to_owned("API request failed: ");
                push_str(&mut r, s.as_str());
                r
            },
            BotError::Serialization(e) => {
                let t = e.to_string();
                let mut r = to_owned("serialization error: ");
                push_str(&mut r, t.as_str());
                r
            },
            BotError::Other(s) => to_owned(s.as_str()),
        }
    }
}

} // verus!
