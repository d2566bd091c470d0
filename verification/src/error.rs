//! Error values the library hands to its callers.
//!
//! The carrier can reject a request at several distinct layers, and callers
//! must be able to tell them apart: a transport or decoding failure, a
//! carrier-side rejection carrying the wire error list, a successful call
//! that returned no records, and a local resolution failure raised before
//! any request is built.

use crate::json::JsonValue;
use vstd::prelude::*;

verus! {

/// A failure of one carrier call or of the lookups around it.
#[derive(Debug, PartialEq, Eq)]
pub enum NovaError {
    /// The response could not be obtained or did not decode: a network or
    /// HTTP failure, or a payload whose shape the expected record refuses.
    Transport { details: String },
    /// The carrier answered with `success=false`; `errors` holds the wire
    /// error list verbatim.
    CarrierRejection { errors: Vec<JsonValue> },
    /// The carrier answered with `success=true` and an empty `data` list
    /// where one record was expected; `errors` holds the wire error list.
    EmptyResult { errors: Vec<JsonValue> },
    /// A named lookup failed, or a required input was missing, before any
    /// request went out.
    Resolution { details: String },
}

impl NovaError {
    /// A transport-layer failure with the given text.
    pub fn transport(details: &str) -> (e: NovaError)
        ensures
            e matches NovaError::Transport { details: d } && d@ == details@,
    {
        NovaError::Transport { details: details.to_owned() }
    }
}

/// A request-level error as the earliest callers saw it: one message string.
#[derive(Clone, Debug)]
pub struct NovaRequestError {
    details: String,
}

impl NovaRequestError {
    pub closed spec fn spec_details(&self) -> Seq<char> {
        self.details@
    }

    pub fn new(msg: String) -> (e: NovaRequestError)
        ensures
            e.spec_details() == msg@,
    {
        NovaRequestError { details: msg }
    }

    /// The message the error was made with.
    pub fn message(&self) -> (r: &str)
        ensures
            r@ == self.spec_details(),
    {
        self.details.as_str()
    }
}

} // verus!
