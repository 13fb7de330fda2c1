//! Failures as messages with an optional underlying cause.

use vstd::prelude::*;

use crate::text::{concat3, copy_opt, opt_text};

verus! {

/// What a failure says.
pub struct FailureView {
    pub message: Seq<char>,
    pub cause: Option<Seq<char>>,
}

/// A failure: what went wrong, and the error below it where there is one.
#[derive(Debug)]
pub struct Failure {
    pub message: String,
    pub cause: Option<String>,
}

impl View for Failure {
    type V = FailureView;

    open spec fn view(&self) -> FailureView {
        FailureView { message: self.message@, cause: opt_text(self.cause) }
    }
}

/// A failure without a cause.
pub open spec fn plain(message: Seq<char>) -> FailureView {
    FailureView { message, cause: None }
}

/// A failure that adds a message to an underlying error.
pub open spec fn caused(message: Seq<char>, cause: Seq<char>) -> FailureView {
    FailureView { message, cause: Some(cause) }
}

/// The failure that a result reports.
pub open spec fn told<T>(r: Result<T, Failure>) -> Option<FailureView> {
    match r {
        Ok(_) => None,
        Err(e) => Some(e@),
    }
}

/// The first of two failures in the order in which they are looked for.
pub open spec fn first(a: Option<FailureView>, b: Option<FailureView>) -> Option<FailureView> {
    match a {
        Some(f) => Some(f),
        None => b,
    }
}

/// A failure on one line: the message, then the cause behind a colon.
pub open spec fn full_text(f: FailureView) -> Seq<char> {
    match f.cause {
        Some(cause) => f.message + ": "@ + cause,
        None => f.message,
    }
}

impl Failure {
    /// A failure without a cause.
    pub fn new(message: String) -> (r: Failure)
        ensures
            r@ == plain(message@),
    {
        Failure { message, cause: None }
    }

    /// A failure that adds a message to an underlying error.
    pub fn caused_by(message: String, cause: &str) -> (r: Failure)
        ensures
            r@ == caused(message@, cause@),
    {
        Failure { message, cause: Some(cause.to_owned()) }
    }

    /// The failure on one line.
    pub fn full_text(&self) -> (r: String)
        ensures
            r@ == full_text(self@),
    {
        match &self.cause {
            Some(cause) => concat3(&self.message, ": ", cause),
            None => self.message.clone(),
        }
    }
}

impl Clone for Failure {
    fn clone(&self) -> (r: Self)
        ensures
            r@ == self@,
    {
        Failure { message: self.message.clone(), cause: copy_opt(&self.cause) }
    }
}

} // verus!
