//! Why the daemon could not start.

use vstd::prelude::*;
use vstd::string::*;

use crate::text;

verus! {

/// A reason not to start, and what lies behind it where something else reported it.
#[derive(Debug)]
pub struct BootError {
    pub message: String,
    pub cause: Option<String>,
}

/// What a [`BootError`] stands for.
pub struct BootErrorModel {
    pub message: Seq<char>,
    pub cause: Option<Seq<char>>,
}

impl View for BootError {
    type V = BootErrorModel;

    open spec fn view(&self) -> BootErrorModel {
        BootErrorModel { message: self.message@, cause: text::opt(self.cause) }
    }
}

/// A reason that nothing lies behind.
pub open spec fn plain(message: Seq<char>) -> BootErrorModel {
    BootErrorModel { message, cause: None }
}

/// A reason with what lies behind it.
pub open spec fn caused(message: Seq<char>, cause: Seq<char>) -> BootErrorModel {
    BootErrorModel { message, cause: Some(cause) }
}

/// The reason followed by what lies behind it.
pub open spec fn chain(e: BootErrorModel) -> Seq<char> {
    match e.cause {
        Some(cause) => e.message + ": "@ + cause,
        None => e.message,
    }
}

impl BootError {
    /// A reason that nothing lies behind.
    pub fn new(message: String) -> (r: Self)
        ensures
            r@ == plain(message@),
    {
        BootError { message, cause: None }
    }

    /// The reason followed by what lies behind it.
    pub fn full_text(&self) -> (r: String)
        ensures
            r@ == chain(self@),
    {
        let mut out = self.message.clone();
        match &self.cause {
            Some(cause) => {
                out.append(": ");
                out.append(cause.as_str());
            },
            None => {},
        }
        out
    }
}

} // verus!
