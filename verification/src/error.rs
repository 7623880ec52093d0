//! Errors that the board service reports to its clients.

use vstd::prelude::*;

verus! {

/// What a lookup failed to find.
#[derive(Clone, Copy, Debug, PartialEq, Eq, Structural)]
pub enum Missing {
    Board,
    Post,
    ParentPost,
    ThreadRoot,
}

impl Missing {
    /// The message that the service answers with.
    pub fn message(&self) -> (text: &'static str)
        ensures
            *self == Missing::Board ==> text@ == "board not found"@,
            *self == Missing::Post ==> text@ == "post not found"@,
            *self == Missing::ParentPost ==> text@ == "parent post not found"@,
            *self == Missing::ThreadRoot ==> text@ == "thread root post not found"@,
    {
        match self {
            Missing::Board => "board not found",
            Missing::Post => "post not found",
            Missing::ParentPost => "parent post not found",
            Missing::ThreadRoot => "thread root post not found",
        }
    }
}

/// An error answered to a client.
#[derive(Clone, Copy, Debug, PartialEq, Eq, Structural)]
pub enum AppError {
    /// A row that the request names does not exist (HTTP 404).
    NotFound(Missing),
}

} // verus!
