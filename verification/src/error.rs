//! Error and status types shared by every decode layer.

use vstd::prelude::*;

verus! {

/// CIP completion status of one reply: a general status byte plus an
/// optional extended status word. A zero general status means success and
/// gates trust in the reply's data.
#[derive(Debug, Clone, Copy, PartialEq, Eq, Structural)]
pub struct Status {
    pub general: u8,
    pub extended: Option<u16>,
}

impl Status {
    /// Success means a zero general status.
    pub open spec fn spec_is_ok(&self) -> bool {
        self.general == 0
    }

    pub fn is_ok(&self) -> (r: bool)
        ensures
            r == self.spec_is_ok(),
    {
        self.general == 0
    }
}

/// Failure of an encode or decode step.
///
/// `InvalidData` marks a malformed or truncated buffer, or outbound data that
/// breaks a wire bound; `UnexpectedReply` a reply whose command code does not
/// match the request that was sent; `ResponseStatus` a reply whose remote
/// completion status was not OK.
#[derive(Debug, Clone, Copy, PartialEq, Eq, Structural)]
pub enum Error {
    InvalidData,
    UnexpectedReply,
    ResponseStatus(Status),
}

} // verus!
