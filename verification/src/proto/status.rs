//! Status codes.
//!
//! Codes below 128 mean "continue the session"; the others mean "terminate".

use vstd::prelude::*;
use vstd::std_specs::convert::FromSpecImpl;

verus! {

#[derive(Clone, Copy, Debug, PartialEq, Eq, Structural, Hash)]
pub struct StatusCode(pub u8);

impl StatusCode {
    // Codes after which the session goes on.
    pub const SUCCESS: u8 = 0;

    pub const NOT_INTERESTED: u8 = 1;

    pub const REQUEST_DENIED: u8 = 2;

    pub const INCONSISTENT_DATA: u8 = 3;

    // Codes that end the session.
    pub const UNKNOWN_MESSAGE: u8 = 128;

    pub const UNEXPECTED_MESSAGE: u8 = 129;

    pub const INVALID_DATA: u8 = 130;

    pub const INVALID_DESTINATION: u8 = 131;

    pub const TIMED_OUT: u8 = 132;

    pub const SHUTTING_DOWN: u8 = 255;

    /// Whether this code ends the session.
    pub fn terminates_session(self) -> (r: bool)
        ensures
            r == (self.0 >= 128),
    {
        self.0 >= 128
    }
}

impl From<u8> for StatusCode {
    fn from(v: u8) -> (r: Self) {
        StatusCode(v)
    }
}

impl FromSpecImpl<u8> for StatusCode {
    open spec fn obeys_from_spec() -> bool {
        true
    }

    open spec fn from_spec(v: u8) -> Self {
        StatusCode(v)
    }
}

} // verus!
