//! The error that the HTTP boundary answers with.

use vstd::prelude::*;

verus! {

/// Error http response with the status code and a generic message.
#[derive(Debug, Clone, Copy, PartialEq, Eq)]
pub struct Error {
    pub status: u16,
    pub msg: &'static str,
}

impl Error {
    /// Returns a generic error with status code 400 and the given msg
    pub fn new(msg: &'static str) -> (e: Error)
        ensures
            e.status == 400,
            e.msg == msg,
    {
        Error { status: 400, msg }
    }

    /// Returns a generic not found error with status 404
    pub fn not_found() -> (e: Error)
        ensures
            e.status == 404,
            e.msg@ == "Not Found"@,
    {
        Error { status: 404, msg: "Not Found" }
    }

    /// Returns a generic internal server error with status 500
    pub fn internal() -> (e: Error)
        ensures
            e.status == 500,
            e.msg@ == "Internal Server Error"@,
    {
        Error { status: 500, msg: "Internal Server Error" }
    }
}

} // verus!
