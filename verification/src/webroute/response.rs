//! The structured success/error result every administrative call returns.

use vstd::prelude::*;

verus! {

/// The outcome of an administrative call: status 1 for success, 0 for an
/// error with its message, 2 for a missing session.
#[derive(Debug)]
pub struct ResponseState {
    pub status: u8,
    pub err: String,
}

impl ResponseState {
    pub fn ok() -> (r: ResponseState)
        ensures
            r.status == 1,
            r.err@ == "OK"@,
    {
        ResponseState { status: 1, err: "OK".to_owned() }
    }

    pub fn error(err: String) -> (r: ResponseState)
        ensures
            r.status == 0,
            r.err == err,
    {
        ResponseState { status: 0, err }
    }

    pub fn no_session() -> (r: ResponseState)
        ensures
            r.status == 2,
    {
        ResponseState { status: 2, err: "no session, please login".to_owned() }
    }
}

} // verus!
