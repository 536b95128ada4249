//! The administrative interface's data model: the request and response
//! values of the front end, and the computations behind them. The HTTP
//! plumbing that carries them stands outside the library.

use vstd::prelude::*;

pub mod monitor_route;
pub mod new_route;
pub mod op_value;
pub mod response;
pub mod route;

verus! {

/// A named payload of the front end.
pub struct MyObj {
    pub name: String,
}

} // verus!
