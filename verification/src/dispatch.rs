//! The request dispatcher boundary.
//!
//! Given a decoded request, the dispatcher decides the response body to be
//! written back on the same stream; the I/O layer frames it.  Dispatcher
//! errors are connection-level failures — the lifecycle machine takes them
//! as an `IoFailed` event — never pool or listener faults.

use vstd::prelude::*;

verus! {

/// The body the dispatcher answers every request with until backend
/// forwarding is plugged in.
pub fn default_response_body() -> (r: String)
    ensures
        r@ == "Hello from the proxy server!"@,
{
    String::from_str("Hello from the proxy server!")
}

} // verus!
