//! Decisions of a client that starts a container-app job and watches its
//! execution: the job status codec, the error envelope and how responses are
//! classified, the bearer-token cache, the request targets and the poll loop.
pub mod client;
pub mod error;
pub mod job;
pub mod poll;
pub mod response;
pub mod status;

use vstd::prelude::*;

verus! {

} // verus!
