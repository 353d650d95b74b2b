//! The decision core of the `srvcs-distance3d` orchestrator: which dependency
//! is asked what, in which order, and how each of their answers is turned into
//! the next request or into the reply the caller receives.

pub mod identity;
pub mod reply;
pub mod plan;
pub mod run;
pub mod request;
pub mod apidoc;
