//! A native launcher library: locates a companion interpreted-language
//! application on disk through an ordered, tiered search, infers an install
//! root for the child process, and describes the delegated invocation whose
//! exit status the launcher propagates.

pub mod pathname;
pub mod search;
pub mod probe;
pub mod infer;
pub mod launch;
pub mod messages;
