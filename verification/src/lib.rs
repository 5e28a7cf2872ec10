//! A bounded counting sequence adapted for a host runtime's iteration
//! protocols: a shared counter that yields the values `1` through `5`, one
//! per step, and signals exhaustion on every step after that.
//!
//! The counting logic itself is plain state-machine code and is verified
//! here; the host-runtime glue (foreign-function registration, futures,
//! task submission) lives outside the library and only calls into it.

pub mod bridge;
pub mod counting;
