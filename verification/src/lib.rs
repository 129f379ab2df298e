//! The core of a client for a Starknet sequencer gateway, and the Poseidon
//! permutation over the Stark field.
//!
//! The client core builds gateway requests through a staged builder
//! ([`builder`]), judges the reply to an attempt ([`response`]), and decides
//! whether and after what pause an attempt is repeated ([`retry`]). It
//! performs no I/O itself: the caller sends each [`builder::Attempt`] and
//! hands the outcome back.
//!
//! The permutation ([`poseidon`]) comes in two forms, which are proved to
//! give the same state.
pub mod block;
pub mod builder;
pub mod error;
pub mod felt;
pub mod field;
pub mod metrics;
pub mod poseidon;
pub mod response;
pub mod retry;
pub mod text;
pub mod url;
