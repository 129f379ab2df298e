//! The stages of a request under construction.
use crate::builder::RequestState;
use crate::metrics::RequestMetadata;
use vstd::prelude::*;

verus! {

/// Provides the entry point, [`Request::builder`](super::Request::builder).
pub struct Init;

/// The gateway's method is to be selected next, by the function of its name.
pub struct Method;

/// Parameters are added, and then the retry behaviour is set.
pub struct Params {
    pub meta: RequestMetadata,
}

/// The operation is to be chosen: `get`, `get_as_bytes` or `post_with_json`.
pub struct Final {
    pub meta: RequestMetadata,
    pub retry: bool,
}

impl RequestState for Init {

}

impl RequestState for Method {

}

impl RequestState for Params {

}

impl RequestState for Final {

}

} // verus!
