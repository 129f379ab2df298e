//! What the metrics recorder is told about a request.
use vstd::prelude::*;

verus! {

/// The symbolic block a request was made for, if any.
#[derive(Clone, Copy, Debug, PartialEq, Eq, Structural)]
pub enum BlockTag {
    NoTag,
    Latest,
    Pending,
}

impl BlockTag {
    /// The label under which requests for this tag are counted: `None` has none.
    pub fn as_str(self) -> (label: Option<&'static str>)
        ensures
            self == BlockTag::NoTag <==> label is None,
            self == BlockTag::Latest ==> label == Some("latest"),
            self == BlockTag::Pending ==> label == Some("pending"),
    {
        match self {
            BlockTag::NoTag => None,
            BlockTag::Latest => Some("latest"),
            BlockTag::Pending => Some("pending"),
        }
    }
}

/// The method called and the block tag asked for, as reported with each attempt.
#[derive(Clone, Copy, Debug)]
pub struct RequestMetadata {
    pub method: &'static str,
    pub tag: BlockTag,
}

impl RequestMetadata {
    pub open spec fn spec_new(method: &'static str) -> Self {
        RequestMetadata { method, tag: BlockTag::NoTag }
    }

    /// Metadata of a request for `method` that names no symbolic block yet.
    #[verifier::when_used_as_spec(spec_new)]
    pub fn new(method: &'static str) -> (meta: Self)
        ensures
            meta == Self::spec_new(method),
    {
        Self { method, tag: BlockTag::NoTag }
    }
}

} // verus!
