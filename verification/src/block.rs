//! How a block is referred to, and how the reference is put into a query.
use crate::felt::BlockHash;
use crate::metrics::BlockTag;
use crate::text::{decimal, hex, to_decimal};
use vstd::prelude::*;
use vstd::std_specs::convert::FromSpecImpl;
use vstd::string::StringExecFns;

verus! {

/// The height of a block.
#[derive(Clone, Copy, Debug, PartialEq, Eq, Hash)]
pub struct BlockNumber(pub u64);

impl BlockNumber {
    pub open spec fn spec_get(&self) -> u64 {
        self.0
    }

    /// The block at height `height`.
    pub fn new(height: u64) -> (number: BlockNumber)
        ensures
            number.get() == height,
    {
        BlockNumber(height)
    }

    /// The height.
    #[verifier::when_used_as_spec(spec_get)]
    pub fn get(&self) -> (height: u64)
        ensures
            height == self.spec_get(),
    {
        self.0
    }
}

/// A reference to a block: by height, by hash, or by what it is to the chain
/// right now.
#[derive(Clone, Copy, Debug, PartialEq, Eq, Hash)]
pub enum BlockId {
    Number(BlockNumber),
    Hash(BlockHash),
    Latest,
    Pending,
}

impl From<BlockNumber> for BlockId {
    fn from(number: BlockNumber) -> (id: BlockId) {
        BlockId::Number(number)
    }
}

impl FromSpecImpl<BlockNumber> for BlockId {
    open spec fn obeys_from_spec() -> bool {
        true
    }

    open spec fn from_spec(number: BlockNumber) -> BlockId {
        BlockId::Number(number)
    }
}

impl From<BlockHash> for BlockId {
    fn from(hash: BlockHash) -> (id: BlockId) {
        BlockId::Hash(hash)
    }
}

impl FromSpecImpl<BlockHash> for BlockId {
    open spec fn obeys_from_spec() -> bool {
        true
    }

    open spec fn from_spec(hash: BlockHash) -> BlockId {
        BlockId::Hash(hash)
    }
}

impl BlockId {
    /// The name of the query parameter that carries the reference. The
    /// gateway takes a hash under `blockHash` and everything else, the
    /// symbolic references too, under `blockNumber`.
    pub open spec fn param_name(self) -> Seq<char> {
        match self {
            BlockId::Hash(_) => "blockHash"@,
            _ => "blockNumber"@,
        }
    }

    /// The value of the query parameter: a height in decimal, a hash in
    /// hexadecimal, a symbolic reference by its name.
    pub open spec fn param_value(self) -> Seq<char> {
        match self {
            BlockId::Number(number) => decimal(number.get() as nat),
            BlockId::Hash(hash) => hex(hash.0.value()),
            BlockId::Latest => "latest"@,
            BlockId::Pending => "pending"@,
        }
    }

    /// The tag under which a request for this block is counted.
    pub open spec fn tag(self) -> BlockTag {
        match self {
            BlockId::Latest => BlockTag::Latest,
            BlockId::Pending => BlockTag::Pending,
            _ => BlockTag::NoTag,
        }
    }

    /// The query parameter that carries this reference, as name and value,
    /// and the tag that goes with it.
    pub fn to_param(self) -> (param: (&'static str, String, BlockTag))
        ensures
            param.0@ == self.param_name(),
            param.1@ == self.param_value(),
            param.2 == self.tag(),
    {
        match self {
            BlockId::Number(number) => ("blockNumber", to_decimal(number.get()), BlockTag::NoTag),
            BlockId::Hash(hash) => ("blockHash", hash.0.to_hex_str(), BlockTag::NoTag),
            // These have to use "blockNumber", "blockHash" does not accept tags.
            BlockId::Latest => ("blockNumber", String::from_str("latest"), BlockTag::Latest),
            BlockId::Pending => ("blockNumber", String::from_str("pending"), BlockTag::Pending),
        }
    }
}

} // verus!
