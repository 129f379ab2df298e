//! Hashes as the gateway names them.
use crate::text::{be_value, hex, to_hex};
use vstd::prelude::*;

verus! {

/// A 32-byte value, most significant byte first.
#[derive(Clone, Copy, Debug, PartialEq, Eq, Hash)]
pub struct Felt(pub [u8; 32]);

impl Felt {
    /// The number that the bytes hold.
    pub open spec fn value(&self) -> nat {
        be_value(self.0@)
    }

    /// The value whose bytes are `bytes`, most significant byte first.
    pub fn from_be_bytes(bytes: [u8; 32]) -> (felt: Felt)
        ensures
            felt.0 == bytes,
    {
        Felt(bytes)
    }

    /// The value in hexadecimal after `0x`, in lower case and without leading
    /// zeros; zero is `0x0`.
    pub fn to_hex_str(&self) -> (s: String)
        ensures
            s@ == hex(self.value()),
    {
        to_hex(self.0.as_slice())
    }
}

/// The hash of a block.
#[derive(Clone, Copy, Debug, PartialEq, Eq, Hash)]
pub struct BlockHash(pub Felt);

/// The hash of a class.
#[derive(Clone, Copy, Debug, PartialEq, Eq, Hash)]
pub struct ClassHash(pub Felt);

/// The hash of a transaction.
#[derive(Clone, Copy, Debug, PartialEq, Eq, Hash)]
pub struct TransactionHash(pub Felt);

} // verus!
