//! Plain chain data: hashes, headers, pointers to blocks and the chain snapshot.

use vstd::prelude::*;

verus! {

/// Ordinal position of a block in the chain.
pub type BlockNumber = u32;

/// Content hash of a block: 32 bytes.
#[derive(Clone, Copy, Debug, PartialEq, Eq, Hash)]
pub struct BlockHash {
    pub bytes: [u8; 32],
}

impl BlockHash {
    /// Whether every byte of the hash is zero.
    pub open spec fn is_zero(self) -> bool {
        forall|i: int| 0 <= i < 32 ==> self.bytes[i] == 0u8
    }

    /// Wraps 32 bytes.
    pub fn from_bytes(bytes: [u8; 32]) -> (hash: BlockHash)
        ensures
            hash.bytes == bytes,
    {
        BlockHash { bytes }
    }

    /// The hash made of 32 zero bytes, used where the remote knows no hash.
    pub fn zero() -> (hash: BlockHash)
        ensures
            hash.is_zero(),
    {
        BlockHash { bytes: [0u8; 32] }
    }

    /// There is one zero hash.
    pub proof fn lemma_zero_unique(a: BlockHash, b: BlockHash)
        requires
            a.is_zero(),
            b.is_zero(),
        ensures
            a == b,
    {
        assert(a.bytes =~= b.bytes);
    }
}

/// A block header as the remote reports it, together with its own hash.
#[derive(Clone, Copy, Debug, PartialEq, Eq)]
pub struct Header {
    pub hash: BlockHash,
    pub parent_hash: BlockHash,
    pub number: BlockNumber,
    pub state_root: BlockHash,
    pub extrinsics_root: BlockHash,
}

/// A pointer to a block: by content hash or by ordinal number.
#[derive(Clone, Copy, Debug, PartialEq, Eq)]
pub enum BlockId {
    Hash(BlockHash),
    Number(BlockNumber),
}

/// Snapshot of the chain as seen through the remote.
#[derive(Clone, Copy, Debug, PartialEq, Eq)]
pub struct ChainInfo {
    pub best_hash: BlockHash,
    pub best_number: BlockNumber,
    pub genesis_hash: BlockHash,
    pub finalized_hash: BlockHash,
    pub finalized_number: BlockNumber,
}

/// What is known of a block.
#[derive(Clone, Copy, Debug, PartialEq, Eq)]
pub enum BlockStatus {
    Queued,
    InChainWithState,
    InChainPruned,
    KnownBad,
    Unknown,
}

} // verus!
