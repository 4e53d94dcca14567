//! What can be asked of the remote node.
//!
//! A [`RemoteCall`] is a request as data: the adapter decides on it, the
//! embedding program sends it and hands the reply back.

use vstd::prelude::*;
use crate::error::RuntimeQuery;
use crate::primitives::BlockHash;

verus! {

/// A request to the remote node.
#[derive(Clone, Copy, Debug, PartialEq, Eq)]
pub enum RemoteCall {
    /// The header with the given hash, or the header of the current best
    /// block for `None`.
    ChainGetHeader(Option<BlockHash>),
    /// The hash of the block at the given height, or of the current head for
    /// `None`.
    ChainGetHead(Option<u64>),
    /// The hash of the latest finalized block.
    ChainGetFinalizedHead,
    /// A runtime query evaluated at the block with the given hash.
    RuntimeApi { query: RuntimeQuery, at: BlockHash },
    /// The runtime version at the block with the given hash.
    RuntimeVersion(BlockHash),
    /// The discovery identifiers of the authorities at the block with the
    /// given hash.
    AuthorityDiscoveryAuthorities(BlockHash),
}

/// A push subscription of the remote node.
#[derive(Clone, Copy, Debug, PartialEq, Eq, Structural)]
pub enum Subscription {
    /// Headers of new best blocks.
    BestHeads,
    /// Headers of newly finalized blocks.
    FinalizedHeads,
}

/// A notification stream that consumers of the adapter can ask for.
#[derive(Clone, Copy, Debug, PartialEq, Eq, Structural)]
pub enum StreamKind {
    Best,
    Finality,
    Import,
}

impl StreamKind {
    /// The subscription that feeds a stream.
    pub open spec fn source(self) -> Subscription {
        match self {
            StreamKind::Finality => Subscription::FinalizedHeads,
            StreamKind::Best | StreamKind::Import => Subscription::BestHeads,
        }
    }

    /// The subscription that feeds a stream. A node that imports no blocks
    /// of its own sees a block as imported when it becomes the best one, so
    /// the import stream is fed like the best-block stream.
    pub fn subscription(&self) -> (subscription: Subscription)
        ensures
            subscription == self.source(),
            *self is Import ==> subscription == StreamKind::Best.source(),
    {
        match self {
            StreamKind::Finality => Subscription::FinalizedHeads,
            StreamKind::Best => Subscription::BestHeads,
            StreamKind::Import => Subscription::BestHeads,
        }
    }
}

} // verus!
