//! The chain snapshot, gathered in four round trips.
//!
//! Nothing is cached: every snapshot asks the remote for its best header,
//! the hash of block zero, the finalized head and the header of that head,
//! in this order. Each stage below holds what is known so far; its
//! `on_reply` takes the remote's answer to the pending request and gives the
//! next stage with the next request. Any failure ends the whole snapshot:
//! there is no partial result.

use vstd::prelude::*;
use crate::adapter::{HashReply, HeaderReply};
use crate::error::ClientError;
use crate::primitives::{BlockHash, ChainInfo, Header};
use crate::remote::RemoteCall;

verus! {

/// Waiting for the header of the best block.
#[derive(Clone, Copy, Debug, PartialEq, Eq)]
pub struct AwaitBestHeader {}

/// Waiting for the hash of block zero.
#[derive(Clone, Copy, Debug, PartialEq, Eq)]
pub struct AwaitGenesisHash {
    pub best: Header,
}

/// Waiting for the hash of the finalized head.
#[derive(Clone, Copy, Debug, PartialEq, Eq)]
pub struct AwaitFinalizedHead {
    pub best: Header,
    pub genesis_hash: BlockHash,
}

/// Waiting for the header of the finalized head.
#[derive(Clone, Copy, Debug, PartialEq, Eq)]
pub struct AwaitFinalizedHeader {
    pub best: Header,
    pub genesis_hash: BlockHash,
    pub finalized_hash: BlockHash,
}

/// The four answers of the remote that one snapshot is made of.
pub struct InfoReplies {
    pub best_header: HeaderReply,
    pub genesis_hash: HashReply,
    pub finalized_head: HashReply,
    pub finalized_header: HeaderReply,
}

/// Number of chain tips that a view through a remote node knows of: its
/// best block is the only one.
pub const NUMBER_LEAVES: usize = 1;

/// The header in a reply that must hold one, asked for by `asked`.
pub open spec fn required_header(reply: HeaderReply, asked: Option<BlockHash>) -> Result<
    Header,
    ClientError,
> {
    match reply {
        Ok(Some(header)) => Ok(header),
        Ok(None) => Err(ClientError::MissingHeader(asked)),
        Err(error) => Err(ClientError::of_transport(error)),
    }
}

/// The hash in a reply.
pub open spec fn required_hash(reply: HashReply) -> Result<BlockHash, ClientError> {
    match reply {
        Ok(hash) => Ok(hash),
        Err(error) => Err(ClientError::of_transport(error)),
    }
}

/// The snapshot that four answers of the remote amount to: the first failure
/// among them, in the order of the requests, or else the hash and number of
/// the best header, the genesis hash, the finalized head and the number in
/// its header.
pub open spec fn info_of(replies: InfoReplies) -> Result<ChainInfo, ClientError> {
    match required_header(replies.best_header, None) {
        Err(error) => Err(error),
        Ok(best) => match required_hash(replies.genesis_hash) {
            Err(error) => Err(error),
            Ok(genesis_hash) => match required_hash(replies.finalized_head) {
                Err(error) => Err(error),
                Ok(finalized_hash) => match required_header(
                    replies.finalized_header,
                    Some(finalized_hash),
                ) {
                    Err(error) => Err(error),
                    Ok(finalized) => Ok(
                        ChainInfo {
                            best_hash: best.hash,
                            best_number: best.number,
                            genesis_hash,
                            finalized_hash,
                            finalized_number: finalized.number,
                        },
                    ),
                },
            },
        },
    }
}

/// Starts a snapshot: the first request asks for the header of the best
/// block.
pub fn info_begin() -> (start: (AwaitBestHeader, RemoteCall))
    ensures
        start.1 == RemoteCall::ChainGetHeader(None),
{
    (AwaitBestHeader {  }, RemoteCall::ChainGetHeader(None))
}

impl AwaitBestHeader {
    /// What follows the answer to the request for the best header.
    pub open spec fn next(self, reply: HeaderReply) -> Result<
        (AwaitGenesisHash, RemoteCall),
        ClientError,
    > {
        match required_header(reply, None) {
            Ok(best) => Ok((AwaitGenesisHash { best }, RemoteCall::ChainGetHead(Some(0u64)))),
            Err(error) => Err(error),
        }
    }

    /// Takes the best header and asks for the hash of block zero. A failed
    /// call or a remote without a best header ends the snapshot.
    pub fn on_reply(self, reply: HeaderReply) -> (result: Result<
        (AwaitGenesisHash, RemoteCall),
        ClientError,
    >)
        ensures
            result == self.next(reply),
    {
        match reply {
            Ok(Some(best)) => Ok((AwaitGenesisHash { best }, RemoteCall::ChainGetHead(Some(0)))),
            Ok(None) => Err(ClientError::MissingHeader(None)),
            Err(error) => Err(ClientError::from_transport(error)),
        }
    }
}

impl AwaitGenesisHash {
    /// What follows the answer to the request for the hash of block zero.
    pub open spec fn next(self, reply: HashReply) -> Result<
        (AwaitFinalizedHead, RemoteCall),
        ClientError,
    > {
        match required_hash(reply) {
            Ok(genesis_hash) => Ok(
                (
                    AwaitFinalizedHead { best: self.best, genesis_hash },
                    RemoteCall::ChainGetFinalizedHead,
                ),
            ),
            Err(error) => Err(error),
        }
    }

    /// Takes the genesis hash and asks for the finalized head.
    pub fn on_reply(self, reply: HashReply) -> (result: Result<
        (AwaitFinalizedHead, RemoteCall),
        ClientError,
    >)
        ensures
            result == self.next(reply),
    {
        match reply {
            Ok(genesis_hash) => Ok(
                (
                    AwaitFinalizedHead { best: self.best, genesis_hash },
                    RemoteCall::ChainGetFinalizedHead,
                ),
            ),
            Err(error) => Err(ClientError::from_transport(error)),
        }
    }
}

impl AwaitFinalizedHead {
    /// What follows the answer to the request for the finalized head.
    pub open spec fn next(self, reply: HashReply) -> Result<
        (AwaitFinalizedHeader, RemoteCall),
        ClientError,
    > {
        match required_hash(reply) {
            Ok(finalized_hash) => Ok(
                (
                    AwaitFinalizedHeader {
                        best: self.best,
                        genesis_hash: self.genesis_hash,
                        finalized_hash,
                    },
                    RemoteCall::ChainGetHeader(Some(finalized_hash)),
                ),
            ),
            Err(error) => Err(error),
        }
    }

    /// Takes the finalized head and asks for the header with that hash.
    pub fn on_reply(self, reply: HashReply) -> (result: Result<
        (AwaitFinalizedHeader, RemoteCall),
        ClientError,
    >)
        ensures
            result == self.next(reply),
    {
        match reply {
            Ok(finalized_hash) => Ok(
                (
                    AwaitFinalizedHeader {
                        best: self.best,
                        genesis_hash: self.genesis_hash,
                        finalized_hash,
                    },
                    RemoteCall::ChainGetHeader(Some(finalized_hash)),
                ),
            ),
            Err(error) => Err(ClientError::from_transport(error)),
        }
    }
}

impl AwaitFinalizedHeader {
    /// The snapshot that the answer to the last request completes.
    pub open spec fn next(self, reply: HeaderReply) -> Result<ChainInfo, ClientError> {
        match required_header(reply, Some(self.finalized_hash)) {
            Ok(finalized) => Ok(
                ChainInfo {
                    best_hash: self.best.hash,
                    best_number: self.best.number,
                    genesis_hash: self.genesis_hash,
                    finalized_hash: self.finalized_hash,
                    finalized_number: finalized.number,
                },
            ),
            Err(error) => Err(error),
        }
    }

    /// Takes the header of the finalized head and completes the snapshot.
    /// The finalized hash is the one the remote named, the finalized number
    /// the one in this header.
    pub fn on_reply(self, reply: HeaderReply) -> (result: Result<ChainInfo, ClientError>)
        ensures
            result == self.next(reply),
    {
        match reply {
            Ok(Some(finalized)) => Ok(
                ChainInfo {
                    best_hash: self.best.hash,
                    best_number: self.best.number,
                    genesis_hash: self.genesis_hash,
                    finalized_hash: self.finalized_hash,
                    finalized_number: finalized.number,
                },
            ),
            Ok(None) => Err(ClientError::MissingHeader(Some(self.finalized_hash))),
            Err(error) => Err(ClientError::from_transport(error)),
        }
    }
}

/// Going through the four stages with four answers gives `info_of` of those
/// answers; the requests on the way are the best header, the hash at height
/// zero, the finalized head, and the header of the hash that the remote
/// named as finalized.
pub proof fn lemma_stages_compose(replies: InfoReplies)
    ensures
        match (AwaitBestHeader {  }).next(replies.best_header) {
            Err(error) => info_of(replies) == Err::<ChainInfo, ClientError>(error),
            Ok((second, call2)) => {
                &&& call2 == RemoteCall::ChainGetHead(Some(0u64))
                &&& match second.next(replies.genesis_hash) {
                    Err(error) => info_of(replies) == Err::<ChainInfo, ClientError>(error),
                    Ok((third, call3)) => {
                        &&& call3 == RemoteCall::ChainGetFinalizedHead
                        &&& match third.next(replies.finalized_head) {
                            Err(error) => info_of(replies) == Err::<ChainInfo, ClientError>(error),
                            Ok((fourth, call4)) => {
                                &&& call4 == RemoteCall::ChainGetHeader(
                                    Some(replies.finalized_head->Ok_0),
                                )
                                &&& fourth.next(replies.finalized_header) == info_of(replies)
                            },
                        }
                    },
                }
            },
        },
{
}

/// A snapshot exists exactly when all four calls succeeded and both headers
/// were there.
pub proof fn lemma_info_needs_every_reply(replies: InfoReplies)
    ensures
        info_of(replies) is Ok <==> {
            &&& replies.best_header is Ok
            &&& replies.best_header->Ok_0 is Some
            &&& replies.genesis_hash is Ok
            &&& replies.finalized_head is Ok
            &&& replies.finalized_header is Ok
            &&& replies.finalized_header->Ok_0 is Some
        },
        info_of(replies) is Err ==> !(info_of(replies)->Err_0 is Unsupported),
{
}

/// The snapshot holds what the remote said: as long as the remote's
/// finalized header is not above its best header, the snapshot's finalized
/// number is not above its best number.
pub proof fn lemma_info_finality_behind_best(replies: InfoReplies)
    requires
        info_of(replies) is Ok,
        replies.finalized_header->Ok_0->Some_0.number <= replies.best_header->Ok_0->Some_0.number,
    ensures
        info_of(replies)->Ok_0.finalized_number <= info_of(replies)->Ok_0.best_number,
{
}

/// The genesis hash of a snapshot is the remote's answer for block zero and
/// nothing else: two snapshots of a remote that names the same genesis hash
/// agree on it, whatever else has changed in between.
pub proof fn lemma_info_genesis_stable(first: InfoReplies, second: InfoReplies)
    requires
        info_of(first) is Ok,
        info_of(second) is Ok,
        first.genesis_hash == second.genesis_hash,
    ensures
        info_of(first)->Ok_0.genesis_hash == info_of(second)->Ok_0.genesis_hash,
        info_of(first)->Ok_0.genesis_hash == first.genesis_hash->Ok_0,
{
}

} // verus!
