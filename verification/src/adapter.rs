//! The blockchain view over the remote node.
//!
//! Each operation of the backend contract splits in two. Before the call the
//! adapter decides whether it can answer at all and which request to send
//! ([`plan`]); after it, what the reply means ([`header_reply`] and its
//! siblings). Only blocks given by hash can be looked up, and only their
//! headers: everything else is refused with a typed error before any request
//! is made.

use vstd::prelude::*;
use crate::error::{BackendOperation, ChainError, ClientError, Operation, Refusal};
use crate::primitives::{BlockHash, BlockId, BlockNumber, BlockStatus, Header};
use crate::remote::RemoteCall;

verus! {

/// What the remote answers to a request for a header.
pub type HeaderReply = Result<Option<Header>, ChainError>;

/// What the remote answers to a request for a hash.
pub type HashReply = Result<BlockHash, ChainError>;

impl BackendOperation {
    /// Whether the adapter answers the operation, given a hash.
    pub open spec fn is_offered(self) -> bool {
        self is Header || self is Number || self is BlockStatus
    }

    /// Whether the adapter answers the operation, given a hash.
    pub fn offered(&self) -> (offered: bool)
        ensures
            offered == self.is_offered(),
    {
        match self {
            BackendOperation::Header | BackendOperation::Number | BackendOperation::BlockStatus => {
                true
            },
            _ => false,
        }
    }
}

/// The error for an operation that the adapter refuses.
pub open spec fn refused(operation: BackendOperation, refusal: Refusal) -> ClientError {
    ClientError::Unsupported { operation: Operation::Backend(operation), refusal }
}

/// The request that `operation` at block `at` needs, or the reason why the
/// adapter refuses it.
pub open spec fn planned(operation: BackendOperation, at: BlockId) -> Result<
    RemoteCall,
    ClientError,
> {
    if !operation.is_offered() {
        Err(refused(operation, Refusal::NotImplemented))
    } else {
        match at {
            BlockId::Hash(hash) => Ok(RemoteCall::ChainGetHeader(Some(hash))),
            BlockId::Number(_) => Err(refused(operation, Refusal::HashRequired)),
        }
    }
}

/// Decides, before anything is sent, what `operation` at block `at` needs.
///
/// The three operations that the adapter offers (header, number and block
/// status) need the header with the given hash. An operation that it does
/// not offer is refused as not implemented, and an offered one that names
/// the block by number as needing a hash.
pub fn plan(operation: BackendOperation, at: BlockId) -> (result: Result<RemoteCall, ClientError>)
    ensures
        result == planned(operation, at),
{
    if !operation.offered() {
        return Err(
            ClientError::Unsupported {
                operation: Operation::Backend(operation),
                refusal: Refusal::NotImplemented,
            },
        );
    }
    match at {
        BlockId::Hash(hash) => Ok(RemoteCall::ChainGetHeader(Some(hash))),
        BlockId::Number(_) => Err(
            ClientError::Unsupported {
                operation: Operation::Backend(operation),
                refusal: Refusal::HashRequired,
            },
        ),
    }
}

/// A block given by number, and any operation on bodies, proofs, status or
/// header metadata, is answered with the unsupported-operation error: never
/// with a request to the remote, a transport error or a default value.
pub proof fn lemma_unsupported_is_refused(operation: BackendOperation, at: BlockId)
    requires
        at is Number || !operation.is_offered(),
    ensures
        planned(operation, at) is Err,
        planned(operation, at)->Err_0 is Unsupported,
{
}

/// A request is made exactly for an offered operation on a block given by
/// hash, and it asks for the header with that hash.
pub proof fn lemma_planned_call(operation: BackendOperation, at: BlockId)
    ensures
        planned(operation, at) is Ok <==> operation.is_offered() && at is Hash,
        planned(operation, at) is Ok ==> planned(operation, at)->Ok_0 == RemoteCall::ChainGetHeader(
            Some(at->Hash_0),
        ),
        planned(operation, at) is Err ==> planned(operation, at)->Err_0 is Unsupported,
{
}

/// The request for a header by an optional hash; `None` asks for the header
/// of the current best block.
pub fn chain_get_header_call(hash: Option<BlockHash>) -> (call: RemoteCall)
    ensures
        call == RemoteCall::ChainGetHeader(hash),
{
    RemoteCall::ChainGetHeader(hash)
}

/// What `header` returns for a reply of the remote.
pub open spec fn header_answer(reply: HeaderReply) -> Result<Option<Header>, ClientError> {
    match reply {
        Ok(header) => Ok(header),
        Err(error) => Err(ClientError::of_transport(error)),
    }
}

/// What `number` returns for a reply of the remote.
pub open spec fn number_answer(reply: HeaderReply) -> Result<Option<BlockNumber>, ClientError> {
    match reply {
        Ok(Some(header)) => Ok(Some(header.number)),
        Ok(None) => Ok(None),
        Err(error) => Err(ClientError::of_transport(error)),
    }
}

/// What `block_status` returns for a reply of the remote.
pub open spec fn block_status_answer(reply: HeaderReply) -> Result<BlockStatus, ClientError> {
    match reply {
        Ok(Some(_)) => Ok(BlockStatus::InChainWithState),
        Ok(None) => Ok(BlockStatus::Unknown),
        Err(error) => Err(ClientError::of_transport(error)),
    }
}

/// The result of a header lookup: the remote's header or its absence as
/// they are, and a failed call as a transport error with its message.
pub fn header_reply(reply: HeaderReply) -> (result: Result<Option<Header>, ClientError>)
    ensures
        result == header_answer(reply),
{
    match reply {
        Ok(header) => Ok(header),
        Err(error) => Err(ClientError::from_transport(error)),
    }
}

/// The result of a number lookup: the number in the header that the remote
/// has for the hash.
pub fn number_reply(reply: HeaderReply) -> (result: Result<Option<BlockNumber>, ClientError>)
    ensures
        result == number_answer(reply),
{
    match reply {
        Ok(Some(header)) => Ok(Some(header.number)),
        Ok(None) => Ok(None),
        Err(error) => Err(ClientError::from_transport(error)),
    }
}

/// The status of a block: in the chain with its state when the remote has
/// any header for the hash, unknown otherwise. A block that the remote has
/// pruned is not told apart from one that it never saw.
pub fn block_status_reply(reply: HeaderReply) -> (result: Result<BlockStatus, ClientError>)
    ensures
        result == block_status_answer(reply),
{
    match reply {
        Ok(Some(_)) => Ok(BlockStatus::InChainWithState),
        Ok(None) => Ok(BlockStatus::Unknown),
        Err(error) => Err(ClientError::from_transport(error)),
    }
}

/// Whether consumers must download the whole chain before they use this
/// view. They never do.
pub fn requires_full_sync() -> (required: bool)
    ensures
        !required,
{
    false
}

/// For one hash, `header` and `number` send the same request, and on one
/// reply `number` gives the number of the header that `header` gives: both
/// find a block or neither, and both fail or neither, with the same error.
pub proof fn lemma_number_is_number_of_header(hash: BlockHash, reply: HeaderReply)
    ensures
        planned(BackendOperation::Number, BlockId::Hash(hash)) == planned(
            BackendOperation::Header,
            BlockId::Hash(hash),
        ),
        match header_answer(reply) {
            Ok(Some(header)) => number_answer(reply) == Ok::<Option<BlockNumber>, ClientError>(
                Some(header.number),
            ),
            Ok(None) => number_answer(reply) == Ok::<Option<BlockNumber>, ClientError>(None),
            Err(error) => number_answer(reply) == Err::<Option<BlockNumber>, ClientError>(error),
        },
{
}

/// A block has a status other than unknown exactly when a header lookup
/// for it finds a header.
pub proof fn lemma_status_follows_header(reply: HeaderReply)
    ensures
        block_status_answer(reply) == Ok::<BlockStatus, ClientError>(BlockStatus::InChainWithState)
            <==> header_answer(reply) is Ok && header_answer(reply)->Ok_0 is Some,
        block_status_answer(reply) == Ok::<BlockStatus, ClientError>(BlockStatus::Unknown)
            <==> header_answer(reply) == Ok::<Option<Header>, ClientError>(None),
        block_status_answer(reply) is Err <==> header_answer(reply) is Err,
{
}

} // verus!
