//! Queries about validators, sessions and parachain inclusion.
//!
//! Every query is evaluated at a block, and the remote takes that block by
//! hash only: not by number, and not as "the current block". The check is
//! made here, before anything is sent; a query that passes it becomes one
//! request, and the reply is handed on as it is.

use vstd::prelude::*;
use crate::error::{ChainError, ClientError, Operation, Refusal, RuntimeQuery};
use crate::primitives::{BlockHash, BlockId};
use crate::remote::RemoteCall;

verus! {

impl RuntimeQuery {
    /// Whether the adapter passes the query on to the remote.
    pub open spec fn is_offered(self) -> bool {
        match self {
            RuntimeQuery::OnChainVotes
            | RuntimeQuery::SessionInfoBeforeVersion2
            | RuntimeQuery::SubmitPvfCheckStatement
            | RuntimeQuery::PvfsRequirePrecheck
            | RuntimeQuery::Configuration
            | RuntimeQuery::CurrentEpochStart
            | RuntimeQuery::CurrentEpoch
            | RuntimeQuery::NextEpoch
            | RuntimeQuery::GenerateKeyOwnershipProof
            | RuntimeQuery::SubmitReportEquivocationUnsignedExtrinsic
            | RuntimeQuery::Authorities => false,
            _ => true,
        }
    }

    /// The request that asks the query of the remote at the block `at`.
    pub open spec fn request(self, at: BlockHash) -> RemoteCall {
        if self is ApiVersionParachainHost {
            RemoteCall::RuntimeVersion(at)
        } else {
            RemoteCall::RuntimeApi { query: self, at }
        }
    }

    /// Whether the adapter passes the query on to the remote.
    pub fn offered(&self) -> (offered: bool)
        ensures
            offered == self.is_offered(),
    {
        match self {
            RuntimeQuery::OnChainVotes
            | RuntimeQuery::SessionInfoBeforeVersion2
            | RuntimeQuery::SubmitPvfCheckStatement
            | RuntimeQuery::PvfsRequirePrecheck
            | RuntimeQuery::Configuration
            | RuntimeQuery::CurrentEpochStart
            | RuntimeQuery::CurrentEpoch
            | RuntimeQuery::NextEpoch
            | RuntimeQuery::GenerateKeyOwnershipProof
            | RuntimeQuery::SubmitReportEquivocationUnsignedExtrinsic
            | RuntimeQuery::Authorities => false,
            _ => true,
        }
    }
}

/// The request that `query` at block `at` needs, or the reason why the
/// adapter refuses it; `None` stands for the current block.
pub open spec fn evaluated(query: RuntimeQuery, at: Option<BlockId>) -> Result<
    RemoteCall,
    ClientError,
> {
    if !query.is_offered() {
        Err(
            ClientError::Unsupported {
                operation: Operation::Runtime(query),
                refusal: Refusal::NotImplemented,
            },
        )
    } else {
        match at {
            Some(BlockId::Hash(hash)) => Ok(query.request(hash)),
            _ => Err(
                ClientError::Unsupported {
                    operation: Operation::Runtime(query),
                    refusal: Refusal::HashRequired,
                },
            ),
        }
    }
}

/// Decides, before anything is sent, what `query` at block `at` needs;
/// `None` stands for the current block.
///
/// An offered query on a block given by hash becomes one request for that
/// hash: the runtime version for the version of the parachain host
/// interface, the query itself otherwise. A block given by number, and the
/// current block, is refused as needing a hash, and a query that is not
/// offered as not implemented.
pub fn evaluate(query: RuntimeQuery, at: Option<BlockId>) -> (result: Result<
    RemoteCall,
    ClientError,
>)
    ensures
        result == evaluated(query, at),
{
    if !query.offered() {
        return Err(
            ClientError::Unsupported {
                operation: Operation::Runtime(query),
                refusal: Refusal::NotImplemented,
            },
        );
    }
    match at {
        Some(BlockId::Hash(hash)) => match query {
            RuntimeQuery::ApiVersionParachainHost => Ok(RemoteCall::RuntimeVersion(hash)),
            _ => Ok(RemoteCall::RuntimeApi { query, at: hash }),
        },
        _ => Err(
            ClientError::Unsupported {
                operation: Operation::Runtime(query),
                refusal: Refusal::HashRequired,
            },
        ),
    }
}

/// The request for the discovery identifiers of the authorities at a block,
/// which is always given by hash.
pub fn authorities_call(at: BlockHash) -> (call: RemoteCall)
    ensures
        call == RemoteCall::AuthorityDiscoveryAuthorities(at),
{
    RemoteCall::AuthorityDiscoveryAuthorities(at)
}

/// What a query returns for a reply of the remote.
pub open spec fn answered<T>(reply: Result<T, ChainError>) -> Result<T, ClientError> {
    match reply {
        Ok(value) => Ok(value),
        Err(error) => Err(ClientError::of_transport(error)),
    }
}

/// The result of a query: the remote's answer as it is, or the failed call
/// as a transport error with its message. Nothing is retried.
pub fn runtime_reply<T>(reply: Result<T, ChainError>) -> (result: Result<T, ClientError>)
    ensures
        result == answered(reply),
{
    match reply {
        Ok(value) => Ok(value),
        Err(error) => Err(ClientError::from_transport(error)),
    }
}

/// A query on a block that is not given by hash, and a query that is not
/// offered, is answered with the unsupported-operation error and leads to
/// no request.
pub proof fn lemma_unsupported_query_is_refused(query: RuntimeQuery, at: Option<BlockId>)
    requires
        !(at is Some && at->Some_0 is Hash) || !query.is_offered(),
    ensures
        evaluated(query, at) is Err,
        evaluated(query, at)->Err_0 is Unsupported,
{
}

/// A request is made exactly for an offered query on a block given by hash,
/// and it is evaluated at that very hash. An error without a request is
/// never a transport error.
pub proof fn lemma_query_evaluated_at_hash(query: RuntimeQuery, at: Option<BlockId>)
    ensures
        evaluated(query, at) is Ok <==> query.is_offered() && at is Some && at->Some_0 is Hash,
        evaluated(query, at) is Ok ==> evaluated(query, at)->Ok_0 == query.request(
            at->Some_0->Hash_0,
        ),
        evaluated(query, at) is Err ==> evaluated(query, at)->Err_0 is Unsupported,
{
}

/// A transport error comes from a failed call alone, and an answer from a
/// call that succeeded.
pub proof fn lemma_reply_errors_are_transport<T>(reply: Result<T, ChainError>)
    ensures
        answered(reply) is Err <==> reply is Err,
        answered(reply) is Err ==> answered(reply)->Err_0 is Transport,
{
}

} // verus!
