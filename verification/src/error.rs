//! The errors of the adapter, and the operations they can name.

use vstd::prelude::*;
use crate::primitives::BlockHash;

verus! {

/// An operation of the blockchain backend contract that is addressed at a
/// block.
#[derive(Clone, Copy, Debug, PartialEq, Eq, Structural)]
pub enum BackendOperation {
    Header,
    Number,
    Status,
    Hash,
    ReadProof,
    ReadChildProof,
    ExecutionProof,
    ReadProofCollection,
    StorageCollection,
    VerifyRangeProof,
    BlockBody,
    BlockIndexedBody,
    Block,
    BlockStatus,
    Justifications,
    BlockHash,
    IndexedTransaction,
    HeaderMetadata,
    InsertHeaderMetadata,
    RemoveHeaderMetadata,
}

/// A query about validators, sessions or parachain inclusion, evaluated at a
/// block.
#[derive(Clone, Copy, Debug, PartialEq, Eq, Structural)]
pub enum RuntimeQuery {
    Validators,
    ValidatorGroups,
    AvailabilityCores,
    PersistedValidationData,
    AssumedValidationData,
    CheckValidationOutputs,
    SessionIndexForChild,
    ValidationCode,
    CandidatePendingAvailability,
    CandidateEvents,
    DmqContents,
    InboundHrmpChannelsContents,
    ValidationCodeByHash,
    OnChainVotes,
    SessionInfo,
    SessionInfoBeforeVersion2,
    SubmitPvfCheckStatement,
    PvfsRequirePrecheck,
    ValidationCodeHash,
    Configuration,
    CurrentEpochStart,
    CurrentEpoch,
    NextEpoch,
    GenerateKeyOwnershipProof,
    SubmitReportEquivocationUnsignedExtrinsic,
    Authorities,
    ApiVersionParachainHost,
    StagingGetDisputes,
}

/// Any operation that can be asked of the adapter at a block.
#[derive(Clone, Copy, Debug, PartialEq, Eq, Structural)]
pub enum Operation {
    Backend(BackendOperation),
    Runtime(RuntimeQuery),
}

/// Why the adapter cannot answer, whatever the remote would say.
#[derive(Clone, Copy, Debug, PartialEq, Eq, Structural)]
pub enum Refusal {
    /// The block was not given by hash, and the remote is asked by hash
    /// only.
    HashRequired,
    /// A client that is backed by a remote node does not offer the
    /// operation at all.
    NotImplemented,
}

/// What the remote transport reported when a call failed.
#[derive(Clone, Debug, PartialEq, Eq)]
pub struct ChainError {
    pub message: String,
}

/// An error of the adapter.
#[derive(Clone, Debug, PartialEq, Eq)]
pub enum ClientError {
    /// The remote call failed; the transport's message is kept.
    Transport(String),
    /// The adapter cannot answer this by its construction. No remote call
    /// was made.
    Unsupported { operation: Operation, refusal: Refusal },
    /// The remote knows no header where the chain must have one: its best
    /// block (`None`) or the finalized head it has just named.
    MissingHeader(Option<BlockHash>),
}

impl ClientError {
    /// The error that stands for a failed remote call.
    pub open spec fn of_transport(error: ChainError) -> ClientError {
        ClientError::Transport(error.message)
    }

    /// The text shown to a user for this error.
    pub open spec fn message_text(self) -> Seq<char> {
        match self {
            ClientError::Transport(message) => message@,
            ClientError::Unsupported { refusal: Refusal::HashRequired, .. } => {
                "Only hash is supported for RPC methods"@
            },
            ClientError::Unsupported { refusal: Refusal::NotImplemented, .. } => {
                "Operation not implemented for remote-backed client"@
            },
            ClientError::MissingHeader(_) => "Header not found on the remote"@,
        }
    }

    /// Whether the error says that the adapter cannot answer by its
    /// construction.
    pub fn is_unsupported(&self) -> (unsupported: bool)
        ensures
            unsupported == (*self is Unsupported),
    {
        match self {
            ClientError::Unsupported { .. } => true,
            _ => false,
        }
    }

    /// Turns a failure of the remote transport into the adapter's error,
    /// keeping the message.
    pub fn from_transport(error: ChainError) -> (result: ClientError)
        ensures
            result == Self::of_transport(error),
    {
        ClientError::Transport(error.message)
    }

    /// The text shown to a user for this error.
    pub fn message(&self) -> (text: String)
        ensures
            text@ == self.message_text(),
    {
        match self {
            ClientError::Transport(message) => message.clone(),
            ClientError::Unsupported { refusal, .. } => match refusal {
                Refusal::HashRequired => "Only hash is supported for RPC methods".to_owned(),
                Refusal::NotImplemented => {
                    "Operation not implemented for remote-backed client".to_owned()
                },
            },
            ClientError::MissingHeader(_) => "Header not found on the remote".to_owned(),
        }
    }
}

} // verus!
