use relay_chain_minimal_node::error::{
    ChainError, ClientError, Operation, Refusal, RuntimeQuery,
};
use relay_chain_minimal_node::primitives::{BlockHash, BlockId};
use relay_chain_minimal_node::remote::RemoteCall;
use relay_chain_minimal_node::runtime_api::{authorities_call, evaluate, runtime_reply};

fn hash(tag: u8) -> BlockHash {
    BlockHash::from_bytes([tag; 32])
}

const OFFERED: [RuntimeQuery; 16] = [
    RuntimeQuery::Validators,
    RuntimeQuery::ValidatorGroups,
    RuntimeQuery::AvailabilityCores,
    RuntimeQuery::PersistedValidationData,
    RuntimeQuery::AssumedValidationData,
    RuntimeQuery::CheckValidationOutputs,
    RuntimeQuery::SessionIndexForChild,
    RuntimeQuery::ValidationCode,
    RuntimeQuery::CandidatePendingAvailability,
    RuntimeQuery::CandidateEvents,
    RuntimeQuery::DmqContents,
    RuntimeQuery::InboundHrmpChannelsContents,
    RuntimeQuery::ValidationCodeByHash,
    RuntimeQuery::SessionInfo,
    RuntimeQuery::ValidationCodeHash,
    RuntimeQuery::StagingGetDisputes,
];

const UNOFFERED: [RuntimeQuery; 11] = [
    RuntimeQuery::OnChainVotes,
    RuntimeQuery::SessionInfoBeforeVersion2,
    RuntimeQuery::SubmitPvfCheckStatement,
    RuntimeQuery::PvfsRequirePrecheck,
    RuntimeQuery::Configuration,
    RuntimeQuery::CurrentEpochStart,
    RuntimeQuery::CurrentEpoch,
    RuntimeQuery::NextEpoch,
    RuntimeQuery::GenerateKeyOwnershipProof,
    RuntimeQuery::SubmitReportEquivocationUnsignedExtrinsic,
    RuntimeQuery::Authorities,
];

#[test]
fn offered_queries_are_evaluated_at_the_hash() {
    for query in OFFERED {
        assert!(query.offered());
        assert_eq!(
            evaluate(query, Some(BlockId::Hash(hash(5)))),
            Ok(RemoteCall::RuntimeApi { query, at: hash(5) })
        );
    }
}

#[test]
fn api_version_asks_for_the_runtime_version() {
    assert!(RuntimeQuery::ApiVersionParachainHost.offered());
    assert_eq!(
        evaluate(RuntimeQuery::ApiVersionParachainHost, Some(BlockId::Hash(hash(5)))),
        Ok(RemoteCall::RuntimeVersion(hash(5)))
    );
}

#[test]
fn queries_at_a_number_need_a_hash() {
    for query in OFFERED.iter().chain([RuntimeQuery::ApiVersionParachainHost].iter()) {
        let refused = evaluate(*query, Some(BlockId::Number(12))).unwrap_err();
        assert_eq!(
            refused,
            ClientError::Unsupported {
                operation: Operation::Runtime(*query),
                refusal: Refusal::HashRequired,
            }
        );
        assert_eq!(refused.message(), "Only hash is supported for RPC methods");
    }
}

#[test]
fn queries_at_the_current_block_need_a_hash() {
    for query in OFFERED.iter().chain([RuntimeQuery::ApiVersionParachainHost].iter()) {
        assert_eq!(
            evaluate(*query, None),
            Err(ClientError::Unsupported {
                operation: Operation::Runtime(*query),
                refusal: Refusal::HashRequired,
            })
        );
    }
}

#[test]
fn unoffered_queries_are_not_implemented() {
    for query in UNOFFERED {
        assert!(!query.offered());
        for at in [Some(BlockId::Hash(hash(5))), Some(BlockId::Number(5)), None] {
            assert_eq!(
                evaluate(query, at),
                Err(ClientError::Unsupported {
                    operation: Operation::Runtime(query),
                    refusal: Refusal::NotImplemented,
                })
            );
        }
    }
}

#[test]
fn authority_discovery_is_asked_by_hash() {
    assert_eq!(authorities_call(hash(9)), RemoteCall::AuthorityDiscoveryAuthorities(hash(9)));
}

#[test]
fn runtime_reply_hands_the_answer_on() {
    assert_eq!(runtime_reply(Ok(vec![1u32, 2, 3])), Ok(vec![1u32, 2, 3]));
    assert_eq!(runtime_reply(Ok(Some(true))), Ok(Some(true)));
    assert_eq!(runtime_reply::<Option<u32>>(Ok(None)), Ok(None));
}

#[test]
fn runtime_reply_keeps_the_message_of_a_failed_call() {
    let failed: Result<u32, ChainError> =
        Err(ChainError { message: "RPC call failed".to_string() });
    let error = runtime_reply(failed).unwrap_err();
    assert_eq!(error, ClientError::Transport("RPC call failed".to_string()));
    assert!(!error.is_unsupported());
    assert_eq!(error.message(), "RPC call failed");
}
