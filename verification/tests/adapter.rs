use relay_chain_minimal_node::adapter::{
    block_status_reply, chain_get_header_call, header_reply, number_reply, plan,
    requires_full_sync,
};
use relay_chain_minimal_node::error::{
    BackendOperation, ChainError, ClientError, Operation, Refusal,
};
use relay_chain_minimal_node::primitives::{BlockHash, BlockId, BlockStatus, Header};
use relay_chain_minimal_node::remote::RemoteCall;

fn hash(tag: u8) -> BlockHash {
    BlockHash::from_bytes([tag; 32])
}

fn header(tag: u8, number: u32) -> Header {
    Header {
        hash: hash(tag),
        parent_hash: hash(tag.wrapping_sub(1)),
        number,
        state_root: hash(0xaa),
        extrinsics_root: hash(0xbb),
    }
}

fn transport(message: &str) -> ChainError {
    ChainError { message: message.to_string() }
}

/// A remote whose answers do not change between calls.
fn stable_remote(call: RemoteCall) -> Result<Option<Header>, ChainError> {
    match call {
        RemoteCall::ChainGetHeader(None) => Ok(Some(header(10, 10))),
        RemoteCall::ChainGetHeader(Some(h)) if h == hash(7) => Ok(Some(header(7, 7))),
        RemoteCall::ChainGetHeader(Some(_)) => Ok(None),
        _ => Err(transport("unexpected call")),
    }
}

const UNOFFERED: [BackendOperation; 17] = [
    BackendOperation::Status,
    BackendOperation::Hash,
    BackendOperation::ReadProof,
    BackendOperation::ReadChildProof,
    BackendOperation::ExecutionProof,
    BackendOperation::ReadProofCollection,
    BackendOperation::StorageCollection,
    BackendOperation::VerifyRangeProof,
    BackendOperation::BlockBody,
    BackendOperation::BlockIndexedBody,
    BackendOperation::Block,
    BackendOperation::Justifications,
    BackendOperation::BlockHash,
    BackendOperation::IndexedTransaction,
    BackendOperation::HeaderMetadata,
    BackendOperation::InsertHeaderMetadata,
    BackendOperation::RemoveHeaderMetadata,
];

const OFFERED: [BackendOperation; 3] =
    [BackendOperation::Header, BackendOperation::Number, BackendOperation::BlockStatus];

#[test]
fn offered_operations_on_a_hash_ask_for_its_header() {
    for operation in OFFERED {
        assert_eq!(
            plan(operation, BlockId::Hash(hash(3))),
            Ok(RemoteCall::ChainGetHeader(Some(hash(3))))
        );
        assert!(operation.offered());
    }
}

#[test]
fn offered_operations_on_a_number_need_a_hash() {
    for operation in OFFERED {
        assert_eq!(
            plan(operation, BlockId::Number(5)),
            Err(ClientError::Unsupported {
                operation: Operation::Backend(operation),
                refusal: Refusal::HashRequired,
            })
        );
    }
}

#[test]
fn unoffered_operations_are_not_implemented_for_any_pointer() {
    for operation in UNOFFERED {
        assert!(!operation.offered());
        for at in [BlockId::Hash(hash(3)), BlockId::Number(3), BlockId::Number(0)] {
            let refused = plan(operation, at);
            assert_eq!(
                refused,
                Err(ClientError::Unsupported {
                    operation: Operation::Backend(operation),
                    refusal: Refusal::NotImplemented,
                })
            );
            assert!(refused.unwrap_err().is_unsupported());
        }
    }
}

#[test]
fn refusals_are_never_transport_errors() {
    for operation in UNOFFERED.iter().chain(OFFERED.iter()) {
        match plan(*operation, BlockId::Number(u32::MAX)) {
            Err(ClientError::Unsupported { .. }) => {},
            other => panic!("expected a refusal, got {:?}", other),
        }
    }
}

#[test]
fn chain_get_header_call_keeps_the_optional_hash() {
    assert_eq!(chain_get_header_call(None), RemoteCall::ChainGetHeader(None));
    assert_eq!(chain_get_header_call(Some(hash(9))), RemoteCall::ChainGetHeader(Some(hash(9))));
}

#[test]
fn header_reply_hands_the_header_on() {
    assert_eq!(header_reply(Ok(Some(header(4, 4)))), Ok(Some(header(4, 4))));
    assert_eq!(header_reply(Ok(None)), Ok(None));
}

#[test]
fn header_reply_turns_a_failed_call_into_a_transport_error() {
    assert_eq!(
        header_reply(Err(transport("connection reset"))),
        Err(ClientError::Transport("connection reset".to_string()))
    );
}

#[test]
fn number_reply_reads_the_number_of_the_header() {
    assert_eq!(number_reply(Ok(Some(header(4, 41)))), Ok(Some(41)));
    assert_eq!(number_reply(Ok(Some(header(4, 0)))), Ok(Some(0)));
    assert_eq!(number_reply(Ok(Some(header(4, u32::MAX)))), Ok(Some(u32::MAX)));
    assert_eq!(number_reply(Ok(None)), Ok(None));
    assert_eq!(
        number_reply(Err(transport("timeout"))),
        Err(ClientError::Transport("timeout".to_string()))
    );
}

#[test]
fn number_agrees_with_header_on_the_same_reply() {
    let replies = [Ok(Some(header(1, 1))), Ok(Some(header(200, 123_456))), Ok(None)];
    for reply in replies {
        let from_header = header_reply(reply.clone()).unwrap().map(|h| h.number);
        assert_eq!(number_reply(reply).unwrap(), from_header);
    }
    assert_eq!(
        plan(BackendOperation::Number, BlockId::Hash(hash(1))),
        plan(BackendOperation::Header, BlockId::Hash(hash(1)))
    );
    assert_eq!(
        number_reply(Err(transport("down"))).unwrap_err(),
        header_reply(Err(transport("down"))).unwrap_err()
    );
}

#[test]
fn block_status_is_coarse() {
    assert_eq!(block_status_reply(Ok(Some(header(4, 4)))), Ok(BlockStatus::InChainWithState));
    assert_eq!(block_status_reply(Ok(None)), Ok(BlockStatus::Unknown));
    assert_eq!(
        block_status_reply(Err(transport("malformed response"))),
        Err(ClientError::Transport("malformed response".to_string()))
    );
}

#[test]
fn full_sync_is_never_required() {
    assert!(!requires_full_sync());
}

#[test]
fn best_header_is_the_same_when_asked_twice() {
    let first = header_reply(stable_remote(chain_get_header_call(None)));
    let second = header_reply(stable_remote(chain_get_header_call(None)));
    assert_eq!(first, second);
    assert_eq!(first, Ok(Some(header(10, 10))));
}

#[test]
fn header_lookup_by_hash_through_a_remote() {
    let call = plan(BackendOperation::Header, BlockId::Hash(hash(7))).unwrap();
    assert_eq!(header_reply(stable_remote(call)), Ok(Some(header(7, 7))));
    let call = plan(BackendOperation::Header, BlockId::Hash(hash(8))).unwrap();
    assert_eq!(header_reply(stable_remote(call)), Ok(None));
    let call = plan(BackendOperation::BlockStatus, BlockId::Hash(hash(8))).unwrap();
    assert_eq!(block_status_reply(stable_remote(call)), Ok(BlockStatus::Unknown));
    let call = plan(BackendOperation::Number, BlockId::Hash(hash(7))).unwrap();
    assert_eq!(number_reply(stable_remote(call)), Ok(Some(7)));
}
