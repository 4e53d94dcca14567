use relay_chain_minimal_node::error::{
    BackendOperation, ChainError, ClientError, Operation, Refusal, RuntimeQuery,
};
use relay_chain_minimal_node::primitives::BlockHash;

#[test]
fn transport_errors_show_the_transport_message() {
    let error = ClientError::from_transport(ChainError { message: "socket closed".to_string() });
    assert_eq!(error, ClientError::Transport("socket closed".to_string()));
    assert_eq!(error.message(), "socket closed");
    assert!(!error.is_unsupported());
}

#[test]
fn empty_transport_message_is_kept() {
    let error = ClientError::from_transport(ChainError { message: String::new() });
    assert_eq!(error.message(), "");
}

#[test]
fn hash_required_message() {
    let error = ClientError::Unsupported {
        operation: Operation::Backend(BackendOperation::Header),
        refusal: Refusal::HashRequired,
    };
    assert_eq!(error.message(), "Only hash is supported for RPC methods");
    assert!(error.is_unsupported());
}

#[test]
fn not_implemented_message() {
    let error = ClientError::Unsupported {
        operation: Operation::Runtime(RuntimeQuery::NextEpoch),
        refusal: Refusal::NotImplemented,
    };
    assert_eq!(error.message(), "Operation not implemented for remote-backed client");
    assert!(error.is_unsupported());
}

#[test]
fn missing_header_message() {
    let best = ClientError::MissingHeader(None);
    let named = ClientError::MissingHeader(Some(BlockHash::from_bytes([1; 32])));
    assert_eq!(best.message(), "Header not found on the remote");
    assert_eq!(named.message(), "Header not found on the remote");
    assert!(!best.is_unsupported());
    assert_ne!(best, named);
}
