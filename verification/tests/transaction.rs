use mint_watch::error::EventError;
use mint_watch::signature::TxSignature;
use mint_watch::transaction::{
    query_for, resolve, Commitment, FetchedTransaction, TransactionEncoding, MAX_TRANSACTION_VERSION,
};

#[test]
fn resolve_returns_the_keys_of_a_raw_message_in_order() {
    let keys = vec!["payer".to_string(), "mintAddr".to_string(), "program".to_string()];
    assert_eq!(resolve(FetchedTransaction::JsonRaw(keys.clone())), Ok(keys));
}

#[test]
fn resolve_returns_an_empty_list_as_it_is() {
    assert_eq!(resolve(FetchedTransaction::JsonRaw(Vec::new())), Ok(Vec::new()));
}

#[test]
fn resolve_reports_an_unavailable_transaction_as_not_found() {
    assert_eq!(resolve(FetchedTransaction::Unavailable), Err(EventError::NotFound));
}

#[test]
fn resolve_reports_other_shapes_as_decode_errors() {
    assert_eq!(resolve(FetchedTransaction::LegacyBinary), Err(EventError::DecodeError));
    assert_eq!(resolve(FetchedTransaction::Binary), Err(EventError::DecodeError));
    assert_eq!(resolve(FetchedTransaction::Accounts), Err(EventError::DecodeError));
    assert_eq!(resolve(FetchedTransaction::JsonParsed), Err(EventError::DecodeError));
}

#[test]
fn query_asks_for_json_at_confirmed_commitment_and_version_zero() {
    let signature = TxSignature { bytes: [3u8; 64] };
    let query = query_for(signature);
    assert_eq!(query.signature, signature);
    assert_eq!(query.encoding, TransactionEncoding::Json);
    assert_eq!(query.commitment, Commitment::Confirmed);
    assert_eq!(query.max_supported_version, 0);
    assert_eq!(MAX_TRANSACTION_VERSION, 0);
}
