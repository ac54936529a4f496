//! Reading a fetched transaction: from what the chain returned to the ordered
//! account keys of the transaction's message.

use vstd::prelude::*;
use crate::error::EventError;
use crate::signature::TxSignature;
use crate::text::texts;

verus! {

/// How settled the chain's answer has to be.
#[derive(Clone, Copy, Debug, PartialEq, Eq, Structural)]
pub enum Commitment {
    Processed,
    Confirmed,
    Finalized,
}

/// The encoding in which a transaction is asked for.
#[derive(Clone, Copy, Debug, PartialEq, Eq, Structural)]
pub enum TransactionEncoding {
    Binary,
    Base58,
    Base64,
    Json,
    JsonParsed,
}

/// The highest transaction version the pipeline can read.
pub const MAX_TRANSACTION_VERSION: u8 = 0;

/// The parameters of one transaction query.
#[derive(Clone, Copy, Debug, PartialEq, Eq)]
pub struct TransactionQuery {
    pub signature: TxSignature,
    pub encoding: TransactionEncoding,
    pub commitment: Commitment,
    pub max_supported_version: u8,
}

/// The mathematical form of a `TransactionQuery`.
pub struct QueryView {
    pub signature: Seq<u8>,
    pub encoding: TransactionEncoding,
    pub commitment: Commitment,
    pub max_supported_version: u8,
}

impl View for TransactionQuery {
    type V = QueryView;

    open spec fn view(&self) -> QueryView {
        QueryView {
            signature: self.signature@,
            encoding: self.encoding,
            commitment: self.commitment,
            max_supported_version: self.max_supported_version,
        }
    }
}

/// The query by which the pipeline resolves a signature: JSON encoding,
/// confirmed commitment, and the highest version it can read.
pub open spec fn query_of(signature: Seq<u8>) -> QueryView {
    QueryView {
        signature,
        encoding: TransactionEncoding::Json,
        commitment: Commitment::Confirmed,
        max_supported_version: MAX_TRANSACTION_VERSION,
    }
}

/// Builds the query for one signature.
pub fn query_for(signature: TxSignature) -> (query: TransactionQuery)
    ensures
        query@ == query_of(signature@),
{
    TransactionQuery {
        signature,
        encoding: TransactionEncoding::Json,
        commitment: Commitment::Confirmed,
        max_supported_version: MAX_TRANSACTION_VERSION,
    }
}

/// What a transaction query returned, as far as the pipeline reads it.
#[derive(Clone, Debug, PartialEq, Eq)]
pub enum FetchedTransaction {
    /// The request failed, or the chain does not show the transaction yet at
    /// the requested commitment.
    Unavailable,
    /// The transaction came in the legacy binary encoding.
    LegacyBinary,
    /// The transaction came in a binary encoding.
    Binary,
    /// The transaction came as a bare list of accounts.
    Accounts,
    /// The transaction came as JSON with a parsed message.
    JsonParsed,
    /// The transaction came as JSON with a raw message, whose account keys
    /// these are, in message order: the fee payer first.
    JsonRaw(Vec<String>),
}

/// The mathematical form of a `FetchedTransaction`.
pub enum TransactionView {
    Unavailable,
    LegacyBinary,
    Binary,
    Accounts,
    JsonParsed,
    JsonRaw(Seq<Seq<char>>),
}

impl View for FetchedTransaction {
    type V = TransactionView;

    open spec fn view(&self) -> TransactionView {
        match self {
            FetchedTransaction::Unavailable => TransactionView::Unavailable,
            FetchedTransaction::LegacyBinary => TransactionView::LegacyBinary,
            FetchedTransaction::Binary => TransactionView::Binary,
            FetchedTransaction::Accounts => TransactionView::Accounts,
            FetchedTransaction::JsonParsed => TransactionView::JsonParsed,
            FetchedTransaction::JsonRaw(keys) => TransactionView::JsonRaw(texts(keys@)),
        }
    }
}

/// The account keys of a fetched transaction: those of a raw JSON message;
/// `NotFound` where nothing was fetched; `DecodeError` for every other shape.
pub open spec fn resolved(fetched: TransactionView) -> Result<Seq<Seq<char>>, EventError> {
    match fetched {
        TransactionView::Unavailable => Err(EventError::NotFound),
        TransactionView::JsonRaw(keys) => Ok(keys),
        _ => Err(EventError::DecodeError),
    }
}

/// Extracts the ordered account keys from what a transaction query returned.
pub fn resolve(fetched: FetchedTransaction) -> (result: Result<Vec<String>, EventError>)
    ensures
        match result {
            Ok(keys) => resolved(fetched@) == Ok::<Seq<Seq<char>>, EventError>(texts(keys@)),
            Err(error) => resolved(fetched@) == Err::<Seq<Seq<char>>, EventError>(error),
        },
{
    match fetched {
        FetchedTransaction::Unavailable => Err(EventError::NotFound),
        FetchedTransaction::JsonRaw(keys) => Ok(keys),
        _ => Err(EventError::DecodeError),
    }
}

} // verus!
