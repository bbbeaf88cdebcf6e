//! The Diem data client's vocabulary: its errors, the feedback that callers give
//! on bad responses, and the summary of the data advertised in the network.

use crate::storage_service::CompleteDataRange;
use vstd::prelude::*;

verus! {

/// An error returned by the data client for a failed call.
#[derive(Clone, Debug, PartialEq)]
pub enum Error {
    DataIsUnavailable(String),
    DataIsTooLarge(String),
    TimeoutWaitingForResponse(String),
    UnexpectedErrorEncountered(String),
}

/// The text of a data client error: a fixed sentence per kind, then the detail.
pub open spec fn error_text(e: Error) -> Seq<char> {
    match e {
        Error::DataIsUnavailable(d) => "The requested data is unavailable and cannot be found! Error: "@
            + d@,
        Error::DataIsTooLarge(d) => "The requested data is too large: "@ + d@,
        Error::TimeoutWaitingForResponse(d) => "Timed out waiting for a response: "@ + d@,
        Error::UnexpectedErrorEncountered(d) => "Unexpected error encountered: "@ + d@,
    }
}

impl Error {
    /// The text shown for the error.
    pub fn message(&self) -> (res: String)
        ensures
            res@ == error_text(*self),
    {
        let (mut text, detail) = match self {
            Error::DataIsUnavailable(d) => (
                String::from_str("The requested data is unavailable and cannot be found! Error: "),
                d,
            ),
            Error::DataIsTooLarge(d) => (String::from_str("The requested data is too large: "), d),
            Error::TimeoutWaitingForResponse(d) => (
                String::from_str("Timed out waiting for a response: "),
                d,
            ),
            Error::UnexpectedErrorEncountered(d) => (
                String::from_str("Unexpected error encountered: "),
                d,
            ),
        };
        text.append(detail.as_str());
        text
    }
}

/// What a caller of the data client reports about a response it received.
#[derive(Clone, Copy, Debug, PartialEq, Eq)]
pub enum ResponseError {
    InvalidData,
    MissingData,
    ProofVerificationError,
}

/// The chunk sizes that make a request *more likely* to succeed.
#[derive(Clone, Copy, Debug, PartialEq, Eq)]
pub struct OptimalChunkSizes {
    pub account_states_chunk_size: u64,
    pub epoch_chunk_size: u64,
    pub transaction_chunk_size: u64,
    pub transaction_output_chunk_size: u64,
}

/// A summary of all data advertised in the network.  A range (X, Y) means that
/// everything from X to Y, both included, is held.
#[derive(Clone, Debug, PartialEq)]
pub struct AdvertisedData<L> {
    /// The versions for which account states are held.
    pub account_states: Vec<CompleteDataRange>,
    /// The epochs whose ending ledger infos are held.
    pub epoch_ending_ledger_infos: Vec<CompleteDataRange>,
    /// The ledger infos of the highest synced versions.
    pub synced_ledger_infos: Vec<L>,
    /// The versions for which transactions are held.
    pub transactions: Vec<CompleteDataRange>,
    /// The versions for which transaction outputs are held.
    pub transaction_outputs: Vec<CompleteDataRange>,
}

/// A snapshot of the data available in the network.
#[derive(Clone, Debug, PartialEq)]
pub struct GlobalDataSummary<L> {
    pub advertised_data: AdvertisedData<L>,
    pub optimal_chunk_sizes: OptimalChunkSizes,
}

/// The payload of a data client response.
pub enum DataClientPayload<A, L, O, T> {
    AccountStatesWithProof(A),
    EpochEndingLedgerInfos(Vec<L>),
    GlobalDataSummary(GlobalDataSummary<L>),
    NumberOfAccountStates(u64),
    TransactionOutputsWithProof(O),
    TransactionsWithProof(T),
}

/// A response of the data client; `response_id` is the handle under which a bad
/// payload is reported back.
pub struct DataClientResponse<A, L, O, T> {
    pub response_id: u64,
    pub response_payload: DataClientPayload<A, L, O, T>,
}

} // verus!
