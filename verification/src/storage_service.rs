//! The storage service server's request handler: it answers each storage service
//! request from local storage, and reports every storage failure to the client as
//! an internal error.

use vstd::prelude::*;

verus! {

/// The largest number of epochs served in one response.
pub const MAX_EPOCH_CHUNK_SIZE: u64 = 1000;

/// The largest number of transactions served in one response.
pub const MAX_TRANSACTION_CHUNK_SIZE: u64 = 1000;

/// The largest number of transaction outputs served in one response.
pub const MAX_TRANSACTION_OUTPUT_CHUNK_SIZE: u64 = 1000;

/// The largest number of account states served in one response.
pub const MAX_ACCOUNT_STATES_CHUNK_SIZE: u64 = 1000;

/// The protocol version that the server speaks.
pub const STORAGE_SERVER_VERSION: u64 = 1;

/// How many requests the server handles at once.
pub const MAX_CONCURRENT_REQUESTS: u64 = 100;

/// Errors of the storage reader.
#[derive(Clone, Debug, PartialEq)]
pub enum Error {
    StorageErrorEncountered(String),
    UnexpectedErrorEncountered(String),
}

/// The text of a storage reader error: a fixed sentence per kind, then the detail.
pub open spec fn error_text(e: Error) -> Seq<char> {
    match e {
        Error::StorageErrorEncountered(d) => "Storage error encountered: "@ + d@,
        Error::UnexpectedErrorEncountered(d) => "Unexpected error encountered: "@ + d@,
    }
}

impl Error {
    /// The text shown for the error.
    pub fn message(&self) -> (res: String)
        ensures
            res@ == error_text(*self),
    {
        let (mut text, detail) = match self {
            Error::StorageErrorEncountered(d) => (String::from_str("Storage error encountered: "), d),
            Error::UnexpectedErrorEncountered(d) => (
                String::from_str("Unexpected error encountered: "),
                d,
            ),
        };
        text.append(detail.as_str());
        text
    }
}

/// The error that a client receives.
#[derive(Clone, Copy, Debug, PartialEq, Eq)]
pub enum StorageServiceError {
    InternalError,
}

/// All values from `lowest` to `highest`, both included.
#[derive(Clone, Copy, Debug, PartialEq, Eq)]
pub struct CompleteDataRange {
    pub lowest: u64,
    pub highest: u64,
}

impl CompleteDataRange {
    pub fn new(lowest: u64, highest: u64) -> (res: Self)
        ensures
            res == (CompleteDataRange { lowest, highest }),
    {
        CompleteDataRange { lowest, highest }
    }
}

/// What a storage holds: its latest ledger info and the ranges of data it serves.
#[derive(Clone, Debug, PartialEq)]
pub struct DataSummary<L> {
    pub synced_ledger_info: L,
    pub epoch_ending_ledger_infos: CompleteDataRange,
    pub transactions: CompleteDataRange,
    pub transaction_outputs: CompleteDataRange,
    pub account_states: CompleteDataRange,
}

/// The summary of a storage that holds everything since genesis, up to the
/// latest ledger info of epoch `latest_epoch` at version `latest_version`: the
/// epochs that have ended and all versions.
pub open spec fn summary_since_genesis<L>(
    synced_ledger_info: L,
    latest_epoch: u64,
    latest_version: u64,
) -> DataSummary<L> {
    DataSummary {
        synced_ledger_info,
        epoch_ending_ledger_infos: CompleteDataRange {
            lowest: 0,
            highest: (latest_epoch - 1) as u64,
        },
        transactions: CompleteDataRange { lowest: 0, highest: latest_version },
        transaction_outputs: CompleteDataRange { lowest: 0, highest: latest_version },
        account_states: CompleteDataRange { lowest: 0, highest: latest_version },
    }
}

/// The data summary of the storage reader, which holds everything since genesis.
/// The latest epoch is at least 1: epoch 0 ends with genesis.
pub fn data_summary_since_genesis<L>(
    synced_ledger_info: L,
    latest_epoch: u64,
    latest_version: u64,
) -> (res: DataSummary<L>)
    requires
        latest_epoch >= 1,
    ensures
        res == summary_since_genesis(synced_ledger_info, latest_epoch, latest_version),
{
    DataSummary {
        synced_ledger_info,
        epoch_ending_ledger_infos: CompleteDataRange::new(0, latest_epoch - 1),
        transactions: CompleteDataRange::new(0, latest_version),
        transaction_outputs: CompleteDataRange::new(0, latest_version),
        account_states: CompleteDataRange::new(0, latest_version),
    }
}

/// The chunk limits that the server advertises.
#[derive(Clone, Copy, Debug, PartialEq, Eq)]
pub struct ProtocolMetadata {
    pub max_epoch_chunk_size: u64,
    pub max_transaction_chunk_size: u64,
    pub max_transaction_output_chunk_size: u64,
    pub max_account_states_chunk_size: u64,
}

/// The server's chunk limits.
pub open spec fn server_protocol_metadata() -> ProtocolMetadata {
    ProtocolMetadata {
        max_epoch_chunk_size: MAX_EPOCH_CHUNK_SIZE,
        max_transaction_chunk_size: MAX_TRANSACTION_CHUNK_SIZE,
        max_transaction_output_chunk_size: MAX_TRANSACTION_OUTPUT_CHUNK_SIZE,
        max_account_states_chunk_size: MAX_ACCOUNT_STATES_CHUNK_SIZE,
    }
}

/// The protocol version of the server.
#[derive(Clone, Copy, Debug, PartialEq, Eq)]
pub struct ServerProtocolVersion {
    pub protocol_version: u64,
}

/// The server's limits and what its storage holds.
#[derive(Clone, Debug, PartialEq)]
pub struct StorageServerSummary<L> {
    pub protocol_metadata: ProtocolMetadata,
    pub data_summary: DataSummary<L>,
}

/// A request for account states at `version`, from `start_account_index` on.
#[derive(Clone, Copy, Debug, PartialEq, Eq)]
pub struct AccountStatesChunkWithProofRequest {
    pub version: u64,
    pub start_account_index: u64,
    pub expected_num_account_states: u64,
}

/// A request for the epoch ending ledger infos from `start_epoch`.
#[derive(Clone, Copy, Debug, PartialEq, Eq)]
pub struct EpochEndingLedgerInfoRequest {
    pub start_epoch: u64,
    pub expected_end_epoch: u64,
}

/// A request for transaction outputs from `start_version`, proved at `proof_version`.
#[derive(Clone, Copy, Debug, PartialEq, Eq)]
pub struct TransactionOutputsWithProofRequest {
    pub proof_version: u64,
    pub start_version: u64,
    pub expected_num_outputs: u64,
}

/// A request for transactions from `start_version`, proved at `proof_version`.
#[derive(Clone, Copy, Debug, PartialEq, Eq)]
pub struct TransactionsWithProofRequest {
    pub proof_version: u64,
    pub start_version: u64,
    pub expected_num_transactions: u64,
    pub include_events: bool,
}

/// A request to the storage service.
#[derive(Clone, Copy, Debug, PartialEq, Eq)]
pub enum StorageServiceRequest {
    GetAccountStatesChunkWithProof(AccountStatesChunkWithProofRequest),
    GetEpochEndingLedgerInfos(EpochEndingLedgerInfoRequest),
    GetNumberOfAccountsAtVersion(u64),
    GetServerProtocolVersion,
    GetStorageServerSummary,
    GetTransactionOutputsWithProof(TransactionOutputsWithProofRequest),
    GetTransactionsWithProof(TransactionsWithProofRequest),
}

/// A response of the storage service; the payloads are those of the storage.
#[derive(Clone, Debug, PartialEq)]
pub enum StorageServiceResponse<A, E, L, O, T> {
    AccountStatesChunkWithProof(A),
    EpochEndingLedgerInfos(E),
    NumberOfAccountsAtVersion(u64),
    ServerProtocolVersion(ServerProtocolVersion),
    StorageServerSummary(StorageServerSummary<L>),
    TransactionOutputsWithProof(O),
    TransactionsWithProof(T),
}

/// The interface into local storage used by the storage server to handle
/// client requests.
pub trait StorageReaderInterface: Clone + Send + 'static {
    /// A chunk of account states with its proof.
    type AccountStatesChunk;
    /// A proof of a run of epoch changes.
    type EpochChangeProof;
    /// A ledger info with its signatures.
    type LedgerInfo;
    /// A list of transaction outputs with its proof.
    type TransactionOutputList;
    /// A list of transactions with its proof.
    type TransactionList;

    /// What this storage may give back for a data summary.  Each storage states
    /// its own relation; the handler relies on nothing else.
    spec fn data_summary_read(&self, r: Result<DataSummary<Self::LedgerInfo>, Error>) -> bool;

    /// What this storage may give back for transactions with these arguments.
    spec fn transactions_read(
        &self,
        proof_version: u64,
        start_version: u64,
        expected_num_transactions: u64,
        include_events: bool,
        r: Result<Self::TransactionList, Error>,
    ) -> bool;

    /// What this storage may give back for epoch ending ledger infos with these
    /// arguments.
    spec fn epoch_ending_ledger_infos_read(
        &self,
        start_epoch: u64,
        expected_end_epoch: u64,
        r: Result<Self::EpochChangeProof, Error>,
    ) -> bool;

    /// What this storage may give back for transaction outputs with these
    /// arguments.
    spec fn transaction_outputs_read(
        &self,
        proof_version: u64,
        start_version: u64,
        expected_num_transaction_outputs: u64,
        r: Result<Self::TransactionOutputList, Error>,
    ) -> bool;

    /// What this storage may give back for the number of accounts at `version`.
    spec fn number_of_accounts_read(&self, version: u64, r: Result<u64, Error>) -> bool;

    /// What this storage may give back for a chunk of account states with these
    /// arguments.
    spec fn account_states_chunk_read(
        &self,
        version: u64,
        start_account_index: u64,
        expected_num_account_states: u64,
        r: Result<Self::AccountStatesChunk, Error>,
    ) -> bool;

    /// Returns a data summary of the underlying storage state.
    fn get_data_summary(&self) -> (r: Result<DataSummary<Self::LedgerInfo>, Error>)
        ensures
            self.data_summary_read(r),
    ;

    /// Returns a list of transactions with a proof relative to the
    /// `proof_version`, of *at most* `expected_num_transactions`, starting at
    /// `start_version`; with events where `include_events`.
    fn get_transactions_with_proof(
        &self,
        proof_version: u64,
        start_version: u64,
        expected_num_transactions: u64,
        include_events: bool,
    ) -> (r: Result<Self::TransactionList, Error>)
        ensures
            self.transactions_read(
                proof_version,
                start_version,
                expected_num_transactions,
                include_events,
                r,
            ),
    ;

    /// Returns the epoch ending ledger infos from `start_epoch`, ending *at most*
    /// at `expected_end_epoch`.
    fn get_epoch_ending_ledger_infos(&self, start_epoch: u64, expected_end_epoch: u64) -> (r:
        Result<Self::EpochChangeProof, Error>)
        ensures
            self.epoch_ending_ledger_infos_read(start_epoch, expected_end_epoch, r),
    ;

    /// Returns a list of transaction outputs with a proof relative to the
    /// `proof_version`, of *at most* `expected_num_transaction_outputs`, starting
    /// at `start_version`.
    fn get_transaction_outputs_with_proof(
        &self,
        proof_version: u64,
        start_version: u64,
        expected_num_transaction_outputs: u64,
    ) -> (r: Result<Self::TransactionOutputList, Error>)
        ensures
            self.transaction_outputs_read(
                proof_version,
                start_version,
                expected_num_transaction_outputs,
                r,
            ),
    ;

    /// Returns the number of accounts in the account state tree at `version`.
    fn get_number_of_accounts(&self, version: u64) -> (r: Result<u64, Error>)
        ensures
            self.number_of_accounts_read(version, r),
    ;

    /// Returns a chunk of *at most* `expected_num_account_states` account states
    /// at `version`, from `start_account_index` on.
    fn get_account_states_chunk_with_proof(
        &self,
        version: u64,
        start_account_index: u64,
        expected_num_account_states: u64,
    ) -> (r: Result<Self::AccountStatesChunk, Error>)
        ensures
            self.account_states_chunk_read(
                version,
                start_account_index,
                expected_num_account_states,
                r,
            ),
    ;
}

/// The response type of a handler over the storage `S`.
pub type ResponseFor<S> = StorageServiceResponse<
    <S as StorageReaderInterface>::AccountStatesChunk,
    <S as StorageReaderInterface>::EpochChangeProof,
    <S as StorageReaderInterface>::LedgerInfo,
    <S as StorageReaderInterface>::TransactionOutputList,
    <S as StorageReaderInterface>::TransactionList,
>;

/// A read of local storage, with its arguments.
#[derive(Clone, Copy, Debug, PartialEq, Eq)]
pub enum StorageCall {
    AccountStatesChunk { version: u64, start_account_index: u64, expected_num_account_states: u64 },
    EpochEndingLedgerInfos { start_epoch: u64, expected_end_epoch: u64 },
    NumberOfAccounts { version: u64 },
    DataSummary,
    TransactionOutputs { proof_version: u64, start_version: u64, expected_num_outputs: u64 },
    Transactions {
        proof_version: u64,
        start_version: u64,
        expected_num_transactions: u64,
        include_events: bool,
    },
}

/// The storage read that answers `request`, with the request's own arguments;
/// none for the protocol version, which needs no storage.
pub open spec fn storage_call(request: StorageServiceRequest) -> Option<StorageCall> {
    match request {
        StorageServiceRequest::GetAccountStatesChunkWithProof(r) => Some(
            StorageCall::AccountStatesChunk {
                version: r.version,
                start_account_index: r.start_account_index,
                expected_num_account_states: r.expected_num_account_states,
            },
        ),
        StorageServiceRequest::GetEpochEndingLedgerInfos(r) => Some(
            StorageCall::EpochEndingLedgerInfos {
                start_epoch: r.start_epoch,
                expected_end_epoch: r.expected_end_epoch,
            },
        ),
        StorageServiceRequest::GetNumberOfAccountsAtVersion(version) => Some(
            StorageCall::NumberOfAccounts { version },
        ),
        StorageServiceRequest::GetServerProtocolVersion => None,
        StorageServiceRequest::GetStorageServerSummary => Some(StorageCall::DataSummary),
        StorageServiceRequest::GetTransactionOutputsWithProof(r) => Some(
            StorageCall::TransactionOutputs {
                proof_version: r.proof_version,
                start_version: r.start_version,
                expected_num_outputs: r.expected_num_outputs,
            },
        ),
        StorageServiceRequest::GetTransactionsWithProof(r) => Some(
            StorageCall::Transactions {
                proof_version: r.proof_version,
                start_version: r.start_version,
                expected_num_transactions: r.expected_num_transactions,
                include_events: r.include_events,
            },
        ),
    }
}

/// The storage read that answers `request`.
pub fn storage_call_for(request: StorageServiceRequest) -> (res: Option<StorageCall>)
    ensures
        res == storage_call(request),
{
    match request {
        StorageServiceRequest::GetAccountStatesChunkWithProof(r) => Some(
            StorageCall::AccountStatesChunk {
                version: r.version,
                start_account_index: r.start_account_index,
                expected_num_account_states: r.expected_num_account_states,
            },
        ),
        StorageServiceRequest::GetEpochEndingLedgerInfos(r) => Some(
            StorageCall::EpochEndingLedgerInfos {
                start_epoch: r.start_epoch,
                expected_end_epoch: r.expected_end_epoch,
            },
        ),
        StorageServiceRequest::GetNumberOfAccountsAtVersion(version) => Some(
            StorageCall::NumberOfAccounts { version },
        ),
        StorageServiceRequest::GetServerProtocolVersion => None,
        StorageServiceRequest::GetStorageServerSummary => Some(StorageCall::DataSummary),
        StorageServiceRequest::GetTransactionOutputsWithProof(r) => Some(
            StorageCall::TransactionOutputs {
                proof_version: r.proof_version,
                start_version: r.start_version,
                expected_num_outputs: r.expected_num_outputs,
            },
        ),
        StorageServiceRequest::GetTransactionsWithProof(r) => Some(
            StorageCall::Transactions {
                proof_version: r.proof_version,
                start_version: r.start_version,
                expected_num_transactions: r.expected_num_transactions,
                include_events: r.include_events,
            },
        ),
    }
}

/// What a storage read gave back.
#[derive(Debug, PartialEq)]
pub enum StorageOutcome<A, E, L, O, T> {
    AccountStatesChunk(Result<A, Error>),
    EpochEndingLedgerInfos(Result<E, Error>),
    NumberOfAccounts(Result<u64, Error>),
    DataSummary(Result<DataSummary<L>, Error>),
    TransactionOutputs(Result<O, Error>),
    Transactions(Result<T, Error>),
}

/// Whether `outcome` is what the read `call` gives back.
pub open spec fn outcome_of<A, E, L, O, T>(call: StorageCall, outcome: StorageOutcome<A, E, L, O, T>) -> bool {
    match call {
        StorageCall::AccountStatesChunk { .. } => outcome is AccountStatesChunk,
        StorageCall::EpochEndingLedgerInfos { .. } => outcome is EpochEndingLedgerInfos,
        StorageCall::NumberOfAccounts { .. } => outcome is NumberOfAccounts,
        StorageCall::DataSummary => outcome is DataSummary,
        StorageCall::TransactionOutputs { .. } => outcome is TransactionOutputs,
        StorageCall::Transactions { .. } => outcome is Transactions,
    }
}

/// What the client receives, given what storage gave back (none where no storage
/// was read): the payload in the response of its kind, the server's limits with
/// the data summary, the protocol version where storage is not read, and an
/// internal error for every storage error.
pub open spec fn response_for<A, E, L, O, T>(outcome: Option<StorageOutcome<A, E, L, O, T>>) -> Result<
    StorageServiceResponse<A, E, L, O, T>,
    StorageServiceError,
> {
    match outcome {
        None => Ok(
            StorageServiceResponse::ServerProtocolVersion(
                ServerProtocolVersion { protocol_version: STORAGE_SERVER_VERSION },
            ),
        ),
        Some(StorageOutcome::AccountStatesChunk(r)) => match r {
            Ok(a) => Ok(StorageServiceResponse::AccountStatesChunkWithProof(a)),
            Err(_) => Err(StorageServiceError::InternalError),
        },
        Some(StorageOutcome::EpochEndingLedgerInfos(r)) => match r {
            Ok(e) => Ok(StorageServiceResponse::EpochEndingLedgerInfos(e)),
            Err(_) => Err(StorageServiceError::InternalError),
        },
        Some(StorageOutcome::NumberOfAccounts(r)) => match r {
            Ok(n) => Ok(StorageServiceResponse::NumberOfAccountsAtVersion(n)),
            Err(_) => Err(StorageServiceError::InternalError),
        },
        Some(StorageOutcome::DataSummary(r)) => match r {
            Ok(d) => Ok(
                StorageServiceResponse::StorageServerSummary(
                    StorageServerSummary { protocol_metadata: server_protocol_metadata(), data_summary: d },
                ),
            ),
            Err(_) => Err(StorageServiceError::InternalError),
        },
        Some(StorageOutcome::TransactionOutputs(r)) => match r {
            Ok(o) => Ok(StorageServiceResponse::TransactionOutputsWithProof(o)),
            Err(_) => Err(StorageServiceError::InternalError),
        },
        Some(StorageOutcome::Transactions(r)) => match r {
            Ok(t) => Ok(StorageServiceResponse::TransactionsWithProof(t)),
            Err(_) => Err(StorageServiceError::InternalError),
        },
    }
}

/// The response to the client, given what storage gave back.
pub fn respond<A, E, L, O, T>(outcome: Option<StorageOutcome<A, E, L, O, T>>) -> (res: Result<
    StorageServiceResponse<A, E, L, O, T>,
    StorageServiceError,
>)
    ensures
        res == response_for(outcome),
{
    match outcome {
        None => {
            let server_protocol_version = ServerProtocolVersion {
                protocol_version: STORAGE_SERVER_VERSION,
            };
            Ok(StorageServiceResponse::ServerProtocolVersion(server_protocol_version))
        },
        Some(StorageOutcome::AccountStatesChunk(r)) => match r {
            Ok(a) => Ok(StorageServiceResponse::AccountStatesChunkWithProof(a)),
            Err(_) => Err(StorageServiceError::InternalError),
        },
        Some(StorageOutcome::EpochEndingLedgerInfos(r)) => match r {
            Ok(e) => Ok(StorageServiceResponse::EpochEndingLedgerInfos(e)),
            Err(_) => Err(StorageServiceError::InternalError),
        },
        Some(StorageOutcome::NumberOfAccounts(r)) => match r {
            Ok(n) => Ok(StorageServiceResponse::NumberOfAccountsAtVersion(n)),
            Err(_) => Err(StorageServiceError::InternalError),
        },
        Some(StorageOutcome::DataSummary(r)) => match r {
            Ok(d) => {
                let storage_server_summary = StorageServerSummary {
                    protocol_metadata: ProtocolMetadata {
                        max_epoch_chunk_size: MAX_EPOCH_CHUNK_SIZE,
                        max_transaction_chunk_size: MAX_TRANSACTION_CHUNK_SIZE,
                        max_transaction_output_chunk_size: MAX_TRANSACTION_OUTPUT_CHUNK_SIZE,
                        max_account_states_chunk_size: MAX_ACCOUNT_STATES_CHUNK_SIZE,
                    },
                    data_summary: d,
                };
                Ok(StorageServiceResponse::StorageServerSummary(storage_server_summary))
            },
            Err(_) => Err(StorageServiceError::InternalError),
        },
        Some(StorageOutcome::TransactionOutputs(r)) => match r {
            Ok(o) => Ok(StorageServiceResponse::TransactionOutputsWithProof(o)),
            Err(_) => Err(StorageServiceError::InternalError),
        },
        Some(StorageOutcome::Transactions(r)) => match r {
            Ok(t) => Ok(StorageServiceResponse::TransactionsWithProof(t)),
            Err(_) => Err(StorageServiceError::InternalError),
        },
    }
}

/// The outcome type of reads of the storage `S`.
pub type OutcomeFor<S> = StorageOutcome<
    <S as StorageReaderInterface>::AccountStatesChunk,
    <S as StorageReaderInterface>::EpochChangeProof,
    <S as StorageReaderInterface>::LedgerInfo,
    <S as StorageReaderInterface>::TransactionOutputList,
    <S as StorageReaderInterface>::TransactionList,
>;

/// Whether `outcome` is what `storage` may give back for the read `call`, made
/// with the call's own arguments.
pub open spec fn read_result<S: StorageReaderInterface>(storage: S, call: StorageCall, outcome: OutcomeFor<S>) -> bool {
    match call {
        StorageCall::AccountStatesChunk { version, start_account_index, expected_num_account_states } => {
            outcome matches StorageOutcome::AccountStatesChunk(r) && storage.account_states_chunk_read(
                version,
                start_account_index,
                expected_num_account_states,
                r,
            )
        },
        StorageCall::EpochEndingLedgerInfos { start_epoch, expected_end_epoch } => {
            outcome matches StorageOutcome::EpochEndingLedgerInfos(r)
                && storage.epoch_ending_ledger_infos_read(start_epoch, expected_end_epoch, r)
        },
        StorageCall::NumberOfAccounts { version } => {
            outcome matches StorageOutcome::NumberOfAccounts(r) && storage.number_of_accounts_read(version, r)
        },
        StorageCall::DataSummary => {
            outcome matches StorageOutcome::DataSummary(r) && storage.data_summary_read(r)
        },
        StorageCall::TransactionOutputs { proof_version, start_version, expected_num_outputs } => {
            outcome matches StorageOutcome::TransactionOutputs(r) && storage.transaction_outputs_read(
                proof_version,
                start_version,
                expected_num_outputs,
                r,
            )
        },
        StorageCall::Transactions {
            proof_version,
            start_version,
            expected_num_transactions,
            include_events,
        } => {
            outcome matches StorageOutcome::Transactions(r) && storage.transactions_read(
                proof_version,
                start_version,
                expected_num_transactions,
                include_events,
                r,
            )
        },
    }
}

/// The inbound request handler over a storage.  A handler is created for every
/// request.
#[derive(Clone)]
pub struct Handler<T> {
    storage: T,
}

impl<T: StorageReaderInterface> Handler<T> {
    /// The storage that the handler reads.
    pub closed spec fn storage(self) -> T {
        self.storage
    }

    pub fn new(storage: T) -> (res: Self)
        ensures
            res.storage() == storage,
    {
        Self { storage }
    }

    /// Performs the read `call` on the handler's storage, with the call's
    /// arguments.
    pub fn read_storage(&self, call: StorageCall) -> (res: OutcomeFor<T>)
        ensures
            read_result(self.storage(), call, res),
            outcome_of(call, res),
    {
        match call {
            StorageCall::AccountStatesChunk { version, start_account_index, expected_num_account_states } => {
                StorageOutcome::AccountStatesChunk(
                    self.storage.get_account_states_chunk_with_proof(
                        version,
                        start_account_index,
                        expected_num_account_states,
                    ),
                )
            },
            StorageCall::EpochEndingLedgerInfos { start_epoch, expected_end_epoch } => {
                StorageOutcome::EpochEndingLedgerInfos(
                    self.storage.get_epoch_ending_ledger_infos(start_epoch, expected_end_epoch),
                )
            },
            StorageCall::NumberOfAccounts { version } => {
                StorageOutcome::NumberOfAccounts(self.storage.get_number_of_accounts(version))
            },
            StorageCall::DataSummary => StorageOutcome::DataSummary(self.storage.get_data_summary()),
            StorageCall::TransactionOutputs { proof_version, start_version, expected_num_outputs } => {
                StorageOutcome::TransactionOutputs(
                    self.storage.get_transaction_outputs_with_proof(
                        proof_version,
                        start_version,
                        expected_num_outputs,
                    ),
                )
            },
            StorageCall::Transactions {
                proof_version,
                start_version,
                expected_num_transactions,
                include_events,
            } => {
                StorageOutcome::Transactions(
                    self.storage.get_transactions_with_proof(
                        proof_version,
                        start_version,
                        expected_num_transactions,
                        include_events,
                    ),
                )
            },
        }
    }

    /// Answers `request`: reads storage as `storage_call` says, and responds as
    /// `response_for` says of what storage gave back.  The protocol version needs
    /// no storage and is always answered; a storage error reaches the client as an
    /// internal error.
    pub fn call(&self, request: StorageServiceRequest) -> (res: Result<
        ResponseFor<T>,
        StorageServiceError,
    >)
        ensures
            exists|outcome: Option<OutcomeFor<T>>|
                {
                    &&& match storage_call(request) {
                        None => outcome is None,
                        Some(c) => outcome matches Some(o) && read_result(self.storage(), c, o)
                            && outcome_of(c, o),
                    }
                    &&& res == response_for(outcome)
                },
    {
        let outcome = match storage_call_for(request) {
            None => None,
            Some(c) => Some(self.read_storage(c)),
        };
        respond(outcome)
    }
}

/// Every request is answered with a response of its own kind, or with an internal
/// error; the protocol version request is always answered, with version 1.
pub proof fn law_responses_answer_their_requests<A, E, L, O, T>(
    request: StorageServiceRequest,
    outcome: Option<StorageOutcome<A, E, L, O, T>>,
)
    requires
        match storage_call(request) {
            None => outcome is None,
            Some(c) => outcome matches Some(o) && outcome_of(c, o),
        },
    ensures
        match response_for(outcome) {
            Ok(response) => answers(request, response),
            Err(e) => e == StorageServiceError::InternalError,
        },
        request is GetServerProtocolVersion ==> response_for(outcome) is Ok,
{
}

/// Whether `response` is of the kind that answers `request`; the protocol
/// version and the server's limits are fixed.
pub open spec fn answers<A, E, L, O, T>(
    request: StorageServiceRequest,
    response: StorageServiceResponse<A, E, L, O, T>,
) -> bool {
    match request {
        StorageServiceRequest::GetAccountStatesChunkWithProof(_) => response is AccountStatesChunkWithProof,
        StorageServiceRequest::GetEpochEndingLedgerInfos(_) => response is EpochEndingLedgerInfos,
        StorageServiceRequest::GetNumberOfAccountsAtVersion(_) => response is NumberOfAccountsAtVersion,
        StorageServiceRequest::GetServerProtocolVersion => response
            == StorageServiceResponse::<A, E, L, O, T>::ServerProtocolVersion(
            ServerProtocolVersion { protocol_version: STORAGE_SERVER_VERSION },
        ),
        StorageServiceRequest::GetStorageServerSummary => response matches StorageServiceResponse::<
            A,
            E,
            L,
            O,
            T,
        >::StorageServerSummary(s) && s.protocol_metadata == server_protocol_metadata(),
        StorageServiceRequest::GetTransactionOutputsWithProof(_) => response is TransactionOutputsWithProof,
        StorageServiceRequest::GetTransactionsWithProof(_) => response is TransactionsWithProof,
    }
}

} // verus!

verus! {

/// Each request that needs storage is answered by the storage read of its own
/// kind, made with the request's own arguments, field for field; the protocol
/// version needs none.
pub proof fn law_storage_call_carries_request_fields(request: StorageServiceRequest)
    ensures
        request matches StorageServiceRequest::GetTransactionsWithProof(q) ==> storage_call(request) == Some(
            (StorageCall::Transactions {
                proof_version: q.proof_version,
                start_version: q.start_version,
                expected_num_transactions: q.expected_num_transactions,
                include_events: q.include_events,
            }),
        ),
        request matches StorageServiceRequest::GetTransactionOutputsWithProof(q) ==> storage_call(request)
            == Some(
            (StorageCall::TransactionOutputs {
                proof_version: q.proof_version,
                start_version: q.start_version,
                expected_num_outputs: q.expected_num_outputs,
            }),
        ),
        request matches StorageServiceRequest::GetAccountStatesChunkWithProof(q) ==> storage_call(request)
            == Some(
            (StorageCall::AccountStatesChunk {
                version: q.version,
                start_account_index: q.start_account_index,
                expected_num_account_states: q.expected_num_account_states,
            }),
        ),
        request matches StorageServiceRequest::GetEpochEndingLedgerInfos(q) ==> storage_call(request) == Some(
            (StorageCall::EpochEndingLedgerInfos {
                start_epoch: q.start_epoch,
                expected_end_epoch: q.expected_end_epoch,
            }),
        ),
        request matches StorageServiceRequest::GetNumberOfAccountsAtVersion(v) ==> storage_call(request)
            == Some((StorageCall::NumberOfAccounts { version: v })),
        request is GetStorageServerSummary ==> storage_call(request) == Some(StorageCall::DataSummary),
        request is GetServerProtocolVersion <==> storage_call(request) is None,
{
}

/// What the handler reads for a request is what the storage gives back for
/// exactly the request's arguments: the include-events flag, versions, counts,
/// epochs and indices of the request reach the storage unchanged.
pub proof fn law_reads_use_the_request_arguments<S: StorageReaderInterface>(
    storage: S,
    request: StorageServiceRequest,
    outcome: OutcomeFor<S>,
)
    requires
        storage_call(request) matches Some(c) && read_result(storage, c, outcome),
    ensures
        request matches StorageServiceRequest::GetTransactionsWithProof(q) ==> (outcome matches StorageOutcome::Transactions(
            r,
        ) && storage.transactions_read(
            q.proof_version,
            q.start_version,
            q.expected_num_transactions,
            q.include_events,
            r,
        )),
        request matches StorageServiceRequest::GetTransactionOutputsWithProof(q) ==> (outcome matches StorageOutcome::TransactionOutputs(
            r,
        ) && storage.transaction_outputs_read(q.proof_version, q.start_version, q.expected_num_outputs, r)),
        request matches StorageServiceRequest::GetAccountStatesChunkWithProof(q) ==> (outcome matches StorageOutcome::AccountStatesChunk(
            r,
        ) && storage.account_states_chunk_read(
            q.version,
            q.start_account_index,
            q.expected_num_account_states,
            r,
        )),
        request matches StorageServiceRequest::GetEpochEndingLedgerInfos(q) ==> (outcome matches StorageOutcome::EpochEndingLedgerInfos(
            r,
        ) && storage.epoch_ending_ledger_infos_read(q.start_epoch, q.expected_end_epoch, r)),
        request matches StorageServiceRequest::GetNumberOfAccountsAtVersion(v) ==> (outcome matches StorageOutcome::NumberOfAccounts(
            r,
        ) && storage.number_of_accounts_read(v, r)),
        request is GetStorageServerSummary ==> (outcome matches StorageOutcome::DataSummary(r)
            && storage.data_summary_read(r)),
{
}

/// What storage gave back reaches the client unchanged, in the response of its
/// kind: the data summary in full beside the server's chunk limits, and every
/// other payload as it is; every storage error becomes an internal error.
pub proof fn law_responses_carry_storage_results<A, E, L, O, T>(outcome: StorageOutcome<A, E, L, O, T>)
    ensures
        outcome matches StorageOutcome::DataSummary(Ok(d)) ==> response_for(Some(outcome)) == Ok::<
            StorageServiceResponse<A, E, L, O, T>,
            StorageServiceError,
        >(
            StorageServiceResponse::StorageServerSummary(
                (StorageServerSummary {
                    protocol_metadata: (ProtocolMetadata {
                        max_epoch_chunk_size: MAX_EPOCH_CHUNK_SIZE,
                        max_transaction_chunk_size: MAX_TRANSACTION_CHUNK_SIZE,
                        max_transaction_output_chunk_size: MAX_TRANSACTION_OUTPUT_CHUNK_SIZE,
                        max_account_states_chunk_size: MAX_ACCOUNT_STATES_CHUNK_SIZE,
                    }),
                    data_summary: d,
                }),
            ),
        ),
        outcome matches StorageOutcome::Transactions(Ok(t)) ==> response_for(Some(outcome)) == Ok::<
            StorageServiceResponse<A, E, L, O, T>,
            StorageServiceError,
        >(StorageServiceResponse::TransactionsWithProof(t)),
        outcome matches StorageOutcome::TransactionOutputs(Ok(o)) ==> response_for(Some(outcome)) == Ok::<
            StorageServiceResponse<A, E, L, O, T>,
            StorageServiceError,
        >(StorageServiceResponse::TransactionOutputsWithProof(o)),
        outcome matches StorageOutcome::AccountStatesChunk(Ok(a)) ==> response_for(Some(outcome)) == Ok::<
            StorageServiceResponse<A, E, L, O, T>,
            StorageServiceError,
        >(StorageServiceResponse::AccountStatesChunkWithProof(a)),
        outcome matches StorageOutcome::EpochEndingLedgerInfos(Ok(e)) ==> response_for(Some(outcome)) == Ok::<
            StorageServiceResponse<A, E, L, O, T>,
            StorageServiceError,
        >(StorageServiceResponse::EpochEndingLedgerInfos(e)),
        outcome matches StorageOutcome::NumberOfAccounts(Ok(n)) ==> response_for(Some(outcome)) == Ok::<
            StorageServiceResponse<A, E, L, O, T>,
            StorageServiceError,
        >(StorageServiceResponse::NumberOfAccountsAtVersion(n)),
        ({
            ||| outcome matches StorageOutcome::DataSummary(Err(_))
            ||| outcome matches StorageOutcome::Transactions(Err(_))
            ||| outcome matches StorageOutcome::TransactionOutputs(Err(_))
            ||| outcome matches StorageOutcome::AccountStatesChunk(Err(_))
            ||| outcome matches StorageOutcome::EpochEndingLedgerInfos(Err(_))
            ||| outcome matches StorageOutcome::NumberOfAccounts(Err(_))
        }) ==> response_for(Some(outcome)) == Err::<StorageServiceResponse<A, E, L, O, T>, StorageServiceError>(
            StorageServiceError::InternalError,
        ),
{
}

} // verus!
