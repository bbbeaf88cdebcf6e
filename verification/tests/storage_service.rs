use diem_core::storage_service::{
    data_summary_since_genesis, respond, storage_call_for, StorageCall, StorageOutcome, AccountStatesChunkWithProofRequest,
    CompleteDataRange, DataSummary, EpochEndingLedgerInfoRequest, Error, Handler,
    ProtocolMetadata, ServerProtocolVersion, StorageReaderInterface, StorageServiceError,
    StorageServiceRequest, StorageServiceResponse, TransactionOutputsWithProofRequest,
    TransactionsWithProofRequest, MAX_ACCOUNT_STATES_CHUNK_SIZE, MAX_CONCURRENT_REQUESTS,
    MAX_EPOCH_CHUNK_SIZE, MAX_TRANSACTION_CHUNK_SIZE, MAX_TRANSACTION_OUTPUT_CHUNK_SIZE,
    STORAGE_SERVER_VERSION,
};

/// A storage that records its arguments in its answers, or fails everywhere.
#[derive(Clone)]
struct MockStorage {
    fail: bool,
}

impl MockStorage {
    fn check(&self) -> Result<(), Error> {
        if self.fail {
            Err(Error::StorageErrorEncountered("disk on fire".to_string()))
        } else {
            Ok(())
        }
    }
}

impl StorageReaderInterface for MockStorage {
    type AccountStatesChunk = (u64, u64, u64);
    type EpochChangeProof = (u64, u64);
    type LedgerInfo = &'static str;
    type TransactionOutputList = (u64, u64, u64);
    type TransactionList = (u64, u64, u64, bool);

    fn data_summary_read(&self, r: Result<DataSummary<&'static str>, Error>) -> bool {
        r == self.get_data_summary()
    }

    fn transactions_read(
        &self,
        proof_version: u64,
        start_version: u64,
        expected_num_transactions: u64,
        include_events: bool,
        r: Result<(u64, u64, u64, bool), Error>,
    ) -> bool {
        r == self.get_transactions_with_proof(
            proof_version,
            start_version,
            expected_num_transactions,
            include_events,
        )
    }

    fn epoch_ending_ledger_infos_read(
        &self,
        start_epoch: u64,
        expected_end_epoch: u64,
        r: Result<(u64, u64), Error>,
    ) -> bool {
        r == self.get_epoch_ending_ledger_infos(start_epoch, expected_end_epoch)
    }

    fn transaction_outputs_read(
        &self,
        proof_version: u64,
        start_version: u64,
        expected_num_transaction_outputs: u64,
        r: Result<(u64, u64, u64), Error>,
    ) -> bool {
        r == self.get_transaction_outputs_with_proof(
            proof_version,
            start_version,
            expected_num_transaction_outputs,
        )
    }

    fn number_of_accounts_read(&self, version: u64, r: Result<u64, Error>) -> bool {
        r == self.get_number_of_accounts(version)
    }

    fn account_states_chunk_read(
        &self,
        version: u64,
        start_account_index: u64,
        expected_num_account_states: u64,
        r: Result<(u64, u64, u64), Error>,
    ) -> bool {
        r == self.get_account_states_chunk_with_proof(
            version,
            start_account_index,
            expected_num_account_states,
        )
    }

    fn get_data_summary(&self) -> Result<DataSummary<&'static str>, Error> {
        self.check()?;
        Ok(data_summary_since_genesis("li", 5, 100))
    }

    fn get_transactions_with_proof(
        &self,
        proof_version: u64,
        start_version: u64,
        expected_num_transactions: u64,
        include_events: bool,
    ) -> Result<(u64, u64, u64, bool), Error> {
        self.check()?;
        Ok((proof_version, start_version, expected_num_transactions, include_events))
    }

    fn get_epoch_ending_ledger_infos(
        &self,
        start_epoch: u64,
        expected_end_epoch: u64,
    ) -> Result<(u64, u64), Error> {
        self.check()?;
        Ok((start_epoch, expected_end_epoch))
    }

    fn get_transaction_outputs_with_proof(
        &self,
        proof_version: u64,
        start_version: u64,
        expected_num_transaction_outputs: u64,
    ) -> Result<(u64, u64, u64), Error> {
        self.check()?;
        Ok((proof_version, start_version, expected_num_transaction_outputs))
    }

    fn get_number_of_accounts(&self, version: u64) -> Result<u64, Error> {
        self.check()?;
        Ok(version * 2)
    }

    fn get_account_states_chunk_with_proof(
        &self,
        version: u64,
        start_account_index: u64,
        expected_num_account_states: u64,
    ) -> Result<(u64, u64, u64), Error> {
        self.check()?;
        Ok((version, start_account_index, expected_num_account_states))
    }
}

fn all_requests() -> Vec<StorageServiceRequest> {
    vec![
        StorageServiceRequest::GetAccountStatesChunkWithProof(AccountStatesChunkWithProofRequest {
            version: 7,
            start_account_index: 3,
            expected_num_account_states: 10,
        }),
        StorageServiceRequest::GetEpochEndingLedgerInfos(EpochEndingLedgerInfoRequest {
            start_epoch: 1,
            expected_end_epoch: 4,
        }),
        StorageServiceRequest::GetNumberOfAccountsAtVersion(21),
        StorageServiceRequest::GetServerProtocolVersion,
        StorageServiceRequest::GetStorageServerSummary,
        StorageServiceRequest::GetTransactionOutputsWithProof(TransactionOutputsWithProofRequest {
            proof_version: 50,
            start_version: 40,
            expected_num_outputs: 5,
        }),
        StorageServiceRequest::GetTransactionsWithProof(TransactionsWithProofRequest {
            proof_version: 60,
            start_version: 30,
            expected_num_transactions: 6,
            include_events: true,
        }),
    ]
}

#[test]
fn test_handler_answers_each_request_from_storage() {
    let handler = Handler::new(MockStorage { fail: false });
    let responses: Vec<_> = all_requests()
        .into_iter()
        .map(|r| handler.call(r).unwrap())
        .collect();
    assert_eq!(
        responses[0],
        StorageServiceResponse::AccountStatesChunkWithProof((7, 3, 10))
    );
    assert_eq!(responses[1], StorageServiceResponse::EpochEndingLedgerInfos((1, 4)));
    assert_eq!(responses[2], StorageServiceResponse::NumberOfAccountsAtVersion(42));
    assert_eq!(
        responses[3],
        StorageServiceResponse::ServerProtocolVersion(ServerProtocolVersion {
            protocol_version: 1
        })
    );
    match &responses[4] {
        StorageServiceResponse::StorageServerSummary(summary) => {
            assert_eq!(
                summary.protocol_metadata,
                ProtocolMetadata {
                    max_epoch_chunk_size: 1000,
                    max_transaction_chunk_size: 1000,
                    max_transaction_output_chunk_size: 1000,
                    max_account_states_chunk_size: 1000,
                }
            );
            assert_eq!(summary.data_summary.synced_ledger_info, "li");
        }
        other => panic!("unexpected response {:?}", other),
    }
    assert_eq!(
        responses[5],
        StorageServiceResponse::TransactionOutputsWithProof((50, 40, 5))
    );
    assert_eq!(
        responses[6],
        StorageServiceResponse::TransactionsWithProof((60, 30, 6, true))
    );
}

#[test]
fn test_mock_reads_hold_their_relations() {
    let storage = MockStorage { fail: false };
    assert!(storage.transactions_read(1, 2, 3, false, Ok((1, 2, 3, false))));
    assert!(!storage.transactions_read(1, 2, 3, false, Ok((2, 1, 3, true))));
    assert!(storage.number_of_accounts_read(4, Ok(8)));
}

#[test]
fn test_handler_hides_storage_errors() {
    let handler = Handler::new(MockStorage { fail: true });
    for request in all_requests() {
        let result = handler.call(request);
        if request == StorageServiceRequest::GetServerProtocolVersion {
            assert!(result.is_ok());
        } else {
            assert_eq!(result, Err(StorageServiceError::InternalError));
        }
    }
}

#[test]
fn test_data_summary_since_genesis() {
    let summary = data_summary_since_genesis(9u8, 5, 100);
    assert_eq!(summary.synced_ledger_info, 9);
    assert_eq!(summary.epoch_ending_ledger_infos, CompleteDataRange::new(0, 4));
    assert_eq!(summary.transactions, CompleteDataRange { lowest: 0, highest: 100 });
    assert_eq!(summary.transaction_outputs, CompleteDataRange::new(0, 100));
    assert_eq!(summary.account_states, CompleteDataRange::new(0, 100));
}

#[test]
fn test_constants_and_error_messages() {
    assert_eq!(STORAGE_SERVER_VERSION, 1);
    assert_eq!(MAX_CONCURRENT_REQUESTS, 100);
    assert_eq!(MAX_EPOCH_CHUNK_SIZE, 1000);
    assert_eq!(MAX_TRANSACTION_CHUNK_SIZE, 1000);
    assert_eq!(MAX_TRANSACTION_OUTPUT_CHUNK_SIZE, 1000);
    assert_eq!(MAX_ACCOUNT_STATES_CHUNK_SIZE, 1000);
    assert_eq!(
        Error::StorageErrorEncountered("x".to_string()).message(),
        "Storage error encountered: x"
    );
    assert_eq!(
        Error::UnexpectedErrorEncountered("y".to_string()).message(),
        "Unexpected error encountered: y"
    );
}

#[test]
fn test_storage_call_for_requests() {
    let requests = all_requests();
    assert_eq!(
        storage_call_for(requests[0]),
        Some(StorageCall::AccountStatesChunk {
            version: 7,
            start_account_index: 3,
            expected_num_account_states: 10
        })
    );
    assert_eq!(storage_call_for(requests[3]), None);
    assert_eq!(storage_call_for(requests[4]), Some(StorageCall::DataSummary));
    assert_eq!(
        storage_call_for(requests[6]),
        Some(StorageCall::Transactions {
            proof_version: 60,
            start_version: 30,
            expected_num_transactions: 6,
            include_events: true
        })
    );
}

#[test]
fn test_respond_maps_outcomes() {
    assert_eq!(
        respond::<u8, u8, u8, u8, u8>(None),
        Ok(StorageServiceResponse::ServerProtocolVersion(ServerProtocolVersion {
            protocol_version: 1
        }))
    );
    let failed: StorageOutcome<u8, u8, u8, u8, u8> =
        StorageOutcome::NumberOfAccounts(Err(Error::UnexpectedErrorEncountered("z".to_string())));
    assert_eq!(respond(Some(failed)), Err(StorageServiceError::InternalError));
    let counted: StorageOutcome<u8, u8, u8, u8, u8> = StorageOutcome::NumberOfAccounts(Ok(12));
    assert_eq!(
        respond(Some(counted)),
        Ok(StorageServiceResponse::NumberOfAccountsAtVersion(12))
    );
}
