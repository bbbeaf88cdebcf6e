use diem_core::data_client::{Error, OptimalChunkSizes, ResponseError};

#[test]
fn test_data_client_error_messages() {
    assert_eq!(
        Error::DataIsUnavailable("v5".to_string()).message(),
        "The requested data is unavailable and cannot be found! Error: v5"
    );
    assert_eq!(
        Error::DataIsTooLarge("9 epochs".to_string()).message(),
        "The requested data is too large: 9 epochs"
    );
    assert_eq!(
        Error::TimeoutWaitingForResponse("1s".to_string()).message(),
        "Timed out waiting for a response: 1s"
    );
    assert_eq!(
        Error::UnexpectedErrorEncountered("?".to_string()).message(),
        "Unexpected error encountered: ?"
    );
}

#[test]
fn test_data_client_values() {
    let sizes = OptimalChunkSizes {
        account_states_chunk_size: 1,
        epoch_chunk_size: 2,
        transaction_chunk_size: 3,
        transaction_output_chunk_size: 4,
    };
    assert_eq!(sizes, sizes.clone());
    assert_ne!(ResponseError::InvalidData, ResponseError::MissingData);
    assert_ne!(ResponseError::MissingData, ResponseError::ProofVerificationError);
}
