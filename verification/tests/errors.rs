use lattice_storage::{
    LatticeState, LatticeStateBuilder, LatticeStateBuilderError, StorageEngineError, StorageError,
};
use serde_json::Value;

#[test]
fn engine_error_messages() {
    let text = || "x".to_string();
    assert_eq!(
        StorageEngineError::Engine(text()).to_string(),
        "Storage engine encountered an error: x"
    );
    assert_eq!(
        StorageEngineError::NotConnected(text()).to_string(),
        "Storage engine [x] not connected"
    );
    assert_eq!(
        StorageEngineError::NotImplemented(text()).to_string(),
        "Operation not implemented: x"
    );
    assert_eq!(StorageEngineError::Unknown.to_string(), "Unknown error has occured");
}

#[test]
fn storage_error_messages() {
    let text = || "x".to_string();
    assert_eq!(StorageError::Engine(text()).to_string(), "Storage error: x");
    assert_eq!(StorageError::NetworkError(text()).to_string(), "Network error: x");
    assert_eq!(
        StorageError::Unknown(text()).to_string(),
        "Unknown error has occured: x"
    );
}

#[test]
fn engine_error_from_nkeys_error() {
    let cause = nkeys::error::Error::new(
        nkeys::error::ErrorKind::ChecksumFailure,
        Some("Checksum mismatch"),
    );
    assert_eq!(
        StorageEngineError::from(cause).to_string(),
        "Storage engine encountered an error: failed to process nkeys: \
         Checksum match failure: Checksum mismatch"
    );
}

#[test]
fn engine_error_from_io_error() {
    let cause = std::io::Error::new(std::io::ErrorKind::Other, "disk");
    match StorageEngineError::from(cause) {
        StorageEngineError::Engine(text) => assert_eq!(text, "unexpected I/O error: disk"),
        other => panic!("{other:?}"),
    }
}

#[test]
fn storage_error_from_json_error() {
    let cause = serde_json::from_str::<bool>("[").unwrap_err();
    let shown = cause.to_string();
    match StorageError::from(cause) {
        StorageError::Unknown(text) => {
            assert_eq!(text, format!("de/serialization error occurred: {shown}"))
        }
        other => panic!("{other:?}"),
    }
}

#[test]
fn storage_errors_from_causes() {
    match StorageError::from_transfer("lost") {
        StorageError::Unknown(text) => assert_eq!(text, "de/serialization error occurred: lost"),
        other => panic!("{other:?}"),
    }
    match StorageError::from_missing_state("b") {
        StorageError::Engine(text) => assert_eq!(text, "No lattice state in bucket [b]"),
        other => panic!("{other:?}"),
    }
}

#[test]
fn builder_needs_both_parts() {
    let document = || Some(Value::Bool(true));
    let id = || Some("1".to_string());
    let LatticeState { id: built, document: rest } = LatticeStateBuilder {
        id: id(),
        document: document(),
    }
    .build()
    .unwrap();
    assert_eq!((built.as_str(), rest), ("1", Value::Bool(true)));
    let missing_id = LatticeStateBuilder { id: None, document: document() };
    assert_eq!(missing_id.build().unwrap_err().to_string(), "`id` must be initialized");
    let missing_document = LatticeStateBuilder { id: id(), document: None };
    assert_eq!(
        missing_document.build().unwrap_err().to_string(),
        "`document` must be initialized"
    );
    let empty = LatticeStateBuilder { id: None, document: None };
    assert_eq!(empty.build().unwrap_err().to_string(), "`id` must be initialized");
}

#[test]
fn storage_error_from_builder_error() {
    let missing = LatticeStateBuilderError::UninitializedField("id".to_string());
    match StorageError::from(missing) {
        StorageError::Unknown(text) => {
            assert_eq!(text, "failed to build lattice: `id` must be initialized")
        }
        other => panic!("{other:?}"),
    }
    let invalid = LatticeStateBuilderError::ValidationError("empty id".to_string());
    match StorageError::from(invalid) {
        StorageError::Unknown(text) => assert_eq!(text, "failed to build lattice: empty id"),
        other => panic!("{other:?}"),
    }
}
