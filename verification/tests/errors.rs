use greptimedb_ffi::error::{Error, ErrorExt, StatusCode};

struct Plain;

impl ErrorExt for Plain {}

#[test]
fn status_codes_are_the_stable_integers() {
    assert_eq!(StatusCode::Success.code(), 0);
    assert_eq!(StatusCode::Unknown.code(), 1000);
    assert_eq!(StatusCode::ServerUnavailable.code(), 1001);
    assert_eq!(StatusCode::InvalidArgument.code(), 1002);
    assert_eq!(StatusCode::InvalidPointer.code(), 1003);
    assert_eq!(StatusCode::IllegalState.code(), 1004);
}

#[test]
fn status_code_reads_back_from_its_integer() {
    let all = [
        StatusCode::Success,
        StatusCode::Unknown,
        StatusCode::ServerUnavailable,
        StatusCode::InvalidArgument,
        StatusCode::InvalidPointer,
        StatusCode::IllegalState,
    ];
    for s in all {
        assert_eq!(StatusCode::from_code(s.code()), Some(s));
    }
    assert_eq!(StatusCode::from_code(1), None);
    assert_eq!(StatusCode::from_code(999), None);
    assert_eq!(StatusCode::from_code(1005), None);
    assert_eq!(StatusCode::from_code(-1), None);
}

#[test]
fn status_code_names() {
    assert_eq!(StatusCode::Success.name(), "Success");
    assert_eq!(StatusCode::Unknown.name(), "Unknown");
    assert_eq!(StatusCode::ServerUnavailable.name(), "ServerUnavailable");
    assert_eq!(StatusCode::InvalidArgument.name(), "InvalidArgument");
    assert_eq!(StatusCode::InvalidPointer.name(), "InvalidPointer");
    assert_eq!(StatusCode::IllegalState.name(), "IllegalState");
    assert_eq!(StatusCode::IllegalState.name(), format!("{:?}", StatusCode::IllegalState));
}

#[test]
fn every_error_has_its_status() {
    assert_eq!(
        Error::CreateStreamInserter { grpc_endpoint: "localhost:4001".to_string() }.status_code(),
        StatusCode::ServerUnavailable
    );
    assert_eq!(Error::UnsupportedDataType { data_type: 11 }.status_code(), StatusCode::InvalidArgument);
    assert_eq!(Error::ClientStopped.status_code(), StatusCode::IllegalState);
    assert_eq!(Error::SendRequest.status_code(), StatusCode::Unknown);
    assert_eq!(
        Error::SchemaMismatch { value_len: 1, schema_len: 2 }.status_code(),
        StatusCode::InvalidArgument
    );
    assert_eq!(Error::NullPointer.status_code(), StatusCode::InvalidPointer);
    assert_eq!(Error::WorkerFailed.status_code(), StatusCode::Unknown);
    assert_eq!(Error::InvalidCString.status_code(), StatusCode::InvalidArgument);
    assert_eq!(
        Error::InvalidColumnDef { name: "c".to_string(), data_type: 99, semantic_type: 0 }.status_code(),
        StatusCode::InvalidArgument
    );
}

#[test]
fn no_error_is_reported_as_success() {
    let errors = vec![
        Error::CreateStreamInserter { grpc_endpoint: String::new() },
        Error::UnsupportedDataType { data_type: 0 },
        Error::ClientStopped,
        Error::SendRequest,
        Error::SchemaMismatch { value_len: 0, schema_len: 1 },
        Error::NullPointer,
        Error::InvalidCString,
        Error::InvalidColumnDef { name: String::new(), data_type: 0, semantic_type: 9 },
        Error::WorkerFailed,
    ];
    for e in errors {
        assert_ne!(e.status_code(), StatusCode::Success);
        assert_ne!(e.status_code().code(), 0);
    }
}

#[test]
fn a_failure_without_a_status_of_its_own_is_unknown() {
    assert_eq!(Plain.status_code(), StatusCode::Unknown);
    assert_eq!(Plain.status_code().code(), 1000);
}
