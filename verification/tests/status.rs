use system_ability_fwk::status::{status_of, IpcError, STATUS_OK};

#[test]
fn status_codes_are_fixed_and_not_zero() {
    assert_eq!(STATUS_OK, 0);
    assert_eq!(IpcError::DecodeError.status_code(), 1);
    assert_eq!(IpcError::TransportError.status_code(), 2);
    assert_eq!(IpcError::DispatchRejected.status_code(), 3);
    assert_eq!(IpcError::RegistrationFailed.status_code(), 4);
    assert_eq!(IpcError::CapacityExceeded.status_code(), 5);
}

#[test]
fn status_codes_name_their_failure() {
    for e in [
        IpcError::DecodeError,
        IpcError::TransportError,
        IpcError::DispatchRejected,
        IpcError::RegistrationFailed,
        IpcError::CapacityExceeded,
    ] {
        assert_eq!(IpcError::from_status_code(e.status_code()), Some(e));
    }
    assert_eq!(IpcError::from_status_code(0), None);
    assert_eq!(IpcError::from_status_code(6), None);
    assert_eq!(IpcError::from_status_code(-1), None);
}

#[test]
fn only_channel_failures_are_transient() {
    assert!(IpcError::TransportError.is_transient());
    assert!(!IpcError::DecodeError.is_transient());
    assert!(!IpcError::DispatchRejected.is_transient());
    assert!(!IpcError::RegistrationFailed.is_transient());
    assert!(IpcError::DecodeError.is_protocol_violation());
    assert!(IpcError::DispatchRejected.is_protocol_violation());
    assert!(!IpcError::TransportError.is_protocol_violation());
    assert!(!IpcError::RegistrationFailed.is_protocol_violation());
}

#[test]
fn results_map_to_status() {
    assert_eq!(status_of(Ok(())), 0);
    assert_eq!(status_of(Err(IpcError::DecodeError)), 1);
    assert_eq!(status_of(Err(IpcError::DispatchRejected)), 3);
}
