//! Failure taxonomy shared by the codec, the dispatcher, the proxies and the
//! registration bridge, and its mapping onto integer status codes.

use vstd::prelude::*;

verus! {

/// Status code of a request that was carried out.
pub const STATUS_OK: i32 = 0;

/// Why an operation of this library failed.
#[derive(Clone, Copy, Debug, PartialEq, Eq, Structural)]
pub enum IpcError {
    /// A payload was too short or its bytes do not form a value of the requested type.
    DecodeError,
    /// The channel could not carry a request or its reply.
    TransportError,
    /// The operation code is not in the service's mapping, or a dispatch
    /// target was offered to a service that has stopped.
    DispatchRejected,
    /// The manager refused to construct or register the service.
    RegistrationFailed,
    /// A value does not fit in what is left of a payload's capacity.
    CapacityExceeded,
}

/// Result of an operation that may fail with an [`IpcError`].
pub type IpcResult<T> = Result<T, IpcError>;

impl IpcError {
    /// The non-zero status code that stands for this failure at the transport boundary.
    pub open spec fn spec_status_code(self) -> i32 {
        match self {
            IpcError::DecodeError => 1,
            IpcError::TransportError => 2,
            IpcError::DispatchRejected => 3,
            IpcError::RegistrationFailed => 4,
            IpcError::CapacityExceeded => 5,
        }
    }

    /// The failure a status code stands for; `None` for success and for codes outside the taxonomy.
    pub open spec fn spec_from_status_code(code: i32) -> Option<IpcError> {
        if code == 1 {
            Some(IpcError::DecodeError)
        } else if code == 2 {
            Some(IpcError::TransportError)
        } else if code == 3 {
            Some(IpcError::DispatchRejected)
        } else if code == 4 {
            Some(IpcError::RegistrationFailed)
        } else if code == 5 {
            Some(IpcError::CapacityExceeded)
        } else {
            None
        }
    }

    /// Whether a caller may reasonably try again: only channel failures can be transient.
    pub open spec fn spec_is_transient(self) -> bool {
        self == IpcError::TransportError
    }

    /// Whether the failure is a local protocol violation, which is definitive.
    pub open spec fn spec_is_protocol_violation(self) -> bool {
        self == IpcError::DecodeError || self == IpcError::DispatchRejected
    }

    /// The non-zero status code that stands for this failure.
    #[verifier::when_used_as_spec(spec_status_code)]
    pub fn status_code(self) -> (code: i32)
        ensures
            code == self.spec_status_code(),
            code != STATUS_OK,
    {
        match self {
            IpcError::DecodeError => 1,
            IpcError::TransportError => 2,
            IpcError::DispatchRejected => 3,
            IpcError::RegistrationFailed => 4,
            IpcError::CapacityExceeded => 5,
        }
    }

    /// The failure a status code stands for; `None` for success and for codes
    /// outside the taxonomy.
    pub fn from_status_code(code: i32) -> (r: Option<IpcError>)
        ensures
            r == Self::spec_from_status_code(code),
    {
        if code == 1 {
            Some(IpcError::DecodeError)
        } else if code == 2 {
            Some(IpcError::TransportError)
        } else if code == 3 {
            Some(IpcError::DispatchRejected)
        } else if code == 4 {
            Some(IpcError::RegistrationFailed)
        } else if code == 5 {
            Some(IpcError::CapacityExceeded)
        } else {
            None
        }
    }

    /// Whether a caller may reasonably try again.
    #[verifier::when_used_as_spec(spec_is_transient)]
    pub fn is_transient(self) -> (r: bool)
        ensures
            r == self.spec_is_transient(),
    {
        match self {
            IpcError::TransportError => true,
            _ => false,
        }
    }

    /// Whether the failure is a local protocol violation, which is definitive.
    #[verifier::when_used_as_spec(spec_is_protocol_violation)]
    pub fn is_protocol_violation(self) -> (r: bool)
        ensures
            r == self.spec_is_protocol_violation(),
    {
        match self {
            IpcError::DecodeError => true,
            IpcError::DispatchRejected => true,
            _ => false,
        }
    }

    /// Status codes and failures correspond one to one.
    pub proof fn lemma_status_code_round_trip(self)
        ensures
            Self::spec_from_status_code(self.spec_status_code()) == Some(self),
    {
    }

    /// A status code that names a failure is the code of that failure.
    pub proof fn lemma_from_status_code_inverse(code: i32)
        ensures
            Self::spec_from_status_code(code) matches Some(e) ==> e.spec_status_code() == code,
            code == STATUS_OK ==> Self::spec_from_status_code(code) is None,
    {
    }
}

/// The status code that reports `r` at the transport boundary: zero for
/// success, the failure's code otherwise.
pub open spec fn spec_status_of(r: Result<(), IpcError>) -> i32 {
    match r {
        Ok(_) => STATUS_OK,
        Err(e) => e.spec_status_code(),
    }
}

/// The status code that reports `r`.
#[verifier::when_used_as_spec(spec_status_of)]
pub fn status_of(r: Result<(), IpcError>) -> (code: i32)
    ensures
        code == spec_status_of(r),
        (code == STATUS_OK) == (r is Ok),
{
    match r {
        Ok(_) => STATUS_OK,
        Err(e) => e.status_code(),
    }
}

} // verus!
