//! The error taxonomy of the credential storage service: opaque backend
//! failures, a failed write verification, and a failed encoding of the
//! record.

use vstd::prelude::*;
use vstd::string::StringExecFns;

verus! {

/// An opaque error reported by the secure-storage backend: an I/O failure,
/// permission denial, or an unavailable backend, carried as its description.
#[derive(Debug, Clone)]
pub struct SecretStorageError {
    pub message: String,
}

/// An error of the credential storage service.
#[derive(Debug, Clone)]
pub enum AuthError {
    /// The secure-storage backend itself reported a failure.
    StorageError(SecretStorageError),
    /// A write appeared to succeed but the mandatory read-back did not
    /// confirm it, even after exhausting all retries.
    VerificationFailed,
    /// The credential record could not be encoded or decoded.
    SerializationError,
}

impl AuthError {
    /// The human-readable description of this error.
    pub open spec fn spec_message(&self) -> Seq<char> {
        match self {
            AuthError::StorageError(e) => "Secure storage error: "@ + e.message@,
            AuthError::VerificationFailed => "Credential verification failed"@,
            AuthError::SerializationError => "Credential serialization failed"@,
        }
    }

    pub fn message(&self) -> (r: String)
        ensures
            r@ == self.spec_message(),
    {
        match self {
            AuthError::StorageError(e) => String::from_str("Secure storage error: ").concat(
                e.message.as_str(),
            ),
            AuthError::VerificationFailed => String::from_str("Credential verification failed"),
            AuthError::SerializationError => String::from_str("Credential serialization failed"),
        }
    }
}

impl From<SecretStorageError> for AuthError {
    /// A bare backend error propagates as a storage error.
    fn from(e: SecretStorageError) -> (r: AuthError)
        ensures
            r == AuthError::StorageError(e),
    {
        AuthError::StorageError(e)
    }
}

impl vstd::std_specs::convert::FromSpecImpl<SecretStorageError> for AuthError {
    open spec fn obeys_from_spec() -> bool {
        true
    }

    open spec fn from_spec(e: SecretStorageError) -> AuthError {
        AuthError::StorageError(e)
    }
}

} // verus!
