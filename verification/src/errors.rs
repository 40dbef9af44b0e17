//! The error taxonomy of the attestation flow.
//!
//! Every variant is recoverable: it is surfaced to the user through the
//! session's `last_error` field and leaves the rest of the session unchanged.
//! An action attempted out of sequence is not an error at all: the session
//! treats it as a silent no-op.

use vstd::prelude::*;

verus! {

/// Why an identity-link or signing step failed.
#[derive(Clone, Copy, Debug, PartialEq, Eq, Structural)]
pub enum AttestError {
    /// No signing authority was detected in the host environment.
    ProviderAbsent,
    /// The provider's own consent flow was declined by the user.
    UserRejected,
    /// The provider declined to sign the message.
    SigningRejected,
    /// The provider, or the assembly step itself, failed internally.
    SigningFailed,
}

impl AttestError {
    /// A display string for the error, for the surrounding user interface.
    pub fn text(&self) -> (r: &'static str)
        ensures
            *self == AttestError::ProviderAbsent ==> r@ == "provider absent"@,
            *self == AttestError::UserRejected ==> r@ == "user rejected"@,
            *self == AttestError::SigningRejected ==> r@ == "signing rejected"@,
            *self == AttestError::SigningFailed ==> r@ == "signing failed"@,
    {
        match self {
            AttestError::ProviderAbsent => "provider absent",
            AttestError::UserRejected => "user rejected",
            AttestError::SigningRejected => "signing rejected",
            AttestError::SigningFailed => "signing failed",
        }
    }
}

} // verus!
