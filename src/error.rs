//! The failures that this library reports itself. Errors that the exchange
//! reports arrive inside the JSON text of a successful response.

use vstd::prelude::*;

verus! {

/// A failure on this side of the connection.
#[derive(Debug, Clone, PartialEq, Eq)]
pub enum ApiError {
    /// The account secret is not 88 characters long; no request was sent.
    CredentialFormat,
    /// openssl refused the secret, or failed while hashing or signing.
    SigningFailure,
    /// An argument is outside the values that the end-point accepts.
    InvalidArgument,
    /// The transport failed; the text says why.
    Transport(String),
}

/// The human-readable explanation of an error.
pub open spec fn error_text(e: ApiError) -> Seq<char> {
    match e {
        ApiError::CredentialFormat => "private key must be 88 characters long"@,
        ApiError::SigningFailure => "could not compute the request signature"@,
        ApiError::InvalidArgument => "argument outside the values the end-point accepts"@,
        ApiError::Transport(s) => s@,
    }
}

impl ApiError {
    /// The human-readable explanation of this error.
    pub fn message(&self) -> (r: String)
        ensures
            r@ == error_text(*self),
    {
        match self {
            ApiError::CredentialFormat => "private key must be 88 characters long".to_string(),
            ApiError::SigningFailure => "could not compute the request signature".to_string(),
            ApiError::InvalidArgument =>
                "argument outside the values the end-point accepts".to_string(),
            ApiError::Transport(s) => s.clone(),
        }
    }
}

} // verus!
