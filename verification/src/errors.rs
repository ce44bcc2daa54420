//! Error taxonomy: a closed set of error kinds for the entity's session
//! handling, plus the client-side and utility error types.

use vstd::prelude::*;
use vstd::string::StringExecFns;

verus! {

/// Errors returned by the state entity's session operations.
#[derive(Clone, Copy, Debug, PartialEq, Eq, Structural)]
pub enum SeError {
    /// Unknown or unauthorized session id.
    AuthError,
    /// Malformed hex, address or amount input.
    FormatError,
    /// Encryption or decryption failure, invalid scalar, inversion failure.
    CryptoError,
    /// A record that was expected to exist was not found.
    RecordNotFound,
    /// A transfer step attempted with no, or a duplicate, `Initiated` state.
    ProtocolStateError,
    /// A failure of the external store or network layer.
    UpstreamError,
}

impl SeError {
    /// A fixed machine-readable description of the error kind.
    pub fn as_str(&self) -> (r: &'static str)
        ensures
            r@ == self.str_spec(),
    {
        match self {
            SeError::AuthError => "authentication failed",
            SeError::FormatError => "malformed input",
            SeError::CryptoError => "cryptographic operation failed",
            SeError::RecordNotFound => "record not found",
            SeError::ProtocolStateError => "invalid transfer state",
            SeError::UpstreamError => "upstream failure",
        }
    }

    pub open spec fn str_spec(self) -> Seq<char> {
        match self {
            SeError::AuthError => "authentication failed"@,
            SeError::FormatError => "malformed input"@,
            SeError::CryptoError => "cryptographic operation failed"@,
            SeError::RecordNotFound => "record not found"@,
            SeError::ProtocolStateError => "invalid transfer state"@,
            SeError::UpstreamError => "upstream failure"@,
        }
    }
}

/// Client-side errors.
#[derive(Debug)]
pub enum CError {
    /// Wallet error of a given type, with the offending value.
    WalletError(WalletErrorType, String),
    /// State entity authorisation failed.
    StateEntityError(String),
    /// Schnorr signing error.
    SchnorrError(String),
    /// Generic error from a string message.
    Generic(String),
    /// Error inherited from key-derivation handling.
    Bip32(String),
    /// Error inherited from the transport layer.
    Reqwest(String),
}

impl CError {
    /// The error rendered as one line of text, kind first.
    pub fn to_message(&self) -> (r: String)
        ensures
            self matches CError::Generic(e) ==> r@ == "generic Error: "@ + e@,
            self matches CError::WalletError(k, v) ==> r@ == "Wallet Error: "@
                + "No shared wallet found."@ + " (value: "@ + v@ + ")"@,
            self matches CError::StateEntityError(e) ==> r@ == "State Entity Error: "@ + e@,
            self matches CError::SchnorrError(e) ==> r@ == "Schnorr Error: "@ + e@,
            self matches CError::Bip32(e) ==> r@ == "Bip32 Error: "@ + e@,
            self matches CError::Reqwest(e) ==> r@ == "Reqwest Error: "@ + e@,
    {
        match self {
            CError::Generic(e) => "generic Error: ".to_owned().concat(e.as_str()),
            CError::StateEntityError(e) => "State Entity Error: ".to_owned().concat(e.as_str()),
            CError::SchnorrError(e) => "Schnorr Error: ".to_owned().concat(e.as_str()),
            CError::WalletError(kind, value) => "Wallet Error: ".to_owned().concat(
                kind.as_str(),
            ).concat(" (value: ").concat(value.as_str()).concat(")"),
            CError::Bip32(e) => "Bip32 Error: ".to_owned().concat(e.as_str()),
            CError::Reqwest(e) => "Reqwest Error: ".to_owned().concat(e.as_str()),
        }
    }
}

impl From<String> for CError {
    fn from(e: String) -> (r: CError) {
        CError::Generic(e)
    }
}

impl vstd::std_specs::convert::FromSpecImpl<String> for CError {
    open spec fn obeys_from_spec() -> bool {
        true
    }

    open spec fn from_spec(e: String) -> CError {
        CError::Generic(e)
    }
}

/// Input parameter error types of the client wallet.
#[derive(Clone, Copy, Debug, PartialEq, Eq, Structural)]
pub enum WalletErrorType {
    /// No shared wallet found for the given id.
    SharedWalletNotFound,
}

impl WalletErrorType {
    pub fn as_str(&self) -> (r: &'static str)
        ensures
            self is SharedWalletNotFound ==> r@ == "No shared wallet found."@,
    {
        match self {
            WalletErrorType::SharedWalletNotFound => "No shared wallet found.",
        }
    }
}

/// Utility errors shared by client and server.
#[derive(Debug)]
pub enum UtilError {
    /// Generic error from a string message.
    Generic(String),
    /// Invalid argument.
    FormatError(String),
}

impl UtilError {
    /// The error rendered as one line of text, kind first.
    pub fn to_message(&self) -> (r: String)
        ensures
            self matches UtilError::Generic(e) ==> r@ == "generic Error: "@ + e@,
            self matches UtilError::FormatError(e) ==> r@ == "Format Error: "@ + e@,
    {
        match self {
            UtilError::Generic(e) => "generic Error: ".to_owned().concat(e.as_str()),
            UtilError::FormatError(e) => "Format Error: ".to_owned().concat(e.as_str()),
        }
    }
}

impl From<String> for UtilError {
    fn from(e: String) -> (r: UtilError) {
        UtilError::Generic(e)
    }
}

impl vstd::std_specs::convert::FromSpecImpl<String> for UtilError {
    open spec fn obeys_from_spec() -> bool {
        true
    }

    open spec fn from_spec(e: String) -> UtilError {
        UtilError::Generic(e)
    }
}

} // verus!
