//! Tests of parsing utilities, record tags and error types.

use statechain::CError;
use statechain::ECIESError;
use statechain::SeError;
use statechain::StateChainStruct;
use statechain::StateEntityStruct;
use statechain::UtilError;
use statechain::WalletErrorType;
use statechain::parse_txid;
use statechain::reverse_hex_str;

#[test]
fn reverse_hex_pairs() {
    assert_eq!(reverse_hex_str("abcdef".to_string()).unwrap(), "efcdab");
    assert_eq!(reverse_hex_str("00ff".to_string()).unwrap(), "ff00");
    assert_eq!(reverse_hex_str("".to_string()).unwrap(), "");
}

#[test]
fn reverse_hex_rejects_odd_length() {
    match reverse_hex_str("abc".to_string()) {
        Err(UtilError::FormatError(m)) => {
            assert_eq!(m, "Invalid sig hash - Odd number of characters.");
        }
        other => panic!("expected FormatError, got {:?}", other),
    }
}

#[test]
fn txid_parses_and_reverses() {
    let mut s = "00".repeat(31);
    s.push_str("ff");
    let b = parse_txid(&s).unwrap();
    assert_eq!(b.len(), 32);
    // The final displayed pair is the first internal byte.
    assert_eq!(b[0], 0xff);
    for i in 1..32 {
        assert_eq!(b[i], 0);
    }

    assert_eq!(parse_txid("ab").unwrap_err(), SeError::FormatError);
    assert_eq!(parse_txid(&"zz".repeat(32)).unwrap_err(), SeError::FormatError);
    let upper = "AB".repeat(32);
    assert_eq!(parse_txid(&upper).unwrap()[0], 0xab);
}

#[test]
fn record_kind_tags() {
    assert_eq!(StateEntityStruct::StateEntity.to_string(), "StateEntityStateEntity");
    assert_eq!(StateChainStruct::UserSession.to_string(), "StateChainUserSession");
    assert_eq!(StateChainStruct::SessionData.to_string(), "StateChainSessionData");
    assert_eq!(StateChainStruct::StateChain.to_string(), "StateChainStateChain");
}

#[test]
fn error_conversions() {
    match CError::from("boom".to_string()) {
        CError::Generic(m) => assert_eq!(m, "boom"),
        other => panic!("expected Generic, got {:?}", other),
    }
    match UtilError::from("boom".to_string()) {
        UtilError::Generic(m) => assert_eq!(m, "boom"),
        other => panic!("expected Generic, got {:?}", other),
    }
    match ECIESError::from("boom".to_string()) {
        ECIESError::Generic(m) => assert_eq!(m, "boom"),
        other => panic!("expected Generic, got {:?}", other),
    }
}

#[test]
fn error_messages() {
    assert_eq!(CError::Generic("oops".to_string()).to_message(), "generic Error: oops");
    assert_eq!(
        CError::WalletError(WalletErrorType::SharedWalletNotFound, "w1".to_string()).to_message(),
        "Wallet Error: No shared wallet found. (value: w1)"
    );
    assert_eq!(CError::Bip32("bad path".to_string()).to_message(), "Bip32 Error: bad path");
    assert_eq!(
        UtilError::FormatError("bad hex".to_string()).to_message(),
        "Format Error: bad hex"
    );
    assert_eq!(
        ECIESError::EncryptionError("bad key".to_string()).to_message(),
        "EncryptionError: bad key"
    );
}

#[test]
fn error_descriptions() {
    assert_eq!(WalletErrorType::SharedWalletNotFound.as_str(), "No shared wallet found.");
    assert_eq!(SeError::AuthError.as_str(), "authentication failed");
    assert_eq!(SeError::FormatError.as_str(), "malformed input");
    assert_eq!(SeError::CryptoError.as_str(), "cryptographic operation failed");
    assert_eq!(SeError::RecordNotFound.as_str(), "record not found");
    assert_eq!(SeError::ProtocolStateError.as_str(), "invalid transfer state");
    assert_eq!(SeError::UpstreamError.as_str(), "upstream failure");
}
