//! Tests of the session, deposit and transfer orchestration.

use statechain::DepositMessage1;
use statechain::Record;
use statechain::RecordKind;
use statechain::Scalar;
use statechain::ScalarField;
use statechain::SeError;
use statechain::SessionStore;
use statechain::StateEntity;
use statechain::TransferMsg1;
use statechain::TransferStatus;
use statechain::check_user_auth;
use statechain::compute_t1;
use statechain::decrypt;
use statechain::deposit_first;
use statechain::generate_keypair;
use statechain::get_receiver_pubkey;
use statechain::session_init;
use statechain::transfer_init;
use statechain::transfer_receiver;
use statechain::transfer_sender;

fn field() -> ScalarField {
    ScalarField::new(2305843009213693951).unwrap()
}

fn deposit_msg(amount: u64) -> DepositMessage1 {
    DepositMessage1 {
        p_addr: "3J98t1WpEZ73CNmQviecrnyiWrnqRhWNLy".to_string(),
        tx_b_input_txid: "aa".repeat(32),
        tx_b_input_vout: 0,
        tx_b_input_seq: 0xFFFFFFFF,
        tx_b_address: "1BvBMSEYstWetqTFn5Au4m4GFg7xJaNVN2".to_string(),
        tx_b_amount: amount,
    }
}

fn stored_sighash(store: &SessionStore, sub: &String, id: &String) -> Vec<u8> {
    match store.get(sub, RecordKind::SessionData, id) {
        Some(Record::Session(sd)) => sd.sig_hash.clone(),
        _ => panic!("no session data"),
    }
}

#[test]
fn auth_gating() {
    let mut store = SessionStore::new();
    let sub = "server".to_string();
    let unknown_id = "not-a-session".to_string();
    assert_eq!(check_user_auth(&store, &sub, &unknown_id).unwrap_err(), SeError::AuthError);

    let id = session_init(&mut store, &sub);
    assert_eq!(id.len(), 36);
    let u = check_user_auth(&store, &sub, &id).unwrap();
    assert_eq!(u.id, id);

    // The same id under another subject namespace is still unknown.
    let other = "other".to_string();
    assert_eq!(check_user_auth(&store, &other, &id).unwrap_err(), SeError::AuthError);
}

#[test]
fn deposit_sighash_determinism() {
    let sub = "server".to_string();

    let mut s1 = SessionStore::new();
    let id1 = session_init(&mut s1, &sub);
    deposit_first(&mut s1, &sub, &id1, &deposit_msg(10000)).unwrap();

    let mut s2 = SessionStore::new();
    let id2 = session_init(&mut s2, &sub);
    deposit_first(&mut s2, &sub, &id2, &deposit_msg(10000)).unwrap();

    let h1 = stored_sighash(&s1, &sub, &id1);
    let h2 = stored_sighash(&s2, &sub, &id2);
    assert_eq!(h1.len(), 32);
    assert_eq!(h1, h2);

    // Changing any one field changes the hash.
    let mut s3 = SessionStore::new();
    let id3 = session_init(&mut s3, &sub);
    deposit_first(&mut s3, &sub, &id3, &deposit_msg(10001)).unwrap();
    assert_ne!(h1, stored_sighash(&s3, &sub, &id3));

    let mut s4 = SessionStore::new();
    let id4 = session_init(&mut s4, &sub);
    let mut m = deposit_msg(10000);
    m.tx_b_input_vout = 1;
    deposit_first(&mut s4, &sub, &id4, &m).unwrap();
    assert_ne!(h1, stored_sighash(&s4, &sub, &id4));

    // A different backup address locks to a different script.
    let mut s5 = SessionStore::new();
    let id5 = session_init(&mut s5, &sub);
    let mut m5 = deposit_msg(10000);
    m5.tx_b_address = "bc1qw508d6qejxtdg4y5r3zarvary0c5xw7kv8f3t4".to_string();
    deposit_first(&mut s5, &sub, &id5, &m5).unwrap();
    assert_ne!(h1, stored_sighash(&s5, &sub, &id5));

    // So does a different funding address.
    let mut s6 = SessionStore::new();
    let id6 = session_init(&mut s6, &sub);
    let mut m6 = deposit_msg(10000);
    m6.p_addr = "bc1qw508d6qejxtdg4y5r3zarvary0c5xw7kv8f3t4".to_string();
    deposit_first(&mut s6, &sub, &id6, &m6).unwrap();
    assert_ne!(h1, stored_sighash(&s6, &sub, &id6));
}

#[test]
fn deposit_rejects_bad_input() {
    let mut store = SessionStore::new();
    let sub = "server".to_string();
    let id = session_init(&mut store, &sub);

    let mut bad = deposit_msg(10000);
    bad.tx_b_input_txid = "zz".repeat(32);
    assert_eq!(deposit_first(&mut store, &sub, &id, &bad).unwrap_err(), SeError::FormatError);

    let mut bad2 = deposit_msg(10000);
    bad2.tx_b_address = "notanaddress".to_string();
    assert_eq!(deposit_first(&mut store, &sub, &id, &bad2).unwrap_err(), SeError::FormatError);

    let mut bad3 = deposit_msg(10000);
    bad3.tx_b_input_txid = "abc".to_string();
    assert_eq!(deposit_first(&mut store, &sub, &id, &bad3).unwrap_err(), SeError::FormatError);

    // No admission: auth is checked first.
    let stranger = "stranger-id".to_string();
    assert_eq!(
        deposit_first(&mut store, &sub, &stranger, &deposit_msg(10000)).unwrap_err(),
        SeError::AuthError
    );

    let chain = match store.get(&sub, RecordKind::StateChain, &"x".to_string()) {
        Some(_) => true,
        None => false,
    };
    assert!(!chain);
}

#[test]
fn single_inflight_transfer() {
    let f = field();
    let mut store = SessionStore::new();
    let sub = "server".to_string();
    let id = session_init(&mut store, &sub);
    deposit_first(&mut store, &sub, &id, &deposit_msg(10000)).unwrap();

    let msg1 = TransferMsg1 { id: id.clone(), receiver_proof_key: "proof-key-2".to_string() };
    let m2 = transfer_init(&mut store, &f, &sub, &msg1).unwrap();
    assert_ne!(m2.x1.v, 0);

    // A second init while one is in flight is refused, never superseded.
    assert_eq!(
        transfer_init(&mut store, &f, &sub, &msg1).unwrap_err(),
        SeError::ProtocolStateError
    );
}

#[test]
fn transfer_init_requires_auth_and_deposit() {
    let f = field();
    let mut store = SessionStore::new();
    let sub = "server".to_string();

    let msg1 = TransferMsg1 { id: "ghost".to_string(), receiver_proof_key: "pk".to_string() };
    assert_eq!(transfer_init(&mut store, &f, &sub, &msg1).unwrap_err(), SeError::AuthError);

    let id = session_init(&mut store, &sub);
    let msg2 = TransferMsg1 { id: id.clone(), receiver_proof_key: "pk".to_string() };
    assert_eq!(transfer_init(&mut store, &f, &sub, &msg2).unwrap_err(), SeError::RecordNotFound);
}

#[test]
fn full_transfer_preserves_joint_key() {
    let f = field();
    let mut store = SessionStore::new();
    let sub = "server".to_string();
    let id = session_init(&mut store, &sub);
    let scid = deposit_first(&mut store, &sub, &id, &deposit_msg(10000)).unwrap();

    let o1 = Scalar { v: 5 };
    let s1 = Scalar { v: 3 };
    let o2 = Scalar { v: 7 };

    let msg1 = TransferMsg1 { id: id.clone(), receiver_proof_key: "proof-key-2".to_string() };
    let m2 = transfer_init(&mut store, &f, &sub, &msg1).unwrap();

    let t1 = compute_t1(&f, o1, m2.x1, o2).unwrap();
    let s2 = transfer_receiver(&mut store, &f, &sub, &id, &scid, t1, s1).unwrap();

    // The joint key is preserved: o2 * s2 == o1 * s1.
    assert_eq!(f.mul(o2, s2), f.mul(o1, s1));

    // The history gained the receiver's proof key.
    match store.get(&sub, RecordKind::StateChain, &scid) {
        Some(Record::Chain(ch)) => {
            assert_eq!(ch.chain, vec![id.clone(), "proof-key-2".to_string()]);
        }
        _ => panic!("no chain"),
    }
    // The transfer state is terminal.
    match store.get(&sub, RecordKind::TransferState, &scid) {
        Some(Record::Transfer(ts)) => {
            assert_eq!(ts.status, TransferStatus::Completed);
            assert_eq!(ts.x1, m2.x1);
        }
        _ => panic!("no transfer state"),
    }
    // Finalizing again without a new init is refused.
    assert_eq!(
        transfer_receiver(&mut store, &f, &sub, &id, &scid, t1, s1).unwrap_err(),
        SeError::ProtocolStateError
    );
}

#[test]
fn nonce_non_reuse_across_transfers() {
    let f = ScalarField::new(2).unwrap();
    // In the field modulo 2 the only nonzero scalar is 1, so after one
    // transfer consumed the nonce 1 no fresh nonce can ever be issued.
    let mut store = SessionStore::new();
    let sub = "server".to_string();
    let id = session_init(&mut store, &sub);
    let scid = deposit_first(&mut store, &sub, &id, &deposit_msg(10000)).unwrap();

    let msg1 = TransferMsg1 { id: id.clone(), receiver_proof_key: "pk2".to_string() };
    let m2 = transfer_init(&mut store, &f, &sub, &msg1).unwrap();
    assert_eq!(m2.x1.v, 1);

    let o1 = Scalar { v: 1 };
    let s1 = Scalar { v: 1 };
    let o2 = Scalar { v: 1 };
    let t1 = compute_t1(&f, o1, m2.x1, o2).unwrap();
    transfer_receiver(&mut store, &f, &sub, &id, &scid, t1, s1).unwrap();

    // The nonce 1 was issued once; it is never issued again.
    assert_eq!(transfer_init(&mut store, &f, &sub, &msg1).unwrap_err(), SeError::CryptoError);
}

#[test]
fn second_transfer_gets_fresh_nonce() {
    let f = field();
    let mut store = SessionStore::new();
    let sub = "server".to_string();
    let id = session_init(&mut store, &sub);
    let scid = deposit_first(&mut store, &sub, &id, &deposit_msg(10000)).unwrap();

    let o1 = Scalar { v: 5 };
    let s1 = Scalar { v: 3 };
    let o2 = Scalar { v: 7 };

    let msg1 = TransferMsg1 { id: id.clone(), receiver_proof_key: "pk2".to_string() };
    let m2a = transfer_init(&mut store, &f, &sub, &msg1).unwrap();
    let t1 = compute_t1(&f, o1, m2a.x1, o2).unwrap();
    transfer_receiver(&mut store, &f, &sub, &id, &scid, t1, s1).unwrap();

    let m2b = transfer_init(&mut store, &f, &sub, &msg1).unwrap();
    assert_ne!(m2a.x1.v, m2b.x1.v);
}

#[test]
fn entity_pubkey_is_lazy_and_stable() {
    let mut store = SessionStore::new();
    let sub = "server".to_string();
    let pk1 = get_receiver_pubkey(&mut store, &sub).unwrap();
    let pk2 = get_receiver_pubkey(&mut store, &sub).unwrap();
    assert_eq!(pk1, pk2);
    assert_eq!(pk1.len(), 65);

    let se = StateEntity::from_db(&store, &sub).unwrap();
    assert_eq!(se.get_encryption_pubkey(), pk1);
}

#[test]
fn entity_slot_with_wrong_record_is_upstream_error() {
    let mut store = SessionStore::new();
    let sub = "server".to_string();
    store.insert(
        sub.clone(),
        RecordKind::StateEntity,
        statechain::state_entity_uuid().to_string(),
        Record::User(statechain::UserSession { id: "x".to_string() }),
    );
    assert_eq!(get_receiver_pubkey(&mut store, &sub).unwrap_err(), SeError::UpstreamError);
}

#[test]
fn entity_record_round_trip() {
    let mut store = SessionStore::new();
    let sub = "server".to_string();
    assert!(StateEntity::from_db(&store, &sub).is_none());

    let se = StateEntity::new();
    let pk = se.get_encryption_pubkey();
    se.insert_db(&mut store, &sub);

    let back = StateEntity::from_db(&store, &sub).unwrap();
    assert_eq!(back.get_encryption_pubkey(), pk);
}

#[test]
fn sender_payload_reaches_receiver() {
    let f = field();
    let o1 = Scalar { v: 12345 };
    let o2 = Scalar { v: 67890 };
    let x1 = Scalar { v: 424242 };

    let (sk, pk) = generate_keypair();
    let ct = transfer_sender(&f, o1, o2, x1, &pk).unwrap();
    let pt = decrypt(&ct, &sk).unwrap();
    assert_eq!(pt.len(), 8);

    let t1 = compute_t1(&f, o1, x1, o2).unwrap();
    assert_eq!(u64::from_le_bytes(pt.try_into().unwrap()), t1.v);
}
