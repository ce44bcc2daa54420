//! The transfer protocol steps: the entity issues a blinding nonce, the
//! sender blinds their share and sends it confidentially to the receiver,
//! and the entity finalizes by adopting its rotated share and appending the
//! new owner to the chain's history.

use vstd::prelude::*;
use crate::channel;
use crate::errors::SeError;
use crate::field::Scalar;
use crate::field::ScalarField;
use crate::field::mul_mod;
use crate::records::Record;
use crate::records::RecordKind;
use crate::records::TransferState;
use crate::records::TransferStatus;
use crate::rotation::compute_s2;
use crate::rotation::compute_t1;
use crate::session::auth_ok;
use crate::session::chain_key;
use crate::session::check_user_auth;
use crate::session::data_key;
use crate::session::transfer_key;
use crate::store::SessionStore;
use crate::store::StoreEntry;
use crate::store::entry_initiated;
use crate::store::entry_nonce;
use crate::store::is_transfer_entry;

verus! {

/// The first transfer message: the sender's session id and the receiver's
/// proof key.
#[derive(Debug)]
pub struct TransferMsg1 {
    pub id: String,
    pub receiver_proof_key: String,
}

/// The second transfer message: the blinding nonce issued by the entity.
#[derive(Debug)]
pub struct TransferMsg2 {
    pub x1: Scalar,
}

/// Relies on `rand::random`: a value drawn from the standard distribution.
/// Nothing is promised of it.
pub assume_specification<T>[ rand::random::<T> ]() -> (r: T)
    where
        rand::distributions::Standard: rand::distributions::Distribution<T>,
;

/// Whether a deposit record is stored for `(sub, id)`.
pub open spec fn session_ok(
    m: Map<(Seq<char>, RecordKind, Seq<char>), Record>,
    sub: Seq<char>,
    id: Seq<char>,
) -> bool {
    m.contains_key(data_key(sub, id)) && m[data_key(sub, id)] is Session
}

/// The state-chain id bound to the deposit record of `(sub, id)`.
pub open spec fn session_scid(
    m: Map<(Seq<char>, RecordKind, Seq<char>), Record>,
    sub: Seq<char>,
    id: Seq<char>,
) -> Seq<char>
    recommends
        session_ok(m, sub, id),
{
    m[data_key(sub, id)]->Session_0.state_chain_id@
}

/// Whether a transfer is in flight for the chain: an `Initiated` transfer
/// record is stored.
pub open spec fn inflight(
    m: Map<(Seq<char>, RecordKind, Seq<char>), Record>,
    sub: Seq<char>,
    scid: Seq<char>,
) -> bool {
    m.contains_key(transfer_key(sub, scid)) && (m[transfer_key(sub, scid)]
        matches Record::Transfer(ts) && ts.status is Initiated)
}

/// Whether a state-chain record is stored for the chain.
pub open spec fn chain_ok(
    m: Map<(Seq<char>, RecordKind, Seq<char>), Record>,
    sub: Seq<char>,
    scid: Seq<char>,
) -> bool {
    m.contains_key(chain_key(sub, scid)) && m[chain_key(sub, scid)] is Chain
}

/// Law: blinding nonces are never reused.  Appending an entry to the log
/// keeps the initiated nonces pairwise distinct, provided that if the entry
/// is itself an initiated transfer, its nonce does not occur anywhere in
/// the log yet.
pub proof fn lemma_nonce_non_reuse(log: Seq<StoreEntry>, sub: Seq<char>, e: StoreEntry)
    requires
        SessionStore::initiated_nonces_distinct(log, sub),
        (e.sub@ == sub && entry_initiated(e)) ==> !SessionStore::nonce_used(
            log,
            sub,
            entry_nonce(e),
        ),
    ensures
        SessionStore::initiated_nonces_distinct(log.push(e), sub),
{
    let nl = log.push(e);
    assert forall|i: int, j: int|
        (0 <= i < j < nl.len() && entry_initiated(nl[i]) && entry_initiated(nl[j]) && nl[i].sub@
            == sub && nl[j].sub@ == sub) implies entry_nonce(nl[i]) != entry_nonce(nl[j]) by {
        if j < log.len() {
            assert(nl[i] == log[i] && nl[j] == log[j]);
        } else {
            assert(nl[j] == e);
            assert(nl[i] == log[i]);
            if entry_nonce(log[i]) == entry_nonce(e) {
                assert(is_transfer_entry(log[i]) && log[i].sub@ == sub && entry_nonce(log[i])
                    == entry_nonce(e));
                assert(SessionStore::nonce_used(log, sub, entry_nonce(e)));
            }
        }
    }
}

/// Start a transfer: authenticate the sender, look up the chain bound to
/// their session, refuse if a transfer is already in flight, and issue a
/// fresh nonzero blinding nonce, recorded in an `Initiated` transfer state.
///
/// A second start while one is in flight fails with `ProtocolStateError`;
/// the first is never silently superseded.  The issued nonce never repeats
/// an earlier one, so the nonces of all transfers ever initiated stay
/// pairwise distinct.
pub fn transfer_init(
    store: &mut SessionStore,
    field: &ScalarField,
    sub: &String,
    msg1: &TransferMsg1,
) -> (r: Result<TransferMsg2, SeError>)
    requires
        field.wf(),
    ensures
        r is Err ==> final(store)@ == old(store)@ && final(store).log() == old(store).log(),
        (r matches Err(e) && e is AuthError) <==> !auth_ok(old(store)@, sub@, msg1.id@),
        (r matches Err(e) && e is RecordNotFound) <==> (auth_ok(old(store)@, sub@, msg1.id@)
            && !session_ok(old(store)@, sub@, msg1.id@)),
        (r matches Err(e) && e is ProtocolStateError) <==> (auth_ok(old(store)@, sub@, msg1.id@)
            && session_ok(old(store)@, sub@, msg1.id@) && inflight(
            old(store)@,
            sub@,
            session_scid(old(store)@, sub@, msg1.id@),
        )),
        r matches Err(e) ==> (e is AuthError || e is RecordNotFound || e is ProtocolStateError
            || e is CryptoError),
        r matches Ok(m2) ==> {
            let scid = session_scid(old(store)@, sub@, msg1.id@);
            &&& auth_ok(old(store)@, sub@, msg1.id@)
            &&& session_ok(old(store)@, sub@, msg1.id@)
            &&& !inflight(old(store)@, sub@, scid)
            &&& field.in_field(m2.x1)
            &&& m2.x1.v != 0
            &&& !SessionStore::nonce_used(old(store).log(), sub@, m2.x1.v)
            &&& final(store)@ == old(store)@.insert(
                transfer_key(sub@, scid),
                final(store)@[transfer_key(sub@, scid)],
            )
            &&& (final(store)@[transfer_key(sub@, scid)] matches Record::Transfer(ts)
                && ts.state_chain_id@ == scid && ts.x1 == m2.x1 && ts.receiver_proof_key@
                == msg1.receiver_proof_key@ && ts.status is Initiated)
            &&& final(store).log() == old(store).log().push(final(store).log().last())
            &&& entry_initiated(final(store).log().last())
            &&& final(store).log().last().sub@ == sub@
            &&& entry_nonce(final(store).log().last()) == m2.x1.v
        },
        forall|s: Seq<char>|
            SessionStore::initiated_nonces_distinct(old(store).log(), s)
                ==> SessionStore::initiated_nonces_distinct(final(store).log(), s),
{
    if check_user_auth(store, sub, &msg1.id).is_err() {
        return Err(SeError::AuthError);
    }
    let scid = match store.get(sub, RecordKind::SessionData, &msg1.id) {
        Some(rec) => match rec {
            Record::Session(sd) => sd.state_chain_id.clone(),
            _ => {
                return Err(SeError::RecordNotFound);
            },
        },
        None => {
            return Err(SeError::RecordNotFound);
        },
    };
    let mut in_flight = false;
    match store.get(sub, RecordKind::TransferState, &scid) {
        Some(rec) => match rec {
            Record::Transfer(ts) => {
                if ts.status == TransferStatus::Initiated {
                    in_flight = true;
                }
            },
            _ => {},
        },
        None => {},
    }
    if in_flight {
        return Err(SeError::ProtocolStateError);
    }
    let mut x1_opt: Option<Scalar> = None;
    let mut t: usize = 0;
    while t < 32 && x1_opt.is_none()
        invariant
            field.wf(),
            x1_opt matches Some(x) ==> (field.in_field(x) && x.v != 0
                && !SessionStore::nonce_used(store.log(), sub@, x.v)),
        decreases 32 - t,
    {
        let c: u64 = rand::random();
        let cand = field.reduce(c);
        if cand.v != 0 && !store.nonce_is_used(sub, cand.v) {
            x1_opt = Some(cand);
        }
        t = t + 1;
    }
    let x1 = match x1_opt {
        Some(x) => x,
        None => {
            return Err(SeError::CryptoError);
        },
    };
    let ts = TransferState {
        state_chain_id: scid.clone(),
        x1,
        receiver_proof_key: msg1.receiver_proof_key.clone(),
        status: TransferStatus::Initiated,
    };
    store.insert(sub.clone(), RecordKind::TransferState, scid.clone(), Record::Transfer(ts));
    proof {
        assert forall|s: Seq<char>|
            SessionStore::initiated_nonces_distinct(old(store).log(), s)
                implies SessionStore::initiated_nonces_distinct(store.log(), s) by {
            lemma_nonce_non_reuse(old(store).log(), s, store.log().last());
        }
    }
    Ok(TransferMsg2 { x1 })
}

/// The sender's step: blind the old owner share with the issued nonce and
/// the incoming owner share, and encrypt the blinding value to the
/// receiver, so the relaying entity cannot read it.
///
/// On success the ciphertext decrypts, under the secret key matching
/// `receiver_enc_pubkey`, to the 8 little-endian bytes of
/// `t1 = o1 * x1 * o2^-1`.  A non-invertible `o2` always fails; beyond
/// that, only the encryption itself can fail.
pub fn transfer_sender(
    field: &ScalarField,
    o1: Scalar,
    o2: Scalar,
    x1: Scalar,
    receiver_enc_pubkey: &Vec<u8>,
) -> (r: Result<Vec<u8>, SeError>)
    requires
        field.wf(),
    ensures
        r matches Err(e) ==> e is CryptoError,
        !field.invertible(o2) ==> r is Err,
        r is Ok ==> field.invertible(o2),
        r matches Ok(ct) ==> exists|t1: Scalar, io2: nat|
            {
                &&& field.in_field(t1)
                &&& mul_mod(o2.v as nat, io2, field.modulus as nat) == 1
                &&& t1.v == mul_mod(
                    mul_mod(o1.v as nat, x1.v as nat, field.modulus as nat),
                    io2,
                    field.modulus as nat,
                )
                &&& forall|sk: Seq<u8>|
                    channel::pubkey_of(sk) == receiver_enc_pubkey@ ==> channel::decrypted_of(
                        sk,
                        ct@,
                    ) == Some(vstd::bytes::spec_u64_to_le_bytes(t1.v))
            },
{
    let t1 = compute_t1(field, o1, x1, o2)?;
    let msg = vstd::bytes::u64_to_le_bytes(t1.v);
    let ct = channel::encrypt(&msg, receiver_enc_pubkey)?;
    Ok(ct)
}

/// Copy a vector of strings.
fn clone_string_vec(v: &Vec<String>) -> (r: Vec<String>)
    ensures
        r@.len() == v@.len(),
        forall|i: int| 0 <= i < v@.len() ==> r@[i]@ == v@[i]@,
{
    let mut r: Vec<String> = Vec::new();
    let mut i: usize = 0;
    while i < v.len()
        invariant
            i <= v@.len(),
            r@.len() == i,
            forall|j: int| 0 <= j < i ==> r@[j]@ == v@[j]@,
        decreases v.len() - i,
    {
        r.push(v[i].clone());
        i = i + 1;
    }
    r
}

/// Finalize a transfer on the entity's side: authenticate the caller,
/// consume the `Initiated` transfer state, adopt the rotated share
/// `s2 = t1 * x1^-1 * s1`, append the receiver's proof key to the chain's
/// history, and mark the transfer `Completed`.  Either all of this happens,
/// or the store is unchanged.
///
/// Success is owed exactly when the caller is authenticated, a transfer is
/// in flight, the chain record exists, and the stored nonce is invertible —
/// which `transfer_init` guarantees for a prime modulus, since it only
/// issues nonzero in-field nonces.
pub fn transfer_receiver(
    store: &mut SessionStore,
    field: &ScalarField,
    sub: &String,
    id: &String,
    state_chain_id: &String,
    t1: Scalar,
    s1: Scalar,
) -> (r: Result<Scalar, SeError>)
    requires
        field.wf(),
    ensures
        r is Err ==> final(store)@ == old(store)@ && final(store).log() == old(store).log(),
        (r matches Err(e) && e is AuthError) <==> !auth_ok(old(store)@, sub@, id@),
        (r matches Err(e) && e is ProtocolStateError) <==> (auth_ok(old(store)@, sub@, id@)
            && !inflight(old(store)@, sub@, state_chain_id@)),
        (r matches Err(e) && e is RecordNotFound) <==> (auth_ok(old(store)@, sub@, id@) && inflight(
            old(store)@,
            sub@,
            state_chain_id@,
        ) && !chain_ok(old(store)@, sub@, state_chain_id@)),
        r matches Err(e) ==> (e is AuthError || e is ProtocolStateError || e is RecordNotFound
            || e is CryptoError),
        r is Ok <==> (auth_ok(old(store)@, sub@, id@) && inflight(old(store)@, sub@, state_chain_id@)
            && chain_ok(old(store)@, sub@, state_chain_id@) && field.invertible(
            old(store)@[transfer_key(sub@, state_chain_id@)]->Transfer_0.x1,
        )),
        (r matches Err(e) && e is CryptoError) <==> (auth_ok(old(store)@, sub@, id@) && inflight(
            old(store)@,
            sub@,
            state_chain_id@,
        ) && chain_ok(old(store)@, sub@, state_chain_id@) && !field.invertible(
            old(store)@[transfer_key(sub@, state_chain_id@)]->Transfer_0.x1,
        )),
        r matches Ok(s2) ==> {
            let ts = old(store)@[transfer_key(sub@, state_chain_id@)]->Transfer_0;
            let ch = old(store)@[chain_key(sub@, state_chain_id@)]->Chain_0;
            &&& auth_ok(old(store)@, sub@, id@)
            &&& inflight(old(store)@, sub@, state_chain_id@)
            &&& chain_ok(old(store)@, sub@, state_chain_id@)
            &&& field.in_field(s2)
            &&& exists|ix1: nat|
                mul_mod(ts.x1.v as nat, ix1, field.modulus as nat) == 1 && s2.v == mul_mod(
                    mul_mod(t1.v as nat, ix1, field.modulus as nat),
                    s1.v as nat,
                    field.modulus as nat,
                )
            &&& final(store)@ == old(store)@.insert(
                chain_key(sub@, state_chain_id@),
                final(store)@[chain_key(sub@, state_chain_id@)],
            ).insert(
                transfer_key(sub@, state_chain_id@),
                final(store)@[transfer_key(sub@, state_chain_id@)],
            )
            &&& (final(store)@[chain_key(sub@, state_chain_id@)] matches Record::Chain(ch2)
                && ch2.id@ == ch.id@ && ch2.chain@.len() == ch.chain@.len() + 1 && (forall|i: int|
                0 <= i < ch.chain@.len() ==> ch2.chain@[i]@ == ch.chain@[i]@)
                && ch2.chain@.last()@ == ts.receiver_proof_key@)
            &&& (final(store)@[transfer_key(sub@, state_chain_id@)] matches Record::Transfer(ts2)
                && ts2.status is Completed && ts2.x1 == ts.x1 && ts2.state_chain_id@
                == state_chain_id@ && ts2.receiver_proof_key@ == ts.receiver_proof_key@)
            &&& SessionStore::appended_without_transfers(
                old(store).log(),
                final(store).log().drop_last(),
            )
            &&& final(store).log().len() == old(store).log().len() + 2
            &&& !entry_initiated(final(store).log().last())
        },
        forall|s: Seq<char>|
            SessionStore::initiated_nonces_distinct(old(store).log(), s)
                ==> SessionStore::initiated_nonces_distinct(final(store).log(), s),
{
    if check_user_auth(store, sub, id).is_err() {
        return Err(SeError::AuthError);
    }
    let (x1, proof_key) = match store.get(sub, RecordKind::TransferState, state_chain_id) {
        Some(rec) => match rec {
            Record::Transfer(ts) => {
                if ts.status == TransferStatus::Initiated {
                    (ts.x1, ts.receiver_proof_key.clone())
                } else {
                    return Err(SeError::ProtocolStateError);
                }
            },
            _ => {
                return Err(SeError::ProtocolStateError);
            },
        },
        None => {
            return Err(SeError::ProtocolStateError);
        },
    };
    let (chain_id, old_chain) = match store.get(sub, RecordKind::StateChain, state_chain_id) {
        Some(rec) => match rec {
            Record::Chain(ch) => (ch.id.clone(), clone_string_vec(&ch.chain)),
            _ => {
                return Err(SeError::RecordNotFound);
            },
        },
        None => {
            return Err(SeError::RecordNotFound);
        },
    };
    let s2 = match compute_s2(field, t1, x1, s1) {
        Ok(s2) => s2,
        Err(_) => {
            return Err(SeError::CryptoError);
        },
    };
    let mut new_chain = old_chain;
    new_chain.push(proof_key.clone());
    let ch2 = crate::records::StateChain { id: chain_id, chain: new_chain };
    store.insert(
        sub.clone(),
        RecordKind::StateChain,
        state_chain_id.clone(),
        Record::Chain(ch2),
    );
    let ts2 = TransferState {
        state_chain_id: state_chain_id.clone(),
        x1,
        receiver_proof_key: proof_key,
        status: TransferStatus::Completed,
    };
    store.insert(
        sub.clone(),
        RecordKind::TransferState,
        state_chain_id.clone(),
        Record::Transfer(ts2),
    );
    proof {
        assert forall|s: Seq<char>|
            SessionStore::initiated_nonces_distinct(old(store).log(), s)
                implies SessionStore::initiated_nonces_distinct(store.log(), s) by {
            let mid = old(store).log().push(store.log().drop_last().last());
            assert(store.log().drop_last() =~= mid);
            lemma_nonce_non_reuse(old(store).log(), s, store.log().drop_last().last());
            lemma_nonce_non_reuse(store.log().drop_last(), s, store.log().last());
            assert(store.log().drop_last().push(store.log().last()) =~= store.log());
        }
    }
    Ok(s2)
}

} // verus!
