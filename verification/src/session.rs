//! Server-side session handling: admission, authentication, and the
//! entity's encryption key.

use vstd::prelude::*;
use crate::entity::StateEntity;
use crate::errors::SeError;
use crate::records::Record;
use crate::records::RecordKind;
use crate::records::UserSession;
use crate::store::SessionStore;

verus! {

/// The store key of a user-session record.
pub open spec fn user_key(sub: Seq<char>, id: Seq<char>) -> (Seq<char>, RecordKind, Seq<char>) {
    (sub, RecordKind::UserSession, id)
}

/// The store key of a deposit (session-data) record.
pub open spec fn data_key(sub: Seq<char>, id: Seq<char>) -> (Seq<char>, RecordKind, Seq<char>) {
    (sub, RecordKind::SessionData, id)
}

/// The store key of a state-chain record.
pub open spec fn chain_key(sub: Seq<char>, scid: Seq<char>) -> (Seq<char>, RecordKind, Seq<char>) {
    (sub, RecordKind::StateChain, scid)
}

/// The store key of a transfer-state record.
pub open spec fn transfer_key(sub: Seq<char>, scid: Seq<char>) -> (
    Seq<char>,
    RecordKind,
    Seq<char>,
) {
    (sub, RecordKind::TransferState, scid)
}

/// Whether `id` has passed admission for `sub`: a user-session record is
/// in the store.
pub open spec fn auth_ok(
    m: Map<(Seq<char>, RecordKind, Seq<char>), Record>,
    sub: Seq<char>,
    id: Seq<char>,
) -> bool {
    m.contains_key(user_key(sub, id)) && m[user_key(sub, id)] is User
}

/// Relies on `uuid::Uuid::new_v4` and its hyphenated display form: a fresh
/// random identifier, 36 characters long.
#[verifier::external_body]
pub(crate) fn new_uuid() -> (r: String)
    ensures
        r@.len() == 36,
{
    uuid::Uuid::new_v4().to_string()
}

/// Initialise a session: generate a fresh session id, record that its
/// holder passed admission, and return it.
pub fn session_init(store: &mut SessionStore, sub: &String) -> (r: String)
    ensures
        auth_ok(final(store)@, sub@, r@),
        exists|u: UserSession|
            {
                &&& final(store)@ == old(store)@.insert(user_key(sub@, r@), Record::User(u))
                &&& u.id@ == r@
            },
        final(store).log() == old(store).log().push(final(store).log().last()),
        final(store).log().last().kind is UserSession,
{
    let user_id = new_uuid();
    let rec = UserSession { id: user_id.clone() };
    let ghost gu = rec;
    store.insert(sub.clone(), RecordKind::UserSession, user_id.clone(), Record::User(rec));
    proof {
        assert(store@ == old(store)@.insert(user_key(sub@, user_id@), Record::User(gu))
            && gu.id@ == user_id@);
    }
    user_id
}

/// Check that `id` passed admission for `sub`.  Returns the user-session
/// record exactly when one is stored; `AuthError` otherwise.  This is the
/// sole gate in front of deposits, transfers and the entity's key.
pub fn check_user_auth(store: &SessionStore, sub: &String, id: &String) -> (r: Result<
    UserSession,
    SeError,
>)
    ensures
        r is Ok <==> auth_ok(store@, sub@, id@),
        r matches Ok(u) ==> u.id@ == store@[user_key(sub@, id@)]->User_0.id@,
        r matches Err(e) ==> e is AuthError,
{
    match store.get(sub, RecordKind::UserSession, id) {
        Some(rec) => match rec {
            Record::User(u) => Ok(UserSession { id: u.id.clone() }),
            _ => Err(SeError::AuthError),
        },
        None => Err(SeError::AuthError),
    }
}

/// The entity's encryption public key, creating the keypair on first use.
///
/// If an entity record exists it is returned unchanged, so repeated calls
/// agree; otherwise a fresh keypair is generated and persisted.
pub fn get_receiver_pubkey(store: &mut SessionStore, sub: &String) -> (r: Result<Vec<u8>, SeError>)
    ensures
        (old(store)@.contains_key(StateEntity::store_key(sub@)) && old(store)@[
            StateEntity::store_key(sub@)
        ] is Entity) ==> {
            &&& final(store)@ == old(store)@
            &&& final(store).log() == old(store).log()
            &&& (r matches Ok(pk) && pk@ == old(store)@[
                StateEntity::store_key(sub@)
            ]->Entity_0.spec_pubkey())
        },
        (old(store)@.contains_key(StateEntity::store_key(sub@)) && !(old(store)@[
            StateEntity::store_key(sub@)
        ] is Entity)) ==> {
            &&& final(store)@ == old(store)@
            &&& final(store).log() == old(store).log()
            &&& (r matches Err(e) && e is UpstreamError)
        },
        !old(store)@.contains_key(StateEntity::store_key(sub@)) ==> exists|e: StateEntity|
            {
                &&& e.wf()
                &&& final(store)@ == old(store)@.insert(
                    StateEntity::store_key(sub@),
                    Record::Entity(e),
                )
                &&& (r matches Ok(pk) && pk@ == e.spec_pubkey() && pk@
                    == crate::channel::pubkey_of(e.spec_privkey()))
            },
        !old(store)@.contains_key(StateEntity::store_key(sub@)) ==> (final(store).log() == old(
            store,
        ).log().push(final(store).log().last()) && final(store).log().last().kind is StateEntity),
{
    let se_found = StateEntity::from_db(store, sub).is_some();
    if se_found {
        let se = StateEntity::from_db(store, sub).unwrap();
        return Ok(se.get_encryption_pubkey());
    }
    let id = crate::entity::state_entity_uuid().to_owned();
    match store.get(sub, RecordKind::StateEntity, &id) {
        Some(_) => Err(SeError::UpstreamError),
        None => {
            let se = StateEntity::new();
            let pk = se.get_encryption_pubkey();
            se.insert_db(store, sub);
            Ok(pk)
        },
    }
}

} // verus!
