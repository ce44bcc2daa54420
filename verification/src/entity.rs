//! The state entity's own long-lived record: the keypair under which it
//! receives confidential payloads.

use vstd::prelude::*;
use crate::channel::generate_keypair;
use crate::channel::pubkey_of;
use crate::records::Record;
use crate::records::RecordKind;
use crate::store::SessionStore;

verus! {

/// Copy a byte vector.
pub fn clone_bytes(v: &Vec<u8>) -> (r: Vec<u8>)
    ensures
        r@ == v@,
{
    let mut r: Vec<u8> = Vec::new();
    let mut i: usize = 0;
    while i < v.len()
        invariant
            i <= v.len(),
            r@ == v@.take(i as int),
        decreases v.len() - i,
    {
        r.push(v[i]);
        proof {
            assert(r@ =~= v@.take(i + 1));
        }
        i = i + 1;
    }
    proof {
        assert(v@.take(v@.len() as int) =~= v@);
    }
    r
}

/// The fixed id under which the entity's record is stored.
pub fn state_entity_uuid() -> (r: &'static str)
    ensures
        r@ == "380af03d-ffc8-4144-a201-d383967190e4"@,
{
    "380af03d-ffc8-4144-a201-d383967190e4"
}

/// The entity's encryption keypair: created once, then reused.
pub struct StateEntity {
    pub enc_privkey: Vec<u8>,
    pub enc_pubkey: Vec<u8>,
}

impl StateEntity {
    /// The keypair matches: the public half is derived from the secret half.
    pub open spec fn wf(self) -> bool {
        self.enc_pubkey@ == pubkey_of(self.enc_privkey@)
    }

    pub open spec fn spec_privkey(self) -> Seq<u8> {
        self.enc_privkey@
    }

    pub open spec fn spec_pubkey(self) -> Seq<u8> {
        self.enc_pubkey@
    }

    /// Generate a fresh entity keypair.
    pub fn new() -> (r: StateEntity)
        ensures
            r.wf(),
    {
        let kp = generate_keypair();
        StateEntity { enc_privkey: kp.0, enc_pubkey: kp.1 }
    }

    /// The public half, for clients encrypting to the entity.
    pub fn get_encryption_pubkey(&self) -> (r: Vec<u8>)
        ensures
            r@ == self.spec_pubkey(),
    {
        clone_bytes(&self.enc_pubkey)
    }

    /// The secret half, for decrypting inbound payloads.
    pub fn get_encryption_privkey(&self) -> (r: Vec<u8>)
        ensures
            r@ == self.spec_privkey(),
    {
        clone_bytes(&self.enc_privkey)
    }

    /// A copy with the same keypair.
    pub fn duplicate(&self) -> (r: StateEntity)
        ensures
            r.spec_privkey() == self.spec_privkey(),
            r.spec_pubkey() == self.spec_pubkey(),
            self.wf() ==> r.wf(),
    {
        StateEntity {
            enc_privkey: clone_bytes(&self.enc_privkey),
            enc_pubkey: clone_bytes(&self.enc_pubkey),
        }
    }

    /// The key under which the entity record is stored for `sub`.
    pub open spec fn store_key(sub: Seq<char>) -> (Seq<char>, RecordKind, Seq<char>) {
        (sub, RecordKind::StateEntity, "380af03d-ffc8-4144-a201-d383967190e4"@)
    }

    /// Look the entity record up in the store.
    pub fn from_db<'a>(store: &'a SessionStore, sub: &String) -> (r: Option<&'a StateEntity>)
        ensures
            match r {
                Some(se) => store@.contains_key(Self::store_key(sub@)) && (store@[Self::store_key(
                    sub@,
                )] matches Record::Entity(e) && *se == e),
                None => !(store@.contains_key(Self::store_key(sub@)) && store@[Self::store_key(
                    sub@,
                )] is Entity),
            },
    {
        let id = state_entity_uuid().to_owned();
        match store.get(sub, RecordKind::StateEntity, &id) {
            Some(rec) => match rec {
                Record::Entity(se) => Some(se),
                _ => None,
            },
            None => None,
        }
    }

    /// Write this entity record into the store for `sub`.
    pub fn insert_db(&self, store: &mut SessionStore, sub: &String)
        ensures
            exists|e: StateEntity|
                {
                    &&& final(store)@ == old(store)@.insert(Self::store_key(sub@), Record::Entity(e))
                    &&& e.spec_privkey() == self.spec_privkey()
                    &&& e.spec_pubkey() == self.spec_pubkey()
                    &&& (self.wf() ==> e.wf())
                },
            final(store).log() == old(store).log().push(final(store).log().last()),
            final(store).log().last().kind is StateEntity,
    {
        let id = state_entity_uuid().to_owned();
        store.insert(sub.clone(), RecordKind::StateEntity, id, Record::Entity(self.duplicate()));
    }
}

} // verus!
