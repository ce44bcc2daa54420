//! The record kinds the entity persists, and the records themselves.

use vstd::prelude::*;
use crate::field::Scalar;

verus! {

/// The kind tag of a stored record.
#[derive(Clone, Copy, Debug, PartialEq, Eq, Structural)]
pub enum RecordKind {
    StateEntity,
    UserSession,
    SessionData,
    StateChain,
    TransferState,
}

/// Kind tags for the entity's own records, as written into the store.
#[derive(Clone, Copy, Debug)]
pub enum StateEntityStruct {
    StateEntity,
}

impl StateEntityStruct {
    pub fn to_string(&self) -> (r: String)
        ensures
            r@ == "StateEntityStateEntity"@,
    {
        match self {
            StateEntityStruct::StateEntity => "StateEntityStateEntity".to_owned(),
        }
    }

    pub fn kind(&self) -> (r: RecordKind)
        ensures
            r is StateEntity,
    {
        RecordKind::StateEntity
    }
}

/// Kind tags for the per-chain records, as written into the store.
#[derive(Clone, Copy, Debug)]
pub enum StateChainStruct {
    UserSession,
    SessionData,
    StateChain,
}

impl StateChainStruct {
    pub fn to_string(&self) -> (r: String)
        ensures
            self is UserSession ==> r@ == "StateChainUserSession"@,
            self is SessionData ==> r@ == "StateChainSessionData"@,
            self is StateChain ==> r@ == "StateChainStateChain"@,
    {
        match self {
            StateChainStruct::UserSession => "StateChainUserSession".to_owned(),
            StateChainStruct::SessionData => "StateChainSessionData".to_owned(),
            StateChainStruct::StateChain => "StateChainStateChain".to_owned(),
        }
    }

    pub fn kind(&self) -> (r: RecordKind)
        ensures
            self is UserSession ==> r is UserSession,
            self is SessionData ==> r is SessionData,
            self is StateChain ==> r is StateChain,
    {
        match self {
            StateChainStruct::UserSession => RecordKind::UserSession,
            StateChainStruct::SessionData => RecordKind::SessionData,
            StateChainStruct::StateChain => RecordKind::StateChain,
        }
    }
}

/// Proof that a caller passed admission control for a session id.  Created
/// at `session_init`, looked up on every later call, never mutated.
#[derive(Debug)]
pub struct UserSession {
    pub id: String,
}

/// The precomputed backup-transaction signature hash bound to a session,
/// with the id of the state chain created at deposit.
#[derive(Debug)]
pub struct SessionData {
    pub sig_hash: Vec<u8>,
    pub state_chain_id: String,
}

/// The append-only ownership history of one chain.
#[derive(Debug)]
pub struct StateChain {
    pub id: String,
    /// Chain of owner-identifying tokens, oldest first.
    pub chain: Vec<String>,
}

/// The status of a transfer: started, or finished.
#[derive(Clone, Copy, Debug, PartialEq, Eq, Structural)]
pub enum TransferStatus {
    Initiated,
    Completed,
}

/// The ephemeral per-transfer state: the blinding nonce issued by the
/// entity and the receiver's proof key.
#[derive(Debug)]
pub struct TransferState {
    pub state_chain_id: String,
    pub x1: Scalar,
    pub receiver_proof_key: String,
    pub status: TransferStatus,
}

/// Any record the store can hold.
pub enum Record {
    User(UserSession),
    Session(SessionData),
    Chain(StateChain),
    Transfer(TransferState),
    Entity(crate::entity::StateEntity),
}

} // verus!
