//! Coordination of off-chain transfer of spending authority over a Bitcoin
//! output between two parties, mediated by a semi-trusted entity that holds
//! one share of a 2-of-2 key.
//!
//! The heart of the library is the key-rotation protocol: re-splitting a
//! joint private key between a new owner and the entity while the joint
//! public point stays fixed, together with the session and record model
//! that prevents replay, double transfer and unauthorized access.

mod channel;
mod deposit;
mod entity;
mod errors;
mod field;
mod records;
mod rotation;
mod session;
mod store;
mod transfer;
mod util;

pub use field::Scalar;
pub use field::ScalarField;
pub use field::mul_mod;
pub use channel::ECIESError;
pub use channel::decrypt;
pub use channel::decrypted_of;
pub use channel::encrypt;
pub use channel::generate_keypair;
pub use channel::lemma_channel_round_trip;
pub use channel::pubkey_of;
pub use entity::StateEntity;
pub use entity::clone_bytes;
pub use entity::state_entity_uuid;
pub use records::Record;
pub use records::RecordKind;
pub use records::SessionData;
pub use records::StateChain;
pub use records::StateChainStruct;
pub use records::StateEntityStruct;
pub use records::TransferState;
pub use records::TransferStatus;
pub use records::UserSession;
pub use deposit::DepositMessage1;
pub use deposit::addr_script_of;
pub use deposit::deposit_first;
pub use deposit::hex_digit_val;
pub use deposit::lemma_sighash_deterministic;
pub use deposit::parse_txid;
pub use deposit::sighash_of;
pub use deposit::txid_bytes;
pub use deposit::txid_ok;
pub use session::auth_ok;
pub use session::chain_key;
pub use session::check_user_auth;
pub use session::data_key;
pub use session::get_receiver_pubkey;
pub use session::session_init;
pub use session::transfer_key;
pub use session::user_key;
pub use store::SessionStore;
pub use store::StoreEntry;
pub use store::entry_initiated;
pub use store::entry_nonce;
pub use store::is_transfer_entry;
pub use transfer::TransferMsg1;
pub use transfer::TransferMsg2;
pub use transfer::chain_ok;
pub use transfer::inflight;
pub use transfer::lemma_nonce_non_reuse;
pub use transfer::session_ok;
pub use transfer::session_scid;
pub use transfer::transfer_init;
pub use transfer::transfer_receiver;
pub use transfer::transfer_sender;
pub use util::reverse_hex_str;
pub use util::reverse_pairs;
pub use rotation::compute_s2;
pub use rotation::compute_t1;
pub use rotation::lemma_rotation_invariant;
pub use rotation::rotate;
pub use errors::CError;
pub use errors::SeError;
pub use errors::UtilError;
pub use errors::WalletErrorType;
