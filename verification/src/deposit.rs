//! Deposit handling: from a claimed funding output description, rebuild the
//! backup transaction deterministically and pin down its signature hash, so
//! a later co-signing step can be held to exactly that spend.

use vstd::prelude::*;
use bitcoin::Amount;
use bitcoin::EcdsaSighashType;
use bitcoin::OutPoint;
use bitcoin::ScriptBuf;
use bitcoin::Sequence;
use bitcoin::Transaction;
use bitcoin::TxIn;
use bitcoin::TxOut;
use bitcoin::Witness;
use bitcoin::absolute::LockTime;
use bitcoin::Script;
use bitcoin::Txid;
use bitcoin::sighash::SegwitV0Sighash;
use bitcoin::sighash::SighashCache;
use bitcoin::transaction::Version;
use crate::errors::SeError;
use crate::records::Record;
use crate::records::RecordKind;
use crate::records::SessionData;
use crate::records::StateChain;
use crate::session::auth_ok;
use crate::session::chain_key;
use crate::session::check_user_auth;
use crate::session::data_key;
use crate::session::new_uuid;
use crate::store::SessionStore;

verus! {

/// The value of one hexadecimal digit, if the character is one.
pub open spec fn hex_digit_val(c: char) -> Option<u8> {
    let n = c as int;
    if 48 <= n && n <= 57 {
        Some((n - 48) as u8)
    } else if 97 <= n && n <= 102 {
        Some((n - 87) as u8)
    } else if 65 <= n && n <= 70 {
        Some((n - 55) as u8)
    } else {
        None
    }
}

fn hex_digit(c: char) -> (r: Option<u8>)
    ensures
        r == hex_digit_val(c),
{
    let n = c as u32;
    if 48 <= n && n <= 57 {
        Some((n - 48) as u8)
    } else if 97 <= n && n <= 102 {
        Some((n - 87) as u8)
    } else if 65 <= n && n <= 70 {
        Some((n - 55) as u8)
    } else {
        None
    }
}

/// Whether `s` is a well-formed transaction id: 64 hexadecimal digits.
pub open spec fn txid_ok(s: Seq<char>) -> bool {
    s.len() == 64 && forall|i: int| 0 <= i < 64 ==> hex_digit_val(s[i]) is Some
}

/// Byte `i` of the parsed transaction id.  The displayed hex form is
/// byte-reversed with respect to the internal order, as transaction ids
/// are, so byte `i` comes from the pair of digits at position `2 * (31 - i)`.
pub open spec fn txid_byte(s: Seq<char>, i: int) -> u8
    recommends
        txid_ok(s),
        0 <= i < 32,
{
    ((hex_digit_val(s[2 * (31 - i)]).unwrap() * 16) + hex_digit_val(
        s[2 * (31 - i) + 1],
    ).unwrap()) as u8
}

/// The 32 internal-order bytes of a transaction id.
pub open spec fn txid_bytes(s: Seq<char>) -> Seq<u8> {
    Seq::new(32, |i: int| txid_byte(s, i))
}

/// Parse a displayed transaction id into its 32 internal-order bytes.
/// Fails exactly on inputs that are not 64 hexadecimal digits.
pub fn parse_txid(s: &str) -> (r: Result<Vec<u8>, SeError>)
    ensures
        r is Ok <==> txid_ok(s@),
        r matches Ok(b) ==> b@ == txid_bytes(s@),
        r matches Err(e) ==> e is FormatError,
{
    let n = s.unicode_len();
    if n != 64 {
        return Err(SeError::FormatError);
    }
    let mut digits: Vec<u8> = Vec::new();
    let mut i: usize = 0;
    while i < 64
        invariant
            i <= 64,
            s@.len() == 64,
            digits@.len() == i,
            forall|j: int| 0 <= j < i ==> hex_digit_val(s@[j]) == Some(digits@[j]),
        decreases 64 - i,
    {
        let c = s.get_char(i);
        match hex_digit(c) {
            Some(d) => {
                digits.push(d);
            },
            None => {
                return Err(SeError::FormatError);
            },
        }
        i = i + 1;
    }
    let mut out: Vec<u8> = Vec::new();
    let mut k: usize = 0;
    while k < 32
        invariant
            k <= 32,
            s@.len() == 64,
            txid_ok(s@),
            digits@.len() == 64,
            forall|j: int| 0 <= j < 64 ==> hex_digit_val(s@[j]) == Some(digits@[j]),
            out@.len() == k,
            forall|j: int| 0 <= j < k ==> out@[j] == txid_byte(s@, j),
        decreases 32 - k,
    {
        let hi = digits[2 * (31 - k)];
        let lo = digits[2 * (31 - k) + 1];
        proof {
            assert(hex_digit_val(s@[2 * (31 - k as int)]) == Some(hi));
            assert(hi < 16 && lo < 16);
        }
        out.push(hi * 16 + lo);
        k = k + 1;
    }
    Ok(out)
}

/// What an address parses to: the script its funds are locked to, when the
/// address is well formed.  Parsing is deterministic.
pub uninterp spec fn addr_script_of(a: Seq<char>) -> Option<Seq<u8>>;

/// Relies on `bitcoin::Address::from_str` (via `str::parse`) and
/// `Script::to_bytes`: a well-formed address parses to its script public
/// key, deterministically; a malformed one is rejected.
#[verifier::external_body]
fn parse_address_script(a: &str) -> (r: Option<Vec<u8>>)
    ensures
        r matches Some(s) ==> addr_script_of(a@) == Some(s@),
        r is None ==> addr_script_of(a@) is None,
{
    match a.parse::<bitcoin::Address<bitcoin::address::NetworkUnchecked>>() {
        Ok(ad) => Some(ad.assume_checked().script_pubkey().to_bytes()),
        Err(_) => None,
    }
}

/// The BIP143-style signature hash of the rebuilt one-input one-output
/// backup transaction, as a function of the fields that determine it.
pub uninterp spec fn sighash_of(
    txid: Seq<u8>,
    vout: u32,
    seqn: u32,
    dest_script: Seq<u8>,
    prev_script: Seq<u8>,
    amount: u64,
) -> Seq<u8>;

/// Relies on `bitcoin::sighash::SighashCache::p2wsh_signature_hash` over a
/// transaction rebuilt from exactly these fields: the segwit-v0 signature
/// hash is a 32-byte value determined by them.
#[verifier::external_body]
fn backup_sighash(
    txid: &Vec<u8>,
    vout: u32,
    seqn: u32,
    dest_script: &Vec<u8>,
    prev_script: &Vec<u8>,
    amount: u64,
) -> (r: Vec<u8>)
    requires
        txid@.len() == 32,
    ensures
        r@ == sighash_of(txid@, vout, seqn, dest_script@, prev_script@, amount),
        r@.len() == 32,
{
    let mut arr = [0u8; 32];
    arr.copy_from_slice(txid);
    let amt = Amount::from_sat(amount);
    let prev = OutPoint { txid: <Txid as bitcoin::hashes::Hash>::from_byte_array(arr), vout };
    let txin = TxIn { previous_output: prev, script_sig: ScriptBuf::new(), sequence: Sequence(seqn), witness: Witness::new() };
    let out = TxOut { value: amt, script_pubkey: ScriptBuf::from_bytes(dest_script.clone()) };
    let tx = Transaction { version: Version::TWO, lock_time: LockTime::ZERO, input: vec![txin], output: vec![out] };
    let mut cache = SighashCache::new(&tx);
    let h = cache.p2wsh_signature_hash(0, Script::from_bytes(prev_script), amt, EcdsaSighashType::All).unwrap();
    <SegwitV0Sighash as bitcoin::hashes::Hash>::to_byte_array(h).to_vec()
}

/// The first deposit message: the funding address and the fields of the
/// backup transaction input and output.
#[derive(Debug)]
pub struct DepositMessage1 {
    pub p_addr: String,
    pub tx_b_input_txid: String,
    pub tx_b_input_vout: u32,
    pub tx_b_input_seq: u32,
    pub tx_b_address: String,
    pub tx_b_amount: u64,
}

impl DepositMessage1 {
    /// All fields parse.
    pub open spec fn parse_ok(self) -> bool {
        &&& txid_ok(self.tx_b_input_txid@)
        &&& addr_script_of(self.tx_b_address@) is Some
        &&& addr_script_of(self.p_addr@) is Some
    }

    /// The signature hash the deposit pins down.
    pub open spec fn spec_sighash(self) -> Seq<u8>
        recommends
            self.parse_ok(),
    {
        sighash_of(
            txid_bytes(self.tx_b_input_txid@),
            self.tx_b_input_vout,
            self.tx_b_input_seq,
            addr_script_of(self.tx_b_address@).unwrap(),
            addr_script_of(self.p_addr@).unwrap(),
            self.tx_b_amount,
        )
    }
}

/// Law: the deposit signature hash is deterministic.  Two deposit messages
/// with the same funding address, input reference, backup address and
/// amount pin down the same signature hash.
pub proof fn lemma_sighash_deterministic(a: DepositMessage1, b: DepositMessage1)
    requires
        a.p_addr@ == b.p_addr@,
        a.tx_b_input_txid@ == b.tx_b_input_txid@,
        a.tx_b_input_vout == b.tx_b_input_vout,
        a.tx_b_input_seq == b.tx_b_input_seq,
        a.tx_b_address@ == b.tx_b_address@,
        a.tx_b_amount == b.tx_b_amount,
    ensures
        a.spec_sighash() == b.spec_sighash(),
{
}

/// Handle the first deposit message for session `id`: authenticate, rebuild
/// the backup transaction and its signature hash, store the hash with a
/// fresh state-chain id, and create the state chain seeded with `id`.
///
/// The same signature hash is recomputed from the same fields every time;
/// malformed fields fail with `FormatError`.  A second deposit under the
/// same session id replaces the stored session data and creates another
/// chain; like the store it models, the operation is not idempotent.
pub fn deposit_first(store: &mut SessionStore, sub: &String, id: &String, msg: &DepositMessage1)
    -> (r: Result<String, SeError>)
    ensures
        r is Err ==> final(store)@ == old(store)@ && final(store).log() == old(store).log(),
        (r matches Err(e) && e is AuthError) <==> !auth_ok(old(store)@, sub@, id@),
        (r matches Err(e) && e is FormatError) <==> (auth_ok(old(store)@, sub@, id@)
            && !msg.parse_ok()),
        r is Ok <==> (auth_ok(old(store)@, sub@, id@) && msg.parse_ok()),
        r matches Ok(scid) ==> {
            &&& final(store)@ == old(store)@.insert(
                data_key(sub@, id@),
                final(store)@[data_key(sub@, id@)],
            ).insert(chain_key(sub@, scid@), final(store)@[chain_key(sub@, scid@)])
            &&& (final(store)@[data_key(sub@, id@)] matches Record::Session(sd)
                && sd.sig_hash@ == msg.spec_sighash() && sd.state_chain_id@ == scid@)
            &&& (final(store)@[chain_key(sub@, scid@)] matches Record::Chain(ch) && ch.id@ == scid@
                && ch.chain@.len() == 1 && ch.chain@[0]@ == id@)
        },
        r is Ok ==> SessionStore::appended_without_transfers(old(store).log(), final(store).log())
            && final(store).log().len() == old(store).log().len() + 2,
{
    if check_user_auth(store, sub, id).is_err() {
        return Err(SeError::AuthError);
    }
    let txid = match parse_txid(msg.tx_b_input_txid.as_str()) {
        Ok(b) => b,
        Err(_) => {
            return Err(SeError::FormatError);
        },
    };
    let dest_script = match parse_address_script(msg.tx_b_address.as_str()) {
        Some(s) => s,
        None => {
            return Err(SeError::FormatError);
        },
    };
    let prev_script = match parse_address_script(msg.p_addr.as_str()) {
        Some(s) => s,
        None => {
            return Err(SeError::FormatError);
        },
    };
    let sig_hash = backup_sighash(
        &txid,
        msg.tx_b_input_vout,
        msg.tx_b_input_seq,
        &dest_script,
        &prev_script,
        msg.tx_b_amount,
    );
    let state_chain_id = new_uuid();
    let sd = SessionData { sig_hash, state_chain_id: state_chain_id.clone() };
    let ghost gsd = sd;
    store.insert(sub.clone(), RecordKind::SessionData, id.clone(), Record::Session(sd));
    let ch = StateChain { id: state_chain_id.clone(), chain: vec![id.clone()] };
    let ghost gch = ch;
    store.insert(
        sub.clone(),
        RecordKind::StateChain,
        state_chain_id.clone(),
        Record::Chain(ch),
    );
    proof {
        assert(store@ == old(store)@.insert(data_key(sub@, id@), Record::Session(gsd)).insert(
            chain_key(sub@, state_chain_id@),
            Record::Chain(gch),
        ));
        assert(gch.chain@[0]@ == id@);
    }
    Ok(state_chain_id)
}

} // verus!
