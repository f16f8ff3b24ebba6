//! The two-branch HTLC redeem script and its escrow address.
//!
//! The claim branch releases funds to the responder against the preimage of
//! the secret hash; the refund branch releases them to the initiator after a
//! relative time lock (`OP_CHECKSEQUENCEVERIFY`).  The script bytes are
//! constructed here and verified byte for byte; the escrow address is the
//! pay-to-witness-script-hash encoding of those bytes.

use vstd::prelude::*;
use crate::btc;
use crate::errors::HtlcError;
use crate::hexutil;
use crate::scriptnum;

verus! {

pub const OP_IF: u8 = 0x63;
pub const OP_ELSE: u8 = 0x67;
pub const OP_ENDIF: u8 = 0x68;
pub const OP_DROP: u8 = 0x75;
pub const OP_EQUALVERIFY: u8 = 0x88;
pub const OP_SHA256: u8 = 0xa8;
pub const OP_CHECKSIG: u8 = 0xac;
pub const OP_CSV: u8 = 0xb2;

/// A direct data push of fewer than 76 bytes: the length, then the bytes.
pub open spec fn spec_push_data(data: Seq<u8>) -> Seq<u8>
    recommends
        0 < data.len() < 76,
{
    seq![data.len() as u8] + data
}

/// The redeem script for secret hash `hash`, responder key `resp`, initiator
/// key `init` and time lock `t`:
/// `IF SHA256 <hash> EQUALVERIFY <resp> CHECKSIG
///  ELSE <t> CSV DROP <init> CHECKSIG ENDIF`.
pub open spec fn spec_redeem_script(hash: Seq<u8>, resp: Seq<u8>, init: Seq<u8>, t: u64) -> Seq<
    u8,
> {
    seq![OP_IF, OP_SHA256] + spec_push_data(hash) + seq![OP_EQUALVERIFY] + spec_push_data(resp)
        + seq![OP_CHECKSIG, OP_ELSE] + scriptnum::spec_push_timelock(t) + seq![OP_CSV, OP_DROP]
        + spec_push_data(init) + seq![OP_CHECKSIG, OP_ENDIF]
}

/// The redeem script of an order's fields, with both key strings parsed:
/// defined exactly when the hash and both keys are well formed.
pub open spec fn order_redeem_script(
    secret_hash: Seq<char>,
    initiator_pubkey: Seq<char>,
    responder_pubkey: Seq<char>,
    time_lock: u64,
) -> Seq<u8> {
    spec_redeem_script(
        hexutil::hex_decode_seq(secret_hash),
        btc::pubkey_parse(responder_pubkey).unwrap(),
        btc::pubkey_parse(initiator_pubkey).unwrap(),
        time_lock,
    )
}

/// Whether all three textual inputs of a redeem script are well formed.
pub open spec fn script_inputs_ok(
    secret_hash: Seq<char>,
    initiator_pubkey: Seq<char>,
    responder_pubkey: Seq<char>,
) -> bool {
    &&& hexutil::is_valid_secret_hash(secret_hash)
    &&& btc::pubkey_parse(initiator_pubkey) is Some
    &&& btc::pubkey_parse(responder_pubkey) is Some
}

/// Appends `data` to `script` as a direct push.
fn push_data(script: &mut Vec<u8>, data: &Vec<u8>)
    requires
        0 < data@.len() < 76,
    ensures
        final(script)@ == old(script)@ + spec_push_data(data@),
{
    script.push(data.len() as u8);
    let mut i: usize = 0;
    while i < data.len()
        invariant
            i <= data@.len() < 76,
            script@ == old(script)@ + seq![data@.len() as u8] + data@.take(i as int),
        decreases data@.len() - i,
    {
        script.push(data[i]);
        proof {
            assert(data@.take(i + 1) =~= data@.take(i as int) + seq![data@[i as int]]);
        }
        i = i + 1;
    }
    proof {
        assert(data@.take(data@.len() as int) =~= data@);
        assert(final(script)@ =~= old(script)@ + spec_push_data(data@));
    }
}

/// Builds the HTLC redeem script for the given order parameters.
///
/// Fails with `InvalidHash` when `secret_hash` is not hex or does not decode
/// to exactly 32 bytes, and with `InvalidPublicKey` when either key string
/// does not parse; otherwise returns exactly the script bytes of
/// `order_redeem_script`.
pub fn build_redeem_script(
    secret_hash: &String,
    initiator_pubkey: &String,
    responder_pubkey: &String,
    time_lock: u64,
) -> (r: Result<Vec<u8>, HtlcError>)
    ensures
        match r {
            Ok(s) => script_inputs_ok(secret_hash@, initiator_pubkey@, responder_pubkey@) && s@
                == order_redeem_script(secret_hash@, initiator_pubkey@, responder_pubkey@, time_lock),
            Err(e) => {
                &&& !script_inputs_ok(secret_hash@, initiator_pubkey@, responder_pubkey@)
                &&& e == if !hexutil::is_valid_secret_hash(secret_hash@) {
                    HtlcError::InvalidHash
                } else {
                    HtlcError::InvalidPublicKey
                }
            },
        },
{
    let hash = match hexutil::hex_decode_exec(secret_hash) {
        Some(h) => h,
        None => {
            return Err(HtlcError::InvalidHash);
        },
    };
    if hash.len() != 32 {
        return Err(HtlcError::InvalidHash);
    }
    let init = match btc::pubkey_parse_exec(initiator_pubkey) {
        Some(k) => k,
        None => {
            return Err(HtlcError::InvalidPublicKey);
        },
    };
    let resp = match btc::pubkey_parse_exec(responder_pubkey) {
        Some(k) => k,
        None => {
            return Err(HtlcError::InvalidPublicKey);
        },
    };
    let mut s: Vec<u8> = Vec::new();
    s.push(OP_IF);
    s.push(OP_SHA256);
    push_data(&mut s, &hash);
    s.push(OP_EQUALVERIFY);
    push_data(&mut s, &resp);
    s.push(OP_CHECKSIG);
    s.push(OP_ELSE);
    scriptnum::push_timelock(&mut s, time_lock);
    s.push(OP_CSV);
    s.push(OP_DROP);
    push_data(&mut s, &init);
    s.push(OP_CHECKSIG);
    s.push(OP_ENDIF);
    proof {
        assert(s@ =~= order_redeem_script(
            secret_hash@,
            initiator_pubkey@,
            responder_pubkey@,
            time_lock,
        ));
    }
    Ok(s)
}

/// The escrow address of a redeem script: its pay-to-witness-script-hash
/// encoding on the given network.  Always succeeds on a valid script.
pub fn build_escrow_address(script: &Vec<u8>, network: btc::Network) -> (r: String)
    ensures
        r@ == btc::p2wsh_address(script@, network.spec_id()),
{
    btc::p2wsh_address_exec(script, network)
}

/// Identical inputs yield byte-identical scripts: the construction is a pure
/// function of the secret hash, the two keys, and the time lock.
pub proof fn lemma_script_deterministic(
    h1: Seq<char>,
    i1: Seq<char>,
    r1: Seq<char>,
    t1: u64,
    h2: Seq<char>,
    i2: Seq<char>,
    r2: Seq<char>,
    t2: u64,
)
    requires
        h1 == h2,
        i1 == i2,
        r1 == r2,
        t1 == t2,
    ensures
        order_redeem_script(h1, i1, r1, t1) == order_redeem_script(h2, i2, r2, t2),
{
}

/// Two redeem scripts that agree on hash, initiator and time lock but carry
/// distinct responder keys are distinct byte sequences: the responder key
/// occupies a fixed position right after the 32-byte hash push.
pub proof fn lemma_distinct_responders_distinct_scripts(
    hash: Seq<u8>,
    init: Seq<u8>,
    r1: Seq<u8>,
    r2: Seq<u8>,
    t: u64,
)
    requires
        hash.len() == 32,
        r1.len() == 33 || r1.len() == 65,
        r2.len() == 33 || r2.len() == 65,
        r1 != r2,
    ensures
        spec_redeem_script(hash, r1, init, t) != spec_redeem_script(hash, r2, init, t),
{
    let s1 = spec_redeem_script(hash, r1, init, t);
    let s2 = spec_redeem_script(hash, r2, init, t);
    // Both scripts carry the responder push at offset 36: its length byte,
    // then the key bytes.
    assert(s1[36] == r1.len() as u8 && s2[36] == r2.len() as u8);
    if r1.len() != r2.len() {
        assert(s1[36] != s2[36]);
        assert(s1 != s2);
    } else {
        let k = choose|k: int| 0 <= k < r1.len() && r1[k] != r2[k];
        assert(r1 =~= r2 <==> r1 == r2);
        assert(exists|k: int| 0 <= k < r1.len() && r1[k] != r2[k]);
        assert(s1[37 + k] == r1[k] && s2[37 + k] == r2[k]);
        assert(s1 != s2);
    }
}

} // verus!
