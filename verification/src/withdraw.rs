//! The withdrawal orchestration: moving funds from an order's funding
//! address into the HTLC escrow address.
//!
//! The external steps — fetching the funding key, listing UTXOs, estimating
//! the fee, building and signing the transaction, broadcasting — suspend and
//! belong to the host.  Every decision between those steps is a function
//! here, verified for every answer the collaborators can give.

use vstd::prelude::*;
use crate::btc;
use crate::errors::HtlcError;
use crate::hexutil;
use crate::orders::OrderStorage;
use crate::script;

verus! {

/// One unspent output of the funding address, as the UTXO provider reports
/// it: the producing transaction's id bytes, the output index, the value in
/// satoshi, and the confirmation height.
#[derive(Debug)]
pub struct Utxo {
    pub txid: Vec<u8>,
    pub vout: u32,
    pub value: u64,
    pub height: u32,
}

/// Everything the host needs to carry a validated withdrawal through its
/// external steps.
#[derive(Debug)]
pub struct WithdrawRequest {
    /// The order being withdrawn from.
    pub order_no: u64,
    /// The value, in satoshi, to move into escrow.
    pub amount_in_satoshi: u64,
    /// The HTLC redeem script for this order and responder.
    pub escrow_script: Vec<u8>,
    /// The pay-to-witness-script-hash address of that script.
    pub escrow_address: String,
    /// The account index of the order's funding derivation path.
    pub funding_account: u32,
}

/// The account index of an order's funding derivation path: the order number
/// itself (reduced to 32 bits), with change and address index fixed at 0, so
/// every order has its own deterministic path.
pub fn derivation_account(order_no: u64) -> (r: u32)
    ensures
        r == order_no % 0x1_0000_0000,
{
    let r = #[verifier::truncate] (order_no as u32);
    proof {
        assert(r == order_no % 0x1_0000_0000) by (bit_vector)
            requires r == order_no as u32;
    }
    r
}

/// The first failure a withdrawal request runs into, checked in this order:
/// a zero amount, an unknown order, an unparsable responder key, a malformed
/// stored secret hash, an unparsable stored initiator key.
pub open spec fn withdraw_validation(
    s: OrderStorage,
    order_no: u64,
    responder_pubkey: Seq<char>,
    amount_in_satoshi: u64,
) -> Option<HtlcError> {
    if amount_in_satoshi == 0 {
        Some(HtlcError::InvalidAmount)
    } else if !s@.contains_key(order_no) {
        Some(HtlcError::OrderNotFound)
    } else if btc::pubkey_parse(responder_pubkey) is None {
        Some(HtlcError::InvalidPublicKey)
    } else if !hexutil::is_valid_secret_hash(s@[order_no].secret_hash@) {
        Some(HtlcError::InvalidHash)
    } else if btc::pubkey_parse(s@[order_no].initiator_pubkey@) is None {
        Some(HtlcError::InvalidPublicKey)
    } else {
        None
    }
}

/// Validates a withdrawal and prepares its escrow side.
///
/// Fails exactly as `withdraw_validation` says — in particular a zero amount
/// fails with `InvalidAmount` and an unknown order with `OrderNotFound`,
/// both before any external call is issued (this function is synchronous and
/// suspends nowhere).  On success the request carries the redeem script
/// built from the order's stored hash, initiator and time lock together with
/// the supplied responder key, that script's escrow address, and the order's
/// funding derivation account.
pub fn withdraw_from_order(
    storage: &OrderStorage,
    order_no: u64,
    responder_pubkey: &String,
    amount_in_satoshi: u64,
    network: btc::Network,
) -> (r: Result<WithdrawRequest, HtlcError>)
    ensures
        match r {
            Err(e) => withdraw_validation(*storage, order_no, responder_pubkey@, amount_in_satoshi)
                == Some(e),
            Ok(w) => {
                &&& withdraw_validation(
                    *storage,
                    order_no,
                    responder_pubkey@,
                    amount_in_satoshi,
                ) is None
                &&& w.order_no == order_no
                &&& w.amount_in_satoshi == amount_in_satoshi
                &&& w.funding_account == order_no % 0x1_0000_0000
                &&& w.escrow_script@ == script::order_redeem_script(
                    storage@[order_no].secret_hash@,
                    storage@[order_no].initiator_pubkey@,
                    responder_pubkey@,
                    storage@[order_no].time_lock,
                )
                &&& w.escrow_address@ == btc::p2wsh_address(w.escrow_script@, network.spec_id())
            },
        },
{
    if amount_in_satoshi == 0 {
        return Err(HtlcError::InvalidAmount);
    }
    let detail = match storage.get_order(order_no) {
        Some(d) => d,
        None => {
            return Err(HtlcError::OrderNotFound);
        },
    };
    if btc::pubkey_parse_exec(responder_pubkey).is_none() {
        return Err(HtlcError::InvalidPublicKey);
    }
    let escrow_script = match script::build_redeem_script(
        &detail.secret_hash,
        &detail.initiator_pubkey,
        responder_pubkey,
        detail.time_lock,
    ) {
        Ok(s) => s,
        Err(e) => {
            return Err(e);
        },
    };
    let escrow_address = script::build_escrow_address(&escrow_script, network);
    let funding_account = derivation_account(order_no);
    Ok(
        WithdrawRequest {
            order_no,
            amount_in_satoshi,
            escrow_script,
            escrow_address,
            funding_account,
        },
    )
}

/// Encodes the funding public key the external derivation service returned
/// as the order's single-signature funding address.  Fails with
/// `ExternalServiceFailure` exactly when the service handed back bytes that
/// are no compressed-key encoding.
pub fn funding_address_for_key(public_key: &Vec<u8>, network: btc::Network) -> (r: Result<
    String,
    HtlcError,
>)
    ensures
        r is Ok <==> btc::is_compressed_pubkey(public_key@),
        r is Ok ==> r.unwrap()@ == btc::p2wpkh_address(public_key@, network.spec_id()),
        r is Err ==> r == Err::<String, HtlcError>(HtlcError::ExternalServiceFailure),
{
    match btc::p2wpkh_address_exec(public_key, network) {
        Some(a) => Ok(a),
        None => Err(HtlcError::ExternalServiceFailure),
    }
}

/// Decides on the UTXO provider's answer: a withdrawal proceeds exactly when
/// the funding address has at least one unspent output.
pub fn withdraw_check_utxos(utxos: &Vec<Utxo>) -> (r: Result<(), HtlcError>)
    ensures
        r == if utxos@.len() == 0 {
            Err::<(), HtlcError>(HtlcError::NoFunds)
        } else {
            Ok::<(), HtlcError>(())
        },
{
    if utxos.len() == 0 {
        Err(HtlcError::NoFunds)
    } else {
        Ok(())
    }
}

/// Decides on the transaction builder's answer: `None` — the inputs cannot
/// cover amount plus fee — becomes `InsufficientFunds`; otherwise the signed
/// transaction bytes pass through unchanged.
pub fn withdraw_build_outcome(built: Option<Vec<u8>>) -> (r: Result<Vec<u8>, HtlcError>)
    ensures
        match r {
            Ok(tx) => built is Some && tx == built.unwrap(),
            Err(e) => built is None && e == HtlcError::InsufficientFunds,
        },
{
    match built {
        Some(tx) => Ok(tx),
        None => Err(HtlcError::InsufficientFunds),
    }
}

/// Decides on the broadcaster's answer: rejection becomes
/// `BroadcastFailure`; acceptance yields the transaction's canonical id,
/// computed from the serialized bytes alone (or `ExternalServiceFailure` if
/// the bytes the signer handed over do not decode as a transaction).
pub fn withdraw_broadcast_outcome(accepted: bool, signed_tx: &Vec<u8>) -> (r: Result<
    String,
    HtlcError,
>)
    ensures
        !accepted ==> r == Err::<String, HtlcError>(HtlcError::BroadcastFailure),
        accepted ==> match btc::decoded_txid(signed_tx@) {
            Some(t) => r is Ok && r.unwrap()@ == t,
            None => r == Err::<String, HtlcError>(HtlcError::ExternalServiceFailure),
        },
{
    if !accepted {
        return Err(HtlcError::BroadcastFailure);
    }
    match btc::txid_exec(signed_tx) {
        Some(t) => Ok(t),
        None => Err(HtlcError::ExternalServiceFailure),
    }
}

} // verus!
