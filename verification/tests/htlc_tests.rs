use htlc_orders::btc::Network;
use htlc_orders::errors::HtlcError;
use htlc_orders::orders::OrderStorage;
use htlc_orders::script::{build_escrow_address, build_redeem_script};
use htlc_orders::withdraw::{
    derivation_account, funding_address_for_key, withdraw_broadcast_outcome,
    withdraw_build_outcome, withdraw_check_utxos, withdraw_from_order, Utxo,
};

// The secp256k1 generator point, compressed, and twice the generator: two
// valid, distinct public keys.
const P1: &str = "0279be667ef9dcbbac55a06295ce870b07029bfcdb2dce28d959f2815b16f81798";
const P2: &str = "02c6047f9441ed7d6d3045406e95c07cd85c778e4b8cef3ca7abac09b95c709ee5";
// SHA-256 of the ASCII string "secret".
const HASH: &str = "2bb80d537b1da3e38bd30361aa855686bde0eacd7162fef6a25fe97bf527a25b";

fn p1_key_bytes() -> Vec<u8> {
    hex::decode(P1).unwrap()
}

#[test]
fn order_numbers_start_at_one_and_increase() {
    let mut s = OrderStorage::new();
    assert_eq!(s.get_next_order_no(), 1);
    let a = s.create_order(P1.to_string(), 144, HASH.to_string());
    let b = s.create_order(P1.to_string(), 10, HASH.to_string());
    let c = s.create_order(P2.to_string(), 20, HASH.to_string());
    assert_eq!((a, b, c), (1, 2, 3));
    assert_eq!(s.get_next_order_no(), 4);
    assert_eq!(s.get_all_orders().len(), 3);
}

#[test]
fn created_order_has_exactly_the_given_fields() {
    let mut s = OrderStorage::new();
    let no = s.create_order(P1.to_string(), 144, HASH.to_string());
    let d = s.get_order(no).unwrap();
    assert_eq!(d.initiator_pubkey, P1);
    assert_eq!(d.time_lock, 144);
    assert_eq!(d.secret_hash, HASH);
    assert!(d.htlc_address.is_none());
    assert!(s.get_order(99).is_none());
}

#[test]
fn funding_address_is_cached_and_idempotent() {
    let mut s = OrderStorage::new();
    let no = s.create_order(P1.to_string(), 144, HASH.to_string());
    assert_eq!(s.funding_address_query(no), Ok(None));
    let key = p1_key_bytes();
    let a1 = s.complete_funding_address(no, &key, Network::Regtest).unwrap();
    // The second call returns the cached address and asks nothing more.
    assert_eq!(s.funding_address_query(no), Ok(Some(a1.clone())));
    let a2 = s.complete_funding_address(no, &key, Network::Regtest).unwrap();
    assert_eq!(a1, a2);
    // A regtest bech32 single-signature address, not the key bytes echoed.
    assert!(a1.starts_with("bcrt1q"));
    assert_eq!(
        s.funding_address_query(77),
        Err(HtlcError::OrderNotFound)
    );
}

#[test]
fn funding_address_matches_the_bitcoin_encoding() {
    let mut s = OrderStorage::new();
    let no = s.create_order(P1.to_string(), 144, HASH.to_string());
    let key = p1_key_bytes();
    let a = s.complete_funding_address(no, &key, Network::Regtest).unwrap();
    let k = bitcoin::CompressedPublicKey::from_slice(&key).unwrap();
    let expect = bitcoin::Address::p2wpkh(&k, bitcoin::Network::Regtest).to_string();
    assert_eq!(a, expect);
}

#[test]
fn redeem_script_matches_the_bitcoin_builder() {
    for t in [0u64, 1, 16, 17, 127, 128, 144, 255, 256, 500_000, 65_536] {
        let mine = build_redeem_script(
            &HASH.to_string(),
            &P1.to_string(),
            &P2.to_string(),
            t,
        )
        .unwrap();
        let hash_bytes: [u8; 32] = hex::decode(HASH).unwrap().try_into().unwrap();
        let init = <bitcoin::PublicKey as std::str::FromStr>::from_str(P1).unwrap();
        let resp = <bitcoin::PublicKey as std::str::FromStr>::from_str(P2).unwrap();
        let theirs = bitcoin::ScriptBuf::builder()
            .push_opcode(bitcoin::opcodes::all::OP_IF)
            .push_opcode(bitcoin::opcodes::all::OP_SHA256)
            .push_slice(hash_bytes)
            .push_opcode(bitcoin::opcodes::all::OP_EQUALVERIFY)
            .push_key(&resp)
            .push_opcode(bitcoin::opcodes::all::OP_CHECKSIG)
            .push_opcode(bitcoin::opcodes::all::OP_ELSE)
            .push_int(t as i64)
            .push_opcode(bitcoin::opcodes::all::OP_CSV)
            .push_opcode(bitcoin::opcodes::all::OP_DROP)
            .push_key(&init)
            .push_opcode(bitcoin::opcodes::all::OP_CHECKSIG)
            .push_opcode(bitcoin::opcodes::all::OP_ENDIF)
            .into_script();
        assert_eq!(mine, theirs.as_bytes().to_vec(), "time lock {}", t);
    }
}

#[test]
fn script_is_pure_and_responder_separates_addresses() {
    let s1 = build_redeem_script(&HASH.to_string(), &P1.to_string(), &P2.to_string(), 144).unwrap();
    let s2 = build_redeem_script(&HASH.to_string(), &P1.to_string(), &P2.to_string(), 144).unwrap();
    assert_eq!(s1, s2);
    let other =
        build_redeem_script(&HASH.to_string(), &P1.to_string(), &P1.to_string(), 144).unwrap();
    assert_ne!(s1, other);
    let a1 = build_escrow_address(&s1, Network::Regtest);
    let a2 = build_escrow_address(&other, Network::Regtest);
    assert_ne!(a1, a2);
}

#[test]
fn escrow_address_decodes_back_to_the_script_hash() {
    let s = build_redeem_script(&HASH.to_string(), &P1.to_string(), &P2.to_string(), 144).unwrap();
    let addr = build_escrow_address(&s, Network::Regtest);
    let parsed = <bitcoin::Address<bitcoin::address::NetworkUnchecked> as std::str::FromStr>::from_str(
        &addr,
    )
    .unwrap()
    .require_network(bitcoin::Network::Regtest)
    .unwrap();
    let expect = bitcoin::ScriptBuf::new_p2wsh(
        &bitcoin::Script::from_bytes(&s).wscript_hash(),
    );
    assert_eq!(parsed.script_pubkey(), expect);
}

#[test]
fn invalid_hash_and_keys_are_rejected() {
    let r = build_redeem_script(&"zz".to_string(), &P1.to_string(), &P2.to_string(), 1);
    assert_eq!(r.unwrap_err(), HtlcError::InvalidHash);
    // Valid hex, wrong length.
    let r = build_redeem_script(&"2bb8".to_string(), &P1.to_string(), &P2.to_string(), 1);
    assert_eq!(r.unwrap_err(), HtlcError::InvalidHash);
    let r = build_redeem_script(&HASH.to_string(), &"02abc".to_string(), &P2.to_string(), 1);
    assert_eq!(r.unwrap_err(), HtlcError::InvalidPublicKey);
    let r = build_redeem_script(&HASH.to_string(), &P1.to_string(), &"nope".to_string(), 1);
    assert_eq!(r.unwrap_err(), HtlcError::InvalidPublicKey);
    // A hash with characters outside ASCII hex.
    let r = build_redeem_script(&"caf\u{e9}".to_string(), &P1.to_string(), &P2.to_string(), 1);
    assert_eq!(r.unwrap_err(), HtlcError::InvalidHash);
}

#[test]
fn funding_address_for_key_encodes_or_rejects() {
    let key = p1_key_bytes();
    let a = funding_address_for_key(&key, Network::Regtest).unwrap();
    assert!(a.starts_with("bcrt1q"));
    let junk = vec![7u8; 33];
    assert_eq!(
        funding_address_for_key(&junk, Network::Regtest).unwrap_err(),
        HtlcError::ExternalServiceFailure
    );
}

#[test]
fn withdraw_zero_amount_fails_before_anything_else() {
    let mut s = OrderStorage::new();
    s.create_order(P1.to_string(), 144, HASH.to_string());
    let r = withdraw_from_order(&s, 1, &P2.to_string(), 0, Network::Regtest);
    assert_eq!(r.unwrap_err(), HtlcError::InvalidAmount);
}

#[test]
fn withdraw_unknown_order_fails() {
    let s = OrderStorage::new();
    let r = withdraw_from_order(&s, 5, &P2.to_string(), 1000, Network::Regtest);
    assert_eq!(r.unwrap_err(), HtlcError::OrderNotFound);
}

#[test]
fn withdraw_rejects_bad_responder_key() {
    let mut s = OrderStorage::new();
    s.create_order(P1.to_string(), 144, HASH.to_string());
    let r = withdraw_from_order(&s, 1, &"junk".to_string(), 1000, Network::Regtest);
    assert_eq!(r.unwrap_err(), HtlcError::InvalidPublicKey);
}

#[test]
fn withdraw_flow_end_to_end() {
    let mut s = OrderStorage::new();
    let no = s.create_order(P1.to_string(), 144, HASH.to_string());
    assert_eq!(no, 1);
    let key = p1_key_bytes();
    let funding = s.complete_funding_address(no, &key, Network::Regtest).unwrap();
    assert!(funding.starts_with("bcrt1q"));

    let req = withdraw_from_order(&s, 1, &P2.to_string(), 50_000, Network::Regtest).unwrap();
    assert_eq!(req.order_no, 1);
    assert_eq!(req.amount_in_satoshi, 50_000);
    assert_eq!(req.funding_account, derivation_account(1));
    let script =
        build_redeem_script(&HASH.to_string(), &P1.to_string(), &P2.to_string(), 144).unwrap();
    assert_eq!(req.escrow_script, script);
    assert_eq!(req.escrow_address, build_escrow_address(&script, Network::Regtest));

    // The UTXO provider reports one unspent output of 100000 satoshi.
    let utxos = vec![Utxo { txid: vec![0u8; 32], vout: 0, value: 100_000, height: 1 }];
    assert!(withdraw_check_utxos(&utxos).is_ok());

    // The collaborator builds and signs a transaction paying exactly the
    // amount to the escrow address; here a minimal stand-in transaction.
    let escrow = <bitcoin::Address<bitcoin::address::NetworkUnchecked> as std::str::FromStr>::from_str(
        &req.escrow_address,
    )
    .unwrap()
    .require_network(bitcoin::Network::Regtest)
    .unwrap();
    let tx = bitcoin::Transaction {
        version: bitcoin::transaction::Version::TWO,
        lock_time: bitcoin::absolute::LockTime::ZERO,
        input: vec![bitcoin::TxIn {
            previous_output: bitcoin::OutPoint {
                txid: "2bb80d537b1da3e38bd30361aa855686bde0eacd7162fef6a25fe97bf527a25b"
                    .parse()
                    .unwrap(),
                vout: 0,
            },
            script_sig: bitcoin::ScriptBuf::new(),
            sequence: bitcoin::Sequence::MAX,
            witness: bitcoin::Witness::new(),
        }],
        output: vec![bitcoin::TxOut {
            value: bitcoin::Amount::from_sat(50_000),
            script_pubkey: escrow.script_pubkey(),
        }],
    };
    assert_eq!(tx.output[0].value.to_sat(), req.amount_in_satoshi);
    let signed = bitcoin::consensus::serialize(&tx);

    let passed = withdraw_build_outcome(Some(signed.clone())).unwrap();
    assert_eq!(passed, signed);
    let txid = withdraw_broadcast_outcome(true, &signed).unwrap();
    assert_eq!(txid, tx.compute_txid().to_string());
}

#[test]
fn withdraw_failure_outcomes() {
    let none: Vec<Utxo> = Vec::new();
    assert_eq!(withdraw_check_utxos(&none).unwrap_err(), HtlcError::NoFunds);
    assert_eq!(
        withdraw_build_outcome(None).unwrap_err(),
        HtlcError::InsufficientFunds
    );
    let garbage = vec![1u8, 2, 3];
    assert_eq!(
        withdraw_broadcast_outcome(false, &garbage).unwrap_err(),
        HtlcError::BroadcastFailure
    );
    assert_eq!(
        withdraw_broadcast_outcome(true, &garbage).unwrap_err(),
        HtlcError::ExternalServiceFailure
    );
}

#[test]
fn derivation_account_truncates_the_order_number() {
    assert_eq!(derivation_account(7), 7);
    assert_eq!(derivation_account(0x1_0000_0005), 5);
}

#[test]
fn error_text_is_stable() {
    assert_eq!(HtlcError::InvalidAmount.text(), "amount must be greater than 0");
    assert_eq!(HtlcError::OrderNotFound.text(), "order not found");
}

#[test]
fn order_snapshot_round_trip() {
    let mut s = OrderStorage::new();
    s.create_order(P1.to_string(), 144, HASH.to_string());
    s.create_order(P2.to_string(), 7, HASH.to_string());
    let key = p1_key_bytes();
    s.complete_funding_address(1, &key, Network::Regtest).unwrap();
    let snapshot = s.get_all_orders();
    let restored = OrderStorage::from_entries(snapshot).unwrap();
    assert_eq!(restored.get_next_order_no(), 3);
    let d1 = restored.get_order(1).unwrap();
    assert_eq!(d1.time_lock, 144);
    assert!(d1.htlc_address.is_some());
    let d2 = restored.get_order(2).unwrap();
    assert_eq!(d2.initiator_pubkey, P2);
    assert!(restored.get_order(3).is_none());
}

#[test]
fn order_snapshot_rejects_bad_keys() {
    let d = |p: &str| htlc_orders::orders::HtlcDetail {
        initiator_pubkey: p.to_string(),
        time_lock: 1,
        secret_hash: HASH.to_string(),
        htlc_address: None,
    };
    // A duplicate number.
    assert!(OrderStorage::from_entries(vec![(1, d(P1)), (1, d(P2))]).is_none());
    // A gap: numbers must be exactly 1..=len.
    assert!(OrderStorage::from_entries(vec![(1, d(P1)), (3, d(P2))]).is_none());
    // Zero was never handed out.
    assert!(OrderStorage::from_entries(vec![(0, d(P1))]).is_none());
    // Order of the pairs does not matter.
    let s = OrderStorage::from_entries(vec![(2, d(P2)), (1, d(P1))]).unwrap();
    assert_eq!(s.get_order(1).unwrap().initiator_pubkey, P1);
    assert_eq!(s.get_order(2).unwrap().initiator_pubkey, P2);
}

#[test]
fn invalid_funding_key_is_an_external_failure() {
    let mut s = OrderStorage::new();
    s.create_order(P1.to_string(), 144, HASH.to_string());
    let junk = vec![0u8; 33];
    assert_eq!(
        s.complete_funding_address(1, &junk, Network::Regtest).unwrap_err(),
        HtlcError::ExternalServiceFailure
    );
    assert_eq!(
        s.complete_funding_address(9, &junk, Network::Regtest).unwrap_err(),
        HtlcError::OrderNotFound
    );
}

#[test]
fn timelock_extremes_still_encode() {
    // The script builder casts the time lock through i64; u64::MAX becomes
    // the one-byte encoding of -1.
    for t in [u64::MAX, i64::MAX as u64] {
        let mine =
            build_redeem_script(&HASH.to_string(), &P1.to_string(), &P2.to_string(), t).unwrap();
        let hash_bytes: [u8; 32] = hex::decode(HASH).unwrap().try_into().unwrap();
        let init = <bitcoin::PublicKey as std::str::FromStr>::from_str(P1).unwrap();
        let resp = <bitcoin::PublicKey as std::str::FromStr>::from_str(P2).unwrap();
        let theirs = bitcoin::ScriptBuf::builder()
            .push_opcode(bitcoin::opcodes::all::OP_IF)
            .push_opcode(bitcoin::opcodes::all::OP_SHA256)
            .push_slice(hash_bytes)
            .push_opcode(bitcoin::opcodes::all::OP_EQUALVERIFY)
            .push_key(&resp)
            .push_opcode(bitcoin::opcodes::all::OP_CHECKSIG)
            .push_opcode(bitcoin::opcodes::all::OP_ELSE)
            .push_int(t as i64)
            .push_opcode(bitcoin::opcodes::all::OP_CSV)
            .push_opcode(bitcoin::opcodes::all::OP_DROP)
            .push_key(&init)
            .push_opcode(bitcoin::opcodes::all::OP_CHECKSIG)
            .push_opcode(bitcoin::opcodes::all::OP_ENDIF)
            .into_script();
        assert_eq!(mine, theirs.as_bytes().to_vec(), "time lock {}", t);
    }
    // 2^63 is i64::MIN after the cast; its script number needs nine bytes
    // (the reference builder's fixed buffer cannot hold that), encoded as a
    // push of eight magnitude bytes plus a negative sign byte.
    let s = build_redeem_script(&HASH.to_string(), &P1.to_string(), &P2.to_string(), 1u64 << 63)
        .unwrap();
    let push = [0x09, 0x00, 0x00, 0x00, 0x00, 0x00, 0x00, 0x00, 0x80, 0x80];
    assert!(s.windows(push.len()).any(|w| w == push));
}

#[test]
fn uncompressed_initiator_key_is_accepted_in_scripts() {
    // The generator point, uncompressed: 65 bytes in the key push.
    let p1_unc = "0479be667ef9dcbbac55a06295ce870b07029bfcdb2dce28d959f2815b16f81798483ada7726a3c4655da4fbfc0e1108a8fd17b448a68554199c47d08ffb10d4b8";
    let s =
        build_redeem_script(&HASH.to_string(), &p1_unc.to_string(), &P2.to_string(), 5).unwrap();
    // 0x41 = 65, the push length of the uncompressed initiator key.
    assert!(s.windows(1).any(|w| w == [0x41]));
    let init = <bitcoin::PublicKey as std::str::FromStr>::from_str(p1_unc).unwrap();
    let resp = <bitcoin::PublicKey as std::str::FromStr>::from_str(P2).unwrap();
    let hash_bytes: [u8; 32] = hex::decode(HASH).unwrap().try_into().unwrap();
    let theirs = bitcoin::ScriptBuf::builder()
        .push_opcode(bitcoin::opcodes::all::OP_IF)
        .push_opcode(bitcoin::opcodes::all::OP_SHA256)
        .push_slice(hash_bytes)
        .push_opcode(bitcoin::opcodes::all::OP_EQUALVERIFY)
        .push_key(&resp)
        .push_opcode(bitcoin::opcodes::all::OP_CHECKSIG)
        .push_opcode(bitcoin::opcodes::all::OP_ELSE)
        .push_int(5)
        .push_opcode(bitcoin::opcodes::all::OP_CSV)
        .push_opcode(bitcoin::opcodes::all::OP_DROP)
        .push_key(&init)
        .push_opcode(bitcoin::opcodes::all::OP_CHECKSIG)
        .push_opcode(bitcoin::opcodes::all::OP_ENDIF)
        .into_script();
    assert_eq!(s, theirs.as_bytes().to_vec());
}

#[test]
fn withdraw_rejects_bad_stored_fields() {
    // Orders are stored without validation; a withdrawal surfaces the
    // problems in the stored hash or initiator key.
    let mut s = OrderStorage::new();
    s.create_order(P1.to_string(), 1, "nothex".to_string());
    let r = withdraw_from_order(&s, 1, &P2.to_string(), 1000, Network::Regtest);
    assert_eq!(r.unwrap_err(), HtlcError::InvalidHash);

    let mut s = OrderStorage::new();
    s.create_order("badkey".to_string(), 1, HASH.to_string());
    let r = withdraw_from_order(&s, 1, &P2.to_string(), 1000, Network::Regtest);
    assert_eq!(r.unwrap_err(), HtlcError::InvalidPublicKey);
}
