//! The Bitcoin-facing boundary: the network tag, and the calls into the
//! `bitcoin` crate that the logic needs (key parsing, address encoding,
//! transaction-id computation).  Each call stands behind a trusted wrapper
//! whose contract names its result; everything around the calls is verified.

use vstd::prelude::*;

verus! {

/// The Bitcoin network an address is encoded for.
#[derive(Clone, Copy, PartialEq, Eq, Structural, Debug)]
pub enum Network {
    Mainnet,
    Testnet,
    Signet,
    Regtest,
}

impl Network {
    /// A distinct tag per network, used to index the address functions below.
    pub open spec fn spec_id(self) -> int {
        match self {
            Network::Mainnet => 0,
            Network::Testnet => 1,
            Network::Signet => 2,
            Network::Regtest => 3,
        }
    }
}

/// The bytes that `bitcoin::PublicKey::from_str` accepts for the string `s`:
/// `Some` exactly when `s` is 66 or 130 hex digits encoding a point on the
/// curve, and then the SEC-encoded key bytes.
pub uninterp spec fn pubkey_parse(s: Seq<char>) -> Option<Seq<u8>>;

/// Whether `bitcoin::CompressedPublicKey::from_slice` accepts the bytes `b`
/// as an encoded secp256k1 point.  Note that secp256k1's parser, to which it
/// delegates, also accepts the 65-byte uncompressed encoding of a point; the
/// key is then re-serialized compressed.
pub uninterp spec fn is_compressed_pubkey(b: Seq<u8>) -> bool;

/// The pay-to-witness-public-key-hash address of the key bytes `key` on the
/// network with tag `network`, as `bitcoin::Address::p2wpkh` encodes it.
pub uninterp spec fn p2wpkh_address(key: Seq<u8>, network: int) -> Seq<char>;

/// The pay-to-witness-script-hash address of the script bytes `script` on the
/// network with tag `network`, as `bitcoin::Address::p2wsh` encodes it.
pub uninterp spec fn p2wsh_address(script: Seq<u8>, network: int) -> Seq<char>;

/// The canonical transaction id of the consensus-serialized transaction `tx`:
/// `Some` exactly when `tx` deserializes as a Bitcoin transaction, and then
/// the id that `Transaction::compute_txid` renders.
pub uninterp spec fn decoded_txid(tx: Seq<u8>) -> Option<Seq<char>>;

/// Relies on `bitcoin::PublicKey::from_str` and `PublicKey::to_bytes`:
/// parsing succeeds exactly on 66 or 130 hex digits that encode a curve
/// point, and serializing back yields the 33- or 65-byte SEC encoding, a
/// function of the string alone.
#[verifier::external_body]
pub(crate) fn pubkey_parse_exec(s: &String) -> (r: Option<Vec<u8>>)
    ensures
        r is Some <==> pubkey_parse(s@) is Some,
        r is Some ==> r.unwrap()@ == pubkey_parse(s@).unwrap() && (r.unwrap()@.len() == 33
            || r.unwrap()@.len() == 65),
{
    match <bitcoin::PublicKey as core::str::FromStr>::from_str(s.as_str()) {
        Ok(k) => Some(k.to_bytes()),
        Err(_) => None,
    }
}

/// Relies on `bitcoin::Address::p2wpkh` (with
/// `CompressedPublicKey::from_slice` converting the argument and `to_string`
/// rendering the result): the address is a function of the key bytes and the
/// network alone, and the conversion accepts exactly the encodings of
/// secp256k1 points.
#[verifier::external_body]
pub(crate) fn p2wpkh_address_exec(key: &Vec<u8>, network: Network) -> (r: Option<String>)
    ensures
        r is Some <==> is_compressed_pubkey(key@),
        r is Some ==> r.unwrap()@ == p2wpkh_address(key@, network.spec_id()),
{
    let net = match network {
        Network::Mainnet => bitcoin::Network::Bitcoin,
        Network::Testnet => bitcoin::Network::Testnet,
        Network::Signet => bitcoin::Network::Signet,
        Network::Regtest => bitcoin::Network::Regtest,
    };
    match bitcoin::CompressedPublicKey::from_slice(key.as_slice()) {
        Ok(k) => Some(bitcoin::Address::p2wpkh(&k, net).to_string()),
        Err(_) => None,
    }
}

/// Relies on `bitcoin::Address::p2wsh` (with `Script::from_bytes` converting
/// the argument and `to_string` rendering the result): the address commits to
/// the script's SHA-256 and is a function of the script bytes and the network
/// alone.
#[verifier::external_body]
pub(crate) fn p2wsh_address_exec(script: &Vec<u8>, network: Network) -> (r: String)
    ensures
        r@ == p2wsh_address(script@, network.spec_id()),
{
    let net = match network {
        Network::Mainnet => bitcoin::Network::Bitcoin,
        Network::Testnet => bitcoin::Network::Testnet,
        Network::Signet => bitcoin::Network::Signet,
        Network::Regtest => bitcoin::Network::Regtest,
    };
    let s = bitcoin::Script::from_bytes(script.as_slice());
    bitcoin::Address::p2wsh(s, net).to_string()
}

/// Relies on `bitcoin::consensus::deserialize` and
/// `Transaction::compute_txid` (with `to_string` rendering the result): the
/// id is the double SHA-256 of the stripped serialization, a function of the
/// bytes alone, and decoding succeeds exactly on well-formed serialized
/// transactions.
#[verifier::external_body]
pub(crate) fn txid_exec(tx: &Vec<u8>) -> (r: Option<String>)
    ensures
        r is Some <==> decoded_txid(tx@) is Some,
        r is Some ==> r.unwrap()@ == decoded_txid(tx@).unwrap(),
{
    match bitcoin::consensus::deserialize::<bitcoin::Transaction>(tx.as_slice()) {
        Ok(t) => Some(t.compute_txid().to_string()),
        Err(_) => None,
    }
}

} // verus!
