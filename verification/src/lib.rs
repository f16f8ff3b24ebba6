//! A verified core for hashed-timelock-contract (HTLC) deposit orders.
//!
//! An initiator registers the parameters of a planned HTLC (time lock, secret
//! hash, own public key) and obtains an order number; a deterministic
//! single-signature funding address is derived per order; once a responder is
//! known, a two-branch redeem script (hash-lock / time-lock) and its escrow
//! address are built, and a withdrawal moving funds from the funding address
//! into escrow is orchestrated step by step.  The asynchronous collaborators
//! (key-derivation service, UTXO provider, fee oracle, broadcaster) stay
//! outside; this crate holds the data model, the validation and the byte-exact
//! script construction, with contracts verified by Verus.

pub mod errors;
pub mod text;
pub mod hexutil;
pub mod btc;
pub mod scriptnum;
pub mod script;
pub mod orders;
pub mod withdraw;
pub mod people;
