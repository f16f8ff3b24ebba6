//! Hex decoding of secret hashes: the mathematical definition, and the
//! executable decoder supplied by the `hex` crate.

use vstd::prelude::*;

verus! {

/// Whether `c` is an ASCII hex digit (either case).
pub open spec fn is_hex_digit(c: char) -> bool {
    ('0' <= c && c <= '9') || ('a' <= c && c <= 'f') || ('A' <= c && c <= 'F')
}

/// The value of the hex digit `c`.
pub open spec fn hex_val(c: char) -> int {
    if '0' <= c && c <= '9' {
        c as int - '0' as int
    } else if 'a' <= c && c <= 'f' {
        c as int - 'a' as int + 10
    } else {
        c as int - 'A' as int + 10
    }
}

/// Whether `s` is a well-formed hex string: even length, hex digits only.
pub open spec fn is_hex_seq(s: Seq<char>) -> bool {
    s.len() % 2 == 0 && (forall|i: int| 0 <= i < s.len() ==> is_hex_digit(#[trigger] s[i]))
}

/// The bytes denoted by the hex string `s`, two digits per byte.
pub open spec fn hex_decode_seq(s: Seq<char>) -> Seq<u8>
    decreases s.len(),
{
    if s.len() < 2 {
        seq![]
    } else {
        seq![(hex_val(s[0]) * 16 + hex_val(s[1])) as u8] + hex_decode_seq(s.skip(2))
    }
}

/// Whether `s` denotes a 32-byte value, the length of a SHA-256 digest.
pub open spec fn is_valid_secret_hash(s: Seq<char>) -> bool {
    is_hex_seq(s) && hex_decode_seq(s).len() == 32
}

/// Relies on `hex::decode`: it succeeds exactly on strings of hex digits of
/// even length (a string with a character outside ASCII hex is rejected, as
/// every byte of such a character falls outside the digit ranges), and then
/// returns one byte per digit pair, high digit first.
#[verifier::external_body]
pub(crate) fn hex_decode_exec(s: &String) -> (r: Option<Vec<u8>>)
    ensures
        r is Some <==> is_hex_seq(s@),
        r is Some ==> r.unwrap()@ == hex_decode_seq(s@),
{
    match hex::decode(s.as_str()) {
        Ok(v) => Some(v),
        Err(_) => None,
    }
}

} // verus!
