//! Verified text helpers: decimal rendering of integers and the greeting.

use vstd::prelude::*;
use vstd::string::StrSliceExecFns;
use vstd::string::StringExecFns;

verus! {

/// The decimal digit character for `d`, where `0 <= d <= 9`.
pub open spec fn dec_digit(d: int) -> char {
    if d == 0 {
        '0'
    } else if d == 1 {
        '1'
    } else if d == 2 {
        '2'
    } else if d == 3 {
        '3'
    } else if d == 4 {
        '4'
    } else if d == 5 {
        '5'
    } else if d == 6 {
        '6'
    } else if d == 7 {
        '7'
    } else if d == 8 {
        '8'
    } else {
        '9'
    }
}

/// The standard decimal rendering of `n`, most significant digit first,
/// without leading zeros (and `0` itself rendered as "0").
pub open spec fn dec_str(n: nat) -> Seq<char>
    decreases n,
{
    if n < 10 {
        seq![dec_digit(n as int)]
    } else {
        dec_str(n / 10) + seq![dec_digit((n % 10) as int)]
    }
}

/// The digits collected least-significant first, read back most-significant
/// first.
spec fn rev_digits(ds: Seq<u64>) -> Seq<char>
    decreases ds.len(),
{
    if ds.len() == 0 {
        seq![]
    } else {
        seq![dec_digit((ds.last() % 10) as int)] + rev_digits(ds.drop_last())
    }
}

/// Renders `n` in decimal.
pub fn u64_to_dec(n: u64) -> (s: String)
    ensures
        s@ == dec_str(n as nat),
{
    let digits = "0123456789";
    proof {
        reveal_strlit("0123456789");
    }
    let mut rev: Vec<u64> = Vec::new();
    let mut v: u64 = n;
    while v >= 10
        invariant
            dec_str(n as nat) == dec_str(v as nat) + rev_digits(rev@),
        decreases v,
    {
        let ghost pre_rev = rev@;
        let ghost pre_v = v as nat;
        rev.push(v % 10);
        v = v / 10;
        proof {
            assert(rev@.last() == pre_v % 10);
            assert(rev@.drop_last() =~= pre_rev);
            assert(rev_digits(rev@) == seq![dec_digit((pre_v % 10) as int)] + rev_digits(pre_rev));
            assert(dec_str(pre_v) == dec_str(pre_v / 10) + seq![dec_digit((pre_v % 10) as int)]);
        }
    }
    let d0: usize = v as usize;
    let mut s = String::from_str(digits.substring_char(d0, d0 + 1));
    proof {
        assert(s@ =~= seq![dec_digit(v as int)]);
        assert(s@ == dec_str(v as nat));
    }
    proof {
        assert(rev@.take(rev@.len() as int) =~= rev@);
    }
    let mut i: usize = rev.len();
    while i > 0
        invariant
            i <= rev.len(),
            digits@ == "0123456789"@,
            s@ + rev_digits(rev@.take(i as int)) == dec_str(n as nat),
        decreases i,
    {
        proof {
            reveal_strlit("0123456789");
        }
        let d: usize = (rev[i - 1] % 10) as usize;
        s.append(digits.substring_char(d, d + 1));
        proof {
            assert(digits@.subrange(d as int, d as int + 1) =~= seq![dec_digit(d as int)]);
            assert(rev@.take(i as int).last() == rev@[i - 1]);
            assert(rev@.take(i as int).drop_last() =~= rev@.take(i - 1));
            assert(rev_digits(rev@.take(i as int)) == seq![
                dec_digit((rev@[i - 1] % 10) as int),
            ] + rev_digits(rev@.take(i - 1)));
            assert(seq![dec_digit((rev@[i - 1] % 10) as int)] =~= seq![dec_digit(d as int)]);
        }
        i = i - 1;
    }
    proof {
        assert(rev@.take(0) =~= Seq::<u64>::empty());
        assert(rev_digits(Seq::<u64>::empty()) =~= Seq::<char>::empty());
        assert(s@ =~= dec_str(n as nat));
    }
    s
}

/// Returns the greeting `Hello, <name>!`.
pub fn greet(name: String) -> (r: String)
    ensures
        r@ == "Hello, "@ + name@ + "!"@,
{
    let mut s = String::from_str("Hello, ");
    s.append(name.as_str());
    s.append("!");
    s
}

} // verus!
