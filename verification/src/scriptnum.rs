//! Script integers: the minimal push encoding Bitcoin script uses for
//! numbers, covering every `u64` time lock (cast through `i64`, as the
//! script builder does, so values at and above 2^63 encode as negatives).

use vstd::prelude::*;

verus! {

/// The little-endian bytes of `v`, least significant first, no trailing zero.
pub open spec fn le_bytes(v: nat) -> Seq<u8>
    decreases v,
{
    if v == 0 {
        seq![]
    } else {
        seq![(v % 256) as u8] + le_bytes(v / 256)
    }
}

/// The signed-magnitude script-number bytes for magnitude `mag` with sign
/// `neg`: little-endian magnitude, the top bit of the last byte carrying the
/// sign, with an extra sign byte when the magnitude already uses that bit.
pub open spec fn scriptint_bytes(mag: nat, neg: bool) -> Seq<u8>
    recommends
        mag > 0,
{
    let b = le_bytes(mag);
    if b.last() >= 0x80 {
        b + seq![if neg { 0x80u8 } else { 0u8 }]
    } else if neg {
        b.update(b.len() - 1, (b.last() + 0x80) as u8)
    } else {
        b
    }
}

/// The `i64` value the script builder encodes for the time lock `t`.
pub open spec fn timelock_int(t: u64) -> int {
    if t <= 0x7fff_ffff_ffff_ffff {
        t as int
    } else {
        t - 0x1_0000_0000_0000_0000
    }
}

/// The script instructions that push the number `n` onto the stack, as
/// `bitcoin`'s script builder emits them: dedicated one-byte opcodes for
/// -1 and 0..=16, a length-prefixed data push otherwise.
pub open spec fn spec_push_int(n: int) -> Seq<u8> {
    if n == 0 {
        seq![0x00u8]
    } else if n == -1 {
        seq![0x4fu8]
    } else if 1 <= n <= 16 {
        seq![(0x50 + n) as u8]
    } else {
        let mag = if n < 0 {
            (-n) as nat
        } else {
            n as nat
        };
        let b = scriptint_bytes(mag, n < 0);
        seq![b.len() as u8] + b
    }
}

/// The push of the time lock `t`, as `bitcoin`'s script builder emits for
/// `push_int(t as i64)`.
pub open spec fn spec_push_timelock(t: u64) -> Seq<u8> {
    spec_push_int(timelock_int(t))
}

/// `le_bytes` of a positive number is non-empty and at most 8 bytes for a
/// `u64` magnitude.
proof fn lemma_le_bytes_len(v: nat)
    requires
        v > 0,
    ensures
        1 <= le_bytes(v).len(),
        v < 0x1_0000_0000_0000_0000 ==> le_bytes(v).len() <= 8,
{
    let v1 = v / 256;
    let v2 = v1 / 256;
    let v3 = v2 / 256;
    let v4 = v3 / 256;
    let v5 = v4 / 256;
    let v6 = v5 / 256;
    let v7 = v6 / 256;
    assert(le_bytes(v).len() == 1 + le_bytes(v1).len());
    if v < 0x1_0000_0000_0000_0000 {
        assert(v1 < 0x100_0000_0000_0000) by (nonlinear_arith)
            requires v < 0x1_0000_0000_0000_0000 && v1 == v / 256;
        assert(v2 < 0x1_0000_0000_0000) by (nonlinear_arith)
            requires v1 < 0x100_0000_0000_0000 && v2 == v1 / 256;
        assert(v3 < 0x100_0000_0000) by (nonlinear_arith)
            requires v2 < 0x1_0000_0000_0000 && v3 == v2 / 256;
        assert(v4 < 0x1_0000_0000) by (nonlinear_arith)
            requires v3 < 0x100_0000_0000 && v4 == v3 / 256;
        assert(v5 < 0x100_0000) by (nonlinear_arith)
            requires v4 < 0x1_0000_0000 && v5 == v4 / 256;
        assert(v6 < 0x1_0000) by (nonlinear_arith)
            requires v5 < 0x100_0000 && v6 == v5 / 256;
        assert(v7 < 0x100) by (nonlinear_arith)
            requires v6 < 0x1_0000 && v7 == v6 / 256;
        assert(v7 / 256 == 0);
        assert(le_bytes(v1).len() <= 1 + le_bytes(v2).len());
        assert(le_bytes(v2).len() <= 1 + le_bytes(v3).len());
        assert(le_bytes(v3).len() <= 1 + le_bytes(v4).len());
        assert(le_bytes(v4).len() <= 1 + le_bytes(v5).len());
        assert(le_bytes(v5).len() <= 1 + le_bytes(v6).len());
        assert(le_bytes(v6).len() <= 1 + le_bytes(v7).len());
        assert(le_bytes(v7).len() <= 1 + le_bytes(v7 / 256).len());
        assert(le_bytes(0nat).len() == 0);
    }
}

/// Appends the little-endian bytes of `mag` to `buf`.
fn push_le_bytes(buf: &mut Vec<u8>, mag: u64)
    requires
        mag > 0,
    ensures
        final(buf)@ == old(buf)@ + le_bytes(mag as nat),
{
    let ghost start = buf@;
    let mut v: u64 = mag;
    while v > 0
        invariant
            start + le_bytes(mag as nat) == buf@ + le_bytes(v as nat),
        decreases v,
    {
        let ghost pre = v as nat;
        buf.push((v % 256) as u8);
        v = v / 256;
        proof {
            assert(le_bytes(pre) == seq![(pre % 256) as u8] + le_bytes(pre / 256));
            assert(buf@ + le_bytes(v as nat) =~= buf@.drop_last() + le_bytes(pre));
        }
    }
    proof {
        assert(le_bytes(0nat) =~= Seq::<u8>::empty());
        assert(buf@ =~= start + le_bytes(mag as nat));
    }
}

/// Appends to `script` the push of the time lock `t`, exactly as the
/// `bitcoin` builder's `push_int(t as i64)` emits it.
pub fn push_timelock(script: &mut Vec<u8>, t: u64)
    ensures
        final(script)@ == old(script)@ + spec_push_timelock(t),
{
    if t == 0 {
        script.push(0x00u8);
        proof {
            assert(script@ =~= old(script)@ + spec_push_timelock(t));
        }
    } else if t <= 16 {
        script.push(0x50u8 + (t as u8));
        proof {
            assert(script@ =~= old(script)@ + spec_push_timelock(t));
        }
    } else if t == 0xffff_ffff_ffff_ffff {
        // As an i64 this is -1, which has its own opcode.
        script.push(0x4fu8);
        proof {
            assert(timelock_int(t) == -1);
            assert(script@ =~= old(script)@ + spec_push_timelock(t));
        }
    } else {
        let neg = t > 0x7fff_ffff_ffff_ffff;
        let mag: u64 = if neg {
            // The magnitude of the negative value t - 2^64.
            (0xffff_ffff_ffff_ffffu64 - t) + 1
        } else {
            t
        };
        proof {
            assert(mag == if timelock_int(t) < 0 {
                -timelock_int(t)
            } else {
                timelock_int(t)
            });
            assert(mag > 0);
        }
        let mut b: Vec<u8> = Vec::new();
        push_le_bytes(&mut b, mag);
        proof {
            lemma_le_bytes_len(mag as nat);
            assert(b@ == le_bytes(mag as nat));
        }
        let last = b[b.len() - 1];
        if last >= 0x80 {
            b.push(if neg { 0x80u8 } else { 0u8 });
        } else if neg {
            let n = b.len();
            b.set(n - 1, last + 0x80);
        }
        proof {
            assert(b@ =~= scriptint_bytes(mag as nat, neg));
        }
        script.push(b.len() as u8);
        let mut tail = b;
        script.append(&mut tail);
        proof {
            assert(spec_push_timelock(t) == seq![
                scriptint_bytes(mag as nat, neg).len() as u8,
            ] + scriptint_bytes(mag as nat, neg));
            assert(script@ =~= old(script)@ + spec_push_timelock(t));
        }
    }
}

} // verus!
