//! Big-endian byte encodings of unsigned integers, the base layer of the
//! wire format: every length prefix and every numeric field of a frame is a
//! fixed-width big-endian value.

use vstd::prelude::*;
use vstd::arithmetic::div_mod::lemma_fundamental_div_mod;
use vstd::slice::slice_index_get;

verus! {

/// 256 raised to `n`: the number of values `n` bytes can carry.
pub open spec fn pow256(n: nat) -> nat
    decreases n,
{
    if n == 0 {
        1
    } else {
        256 * pow256((n - 1) as nat)
    }
}

/// The value of `s` read as a big-endian number.
pub open spec fn be_val(s: Seq<u8>) -> nat
    decreases s.len(),
{
    if s.len() == 0 {
        0
    } else {
        (be_val(s.drop_last()) * 256 + s.last()) as nat
    }
}

/// The `n`-byte big-endian encoding of `x % pow256(n)`.
pub open spec fn be_enc(x: nat, n: nat) -> Seq<u8>
    decreases n,
{
    if n == 0 {
        Seq::empty()
    } else {
        be_enc(x / 256, (n - 1) as nat).push((x % 256) as u8)
    }
}

pub proof fn lemma_pow256_increases(m: nat, n: nat)
    requires
        m <= n,
    ensures
        pow256(m) <= pow256(n),
    decreases n,
{
    if m < n {
        lemma_pow256_increases(m, (n - 1) as nat);
    }
}

pub proof fn lemma_be_enc_len(x: nat, n: nat)
    ensures
        be_enc(x, n).len() == n,
    decreases n,
{
    if n > 0 {
        lemma_be_enc_len(x / 256, (n - 1) as nat);
    }
}

pub proof fn lemma_be_val_bound(s: Seq<u8>)
    ensures
        be_val(s) < pow256(s.len()),
    decreases s.len(),
{
    if s.len() > 0 {
        lemma_be_val_bound(s.drop_last());
    }
}

/// Decoding inverts encoding: a value below `pow256(n)` comes back intact
/// from its `n`-byte big-endian form.
pub proof fn lemma_be_roundtrip(x: nat, n: nat)
    requires
        x < pow256(n),
    ensures
        be_val(be_enc(x, n)) == x,
    decreases n,
{
    if n > 0 {
        let q = x / 256;
        let r = x % 256;
        lemma_fundamental_div_mod(x as int, 256);
        assert(q < pow256((n - 1) as nat)) by {
            if q >= pow256((n - 1) as nat) {
                assert(x >= 256 * pow256((n - 1) as nat));
            }
        }
        lemma_be_roundtrip(q, (n - 1) as nat);
        let e = be_enc(x, n);
        lemma_be_enc_len(q, (n - 1) as nat);
        assert(e.drop_last() =~= be_enc(q, (n - 1) as nat));
        assert(be_val(e) == be_val(e.drop_last()) * 256 + r);
    }
}

/// Appends the `n`-byte big-endian encoding of `x` to `v`.
pub fn be_extend(v: &mut Vec<u8>, x: u64, n: usize)
    ensures
        final(v)@ == old(v)@ + be_enc(x as nat, n as nat),
    decreases n,
{
    if n == 0 {
        assert(final(v)@ =~= old(v)@ + be_enc(x as nat, 0));
    } else {
        let pre = Ghost(v@);
        be_extend(v, x / 256, n - 1);
        v.push((x % 256) as u8);
        assert(final(v)@ =~= pre@ + be_enc(x as nat, n as nat)) by {
            assert((x / 256) as nat == (x as nat) / 256);
            assert((x % 256) as nat == (x as nat) % 256);
        }
    }
}

/// Reads the `n`-byte big-endian value at `pos`.
pub fn be_read(b: &[u8], pos: usize, n: usize) -> (x: u64)
    requires
        n <= 8,
        pos + n <= b@.len(),
    ensures
        x as nat == be_val(b@.subrange(pos as int, pos + n)),
    decreases n,
{
    if n == 0 {
        assert(b@.subrange(pos as int, pos as int) =~= Seq::empty());
        0
    } else {
        let hi = be_read(b, pos, n - 1);
        let s = Ghost(b@.subrange(pos as int, pos + n));
        proof {
            lemma_be_val_bound(b@.subrange(pos as int, pos + n - 1));
            lemma_pow256_increases((n - 1) as nat, 7);
            assert(pow256(7) == 0x100000000000000) by {
                reveal_with_fuel(pow256, 8);
            }
            assert(s@.drop_last() =~= b@.subrange(pos as int, pos + n - 1));
            assert(s@.last() == b@[pos + n - 1]);
        }
        // the slice's length fits a usize, so the index below cannot overflow
        let _len: usize = b.len();
        let lo = *slice_index_get(b, pos + (n - 1));
        hi * 256 + (lo as u64)
    }
}

} // verus!
