//! Fixed-width unsigned integers as bytes: the little- and big-endian value of
//! a byte run, little-endian encoding, and checked reads from a byte slice.
use vstd::prelude::*;

verus! {

/// `256` to the power `n`.
pub open spec fn pow256(n: nat) -> nat
    decreases n,
{
    if n == 0 {
        1
    } else {
        256 * pow256((n - 1) as nat)
    }
}

/// The `n` low bytes of `v`, least significant first.
pub open spec fn le_bytes(v: nat, n: nat) -> Seq<u8>
    decreases n,
{
    if n == 0 {
        Seq::empty()
    } else {
        le_bytes(v, (n - 1) as nat).push(((v / pow256((n - 1) as nat)) % 256) as u8)
    }
}

/// The value of a byte run read least significant byte first.
pub open spec fn le_value(s: Seq<u8>) -> nat
    decreases s.len(),
{
    if s.len() == 0 {
        0
    } else {
        s[0] as nat + 256 * le_value(s.drop_first())
    }
}

/// The value of a byte run read most significant byte first.
pub open spec fn be_value(s: Seq<u8>) -> nat
    decreases s.len(),
{
    if s.len() == 0 {
        0
    } else {
        be_value(s.drop_last()) * 256 + s.last() as nat
    }
}

/// The unsigned integer of `n` bytes at `off` in `b`, in the given byte order.
pub open spec fn uint_at(b: Seq<u8>, off: int, n: int, le: bool) -> nat {
    if le {
        le_value(b.subrange(off, off + n))
    } else {
        be_value(b.subrange(off, off + n))
    }
}

/// Whether `n` bytes at `off` lie inside `b`.
pub open spec fn in_bounds(b: Seq<u8>, off: int, n: int) -> bool {
    0 <= off && 0 <= n && off + n <= b.len()
}

pub proof fn lemma_pow256_facts()
    ensures
        pow256(0) == 1,
        pow256(1) == 0x100,
        pow256(2) == 0x10000,
        pow256(4) == 0x1_0000_0000,
        pow256(8) == 0x1_0000_0000_0000_0000,
{
    reveal_with_fuel(pow256, 9);
}

pub proof fn lemma_pow256_monotone(a: nat, b: nat)
    requires
        a <= b,
    ensures
        pow256(a) <= pow256(b),
        pow256(a) >= 1,
    decreases b,
{
    if b > a {
        lemma_pow256_monotone(a, (b - 1) as nat);
    } else if a > 0 {
        lemma_pow256_monotone((a - 1) as nat, (a - 1) as nat);
    }
}

pub proof fn lemma_le_value_bound(s: Seq<u8>)
    ensures
        le_value(s) < pow256(s.len()),
    decreases s.len(),
{
    if s.len() > 0 {
        lemma_le_value_bound(s.drop_first());
    }
}

pub proof fn lemma_be_value_bound(s: Seq<u8>)
    ensures
        be_value(s) < pow256(s.len()),
    decreases s.len(),
{
    if s.len() > 0 {
        lemma_be_value_bound(s.drop_last());
    }
}

/// Reading back `n` little-endian bytes of `v` gives `v`, when `v` fits.
pub proof fn lemma_le_round_trip(v: nat, n: nat)
    requires
        v < pow256(n),
    ensures
        le_bytes(v, n).len() == n,
        le_value(le_bytes(v, n)) == v,
    decreases n,
{
    lemma_le_bytes_len(v, n);
    if n > 0 {
        let m = (n - 1) as nat;
        let lo = v % pow256(m);
        lemma_pow256_monotone(0, m);
        assert(v == lo + pow256(m) * (v / pow256(m))) by {
            vstd::arithmetic::div_mod::lemma_fundamental_div_mod(v as int, pow256(m) as int);
        }
        let p = pow256(m) as int;
        let q = v as int / p;
        assert(v as int % p >= 0) by {
            vstd::arithmetic::div_mod::lemma_mod_pos_bound(v as int, p);
        }
        assert(q < 256) by (nonlinear_arith)
            requires
                v as int == p * q + v as int % p,
                v as int % p >= 0,
                (v as int) < 256 * p,
                p > 0,
        ;
        lemma_le_prefix_value(v, m);
        lemma_le_value_split(le_bytes(v, m), ((v / pow256(m)) % 256) as u8);
        lemma_le_bytes_len(v, m);
    }
}

pub proof fn lemma_le_bytes_len(v: nat, n: nat)
    ensures
        le_bytes(v, n).len() == n,
    decreases n,
{
    if n > 0 {
        lemma_le_bytes_len(v, (n - 1) as nat);
    }
}

/// The low `n` bytes of `v` read back as `v % 256^n`.
proof fn lemma_le_prefix_value(v: nat, n: nat)
    ensures
        le_value(le_bytes(v, n)) == v % pow256(n),
    decreases n,
{
    lemma_le_bytes_len(v, n);
    if n == 0 {
    } else {
        let m = (n - 1) as nat;
        lemma_le_prefix_value(v, m);
        lemma_le_bytes_len(v, m);
        lemma_le_value_split(le_bytes(v, m), ((v / pow256(m)) % 256) as u8);
        lemma_pow256_monotone(0, m);
        let p = pow256(m) as int;
        assert(v as int % (256 * p) == v as int % p + p * ((v as int / p) % 256)) by {
            vstd::arithmetic::div_mod::lemma_breakdown(v as int, p, 256);
            vstd::arithmetic::mul::lemma_mul_is_commutative(p, 256);
        }
    }
}

/// Appending a byte `x` to a run of length `k` adds `x * 256^k` to its value.
proof fn lemma_le_value_split(s: Seq<u8>, x: u8)
    ensures
        le_value(s.push(x)) == le_value(s) + pow256(s.len()) * x,
    decreases s.len(),
{
    if s.len() == 0 {
        assert(s.push(x).drop_first() =~= Seq::<u8>::empty());
        assert(le_value(s.push(x).drop_first()) == 0);
        assert(s.push(x)[0] == x);
        assert(pow256(0) == 1);
    } else {
        assert(s.push(x).drop_first() =~= s.drop_first().push(x));
        assert(s.push(x)[0] == s[0]);
        lemma_le_value_split(s.drop_first(), x);
        let a = le_value(s.drop_first()) as int;
        let p = pow256(s.drop_first().len()) as int;
        assert(pow256(s.len()) == 256 * p);
        assert(256 * (a + p * x) == 256 * a + (256 * p) * x) by (nonlinear_arith);
    }
}

/// Appends the `n` low bytes of `v` to `out`, least significant first.
pub fn put_le(out: &mut Vec<u8>, v: u64, n: usize)
    requires
        n <= 8,
    ensures
        final(out)@ == old(out)@ + le_bytes(v as nat, n as nat),
{
    let mut x: u64 = v;
    let mut i: usize = 0;
    proof {
        lemma_pow256_monotone(0, 0);
        assert(old(out)@ + le_bytes(v as nat, 0) =~= old(out)@);
    }
    while i < n
        invariant
            i <= n,
            n <= 8,
            x as nat == v as nat / pow256(i as nat),
            out@ == old(out)@ + le_bytes(v as nat, i as nat),
        decreases n - i,
    {
        proof {
            lemma_pow256_monotone(0, i as nat);
            vstd::arithmetic::div_mod::lemma_div_denominator(v as int, pow256(i as nat) as int, 256);
            vstd::arithmetic::mul::lemma_mul_is_commutative(pow256(i as nat) as int, 256);
        }
        out.push((x % 256) as u8);
        x = x / 256;
        i = i + 1;
        proof {
            assert(out@ =~= old(out)@ + le_bytes(v as nat, i as nat));
        }
    }
}

/// Appends the bytes of `src` to `out`.
pub fn put_bytes(out: &mut Vec<u8>, src: &[u8])
    ensures
        final(out)@ == old(out)@ + src@,
{
    let mut i: usize = 0;
    while i < src.len()
        invariant
            i <= src@.len(),
            out@ == old(out)@ + src@.subrange(0, i as int),
        decreases src@.len() - i,
    {
        out.push(src[i]);
        i = i + 1;
        proof {
            assert(out@ =~= old(out)@ + src@.subrange(0, i as int));
        }
    }
    proof {
        assert(src@.subrange(0, src@.len() as int) =~= src@);
    }
}

/// `n` zero bytes.
pub open spec fn zeros(n: nat) -> Seq<u8> {
    Seq::new(n, |i: int| 0u8)
}

/// Appends `n` zero bytes to `out`.
pub fn put_zeros(out: &mut Vec<u8>, n: usize)
    ensures
        final(out)@ == old(out)@ + zeros(n as nat),
{
    let mut i: usize = 0;
    while i < n
        invariant
            i <= n,
            out@ == old(out)@ + zeros(i as nat),
        decreases n - i,
    {
        out.push(0u8);
        i = i + 1;
        proof {
            assert(out@ =~= old(out)@ + zeros(i as nat));
        }
    }
}

/// Reads the unsigned integer of `n` bytes at `off`, or `None` where the
/// bytes run past the end of `b`.
pub fn read_uint(b: &[u8], off: usize, n: usize, le: bool) -> (r: Option<u64>)
    requires
        1 <= n <= 8,
    ensures
        r is Some <==> in_bounds(b@, off as int, n as int),
        r matches Some(v) ==> v as nat == uint_at(b@, off as int, n as int, le),
        r matches Some(v) ==> (v as nat) < pow256(n as nat),
{
    if off > b.len() || n > b.len() - off {
        return None;
    }
    let ghost s = b@.subrange(off as int, off + n);
    let mut acc: u64 = 0;
    if le {
        let mut k: usize = n;
        while k > 0
            invariant
                k <= n <= 8,
                off + n <= b.len(),
                s == b@.subrange(off as int, off + n),
                acc as nat == le_value(s.subrange(k as int, n as int)),
                (acc as nat) < pow256((n - k) as nat),
            decreases k,
        {
            proof {
                lemma_pow256_monotone((n - k + 1) as nat, 8);
                lemma_pow256_facts();
                let t = s.subrange(k - 1, n as int);
                assert(t.drop_first() =~= s.subrange(k as int, n as int));
                assert(t[0] == b@[off + k - 1]);
            }
            acc = acc * 256 + b[off + k - 1] as u64;
            k = k - 1;
        }
        proof {
            assert(s.subrange(0, n as int) =~= s);
        }
    } else {
        let mut k: usize = 0;
        while k < n
            invariant
                k <= n <= 8,
                off + n <= b.len(),
                s == b@.subrange(off as int, off + n),
                acc as nat == be_value(s.subrange(0, k as int)),
                (acc as nat) < pow256(k as nat),
            decreases n - k,
        {
            proof {
                lemma_pow256_monotone((k + 1) as nat, 8);
                lemma_pow256_facts();
                let t = s.subrange(0, k + 1);
                assert(t.drop_last() =~= s.subrange(0, k as int));
                assert(t.last() == b@[off + k]);
            }
            acc = acc * 256 + b[off + k] as u64;
            k = k + 1;
        }
        proof {
            assert(s.subrange(0, n as int) =~= s);
        }
    }
    Some(acc)
}

} // verus!
