//! Byte-level helpers of the program: the little-endian encoding of a nonce and the
//! comparison of two 32-byte keys.

use vstd::prelude::*;
use vstd::arithmetic::div_mod::{lemma_div_denominator, lemma_mod_breakdown, lemma_small_mod};
use vstd::arithmetic::power::{lemma_pow_increases, lemma_pow_positive, pow};

verus! {

/// Byte `i` of `x` in little-endian order: `x / 256^i` reduced modulo 256.
pub open spec fn le_byte(x: u128, i: nat) -> u8 {
    ((x as int / pow(256, i)) % 256) as u8
}

/// The value that the first `n` bytes of `bytes` encode, read little-endian.
pub open spec fn le_value(bytes: Seq<u8>, n: nat) -> int
    decreases n,
{
    if n == 0 {
        0
    } else {
        le_value(bytes, (n - 1) as nat) + bytes[n - 1] * pow(256, (n - 1) as nat)
    }
}

/// The sixteen little-endian bytes of a `u128`, as `u128::to_le_bytes` gives them.
pub fn nonce_to_le_bytes(x: u128) -> (bytes: [u8; 16])
    ensures
        forall|i: int| 0 <= i < 16 ==> #[trigger] bytes[i] == le_byte(x, i as nat),
{
    let mut bytes = [0u8; 16];
    let mut v: u128 = x;
    let mut i: usize = 0;
    proof {
        reveal(pow);
    }
    while i < 16
        invariant
            0 <= i <= 16,
            v == x as int / pow(256, i as nat),
            forall|j: int| 0 <= j < i ==> #[trigger] bytes[j] == le_byte(x, j as nat),
        decreases 16 - i,
    {
        proof {
            reveal(pow);
            lemma_pow_positive(256, i as nat);
            lemma_div_denominator(x as int, pow(256, i as nat), 256);
            assert(pow(256, (i + 1) as nat) == 256 * pow(256, i as nat));
            assert(pow(256, i as nat) * 256 == 256 * pow(256, i as nat)) by (nonlinear_arith);
        }
        bytes[i] = (v % 256) as u8;
        v = v / 256;
        i = i + 1;
    }
    bytes
}

/// The first `n` little-endian bytes of `x` encode `x` reduced modulo `256^n`.
pub proof fn lemma_le_bytes_prefix_value(x: u128, bytes: Seq<u8>, n: nat)
    requires
        n <= bytes.len(),
        forall|i: int| 0 <= i < n ==> #[trigger] bytes[i] == le_byte(x, i as nat),
    ensures
        le_value(bytes, n) == (x as int) % pow(256, n),
    decreases n,
{
    reveal(pow);
    if n == 0 {
        assert(pow(256, 0) == 1);
    } else {
        let k = (n - 1) as nat;
        lemma_le_bytes_prefix_value(x, bytes, k);
        lemma_pow_positive(256, k);
        assert(pow(256, n) == 256 * pow(256, k));
        assert(pow(256, k) * 256 == 256 * pow(256, k)) by (nonlinear_arith);
        lemma_mod_breakdown(x as int, pow(256, k), 256);
        assert(bytes[k as int] == le_byte(x, k));
        assert(0 <= (x as int / pow(256, k)) % 256 < 256);
        assert(bytes[k as int] as int == (x as int / pow(256, k)) % 256);
        assert(bytes[k as int] * pow(256, k) == pow(256, k) * ((x as int / pow(256, k)) % 256))
            by (nonlinear_arith)
            requires
                bytes[k as int] as int == (x as int / pow(256, k)) % 256,
        ;
    }
}

/// Reading the sixteen little-endian bytes of `x` back gives `x`.
pub proof fn lemma_le_bytes_roundtrip(x: u128, bytes: [u8; 16])
    requires
        forall|i: int| 0 <= i < 16 ==> #[trigger] bytes[i] == le_byte(x, i as nat),
    ensures
        le_value(bytes@, 16) == x,
{
    assert forall|i: int| 0 <= i < 16 implies #[trigger] bytes@[i] == le_byte(x, i as nat) by {
        assert(bytes@[i] == bytes[i]);
    }
    lemma_le_bytes_prefix_value(x, bytes@, 16);
    lemma_pow_256_16();
    lemma_small_mod(x as nat, pow(256, 16) as nat);
}

/// `256^16`, one past the largest `u128`.
proof fn lemma_pow_256_16()
    ensures
        pow(256, 16) == 0x1_0000_0000_0000_0000_0000_0000_0000_0000,
{
    reveal_with_fuel(pow, 17);
}

/// The `u128` that sixteen little-endian bytes encode, as `u128::from_le_bytes` reads it.
pub fn nonce_from_le_bytes(bytes: [u8; 16]) -> (x: u128)
    ensures
        x as int == le_value(bytes@, 16),
{
    let mut acc: u128 = 0;
    let mut i: usize = 16;
    proof {
        reveal(pow);
    }
    while i > 0
        invariant
            i <= 16,
            acc * pow(256, i as nat) + le_value(bytes@, i as nat) == le_value(bytes@, 16),
            acc < pow(256, (16 - i) as nat),
        decreases i,
    {
        let b = bytes[i - 1];
        proof {
            reveal(pow);
            let k = (i - 1) as nat;
            let p = pow(256, k);
            let q = pow(256, (16 - i) as nat);
            lemma_pow_positive(256, k);
            assert(pow(256, i as nat) == 256 * p);
            assert(pow(256, (17 - i) as nat) == 256 * q);
            lemma_pow_increases(256, (17 - i) as nat, 16);
            lemma_pow_256_16();
            assert(b == bytes@[k as int]);
            assert(le_value(bytes@, i as nat) == le_value(bytes@, k) + b * p);
            assert(acc * 256 + b < 256 * q) by (nonlinear_arith)
                requires
                    acc < q,
                    b < 256,
            ;
            assert((acc * 256 + b) * p + le_value(bytes@, k) == acc * (256 * p) + le_value(
                bytes@,
                k,
            ) + b * p) by (nonlinear_arith);
        }
        acc = acc * 256 + b as u128;
        i = i - 1;
    }
    proof {
        reveal(pow);
        let one = pow(256, i as nat);
        assert(acc * one == acc) by (nonlinear_arith)
            requires
                one == 1,
        ;
    }
    acc
}

/// Sixteen bytes whose byte `i` is `x / 256^i` modulo 256 read back, little-endian, as `x`.
pub proof fn lemma_le_bytes_read_back(x: u128, bytes: Seq<u8>)
    requires
        bytes.len() == 16,
        forall|i: int| 0 <= i < 16 ==> #[trigger] bytes[i] as int == (x as int / pow(256, i as nat))
            % 256,
    ensures
        le_value(bytes, 16) == x,
{
    assert forall|i: int| 0 <= i < 16 implies #[trigger] bytes[i] == le_byte(x, i as nat) by {
        lemma_pow_positive(256, i as nat);
        assert(0 <= (x as int / pow(256, i as nat)) % 256 < 256);
    }
    lemma_le_bytes_prefix_value(x, bytes, 16);
    lemma_pow_256_16();
    lemma_small_mod(x as nat, pow(256, 16) as nat);
}

/// Whether two 32-byte keys are equal.
pub fn bytes32_eq(a: &[u8; 32], b: &[u8; 32]) -> (equal: bool)
    ensures
        equal == (a@ == b@),
{
    let mut i: usize = 0;
    while i < 32
        invariant
            0 <= i <= 32,
            forall|j: int| 0 <= j < i ==> a@[j] == b@[j],
        decreases 32 - i,
    {
        if a[i] != b[i] {
            assert(a@[i as int] != b@[i as int]);
            return false;
        }
        i = i + 1;
    }
    assert(a@ =~= b@);
    true
}

} // verus!
