//! Powers of two: the size arithmetic of the evaluation domains.

use vstd::prelude::*;

verus! {

/// `2^e`.
pub open spec fn pow2(e: nat) -> nat
    decreases e,
{
    if e == 0 {
        1
    } else {
        2 * pow2((e - 1) as nat)
    }
}

/// Whether `n` is a power of two.
pub open spec fn is_pow2(n: nat) -> bool
    decreases n,
{
    if n == 0 {
        false
    } else if n == 1 {
        true
    } else {
        n % 2 == 0 && is_pow2(n / 2)
    }
}

pub proof fn lemma_pow2_pos(e: nat)
    ensures
        pow2(e) >= 1,
    decreases e,
{
    if e > 0 {
        lemma_pow2_pos((e - 1) as nat);
    }
}

pub proof fn lemma_pow2_gt(e: nat)
    ensures
        pow2(e) > e,
    decreases e,
{
    if e > 0 {
        lemma_pow2_gt((e - 1) as nat);
    }
}

pub proof fn lemma_is_pow2_pos(n: nat)
    requires
        is_pow2(n),
    ensures
        n >= 1,
{
    if n == 0 {
        assert(!is_pow2(0));
    }
}

/// The product of two powers of two is a power of two.
pub proof fn lemma_is_pow2_mul(a: nat, b: nat)
    requires
        is_pow2(a),
        is_pow2(b),
    ensures
        is_pow2(a * b),
    decreases a,
{
    lemma_is_pow2_pos(a);
    lemma_is_pow2_pos(b);
    if a == 1 {
        assert(a * b == b);
    } else {
        lemma_is_pow2_mul(a / 2, b);
        assert((a * b) % 2 == 0 && (a * b) / 2 == (a / 2) * b && a * b >= 2) by (nonlinear_arith)
            requires
                a % 2 == 0,
                a >= 2,
                b >= 1,
        ;
    }
}

/// Two powers of two with `a <= b < 2 * a` coincide.
pub proof fn lemma_is_pow2_between(a: nat, b: nat)
    requires
        is_pow2(a),
        is_pow2(b),
        a <= b < 2 * a,
    ensures
        a == b,
    decreases a,
{
    lemma_is_pow2_pos(a);
    lemma_is_pow2_pos(b);
    if a == 1 {
        assert(b == 1);
    } else {
        if b == 1 {
            assert(false);
        } else {
            lemma_is_pow2_between(a / 2, b / 2);
        }
    }
}

/// Position `t * s + u` of a value inside segment `t` of size `s` lies
/// before the end of the first `i` segments.
pub proof fn lemma_flat_index(t: int, u: int, i: int, s: int)
    requires
        0 <= t < i,
        0 <= u < s,
    ensures
        0 <= t * s + u,
        t * s + u < i * s,
{
    assert(0 <= t * s + u && t * s + u < i * s) by (nonlinear_arith)
        requires
            0 <= t < i,
            0 <= u < s,
    ;
}

/// Position `j * s + e` with `e` below `s` decomposes back into `j` and
/// `e` by division and remainder.
pub proof fn lemma_flat_div_mod(j: int, e: int, s: int)
    requires
        0 <= j,
        0 <= e < s,
    ensures
        (j * s + e) / s == j,
        (j * s + e) % s == e,
{
    vstd::arithmetic::div_mod::lemma_fundamental_div_mod_converse(j * s + e, s, j, e);
}

/// A position below `len * slot` falls in slot `x / slot`, which is below
/// `len`.
pub proof fn lemma_div_range(x: int, len: int, slot: int)
    requires
        slot >= 1,
        0 <= x < len * slot,
    ensures
        0 <= x / slot < len,
        0 <= x % slot < slot,
{
    vstd::arithmetic::div_mod::lemma_fundamental_div_mod(x, slot);
    vstd::arithmetic::div_mod::lemma_mod_bound(x, slot);
    if x / slot < 0 {
        assert(false) by (nonlinear_arith)
            requires
                x == slot * (x / slot) + (x % slot),
                x / slot <= -1,
                slot >= 1,
                0 <= x % slot < slot,
                x >= 0,
        ;
    }
    if x / slot >= len {
        assert(false) by (nonlinear_arith)
            requires
                x == slot * (x / slot) + (x % slot),
                x / slot >= len,
                slot >= 1,
                0 <= x % slot,
                x < len * slot,
        ;
    }
}

/// `pow2` is monotone.
pub proof fn lemma_pow2_le(a: nat, b: nat)
    requires
        a <= b,
    ensures
        pow2(a) <= pow2(b),
    decreases b,
{
    if a < b {
        lemma_pow2_le(a, (b - 1) as nat);
        lemma_pow2_pos((b - 1) as nat);
    }
}

/// The values of `pow2` at the two-adicity of the BN254 scalar field and
/// at the machine word width.
pub proof fn lemma_pow2_values()
    ensures
        pow2(28) == 0x1000_0000,
        pow2(64) == 0x1_0000_0000_0000_0000,
{
    assert(pow2(0) == 0x1);
    assert(pow2(1) == 0x2);
    assert(pow2(2) == 0x4);
    assert(pow2(3) == 0x8);
    assert(pow2(4) == 0x10);
    assert(pow2(5) == 0x20);
    assert(pow2(6) == 0x40);
    assert(pow2(7) == 0x80);
    assert(pow2(8) == 0x100);
    assert(pow2(9) == 0x200);
    assert(pow2(10) == 0x400);
    assert(pow2(11) == 0x800);
    assert(pow2(12) == 0x1000);
    assert(pow2(13) == 0x2000);
    assert(pow2(14) == 0x4000);
    assert(pow2(15) == 0x8000);
    assert(pow2(16) == 0x10000);
    assert(pow2(17) == 0x20000);
    assert(pow2(18) == 0x40000);
    assert(pow2(19) == 0x80000);
    assert(pow2(20) == 0x100000);
    assert(pow2(21) == 0x200000);
    assert(pow2(22) == 0x400000);
    assert(pow2(23) == 0x800000);
    assert(pow2(24) == 0x1000000);
    assert(pow2(25) == 0x2000000);
    assert(pow2(26) == 0x4000000);
    assert(pow2(27) == 0x8000000);
    assert(pow2(28) == 0x10000000);
    assert(pow2(29) == 0x20000000);
    assert(pow2(30) == 0x40000000);
    assert(pow2(31) == 0x80000000);
    assert(pow2(32) == 0x100000000);
    assert(pow2(33) == 0x200000000);
    assert(pow2(34) == 0x400000000);
    assert(pow2(35) == 0x800000000);
    assert(pow2(36) == 0x1000000000);
    assert(pow2(37) == 0x2000000000);
    assert(pow2(38) == 0x4000000000);
    assert(pow2(39) == 0x8000000000);
    assert(pow2(40) == 0x10000000000);
    assert(pow2(41) == 0x20000000000);
    assert(pow2(42) == 0x40000000000);
    assert(pow2(43) == 0x80000000000);
    assert(pow2(44) == 0x100000000000);
    assert(pow2(45) == 0x200000000000);
    assert(pow2(46) == 0x400000000000);
    assert(pow2(47) == 0x800000000000);
    assert(pow2(48) == 0x1000000000000);
    assert(pow2(49) == 0x2000000000000);
    assert(pow2(50) == 0x4000000000000);
    assert(pow2(51) == 0x8000000000000);
    assert(pow2(52) == 0x10000000000000);
    assert(pow2(53) == 0x20000000000000);
    assert(pow2(54) == 0x40000000000000);
    assert(pow2(55) == 0x80000000000000);
    assert(pow2(56) == 0x100000000000000);
    assert(pow2(57) == 0x200000000000000);
    assert(pow2(58) == 0x400000000000000);
    assert(pow2(59) == 0x800000000000000);
    assert(pow2(60) == 0x1000000000000000);
    assert(pow2(61) == 0x2000000000000000);
    assert(pow2(62) == 0x4000000000000000);
    assert(pow2(63) == 0x8000000000000000);
    assert(pow2(64) == 0x10000000000000000);
}

/// The powers of two up to the machine word width satisfy `is_pow2`.
pub proof fn lemma_is_pow2_64()
    ensures
        is_pow2(64),
{
    assert(is_pow2(1));
    assert(is_pow2(2));
    assert(is_pow2(4));
    assert(is_pow2(8));
    assert(is_pow2(16));
    assert(is_pow2(32));
    assert(is_pow2(64));
}

/// Whether `n` is a power of two, decided in logarithmic time.
pub fn is_power_of_two(n: usize) -> (r: bool)
    ensures
        r == is_pow2(n as nat),
{
    if n == 0 {
        return false;
    }
    let mut m: usize = n;
    while m > 1
        invariant
            1 <= m,
            is_pow2(n as nat) == is_pow2(m as nat),
        decreases m,
    {
        if m % 2 != 0 {
            return false;
        }
        m = m / 2;
    }
    true
}

/// The base-two logarithm of a power of two.
pub fn log2_of_pow2(n: usize) -> (r: usize)
    requires
        is_pow2(n as nat),
    ensures
        pow2(r as nat) == n as nat,
{
    let mut m: usize = n;
    let mut r: usize = 0;
    proof {
        assert(pow2(0) == 1);
    }
    while m > 1
        invariant
            1 <= m,
            is_pow2(m as nat),
            pow2(r as nat) * m == n as nat,
        decreases m,
    {
        proof {
            lemma_pow2_gt(r as nat);
            assert(pow2(r as nat) <= n as nat) by (nonlinear_arith)
                requires
                    pow2(r as nat) * (m as nat) == n as nat,
                    m >= 1,
            ;
            assert(pow2((r + 1) as nat) * ((m as nat) / 2) == n as nat) by (nonlinear_arith)
                requires
                    pow2(r as nat) * (m as nat) == n as nat,
                    m as nat % 2 == 0,
                    pow2((r + 1) as nat) == 2 * pow2(r as nat),
            ;
        }
        m = m / 2;
        r = r + 1;
    }
    r
}

} // verus!
