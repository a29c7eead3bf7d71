//! Rounding of exact ratios.
use vstd::prelude::*;

verus! {

/// The whole number nearest to `n / d`, the even one of two that are equally
/// near.
pub open spec fn nearest(n: nat, d: nat) -> nat {
    let q = n / d;
    let r = n % d;
    if 2 * r > d || (2 * r == d && q % 2 == 1) {
        q + 1
    } else {
        q
    }
}

/// The whole number nearest to `n / d`, the even one of two that are equally
/// near.
pub fn round_ratio(n: u64, d: u64) -> (r: u64)
    requires
        1 < d <= 0x7fff_ffff_ffff_ffff,
    ensures
        r == nearest(n as nat, d as nat),
{
    let q: u64 = n / d;
    let rest: u64 = n % d;
    assert(q <= n / 2) by (nonlinear_arith)
        requires
            q == n / d,
            1 < d,
    ;
    if 2 * rest > d || (2 * rest == d && q % 2 == 1) {
        q + 1
    } else {
        q
    }
}

/// What is nearest is at most half away.
pub proof fn nearest_is_near(n: nat, d: nat)
    requires
        d > 0,
    ensures
        2 * n <= 2 * nearest(n, d) * d + d,
        2 * nearest(n, d) * d <= 2 * n + d,
{
    let q = n / d;
    let r = n % d;
    assert(n == q * d + r && r < d) by (nonlinear_arith)
        requires
            d > 0,
            q == n / d,
            r == n % d,
    ;
    assert((q + 1) * d == q * d + d) by (nonlinear_arith);
    assert(2 * nearest(n, d) * d == 2 * (nearest(n, d) * d)) by (nonlinear_arith);
}

/// A number where only signed ones are kept: what does not fit wraps round.
pub open spec fn as_i32(n: u32) -> int {
    if n <= i32::MAX {
        n as int
    } else {
        n - 0x1_0000_0000
    }
}

/// A number where only signed ones are kept: what does not fit wraps round.
pub fn to_i32(n: u32) -> (r: i32)
    ensures
        r == as_i32(n),
{
    if n <= 0x7fff_ffff {
        n as i32
    } else {
        (n as i64 - 0x1_0000_0000) as i32
    }
}

/// The whole number nearest to `n / d`, the even one of two that are equally
/// near.
pub fn round_wide_ratio(n: u128, d: u128) -> (r: u128)
    requires
        1 < d <= 0xffff_ffff_ffff_ffff,
    ensures
        r == nearest(n as nat, d as nat),
{
    let q: u128 = n / d;
    let rest: u128 = n % d;
    assert(q <= n / 2) by (nonlinear_arith)
        requires
            q == n / d,
            1 < d,
    ;
    if 2 * rest > d || (2 * rest == d && q % 2 == 1) {
        q + 1
    } else {
        q
    }
}

/// How far apart the floating point numbers of double precision stand at `n`,
/// looked for from `d` upwards.
pub open spec fn spacing(n: nat, d: nat) -> nat
    decreases n - d,
{
    if d == 0 || n / d < 0x20_0000_0000_0000 {
        d
    } else {
        proof {
            assert(2 * d <= n) by (nonlinear_arith)
                requires
                    n / d >= 2,
                    d > 0,
            ;
        }
        spacing(n, 2 * d)
    }
}

/// The floating point number of double precision that is nearest to a whole
/// number; it is a whole number itself.
pub open spec fn as_double(n: nat) -> nat {
    let d = spacing(n, 1);
    if d == 1 {
        n
    } else {
        nearest(n, d) * d
    }
}

/// The floating point number of double precision that is nearest to a whole
/// number.
pub fn to_double(n: u64) -> (r: u128)
    ensures
        r == as_double(n as nat),
        r <= 0x1_0000_0000_0000_0000,
{
    let mut d: u64 = 1;
    while n / d >= 0x20_0000_0000_0000
        invariant
            d == 1 || d == 2 || d == 4 || d == 8 || d == 0x10 || d == 0x20 || d == 0x40 || d == 0x80
                || d == 0x100 || d == 0x200 || d == 0x400 || d == 0x800,
            spacing(n as nat, 1) == spacing(n as nat, d as nat),
        decreases 0x1000 - d,
    {
        assert(d < 0x800) by (nonlinear_arith)
            requires
                n / d >= 0x20_0000_0000_0000,
                d >= 1,
                n <= 0xffff_ffff_ffff_ffff,
        ;
        d = d * 2;
    }
    if d == 1 {
        return n as u128;
    }
    let m: u64 = round_ratio(n, d);
    assert(m <= 0x20_0000_0000_0000);
    assert(m * d <= 0x1_0000_0000_0000_0000) by (nonlinear_arith)
        requires
            m <= 0x20_0000_0000_0000,
            d <= 0x800,
    ;
    m as u128 * d as u128
}

/// Whole numbers of up to 53 bits are floating point numbers themselves.
pub proof fn small_numbers_are_exact(n: nat)
    requires
        n < 0x20_0000_0000_0000,
    ensures
        as_double(n) == n,
{
}

/// A number keeps its lower bits when it becomes a signed one.
pub proof fn signed_numbers_keep_their_bits(n: u32)
    ensures
        i32::MIN <= as_i32(n) <= i32::MAX,
        as_i32(n) % 0x1_0000_0000 == n,
        n < 0x8000_0000 ==> as_i32(n) == n,
{
}

/// Halfway between two numbers the even one is chosen.
pub proof fn halves_go_to_the_even_number(q: nat, d: nat)
    requires
        d > 0,
    ensures
        nearest((2 * q + 1) * d, 2 * d) % 2 == 0,
        q % 2 == 0 ==> nearest((2 * q + 1) * d, 2 * d) == q,
        q % 2 == 1 ==> nearest((2 * q + 1) * d, 2 * d) == q + 1,
{
    let n = (2 * q + 1) * d;
    assert(n == q * (2 * d) + d) by (nonlinear_arith)
        requires
            n == (2 * q + 1) * d,
    ;
    vstd::arithmetic::div_mod::lemma_fundamental_div_mod_converse(
        n as int,
        2 * d as int,
        q as int,
        d as int,
    );
}

} // verus!
