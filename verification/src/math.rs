use vstd::prelude::*;
use crate::error::PlatformError;

verus! {

/// `base` to the power `exp`.
pub open spec fn pow(base: nat, exp: nat) -> nat
    decreases exp,
{
    if exp == 0 {
        1
    } else {
        base * pow(base, (exp - 1) as nat)
    }
}

/// Ten to the power `exp`.
pub open spec fn pow10(exp: nat) -> nat {
    pow(10, exp)
}

/// A power of a positive base is positive.
pub proof fn lemma_pow_positive(base: nat, exp: nat)
    requires
        base >= 1,
    ensures
        pow(base, exp) >= 1,
    decreases exp,
{
    if exp > 0 {
        lemma_pow_positive(base, (exp - 1) as nat);
        assert(base * pow(base, (exp - 1) as nat) >= 1) by (nonlinear_arith)
            requires
                base >= 1,
                pow(base, (exp - 1) as nat) >= 1,
        ;
    }
}

/// A power of a positive base does not shrink when the exponent grows.
pub proof fn lemma_pow_monotonic(base: nat, e1: nat, e2: nat)
    requires
        base >= 1,
        e1 <= e2,
    ensures
        pow(base, e1) <= pow(base, e2),
    decreases e2,
{
    if e1 < e2 {
        lemma_pow_monotonic(base, e1, (e2 - 1) as nat);
        lemma_pow_positive(base, (e2 - 1) as nat);
        assert(pow(base, (e2 - 1) as nat) <= base * pow(base, (e2 - 1) as nat))
            by (nonlinear_arith)
            requires
                base >= 1,
                pow(base, (e2 - 1) as nat) >= 1,
        ;
    }
}

/// Exponents add when powers of one base are multiplied.
pub proof fn lemma_pow_adds(base: nat, e1: nat, e2: nat)
    ensures
        pow(base, e1 + e2) == pow(base, e1) * pow(base, e2),
    decreases e1,
{
    if e1 == 0 {
        assert(pow(base, e1) == 1);
        assert(e1 + e2 == e2);
    } else {
        lemma_pow_adds(base, (e1 - 1) as nat, e2);
        let a = pow(base, (e1 - 1) as nat);
        let b = pow(base, e2);
        assert(pow(base, e1 + e2) == base * pow(base, (e1 + e2 - 1) as nat));
        assert((e1 + e2 - 1) as nat == (e1 - 1) as nat + e2);
        assert(base * (a * b) == (base * a) * b) by (nonlinear_arith);
    }
}

/// The powers of ten at the edges of the 64-bit and 128-bit ranges.
pub proof fn lemma_pow10_bounds()
    ensures
        pow10(0) == 1,
        pow10(4) == 10_000,
        pow10(6) == 1_000_000,
        pow10(9) == 1_000_000_000,
        pow10(19) == 10_000_000_000_000_000_000,
        pow10(19) <= u64::MAX,
        pow10(20) > u64::MAX,
        pow10(38) == 100_000_000_000_000_000_000_000_000_000_000_000_000,
        pow10(38) <= u128::MAX,
        pow10(39) > u128::MAX,
{
    reveal_with_fuel(pow, 11);
    assert(pow10(4) == 10_000);
    assert(pow10(6) == 1_000_000);
    assert(pow10(9) == 1_000_000_000);
    assert(pow10(10) == 10_000_000_000);
    lemma_pow_adds(10, 10, 9);
    assert(pow10(19) == 10_000_000_000_000_000_000);
    lemma_pow_adds(10, 10, 10);
    assert(pow10(20) == 100_000_000_000_000_000_000);
    lemma_pow_adds(10, 19, 19);
    assert(pow10(38) == 100_000_000_000_000_000_000_000_000_000_000_000_000);
    lemma_pow_adds(10, 38, 1);
    assert(pow10(1) == 10);
    assert(pow10(39) == 1_000_000_000_000_000_000_000_000_000_000_000_000_000);
}

/// What a checked operation on `u64` returns for the exact result `value`.
pub open spec fn fit_u64(value: int) -> Result<u64, PlatformError> {
    if 0 <= value <= u64::MAX {
        Ok(value as u64)
    } else {
        Err(PlatformError::MathOverflow)
    }
}

/// What a checked operation on `u128` returns for the exact result `value`.
pub open spec fn fit_u128(value: int) -> Result<u128, PlatformError> {
    if 0 <= value <= u128::MAX {
        Ok(value as u128)
    } else {
        Err(PlatformError::MathOverflow)
    }
}

/// What a checked operation on `i32` returns for the exact result `value`.
pub open spec fn fit_i32(value: int) -> Result<i32, PlatformError> {
    if i32::MIN <= value <= i32::MAX {
        Ok(value as i32)
    } else {
        Err(PlatformError::MathOverflow)
    }
}

/// What a checked operation on `i64` returns for the exact result `value`.
pub open spec fn fit_i64(value: int) -> Result<i64, PlatformError> {
    if i64::MIN <= value <= i64::MAX {
        Ok(value as i64)
    } else {
        Err(PlatformError::MathOverflow)
    }
}

/// The sum, or `MathOverflow` when it does not fit.
pub fn checked_add(a: u64, b: u64) -> (r: Result<u64, PlatformError>)
    ensures
        r == fit_u64(a + b),
{
    match a.checked_add(b) {
        Some(v) => Ok(v),
        None => Err(PlatformError::MathOverflow),
    }
}

/// The difference, or `MathOverflow` when `b` is the larger.
pub fn checked_sub(a: u64, b: u64) -> (r: Result<u64, PlatformError>)
    ensures
        r == fit_u64(a - b),
{
    match a.checked_sub(b) {
        Some(v) => Ok(v),
        None => Err(PlatformError::MathOverflow),
    }
}

/// The product, or `MathOverflow` when it does not fit.
pub fn checked_mul(a: u64, b: u64) -> (r: Result<u64, PlatformError>)
    ensures
        r == fit_u64(a * b),
{
    assert(a * b >= 0) by (nonlinear_arith)
        requires
            a >= 0,
            b >= 0,
    ;
    match a.checked_mul(b) {
        Some(v) => Ok(v),
        None => Err(PlatformError::MathOverflow),
    }
}

/// The quotient rounded down, or `MathOverflow` when `b` is zero.
pub fn checked_div(a: u64, b: u64) -> (r: Result<u64, PlatformError>)
    ensures
        b == 0 ==> r == Err::<u64, PlatformError>(PlatformError::MathOverflow),
        b != 0 ==> r == Ok::<u64, PlatformError>(a / b),
{
    if b == 0 {
        Err(PlatformError::MathOverflow)
    } else {
        Ok(a / b)
    }
}

/// The sum of two exponents, or `MathOverflow` when it does not fit.
pub fn checked_add_i32(a: i32, b: i32) -> (r: Result<i32, PlatformError>)
    ensures
        r == fit_i32(a + b),
{
    match a.checked_add(b) {
        Some(v) => Ok(v),
        None => Err(PlatformError::MathOverflow),
    }
}

/// The difference of two exponents, or `MathOverflow` when it does not fit.
pub fn checked_sub_i32(a: i32, b: i32) -> (r: Result<i32, PlatformError>)
    ensures
        r == fit_i32(a - b),
{
    match a.checked_sub(b) {
        Some(v) => Ok(v),
        None => Err(PlatformError::MathOverflow),
    }
}

/// The sum of two times, or `MathOverflow` when it does not fit.
pub fn checked_add_i64(a: i64, b: i64) -> (r: Result<i64, PlatformError>)
    ensures
        r == fit_i64(a + b),
{
    match a.checked_add(b) {
        Some(v) => Ok(v),
        None => Err(PlatformError::MathOverflow),
    }
}

/// `a - b`, kept inside the range of `i64`.
pub open spec fn saturating_sub_i64_spec(a: i64, b: i64) -> i64 {
    if a - b > i64::MAX {
        i64::MAX
    } else if a - b < i64::MIN {
        i64::MIN
    } else {
        (a - b) as i64
    }
}

/// The difference of two times, held at the nearest end of the range when it
/// does not fit.
pub fn saturating_sub_i64(a: i64, b: i64) -> (r: i64)
    ensures
        r == saturating_sub_i64_spec(a, b),
{
    match a.checked_sub(b) {
        Some(v) => v,
        None => if b < 0 {
            i64::MAX
        } else {
            i64::MIN
        },
    }
}

/// The product, or `MathOverflow` when it does not fit.
pub fn checked_mul_u128(a: u128, b: u128) -> (r: Result<u128, PlatformError>)
    ensures
        r == fit_u128(a * b),
{
    assert(a * b >= 0) by (nonlinear_arith)
        requires
            a >= 0,
            b >= 0,
    ;
    match a.checked_mul(b) {
        Some(v) => Ok(v),
        None => Err(PlatformError::MathOverflow),
    }
}

/// The quotient rounded down, or `MathOverflow` when `b` is zero.
pub fn checked_div_u128(a: u128, b: u128) -> (r: Result<u128, PlatformError>)
    ensures
        b == 0 ==> r == Err::<u128, PlatformError>(PlatformError::MathOverflow),
        b != 0 ==> r == Ok::<u128, PlatformError>(a / b),
{
    if b == 0 {
        Err(PlatformError::MathOverflow)
    } else {
        Ok(a / b)
    }
}

/// `a / b` rounded up, for a positive `b`.
pub open spec fn ceil_div(a: int, b: int) -> int {
    if a % b == 0 {
        a / b
    } else {
        a / b + 1
    }
}

/// The quotient rounded up, or `MathOverflow` when `b` is zero.
pub fn checked_ceil_div(a: u128, b: u128) -> (r: Result<u128, PlatformError>)
    ensures
        b == 0 ==> r == Err::<u128, PlatformError>(PlatformError::MathOverflow),
        b != 0 ==> r == Ok::<u128, PlatformError>(ceil_div(a as int, b as int) as u128),
        b != 0 ==> ceil_div(a as int, b as int) <= a,
{
    if b == 0 {
        return Err(PlatformError::MathOverflow);
    }
    let q = a / b;
    let rem = a % b;
    if rem == 0 {
        Ok(q)
    } else {
        assert(q < a) by (nonlinear_arith)
            requires
                b > 0,
                q == a / b,
                a % b != 0,
                a >= 0,
        ;
        Ok(q + 1)
    }
}

/// The same number as a `u64`, or `MathOverflow` when it does not fit.
pub fn checked_as_u64(a: u128) -> (r: Result<u64, PlatformError>)
    ensures
        r == fit_u64(a as int),
{
    if a > u64::MAX as u128 {
        Err(PlatformError::MathOverflow)
    } else {
        Ok(a as u64)
    }
}

/// `base` to the power `exp`, or `MathOverflow` when it does not fit.
pub fn checked_pow(base: u64, exp: usize) -> (r: Result<u64, PlatformError>)
    ensures
        r == fit_u64(pow(base as nat, exp as nat) as int),
{
    if base == 0 {
        if exp == 0 {
            return Ok(1);
        } else {
            assert(pow(0, exp as nat) == 0nat * pow(0, (exp - 1) as nat));
            return Ok(0);
        }
    }
    if base == 1 {
        proof {
            lemma_pow_one(exp as nat);
        }
        return Ok(1);
    }
    let mut acc: u64 = 1;
    let mut i: usize = 0;
    while i < exp
        invariant
            i <= exp,
            base >= 2,
            acc == pow(base as nat, i as nat),
        decreases exp - i,
    {
        assert(pow(base as nat, (i + 1) as nat) == base * pow(base as nat, i as nat));
        match acc.checked_mul(base) {
            Some(v) => {
                assert(acc * base == base * acc) by (nonlinear_arith);
                acc = v;
                i = i + 1;
            },
            None => {
                proof {
                    assert(acc * base == base * acc) by (nonlinear_arith);
                    lemma_pow_monotonic(base as nat, (i + 1) as nat, exp as nat);
                }
                return Err(PlatformError::MathOverflow);
            },
        }
    }
    Ok(acc)
}

/// Every power of one is one.
pub proof fn lemma_pow_one(exp: nat)
    ensures
        pow(1, exp) == 1,
    decreases exp,
{
    if exp > 0 {
        lemma_pow_one((exp - 1) as nat);
    }
}

/// `base` to the power `exp`, or `MathOverflow` when it does not fit.
pub fn checked_pow_u128(base: u128, exp: usize) -> (r: Result<u128, PlatformError>)
    ensures
        r == fit_u128(pow(base as nat, exp as nat) as int),
{
    if base == 0 {
        if exp == 0 {
            return Ok(1);
        } else {
            assert(pow(0, exp as nat) == 0nat * pow(0, (exp - 1) as nat));
            return Ok(0);
        }
    }
    if base == 1 {
        proof {
            lemma_pow_one(exp as nat);
        }
        return Ok(1);
    }
    let mut acc: u128 = 1;
    let mut i: usize = 0;
    while i < exp
        invariant
            i <= exp,
            base >= 2,
            acc == pow(base as nat, i as nat),
        decreases exp - i,
    {
        assert(pow(base as nat, (i + 1) as nat) == base * pow(base as nat, i as nat));
        match acc.checked_mul(base) {
            Some(v) => {
                assert(acc * base == base * acc) by (nonlinear_arith);
                acc = v;
                i = i + 1;
            },
            None => {
                proof {
                    assert(acc * base == base * acc) by (nonlinear_arith);
                    lemma_pow_monotonic(base as nat, (i + 1) as nat, exp as nat);
                }
                return Err(PlatformError::MathOverflow);
            },
        }
    }
    Ok(acc)
}

/// Ten to the power `exp`, for an exponent whose power fits in 128 bits.
pub fn pow10_u128(exp: usize) -> (r: u128)
    requires
        exp <= 38,
    ensures
        r == pow10(exp as nat),
        r >= 1,
{
    proof {
        lemma_pow10_bounds();
        lemma_pow_monotonic(10, exp as nat, 38);
        lemma_pow_positive(10, exp as nat);
    }
    match checked_pow_u128(10, exp) {
        Ok(v) => v,
        Err(_) => 1,
    }
}

/// A quotient is at least `q` when the dividend is at least `q` divisors.
pub proof fn lemma_div_lower_bound(num: int, d: int, q: int)
    requires
        d > 0,
        num >= q * d,
    ensures
        num / d >= q,
{
    assert(num / d >= q) by (nonlinear_arith)
        requires
            d > 0,
            num >= q * d,
    ;
}

/// A dividend smaller than the divisor gives the quotient zero.
pub proof fn lemma_div_small(num: int, d: int)
    requires
        0 <= num < d,
    ensures
        num / d == 0,
{
    assert(num / d == 0) by (nonlinear_arith)
        requires
            0 <= num < d,
    ;
}

/// The product of `c1 * 10^e1` and `c2 * 10^e2`, counted in units of
/// `10^target` and rounded down.
pub open spec fn decimal_mul(c1: u64, e1: i32, c2: u64, e2: i32, target: i32) -> int {
    let k = e1 + e2 - target;
    if k >= 0 {
        c1 * c2 * pow10(k as nat)
    } else {
        (c1 * c2) / (pow10((-k) as nat) as int)
    }
}

/// Multiplies two decimal numbers and gives the product in units of
/// `10^target`, rounded down; `MathOverflow` exactly when that number does not
/// fit in 64 bits.
pub fn checked_decimal_mul(c1: u64, e1: i32, c2: u64, e2: i32, target: i32) -> (r: Result<
    u64,
    PlatformError,
>)
    ensures
        r == fit_u64(decimal_mul(c1, e1, c2, e2, target)),
        c1 == 0 || c2 == 0 ==> r == Ok::<u64, PlatformError>(0),
{
    let k: i64 = e1 as i64 + e2 as i64 - target as i64;
    proof {
        lemma_pow10_bounds();
        if k >= 0 {
            lemma_pow_positive(10, k as nat);
        } else {
            lemma_pow_positive(10, (-k) as nat);
        }
    }
    if c1 == 0 || c2 == 0 {
        proof {
            assert(c1 * c2 == 0) by (nonlinear_arith)
                requires
                    c1 == 0 || c2 == 0,
            ;
            if k < 0 {
                lemma_div_small(0, pow10((-k) as nat) as int);
            } else {
                assert(0 * pow10(k as nat) == 0);
            }
        }
        return Ok(0);
    }
    assert(1 <= c1 * c2 <= 0xFFFF_FFFF_FFFF_FFFE_0000_0000_0000_0001) by (nonlinear_arith)
        requires
            1 <= c1 <= 0xFFFF_FFFF_FFFF_FFFF,
            1 <= c2 <= 0xFFFF_FFFF_FFFF_FFFF,
    ;
    let prod: u128 = (c1 as u128) * (c2 as u128);
    if k >= 0 {
        if k > 19 {
            proof {
                lemma_pow_monotonic(10, 20, k as nat);
                assert(prod * pow10(k as nat) > u64::MAX) by (nonlinear_arith)
                    requires
                        prod >= 1,
                        pow10(k as nat) > u64::MAX,
                ;
            }
            return Err(PlatformError::MathOverflow);
        }
        let p = pow10_u128(k as usize);
        assert(prod * p >= 0) by (nonlinear_arith)
            requires
                prod >= 0,
                p >= 0,
        ;
        match prod.checked_mul(p) {
            Some(v) => checked_as_u64(v),
            None => Err(PlatformError::MathOverflow),
        }
    } else {
        let nk: i64 = -k;
        if nk > 38 {
            proof {
                lemma_pow_monotonic(10, 39, nk as nat);
                lemma_div_small(prod as int, pow10(nk as nat) as int);
            }
            return Ok(0);
        }
        let p = pow10_u128(nk as usize);
        let q = prod / p;
        checked_as_u64(q)
    }
}

/// The quotient of `c1 * 10^e1` by `c2 * 10^e2`, counted in units of
/// `10^target` and rounded down.
pub open spec fn decimal_div(c1: u64, e1: i32, c2: u64, e2: i32, target: i32) -> int
    recommends
        c2 > 0,
{
    let k = e1 - e2 - target;
    if k >= 0 {
        (c1 * pow10(k as nat)) / (c2 as int)
    } else {
        (c1 as int) / (c2 * pow10((-k) as nat))
    }
}

/// Divides one decimal number by another and gives the quotient in units of
/// `10^target`, rounded down; `MathOverflow` exactly when the divisor is zero
/// or that number does not fit in 64 bits.
pub fn checked_decimal_div(c1: u64, e1: i32, c2: u64, e2: i32, target: i32) -> (r: Result<
    u64,
    PlatformError,
>)
    ensures
        c2 == 0 ==> r == Err::<u64, PlatformError>(PlatformError::MathOverflow),
        c2 != 0 ==> r == fit_u64(decimal_div(c1, e1, c2, e2, target)),
        c2 != 0 && c1 == 0 ==> r == Ok::<u64, PlatformError>(0),
{
    if c2 == 0 {
        return Err(PlatformError::MathOverflow);
    }
    let k: i64 = e1 as i64 - e2 as i64 - target as i64;
    proof {
        lemma_pow10_bounds();
        if k >= 0 {
            lemma_pow_positive(10, k as nat);
        } else {
            lemma_pow_positive(10, (-k) as nat);
        }
    }
    if c1 == 0 {
        proof {
            if k >= 0 {
                assert(0 * pow10(k as nat) == 0);
                lemma_div_small(0, c2 as int);
            } else {
                assert(c2 * pow10((-k) as nat) > 0) by (nonlinear_arith)
                    requires
                        c2 > 0,
                        pow10((-k) as nat) > 0,
                ;
                lemma_div_small(0, c2 * pow10((-k) as nat));
            }
        }
        return Ok(0);
    }
    if k >= 0 {
        if k > 38 {
            proof {
                lemma_pow_monotonic(10, 39, k as nat);
                let num = c1 * pow10(k as nat);
                assert(num >= 0x1_0000_0000_0000_0000 * c2) by (nonlinear_arith)
                    requires
                        num == c1 * pow10(k as nat),
                        c1 >= 1,
                        pow10(k as nat) > u128::MAX,
                        c2 <= u64::MAX,
                ;
                lemma_div_lower_bound(num, c2 as int, 0x1_0000_0000_0000_0000);
            }
            return Err(PlatformError::MathOverflow);
        }
        let p = pow10_u128(k as usize);
        assert(c1 * p >= 0) by (nonlinear_arith)
            requires
                c1 >= 0,
                p >= 0,
        ;
        match (c1 as u128).checked_mul(p) {
            Some(v) => checked_as_u64(v / (c2 as u128)),
            None => {
                proof {
                    let num = c1 * p;
                    assert(num >= 0x1_0000_0000_0000_0000 * c2) by (nonlinear_arith)
                        requires
                            num > u128::MAX,
                            c2 <= u64::MAX,
                    ;
                    lemma_div_lower_bound(num, c2 as int, 0x1_0000_0000_0000_0000);
                }
                Err(PlatformError::MathOverflow)
            },
        }
    } else {
        let nk: i64 = -k;
        if nk > 19 {
            proof {
                lemma_pow_monotonic(10, 20, nk as nat);
                assert(c2 * pow10(nk as nat) > c1) by (nonlinear_arith)
                    requires
                        c2 >= 1,
                        pow10(nk as nat) > u64::MAX,
                        c1 <= u64::MAX,
                ;
                lemma_div_small(c1 as int, c2 * pow10(nk as nat));
            }
            return Ok(0);
        }
        let p = pow10_u128(nk as usize);
        proof {
            lemma_pow_monotonic(10, nk as nat, 19);
        }
        assert(1 <= c2 * p <= 0xFFFF_FFFF_FFFF_FFFF * 10_000_000_000_000_000_000)
            by (nonlinear_arith)
            requires
                1 <= c2 <= 0xFFFF_FFFF_FFFF_FFFF,
                1 <= p <= 10_000_000_000_000_000_000,
        ;
        let den: u128 = (c2 as u128) * p;
        let q = (c1 as u128) / den;
        assert(q <= c1) by (nonlinear_arith)
            requires
                q == (c1 as u128) / den,
                den >= 1,
        ;
        Ok(q as u64)
    }
}

/// A 128-bit number of units `10^exponent`, counted again in units of
/// `10^target`: divided by the power of ten between them when the target is
/// the larger, multiplied by it when the target is the smaller.
///
/// It is `MathOverflow` when the difference of the exponents does not fit in
/// 32 bits, when the power of ten does not fit in 128 bits, or when the product
/// does not.
pub open spec fn scale_u128_spec(arg: u128, exponent: i32, target: i32) -> Result<
    u128,
    PlatformError,
> {
    let delta = target - exponent;
    if delta == 0 {
        Ok(arg)
    } else if delta < i32::MIN || delta > i32::MAX {
        Err(PlatformError::MathOverflow)
    } else if delta > 0 {
        if pow10(delta as nat) > u128::MAX {
            Err(PlatformError::MathOverflow)
        } else {
            Ok((arg as int / pow10(delta as nat) as int) as u128)
        }
    } else if pow10((-delta) as nat) > u128::MAX {
        Err(PlatformError::MathOverflow)
    } else {
        fit_u128(arg * pow10((-delta) as nat))
    }
}

/// Counts `arg`, a number of units `10^exponent`, in units of `10^target`.
pub fn scale_u128_to_exponent(arg: u128, exponent: i32, target: i32) -> (r: Result<
    u128,
    PlatformError,
>)
    ensures
        r == scale_u128_spec(arg, exponent, target),
{
    if target == exponent {
        return Ok(arg);
    }
    let delta: i64 = target as i64 - exponent as i64;
    if delta < i32::MIN as i64 || delta > i32::MAX as i64 {
        return Err(PlatformError::MathOverflow);
    }
    proof {
        lemma_pow10_bounds();
    }
    if delta > 0 {
        if delta > 38 {
            proof {
                lemma_pow_monotonic(10, 39, delta as nat);
            }
            return Err(PlatformError::MathOverflow);
        }
        let p = pow10_u128(delta as usize);
        Ok(arg / p)
    } else {
        let nd: i64 = -delta;
        if nd > 38 {
            proof {
                lemma_pow_monotonic(10, 39, nd as nat);
            }
            return Err(PlatformError::MathOverflow);
        }
        let p = pow10_u128(nd as usize);
        checked_mul_u128(arg, p)
    }
}

} // verus!
