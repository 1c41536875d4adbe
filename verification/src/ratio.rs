//! Quotients of two integers as doubles, worked out in integers: a double is
//! a significand over a power of two, rounded as IEEE 754 rounds. From that,
//! the text that fixed-precision formatting prints of a quotient, whether two
//! quotients lie within 0.1 of each other as a double subtraction finds, and
//! a product of a quotient as a chain of double operations gives it.
use vstd::prelude::*;
use vstd::arithmetic::power2::{pow2, lemma2_to64, lemma2_to64_rest, lemma_pow2_adds, lemma_pow2_unfold, lemma_pow2_strictly_increases, lemma_pow2_pos};
use vstd::arithmetic::div_mod::{lemma_multiply_divide_lt, lemma_fundamental_div_mod, lemma_fundamental_div_mod_converse};
use vstd::string::StrSliceExecFns;
use crate::text::{dec, zero_pad, round_half_even, owned, push_char, push_str, push_dec_pad, push_dec, fmt_dec, digit_char, hex_digit, trim_zeros, push_frac_digits, push_zeros};

verus! {

/// The largest `e <= top` with `n * 2^e < 2^53 * d` (or 0).
pub open spec fn binade_scale(n: nat, d: nat, top: nat) -> nat
    decreases top,
{
    if top == 0 || n * pow2(top) < pow2(53) * d {
        top
    } else {
        binade_scale(n, d, (top - 1) as nat)
    }
}

/// `n / d` rounded to a double: for `2^-38 <= n/d < 2^53` the scale
/// `e = binade_scale(n, d, 90)` puts `n * 2^e / d` in [2^52, 2^53), and the
/// double is `m / 2^e` with `m` that quotient rounded to the nearest
/// integer, ties to even, as IEEE 754 division rounds.
pub open spec fn double_significand(n: nat, d: nat) -> nat {
    round_half_even(n * pow2(binade_scale(n, d, 90)), d)
}

/// The double nearest `n / d` in units of 10^-places, rounded to the
/// nearest, ties to even, as fixed-precision formatting rounds the exact
/// binary value.
pub open spec fn double_units(n: nat, d: nat, places: nat) -> nat {
    if n == 0 {
        0
    } else {
        round_half_even(double_significand(n, d) * pow10(places), pow2(binade_scale(n, d, 90)))
    }
}

/// 10 to the power `k`.
pub open spec fn pow10(k: nat) -> nat
    decreases k,
{
    if k == 0 {
        1
    } else {
        10 * pow10((k - 1) as nat)
    }
}

/// What `format!("{:.6}", n as f64 / d as f64)` prints.
pub open spec fn ratio6_text(n: nat, d: nat) -> Seq<char> {
    let u = double_units(n, d, 6);
    dec(u / 1000000) + seq!['.'] + zero_pad(dec(u % 1000000), 6)
}

/// `n / d` as ExifTool prints a rational: the whole number when `d` divides
/// `n` (the bare numerator when `d` is 0), else the double quotient to nine
/// decimals without trailing zeros (nor a trailing point). With 32-bit terms a
/// quotient that is not whole lies at least 1/d > 1e-10 from every integer,
/// so being within 1e-10 of a whole number is exactly divisibility.
pub open spec fn rational_text(n: nat, d: nat) -> Seq<char> {
    if d == 0 {
        dec(n)
    } else if n % d == 0 {
        dec(n / d)
    } else {
        let u = double_units(n, d, 9);
        let frac = trim_zeros(zero_pad(dec(u % 1000000000), 9));
        if frac.len() == 0 {
            dec(u / 1000000000)
        } else {
            dec(u / 1000000000) + seq!['.'] + frac
        }
    }
}

/// `num / den` rounded to the nearest integer, ties to even, on wide integers.
fn round_half_even_wide(num: u128, den: u128) -> (r: u128)
    requires
        den > 0,
        den <= 0x1_0000_0000_0000_0000_0000_0000_0000,
        num < 0x8000_0000_0000_0000_0000_0000_0000_0000,
    ensures
        r == round_half_even(num as nat, den as nat),
{
    let q = num / den;
    let rem = num % den;
    if 2 * rem > den || (2 * rem == den && q % 2 == 1) {
        q + 1
    } else {
        q
    }
}

/// Appends the decimal representation of a wide integer.
fn push_dec_wide(s: &mut String, n: u128)
    ensures
        final(s)@ == old(s)@ + dec(n as nat),
    decreases n,
{
    let ghost s0 = s@;
    if n >= 10 {
        push_dec_wide(s, n / 10);
    }
    push_char(s, digit_char((n % 10) as u64, false));
    proof {
        assert(s@ =~= s0 + dec(n as nat));
    }
}

/// Under `n < 2^53 * d`, the scale that `binade_scale` picks keeps `n * 2^e`
/// below `2^53 * d`, and the next scale up (when there is one) does not.
pub proof fn lemma_binade_scale(n: nat, d: nat, top: nat)
    requires
        n < pow2(53) * d,
    ensures
        binade_scale(n, d, top) <= top,
        n * pow2(binade_scale(n, d, top)) < pow2(53) * d,
        binade_scale(n, d, top) < top ==> n * pow2(binade_scale(n, d, top) + 1) >= pow2(53) * d,
    decreases top,
{
    lemma2_to64();
    if top == 0 || n * pow2(top) < pow2(53) * d {
    } else {
        lemma_binade_scale(n, d, (top - 1) as nat);
    }
}

/// The double `n / d` as significand and scale, `m / 2^e`, with `p = 2^e`.
fn quotient_double(n: u64, d: u64) -> (r: (u128, u32, u128))
    requires
        1 <= d < 0x1_0000_0000,
        n < 0x1_0000_0000,
    ensures
        r.0 == double_significand(n as nat, d as nat),
        r.1 == binade_scale(n as nat, d as nat, 90),
        r.2 == pow2(r.1 as nat),
        r.0 <= 0x20_0000_0000_0000,
        r.1 <= 90,
        r.2 <= 0x400_0000_0000_0000_0000_0000,
{
    proof {
        lemma2_to64();
        lemma2_to64_rest();
        lemma_pow2_adds(64, 26);
    }
    let two53: u128 = 0x20_0000_0000_0000;
    let mut e: u32 = 90;
    let mut p: u128 = 0x400_0000_0000_0000_0000_0000;
    loop
        invariant
            e <= 90,
            p == pow2(e as nat),
            p <= 0x400_0000_0000_0000_0000_0000,
            n < 0x1_0000_0000,
            1 <= d < 0x1_0000_0000,
            two53 == pow2(53),
            two53 == 0x20_0000_0000_0000,
            binade_scale(n as nat, d as nat, e as nat) == binade_scale(n as nat, d as nat, 90),
        ensures
            e <= 90,
            p == pow2(e as nat),
            p <= 0x400_0000_0000_0000_0000_0000,
            e as nat == binade_scale(n as nat, d as nat, 90),
            (n as u128) * p < two53 * (d as u128),
        decreases e,
    {
        assert((n as u128) * p <= 0x1_0000_0000 * 0x400_0000_0000_0000_0000_0000) by (nonlinear_arith)
            requires
                n < 0x1_0000_0000,
                p <= 0x400_0000_0000_0000_0000_0000,
        ;
        assert(two53 * (d as u128) <= 0x20_0000_0000_0000 * 0x1_0000_0000) by (nonlinear_arith)
            requires
                two53 == 0x20_0000_0000_0000,
                d < 0x1_0000_0000,
        ;
        if e == 0 || (n as u128) * p < two53 * (d as u128) {
            proof {
                lemma2_to64();
            }
            break;
        }
        proof {
            lemma_pow2_unfold(e as nat);
        }
        e = e - 1;
        p = p / 2;
    }
    assert((n as u128) * p <= 0x1_0000_0000 * 0x400_0000_0000_0000_0000_0000) by (nonlinear_arith)
        requires
            n < 0x1_0000_0000,
            p <= 0x400_0000_0000_0000_0000_0000,
    ;
    proof {
        lemma_pow2_pos(e as nat);
    }
    let m = round_half_even_wide((n as u128) * p, d as u128);
    assert(m <= two53) by {
        let num = ((n as u128) * p) as int;
        assert(num < (d as int) * (two53 as int)) by (nonlinear_arith)
            requires
                num < (two53 as int) * (d as int),
        ;
        lemma_multiply_divide_lt(num, d as int, two53 as int);
    }
    (m, e, p)
}

/// Rounding a quotient does not change when both terms are scaled alike.
proof fn lemma_round_scaled(x: nat, y: nat, c: nat)
    requires
        y > 0,
        c > 0,
    ensures
        round_half_even(x * c, y * c) == round_half_even(x, y),
{
    let q = x / y;
    let r = x % y;
    lemma_fundamental_div_mod(x as int, y as int);
    assert(x * c == q * (y * c) + r * c) by (nonlinear_arith)
        requires
            x == y * q + r,
    ;
    assert(r * c < y * c) by (nonlinear_arith)
        requires
            r < y,
            c > 0,
    ;
    lemma_fundamental_div_mod_converse((x * c) as int, (y * c) as int, q as int, (r * c) as int);
    assert((2 * (r * c) > y * c) == (2 * r > y)) by (nonlinear_arith)
        requires
            c > 0,
    ;
    assert((2 * (r * c) == y * c) == (2 * r == y)) by (nonlinear_arith)
        requires
            c > 0,
    ;
}

/// A whole quotient rounds to itself.
proof fn lemma_round_whole(q: nat, y: nat)
    requires
        y > 0,
    ensures
        round_half_even(q * y, y) == q,
{
    lemma_fundamental_div_mod_converse((q * y) as int, y as int, q as int, 0);
}

/// `2^t`.
fn pow2_exec(t: u32) -> (r: u128)
    requires
        t < 127,
    ensures
        r == pow2(t as nat),
{
    proof {
        lemma2_to64();
    }
    let mut r: u128 = 1;
    let mut i: u32 = 0;
    while i < t
        invariant
            i <= t < 127,
            r == pow2(i as nat),
        decreases t - i,
    {
        proof {
            lemma_pow2_unfold((i + 1) as nat);
            lemma_pow2_strictly_increases(i as nat, 127);
            lemma_pow2_adds(64, 63);
            lemma2_to64_rest();
        }
        assert(pow2(127) == 0x8000_0000_0000_0000 * 0x1_0000_0000_0000_0000) by {
            lemma2_to64_rest();
            lemma_pow2_adds(63, 64);
        }
        r = r * 2;
        i = i + 1;
    }
    r
}

/// The double `n / 2^k` (below 2^53) as significand and scale, `m / 2^e`, with `p = 2^e`.
fn dyadic_double(n: u128, k: u32) -> (r: (u128, u32, u128))
    requires
        n < 0x2000_0000_0000_0000,
        k <= 90,
        n < pow2(53) * pow2(k as nat),
    ensures
        r.0 == double_significand(n as nat, pow2(k as nat)),
        r.1 == binade_scale(n as nat, pow2(k as nat), 90),
        r.2 == pow2(r.1 as nat),
        r.0 <= 0x20_0000_0000_0000,
        r.1 <= 90,
        n * pow2(r.1 as nat) < pow2(53) * pow2(k as nat),
        r.1 < 90 ==> n * pow2((r.1 + 1) as nat) >= pow2(53) * pow2(k as nat),
{
    let ghost d = pow2(k as nat);
    proof {
        lemma2_to64();
        lemma_pow2_pos(k as nat);
        lemma_binade_scale(n as nat, d, 90);
    }
    if n == 0 {
        proof {
            lemma_pow2_pos(90);
            assert(0 * pow2(90) == 0);
        }
        return (0, 90, pow2_exec(90));
    }
    let mut e: u32 = 90;
    loop
        invariant
            e <= 90,
            k <= 90,
            1 <= n < 0x2000_0000_0000_0000,
            d == pow2(k as nat),
            binade_scale(n as nat, d, e as nat) == binade_scale(n as nat, d, 90),
        ensures
            e <= 90,
            e as nat == binade_scale(n as nat, d, 90),
        decreases e,
    {
        let fits: bool;
        if e >= 53 + k {
            proof {
                lemma_pow2_adds(53, k as nat);
                if e > 53 + k {
                    lemma_pow2_strictly_increases((53 + k) as nat, e as nat);
                }
                assert(n * pow2(e as nat) >= pow2(e as nat)) by (nonlinear_arith)
                    requires
                        n >= 1,
                ;
            }
            fits = false;
        } else {
            let t: u32 = 53 + k - e;
            proof {
                lemma_pow2_adds(t as nat, e as nat);
                lemma_pow2_adds(53, k as nat);
                lemma_pow2_pos(e as nat);
                assert((n * pow2(e as nat) < pow2(t as nat) * pow2(e as nat)) == (n < pow2(t as nat)))
                    by (nonlinear_arith)
                    requires
                        pow2(e as nat) > 0,
                ;
            }
            if t >= 61 {
                proof {
                    lemma_pow2_adds(61, (t - 61) as nat);
                    lemma_pow2_pos((t - 61) as nat);
                    assert(pow2(61) == 0x2000_0000_0000_0000) by {
                        lemma2_to64_rest();
                    }
                    assert(pow2(61) <= pow2(61) * pow2((t - 61) as nat)) by (nonlinear_arith)
                        requires
                            pow2((t - 61) as nat) > 0,
                    ;
                }
                fits = true;
            } else {
                proof {
                    vstd::bits::lemma_u64_pow2_no_overflow(t as nat);
                    vstd::bits::lemma_u64_shl_is_mul(1, t as u64);
                }
                let pt: u64 = 1u64 << (t as u64);
                fits = n < pt as u128;
            }
        }
        if e == 0 || fits {
            break;
        }
        e = e - 1;
    }
    proof {
        lemma_pow2_pos(e as nat);
    }
    assert(n * pow2(e as nat) < pow2(53) * d);
    let p = pow2_exec(e);
    let m: u128;
    if e <= k {
        let den = pow2_exec(k - e);
        proof {
            lemma_pow2_adds((k - e) as nat, e as nat);
            assert(((k - e) as nat + e as nat) as nat == k as nat);
            assert(d == pow2((k - e) as nat) * pow2(e as nat));
            lemma_pow2_pos((k - e) as nat);
            lemma_round_scaled(n as nat, pow2((k - e) as nat), pow2(e as nat));
            lemma_pow2_strictly_increases((k - e) as nat, 112);
            lemma_pow2_adds(64, 48);
            lemma2_to64_rest();
        }
        m = round_half_even_wide(n, den);
        assert(m == round_half_even(n as nat * pow2(e as nat), d));
    } else {
        let up = pow2_exec(e - k);
        let ghost w: nat = n as nat * pow2((e - k) as nat);
        proof {
            lemma_pow2_adds((e - k) as nat, k as nat);
            assert(((e - k) as nat + k as nat) as nat == e as nat);
            assert(pow2(e as nat) == pow2((e - k) as nat) * d);
            lemma_round_whole(w, d);
            assert(n * pow2(e as nat) == w * d) by (nonlinear_arith)
                requires
                    pow2(e as nat) == pow2((e - k) as nat) * d,
                    w == n as nat * pow2((e - k) as nat),
            ;
            assert(w < pow2(53)) by (nonlinear_arith)
                requires
                    w * d < pow2(53) * d,
                    d > 0,
            ;
            lemma2_to64_rest();
        }
        m = n * up;
        assert(m == round_half_even(n as nat * pow2(e as nat), d));
    }
    assert(m <= 0x20_0000_0000_0000) by {
        let num = (n * pow2(e as nat)) as int;
        assert(num < (d as int) * (pow2(53) as int)) by (nonlinear_arith)
            requires
                num < (pow2(53) as int) * (d as int),
        ;
        lemma_multiply_divide_lt(num, d as int, pow2(53) as int);
    }
    (m, e, p)
}

/// `a * (b / c) * 100` worked in doubles, for magnitudes: the quotient, the
/// product and the scaling each rounded to the nearest double (each a
/// significand over a power of two), and the result rounded to the nearest
/// integer, halves away from zero.
pub open spec fn packed_hundredths(a: nat, b: nat, c: nat) -> nat {
    let e1 = binade_scale(b, c, 90);
    let m1 = double_significand(b, c);
    let e2 = binade_scale(a * m1, pow2(e1), 90);
    let m2 = double_significand(a * m1, pow2(e1));
    let e3 = binade_scale(100 * m2, pow2(e2), 90);
    let m3 = double_significand(100 * m2, pow2(e2));
    (2 * m3 + pow2(e3)) / pow2(e3 + 1)
}

/// Computes [`packed_hundredths`] for byte magnitudes.
pub fn packed_hundredths_exec(a: u8, b: u8, c: u8) -> (r: u64)
    requires
        c >= 1,
    ensures
        r == packed_hundredths(a as nat, b as nat, c as nat),
{
    proof {
        lemma2_to64();
        lemma2_to64_rest();
        lemma_binade_scale(b as nat, c as nat, 90);
    }
    let (m1, e1, _p1) = quotient_double(b as u64, c as u64);
    if b > 0 && e1 < 45 {
        proof {
            lemma_pow2_strictly_increases((e1 + 1) as nat, 46);
            if e1 + 1 < 45 {
                lemma_pow2_strictly_increases((e1 + 1) as nat, 45);
            }
            assert(b as nat * pow2((e1 + 1) as nat) <= 255 * pow2(45)) by (nonlinear_arith)
                requires
                    b <= 255,
                    pow2((e1 + 1) as nat) <= pow2(45),
            ;
            lemma_pow2_adds(45, 8);
        }
        assert(false);
    }
    assert((a as u128) * m1 <= 255 * 0x20_0000_0000_0000) by (nonlinear_arith)
        requires
            a <= 255,
            m1 <= 0x20_0000_0000_0000,
    ;
    let n2: u128 = (a as u128) * m1;
    proof {
        if b > 0 {
            lemma_pow2_adds(8, (e1 - 8) as nat);
            lemma_pow2_pos((e1 - 8) as nat);
            assert(n2 < pow2(8) * pow2(53)) by (nonlinear_arith)
                requires
                    n2 == a * m1,
                    a <= 255,
                    m1 <= 0x20_0000_0000_0000,
                    pow2(8) == 256,
                    pow2(53) == 0x20_0000_0000_0000,
            ;
            assert(pow2(8) * pow2(53) <= pow2(53) * pow2(e1 as nat)) by (nonlinear_arith)
                requires
                    pow2(e1 as nat) == pow2(8) * pow2((e1 - 8) as nat),
                    pow2((e1 - 8) as nat) >= 1,
            ;
        } else {
            lemma_pow2_pos(90);
            assert(0nat * pow2(90) == 0);
            assert(0nat / (c as nat) == 0 && 0nat % (c as nat) == 0) by (nonlinear_arith)
                requires
                    c >= 1,
            ;
            assert(binade_scale(0, c as nat, 90) == 90);
            assert(m1 == 0);
            assert(n2 == 0) by (nonlinear_arith)
                requires
                    n2 == a * m1,
                    m1 == 0,
            ;
            lemma_pow2_pos(e1 as nat);
            lemma_pow2_pos(53);
            assert(pow2(53) * pow2(e1 as nat) > 0) by (nonlinear_arith)
                requires
                    pow2(53) > 0,
                    pow2(e1 as nat) > 0,
            ;
        }
    }
    let (m2, e2, _p2) = dyadic_double(n2, e1);
    let n3: u128 = 100 * m2;
    proof {
        if n2 > 0 && e2 < 7 {
            lemma_pow2_strictly_increases((e2 + 1) as nat, 8);
            assert(n2 * pow2((e2 + 1) as nat) < 255 * pow2(53) * pow2(8)) by (nonlinear_arith)
                requires
                    n2 == a * m1,
                    a <= 255,
                    m1 <= 0x20_0000_0000_0000,
                    pow2(53) == 0x20_0000_0000_0000,
                    pow2((e2 + 1) as nat) < pow2(8),
            ;
            lemma_pow2_adds(45, (e1 - 45) as nat);
            lemma_pow2_pos((e1 - 45) as nat);
            assert(pow2(53) * pow2(45) <= pow2(53) * pow2(e1 as nat)) by (nonlinear_arith)
                requires
                    pow2(e1 as nat) == pow2(45) * pow2((e1 - 45) as nat),
                    pow2((e1 - 45) as nat) >= 1,
                    pow2(53) > 0,
            ;
            assert(false);
        }
        if n2 > 0 {
            lemma_pow2_adds(7, (e2 - 7) as nat);
            lemma_pow2_pos((e2 - 7) as nat);
            assert(n3 < pow2(7) * pow2(53)) by (nonlinear_arith)
                requires
                    n3 == 100 * m2,
                    m2 <= 0x20_0000_0000_0000,
                    pow2(7) == 128,
                    pow2(53) == 0x20_0000_0000_0000,
            ;
            assert(pow2(7) * pow2(53) <= pow2(53) * pow2(e2 as nat)) by (nonlinear_arith)
                requires
                    pow2(e2 as nat) == pow2(7) * pow2((e2 - 7) as nat),
                    pow2((e2 - 7) as nat) >= 1,
            ;
        } else {
            lemma_pow2_pos(e1 as nat);
            assert(0nat * pow2(binade_scale(0, pow2(e1 as nat), 90)) == 0);
            assert(0nat / pow2(e1 as nat) == 0 && 0nat % pow2(e1 as nat) == 0) by (nonlinear_arith)
                requires
                    pow2(e1 as nat) > 0,
            ;
            assert(m2 == 0);
            lemma_pow2_pos(e2 as nat);
            lemma_pow2_pos(53);
            assert(pow2(53) * pow2(e2 as nat) > 0) by (nonlinear_arith)
                requires
                    pow2(53) > 0,
                    pow2(e2 as nat) > 0,
            ;
        }
    }
    let (m3, e3, p3) = dyadic_double(n3, e2);
    proof {
        lemma_pow2_unfold((e3 + 1) as nat);
        lemma_pow2_pos(e3 as nat);
        if e3 < 90 {
            lemma_pow2_strictly_increases(e3 as nat, 90);
        }
        lemma_pow2_adds(64, 26);
    }
    let h = (2 * m3 + p3) / (2 * p3);
    assert(h < m3 + 2) by {
        assert(2 * m3 + p3 < (2 * p3) * (m3 + 2)) by (nonlinear_arith)
            requires
                p3 >= 1,
        ;
        lemma_multiply_divide_lt((2 * m3 + p3) as int, (2 * p3) as int, (m3 + 2) as int);
    }
    h as u64
}

/// The double nearest `n / d` in units of 10^-places (1, 2, 3, 6 or 9).
fn double_units_exec(n: u64, d: u64, places: u32) -> (r: u128)
    requires
        1 <= d < 0x1_0000_0000,
        n < 0x1_0000_0000,
        places == 1 || places == 2 || places == 3 || places == 6 || places == 9,
    ensures
        r == double_units(n as nat, d as nat, places as nat),
{
    if n == 0 {
        return 0;
    }
    let (m, e, p) = quotient_double(n, d);
    proof {
        lemma_pow2_pos(e as nat);
    }
    let scale: u128 = if places == 1 {
        10
    } else if places == 2 {
        100
    } else if places == 3 {
        1000
    } else if places == 6 {
        1000000
    } else {
        1000000000
    };
    assert(scale == pow10(places as nat)) by {
        reveal_with_fuel(pow10, 10);
    }
    round_half_even_wide(m * scale, p)
}

/// The distance between two naturals.
pub open spec fn gap(a: nat, b: nat) -> nat {
    if a >= b {
        (a - b) as nat
    } else {
        (b - a) as nat
    }
}

/// Whether the doubles of `n1 / d1` and `n2 / d2` differ by less than 0.1, as
/// a double subtraction and comparison find: with the quotients `m1 / 2^e1`
/// and `m2 / 2^e2`, the exact gap lies below the midpoint `0x33333333333333 /
/// 2^57` between the double nearest 0.1 and the double before it, so that it
/// rounds to a double below 0.1.
pub open spec fn within_tenth(n1: nat, d1: nat, n2: nat, d2: nat) -> bool {
    let m1 = double_significand(n1, d1);
    let e1 = binade_scale(n1, d1, 90);
    let m2 = double_significand(n2, d2);
    let e2 = binade_scale(n2, d2, 90);
    gap(m1 * pow2(e2), m2 * pow2(e1)) * pow2(57) < 0x33333333333333 * pow2(e1 + e2)
}

/// The double of `n / d` printed whole when it lies within the double nearest
/// 0.01 of its rounding (halves away from zero), else to one decimal.
pub open spec fn whole_or_tenths(n: nat, d: nat) -> Seq<char> {
    let m = double_significand(n, d);
    let e = binade_scale(n, d, 90);
    let r = (2 * m + pow2(e)) / pow2(e + 1);
    if gap(m, r * pow2(e)) * pow2(59) < 0x147AE147AE147B * pow2(e) {
        dec(r)
    } else {
        let u = double_units(n, d, 1);
        dec(u / 10) + seq!['.'] + dec(u % 10)
    }
}

/// A quotient of 32-bit terms: no numerator gives the scale 90 and significand
/// 0, any other a scale in [21, 84].
proof fn lemma_quotient_scale(n: nat, d: nat)
    requires
        1 <= d < 0x1_0000_0000,
        n < 0x1_0000_0000,
    ensures
        n == 0 ==> binade_scale(n, d, 90) == 90 && double_significand(n, d) == 0,
        n > 0 ==> 21 <= binade_scale(n, d, 90) <= 84,
{
    lemma2_to64();
    lemma2_to64_rest();
    if n == 0 {
        lemma_pow2_pos(53);
        assert(0nat * pow2(90) == 0);
        assert(pow2(53) * d > 0) by (nonlinear_arith)
            requires
                pow2(53) > 0,
                d >= 1,
        ;
        assert(binade_scale(n, d, 90) == 90);
        assert(0nat / d == 0 && 0nat % d == 0) by (nonlinear_arith)
            requires
                d >= 1,
        ;
    } else {
        assert(n < pow2(53) * d) by (nonlinear_arith)
            requires
                n < 0x1_0000_0000,
                d >= 1,
                pow2(53) == 0x20_0000_0000_0000,
        ;
        lemma_binade_scale(n, d, 90);
        let e = binade_scale(n, d, 90);
        if e > 84 {
            if e > 85 {
                lemma_pow2_strictly_increases(85, e);
            }
            lemma_pow2_adds(53, 32);
            assert(n * pow2(e) >= pow2(85)) by (nonlinear_arith)
                requires
                    n >= 1,
                    pow2(e) >= pow2(85),
            ;
            assert(pow2(53) * d < pow2(53) * pow2(32)) by (nonlinear_arith)
                requires
                    d < 0x1_0000_0000,
                    pow2(32) == 0x1_0000_0000,
                    pow2(53) > 0,
            ;
            assert(false);
        }
        if e < 21 {
            if e + 1 < 21 {
                lemma_pow2_strictly_increases((e + 1) as nat, 21);
            }
            lemma_pow2_pos((e + 1) as nat);
            assert(pow2((e + 1) as nat) <= pow2(21));
            assert(n * pow2((e + 1) as nat) < pow2(32) * pow2(21)) by (nonlinear_arith)
                requires
                    n < 0x1_0000_0000,
                    pow2(32) == 0x1_0000_0000,
                    pow2((e + 1) as nat) <= pow2(21),
                    pow2((e + 1) as nat) > 0,
            ;
            lemma_pow2_adds(32, 21);
            assert(pow2(53) <= pow2(53) * d) by (nonlinear_arith)
                requires
                    d >= 1,
            ;
            assert(false);
        }
    }
}

/// Whether `x * 2^s < y * 2^t`, for `x < 2^123`, `y < 2^55` and exponents at most 90.
fn shifted_less(x: u128, s: u32, y: u128, t: u32) -> (r: bool)
    requires
        x < 0x800_0000_0000_0000_0000_0000_0000_0000,
        y < 0x80_0000_0000_0000,
        s <= 90,
        t <= 90,
    ensures
        r == (x * pow2(s as nat) < y * pow2(t as nat)),
{
    proof {
        lemma2_to64();
        lemma2_to64_rest();
    }
    if s >= t {
        // x * 2^(s - t) < y, where a large x settles it.
        let k = s - t;
        proof {
            lemma_pow2_adds(k as nat, t as nat);
            lemma_pow2_pos(t as nat);
            lemma_pow2_pos(k as nat);
            assert((x * pow2(s as nat) < y * pow2(t as nat)) == (x * pow2(k as nat) < y)) by (nonlinear_arith)
                requires
                    pow2(s as nat) == pow2(k as nat) * pow2(t as nat),
                    pow2(t as nat) > 0,
            ;
        }
        if x >= y {
            assert(x * pow2(k as nat) >= y) by (nonlinear_arith)
                requires
                    x >= y,
                    pow2(k as nat) >= 1,
            ;
            false
        } else if k >= 64 {
            if x == 0 {
                assert(x * pow2(k as nat) == 0);
                0 < y
            } else {
                proof {
                    lemma_pow2_strictly_increases(55, k as nat);
                    lemma2_to64();
                }
                assert(x * pow2(k as nat) >= pow2(55)) by (nonlinear_arith)
                    requires
                        x >= 1,
                        pow2(k as nat) > pow2(55),
                ;
                assert(pow2(55) == 0x80_0000_0000_0000);
                false
            }
        } else {
            let p = pow2_exec(k);
            proof {
                lemma_pow2_strictly_increases(k as nat, 64);
            }
            assert(x * p < 0x80_0000_0000_0000 * 0x1_0000_0000_0000_0000) by (nonlinear_arith)
                requires
                    x < 0x80_0000_0000_0000,
                    p < 0x1_0000_0000_0000_0000,
            ;
            x * p < y
        }
    } else {
        // x < y * 2^(t - s) exactly when x / 2^(t - s) < y.
        let k = t - s;
        proof {
            lemma_pow2_adds(k as nat, s as nat);
            lemma_pow2_pos(s as nat);
            lemma_pow2_pos(k as nat);
            assert((x * pow2(s as nat) < y * pow2(t as nat)) == (x < y * pow2(k as nat))) by (nonlinear_arith)
                requires
                    pow2(t as nat) == pow2(k as nat) * pow2(s as nat),
                    pow2(s as nat) > 0,
            ;
            if k < 90 {
                lemma_pow2_strictly_increases(k as nat, 90);
            }
            lemma_pow2_adds(64, 26);
        }
        let p = pow2_exec(k);
        proof {
            let q = x / p;
            lemma_fundamental_div_mod(x as int, p as int);
            assert((x < y * p) == (q < y)) by (nonlinear_arith)
                requires
                    x == p * q + x % p,
                    0 <= x % p < p,
                    q >= 0,
                    p > 0,
            ;
        }
        x / p < y
    }
}

/// Computes [`within_tenth`] for 32-bit terms.
pub fn within_tenth_exec(n1: u32, d1: u32, n2: u32, d2: u32) -> (r: bool)
    requires
        d1 >= 1,
        d2 >= 1,
    ensures
        r == within_tenth(n1 as nat, d1 as nat, n2 as nat, d2 as nat),
{
    let (m1, e1, _p1) = quotient_double(n1 as u64, d1 as u64);
    let (m2, e2, _p2) = quotient_double(n2 as u64, d2 as u64);
    proof {
        lemma_quotient_scale(n1 as nat, d1 as nat);
        lemma_quotient_scale(n2 as nat, d2 as nat);
        lemma2_to64();
        lemma2_to64_rest();
    }
    let lo = if e1 <= e2 {
        e1
    } else {
        e2
    };
    let hi = if e1 <= e2 {
        e2
    } else {
        e1
    };
    // The gap over 2^lo: m1 * 2^(e2 - lo) against m2 * 2^(e1 - lo).
    let k1 = e2 - lo;
    let k2 = e1 - lo;
    proof {
        if m1 > 0 && k1 > 0 {
            assert(k1 <= 69);
        }
        if m2 > 0 && k2 > 0 {
            assert(k2 <= 69);
        }
        lemma_pow2_strictly_increases(69, 70);
        lemma_pow2_adds(53, 69);
        lemma_pow2_adds(64, 58);
        if k1 <= 69 {
            if k1 < 69 {
                lemma_pow2_strictly_increases(k1 as nat, 69);
            }
        }
        if k2 <= 69 {
            if k2 < 69 {
                lemma_pow2_strictly_increases(k2 as nat, 69);
            }
        }
    }
    proof {
        lemma_pow2_pos(k1 as nat);
        lemma_pow2_pos(k2 as nat);
        assert(0 * pow2(k1 as nat) == 0 && 0 * pow2(k2 as nat) == 0);
    }
    let a: u128 = if m1 == 0 {
        0
    } else {
        let p = pow2_exec(k1);
        assert(m1 * p <= 0x20_0000_0000_0000 * pow2(69)) by (nonlinear_arith)
            requires
                m1 <= 0x20_0000_0000_0000,
                p <= pow2(69),
        ;
        m1 * p
    };
    let b: u128 = if m2 == 0 {
        0
    } else {
        let p = pow2_exec(k2);
        assert(m2 * p <= 0x20_0000_0000_0000 * pow2(69)) by (nonlinear_arith)
            requires
                m2 <= 0x20_0000_0000_0000,
                p <= pow2(69),
        ;
        m2 * p
    };
    assert(a == m1 * pow2(k1 as nat));
    assert(b == m2 * pow2(k2 as nat));
    let x: u128 = if a >= b {
        a - b
    } else {
        b - a
    };
    proof {
        lemma_pow2_adds(k1 as nat, lo as nat);
        lemma_pow2_adds(k2 as nat, lo as nat);
        lemma_pow2_adds(lo as nat, hi as nat);
        lemma_pow2_adds(57, lo as nat);
        lemma_pow2_pos(lo as nat);
        assert(m1 * pow2(e2 as nat) == a * pow2(lo as nat)) by (nonlinear_arith)
            requires
                pow2(e2 as nat) == pow2(k1 as nat) * pow2(lo as nat),
                a == m1 * pow2(k1 as nat),
        ;
        assert(m2 * pow2(e1 as nat) == b * pow2(lo as nat)) by (nonlinear_arith)
            requires
                pow2(e1 as nat) == pow2(k2 as nat) * pow2(lo as nat),
                b == m2 * pow2(k2 as nat),
        ;
        assert(gap(m1 as nat * pow2(e2 as nat), m2 as nat * pow2(e1 as nat)) == x * pow2(lo as nat)) by (nonlinear_arith)
            requires
                m1 * pow2(e2 as nat) == a * pow2(lo as nat),
                m2 * pow2(e1 as nat) == b * pow2(lo as nat),
                x == gap(a as nat, b as nat),
                pow2(lo as nat) > 0,
        ;
        assert(pow2((e1 + e2) as nat) == pow2(lo as nat) * pow2(hi as nat));
        assert((x * pow2(lo as nat) * pow2(57) < 0x33333333333333 * pow2((e1 + e2) as nat)) == (x * pow2(57)
            < 0x33333333333333 * pow2(hi as nat))) by (nonlinear_arith)
            requires
                pow2((e1 + e2) as nat) == pow2(lo as nat) * pow2(hi as nat),
                pow2(lo as nat) > 0,
        ;
    }
    shifted_less(x, 57, 0x33333333333333, hi)
}

/// A focal length or aperture `n / d`: whole when within 0.01 of an integer, else to one decimal.
pub fn format_lens_value(n: u32, d: u32) -> (r: String)
    requires
        d >= 1,
    ensures
        r@ == whole_or_tenths(n as nat, d as nat),
{
    let (m, e, p) = quotient_double(n as u64, d as u64);
    proof {
        lemma_pow2_unfold((e + 1) as nat);
        lemma_pow2_pos(e as nat);
        lemma2_to64();
    }
    let w = (2 * m + p) / (2 * p);
    assert(w < m + 2) by {
        assert(2 * m + p < (2 * p) * (m + 2)) by (nonlinear_arith)
            requires
                p >= 1,
        ;
        lemma_multiply_divide_lt((2 * m + p) as int, (2 * p) as int, (m + 2) as int);
    }
    assert(w * p <= m + p) by {
        lemma_fundamental_div_mod((2 * m + p) as int, (2 * p) as int);
        assert(w * p <= m + p) by (nonlinear_arith)
            requires
                2 * m + p == (2 * p) * w + (2 * m + p) % (2 * p),
                (2 * m + p) % (2 * p) >= 0,
                p > 0,
        ;
    }
    let wp = w * p;
    let x: u128 = if m >= wp {
        m - wp
    } else {
        wp - m
    };
    if shifted_less(x, 59, 0x147AE147AE147B, e) {
        fmt_dec(w as u64)
    } else {
        let u = double_units_exec(n as u64, d as u64, 1);
        let mut s = String::new();
        push_dec_wide(&mut s, u / 10);
        push_char(&mut s, '.');
        push_dec(&mut s, (u % 10) as u64);
        proof {
            assert(s@ =~= whole_or_tenths(n as nat, d as nat));
        }
        s
    }
}

/// `floor(n / d * 100)` in doubles (the quotient and the scaling each rounded
/// to the nearest double), cast to `i32` as a float cast does: saturating, with
/// infinities at the ends of the range and 0 for 0/0.
pub open spec fn hundredfold_floor(n: i32, d: i32) -> i32 {
    if d == 0 {
        if n > 0 {
            i32::MAX
        } else if n < 0 {
            i32::MIN
        } else {
            0
        }
    } else {
        let a = (if n < 0 { -(n as int) } else { n as int }) as nat;
        let b = (if d < 0 { -(d as int) } else { d as int }) as nat;
        let e1 = binade_scale(a, b, 90);
        let m1 = double_significand(a, b);
        let e2 = binade_scale(100 * m1, pow2(e1), 90);
        let m2 = double_significand(100 * m1, pow2(e1));
        let whole = m2 / pow2(e2);
        if (n < 0) != (d < 0) && m2 % pow2(e2) != 0 {
            let v = -(whole + 1);
            if v < -0x8000_0000 {
                i32::MIN
            } else {
                v as i32
            }
        } else if (n < 0) != (d < 0) {
            let v = -whole;
            if v < -0x8000_0000 {
                i32::MIN
            } else {
                v as i32
            }
        } else if whole > 0x7fff_ffff {
            i32::MAX
        } else {
            whole as i32
        }
    }
}

/// Whether `|n / d| < 0.005` for the double quotient and the double nearest
/// 0.005 (`0x147AE147AE147B / 2^60`); a zero denominator counts as well.
pub open spec fn below_half_hundredth(n: i32, d: i32) -> bool {
    if d == 0 {
        true
    } else {
        let a = (if n < 0 { -(n as int) } else { n as int }) as nat;
        let b = (if d < 0 { -(d as int) } else { d as int }) as nat;
        double_significand(a, b) * pow2(60) < 0x147AE147AE147B * pow2(binade_scale(a, b, 90))
    }
}

/// The magnitude of a 32-bit signed integer.
fn magnitude(n: i32) -> (r: u64)
    ensures
        r == (if n < 0 { -(n as int) } else { n as int }),
        r <= 0x8000_0000,
{
    if n < 0 {
        (-(n as i64)) as u64
    } else {
        n as u64
    }
}

/// Computes [`below_half_hundredth`].
pub fn below_half_hundredth_exec(n: i32, d: i32) -> (r: bool)
    ensures
        r == below_half_hundredth(n, d),
{
    if d == 0 {
        return true;
    }
    let (m1, e1, _p1) = quotient_double(magnitude(n), magnitude(d));
    shifted_less(m1, 60, 0x147AE147AE147B, e1)
}

/// Computes [`hundredfold_floor`].
pub fn hundredfold_floor_exec(n: i32, d: i32) -> (r: i32)
    ensures
        r == hundredfold_floor(n, d),
{
    if d == 0 {
        return if n > 0 {
            i32::MAX
        } else if n < 0 {
            i32::MIN
        } else {
            0
        };
    }
    let a = magnitude(n);
    let b = magnitude(d);
    let (m1, e1, _p1) = quotient_double(a, b);
    proof {
        lemma_quotient_scale(a as nat, b as nat);
        lemma2_to64();
        lemma2_to64_rest();
        if m1 > 0 {
            lemma_pow2_adds(7, (e1 - 7) as nat);
            lemma_pow2_pos((e1 - 7) as nat);
            assert(100 * m1 < pow2(7) * pow2(53)) by (nonlinear_arith)
                requires
                    m1 <= 0x20_0000_0000_0000,
                    pow2(7) == 128,
                    pow2(53) == 0x20_0000_0000_0000,
            ;
            assert(pow2(7) * pow2(53) <= pow2(53) * pow2(e1 as nat)) by (nonlinear_arith)
                requires
                    pow2(e1 as nat) == pow2(7) * pow2((e1 - 7) as nat),
                    pow2((e1 - 7) as nat) >= 1,
            ;
        } else {
            lemma_pow2_pos(e1 as nat);
            lemma_pow2_pos(53);
            assert(pow2(53) * pow2(e1 as nat) > 0) by (nonlinear_arith)
                requires
                    pow2(53) > 0,
                    pow2(e1 as nat) > 0,
            ;
        }
    }
    let (m2, e2, p2) = dyadic_double(100 * m1, e1);
    proof {
        lemma_pow2_pos(e2 as nat);
    }
    let whole = m2 / p2;
    assert(whole <= m2) by (nonlinear_arith)
        requires
            p2 >= 1,
            whole == m2 / p2,
    ;
    let negative = (n < 0) != (d < 0);
    if negative && m2 % p2 != 0 {
        let v: i64 = -(whole as i64 + 1);
        if v < -0x8000_0000 {
            i32::MIN
        } else {
            v as i32
        }
    } else if negative {
        let v: i64 = -(whole as i64);
        if v < -0x8000_0000 {
            i32::MIN
        } else {
            v as i32
        }
    } else if whole > 0x7fff_ffff {
        i32::MAX
    } else {
        whole as i32
    }
}

/// Prints `n / d` as a double with six decimals.
pub fn format_ratio6(n: u64, d: u64) -> (r: String)
    requires
        1 <= d < 0x1_0000_0000,
        n < 0x1_0000_0000,
    ensures
        r@ == ratio6_text(n as nat, d as nat),
{
    let u = double_units_exec(n, d, 6);
    let mut s = String::new();
    push_dec_wide(&mut s, u / 1000000);
    push_char(&mut s, '.');
    push_dec_pad(&mut s, (u % 1000000) as u64, 6);
    proof {
        assert(s@ =~= ratio6_text(n as nat, d as nat));
    }
    s
}

/// What `{:.2}` or `{:.3}` (`places` decimals) prints of the double `n / d`,
/// with trailing zeros (and a trailing point) removed.
pub open spec fn trimmed_decimal(n: nat, d: nat, places: nat) -> Seq<char> {
    let u = double_units(n, d, places);
    let frac = trim_zeros(zero_pad(dec(u % pow10(places)), places));
    if frac.len() == 0 {
        dec(u / pow10(places))
    } else {
        dec(u / pow10(places)) + seq!['.'] + frac
    }
}

/// Prints `n / d` as a double to two or three decimals, without trailing zeros.
pub fn format_trimmed_decimal(n: u32, d: u32, places: u32) -> (r: String)
    requires
        d >= 1,
        places == 2 || places == 3,
    ensures
        r@ == trimmed_decimal(n as nat, d as nat, places as nat),
{
    let u = double_units_exec(n as u64, d as u64, places);
    let scale: u128 = if places == 2 {
        100
    } else {
        1000
    };
    assert(scale == pow10(places as nat)) by {
        reveal_with_fuel(pow10, 4);
    }
    let mut s = String::new();
    push_dec_wide(&mut s, u / scale);
    let mut f = String::new();
    push_frac_digits(&mut f, (u % scale) as u64, places as usize);
    if f.unicode_len() > 0 {
        push_char(&mut s, '.');
        push_str(&mut s, f.as_str());
    }
    proof {
        assert(s@ =~= trimmed_decimal(n as nat, d as nat, places as nat));
    }
    s
}

/// Formats a rational as ExifTool does.
pub fn format_rational_like_exiftool(n: u32, d: u32) -> (r: String)
    ensures
        r@ == rational_text(n as nat, d as nat),
{
    if d == 0 {
        return fmt_dec(n as u64);
    }
    if n % d == 0 {
        return fmt_dec((n / d) as u64);
    }
    let u = double_units_exec(n as u64, d as u64, 9);
    let mut s = String::new();
    push_dec_wide(&mut s, u / 1000000000);
    let ghost whole = s@;
    let mut f = String::new();
    push_frac_digits(&mut f, (u % 1000000000) as u64, 9);
    if f.unicode_len() > 0 {
        push_char(&mut s, '.');
        push_str(&mut s, f.as_str());
    }
    proof {
        assert(s@ =~= rational_text(n as nat, d as nat));
    }
    s
}

// ---------------------------------------------------------------------------
// The shortest decimal that reads back as a double
// ---------------------------------------------------------------------------

/// 5 to the power `k`.
pub open spec fn pow5(k: nat) -> nat
    decreases k,
{
    if k == 0 {
        1
    } else {
        5 * pow5((k - 1) as nat)
    }
}

/// The significand of the double `n / d` brought into [2^52, 2^53) (a
/// rounding that carried up to 2^53 moves to the next scale down).
pub open spec fn norm_significand(n: nat, d: nat) -> nat {
    if double_significand(n, d) == pow2(53) {
        pow2(52)
    } else {
        double_significand(n, d)
    }
}

/// The scale that goes with [`norm_significand`].
pub open spec fn norm_scale(n: nat, d: nat) -> nat {
    if double_significand(n, d) == pow2(53) {
        (binade_scale(n, d, 90) - 1) as nat
    } else {
        binade_scale(n, d, 90)
    }
}

/// The lower end of the numbers that read back as the double `m / 2^e`, in
/// units of `2^-(e+2)`: half the gap to the double below, which is half as
/// wide when `m` is the smallest significand.
pub open spec fn read_back_low(m: nat) -> nat {
    if m == pow2(52) {
        (4 * m - 1) as nat
    } else {
        (4 * m - 2) as nat
    }
}

/// The upper end, half the gap to the double above.
pub open spec fn read_back_high(m: nat) -> nat {
    4 * m + 2
}

/// At the decimal position `j` (steps of `10^j`), scaled to integers: the
/// double, one step, and the two ends of what reads back as the double.
pub open spec fn decimal_window(m: nat, e: nat, j: int) -> (nat, nat, nat, nat) {
    if j >= 0 {
        (4 * m, pow2(e + 2) * pow10(j as nat), read_back_low(m), read_back_high(m))
    } else {
        let t = (-j) as nat;
        (4 * m * pow5(t), pow2((e + 2 - t) as nat), read_back_low(m) * pow5(t), read_back_high(m) * pow5(t))
    }
}

/// Whether `c` steps read back as the double: strictly inside the window, or
/// on its ends when the significand is even (round-half-even takes them there).
pub open spec fn reads_back(c: nat, w: (nat, nat, nat, nat), even: bool) -> bool {
    if even {
        w.2 <= c * w.1 <= w.3
    } else {
        w.2 < c * w.1 < w.3
    }
}

/// The whole number of steps nearest the double that reads back, the larger
/// on a tie; `None` when neither neighbour does.
pub open spec fn nearest_read_back(w: (nat, nat, nat, nat), even: bool) -> Option<nat> {
    let down = w.0 / w.1;
    let up = if w.0 % w.1 == 0 {
        down
    } else {
        down + 1
    };
    if reads_back(up, w, even) && (!reads_back(down, w, even) || up * w.1 - w.0 <= w.0 - down * w.1) {
        Some(up)
    } else if reads_back(down, w, even) {
        Some(down)
    } else {
        None
    }
}

/// The coarsest decimal position from `j` down (to 10^-30) where some number
/// of steps reads back as the double, and that number.
pub open spec fn coarsest_read_back(m: nat, e: nat, j: int) -> (int, nat)
    decreases j + 30,
{
    match nearest_read_back(decimal_window(m, e, j), m % 2 == 0) {
        Some(c) => (j, c),
        None => if j <= -30 {
            (j, 0)
        } else {
            coarsest_read_back(m, e, j - 1)
        },
    }
}

/// `c * 10^j` in decimal, with a point when `j` is negative.
pub open spec fn steps_text(c: nat, j: int) -> Seq<char> {
    if j >= 0 {
        dec(c) + Seq::new(j as nat, |i: int| '0')
    } else {
        let t = (-j) as nat;
        dec(c / pow10(t)) + seq!['.'] + zero_pad(dec(c % pow10(t)), t)
    }
}

/// What `{}` prints of the double `n / d`: the decimal with the fewest
/// significant digits that reads back as the double, the nearest such on a
/// choice; "0" for zero.
pub open spec fn shortest_text(n: nat, d: nat) -> Seq<char> {
    if n == 0 {
        "0"@
    } else {
        let r = coarsest_read_back(norm_significand(n, d), norm_scale(n, d), 10);
        steps_text(r.1, r.0)
    }
}

/// Powers of ten split into powers of two and five.
proof fn lemma_pow10_split(k: nat)
    ensures
        pow10(k) == pow2(k) * pow5(k),
        pow5(k) >= 1,
    decreases k,
{
    if k == 0 {
        lemma2_to64();
    } else {
        lemma_pow10_split((k - 1) as nat);
        lemma_pow2_unfold(k);
        assert(pow10(k) == 10 * pow10((k - 1) as nat));
        assert(10 * (pow2((k - 1) as nat) * pow5((k - 1) as nat)) == (2 * pow2((k - 1) as nat)) * (5 * pow5(
            (k - 1) as nat,
        ))) by (nonlinear_arith);
    }
}

/// Powers of ten grow.
proof fn lemma_pow10_grows(a: nat, b: nat)
    requires
        a <= b,
    ensures
        pow10(a) <= pow10(b),
        pow10(a) >= 1,
    decreases b,
{
    lemma_pow10_split(a);
    lemma_pow2_pos(a);
    assert(pow2(a) * pow5(a) >= 1) by (nonlinear_arith)
        requires
            pow2(a) > 0,
            pow5(a) >= 1,
    ;
    if a < b {
        lemma_pow10_grows(a, (b - 1) as nat);
    }
}

/// An open window longer than a step holds a multiple of the step next to
/// the value inside it.
proof fn lemma_window_holds_step(w: (nat, nat, nat, nat), even: bool)
    requires
        w.1 > 0,
        w.2 < w.0 < w.3,
        w.3 - w.2 > w.1,
    ensures
        nearest_read_back(w, even) is Some,
{
    let (a, b, lo, hi) = w;
    let c0 = lo / b + 1;
    lemma_fundamental_div_mod(lo as int, b as int);
    assert(c0 * b > lo && c0 * b <= lo + b) by (nonlinear_arith)
        requires
            lo == b * (lo / b) + lo % b,
            0 <= lo % b < b,
            c0 == lo / b + 1,
    ;
    let down = a / b;
    let up = if a % b == 0 {
        down
    } else {
        down + 1
    };
    lemma_fundamental_div_mod(a as int, b as int);
    assert(down * b <= a && a <= up * b) by (nonlinear_arith)
        requires
            a == b * down + a % b,
            0 <= a % b < b,
            up == (if a % b == 0 { down } else { down + 1 }),
    ;
    if c0 * b <= a {
        assert(c0 <= down) by (nonlinear_arith)
            requires
                c0 * b <= a,
                a == b * down + a % b,
                0 <= a % b < b,
                b > 0,
        ;
        assert(down * b >= c0 * b) by (nonlinear_arith)
            requires
                c0 <= down,
        ;
        assert(reads_back(down, w, even));
    } else {
        assert(up <= c0) by (nonlinear_arith)
            requires
                c0 * b > a,
                a == b * down + a % b,
                0 <= a % b < b,
                up == (if a % b == 0 { down } else { down + 1 }),
                b > 0,
        ;
        assert(up * b <= c0 * b) by (nonlinear_arith)
            requires
                up <= c0,
        ;
        assert(reads_back(up, w, even));
    }
}

/// How far the position of the last digit can go: below 10^-26 every double
/// of a 32-bit quotient has a decimal that reads back.
proof fn lemma_position_bounds(w: nat, e: nat, t: nat)
    requires
        3 <= w,
        e <= 84,
        t >= 1,
        w * pow10((t - 1) as nat) <= pow2(e + 2),
    ensures
        t <= 26,
        t <= e + 2,
{
    lemma2_to64();
    lemma2_to64_rest();
    if t > 26 {
        lemma_pow10_grows(26, (t - 1) as nat);
        assert(pow10(26) == 100000000000000000000000000) by {
            reveal_with_fuel(pow10, 27);
        }
        lemma_pow2_adds(64, 22);
        if e + 2 < 86 {
            lemma_pow2_strictly_increases(e + 2, 86);
        }
        assert(w * pow10((t - 1) as nat) >= 3 * pow10(26)) by (nonlinear_arith)
            requires
                w >= 3,
                pow10((t - 1) as nat) >= pow10(26),
        ;
    }
    lemma_pow10_split((t - 1) as nat);
    if t - 1 >= e + 2 {
        if t - 1 > e + 2 {
            lemma_pow2_strictly_increases(e + 2, (t - 1) as nat);
        }
        lemma_pow2_pos(e + 2);
        assert(w * pow10((t - 1) as nat) >= 3 * pow2(e + 2)) by (nonlinear_arith)
            requires
                w >= 3,
                pow10((t - 1) as nat) == pow2((t - 1) as nat) * pow5((t - 1) as nat),
                pow5((t - 1) as nat) >= 1,
                pow2((t - 1) as nat) >= pow2(e + 2),
        ;
    }
}

/// `10^k`.
fn pow10_exec(k: u32) -> (r: u128)
    requires
        k <= 37,
    ensures
        r == pow10(k as nat),
{
    let mut r: u128 = 1;
    let mut i: u32 = 0;
    assert(pow10(37) == 10000000000000000000000000000000000000) by {
        reveal_with_fuel(pow10, 38);
    }
    while i < k
        invariant
            i <= k <= 37,
            r == pow10(i as nat),
            pow10(37) == 10000000000000000000000000000000000000,
        decreases k - i,
    {
        proof {
            lemma_pow10_grows(i as nat, 36);
        }
        assert(pow10(36) == 1000000000000000000000000000000000000) by {
            reveal_with_fuel(pow10, 37);
        }
        r = r * 10;
        i = i + 1;
    }
    r
}

/// `5^k`.
fn pow5_exec(k: u32) -> (r: u128)
    requires
        k <= 26,
    ensures
        r == pow5(k as nat),
        r <= 1490116119384765625,
{
    let mut r: u128 = 1;
    let mut i: u32 = 0;
    assert(pow5(26) == 1490116119384765625) by {
        reveal_with_fuel(pow5, 27);
    }
    while i < k
        invariant
            i <= k <= 26,
            r == pow5(i as nat),
            pow5(26) == 1490116119384765625,
        decreases k - i,
    {
        proof {
            lemma_pow5_grows(i as nat, 25);
            lemma_pow5_grows(25, 26);
        }
        assert(pow5(26) == 5 * pow5(25));
        r = r * 5;
        i = i + 1;
    }
    proof {
        lemma_pow5_grows(k as nat, 26);
    }
    r
}

/// Powers of five grow.
proof fn lemma_pow5_grows(a: nat, b: nat)
    requires
        a <= b,
    ensures
        1 <= pow5(a) <= pow5(b),
    decreases b,
{
    if a < b {
        lemma_pow5_grows(a, (b - 1) as nat);
    } else if a > 0 {
        lemma_pow5_grows(0, (a - 1) as nat);
    }
}

/// The window at position `j` of a normalized double `m / 2^e`.
fn window_exec(m: u128, e: u32, j: i32) -> (r: (u128, u128, u128, u128))
    requires
        pow2(52) <= m < pow2(53),
        20 <= e <= 84,
        -26 <= j <= 10,
        j < 0 ==> -j <= e + 2,
    ensures
        r.0 as nat == decimal_window(m as nat, e as nat, j as int).0,
        r.1 as nat == decimal_window(m as nat, e as nat, j as int).1,
        r.2 as nat == decimal_window(m as nat, e as nat, j as int).2,
        r.3 as nat == decimal_window(m as nat, e as nat, j as int).3,
        r.1 >= 1,
        r.0 < 0x20_0000_0000_0000_0000_0000_0000_0000,
        r.3 < 0x20_0000_0000_0000_0000_0000_0000_0000,
        r.1 < 0x200_0000_0000_0000_0000_0000_0000_0000,
        r.2 < r.0 < r.3,
{
    proof {
        lemma2_to64();
        lemma2_to64_rest();
    }
    let low: u128 = if m == 0x10_0000_0000_0000 {
        4 * m - 1
    } else {
        4 * m - 2
    };
    let high: u128 = 4 * m + 2;
    if j >= 0 {
        let p = pow2_exec(e + 2);
        let q = pow10_exec(j as u32);
        proof {
            if e + 2 < 86 {
                lemma_pow2_strictly_increases((e + 2) as nat, 86);
            }
            lemma_pow2_adds(64, 22);
            lemma_pow10_grows(j as nat, 10);
            assert(pow10(10) == 10000000000) by {
                reveal_with_fuel(pow10, 11);
            }
            lemma_pow2_pos((e + 2) as nat);
        }
        assert(p * q <= 0x40_0000_0000_0000_0000_0000 * 10000000000) by (nonlinear_arith)
            requires
                p <= 0x40_0000_0000_0000_0000_0000,
                q <= 10000000000,
        ;
        assert(p * q >= 1) by (nonlinear_arith)
            requires
                p >= 1,
                q >= 1,
        ;
        (4 * m, p * q, low, high)
    } else {
        let t: u32 = (-j) as u32;
        let f = pow5_exec(t);
        proof {
            lemma_pow5_grows(0, t as nat);
        }
        let p = pow2_exec(e + 2 - t);
        proof {
            lemma_pow2_pos((e + 2 - t) as nat);
            if e + 2 - t < 86 {
                lemma_pow2_strictly_increases((e + 2 - t) as nat, 86);
            }
            lemma_pow2_adds(64, 22);
        }
        assert(high * f < 0x20_0000_0000_0000_0000_0000_0000_0000) by (nonlinear_arith)
            requires
                high <= 4 * 0x20_0000_0000_0000 + 2,
                f <= 1490116119384765625,
        ;
        assert(low * f < 4 * m * f && 4 * m * f < high * f) by (nonlinear_arith)
            requires
                low < 4 * m,
                4 * m < high,
                f >= 1,
        ;
        (4 * m * f, p, low * f, high * f)
    }
}

/// Computes [`nearest_read_back`] on a window of bounded terms.
fn nearest_exec(w: (u128, u128, u128, u128), even: bool) -> (r: Option<u128>)
    requires
        w.1 >= 1,
        w.0 < 0x20_0000_0000_0000_0000_0000_0000_0000,
        w.3 < 0x20_0000_0000_0000_0000_0000_0000_0000,
        w.1 < 0x200_0000_0000_0000_0000_0000_0000_0000,
    ensures
        match r {
            Some(c) => nearest_read_back((w.0 as nat, w.1 as nat, w.2 as nat, w.3 as nat), even) == Some(
                c as nat,
            ),
            None => nearest_read_back((w.0 as nat, w.1 as nat, w.2 as nat, w.3 as nat), even) is None,
        },
{
    let (a, b, lo, hi) = w;
    let down = a / b;
    let up = if a % b == 0 {
        down
    } else {
        down + 1
    };
    proof {
        lemma_fundamental_div_mod(a as int, b as int);
    }
    assert(down * b <= a && up * b <= a + b && up * b >= a) by (nonlinear_arith)
        requires
            a == b * down + a % b,
            0 <= a % b < b,
            up == (if a % b == 0 { down as int } else { down + 1 }),
    ;
    let ub = up * b;
    let db = down * b;
    let up_fits = if even {
        lo <= ub && ub <= hi
    } else {
        lo < ub && ub < hi
    };
    let down_fits = if even {
        lo <= db && db <= hi
    } else {
        lo < db && db < hi
    };
    if up_fits && (!down_fits || ub - a <= a - db) {
        Some(up)
    } else if down_fits {
        Some(down)
    } else {
        None
    }
}

/// Appends `n` in decimal, left-padded with zeros to `w` digits.
fn push_dec_pad_wide(s: &mut String, n: u128, w: usize)
    ensures
        final(s)@ == old(s)@ + zero_pad(dec(n as nat), w as nat),
{
    let ghost s0 = s@;
    let mut t = String::new();
    push_dec_wide(&mut t, n);
    let len = t.unicode_len();
    if len < w {
        push_zeros(s, w - len);
    }
    push_str(s, t.as_str());
    proof {
        assert(s@ =~= s0 + zero_pad(dec(n as nat), w as nat));
    }
}

/// Prints the double `n / d` as `{}` does: the shortest decimal that reads
/// back as it.
pub fn format_shortest(n: u32, d: u32) -> (r: String)
    requires
        d >= 1,
    ensures
        r@ == shortest_text(n as nat, d as nat),
{
    if n == 0 {
        proof {
            reveal_strlit("0");
        }
        return owned("0");
    }
    let (m0, e0, _p0) = quotient_double(n as u64, d as u64);
    proof {
        lemma2_to64();
        lemma2_to64_rest();
        lemma_quotient_scale(n as nat, d as nat);
        assert((n as nat) < pow2(53) * (d as nat)) by (nonlinear_arith)
            requires
                n < 0x1_0000_0000,
                d >= 1,
                pow2(53) == 0x20_0000_0000_0000,
        ;
        lemma_binade_scale(n as nat, d as nat, 90);
        // Below scale 90 the quotient fills the binade: m0 >= 2^52.
        lemma_pow2_unfold((e0 + 1) as nat);
        let x = (n as nat) * pow2(e0 as nat);
        assert(x >= pow2(52) * (d as nat)) by (nonlinear_arith)
            requires
                (n as nat) * pow2((e0 + 1) as nat) >= pow2(53) * (d as nat),
                pow2((e0 + 1) as nat) == 2 * pow2(e0 as nat),
                pow2(53) == 2 * pow2(52),
                x == (n as nat) * pow2(e0 as nat),
        ;
        assert(x / (d as nat) >= pow2(52)) by (nonlinear_arith)
            requires
                x >= pow2(52) * (d as nat),
                d >= 1,
        ;
    }
    let m: u128 = if m0 == 0x20_0000_0000_0000 {
        0x10_0000_0000_0000
    } else {
        m0
    };
    let e: u32 = if m0 == 0x20_0000_0000_0000 {
        e0 - 1
    } else {
        e0
    };
    let even = m % 2 == 0;
    let ghost wide: nat = (read_back_high(m as nat) - read_back_low(m as nat)) as nat;
    assert(wide == 3 || wide == 4);
    let mut j: i32 = 10;
    let mut c: u128 = 0;
    loop
        invariant_except_break
            -26 <= j <= 10,
            j < 0 ==> wide * pow10((-j - 1) as nat) <= pow2((e + 2) as nat),
            coarsest_read_back(m as nat, e as nat, j as int) == coarsest_read_back(m as nat, e as nat, 10),
        invariant
            pow2(52) <= m < pow2(53),
            20 <= e <= 84,
            even == (m % 2 == 0),
            wide == (read_back_high(m as nat) - read_back_low(m as nat)),
            wide == 3 || wide == 4,
            m as nat == norm_significand(n as nat, d as nat),
            e as nat == norm_scale(n as nat, d as nat),
        ensures
            -26 <= j <= 10,
            coarsest_read_back(m as nat, e as nat, 10) == (j as int, c as nat),
        decreases j + 30,
    {
        if j < 0 {
            proof {
                lemma_position_bounds(wide, e as nat, (-j) as nat);
            }
        }
        let w = window_exec(m, e, j);
        match nearest_exec(w, even) {
            Some(found) => {
                c = found;
                break;
            },
            None => {
                proof {
                    if j < 0 {
                        let t = (-j) as nat;
                        lemma_pow2_pos(t);
                        if wide * pow10(t) > pow2((e + 2) as nat) {
                            lemma_pow10_split(t);
                            lemma_pow2_adds((e + 2 - t) as nat, t);
                            assert(w.3 - w.2 == wide * pow5(t)) by (nonlinear_arith)
                                requires
                                    w.3 == read_back_high(m as nat) * pow5(t),
                                    w.2 == read_back_low(m as nat) * pow5(t),
                                    wide == read_back_high(m as nat) - read_back_low(m as nat),
                            ;
                            assert(wide * pow5(t) > w.1) by (nonlinear_arith)
                                requires
                                    wide * (pow2(t) * pow5(t)) > w.1 * pow2(t),
                                    pow2(t) > 0,
                            ;
                            lemma_window_holds_step((w.0 as nat, w.1 as nat, w.2 as nat, w.3 as nat), even);
                        }
                        assert(wide * pow10(((t + 1) - 1) as nat) <= pow2((e + 2) as nat));
                        lemma_position_bounds(wide, e as nat, t + 1);
                    } else if j == 0 {
                        lemma2_to64();
                        lemma_pow2_pos((e + 2) as nat);
                        lemma_pow2_strictly_increases(2, (e + 2) as nat);
                        assert(pow10(0) == 1);
                    }
                }
                j = j - 1;
            },
        }
    }
    let mut s = String::new();
    if j >= 0 {
        push_dec_wide(&mut s, c);
        push_zeros(&mut s, j as usize);
    } else {
        let t = (-j) as u32;
        let p = pow10_exec(t);
        proof {
            lemma_pow10_grows(0, t as nat);
        }
        push_dec_wide(&mut s, c / p);
        push_char(&mut s, '.');
        push_dec_pad_wide(&mut s, c % p, t as usize);
    }
    proof {
        assert(s@ =~= steps_text(c as nat, j as int));
    }
    s
}

} // verus!
