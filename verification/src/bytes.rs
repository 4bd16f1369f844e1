//! Human-readable byte sizes, rendered exactly as std's float formatting
//! renders `bytes as f64 / 1 MiB` with one decimal, or `bytes as f64 /
//! 1 KiB` with none.
//!
//! The conversion to `f64` rounds to 53 significant bits, ties to even; the
//! division by a power of two is exact; the fixed-precision rendering rounds
//! the exact binary value to the nearest decimal, ties to even.

use vstd::prelude::*;
use crate::format::{decimal, digit_char, push_char, push_decimal, push_str};

verus! {

pub open spec fn pow2(k: nat) -> nat
    decreases k,
{
    if k == 0 { 1 } else { 2 * pow2((k - 1) as nat) }
}

/// Rounds `q + rem / unit` to an integer, ties to even, where `rem < unit`.
pub open spec fn round_half_even(q: nat, rem: nat, unit: nat) -> nat {
    if 2 * rem > unit || (2 * rem == unit && q % 2 == 1) { q + 1 } else { q }
}

/// The smallest shift that brings `b` below 2^53.
pub open spec fn excess_bits(b: nat) -> nat
    decreases b,
{
    if b < 9007199254740992 { 0 } else { 1 + excess_bits(b / 2) }
}

/// `b` rounded to the nearest value with 53 significant bits, ties to even:
/// the value of `b as f64`.
pub open spec fn as_f64_value(b: nat) -> nat {
    let k = excess_bits(b);
    round_half_even(b / pow2(k), b % pow2(k), pow2(k)) * pow2(k)
}

/// The size text of `bytes`.
pub open spec fn size_text(bytes: nat) -> Seq<char> {
    if bytes >= pow2(20) {
        let r = as_f64_value(bytes);
        let tenths = round_half_even((r * 10) / pow2(20), (r * 10) % pow2(20), pow2(20));
        decimal(tenths / 10) + seq!['.', digit_char(tenths % 10)] + " MB"@
    } else {
        decimal(round_half_even(bytes / 1024, bytes % 1024, 1024)) + " KB"@
    }
}

proof fn lemma_pow2_positive(k: nat)
    ensures
        pow2(k) >= 1,
    decreases k,
{
    if k > 0 {
        lemma_pow2_positive((k - 1) as nat);
    }
}

proof fn lemma_pow2_values()
    ensures
        pow2(10) == 1024,
        pow2(20) == 1048576,
        pow2(53) == 9007199254740992,
{
    reveal_with_fuel(pow2, 54);
}

/// Halving `b / 2^k` gives `b / 2^(k+1)`.
proof fn lemma_div_pow2_step(b: nat, k: nat)
    ensures
        b / pow2(k) / 2 == b / pow2(k + 1),
        pow2(k + 1) == 2 * pow2(k),
{
    lemma_pow2_positive(k);
    assert(pow2(k + 1) == 2 * pow2(k));
    vstd::arithmetic::div_mod::lemma_div_denominator(b as int, pow2(k) as int, 2);
}

/// The number of excess bits of `b` and the power of two they make up.
fn find_excess(b: u64) -> (res: (u32, u64))
    ensures
        res.0 as nat == excess_bits(b as nat),
        res.0 <= 11,
        res.1 as nat == pow2(res.0 as nat),
        (b as nat) / pow2(res.0 as nat) < pow2(53),
{
    proof {
        lemma_pow2_values();
    }
    let mut k: u32 = 0;
    let mut unit: u64 = 1;
    let mut q: u64 = b;
    while q >= 9007199254740992
        invariant
            k <= 11,
            unit as nat == pow2(k as nat),
            unit <= 2048,
            q as nat == (b as nat) / pow2(k as nat),
            excess_bits(b as nat) == k + excess_bits(q as nat),
            pow2(53) == 9007199254740992,
            q as nat * unit as nat <= u64::MAX,
        decreases q,
    {
        proof {
            lemma_div_pow2_step(b as nat, k as nat);
            assert(excess_bits(q as nat) == 1 + excess_bits((q / 2) as nat));
            if k >= 11 {
                reveal_with_fuel(pow2, 12);
                assert(unit == 2048);
                assert(q as nat * unit as nat > u64::MAX) by (nonlinear_arith)
                    requires unit == 2048, q >= 9007199254740992;
                assert(false);
            }
            assert((q / 2) as nat * (2 * unit) as nat <= q as nat * unit as nat) by (nonlinear_arith)
                requires unit >= 1;
        }
        q = q / 2;
        unit = unit * 2;
        k = k + 1;
    }
    (k, unit)
}

proof fn lemma_split(b: nat, unit: nat)
    requires
        unit >= 1,
    ensures
        b == (b / unit) * unit + b % unit,
        b % unit < unit,
{
    vstd::arithmetic::div_mod::lemma_fundamental_div_mod(b as int, unit as int);
    vstd::arithmetic::div_mod::lemma_mod_bound(b as int, unit as int);
}

/// The size text of `bytes`: mebibytes with one decimal from 1 MiB on,
/// kibibytes without decimals below.
pub fn format_bytes(bytes: u64) -> (res: String)
    ensures
        res@ == size_text(bytes as nat),
{
    proof {
        lemma_pow2_values();
    }
    let mut out = String::new();
    if bytes >= 1048576 {
        let (k, unit64) = find_excess(bytes);
        let unit = unit64 as u128;
        proof {
            lemma_pow2_positive(k as nat);
        }
        let wide = bytes as u128;
        let q = wide / unit;
        let rem = wide % unit;
        proof {
            lemma_split(bytes as nat, unit as nat);
            assert(q < 9007199254740992);
            assert(unit <= 2048) by {
                reveal_with_fuel(pow2, 12);
                if k == 11 {} else {}
                assert(pow2(k as nat) <= pow2(11)) by {
                    lemma_pow2_monotone(k as nat, 11);
                }
            }
        }
        let rounded_q = if 2 * rem > unit || (2 * rem == unit && q % 2 == 1) { q + 1 } else { q };
        proof {
            assert(rounded_q * unit <= 9007199254740992u128 * 2048) by (nonlinear_arith)
                requires rounded_q <= 9007199254740992u128, unit <= 2048;
        }
        let r = rounded_q * unit;
        let scaled = r * 10;
        let tq = scaled / 1048576;
        let trem = scaled % 1048576;
        let tenths = if 2 * trem > 1048576 || (2 * trem == 1048576 && tq % 2 == 1) { tq + 1 } else { tq };
        proof {
            assert(tenths <= scaled / 1048576 + 1);
            assert(scaled / 1048576 <= 9007199254740992u128 * 2048 * 10 / 1048576) by {
                vstd::arithmetic::div_mod::lemma_div_is_ordered(scaled as int, 9007199254740992int * 2048 * 10, 1048576);
            }
            assert(as_f64_value(bytes as nat) == r);
        }
        push_decimal(&mut out, (tenths / 10) as u64);
        push_char(&mut out, '.');
        push_decimal(&mut out, (tenths % 10) as u64);
        push_str(&mut out, " MB");
    } else {
        let q = bytes / 1024;
        let rem = bytes % 1024;
        let units = if 2 * rem > 1024 || (2 * rem == 1024 && q % 2 == 1) { q + 1 } else { q };
        push_decimal(&mut out, units);
        push_str(&mut out, " KB");
    }
    out
}

proof fn lemma_pow2_monotone(a: nat, b: nat)
    requires
        a <= b,
    ensures
        pow2(a) <= pow2(b),
    decreases b - a,
{
    if a < b {
        lemma_pow2_monotone(a, (b - 1) as nat);
        lemma_pow2_positive((b - 1) as nat);
    }
}

} // verus!
