//! Byte counts in words.
//!
//! A count is shown in megabytes with one decimal, rounded as double-precision
//! arithmetic rounds it: the count and the quotient are each taken to the
//! nearest number of fifty-three significant bits, and the decimal to the
//! nearest tenth, ties going to the even neighbour throughout.

use vstd::prelude::*;
use vstd::string::*;

use crate::text::{decimal, push_decimal, push_text};

verus! {

/// A million times the smallest whole number of fifty-three bits.
pub const LIFT_LIMIT: u128 = 4_503_599_627_370_496_000_000;

/// The whole number nearest to a fraction, the even one of two that are equally
/// near.
pub open spec fn nearest(num: int, den: int) -> int {
    let (whole, rest) = (num / den, num % den);
    if 2 * rest > den || (2 * rest == den && whole % 2 == 1) {
        whole + 1
    } else {
        whole
    }
}

/// The last place of a whole number with fifty-three significant bits.
pub open spec fn last_place(x: int) -> int
    decreases x,
{
    if x < 0x20_0000_0000_0000 {
        1
    } else {
        2 * last_place(x / 2)
    }
}

/// The number of fifty-three significant bits nearest to a whole number.
pub open spec fn double_of(x: int) -> int {
    nearest(x, last_place(x)) * last_place(x)
}

/// The power of two that lifts `x` to `limit` or just above.
pub open spec fn lift(x: int, limit: int) -> int
    decreases (if x < limit { limit - x } else { 0 }),
{
    if x <= 0 || x >= limit {
        1
    } else {
        2 * lift(2 * x, limit)
    }
}

/// The tenths of a megabyte in a byte count.
pub open spec fn tenths(bytes: int) -> int {
    if bytes <= 0 {
        0
    } else {
        let count = double_of(bytes);
        let up = lift(count, LIFT_LIMIT as int);
        nearest(10 * nearest(count * up, 1_000_000), up)
    }
}

/// A byte count as text: megabytes with one decimal.
pub open spec fn bytes_text(bytes: int) -> Seq<char> {
    decimal((tenths(bytes) / 10) as nat) + "."@ + decimal((tenths(bytes) % 10) as nat) + " MB"@
}

fn round_to_nearest(num: u128, den: u128) -> (whole: u128)
    requires
        den > 0,
        num < 0x1_0000_0000_0000_0000_0000_0000,
        den < 0x1_0000_0000_0000_0000_0000_0000,
    ensures
        whole == nearest(num as int, den as int),
        whole <= num + 1,
{
    let whole: u128 = num / den;
    let rest: u128 = num % den;
    proof {
        assert(whole <= num) by (nonlinear_arith)
            requires
                whole == num / den,
                den > 0,
        ;
    }
    if 2 * rest > den || (2 * rest == den && whole % 2 == 1) {
        whole + 1
    } else {
        whole
    }
}

proof fn lemma_nearest(num: int, den: int)
    requires
        num >= 0,
        den > 0,
    ensures
        nearest(num, den) >= num / den >= 0,
        nearest(num, den) * den <= num + den,
{
    let (whole, rest) = (num / den, num % den);
    assert(num == whole * den + rest && 0 <= rest < den && whole >= 0) by (nonlinear_arith)
        requires
            num >= 0,
            den > 0,
            whole == num / den,
            rest == num % den,
    ;
    assert((whole + 1) * den == whole * den + den) by (nonlinear_arith);
}

/// A count rounded to its last place is a little more than the count at most,
/// and never nothing.
proof fn lemma_count_bounds(x: int, place: int)
    requires
        1 <= x <= u64::MAX,
        place == last_place(x),
        1 <= place <= 0x800,
    ensures
        1 <= nearest(x, place) * place <= 0x1_0000_0000_0000_0800,
{
    lemma_nearest(x, place);
    assert(x / place >= 1) by (nonlinear_arith)
        requires
            1 <= place <= x,
    ;
    assert(nearest(x, place) * place >= 1) by (nonlinear_arith)
        requires
            nearest(x, place) >= 1,
            place >= 1,
    ;
}

/// The tenths of a megabyte in a count are fewer than the count and a few.
proof fn lemma_tenths_fit(x: int)
    requires
        0 <= x <= u64::MAX,
    ensures
        0 <= tenths(x) <= 0x1_0000_0000_0000_1000,
{
    if x > 0 {
        vstd::arithmetic::power2::lemma2_to64();
        lemma_last_place(x, 11);
        let count = double_of(x);
        lemma_count_bounds(x, last_place(x));
        let up = lift(count, LIFT_LIMIT as int);
        lemma_lift_positive(count, LIFT_LIMIT as int);
        assert(count * up >= 0) by (nonlinear_arith)
            requires
                count >= 0,
                up >= 1,
        ;
        lemma_nearest(count * up, 1_000_000);
        let quotient = nearest(count * up, 1_000_000);
        lemma_nearest(10 * quotient, up);
        let t = nearest(10 * quotient, up);
        assert(10 * quotient <= count * up + 10);
        assert(t <= count + 11) by (nonlinear_arith)
            requires
                t * up <= 10 * quotient + up,
                10 * quotient <= count * up + 10,
                up >= 1,
        ;
    }
}

proof fn lemma_lift_positive(x: int, limit: int)
    ensures
        lift(x, limit) >= 1,
    decreases (if x < limit { limit - x } else { 0 }),
{
    if 0 < x < limit {
        lemma_lift_positive(2 * x, limit);
    }
}

proof fn lemma_last_place(x: int, n: nat)
    requires
        0 <= x < 0x20_0000_0000_0000 * vstd::arithmetic::power2::pow2(n),
    ensures
        1 <= last_place(x) <= vstd::arithmetic::power2::pow2(n),
        x < 0x20_0000_0000_0000 * last_place(x),
    decreases n,
{
    vstd::arithmetic::power2::lemma_pow2_pos(n);
    if x >= 0x20_0000_0000_0000 {
        if n == 0 {
            vstd::arithmetic::power2::lemma2_to64();
        } else {
            vstd::arithmetic::power2::lemma_pow2_unfold(n);
            lemma_last_place(x / 2, (n - 1) as nat);
        }
    }
}

/// The last place of a byte count.
fn last_place_of(bytes: u64) -> (place: u128)
    ensures
        place == last_place(bytes as int),
        1 <= place <= 0x800,
        bytes < 0x20_0000_0000_0000 * place,
{
    proof {
        vstd::arithmetic::power2::lemma2_to64();
        lemma_last_place(bytes as int, 11);
    }
    let mut rest: u64 = bytes;
    let mut place: u128 = 1;
    while rest >= 0x20_0000_0000_0000
        invariant
            place * last_place(rest as int) == last_place(bytes as int),
            last_place(bytes as int) <= 0x800,
            1 <= place,
            last_place(rest as int) >= 1,
        decreases rest,
    {
        proof {
            assert(last_place(rest as int) == 2 * last_place(rest as int / 2));
            assert(place * (2 * last_place(rest as int / 2)) == (2 * place) * last_place(
                rest as int / 2,
            )) by (nonlinear_arith);
            assert(2 * place <= 0x800) by (nonlinear_arith)
                requires
                    (2 * place) * last_place(rest as int / 2) <= 0x800,
                    last_place(rest as int / 2) >= 1,
                    place >= 1,
            ;
        }
        rest = rest / 2;
        place = 2 * place;
    }
    place
}

/// The power of two that lifts a count to the limit or just above.
fn lift_of(count: u128) -> (up: u128)
    requires
        1 <= count <= 0x2_0000_0000_0000_0000,
    ensures
        up == lift(count as int, LIFT_LIMIT as int),
        1 <= up,
        count * up < 2 * LIFT_LIMIT,
        up < 2 * LIFT_LIMIT,
{
    let limit: u128 = LIFT_LIMIT;
    let mut lifted: u128 = count;
    let mut up: u128 = 1;
    while lifted < limit
        invariant
            limit == LIFT_LIMIT,
            1 <= count,
            1 <= lifted < 2 * limit,
            lifted == count * up,
            1 <= up <= lifted,
            up * lift(lifted as int, limit as int) == lift(count as int, limit as int),
        decreases (if lifted < limit { limit - lifted } else { 0 }),
    {
        proof {
            let rest = lift(2 * lifted as int, limit as int);
            assert(lift(lifted as int, limit as int) == 2 * rest);
            assert(up * (2 * rest) == (2 * up) * rest) by (nonlinear_arith);
            assert(count * (2 * up) == 2 * (count * up)) by (nonlinear_arith);
        }
        lifted = 2 * lifted;
        up = 2 * up;
    }
    up
}

/// Formats a byte count: one decimal place, always megabytes.
pub fn format_bytes(bytes: u64) -> (text: String)
    ensures
        text@ == bytes_text(bytes as int),
{
    let mut tenths_of: u128 = 0;
    if bytes > 0 {
        let place: u128 = last_place_of(bytes);
        let whole: u128 = round_to_nearest(bytes as u128, place);
        proof {
            lemma_count_bounds(bytes as int, place as int);
        }
        let count: u128 = whole * place;
        let up: u128 = lift_of(count);
        proof {
            assert(0 <= count * up) by (nonlinear_arith);
        }
        let quotient: u128 = round_to_nearest(count * up, 1_000_000);
        tenths_of = round_to_nearest(10 * quotient, up);
    }
    proof {
        lemma_tenths_fit(bytes as int);
    }
    let mut text = String::new();
    push_decimal(&mut text, (tenths_of / 10) as u64);
    push_text(&mut text, ".");
    push_decimal(&mut text, (tenths_of % 10) as u64);
    push_text(&mut text, " MB");
    assert(text@ =~= bytes_text(bytes as int));
    text
}

} // verus!
