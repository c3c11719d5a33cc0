//! Raw on-chain amounts and their decimal-scaled text.

use crate::error::{BlockchainServiceError, ServiceFault};
use vstd::prelude::*;
use vstd::string::*;

verus! {

/// The character of a decimal digit; `'0'` for anything above nine.
pub open spec fn digit_char(d: nat) -> char {
    if d == 1 {
        '1'
    } else if d == 2 {
        '2'
    } else if d == 3 {
        '3'
    } else if d == 4 {
        '4'
    } else if d == 5 {
        '5'
    } else if d == 6 {
        '6'
    } else if d == 7 {
        '7'
    } else if d == 8 {
        '8'
    } else if d == 9 {
        '9'
    } else {
        '0'
    }
}

/// Ten to the power `e`.
pub open spec fn pow10(e: nat) -> nat
    decreases e,
{
    if e == 0 {
        1
    } else {
        10 * pow10((e - 1) as nat)
    }
}

/// The decimal numeral of `n`, without leading zeros (`"0"` for zero).
pub open spec fn decimal_text(n: nat) -> Seq<char>
    decreases n,
{
    if n < 10 {
        seq![digit_char(n)]
    } else {
        decimal_text(n / 10).push(digit_char(n % 10))
    }
}

/// Whether a character is a decimal digit.
pub open spec fn is_digit(c: char) -> bool {
    c == '0' || c == '1' || c == '2' || c == '3' || c == '4' || c == '5' || c == '6' || c == '7'
        || c == '8' || c == '9'
}

/// The number that a digit character stands for; zero for any other.
pub open spec fn digit_value(c: char) -> nat {
    if c == '1' {
        1
    } else if c == '2' {
        2
    } else if c == '3' {
        3
    } else if c == '4' {
        4
    } else if c == '5' {
        5
    } else if c == '6' {
        6
    } else if c == '7' {
        7
    } else if c == '8' {
        8
    } else if c == '9' {
        9
    } else {
        0
    }
}

/// Whether every character of a text is a decimal digit.
pub open spec fn all_digits(text: Seq<char>) -> bool {
    forall|i: int| 0 <= i < text.len() ==> is_digit(#[trigger] text[i])
}

/// The number that a text of decimal digits stands for.
pub open spec fn digits_value(text: Seq<char>) -> nat
    decreases text.len(),
{
    if text.len() == 0 {
        0
    } else {
        digits_value(text.drop_last()) * 10 + digit_value(text.last())
    }
}

/// `count` zeros.
pub open spec fn zeros(count: nat) -> Seq<char> {
    Seq::new(count, |i: int| '0')
}

/// `text` with as many `'0'` in front as it takes to reach `width`
/// characters; unchanged when it is that long already.
pub open spec fn zero_padded(text: Seq<char>, width: nat) -> Seq<char> {
    if text.len() >= width {
        text
    } else {
        zeros((width - text.len()) as nat) + text
    }
}

/// The fixed-point rendering of `amount / 10^units`: the whole part, a point,
/// and the remainder padded with zeros to `units` digits.
pub open spec fn fixed_point_text(amount: nat, units: nat) -> Seq<char> {
    decimal_text(amount / pow10(units)) + seq!['.'] + zero_padded(
        decimal_text(amount % pow10(units)),
        units,
    )
}

/// The number that four 64-bit limbs stand for, least significant first.
pub open spec fn limbs_value(limbs: Seq<u64>) -> nat {
    (limbs[0] as nat) + (limbs[1] as nat) * 0x1_0000_0000_0000_0000 + (limbs[2] as nat)
        * 0x1_0000_0000_0000_0000_0000_0000_0000_0000 + (limbs[3] as nat)
        * 0x1_0000_0000_0000_0000_0000_0000_0000_0000_0000_0000_0000_0000
}

/// What the conversion says when the scale is out of range.
pub open spec fn overflow_text() -> Seq<char> {
    "Overflow parsing string"@
}

/// The largest scale that a 256-bit amount can be divided by.
pub const MAX_UNITS: i32 = 77;

/// Calls `ethers::utils::format_units` on the 256-bit unsigned amount that
/// the limbs stand for. With `decimals` from 0 to 77 the call yields the whole
/// part of `amount / 10^decimals`, a point, and the remainder padded with
/// zeros to `decimals` digits. With any other `decimals` it fails, and the
/// error's text is the one of an overflow.
#[verifier::external_body]
fn ethers_format_units(limbs: [u64; 4], decimals: i32) -> (r: Result<String, String>)
    ensures
        r is Ok <==> 0 <= decimals <= MAX_UNITS,
        r matches Ok(text) ==> text@ == fixed_point_text(limbs_value(limbs@), decimals as nat),
        r matches Err(cause) ==> cause@ == overflow_text(),
{
    match ethers::utils::format_units(ethers::types::U256(limbs), decimals) {
        Ok(text) => Ok(text),
        Err(e) => Err(e.to_string()),
    }
}

/// The last `width` decimal digits of `f`, most significant first.
pub open spec fn fixed_digits(f: nat, width: nat) -> Seq<char>
    decreases width,
{
    if width == 0 {
        Seq::empty()
    } else {
        fixed_digits(f / 10, (width - 1) as nat).push(digit_char(f % 10))
    }
}

/// The digits after the point of `f / 10^width`, for `f` below `10^width`:
/// its `width` digits without the zeros at their end. A last digit of zero
/// adds nothing, since `f / 10^width` is then `(f / 10) / 10^(width - 1)`.
pub open spec fn fraction_text(f: nat, width: nat) -> Seq<char>
    decreases width,
{
    if width == 0 {
        Seq::empty()
    } else if f % 10 == 0 {
        fraction_text(f / 10, (width - 1) as nat)
    } else {
        fixed_digits(f, width)
    }
}

/// A whole part and the digits after the point as one numeral: the point
/// stands only where digits follow it.
pub open spec fn joined(whole: Seq<char>, fraction: Seq<char>) -> Seq<char> {
    if fraction.len() == 0 {
        whole
    } else {
        whole + seq!['.'] + fraction
    }
}

/// The display text of a raw amount at a scale: `amount / 10^decimals`
/// written out exactly, with no digit that the division does not give.
pub open spec fn scaled_text(amount: nat, decimals: nat) -> Seq<char> {
    joined(
        decimal_text(amount / pow10(decimals)),
        fraction_text(amount % pow10(decimals), decimals),
    )
}

/// Whether a scale can be applied to a 256-bit amount.
pub open spec fn scale_in_range(decimals: int) -> bool {
    0 <= decimals <= MAX_UNITS
}

/// A raw on-chain amount: an unsigned integer of 256 bits, held as four
/// 64-bit limbs, least significant first.
#[derive(Debug, Clone, Copy, PartialEq, Eq)]
pub struct RawBalance {
    pub limbs: [u64; 4],
}

impl View for RawBalance {
    type V = nat;

    open spec fn view(&self) -> nat {
        limbs_value(self.limbs@)
    }
}

impl RawBalance {
    /// The amount that the limbs stand for, least significant limb first.
    pub fn new(limbs: [u64; 4]) -> (amount: RawBalance)
        ensures
            amount.limbs == limbs,
    {
        RawBalance { limbs }
    }

    /// The amount divided by `10^decimals`, as display text: the whole part,
    /// and after a point the digits that the division gives, none of them a
    /// trailing zero. A scale that is negative or above 77 is a conversion
    /// failure.
    pub fn format_units(&self, decimals: i32) -> (r: Result<String, BlockchainServiceError>)
        ensures
            scale_in_range(decimals as int) ==> (r matches Ok(text) && text@ == scaled_text(
                self@,
                decimals as nat,
            )),
            !scale_in_range(decimals as int) ==> (r matches Err(e) && e@
                == ServiceFault::Conversion(overflow_text())),
    {
        match ethers_format_units(self.limbs, decimals) {
            Ok(text) => Ok(trim_fixed_point(text.as_str(), Ghost(self@), Ghost(decimals as nat))),
            Err(cause) => Err(BlockchainServiceError::EthConversionError(cause)),
        }
    }
}

/// Where the display text ends inside a fixed-point numeral: behind the last
/// digit after the point that is not zero, or behind the point where there is
/// none.
pub open spec fn significant_len(amount: nat, units: nat) -> nat {
    decimal_text(amount / pow10(units)).len() + 1 + fraction_text(
        amount % pow10(units),
        units,
    ).len()
}

/// The shape of a fixed-point numeral: from `significant_len` on it holds
/// zeros only, and the character before is no zero. That character is the
/// point exactly when the division leaves no remainder; the display text is
/// what stands before the point then, and else what stands before the zeros.
proof fn lemma_fixed_point_shape(amount: nat, units: nat)
    ensures
        ({
            let text = fixed_point_text(amount, units);
            let stop = significant_len(amount, units) as int;
            let exact = fraction_text(amount % pow10(units), units).len() == 0;
            &&& 2 <= stop <= text.len()
            &&& forall|i: int| stop <= i < text.len() ==> text[i] == '0'
            &&& text[stop - 1] != '0'
            &&& exact <==> text[stop - 1] == '.'
            &&& exact ==> text.subrange(0, stop - 1) == scaled_text(amount, units)
            &&& !exact ==> text.subrange(0, stop) == scaled_text(amount, units)
        }),
{
    let text = fixed_point_text(amount, units);
    let whole = decimal_text(amount / pow10(units));
    let rest = amount % pow10(units);
    let fraction = fraction_text(rest, units);
    let padded = zero_padded(decimal_text(rest), units);
    let stop = significant_len(amount, units) as int;
    lemma_pow10_positive(units);
    lemma_padded_ends_in_zeros(rest, units);
    lemma_decimal_text_digits(amount / pow10(units));
    lemma_fixed_digits_are_digits(rest, units);
    lemma_fraction_is_prefix(rest, units);
    assert(text.len() == whole.len() + 1 + padded.len());
    assert(text[whole.len() as int] == '.');
    assert forall|i: int| 0 <= i < padded.len() implies text[whole.len() + 1 + i] == padded[i] by {}
    assert forall|i: int| stop <= i < text.len() implies text[i] == '0' by {
        assert(text[i] == padded[i - whole.len() - 1]);
    }
    if fraction.len() > 0 {
        assert(text[stop - 1] == padded[fraction.len() - 1]);
        assert(padded[fraction.len() - 1] == fraction.last());
        assert(is_digit(fraction.last()));
        assert(text.subrange(0, stop) =~= whole + seq!['.'] + fraction);
    } else {
        assert(text.subrange(0, stop - 1) =~= whole);
    }
}

/// Drops the zeros at the end of a fixed-point numeral, and the point where
/// nothing is left behind it.
fn trim_fixed_point(text: &str, Ghost(amount): Ghost<nat>, Ghost(units): Ghost<nat>) -> (r: String)
    requires
        text@ == fixed_point_text(amount, units),
    ensures
        r@ == scaled_text(amount, units),
{
    proof {
        lemma_fixed_point_shape(amount, units);
    }
    let n = text.unicode_len();
    let mut end = n;
    while end > 0 && text.get_char(end - 1) == '0'
        invariant
            end <= n,
            n == text@.len(),
            forall|i: int| end <= i < n ==> text@[i] == '0',
        decreases end,
    {
        end = end - 1;
    }
    assert(end == significant_len(amount, units));
    if text.get_char(end - 1) == '.' {
        end = end - 1;
    }
    String::from_str(text.substring_char(0, end))
}

/// A digit's character is one of the ten digit characters, and `'0'` only
/// for zero.
pub proof fn lemma_digit_char(d: nat)
    requires
        d < 10,
    ensures
        is_digit(digit_char(d)),
        digit_char(d) == '0' <==> d == 0,
        digit_value(digit_char(d)) == d,
{
}

/// A power of ten is positive.
pub proof fn lemma_pow10_positive(e: nat)
    ensures
        pow10(e) > 0,
    decreases e,
{
    if e > 0 {
        lemma_pow10_positive((e - 1) as nat);
    }
}

/// A decimal numeral is made of digits and is not empty.
pub proof fn lemma_decimal_text_digits(n: nat)
    ensures
        decimal_text(n).len() > 0,
        all_digits(decimal_text(n)),
    decreases n,
{
    if n >= 10 {
        lemma_decimal_text_digits(n / 10);
        lemma_digit_char(n % 10);
    } else {
        lemma_digit_char(n);
    }
}

/// `fixed_digits` gives `width` characters, all of them digits.
pub proof fn lemma_fixed_digits_are_digits(f: nat, width: nat)
    ensures
        fixed_digits(f, width).len() == width,
        all_digits(fixed_digits(f, width)),
    decreases width,
{
    if width > 0 {
        lemma_fixed_digits_are_digits(f / 10, (width - 1) as nat);
        lemma_digit_char(f % 10);
    }
}

/// The digits of zero are zeros.
proof fn lemma_fixed_digits_of_zero(width: nat)
    ensures
        fixed_digits(0, width) =~= zeros(width),
    decreases width,
{
    if width > 0 {
        lemma_fixed_digits_of_zero((width - 1) as nat);
    }
}

/// Padding the numeral of a number below `10^width` gives its `width` digits.
proof fn lemma_padded_is_fixed(f: nat, width: nat)
    requires
        width >= 1,
        f < pow10(width),
    ensures
        zero_padded(decimal_text(f), width) =~= fixed_digits(f, width),
    decreases width,
{
    if f < 10 {
        lemma_fixed_digits_of_zero((width - 1) as nat);
        assert(f / 10 == 0);
        assert(f % 10 == f);
    } else {
        assert(width >= 2) by {
            if width == 1 {
                assert(pow10(1) == 10 * pow10(0));
            }
        }
        assert(f / 10 < pow10((width - 1) as nat));
        lemma_padded_is_fixed(f / 10, (width - 1) as nat);
        let t = decimal_text(f / 10);
        let c = digit_char(f % 10);
        assert(zero_padded(t.push(c), width) =~= zero_padded(t, (width - 1) as nat).push(c));
    }
}

/// The digits after the point are the fixed digits without the zeros at
/// their end: they are at most `width`, do not end in zero, and the fixed
/// digits are these followed by zeros.
pub proof fn lemma_fraction_is_prefix(f: nat, width: nat)
    ensures
        fraction_text(f, width).len() <= width,
        fraction_text(f, width).len() > 0 ==> fraction_text(f, width).last() != '0',
        fixed_digits(f, width) =~= fraction_text(f, width) + zeros(
            (width - fraction_text(f, width).len()) as nat,
        ),
        all_digits(fraction_text(f, width)),
        f % pow10(width) == 0 <==> fraction_text(f, width).len() == 0,
    decreases width,
{
    lemma_fixed_digits_are_digits(f, width);
    if width > 0 {
        lemma_pow10_positive((width - 1) as nat);
        if f % 10 == 0 {
            lemma_fraction_is_prefix(f / 10, (width - 1) as nat);
            lemma_digit_char(0);
            assert(f % pow10(width) == 0 <==> (f / 10) % pow10((width - 1) as nat) == 0) by {
                lemma_mod_by_ten_times(f, pow10((width - 1) as nat));
            }
        } else {
            lemma_digit_char(f % 10);
            assert(f % pow10(width) != 0) by {
                lemma_mod_by_ten_times(f, pow10((width - 1) as nat));
            }
        }
    }
}

/// A remainder by `10 * m` keeps the last digit and the remainder of the
/// rest by `m`.
proof fn lemma_mod_by_ten_times(f: nat, m: nat)
    requires
        m > 0,
    ensures
        f % (10 * m) == 10 * ((f / 10) % m) + f % 10,
{
    let q = f / 10;
    let r = f % 10;
    let a = q / m;
    let b = q % m;
    assert(q == m * a + b) by {
        vstd::arithmetic::div_mod::lemma_fundamental_div_mod(q as int, m as int);
    }
    assert(f == (10 * m) * a + (10 * b + r)) by (nonlinear_arith)
        requires
            f == 10 * q + r,
            q == m * a + b,
    ;
    assert(0 <= 10 * b + r < 10 * m);
    vstd::arithmetic::div_mod::lemma_fundamental_div_mod_converse(
        f as int,
        (10 * m) as int,
        a as int,
        (10 * b + r) as int,
    );
}

/// The numeral of a number stands for that number.
pub proof fn lemma_decimal_text_value(n: nat)
    ensures
        digits_value(decimal_text(n)) == n,
    decreases n,
{
    if n < 10 {
        lemma_digit_char(n);
        assert(decimal_text(n).drop_last() =~= Seq::<char>::empty());
        assert(digits_value(decimal_text(n).drop_last()) == 0);
    } else {
        lemma_decimal_text_value(n / 10);
        lemma_digit_char(n % 10);
        let t = decimal_text(n / 10);
        assert(t.push(digit_char(n % 10)).drop_last() =~= t);
    }
}

/// The `width` digits of a number stand for its remainder by `10^width`.
proof fn lemma_fixed_digits_value(f: nat, width: nat)
    ensures
        digits_value(fixed_digits(f, width)) == f % pow10(width),
    decreases width,
{
    if width > 0 {
        let w = (width - 1) as nat;
        lemma_fixed_digits_value(f / 10, w);
        lemma_digit_char(f % 10);
        lemma_pow10_positive(w);
        lemma_mod_by_ten_times(f, pow10(w));
        let t = fixed_digits(f / 10, w);
        assert(t.push(digit_char(f % 10)).drop_last() =~= t);
    }
}

/// The digits after the point, shifted to `width` places, stand for the
/// remainder by `10^width`.
proof fn lemma_fraction_value(f: nat, width: nat)
    ensures
        fraction_text(f, width).len() <= width,
        digits_value(fraction_text(f, width)) * pow10(
            (width - fraction_text(f, width).len()) as nat,
        ) == f % pow10(width),
    decreases width,
{
    lemma_fraction_is_prefix(f, width);
    if width == 0 {
        let v = digits_value(fraction_text(f, width));
        let p0 = pow10(0);
        assert(v * p0 == 0) by (nonlinear_arith)
            requires
                v == 0,
        ;
    } else {
        let w = (width - 1) as nat;
        if f % 10 == 0 {
            lemma_fraction_value(f / 10, w);
            lemma_pow10_positive(w);
            lemma_mod_by_ten_times(f, pow10(w));
            let v = digits_value(fraction_text(f / 10, w));
            let k = (w - fraction_text(f / 10, w).len()) as nat;
            assert(width - fraction_text(f, width).len() == k + 1);
            assert(pow10((k + 1) as nat) == 10 * pow10(k));
            assert(pow10(width) == 10 * pow10(w));
            let pk = pow10(k);
            let pk1 = pow10((k + 1) as nat);
            assert(v * pk1 == 10 * (v * pk)) by (nonlinear_arith)
                requires
                    pk1 == 10 * pk,
            ;
        } else {
            lemma_fixed_digits_value(f, width);
            lemma_fixed_digits_are_digits(f, width);
            assert(fraction_text(f, width).len() == width);
            let v = digits_value(fraction_text(f, width));
            let p0 = pow10(0);
            assert(v * p0 == v) by (nonlinear_arith)
                requires
                    p0 == 1,
            ;
        }
    }
}

/// The display text says exactly `amount / 10^decimals`: it is made of a
/// whole part and, where the division leaves a remainder, a point and at most
/// `decimals` digits, the last of them not zero; every other character is a
/// decimal digit; and read back as a number over `10^decimals` it gives the
/// amount.
pub proof fn lemma_scaled_text_is_exact(amount: nat, decimals: nat)
    ensures
        ({
            let whole = decimal_text(amount / pow10(decimals));
            let fraction = fraction_text(amount % pow10(decimals), decimals);
            &&& scaled_text(amount, decimals) == joined(whole, fraction)
            &&& whole.len() > 0
            &&& all_digits(whole)
            &&& all_digits(fraction)
            &&& fraction.len() <= decimals
            &&& fraction.len() > 0 ==> fraction.last() != '0'
            &&& fraction.len() == 0 <==> amount % pow10(decimals) == 0
            &&& digits_value(whole) * pow10(decimals) + digits_value(fraction) * pow10(
                (decimals - fraction.len()) as nat,
            ) == amount
        }),
{
    let p = pow10(decimals);
    lemma_pow10_positive(decimals);
    lemma_decimal_text_digits(amount / p);
    lemma_decimal_text_value(amount / p);
    lemma_fraction_is_prefix(amount % p, decimals);
    lemma_fraction_value(amount % p, decimals);
    vstd::arithmetic::div_mod::lemma_fundamental_div_mod(amount as int, p as int);
    vstd::arithmetic::div_mod::lemma_mod_twice(amount as int, p as int);
    assert((amount / p) * p == p * (amount / p)) by (nonlinear_arith);
}

/// What `format_units` puts behind the point is what `scaled_text` keeps of
/// it, followed by zeros only.
proof fn lemma_padded_ends_in_zeros(rest: nat, units: nat)
    requires
        rest < pow10(units),
    ensures
        fraction_text(rest, units).len() <= zero_padded(decimal_text(rest), units).len(),
        zero_padded(decimal_text(rest), units) =~= fraction_text(rest, units) + zeros(
            (zero_padded(decimal_text(rest), units).len() - fraction_text(rest, units).len()) as nat,
        ),
        fraction_text(rest, units).len() > 0 ==> fraction_text(rest, units).last() != '0',
{
    if units == 0 {
        assert(rest == 0);
        assert(decimal_text(0) =~= seq!['0']);
    } else {
        lemma_padded_is_fixed(rest, units);
        lemma_fraction_is_prefix(rest, units);
        lemma_fixed_digits_are_digits(rest, units);
    }
}

} // verus!
