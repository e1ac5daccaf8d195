use crate::strings::push_char;
use vstd::prelude::*;
use vstd::string::StringExecFns;

verus! {

/// The character that stands for a decimal digit.
pub open spec fn digit_char(d: nat) -> char {
    if d == 0 {
        '0'
    } else if d == 1 {
        '1'
    } else if d == 2 {
        '2'
    } else if d == 3 {
        '3'
    } else if d == 4 {
        '4'
    } else if d == 5 {
        '5'
    } else if d == 6 {
        '6'
    } else if d == 7 {
        '7'
    } else if d == 8 {
        '8'
    } else {
        '9'
    }
}

/// A number in decimal, without leading zeros.
pub open spec fn decimal(n: nat) -> Seq<char>
    decreases n,
{
    if n < 10 {
        seq![digit_char(n)]
    } else {
        decimal(n / 10).push(digit_char(n % 10))
    }
}

/// A number below one thousand in three decimal digits.
pub open spec fn three_digits(n: nat) -> Seq<char> {
    seq![digit_char(n / 100), digit_char((n / 10) % 10), digit_char(n % 10)]
}

/// The quotient of `n` by `unit`, rounded to the nearest whole number, a tie
/// going to the even one.
pub open spec fn round_half_even(n: nat, unit: nat) -> nat {
    let quotient = n / unit;
    let rest = n % unit;
    if 2 * rest > unit || (2 * rest == unit && quotient % 2 == 1) {
        quotient + 1
    } else {
        quotient
    }
}

/// The power of two by which a number must be divided to fit in 53 bits.
pub open spec fn binade_unit(n: nat) -> nat
    decreases n,
{
    if n < 0x20_0000_0000_0000 {
        1
    } else {
        2 * binade_unit(n / 2)
    }
}

/// The number nearest to `n` that a double-precision float can hold: `n`
/// itself where it fits in 53 bits, else the nearest multiple of the power
/// of two that makes it fit, a tie going to the even multiple.
pub open spec fn nearest_double(n: nat) -> nat {
    round_half_even(n, binade_unit(n)) * binade_unit(n)
}

/// The power of ten by which a number must be divided to have four digits.
pub open spec fn four_digit_unit(n: nat) -> nat
    decreases n,
{
    if n < 10000 {
        1
    } else {
        10 * four_digit_unit(n / 10)
    }
}

/// The decimal exponent of a number of at least four digits.
pub open spec fn decimal_exponent(n: nat) -> nat
    decreases n,
{
    if n < 10000 {
        3
    } else {
        1 + decimal_exponent(n / 10)
    }
}

/// Four digits and an exponent in scientific notation: `d.ddde<exponent>`.
pub open spec fn scientific_text(digits: nat, exponent: nat) -> Seq<char> {
    seq![digit_char(digits / 1000), '.'] + three_digits(digits % 1000) + seq!['e'] + decimal(
        exponent,
    )
}

/// A number of at least four digits in scientific notation with four
/// significant digits, rounded to the nearest, a tie going to the even digit.
pub open spec fn scientific(n: nat) -> Seq<char> {
    let digits = round_half_even(n, four_digit_unit(n));
    if digits >= 10000 {
        scientific_text(1000, decimal_exponent(n) + 1)
    } else {
        scientific_text(digits, decimal_exponent(n))
    }
}

/// From where on a tick count is written in scientific notation.
pub const TICK_THRESHOLD: u64 = 100000;

/// A tick count as text: in full below the threshold, and from there on as
/// the double-precision float nearest to it in scientific notation.
pub open spec fn tick_text(tick: u64) -> Seq<char> {
    if tick < TICK_THRESHOLD {
        decimal(tick as nat)
    } else {
        scientific(nearest_double(tick as nat))
    }
}

/// The digit that stands for `d`.
fn digit(d: u8) -> (c: char)
    requires
        d < 10,
    ensures
        c == digit_char(d as nat),
{
    if d == 0 {
        '0'
    } else if d == 1 {
        '1'
    } else if d == 2 {
        '2'
    } else if d == 3 {
        '3'
    } else if d == 4 {
        '4'
    } else if d == 5 {
        '5'
    } else if d == 6 {
        '6'
    } else if d == 7 {
        '7'
    } else if d == 8 {
        '8'
    } else {
        '9'
    }
}

/// Appends `n` in decimal.
fn push_decimal(s: &mut String, n: u128)
    ensures
        final(s)@ == old(s)@ + decimal(n as nat),
    decreases n,
{
    if n >= 10 {
        push_decimal(s, n / 10);
    }
    push_char(s, digit((n % 10) as u8));
}

/// Appends `n` in three decimal digits.
fn push_three_digits(s: &mut String, n: u128)
    requires
        n < 1000,
    ensures
        final(s)@ == old(s)@ + three_digits(n as nat),
{
    push_char(s, digit((n / 100) as u8));
    push_char(s, digit(((n / 10) % 10) as u8));
    push_char(s, digit((n % 10) as u8));
}

/// The quotient of `n` by `unit`, rounded to the nearest whole number, a tie
/// going to the even one.
fn rounded_quotient(n: u128, unit: u128) -> (q: u128)
    requires
        0 < unit <= 0x1_0000_0000_0000_0000,
        n <= 0x1_0000_0000_0000_0000_0000,
    ensures
        q == round_half_even(n as nat, unit as nat),
        n / unit <= q <= n / unit + 1,
        unit == 1 ==> q == n,
{
    let quotient = n / unit;
    let rest = n % unit;
    assert(quotient <= n) by (nonlinear_arith)
        requires
            quotient == n / unit,
            unit > 0,
    ;
    if 2 * rest > unit || (2 * rest == unit && quotient % 2 == 1) {
        quotient + 1
    } else {
        quotient
    }
}

/// The power of two by which `n` must be divided to fit in 53 bits.
fn binade(n: u64) -> (unit: u64)
    ensures
        unit == binade_unit(n as nat),
        1 <= unit <= 2048,
        n < 0x20_0000_0000_0000 ==> unit == 1,
        n >= 0x20_0000_0000_0000 ==> unit * 0x10_0000_0000_0000 <= n,
        0x1_0000_0000_0000_0000int % (unit as int) == 0,
{
    reveal_with_fuel(binade_unit, 13);
    if n < 0x20_0000_0000_0000 {
        1
    } else if n < 0x40_0000_0000_0000 {
        2
    } else if n < 0x80_0000_0000_0000 {
        4
    } else if n < 0x100_0000_0000_0000 {
        8
    } else if n < 0x200_0000_0000_0000 {
        16
    } else if n < 0x400_0000_0000_0000 {
        32
    } else if n < 0x800_0000_0000_0000 {
        64
    } else if n < 0x1000_0000_0000_0000 {
        128
    } else if n < 0x2000_0000_0000_0000 {
        256
    } else if n < 0x4000_0000_0000_0000 {
        512
    } else if n < 0x8000_0000_0000_0000 {
        1024
    } else {
        2048
    }
}

/// The number nearest to `n` that a double-precision float can hold.
fn round_to_double(n: u64) -> (v: u128)
    ensures
        v == nearest_double(n as nat),
        n < 0x20_0000_0000_0000 ==> v == n,
        v <= 0x1_0000_0000_0000_0000,
        n >= TICK_THRESHOLD ==> v >= TICK_THRESHOLD,
{
    let unit = binade(n);
    let q = rounded_quotient(n as u128, unit as u128);
    assert(q * unit <= 0x1_0000_0000_0000_0000 && q * unit + unit > n && (unit == 1 ==> q * unit
        == n)) by (nonlinear_arith)
        requires
            unit >= 1,
            (n as int) / (unit as int) <= q <= (n as int) / (unit as int) + 1,
            n <= 0xffff_ffff_ffff_ffff,
            0x1_0000_0000_0000_0000int % (unit as int) == 0,
            unit == 1 ==> q == n,
    ;
    q * (unit as u128)
}

/// The power of ten by which `v` must be divided to have four digits, and
/// the decimal exponent of `v`.
fn four_digits(v: u128) -> (r: (u128, u128))
    requires
        1000 <= v <= 0x1_0000_0000_0000_0000,
    ensures
        r.0 == four_digit_unit(v as nat),
        r.1 == decimal_exponent(v as nat),
        1 <= r.0 <= 10_000_000_000_000_000,
        r.0 * 1000 <= v < r.0 * 10000,
        3 <= r.1 <= 19,
{
    reveal_with_fuel(four_digit_unit, 18);
    reveal_with_fuel(decimal_exponent, 18);
    if v < 10_000 {
        (1, 3)
    } else if v < 100_000 {
        (10, 4)
    } else if v < 1_000_000 {
        (100, 5)
    } else if v < 10_000_000 {
        (1_000, 6)
    } else if v < 100_000_000 {
        (10_000, 7)
    } else if v < 1_000_000_000 {
        (100_000, 8)
    } else if v < 10_000_000_000 {
        (1_000_000, 9)
    } else if v < 100_000_000_000 {
        (10_000_000, 10)
    } else if v < 1_000_000_000_000 {
        (100_000_000, 11)
    } else if v < 10_000_000_000_000 {
        (1_000_000_000, 12)
    } else if v < 100_000_000_000_000 {
        (10_000_000_000, 13)
    } else if v < 1_000_000_000_000_000 {
        (100_000_000_000, 14)
    } else if v < 10_000_000_000_000_000 {
        (1_000_000_000_000, 15)
    } else if v < 100_000_000_000_000_000 {
        (10_000_000_000_000, 16)
    } else if v < 1_000_000_000_000_000_000 {
        (100_000_000_000_000, 17)
    } else if v < 10_000_000_000_000_000_000 {
        (1_000_000_000_000_000, 18)
    } else {
        (10_000_000_000_000_000, 19)
    }
}

/// Appends four digits and an exponent in scientific notation.
fn push_scientific(s: &mut String, digits: u128, exponent: u128)
    requires
        digits < 10000,
    ensures
        final(s)@ == old(s)@ + scientific_text(digits as nat, exponent as nat),
{
    push_char(s, digit((digits / 1000) as u8));
    push_char(s, '.');
    push_three_digits(s, digits % 1000);
    push_char(s, 'e');
    push_decimal(s, exponent);
}

/// Writes a tick count for a reader: in full below one hundred thousand,
/// and from there on in scientific notation with four significant digits,
/// as the double-precision float nearest to the count is rounded to them.
pub fn format_tick(tick: u64) -> (text: String)
    ensures
        text@ == tick_text(tick),
{
    let mut text = String::new();
    if tick < TICK_THRESHOLD {
        push_decimal(&mut text, tick as u128);
    } else {
        let v = round_to_double(tick);
        let (unit, exponent) = four_digits(v);
        let digits = rounded_quotient(v, unit);
        assert(v / unit < 10000) by (nonlinear_arith)
            requires
                unit >= 1,
                v < unit * 10000,
        ;
        if digits >= 10000 {
            push_scientific(&mut text, 1000, exponent + 1);
        } else {
            push_scientific(&mut text, digits, exponent);
        }
    }
    text
}

/// The sizes of the binary units, in bytes.
pub const KIB: u64 = 1024;

pub const MIB: u64 = 1048576;

pub const GIB: u64 = 1073741824;

pub const TIB: u64 = 1099511627776;

/// A size in a binary unit with three decimals: the double-precision float
/// nearest to the size, divided by the unit and rounded to thousandths, a
/// tie going to the even one.
pub open spec fn scaled_text(byte: u64, unit: nat, suffix: Seq<char>) -> Seq<char> {
    let thousandths = round_half_even(nearest_double(byte as nat) * 1000, unit);
    decimal(thousandths / 1000) + seq!['.'] + three_digits(thousandths % 1000) + suffix
}

/// A size as text: in bytes up to one KiB, and above that in the largest
/// binary unit that it exceeds.
pub open spec fn size_text(byte: u64) -> Seq<char> {
    if byte <= KIB {
        decimal(byte as nat) + " bytes"@
    } else if byte <= MIB {
        scaled_text(byte, KIB as nat, " KiB"@)
    } else if byte <= GIB {
        scaled_text(byte, MIB as nat, " MiB"@)
    } else if byte <= TIB {
        scaled_text(byte, GIB as nat, " GiB"@)
    } else {
        scaled_text(byte, TIB as nat, " TiB"@)
    }
}

/// Appends a size in the given unit with three decimals.
fn push_scaled(s: &mut String, byte: u64, unit: u64, suffix: &str)
    requires
        unit > 0,
    ensures
        final(s)@ == old(s)@ + scaled_text(byte, unit as nat, suffix@),
{
    let v = round_to_double(byte);
    let thousandths = rounded_quotient(v * 1000, unit as u128);
    push_decimal(s, thousandths / 1000);
    push_char(s, '.');
    push_three_digits(s, thousandths % 1000);
    s.append(suffix);
}

/// Writes a size in bytes for a reader: in bytes up to one KiB, and above
/// that in KiB, MiB, GiB or TiB with three decimals.
pub fn format_size(byte: u64) -> (text: String)
    ensures
        text@ == size_text(byte),
{
    let mut text = String::new();
    if byte <= KIB {
        push_decimal(&mut text, byte as u128);
        text.append(" bytes");
    } else if byte <= MIB {
        push_scaled(&mut text, byte, KIB, " KiB");
    } else if byte <= GIB {
        push_scaled(&mut text, byte, MIB, " MiB");
    } else if byte <= TIB {
        push_scaled(&mut text, byte, GIB, " GiB");
    } else {
        push_scaled(&mut text, byte, TIB, " TiB");
    }
    text
}

/// Writes a number in decimal.
pub fn to_decimal(n: u64) -> (text: String)
    ensures
        text@ == decimal(n as nat),
{
    let mut text = String::new();
    push_decimal(&mut text, n as u128);
    text
}

} // verus!
