//! Numeric display values and their formatters.
//!
//! Amounts (volume, liquidity, open interest) are held as whole hundredths so
//! that currency formatting is exact; prices are fractions in ten-thousandths,
//! shown as cents in summaries and as a four-decimal fraction in detail views.

use vstd::prelude::*;
use vstd::string::*;

verus! {

/// A currency-like amount held as whole hundredths of a unit.
#[derive(Clone, Copy, Debug, PartialEq, Eq, Structural)]
pub struct Amount {
    pub cents: u64,
}

/// A price fraction in the unit interval, held as ten-thousandths.
#[derive(Clone, Copy, Debug, PartialEq, Eq, Structural)]
pub struct Price {
    pub ten_thousandths: u32,
}

/// The decimal digit character for one digit value.
pub open spec fn digit_char(d: int) -> char {
    if d == 0 { '0' }
    else if d == 1 { '1' }
    else if d == 2 { '2' }
    else if d == 3 { '3' }
    else if d == 4 { '4' }
    else if d == 5 { '5' }
    else if d == 6 { '6' }
    else if d == 7 { '7' }
    else if d == 8 { '8' }
    else { '9' }
}

/// The decimal digit characters of `n`, most significant first.
pub open spec fn dec_digits(n: nat) -> Seq<char>
    decreases n,
{
    if n < 10 {
        seq![digit_char(n as int)]
    } else {
        dec_digits(n / 10).push(digit_char((n % 10) as int))
    }
}

/// Two decimal digits, zero padded, for a value below one hundred.
pub open spec fn two_digits(n: nat) -> Seq<char> {
    seq![digit_char(n as int / 10), digit_char(n as int % 10)]
}

/// Four decimal digits, zero padded, for a value below ten thousand.
pub open spec fn four_digits(n: nat) -> Seq<char> {
    seq![
        digit_char(n as int / 1000),
        digit_char((n as int / 100) % 10),
        digit_char((n as int / 10) % 10),
        digit_char(n as int % 10),
    ]
}

/// Digits grouped in threes from the right with comma separators.
pub open spec fn grouped(s: Seq<char>) -> Seq<char>
    decreases s.len(),
{
    if s.len() <= 3 {
        s
    } else {
        grouped(s.subrange(0, s.len() - 3)) + seq![','] + s.subrange(s.len() - 3, s.len() as int)
    }
}

/// An amount's display text: thousands-grouped units, a point, two digits.
pub open spec fn spec_amount(cents: nat) -> Seq<char> {
    grouped(dec_digits(cents / 100)) + seq!['.'] + two_digits(cents % 100)
}

/// An amount as a plain decimal number without grouping, as a machine
/// consumer expects it.
pub open spec fn spec_amount_plain(cents: nat) -> Seq<char> {
    dec_digits(cents / 100) + seq!['.'] + two_digits(cents % 100)
}

/// A price's summary display: the fraction rescaled to cents, two decimals,
/// with a cent sign.
pub open spec fn spec_price_cents(tt: nat) -> Seq<char> {
    dec_digits(tt / 100) + seq!['.'] + two_digits(tt % 100) + seq!['\u{00a2}']
}

/// A price's detail display: the raw fraction at four-decimal precision.
pub open spec fn spec_price_fraction(tt: nat) -> Seq<char> {
    dec_digits(tt / 10000) + seq!['.'] + four_digits(tt % 10000)
}

/// Relies on `String: FromIterator<char>` through `Iterator::collect`: the
/// string holds exactly the characters of the vector, in order.
#[verifier::external_body]
pub(crate) fn chars_to_string(v: &Vec<char>) -> (r: String)
    ensures
        r@ == v@,
{
    v.iter().collect()
}

/// The decimal digit character for one digit value.
fn digit_char_exec(d: u64) -> (r: char)
    requires
        d < 10,
    ensures
        r == digit_char(d as int),
{
    if d == 0 { '0' }
    else if d == 1 { '1' }
    else if d == 2 { '2' }
    else if d == 3 { '3' }
    else if d == 4 { '4' }
    else if d == 5 { '5' }
    else if d == 6 { '6' }
    else if d == 7 { '7' }
    else if d == 8 { '8' }
    else { '9' }
}

/// Appends the decimal digits of `n` to `out`.
fn push_dec_digits(out: &mut Vec<char>, n: u64)
    ensures
        final(out)@ == old(out)@ + dec_digits(n as nat),
    decreases n,
{
    if n < 10 {
        let c = digit_char_exec(n);
        out.push(c);
    } else {
        push_dec_digits(out, n / 10);
        let c = digit_char_exec(n % 10);
        out.push(c);
    }
}

/// Renders `n` as its plain decimal digits.
pub fn u64_to_string(n: u64) -> (r: String)
    ensures
        r@ == dec_digits(n as nat),
{
    let mut v: Vec<char> = Vec::new();
    push_dec_digits(&mut v, n);
    chars_to_string(&v)
}

/// Appends the digits of `d`, grouped in threes with commas, to `out`.
fn push_grouped(out: &mut Vec<char>, d: &Vec<char>, upto: usize)
    requires
        upto <= old(out)@.len() + d@.len(),
        upto <= d@.len(),
    ensures
        final(out)@ == old(out)@ + grouped(d@.subrange(0, upto as int)),
    decreases upto,
{
    if upto <= 3 {
        let mut i: usize = 0;
        while i < upto
            invariant
                i <= upto,
                upto <= d@.len(),
                out@ == old(out)@ + d@.subrange(0, i as int),
            decreases upto - i,
        {
            let c = d[i];
            out.push(c);
            proof {
                assert(d@.subrange(0, i + 1 as int) =~= d@.subrange(0, i as int).push(d@[i as int]));
            }
            i += 1;
        }
        proof {
            assert(grouped(d@.subrange(0, upto as int)) == d@.subrange(0, upto as int));
        }
    } else {
        push_grouped(out, d, upto - 3);
        out.push(',');
        let c1 = d[upto - 3];
        out.push(c1);
        let c2 = d[upto - 2];
        out.push(c2);
        let c3 = d[upto - 1];
        out.push(c3);
        proof {
            let whole = d@.subrange(0, upto as int);
            assert(whole.subrange(0, upto - 3) =~= d@.subrange(0, upto - 3));
            assert(whole.subrange(upto - 3, upto as int) =~=
                seq![d@[upto - 3], d@[upto - 2], d@[upto - 1]]);
            assert(out@ =~= old(out)@ + grouped(whole));
        }
    }
}

/// Renders an amount with thousands separation and two decimal places.
pub fn format_amount(a: Amount) -> (r: String)
    ensures
        r@ == spec_amount(a.cents as nat),
{
    let mut digits: Vec<char> = Vec::new();
    push_dec_digits(&mut digits, a.cents / 100);
    let mut v: Vec<char> = Vec::new();
    let n = digits.len();
    push_grouped(&mut v, &digits, n);
    proof {
        assert(digits@.subrange(0, digits@.len() as int) =~= digits@);
    }
    v.push('.');
    let frac = a.cents % 100;
    let c1 = digit_char_exec(frac / 10);
    v.push(c1);
    let c2 = digit_char_exec(frac % 10);
    v.push(c2);
    proof {
        assert(v@ =~= spec_amount(a.cents as nat));
    }
    chars_to_string(&v)
}

/// Renders an amount as a plain decimal number without grouping.
pub fn format_amount_plain(a: Amount) -> (r: String)
    ensures
        r@ == spec_amount_plain(a.cents as nat),
{
    let mut v: Vec<char> = Vec::new();
    push_dec_digits(&mut v, a.cents / 100);
    v.push('.');
    let frac = a.cents % 100;
    let c1 = digit_char_exec(frac / 10);
    v.push(c1);
    let c2 = digit_char_exec(frac % 10);
    v.push(c2);
    proof {
        assert(v@ =~= spec_amount_plain(a.cents as nat));
    }
    chars_to_string(&v)
}

/// Renders a price for a summary column: rescaled to cents with a cent sign.
pub fn format_price_cents(p: Price) -> (r: String)
    ensures
        r@ == spec_price_cents(p.ten_thousandths as nat),
{
    let mut v: Vec<char> = Vec::new();
    push_dec_digits(&mut v, (p.ten_thousandths / 100) as u64);
    v.push('.');
    let frac = (p.ten_thousandths % 100) as u64;
    let c1 = digit_char_exec(frac / 10);
    v.push(c1);
    let c2 = digit_char_exec(frac % 10);
    v.push(c2);
    v.push('\u{00a2}');
    proof {
        assert(v@ =~= spec_price_cents(p.ten_thousandths as nat));
    }
    chars_to_string(&v)
}

/// Renders a price for a detail view: the raw fraction at four decimals.
pub fn format_price_fraction(p: Price) -> (r: String)
    ensures
        r@ == spec_price_fraction(p.ten_thousandths as nat),
{
    let mut v: Vec<char> = Vec::new();
    push_dec_digits(&mut v, (p.ten_thousandths / 10000) as u64);
    v.push('.');
    let frac = (p.ten_thousandths % 10000) as u64;
    let c1 = digit_char_exec(frac / 1000);
    v.push(c1);
    let c2 = digit_char_exec((frac / 100) % 10);
    v.push(c2);
    let c3 = digit_char_exec((frac / 10) % 10);
    v.push(c3);
    let c4 = digit_char_exec(frac % 10);
    v.push(c4);
    proof {
        assert(v@ =~= spec_price_fraction(p.ten_thousandths as nat));
    }
    chars_to_string(&v)
}

} // verus!
