//! Decimal text and arbitrary-precision amounts.
//!
//! Amounts are carried as base-2^32 limbs (least significant first) between
//! the calls into `num_bigint`, and as canonical decimal text in records.

use num_bigint::BigUint;
use std::str::FromStr;
use vstd::prelude::*;
use vstd::string::StrSliceExecFns;

verus! {

pub open spec fn is_digit(c: char) -> bool {
    '0' <= c && c <= '9'
}

pub open spec fn digit_value(c: char) -> nat {
    (c as int - '0' as int) as nat
}

/// The character of the decimal digit `d` (for `d < 10`).
pub open spec fn digit_char(d: nat) -> char {
    if d == 0 { '0' }
    else if d == 1 { '1' }
    else if d == 2 { '2' }
    else if d == 3 { '3' }
    else if d == 4 { '4' }
    else if d == 5 { '5' }
    else if d == 6 { '6' }
    else if d == 7 { '7' }
    else if d == 8 { '8' }
    else { '9' }
}

/// Value of decimal digits, most significant first; `_` separators are skipped.
pub open spec fn decimal_value(s: Seq<char>) -> nat
    decreases s.len(),
{
    if s.len() == 0 {
        0
    } else if s.last() == '_' {
        decimal_value(s.drop_last())
    } else {
        decimal_value(s.drop_last()) * 10 + digit_value(s.last())
    }
}

/// The canonical decimal text of `n`: no sign, no leading zero, `0` for zero.
pub open spec fn decimal_of(n: nat) -> Seq<char>
    decreases n,
{
    if n < 10 {
        seq![digit_char(n)]
    } else {
        decimal_of(n / 10).push(digit_char(n % 10))
    }
}

/// Unsigned text with one leading `+` taken off.
pub open spec fn unsigned_body(s: Seq<char>) -> Seq<char> {
    if s.len() > 0 && s[0] == '+' {
        s.drop_first()
    } else {
        s
    }
}

/// Text that reads as an unsigned integer: an optional `+`, then digits,
/// possibly separated by `_` but not starting with one.
pub open spec fn is_unsigned_text(s: Seq<char>) -> bool {
    let t = unsigned_body(s);
    &&& t.len() > 0
    &&& t[0] != '_'
    &&& forall|i: int| 0 <= i < t.len() ==> is_digit(#[trigger] t[i]) || t[i] == '_'
}

pub open spec fn unsigned_value(s: Seq<char>) -> nat {
    decimal_value(unsigned_body(s))
}

/// Text with one leading sign taken off.
pub open spec fn signed_body(s: Seq<char>) -> Seq<char> {
    if s.len() > 0 && (s[0] == '+' || s[0] == '-') {
        s.drop_first()
    } else {
        s
    }
}

/// Text that reads as a signed integer: an optional `+` or `-`, then one or
/// more ASCII digits.
pub open spec fn is_signed_text(s: Seq<char>) -> bool {
    let t = signed_body(s);
    &&& t.len() > 0
    &&& forall|i: int| 0 <= i < t.len() ==> is_digit(#[trigger] t[i])
}

pub open spec fn signed_value(s: Seq<char>) -> int {
    if s.len() > 0 && s[0] == '-' {
        -(decimal_value(signed_body(s)) as int)
    } else {
        decimal_value(signed_body(s)) as int
    }
}

/// Value of base-2^32 limbs, least significant first.
pub open spec fn limbs_value(d: Seq<u32>) -> nat
    decreases d.len(),
{
    if d.len() == 0 {
        0
    } else {
        d[0] as nat + 0x1_0000_0000 * limbs_value(d.drop_first())
    }
}

/// The amount held in optional text: its value where it reads as an unsigned
/// integer, zero where it is absent or malformed.
pub open spec fn amount_of(s: Option<String>) -> nat {
    match s {
        Some(t) => if is_unsigned_text(t@) {
            unsigned_value(t@)
        } else {
            0
        },
        None => 0,
    }
}

/// Relies on `<BigUint as FromStr>::from_str` (decimal `from_str_radix`),
/// which accepts exactly the text of `is_unsigned_text`, and on
/// `BigUint::to_u32_digits`, which hands the value out as limbs.
#[verifier::external_body]
fn parse_unsigned(s: &str) -> (r: Option<Vec<u32>>)
    ensures
        r.is_some() == is_unsigned_text(s@),
        r.is_some() ==> limbs_value(r.unwrap()@) == unsigned_value(s@),
{
    match BigUint::from_str(s) {
        Ok(v) => Some(v.to_u32_digits()),
        Err(_) => None,
    }
}

/// Relies on `Mul for BigUint`: the exact product. `BigUint::new` and
/// `BigUint::to_u32_digits` convert from and to limbs.
#[verifier::external_body]
fn multiply_limbs(a: &Vec<u32>, b: &Vec<u32>) -> (r: Vec<u32>)
    ensures
        limbs_value(r@) == limbs_value(a@) * limbs_value(b@),
{
    (BigUint::new(a.clone()) * BigUint::new(b.clone())).to_u32_digits()
}

/// Relies on `Display for BigUint` (`to_str_radix(10)`): base-10 digits with
/// no sign and no leading zero, `0` for zero.
#[verifier::external_body]
fn render_limbs(d: &Vec<u32>) -> (r: String)
    ensures
        r@ == decimal_of(limbs_value(d@)),
{
    BigUint::new(d.clone()).to_string()
}

/// Relies on `str::parse::<i32>`: an optional `+` or `-`, then ASCII digits,
/// with a value that fits in `i32`.
#[verifier::external_body]
pub(crate) fn parse_i32(s: &str) -> (r: Option<i32>)
    ensures
        r.is_some() == (is_signed_text(s@) && i32::MIN <= signed_value(s@) <= i32::MAX),
        r.is_some() ==> r.unwrap() == signed_value(s@),
{
    s.parse::<i32>().ok()
}

/// Relies on `str::parse::<i64>`: an optional `+` or `-`, then ASCII digits,
/// with a value that fits in `i64`.
#[verifier::external_body]
pub(crate) fn parse_i64(s: &str) -> (r: Option<i64>)
    ensures
        r.is_some() == (is_signed_text(s@) && i64::MIN <= signed_value(s@) <= i64::MAX),
        r.is_some() ==> r.unwrap() == signed_value(s@),
{
    s.parse::<i64>().ok()
}

/// The limbs of the amount in `s` (zero where it is absent or malformed).
fn amount_limbs(s: &Option<String>) -> (r: Vec<u32>)
    ensures
        limbs_value(r@) == amount_of(*s),
{
    match s {
        Some(t) => match parse_unsigned(t.as_str()) {
            Some(d) => d,
            None => Vec::new(),
        },
        None => Vec::new(),
    }
}

/// The canonical decimal text of the amount in `s`; absent or malformed text
/// gives `0`.
pub fn decimal_amount(s: &Option<String>) -> (r: String)
    ensures
        r@ == decimal_of(amount_of(*s)),
{
    let d = amount_limbs(s);
    render_limbs(&d)
}

/// The fee paid for gas: the product of the gas used and the unit price, as
/// canonical decimal text. A malformed or absent factor counts as zero.
pub fn fee_amount(gas_used: &Option<String>, gas_unit_price: &Option<String>) -> (r: String)
    ensures
        r@ == decimal_of(amount_of(*gas_used) * amount_of(*gas_unit_price)),
{
    let a = amount_limbs(gas_used);
    let b = amount_limbs(gas_unit_price);
    let p = multiply_limbs(&a, &b);
    render_limbs(&p)
}

/// A non-empty run of ASCII digits.
pub open spec fn is_digit_text(s: Seq<char>) -> bool {
    &&& s.len() > 0
    &&& forall|i: int| 0 <= i < s.len() ==> is_digit(#[trigger] s[i])
}

/// The text recorded for an amount: text that is a plain run of digits is
/// kept as it stands; other text that reads as an unsigned integer (with a
/// `+` or `_` separators) is written in canonical form; absent or malformed
/// text is `0`.
pub open spec fn amount_text(s: Option<String>) -> Seq<char> {
    match s {
        Some(t) => if is_digit_text(t@) {
            t@
        } else {
            decimal_of(amount_of(s))
        },
        None => decimal_of(0),
    }
}

fn is_digit_str(s: &str) -> (r: bool)
    ensures
        r == is_digit_text(s@),
{
    let n = s.unicode_len();
    if n == 0 {
        return false;
    }
    let mut i: usize = 0;
    while i < n
        invariant
            n == s@.len(),
            i <= n,
            forall|k: int| 0 <= k < i ==> is_digit(#[trigger] s@[k]),
        decreases n - i,
    {
        let c = s.get_char(i);
        if !('0' <= c && c <= '9') {
            return false;
        }
        i = i + 1;
    }
    true
}

/// The text recorded for the amount in `s` (see `amount_text`).
pub fn record_amount(s: &Option<String>) -> (r: String)
    ensures
        r@ == amount_text(*s),
{
    match s {
        Some(t) => if is_digit_str(t.as_str()) {
            t.clone()
        } else {
            decimal_amount(s)
        },
        None => decimal_amount(s),
    }
}

/// Digit text is unsigned text, and reads as its decimal value.
pub proof fn lemma_digit_text_reads(s: Seq<char>)
    requires
        is_digit_text(s),
    ensures
        is_unsigned_text(s),
        unsigned_value(s) == decimal_value(s),
{
    assert(is_digit(s[0]));
    assert(unsigned_body(s) == s);
}

/// Optional text that is present and reads as an unsigned integer.
pub open spec fn is_amount_text(s: Option<String>) -> bool {
    s is Some && is_unsigned_text(s.unwrap()@)
}

pub fn reads_as_amount(s: &Option<String>) -> (r: bool)
    ensures
        r == is_amount_text(*s),
{
    match s {
        Some(t) => parse_unsigned(t.as_str()).is_some(),
        None => false,
    }
}

/// The integer in optional signed text, zero where it is absent, malformed or
/// out of the range of `i32`.
pub open spec fn i32_or_zero(s: Option<String>) -> i32 {
    match s {
        Some(t) => if is_signed_text(t@) && i32::MIN <= signed_value(t@) <= i32::MAX {
            signed_value(t@) as i32
        } else {
            0
        },
        None => 0,
    }
}

/// Optional text that is present and reads as an `i32`.
pub open spec fn is_i32_text(s: Option<String>) -> bool {
    s is Some && is_signed_text(s.unwrap()@) && i32::MIN <= signed_value(s.unwrap()@) <= i32::MAX
}

pub fn reads_as_i32(s: &Option<String>) -> (r: bool)
    ensures
        r == is_i32_text(*s),
{
    match s {
        Some(t) => parse_i32(t.as_str()).is_some(),
        None => false,
    }
}

pub fn parse_i32_or_zero(s: &Option<String>) -> (r: i32)
    ensures
        r == i32_or_zero(*s),
{
    match s {
        Some(t) => match parse_i32(t.as_str()) {
            Some(v) => v,
            None => 0,
        },
        None => 0,
    }
}

proof fn lemma_digit_char(d: nat)
    requires
        d < 10,
    ensures
        is_digit(digit_char(d)),
        digit_value(digit_char(d)) == d,
{
}

/// The canonical text of every natural number is unsigned decimal text that
/// reads back as that number.
pub proof fn lemma_decimal_of_reads_back(n: nat)
    ensures
        decimal_of(n).len() > 0,
        forall|i: int| 0 <= i < decimal_of(n).len() ==> is_digit(#[trigger] decimal_of(n)[i]),
        is_unsigned_text(decimal_of(n)),
        is_signed_text(decimal_of(n)),
        unsigned_value(decimal_of(n)) == n,
        signed_value(decimal_of(n)) == n,
    decreases n,
{
    let s = decimal_of(n);
    if n < 10 {
        lemma_digit_char(n);
        assert(s.drop_last() =~= Seq::<char>::empty());
        assert(decimal_value(s.drop_last()) == 0);
        assert(s.last() == digit_char(n));
        assert(decimal_value(s) == n);
    } else {
        lemma_decimal_of_reads_back(n / 10);
        lemma_digit_char(n % 10);
        let p = decimal_of(n / 10);
        assert(s.drop_last() =~= p);
        assert(s[0] == p[0]);
        assert forall|i: int| 0 <= i < s.len() implies is_digit(#[trigger] s[i]) by {
            if i < p.len() {
                assert(s[i] == p[i]);
            }
        }
        assert(unsigned_body(p) == p);
        assert(s.last() == digit_char(n % 10));
        assert(decimal_value(s) == decimal_value(p) * 10 + n % 10);
        assert(decimal_value(p) == n / 10);
        assert(n == (n / 10) * 10 + n % 10);
        assert(decimal_value(s) == n);
    }
    assert(unsigned_body(s) == s);
    assert(signed_body(s) == s);
}

/// The fee is exactly the product of the two gas fields where both are well
/// formed, and the text `0` where either is malformed or absent.
pub proof fn lemma_fee_is_gas_product(gas_used: Option<String>, gas_unit_price: Option<String>)
    ensures
        (gas_used is Some && gas_unit_price is Some && is_unsigned_text(gas_used.unwrap()@)
            && is_unsigned_text(gas_unit_price.unwrap()@)) ==> decimal_of(
            amount_of(gas_used) * amount_of(gas_unit_price),
        ) == decimal_of(
            unsigned_value(gas_used.unwrap()@) * unsigned_value(gas_unit_price.unwrap()@),
        ),
        !(gas_used is Some && is_unsigned_text(gas_used.unwrap()@)) ==> decimal_of(
            amount_of(gas_used) * amount_of(gas_unit_price),
        ) == seq!['0'],
        !(gas_unit_price is Some && is_unsigned_text(gas_unit_price.unwrap()@)) ==> decimal_of(
            amount_of(gas_used) * amount_of(gas_unit_price),
        ) == seq!['0'],
{
    assert(decimal_of(0) == seq!['0']);
    if !(gas_used is Some && is_unsigned_text(gas_used.unwrap()@)) {
        assert(amount_of(gas_used) == 0);
        assert(amount_of(gas_used) * amount_of(gas_unit_price) == 0);
    }
    if !(gas_unit_price is Some && is_unsigned_text(gas_unit_price.unwrap()@)) {
        assert(amount_of(gas_unit_price) == 0);
        assert(amount_of(gas_used) * amount_of(gas_unit_price) == 0);
    }
}

} // verus!
