//! Numbers in text: decimal notation and its reading, sizes, two-digit fields.

use vstd::prelude::*;
use vstd::string::*;

use crate::text::{to_chars, to_text};

verus! {

broadcast use vstd::string::group_string_axioms;

/// The digit of a number below ten.
pub open spec fn digit(n: nat) -> char {
    ((48 + n) as u8) as char
}

/// The decimal notation of a number, without leading zeros.
pub open spec fn decimal(n: nat) -> Seq<char>
    decreases n,
{
    if n < 10 {
        seq![digit(n)]
    } else {
        decimal(n / 10).push(digit(n % 10))
    }
}

/// The decimal notation of an integer, with a minus sign if it is negative.
pub open spec fn signed_decimal(n: int) -> Seq<char> {
    if n < 0 {
        seq!['-'] + decimal((-n) as nat)
    } else {
        decimal(n as nat)
    }
}

/// The decimal notation with a leading zero where there is one digit only.
pub open spec fn two_digits(n: nat) -> Seq<char> {
    if n < 10 {
        seq!['0', digit(n)]
    } else {
        decimal(n)
    }
}

fn decimal_chars(n: u64) -> (r: Vec<char>)
    ensures
        r@ == decimal(n as nat),
    decreases n,
{
    let low: u8 = (n % 10) as u8;
    if n < 10 {
        let mut r: Vec<char> = Vec::new();
        r.push((48 + low) as char);
        r
    } else {
        let mut r = decimal_chars(n / 10);
        r.push((48 + low) as char);
        r
    }
}

/// The decimal notation of a number.
pub fn decimal_text(n: u64) -> (r: String)
    ensures
        r@ == decimal(n as nat),
{
    to_text(&decimal_chars(n))
}

/// The decimal notation of an integer.
pub fn signed_text(n: i32) -> (r: String)
    ensures
        r@ == signed_decimal(n as int),
{
    if n < 0 {
        let size: u64 = (-(n as i64)) as u64;
        let mut r = "-".to_owned();
        r.append(decimal_text(size).as_str());
        proof {
            reveal_strlit("-");
            assert("-"@ =~= seq!['-']);
        }
        r
    } else {
        decimal_text(n as u64)
    }
}

/// The decimal notation with a leading zero where there is one digit only.
pub fn two_digit_text(n: u32) -> (r: String)
    ensures
        r@ == two_digits(n as nat),
{
    if n < 10 {
        let mut v: Vec<char> = Vec::new();
        v.push('0');
        v.push((48 + n as u8) as char);
        assert(v@ =~= two_digits(n as nat));
        to_text(&v)
    } else {
        decimal_text(n as u64)
    }
}

/// Why a text is no number.
#[derive(Clone, Copy, Debug, PartialEq, Eq, Structural)]
pub enum NumberError {
    /// There is nothing to read.
    Empty,
    /// A character is no digit.
    InvalidDigit,
    /// The number is too large for its type.
    Overflow,
}

impl NumberError {
    /// What the error reads like in a message.
    pub open spec fn text(self) -> Seq<char> {
        match self {
            NumberError::Empty => "cannot parse integer from empty string"@,
            NumberError::InvalidDigit => "invalid digit found in string"@,
            NumberError::Overflow => "number too large to fit in target type"@,
        }
    }

    /// What the error reads like in a message.
    pub fn message(&self) -> (r: String)
        ensures
            r@ == self.text(),
    {
        match *self {
            NumberError::Empty => "cannot parse integer from empty string".to_owned(),
            NumberError::InvalidDigit => "invalid digit found in string".to_owned(),
            NumberError::Overflow => "number too large to fit in target type".to_owned(),
        }
    }
}

/// The value of a digit of base ten or sixteen; letters count in either case.
pub open spec fn digit_value(c: char, base: int) -> Option<int> {
    if '0' <= c <= '9' {
        Some(c as u32 - 48)
    } else if base == 16 && 'a' <= c <= 'f' {
        Some(c as u32 - 87)
    } else if base == 16 && 'A' <= c <= 'F' {
        Some(c as u32 - 55)
    } else {
        None
    }
}

/// What is read from the digits `s[i..]` behind the number `acc`, read from the left; the first
/// character that is no digit, or that takes the number above `max`, ends the reading.
pub open spec fn digits_from(s: Seq<char>, base: int, max: int, i: int, acc: int) -> Result<
    int,
    NumberError,
>
    decreases s.len() - i,
{
    if i >= s.len() {
        Ok(acc)
    } else {
        match digit_value(s[i], base) {
            None => Err(NumberError::InvalidDigit),
            Some(d) => if acc * base + d > max {
                Err(NumberError::Overflow)
            } else {
                digits_from(s, base, max, i + 1, acc * base + d)
            },
        }
    }
}

/// The number that a text holds: at least one digit, behind a plus sign or none.
pub open spec fn number_of(s: Seq<char>, base: int, max: int) -> Result<int, NumberError> {
    if s.len() == 0 {
        Err(NumberError::Empty)
    } else if s.len() > 1 && s[0] == '+' {
        digits_from(s, base, max, 1, 0)
    } else {
        digits_from(s, base, max, 0, 0)
    }
}

fn value_of_digit(c: char, base: u64) -> (r: Option<u64>)
    requires
        base == 10 || base == 16,
    ensures
        match r {
            Some(d) => digit_value(c, base as int) == Some(d as int) && d < base,
            None => digit_value(c, base as int) is None,
        },
{
    if c >= '0' && c <= '9' {
        Some((c as u32 - 48) as u64)
    } else if base == 16 && c >= 'a' && c <= 'f' {
        Some((c as u32 - 87) as u64)
    } else if base == 16 && c >= 'A' && c <= 'F' {
        Some((c as u32 - 55) as u64)
    } else {
        None
    }
}

/// The result of reading a number, as a mathematical value.
pub open spec fn read_as(r: Result<u32, NumberError>) -> Result<int, NumberError> {
    match r {
        Ok(n) => Ok(n as int),
        Err(e) => Err(e),
    }
}

/// Reads a number of base ten or sixteen that is at most `max`.
pub fn read_number(s: &Vec<char>, base: u64, max: u32) -> (r: Result<u32, NumberError>)
    requires
        base == 10 || base == 16,
    ensures
        read_as(r) == number_of(s@, base as int, max as int),
        r matches Ok(n) ==> n <= max,
{
    if s.len() == 0 {
        return Err(NumberError::Empty);
    }
    let mut i: usize = if s.len() > 1 && s[0] == '+' {
        1
    } else {
        0
    };
    let mut acc: u64 = 0;
    while i < s.len()
        invariant
            base == 10 || base == 16,
            i <= s.len(),
            acc <= max,
            number_of(s@, base as int, max as int) == digits_from(
                s@,
                base as int,
                max as int,
                i as int,
                acc as int,
            ),
        decreases s.len() - i,
    {
        match value_of_digit(s[i], base) {
            None => {
                return Err(NumberError::InvalidDigit);
            },
            Some(d) => {
                assert(acc * base + d <= 0xffff_ffff * 16 + 16) by (nonlinear_arith)
                    requires
                        acc <= 0xffff_ffff,
                        base <= 16,
                        d < 16,
                ;
                let next: u64 = acc * base + d;
                if next > max as u64 {
                    return Err(NumberError::Overflow);
                }
                acc = next;
            },
        }
        i += 1;
    }
    Ok(acc as u32)
}

/// Reads a decimal number that fits in sixteen bits, or gives the other number.
pub fn read_u16_or(s: &str, other: u16) -> (r: u16)
    ensures
        r == (match number_of(s@, 10, 65535) {
            Ok(n) => n,
            Err(_) => other as int,
        }),
{
    match read_number(&to_chars(s), 10, 65535) {
        Ok(n) => n as u16,
        Err(_) => other,
    }
}

proof fn lemma_digits_append(s: Seq<char>, max: int, i: int, acc: int, d: nat)
    requires
        0 <= i <= s.len(),
        d < 10,
        digits_from(s, 10, max, i, acc) is Ok,
    ensures
        digits_from(s.push(digit(d)), 10, max, i, acc) == (if digits_from(s, 10, max, i, acc)->Ok_0
            * 10 + d > max {
            Err::<int, NumberError>(NumberError::Overflow)
        } else {
            Ok((digits_from(s, 10, max, i, acc)->Ok_0 * 10 + d) as int)
        }),
    decreases s.len() - i,
{
    let t = s.push(digit(d));
    assert(digit_value(digit(d), 10) == Some(d as int));
    if i >= s.len() {
        assert(t[i] == digit(d));
        assert(digits_from(t, 10, max, i + 1, acc * 10 + d) == Ok::<int, NumberError>(
            acc * 10 + d,
        ));
    } else {
        assert(t[i] == s[i]);
        let v = digit_value(s[i], 10)->Some_0;
        lemma_digits_append(s, max, i + 1, acc * 10 + v, d);
    }
}

proof fn lemma_decimal_digits(n: nat, max: int)
    requires
        n <= max,
    ensures
        decimal(n).len() > 0,
        decimal(n)[0] != '+',
        digits_from(decimal(n), 10, max, 0, 0) == Ok::<int, NumberError>(n as int),
    decreases n,
{
    if n < 10 {
        let s = decimal(n);
        assert(digit_value(s[0], 10) == Some(n as int));
        assert(digits_from(s, 10, max, 1, n as int) == Ok::<int, NumberError>(n as int));
    } else {
        lemma_decimal_digits(n / 10, max);
        lemma_digits_append(decimal(n / 10), max, 0, 0, n % 10);
        assert(decimal(n)[0] == decimal(n / 10)[0]);
    }
}

/// A number that is written in decimal is read back as it was.
pub proof fn decimal_reads_back(n: nat, max: int)
    requires
        n <= max,
    ensures
        number_of(decimal(n), 10, max) == Ok::<int, NumberError>(n as int),
{
    lemma_decimal_digits(n, max);
}

/// Different numbers have different decimal notations.
pub proof fn decimal_injective(a: nat, b: nat)
    requires
        decimal(a) == decimal(b),
    ensures
        a == b,
{
    let max = a + b;
    decimal_reads_back(a, max as int);
    decimal_reads_back(b, max as int);
}

/// Every character of a decimal notation is a digit.
pub proof fn decimal_digits(n: nat)
    ensures
        forall|i: int| 0 <= i < decimal(n).len() ==> '0' <= #[trigger] decimal(n)[i] <= '9',
        decimal(n).len() > 0,
    decreases n,
{
    if n >= 10 {
        decimal_digits(n / 10);
    }
}

/// `a / b` to the nearest whole number; halfway between two it is the even one.
pub open spec fn nearest(a: int, b: int) -> int {
    let q = a / b;
    let rest = a % b;
    if 2 * rest > b || (2 * rest == b && q % 2 == 1) {
        q + 1
    } else {
        q
    }
}

/// The number with at most 53 significant bits that is nearest to `n`, counted in steps of
/// `step`, which doubles until the number of steps fits.
pub open spec fn to_53_bits(n: int, step: int) -> int
    decreases n - step,
{
    if n <= 0 || step <= 0 || n / step < 0x20_0000_0000_0000 {
        nearest(n, step) * step
    } else {
        proof {
            assert(n >= 2 * step) by (nonlinear_arith)
                requires
                    n / step >= 2,
                    step > 0,
            ;
        }
        to_53_bits(n, step * 2)
    }
}

/// A number of tenths with one decimal place.
pub open spec fn tenths_text(t: nat) -> Seq<char> {
    decimal(t / 10) + seq!['.', digit(t % 10)]
}

/// A size in bytes, kilobytes or megabytes, the latter two with one decimal place. A size of
/// more than 53 bits is rounded to that precision first.
pub open spec fn size_text(bytes: nat) -> Seq<char> {
    if bytes >= 1_048_576 {
        tenths_text(nearest(to_53_bits(bytes as int, 1) * 10, 1_048_576) as nat) + " MB"@
    } else if bytes >= 1024 {
        tenths_text(nearest(bytes as int * 10, 1024) as nat) + " KB"@
    } else {
        decimal(bytes) + " B"@
    }
}

fn nearest_of(a: u128, b: u128) -> (r: u128)
    requires
        0 < b <= 0x1_0000_0000,
        a < 0x1_0000_0000_0000_0000_0000,
    ensures
        r == nearest(a as int, b as int),
        r <= a + 1,
{
    let q: u128 = a / b;
    let rest: u128 = a % b;
    assert(q <= a) by (nonlinear_arith)
        requires
            q == a / b,
            b > 0,
    ;
    if 2 * rest > b || (2 * rest == b && q % 2 == 1) {
        q + 1
    } else {
        q
    }
}

proof fn lemma_steps_double(n: int, step: int)
    requires
        0 < n,
        0 < step,
    ensures
        n / (2 * step) == (n / step) / 2,
{
    vstd::arithmetic::div_mod::lemma_div_denominator(n, step, 2);
    assert(step * 2 == 2 * step);
}

fn round_to_53_bits(n: u64) -> (r: u128)
    ensures
        r == to_53_bits(n as int, 1),
        r <= 0x4_0000_0000_0000_0000,
{
    let mut step: u128 = 1;
    let whole: u128 = n as u128;
    let mut steps: u128 = whole;
    assert(whole / 1 == whole);
    while steps >= 0x20_0000_0000_0000
        invariant
            whole == n,
            0 < step <= 0x1000,
            steps == whole / step,
            to_53_bits(n as int, 1) == to_53_bits(n as int, step as int),
        decreases 0x1000 - step,
    {
        proof {
            lemma_steps_double(whole as int, step as int);
            assert(step < 0x800) by (nonlinear_arith)
                requires
                    whole <= 0xffff_ffff_ffff_ffff,
                    steps == whole / step,
                    steps >= 0x20_0000_0000_0000,
                    step > 0,
            ;
        }
        step = step * 2;
        steps = steps / 2;
    }
    let near = nearest_of(whole, step);
    proof {
        let q = whole as int / step as int;
        assert(near * step <= (q + 1) * step) by (nonlinear_arith)
            requires
                near <= q + 1,
                step > 0,
        ;
        assert(q * step <= whole) by (nonlinear_arith)
            requires
                q == whole as int / step as int,
                step > 0,
        ;
        assert((q + 1) * step == q * step + step) by (nonlinear_arith);
    }
    near * step
}

fn tenths(t: u128, unit: &str) -> (r: String)
    requires
        t < 0x1_0000_0000_0000_0000,
    ensures
        r@ == tenths_text(t as nat) + unit@,
{
    let mut v = decimal_chars((t / 10) as u64);
    v.push('.');
    v.push((48 + (t % 10) as u8) as char);
    let mut r = to_text(&v);
    assert(v@ =~= tenths_text(t as nat));
    r.append(unit);
    r
}

/// A size as it is shown: in bytes, kilobytes or megabytes.
pub fn format_size(bytes: u64) -> (r: String)
    ensures
        r@ == size_text(bytes as nat),
{
    if bytes >= 1_048_576 {
        let near = round_to_53_bits(bytes);
        let t = nearest_of(near * 10, 1_048_576);
        proof {
            let q = (near * 10) as int / 1_048_576;
            assert(t <= q + 1);
        }
        tenths(t, " MB")
    } else if bytes >= 1024 {
        tenths(nearest_of(bytes as u128 * 10, 1024), " KB")
    } else {
        let mut r = decimal_text(bytes);
        r.append(" B");
        r
    }
}

} // verus!
