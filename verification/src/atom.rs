//! The tagged scalar: one closed enumeration of the four kinds, with the
//! conversions between them.

use vstd::prelude::*;
use vstd::string::{StrSliceExecFns, StringExecFns};
use vstd::utf8::is_ascii_chars;
use crate::scalar::{FloatBits, Scalar, ScalarValue};

verus! {

/// An atomic leaf value of one of the four scalar kinds.
#[derive(Debug, PartialEq, Eq)]
pub enum Atom {
    Integer(i128),
    Float(FloatBits),
    Text(String),
    Binary(Vec<u8>),
}

/// The ASCII codes that the decimal grammar is made of.
const MINUS: u8 = 45;

const PLUS: u8 = 43;

const DIGIT_ZERO: u8 = 48;

const DIGIT_NINE: u8 = 57;

/// Whether `c` is one of the ten decimal digits.
pub open spec fn is_digit(c: char) -> bool {
    '0' <= c && c <= '9'
}

/// Whether `s` holds decimal digits and nothing else.
pub open spec fn all_digits(s: Seq<char>) -> bool {
    forall|i: int| 0 <= i < s.len() ==> is_digit(#[trigger] s[i])
}

/// The number that a run of decimal digits denotes, most significant first.
pub open spec fn digits_value(s: Seq<char>) -> int
    decreases s.len(),
{
    if s.len() == 0 {
        0
    } else {
        digits_value(s.drop_last()) * 10 + (s.last() as int - '0' as int)
    }
}

/// The integer that a text denotes in decimal: an optional sign, then one or
/// more digits and nothing else, the number within the range of `i128`.
pub open spec fn decimal_value(s: Seq<char>) -> Option<i128> {
    let signed = s.len() > 0 && (s[0] == '-' || s[0] == '+');
    let digits = if signed { s.skip(1) } else { s };
    let magnitude = digits_value(digits);
    let n = if signed && s[0] == '-' { -magnitude } else { magnitude };
    if digits.len() > 0 && all_digits(digits) && i128::MIN <= n <= i128::MAX {
        Some(n as i128)
    } else {
        None
    }
}

/// The decimal digits of a natural number, without leading zeros.
pub open spec fn digits_text(n: nat) -> Seq<char>
    decreases n,
{
    if n < 10 {
        seq![('0' as u8 + n) as char]
    } else {
        digits_text(n / 10).push(('0' as u8 + n % 10) as char)
    }
}

/// The decimal text of an integer: a minus sign where it is negative, then the
/// digits of its magnitude.
pub open spec fn decimal_text(n: int) -> Seq<char> {
    if n < 0 {
        seq!['-'] + digits_text((-n) as nat)
    } else {
        digits_text(n as nat)
    }
}

/// A text with a character outside ASCII denotes no integer.
proof fn non_ascii_is_no_number(s: Seq<char>)
    requires
        !is_ascii_chars(s),
    ensures
        decimal_value(s).is_none(),
{
    let i = choose|i: int| 0 <= i < s.len() && !('\0' <= #[trigger] s[i] <= '\u{7f}');
    assert(!is_digit(s[i]));
    if s[0] == '-' || s[0] == '+' {
        assert(i > 0);
        assert(s.skip(1)[i - 1] == s[i]);
    }
}

/// Among digits, a prefix never denotes more than the whole run.
proof fn prefix_value_is_less(s: Seq<char>, k: int)
    requires
        all_digits(s),
        0 <= k <= s.len(),
    ensures
        0 <= digits_value(s.take(k)) <= digits_value(s),
    decreases s.len(),
{
    if s.len() == 0 {
        assert(s.take(k) =~= s);
    } else if k == s.len() {
        assert(s.take(k) =~= s);
        assert(all_digits(s.drop_last()));
        prefix_value_is_less(s.drop_last(), k - 1);
        assert(is_digit(s.last()));
    } else {
        assert(all_digits(s.drop_last()));
        assert(s.drop_last().take(k) =~= s.take(k));
        prefix_value_is_less(s.drop_last(), k);
        assert(is_digit(s.last()));
        prefix_value_is_less(s.drop_last(), s.len() - 1);
        assert(s.drop_last().take(s.len() - 1) =~= s.drop_last());
    }
}

/// Reads `s` as a decimal integer: an optional `+` or `-`, then at least one
/// digit and nothing else. Absent where `s` is not of that form or the number
/// does not fit.
pub fn parse_integer(s: &str) -> (r: Option<i128>)
    ensures
        r == decimal_value(s@),
{
    if !s.is_ascii() {
        proof {
            non_ascii_is_no_number(s@);
        }
        return None;
    }
    let len: usize = s.unicode_len();
    if len == 0 {
        return None;
    }
    let first: u8 = s.get_ascii(0);
    let negative = first == MINUS;
    let start: usize = if first == MINUS || first == PLUS {
        1
    } else {
        0
    };
    let ghost digits = s@.skip(start as int);
    assert(start == 0 ==> digits =~= s@);
    if start == len {
        return None;
    }
    let mut magnitude: u128 = 0;
    let mut i: usize = start;
    assert(digits.take(0) =~= Seq::<char>::empty());
    while i < len
        invariant
            s.is_ascii(),
            len == s@.len(),
            start <= i <= len,
            digits == s@.skip(start as int),
            digits == if s@[0] == '-' || s@[0] == '+' {
                s@.skip(1)
            } else {
                s@
            },
            all_digits(digits.take(i - start)),
            magnitude == digits_value(digits.take(i - start)),
        decreases len - i,
    {
        let b: u8 = s.get_ascii(i);
        assert(digits[i - start] == s@[i as int]);
        if b < DIGIT_ZERO || b > DIGIT_NINE {
            assert(!is_digit(digits[i - start]));
            return None;
        }
        let d: u128 = (b - DIGIT_ZERO) as u128;
        let ghost longer = digits.take(i - start + 1);
        assert(longer.drop_last() =~= digits.take(i - start));
        assert(longer.last() == s@[i as int]);
        assert(digits_value(longer) == magnitude * 10 + d);
        if magnitude > (u128::MAX - d) / 10 {
            proof {
                if all_digits(digits) {
                    prefix_value_is_less(digits, i - start + 1);
                }
            }
            return None;
        }
        assert(all_digits(longer)) by {
            assert forall|j: int| 0 <= j < longer.len() implies is_digit(#[trigger] longer[j]) by {
                if j < i - start {
                    assert(longer[j] == digits.take(i - start)[j]);
                }
            }
        }
        magnitude = magnitude * 10 + d;
        i += 1;
    }
    assert(digits.take(len - start) =~= digits);
    if negative {
        if magnitude < 0x8000_0000_0000_0000_0000_0000_0000_0000 {
            Some(-(magnitude as i128))
        } else if magnitude == 0x8000_0000_0000_0000_0000_0000_0000_0000 {
            Some(i128::MIN)
        } else {
            None
        }
    } else {
        if magnitude < 0x8000_0000_0000_0000_0000_0000_0000_0000 {
            Some(magnitude as i128)
        } else {
            None
        }
    }
}

/// The digits written for a natural number are digits only, at least one,
/// and denote that number.
pub proof fn digits_read_back(n: nat)
    ensures
        digits_text(n).len() > 0,
        all_digits(digits_text(n)),
        digits_value(digits_text(n)) == n,
    decreases n,
{
    let t = digits_text(n);
    if n < 10 {
        assert(t.drop_last() =~= Seq::<char>::empty());
        assert(digits_value(t.drop_last()) == 0);
    } else {
        digits_read_back(n / 10);
        assert(t.drop_last() =~= digits_text(n / 10));
        assert forall|i: int| 0 <= i < t.len() implies is_digit(#[trigger] t[i]) by {
            if i < t.len() - 1 {
                assert(t[i] == digits_text(n / 10)[i]);
            }
        }
    }
}

/// Every integer written in decimal reads back as itself.
pub proof fn written_integer_reads_back(n: i128)
    ensures
        decimal_value(decimal_text(n as int)) == Some(n),
{
    let t = decimal_text(n as int);
    if n < 0 {
        let m = (-n) as nat;
        digits_read_back(m);
        assert(t[0] == '-');
        assert(t.skip(1) =~= digits_text(m));
    } else {
        digits_read_back(n as nat);
        assert(is_digit(t[0]));
    }
}

/// The one-character text of a decimal digit.
fn digit_text(d: u8) -> (r: &'static str)
    requires
        d < 10,
    ensures
        r@ =~= seq![('0' as u8 + d) as char],
{
    proof {
        reveal_strlit("0");
        reveal_strlit("1");
        reveal_strlit("2");
        reveal_strlit("3");
        reveal_strlit("4");
        reveal_strlit("5");
        reveal_strlit("6");
        reveal_strlit("7");
        reveal_strlit("8");
        reveal_strlit("9");
    }
    match d {
        0 => "0",
        1 => "1",
        2 => "2",
        3 => "3",
        4 => "4",
        5 => "5",
        6 => "6",
        7 => "7",
        8 => "8",
        _ => "9",
    }
}

/// Appends the decimal digits of `m` to `out`.
fn push_digits(m: u128, out: &mut String)
    ensures
        final(out)@ == old(out)@ + digits_text(m as nat),
    decreases m,
{
    if m >= 10 {
        push_digits(m / 10, out);
    }
    let d: u8 = (m % 10) as u8;
    out.append(digit_text(d));
    assert(out@ =~= old(out)@ + digits_text(m as nat));
}

/// Writes `n` in decimal: a minus sign where it is negative, then the digits
/// of its magnitude without leading zeros.
pub fn format_integer(n: i128) -> (r: String)
    ensures
        r@ == decimal_text(n as int),
{
    let mut out = String::new();
    if n < 0 {
        proof {
            reveal_strlit("-");
        }
        out.append("-");
        let magnitude: u128 = if n == i128::MIN {
            0x8000_0000_0000_0000_0000_0000_0000_0000
        } else {
            (-n) as u128
        };
        push_digits(magnitude, &mut out);
        assert(out@ =~= seq!['-'] + digits_text((-n) as nat));
    } else {
        push_digits(n as u128, &mut out);
        assert(out@ =~= digits_text(n as nat));
    }
    out
}

impl Scalar<i128> for Atom {
    open spec fn native(&self) -> Option<i128> {
        match self {
            Atom::Integer(n) => Some(*n),
            _ => None,
        }
    }

    /// An integer is itself; a text is the integer it denotes in decimal.
    open spec fn coerced(&self) -> Option<i128> {
        match self {
            Atom::Integer(n) => Some(*n),
            Atom::Text(s) => decimal_value(s@),
            _ => None,
        }
    }

    proof fn native_coerces(&self) {
    }

    fn scalar(&self) -> (r: Option<&i128>) {
        match self {
            Atom::Integer(n) => Some(n),
            _ => None,
        }
    }

    fn to_scalar(&self) -> (r: Option<i128>) {
        match self {
            Atom::Integer(n) => Some(*n),
            _ => None,
        }
    }

    fn as_scalar(&self) -> (r: Option<i128>) {
        match self {
            Atom::Integer(n) => Some(*n),
            Atom::Text(s) => parse_integer(s.as_str()),
            _ => None,
        }
    }
}

impl Scalar<FloatBits> for Atom {
    open spec fn native(&self) -> Option<FloatBits> {
        match self {
            Atom::Float(x) => Some(*x),
            _ => None,
        }
    }

    /// Only a stored number is a number: no other kind coerces to one.
    open spec fn coerced(&self) -> Option<u64> {
        match self {
            Atom::Float(x) => Some(x.bits),
            _ => None,
        }
    }

    proof fn native_coerces(&self) {
    }

    fn scalar(&self) -> (r: Option<&FloatBits>) {
        match self {
            Atom::Float(x) => Some(x),
            _ => None,
        }
    }

    fn to_scalar(&self) -> (r: Option<FloatBits>) {
        match self {
            Atom::Float(x) => Some(*x),
            _ => None,
        }
    }

    fn as_scalar(&self) -> (r: Option<FloatBits>) {
        match self {
            Atom::Float(x) => Some(*x),
            _ => None,
        }
    }
}

impl Scalar<String> for Atom {
    open spec fn native(&self) -> Option<String> {
        match self {
            Atom::Text(s) => Some(*s),
            _ => None,
        }
    }

    /// A text is itself; an integer is its decimal text.
    open spec fn coerced(&self) -> Option<Seq<char>> {
        match self {
            Atom::Integer(n) => Some(decimal_text(*n as int)),
            Atom::Text(s) => Some(s@),
            _ => None,
        }
    }

    proof fn native_coerces(&self) {
    }

    fn scalar(&self) -> (r: Option<&String>) {
        match self {
            Atom::Text(s) => Some(s),
            _ => None,
        }
    }

    fn to_scalar(&self) -> (r: Option<String>) {
        match self {
            Atom::Text(s) => Some(s.clone()),
            _ => None,
        }
    }

    fn as_scalar(&self) -> (r: Option<String>) {
        match self {
            Atom::Integer(n) => Some(format_integer(*n)),
            Atom::Text(s) => Some(s.clone()),
            _ => None,
        }
    }
}

impl Scalar<Vec<u8>> for Atom {
    open spec fn native(&self) -> Option<Vec<u8>> {
        match self {
            Atom::Binary(b) => Some(*b),
            _ => None,
        }
    }

    /// Only a stored byte sequence is a byte sequence.
    open spec fn coerced(&self) -> Option<Seq<u8>> {
        match self {
            Atom::Binary(b) => Some(b@),
            _ => None,
        }
    }

    proof fn native_coerces(&self) {
    }

    fn scalar(&self) -> (r: Option<&Vec<u8>>) {
        match self {
            Atom::Binary(b) => Some(b),
            _ => None,
        }
    }

    fn to_scalar(&self) -> (r: Option<Vec<u8>>) {
        match self {
            Atom::Binary(b) => {
                let copy = b.clone();
                assert(copy@ =~= b@);
                Some(copy)
            },
            _ => None,
        }
    }

    fn as_scalar(&self) -> (r: Option<Vec<u8>>) {
        Scalar::<Vec<u8>>::to_scalar(self)
    }
}

impl ScalarValue for Atom {
}

} // verus!
