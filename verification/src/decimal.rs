//! Decimal text of the device's integer attributes: rendering a value to
//! the text written into an attribute file, and parsing the text read out
//! of one.

use vstd::prelude::*;
use vstd::string::*;

verus! {

/// Why an attribute access failed.  `NotFound`, `Unreadable` and
/// `Unwritable` name failures that the caller meets at the file itself;
/// parsing its content yields `Malformed`.
#[derive(Debug, Clone, Copy, PartialEq, Eq, Structural)]
pub enum AttributeError {
    NotFound,
    Unreadable,
    Unwritable,
    Malformed,
}

/// The character for one decimal digit.
pub open spec fn digit_char(d: int) -> char {
    if d == 0 {
        '0'
    } else if d == 1 {
        '1'
    } else if d == 2 {
        '2'
    } else if d == 3 {
        '3'
    } else if d == 4 {
        '4'
    } else if d == 5 {
        '5'
    } else if d == 6 {
        '6'
    } else if d == 7 {
        '7'
    } else if d == 8 {
        '8'
    } else {
        '9'
    }
}

/// The decimal digits of a non-negative value, most significant first.
pub open spec fn decimal_digits(n: nat) -> Seq<char>
    decreases n,
{
    if n < 10 {
        seq![digit_char(n as int)]
    } else {
        decimal_digits(n / 10) + seq![digit_char((n % 10) as int)]
    }
}

/// The decimal text of a signed value: a minus sign before the digits of
/// the magnitude for a negative one, the bare digits otherwise.
pub open spec fn decimal_text(v: int) -> Seq<char> {
    if v < 0 {
        seq!['-'] + decimal_digits((-v) as nat)
    } else {
        decimal_digits(v as nat)
    }
}

/// Whitespace as the attribute reader strips it: the ASCII blank
/// characters.
pub open spec fn is_space_char(c: char) -> bool {
    c == ' ' || c == '\t' || c == '\n' || c == '\r' || c == '\u{b}' || c == '\u{c}'
}

/// `s` without its leading whitespace.
pub open spec fn trim_front(s: Seq<char>) -> Seq<char>
    decreases s.len(),
{
    if s.len() > 0 && is_space_char(s[0]) {
        trim_front(s.drop_first())
    } else {
        s
    }
}

/// `s` without its trailing whitespace.
pub open spec fn trim_back(s: Seq<char>) -> Seq<char>
    decreases s.len(),
{
    if s.len() > 0 && is_space_char(s.last()) {
        trim_back(s.drop_last())
    } else {
        s
    }
}

/// `s` without leading and trailing whitespace.
pub open spec fn trimmed(s: Seq<char>) -> Seq<char> {
    trim_back(trim_front(s))
}

pub open spec fn is_digit_char(c: char) -> bool {
    48 <= c as u32 <= 57
}

pub open spec fn digit_value(c: char) -> int {
    c as u32 - 48
}

pub open spec fn all_digits(s: Seq<char>) -> bool {
    forall|i: int| 0 <= i < s.len() ==> is_digit_char(#[trigger] s[i])
}

/// The value of a string of digits, most significant first.
pub open spec fn digits_value(s: Seq<char>) -> int
    decreases s.len(),
{
    if s.len() == 0 {
        0
    } else {
        digits_value(s.drop_last()) * 10 + digit_value(s.last())
    }
}

/// The digits of a decimal integer, the optional leading sign removed.
pub open spec fn decimal_body(s: Seq<char>) -> Seq<char> {
    if s.len() > 0 && (s[0] == '-' || s[0] == '+') {
        s.drop_first()
    } else {
        s
    }
}

pub open spec fn is_negative_decimal(s: Seq<char>) -> bool {
    s.len() > 0 && s[0] == '-'
}

/// An optional sign followed by at least one digit.
pub open spec fn is_decimal_int(s: Seq<char>) -> bool {
    decimal_body(s).len() > 0 && all_digits(decimal_body(s))
}

pub open spec fn decimal_value(s: Seq<char>) -> int {
    if is_negative_decimal(s) {
        -digits_value(decimal_body(s))
    } else {
        digits_value(decimal_body(s))
    }
}

/// A decimal integer whose value fits the attribute type.
pub open spec fn is_i16_decimal(s: Seq<char>) -> bool {
    is_decimal_int(s) && i16::MIN <= decimal_value(s) <= i16::MAX
}

proof fn lemma_digits_value_nonneg(s: Seq<char>)
    requires
        all_digits(s),
    ensures
        digits_value(s) >= 0,
    decreases s.len(),
{
    if s.len() > 0 {
        assert(all_digits(s.drop_last()));
        lemma_digits_value_nonneg(s.drop_last());
    }
}

proof fn lemma_digits_value_take_le(s: Seq<char>, k: int)
    requires
        all_digits(s),
        0 <= k <= s.len(),
    ensures
        digits_value(s.take(k)) <= digits_value(s),
    decreases s.len() - k,
{
    if k == s.len() {
        assert(s.take(k) =~= s);
    } else {
        lemma_digits_value_take_le(s, k + 1);
        assert(s.take(k + 1).drop_last() =~= s.take(k));
        assert(all_digits(s.take(k)));
        lemma_digits_value_nonneg(s.take(k));
        assert(digits_value(s.take(k + 1)) == digits_value(s.take(k)) * 10 + digit_value(
            s[k],
        ));
    }
}

pub(crate) fn digit_str(d: u32) -> (r: &'static str)
    requires
        d < 10,
    ensures
        r@ == seq![digit_char(d as int)],
{
    if d == 0 {
        proof {
            reveal_strlit("0");
            assert("0"@ =~= seq![digit_char(0)]);
        }
        "0"
    } else if d == 1 {
        proof {
            reveal_strlit("1");
            assert("1"@ =~= seq![digit_char(1)]);
        }
        "1"
    } else if d == 2 {
        proof {
            reveal_strlit("2");
            assert("2"@ =~= seq![digit_char(2)]);
        }
        "2"
    } else if d == 3 {
        proof {
            reveal_strlit("3");
            assert("3"@ =~= seq![digit_char(3)]);
        }
        "3"
    } else if d == 4 {
        proof {
            reveal_strlit("4");
            assert("4"@ =~= seq![digit_char(4)]);
        }
        "4"
    } else if d == 5 {
        proof {
            reveal_strlit("5");
            assert("5"@ =~= seq![digit_char(5)]);
        }
        "5"
    } else if d == 6 {
        proof {
            reveal_strlit("6");
            assert("6"@ =~= seq![digit_char(6)]);
        }
        "6"
    } else if d == 7 {
        proof {
            reveal_strlit("7");
            assert("7"@ =~= seq![digit_char(7)]);
        }
        "7"
    } else if d == 8 {
        proof {
            reveal_strlit("8");
            assert("8"@ =~= seq![digit_char(8)]);
        }
        "8"
    } else {
        proof {
            reveal_strlit("9");
            assert("9"@ =~= seq![digit_char(9)]);
        }
        "9"
    }
}

fn decimal_of_u32(n: u32) -> (r: String)
    ensures
        r@ == decimal_digits(n as nat),
    decreases n,
{
    if n < 10 {
        digit_str(n).to_owned()
    } else {
        let prefix = decimal_of_u32(n / 10);
        let r = prefix.concat(digit_str(n % 10));
        proof {
            assert(r@ =~= decimal_digits(n as nat));
        }
        r
    }
}

/// The text written into an attribute file for a value: its decimal
/// representation, sign included, no trailing newline.
pub fn attribute_text(value: i16) -> (r: String)
    ensures
        r@ == decimal_text(value as int),
{
    if value < 0 {
        let mag: u32 = (-(value as i32)) as u32;
        let digits = decimal_of_u32(mag);
        let r = "-".to_owned().concat(digits.as_str());
        proof {
            reveal_strlit("-");
            assert(r@ =~= decimal_text(value as int));
        }
        r
    } else {
        decimal_of_u32(value as u32)
    }
}

proof fn lemma_decimal_digits_value(n: nat)
    ensures
        decimal_digits(n).len() > 0,
        all_digits(decimal_digits(n)),
        digits_value(decimal_digits(n)) == n,
    decreases n,
{
    reveal_with_fuel(digits_value, 3);
    if n < 10 {
        assert(seq![digit_char(n as int)].drop_last() =~= Seq::<char>::empty());
    } else {
        lemma_decimal_digits_value(n / 10);
        let prefix = decimal_digits(n / 10);
        let s = prefix + seq![digit_char((n % 10) as int)];
        assert(s.drop_last() =~= prefix);
        vstd::arithmetic::div_mod::lemma_fundamental_div_mod(n as int, 10);
    }
}

/// What `attribute_text` writes for a value reads back as exactly that
/// value: the text carries no whitespace to trim, and it is a well-formed
/// decimal of the attribute type whose value is the one written.
pub proof fn lemma_attribute_text_round_trip(v: i16)
    ensures
        trimmed(decimal_text(v as int)) == decimal_text(v as int),
        is_i16_decimal(decimal_text(v as int)),
        decimal_value(decimal_text(v as int)) == v as int,
{
    let s = decimal_text(v as int);
    if v < 0 {
        let digits = decimal_digits((-(v as int)) as nat);
        lemma_decimal_digits_value((-(v as int)) as nat);
        assert(s.drop_first() =~= digits);
        assert(is_digit_char(digits.last()));
        assert(s.last() == digits.last());
    } else {
        lemma_decimal_digits_value(v as nat);
        assert(is_digit_char(s[0]));
        assert(is_digit_char(s.last()));
    }
}

/// The bounds of the trimmed part of `s`: the text between them is `s`
/// without its surrounding whitespace.
fn trim_bounds(s: &str) -> (r: (usize, usize))
    ensures
        r.0 <= r.1 <= s@.len(),
        trimmed(s@) == s@.subrange(r.0 as int, r.1 as int),
{
    let len = s.unicode_len();
    proof {
        assert(s@.subrange(0, len as int) =~= s@);
    }
    let mut lo: usize = 0;
    while lo < len && is_space(s.get_char(lo))
        invariant
            len == s@.len(),
            0 <= lo <= len,
            trim_front(s@) == trim_front(s@.subrange(lo as int, len as int)),
        decreases len - lo,
    {
        proof {
            let t = s@.subrange(lo as int, len as int);
            assert(t.drop_first() =~= s@.subrange(lo as int + 1, len as int));
        }
        lo = lo + 1;
    }
    proof {
        assert(trim_front(s@) == s@.subrange(lo as int, len as int));
    }
    let mut hi: usize = len;
    while hi > lo && is_space(s.get_char(hi - 1))
        invariant
            len == s@.len(),
            0 <= lo <= hi <= len,
            trim_front(s@) == s@.subrange(lo as int, len as int),
            trim_back(s@.subrange(lo as int, len as int)) == trim_back(
                s@.subrange(lo as int, hi as int),
            ),
        decreases hi,
    {
        proof {
            let t = s@.subrange(lo as int, hi as int);
            assert(t.drop_last() =~= s@.subrange(lo as int, hi as int - 1));
        }
        hi = hi - 1;
    }
    proof {
        assert(trimmed(s@) == s@.subrange(lo as int, hi as int));
    }
    (lo, hi)
}

/// Reads the digits of `s` between `start` and `hi` as a magnitude,
/// refusing anything that is not a digit and any value beyond the largest
/// magnitude an attribute can carry.
fn parse_magnitude(s: &str, start: usize, hi: usize) -> (r: Result<u32, AttributeError>)
    requires
        start < hi <= s@.len(),
    ensures
        match r {
            Ok(m) => {
                let d = s@.subrange(start as int, hi as int);
                all_digits(d) && m == digits_value(d) && m <= 32768
            },
            Err(e) => {
                let d = s@.subrange(start as int, hi as int);
                e == AttributeError::Malformed && !(all_digits(d) && digits_value(d) <= 32768)
            },
        },
{
    let ghost d = s@.subrange(start as int, hi as int);
    let mut magnitude: u32 = 0;
    let mut i: usize = start;
    while i < hi
        invariant
            start <= i <= hi <= s@.len(),
            d == s@.subrange(start as int, hi as int),
            all_digits(d.take(i - start)),
            magnitude == digits_value(d.take(i - start)),
            magnitude <= 32768,
        decreases hi - i,
    {
        let c = s.get_char(i);
        let u = c as u32;
        if u < 48 || u > 57 {
            proof {
                assert(!is_digit_char(d[i - start]));
            }
            return Err(AttributeError::Malformed);
        }
        let next: u32 = magnitude * 10 + (u - 48);
        proof {
            let k = i - start;
            assert(d.take(k + 1).drop_last() =~= d.take(k));
            assert(all_digits(d.take(k + 1)));
            assert(digits_value(d.take(k + 1)) == digits_value(d.take(k)) * 10 + digit_value(
                d[k],
            ));
        }
        if next > 32768 {
            proof {
                if all_digits(d) {
                    lemma_digits_value_take_le(d, i - start + 1);
                    lemma_digits_value_nonneg(d.take(i - start + 1));
                }
            }
            return Err(AttributeError::Malformed);
        }
        magnitude = next;
        i = i + 1;
    }
    proof {
        assert(d.take(hi - start) =~= d);
    }
    Ok(magnitude)
}

/// Parses the content of an attribute file: whitespace around the value
/// is ignored, and what remains must be a decimal integer, an optional
/// sign included, that fits the attribute type.  Anything else is
/// `Malformed`.
pub fn parse_attribute_value(s: &str) -> (r: Result<i16, AttributeError>)
    ensures
        match r {
            Ok(v) => is_i16_decimal(trimmed(s@)) && v as int == decimal_value(trimmed(s@)),
            Err(e) => e == AttributeError::Malformed && !is_i16_decimal(trimmed(s@)),
        },
{
    let (lo, hi) = trim_bounds(s);
    let ghost t = s@.subrange(lo as int, hi as int);
    if hi == lo {
        return Err(AttributeError::Malformed);
    }
    let c0 = s.get_char(lo);
    let negative = c0 == '-';
    let start: usize = if c0 == '-' || c0 == '+' {
        lo + 1
    } else {
        lo
    };
    let ghost d = s@.subrange(start as int, hi as int);
    proof {
        if start > lo {
            assert(t.drop_first() =~= d);
        }
        assert(decimal_body(t) == d);
        assert(negative == is_negative_decimal(t));
    }
    if start == hi {
        return Err(AttributeError::Malformed);
    }
    let magnitude = match parse_magnitude(s, start, hi) {
        Ok(m) => m,
        Err(e) => {
            proof {
                if all_digits(d) {
                    lemma_digits_value_nonneg(d);
                }
            }
            return Err(e);
        },
    };
    proof {
        lemma_digits_value_nonneg(d);
    }
    if negative {
        Ok((-(magnitude as i32)) as i16)
    } else if magnitude > 32767 {
        Err(AttributeError::Malformed)
    } else {
        Ok(magnitude as i16)
    }
}

fn is_space(c: char) -> (r: bool)
    ensures
        r == is_space_char(c),
{
    c == ' ' || c == '\t' || c == '\n' || c == '\r' || c == '\u{b}' || c == '\u{c}'
}

} // verus!
