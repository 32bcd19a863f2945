//! Small operations on text that the rest of the crate shares: comparing
//! strings, and writing and reading integers in decimal.

use vstd::prelude::*;
use vstd::slice::*;
use vstd::string::*;
use vstd::utf8::*;

verus! {

/// Two byte slices hold the same bytes.
pub fn bytes_equal(a: &[u8], b: &[u8]) -> (same: bool)
    ensures
        same == (a@ == b@),
{
    if a.len() != b.len() {
        return false;
    }
    let mut i: usize = 0;
    while i < a.len()
        invariant
            a@.len() == b@.len(),
            i <= a@.len(),
            forall|k: int| 0 <= k < i ==> a@[k] == b@[k],
        decreases a@.len() - i,
    {
        if a[i] != b[i] {
            return false;
        }
        i = i + 1;
    }
    assert(a@ =~= b@);
    true
}

/// Two strings hold the same characters.
pub fn str_equal(a: &str, b: &str) -> (same: bool)
    ensures
        same == (a@ == b@),
{
    let same = bytes_equal(a.as_bytes(), b.as_bytes());
    proof {
        encode_utf8_decode_utf8(a@);
        encode_utf8_decode_utf8(b@);
    }
    same
}

/// The character of a decimal digit.
pub open spec fn digit_char(d: int) -> char {
    if d == 0 {
        '0'
    } else if d == 1 {
        '1'
    } else if d == 2 {
        '2'
    } else if d == 3 {
        '3'
    } else if d == 4 {
        '4'
    } else if d == 5 {
        '5'
    } else if d == 6 {
        '6'
    } else if d == 7 {
        '7'
    } else if d == 8 {
        '8'
    } else {
        '9'
    }
}

/// A natural number in decimal, without leading zeros.
pub open spec fn natural_text(n: nat) -> Seq<char>
    decreases n,
{
    if n < 10 {
        seq![digit_char(n as int)]
    } else {
        natural_text(n / 10).push(digit_char((n % 10) as int))
    }
}

/// An integer in decimal: a minus sign where it is negative, then its
/// magnitude.
pub open spec fn decimal_text(i: int) -> Seq<char> {
    if i < 0 {
        seq!['-'] + natural_text((-i) as nat)
    } else {
        natural_text(i as nat)
    }
}

/// The digits `digits`, which are held least significant first, as they are
/// written.
pub open spec fn written_digits(digits: Seq<u8>) -> Seq<char> {
    Seq::new(digits.len(), |i: int| digit_char(digits[digits.len() - 1 - i] as int))
}

fn digit_str(d: u8) -> (s: &'static str)
    requires
        d < 10,
    ensures
        s@ == seq![digit_char(d as int)],
{
    proof {
        reveal_strlit("0");
        reveal_strlit("1");
        reveal_strlit("2");
        reveal_strlit("3");
        reveal_strlit("4");
        reveal_strlit("5");
        reveal_strlit("6");
        reveal_strlit("7");
        reveal_strlit("8");
        reveal_strlit("9");
    }
    let s = if d == 0 {
        "0"
    } else if d == 1 {
        "1"
    } else if d == 2 {
        "2"
    } else if d == 3 {
        "3"
    } else if d == 4 {
        "4"
    } else if d == 5 {
        "5"
    } else if d == 6 {
        "6"
    } else if d == 7 {
        "7"
    } else if d == 8 {
        "8"
    } else {
        "9"
    };
    assert(s@ =~= seq![digit_char(d as int)]);
    s
}

/// Appends a natural number in decimal.
fn append_natural(out: &mut String, n: u64)
    ensures
        final(out)@ == old(out)@ + natural_text(n as nat),
{
    let mut digits: Vec<u8> = Vec::new();
    digits.push((n % 10) as u8);
    let mut rest: u64 = n / 10;
    assert(written_digits(digits@) =~= seq![digit_char((n % 10) as int)]);
    while rest > 0
        invariant
            digits@.len() >= 1,
            forall|k: int| 0 <= k < digits@.len() ==> digits@[k] < 10,
            natural_text(n as nat) == if rest > 0 {
                natural_text(rest as nat) + written_digits(digits@)
            } else {
                written_digits(digits@)
            },
        decreases rest,
    {
        let ghost before = digits@;
        let d: u8 = (rest % 10) as u8;
        digits.push(d);
        assert(written_digits(digits@) =~= seq![digit_char(d as int)] + written_digits(before));
        assert(natural_text(rest as nat) + written_digits(before) =~= if rest >= 10 {
            natural_text((rest / 10) as nat) + written_digits(digits@)
        } else {
            written_digits(digits@)
        });
        rest = rest / 10;
    }
    let ghost start = out@;
    let mut i: usize = digits.len();
    while i > 0
        invariant
            i <= digits@.len(),
            forall|k: int| 0 <= k < digits@.len() ==> digits@[k] < 10,
            out@ == start + written_digits(digits@).subrange(0, digits@.len() - i),
        decreases i,
    {
        i = i - 1;
        let ghost before = out@;
        out.append(digit_str(digits[i]));
        assert(out@ =~= start + written_digits(digits@).subrange(0, digits@.len() - i));
    }
    assert(written_digits(digits@).subrange(0, digits@.len() as int) =~= written_digits(digits@));
}

/// Writes an integer in decimal.
pub fn decimal(i: i64) -> (out: String)
    ensures
        out@ == decimal_text(i as int),
{
    let mut out = String::new();
    if i < 0 {
        out.append("-");
        proof {
            reveal_strlit("-");
        }
        assert(out@ =~= seq!['-']);
        let magnitude: u64 = (-(i + 1)) as u64 + 1;
        append_natural(&mut out, magnitude);
    } else {
        append_natural(&mut out, i as u64);
        assert(out@ =~= natural_text(i as nat));
    }
    out
}

/// The value of a decimal digit; `None` for any other character.
pub open spec fn digit_value(c: char) -> Option<int> {
    if c == '0' {
        Some(0)
    } else if c == '1' {
        Some(1)
    } else if c == '2' {
        Some(2)
    } else if c == '3' {
        Some(3)
    } else if c == '4' {
        Some(4)
    } else if c == '5' {
        Some(5)
    } else if c == '6' {
        Some(6)
    } else if c == '7' {
        Some(7)
    } else if c == '8' {
        Some(8)
    } else if c == '9' {
        Some(9)
    } else {
        None
    }
}

/// The number that a run of decimal digits stands for; `None` for the empty
/// text and for a text that holds anything but digits.
pub open spec fn natural_value(s: Seq<char>) -> Option<int>
    decreases s.len(),
{
    if s.len() == 0 {
        None
    } else if s.len() == 1 {
        digit_value(s[0])
    } else {
        match (natural_value(s.drop_last()), digit_value(s.last())) {
            (Some(high), Some(low)) => Some(high * 10 + low),
            _ => None,
        }
    }
}

/// The integer that a text stands for: digits, with a `+` or a `-` before
/// them or with none. Nothing else is an integer: no blank, no empty text,
/// no sign alone.
pub open spec fn integer_value(s: Seq<char>) -> Option<int> {
    if s.len() > 0 && s[0] == '-' {
        match natural_value(s.subrange(1, s.len() as int)) {
            Some(magnitude) => Some(-magnitude),
            None => None,
        }
    } else if s.len() > 0 && s[0] == '+' {
        natural_value(s.subrange(1, s.len() as int))
    } else {
        natural_value(s)
    }
}

/// The integer of 32 bits that a text stands for; `None` where the text is
/// no integer or the integer does not fit.
pub open spec fn parsed_i32(s: Seq<char>) -> Option<i32> {
    match integer_value(s) {
        Some(value) => if i32::MIN <= value <= i32::MAX {
            Some(value as i32)
        } else {
            None
        },
        None => None,
    }
}

/// A text that stands for a number holds digits only.
proof fn lemma_natural_is_digits(s: Seq<char>, i: int)
    requires
        natural_value(s) is Some,
        0 <= i < s.len(),
    ensures
        digit_value(s[i]) is Some,
    decreases s.len(),
{
    if s.len() > 1 && i < s.len() - 1 {
        lemma_natural_is_digits(s.drop_last(), i);
    }
}

/// A number does not shrink when digits are written after it, and a text
/// with something else than a digit in it stays no number.
proof fn lemma_natural_grows(s: Seq<char>, n: int)
    requires
        0 < n <= s.len(),
    ensures
        natural_value(s.subrange(0, n)) is None ==> natural_value(s) is None,
        natural_value(s) matches Some(whole) ==> natural_value(s.subrange(0, n)) matches Some(part)
            && 0 <= part <= whole,
    decreases s.len() - n,
{
    lemma_natural_nonnegative(s.subrange(0, n));
    if n < s.len() {
        lemma_natural_grows(s, n + 1);
        let longer = s.subrange(0, n + 1);
        assert(longer.drop_last() =~= s.subrange(0, n));
        lemma_natural_nonnegative(longer);
    } else {
        assert(s.subrange(0, n) =~= s);
    }
}

/// A number is not negative.
proof fn lemma_natural_nonnegative(s: Seq<char>)
    ensures
        natural_value(s) matches Some(value) ==> value >= 0,
    decreases s.len(),
{
    if s.len() > 1 {
        lemma_natural_nonnegative(s.drop_last());
    }
}

/// The value of a digit that is given as a byte.
fn digit_of(b: u8) -> (res: Option<u8>)
    ensures
        match res {
            Some(d) => d < 10 && digit_value(b as char) == Some(d as int),
            None => digit_value(b as char) is None,
        },
{
    if b == 48 {
        Some(0)
    } else if b == 49 {
        Some(1)
    } else if b == 50 {
        Some(2)
    } else if b == 51 {
        Some(3)
    } else if b == 52 {
        Some(4)
    } else if b == 53 {
        Some(5)
    } else if b == 54 {
        Some(6)
    } else if b == 55 {
        Some(7)
    } else if b == 56 {
        Some(8)
    } else if b == 57 {
        Some(9)
    } else {
        None
    }
}

/// Reads an integer of 32 bits.
///
/// The text is an integer where it is a run of digits, with a `+` or a `-`
/// before it or with none, and the integer fits. Any other text gives
/// `None`.
pub fn parse_i32(text: &str) -> (res: Option<i32>)
    ensures
        res == parsed_i32(text@),
{
    let ghost s = text@;
    if !text.is_ascii() {
        proof {
            let i = choose|i: int| 0 <= i < s.len() && !('\0' <= #[trigger] s[i] <= '\u{7f}');
            lemma_not_ascii_is_no_integer(s, i);
        }
        return None;
    }
    proof {
        is_ascii_spec_bytes(text);
    }
    let bytes = text.as_bytes();
    let length = bytes.len();
    if length == 0 {
        return None;
    }
    let negative = bytes[0] == 45;
    let signed = negative || bytes[0] == 43;
    let start: usize = if signed {
        1
    } else {
        0
    };
    if start == length {
        assert(s.subrange(1, 1) =~= Seq::empty());
        return None;
    }
    let ghost digits = s.subrange(start as int, s.len() as int);
    assert(integer_value(s) == match natural_value(digits) {
        Some(magnitude) => Some(
            if negative {
                -magnitude
            } else {
                magnitude
            },
        ),
        None => None,
    }) by {
        if !signed {
            assert(digits =~= s);
        }
    }
    let mut value: i64 = 0;
    let mut i: usize = start;
    while i < length
        invariant
            s == text@,
            start <= i <= length,
            start < length,
            length == s.len(),
            bytes@.len() == s.len(),
            forall|k: int|
                0 <= k < s.len() ==> bytes@[k] == s[k] as u8 && (s[k] as u8) as char == s[k],
            digits == s.subrange(start as int, s.len() as int),
            integer_value(s) == match natural_value(digits) {
                Some(magnitude) => Some(
                    if negative {
                        -magnitude
                    } else {
                        magnitude
                    },
                ),
                None => None,
            },
            0 <= value <= 2147483648,
            i > start ==> natural_value(digits.subrange(0, i - start)) == Some(value as int),
            i == start ==> value == 0,
        decreases length - i,
    {
        let ghost upto = digits.subrange(0, i + 1 - start);
        assert(upto.drop_last() =~= digits.subrange(0, i - start));
        assert(upto.last() == s[i as int]);
        assert(bytes@[i as int] as char == s[i as int]);
        match digit_of(bytes[i]) {
            Some(d) => {
                value = value * 10 + d as i64;
                assert(natural_value(upto) == Some(value as int));
                if value > 2147483648 {
                    proof {
                        lemma_natural_grows(digits, i + 1 - start);
                    }
                    return None;
                }
            },
            None => {
                assert(natural_value(upto) is None);
                proof {
                    lemma_natural_grows(digits, i + 1 - start);
                }
                return None;
            },
        }
        i = i + 1;
    }
    assert(digits.subrange(0, digits.len() as int) =~= digits);
    if negative {
        Some((-value) as i32)
    } else if value <= 2147483647 {
        Some(value as i32)
    } else {
        None
    }
}

/// A text with a character beyond ASCII in it is no integer.
proof fn lemma_not_ascii_is_no_integer(s: Seq<char>, i: int)
    requires
        0 <= i < s.len(),
        !('\0' <= s[i] <= '\u{7f}'),
    ensures
        integer_value(s) is None,
{
    assert(digit_value(s[i]) is None);
    assert(s[i] != '-' && s[i] != '+');
    if natural_value(s) is Some {
        lemma_natural_is_digits(s, i);
    }
    if s.len() > 0 {
        let rest = s.subrange(1, s.len() as int);
        if i > 0 && natural_value(rest) is Some {
            lemma_natural_is_digits(rest, i - 1);
        }
    }
}

/// A number that was written starts with a digit, and reads back as
/// itself.
pub proof fn lemma_natural_reads_back(n: nat)
    ensures
        natural_text(n).len() >= 1,
        digit_value(natural_text(n)[0]) is Some,
        natural_value(natural_text(n)) == Some(n as int),
    decreases n,
{
    if n >= 10 {
        lemma_natural_reads_back(n / 10);
        let high = natural_text(n / 10);
        let text = natural_text(n);
        assert(text.drop_last() =~= high);
        assert(text[0] == high[0]);
    }
}

/// An integer that was written reads back as itself.
pub proof fn lemma_decimal_reads_back(i: int)
    ensures
        integer_value(decimal_text(i)) == Some(i),
{
    if i < 0 {
        let magnitude = (-i) as nat;
        lemma_natural_reads_back(magnitude);
        let text = decimal_text(i);
        assert(text[0] == '-');
        assert(text.subrange(1, text.len() as int) =~= natural_text(magnitude));
    } else {
        lemma_natural_reads_back(i as nat);
    }
}

/// An integer of 32 bits that was written reads back as itself.
pub proof fn lemma_i32_reads_back(i: i32)
    ensures
        parsed_i32(decimal_text(i as int)) == Some(i),
{
    lemma_decimal_reads_back(i as int);
}

} // verus!
