//! Decimal numbers as ASCII text, the way lengths and counts travel from
//! the client to the worker.

use vstd::prelude::*;
use vstd::string::StringExecFns;

verus! {

/// ASCII code of the digit zero.
pub const ZERO: u8 = 48;

/// ASCII code of the plus sign.
pub const PLUS: u8 = 43;

/// Whether `byte` is an ASCII digit.
pub open spec fn is_digit(byte: u8) -> bool {
    ZERO <= byte <= ZERO + 9
}

/// Whether `text` is made of ASCII digits only.
pub open spec fn all_digits(text: Seq<u8>) -> bool {
    forall|i: int| 0 <= i < text.len() ==> is_digit(#[trigger] text[i])
}

/// The digits of `n` in base ten, most significant first, without leading
/// zeros.
pub open spec fn decimal(n: nat) -> Seq<u8>
    decreases n,
{
    if n < 10 {
        seq![(ZERO + n) as u8]
    } else {
        decimal(n / 10).push((ZERO + n % 10) as u8)
    }
}

/// The number that a run of digits stands for.
pub open spec fn value(digits: Seq<u8>) -> nat
    decreases digits.len(),
{
    if digits.len() == 0 {
        0
    } else {
        (value(digits.drop_last()) * 10 + (digits.last() - ZERO)) as nat
    }
}

/// What is left of `text` once one leading plus sign, if there is one, is
/// taken off.
pub open spec fn unsigned_part(text: Seq<u8>) -> Seq<u8> {
    if text.len() > 0 && text[0] == PLUS {
        text.drop_first()
    } else {
        text
    }
}

/// The number that `text` stands for: digits, at least one, after an
/// optional plus sign, and no more than `max`. Any other text stands for
/// nothing.
pub open spec fn spec_parse_decimal(text: Seq<u8>, max: nat) -> Option<nat> {
    let digits = unsigned_part(text);
    if digits.len() > 0 && all_digits(digits) && value(digits) <= max {
        Some(value(digits))
    } else {
        None
    }
}

/// The character of a digit.
pub open spec fn digit_char(d: nat) -> char {
    if d == 0 {
        '0'
    } else if d == 1 {
        '1'
    } else if d == 2 {
        '2'
    } else if d == 3 {
        '3'
    } else if d == 4 {
        '4'
    } else if d == 5 {
        '5'
    } else if d == 6 {
        '6'
    } else if d == 7 {
        '7'
    } else if d == 8 {
        '8'
    } else {
        '9'
    }
}

/// The digits of `n` in base ten as characters, most significant first,
/// without leading zeros.
pub open spec fn decimal_text(n: nat) -> Seq<char>
    decreases n,
{
    if n < 10 {
        seq![digit_char(n)]
    } else {
        decimal_text(n / 10).push(digit_char(n % 10))
    }
}

/// The digits of a number are digits, at least one, and stand for it.
pub proof fn lemma_decimal(n: nat)
    ensures
        decimal(n).len() > 0,
        all_digits(decimal(n)),
        value(decimal(n)) == n,
        decimal(n)[0] != PLUS,
    decreases n,
{
    if n < 10 {
        let d = decimal(n);
        assert(d.drop_last() =~= Seq::<u8>::empty());
        assert(value(d.drop_last()) == 0);
    } else {
        lemma_decimal(n / 10);
        let d = decimal(n);
        assert(d.drop_last() =~= decimal(n / 10));
        assert(d[0] == decimal(n / 10)[0]);
    }
}

/// A number written in decimal is read back as itself, as long as it is
/// within the reader's range.
pub proof fn lemma_decimal_round_trip(n: nat, max: nat)
    requires
        n <= max,
    ensures
        spec_parse_decimal(decimal(n), max) == Some(n),
{
    lemma_decimal(n);
    assert(unsigned_part(decimal(n)) == decimal(n));
}

/// Longer runs of digits do not stand for smaller numbers.
pub proof fn lemma_value_grows(digits: Seq<u8>, upto: int)
    requires
        all_digits(digits),
        0 <= upto <= digits.len(),
    ensures
        value(digits.take(upto)) <= value(digits),
    decreases digits.len() - upto,
{
    if upto < digits.len() {
        lemma_value_grows(digits, upto + 1);
        assert(digits.take(upto + 1).drop_last() =~= digits.take(upto));
        assert(is_digit(digits[upto]));
    } else {
        assert(digits.take(upto) =~= digits);
    }
}

/// Writes `n` in decimal.
pub fn encode_decimal(n: usize) -> (text: Vec<u8>)
    ensures
        text@ == decimal(n as nat),
{
    let mut reversed: Vec<u8> = Vec::new();
    let mut rest: usize = n;
    while rest >= 10
        invariant
            decimal(n as nat) == decimal(rest as nat) + reversed@.reverse(),
        decreases rest,
    {
        let digit: u8 = ZERO + (rest % 10) as u8;
        proof {
            assert(decimal(rest as nat) == decimal((rest / 10) as nat).push(digit));
            assert(reversed@.push(digit).reverse() =~= seq![digit] + reversed@.reverse());
            assert(decimal((rest / 10) as nat).push(digit) + reversed@.reverse() =~= decimal(
                (rest / 10) as nat,
            ) + (seq![digit] + reversed@.reverse()));
        }
        reversed.push(digit);
        rest = rest / 10;
    }
    let mut text: Vec<u8> = Vec::new();
    text.push(ZERO + rest as u8);
    let mut i: usize = reversed.len();
    while i > 0
        invariant
            i <= reversed.len(),
            text@ == decimal(rest as nat) + reversed@.reverse().take(reversed.len() - i),
        decreases i,
    {
        i = i - 1;
        text.push(reversed[i]);
        proof {
            let r = reversed@.reverse();
            let k = reversed.len() - i;
            assert(r.take(k) =~= r.take(k - 1).push(r[k - 1]));
            assert(r[k - 1] == reversed@[i as int]);
            assert(decimal(rest as nat) + r.take(k - 1).push(r[k - 1]) =~= (decimal(rest as nat)
                + r.take(k - 1)).push(r[k - 1]));
        }
    }
    proof {
        let r = reversed@.reverse();
        assert(r.take(reversed.len() as int) =~= r);
    }
    text
}

/// Reads a number of at most `max` from `text`: ASCII digits, at least
/// one, after an optional plus sign. Leading zeros do not count. Anything
/// else in the text, or a number above `max`, gives nothing.
pub fn parse_decimal(text: &[u8], max: u64) -> (number: Option<u64>)
    ensures
        number matches Some(n) ==> spec_parse_decimal(text@, max as nat) == Some(n as nat),
        number is None ==> spec_parse_decimal(text@, max as nat) is None,
{
    let start: usize = if text.len() > 0 && text[0] == PLUS {
        1
    } else {
        0
    };
    let ghost digits = unsigned_part(text@);
    assert(digits =~= text@.subrange(start as int, text.len() as int));
    if start == text.len() {
        return None;
    }
    let mut i: usize = start;
    let mut total: u64 = 0;
    while i < text.len()
        invariant
            start <= i <= text.len(),
            digits == text@.subrange(start as int, text.len() as int),
            digits == unsigned_part(text@),
            all_digits(digits.take(i - start)),
            total == value(digits.take(i - start)),
            total <= max,
        decreases text.len() - i,
    {
        let byte: u8 = text[i];
        let ghost read = digits.take(i - start + 1);
        proof {
            assert(read.drop_last() =~= digits.take(i - start));
            assert(read.last() == byte);
        }
        if byte < ZERO || byte > ZERO + 9 {
            assert(!is_digit(digits[i - start]));
            return None;
        }
        let digit: u64 = (byte - ZERO) as u64;
        if digit > max || total > (max - digit) / 10 {
            proof {
                assert(value(read) > max);
                if all_digits(digits) {
                    lemma_value_grows(digits, i - start + 1);
                }
            }
            return None;
        }
        total = total * 10 + digit;
        i = i + 1;
        proof {
            assert forall|k: int| 0 <= k < read.len() implies is_digit(#[trigger] read[k]) by {
                if k < read.len() - 1 {
                    assert(read[k] == digits.take(i - start - 1)[k]);
                }
            }
        }
    }
    assert(digits.take(i - start) =~= digits);
    Some(total)
}

/// Reads a count of files: a decimal number of at most 65535.
pub fn parse_decimal_u16(text: &[u8]) -> (number: Option<u16>)
    ensures
        number matches Some(n) ==> spec_parse_decimal(text@, 0xffff) == Some(n as nat),
        number is None ==> spec_parse_decimal(text@, 0xffff) is None,
{
    match parse_decimal(text, 0xffff) {
        Some(n) => Some(n as u16),
        None => None,
    }
}

/// Reads a length in bytes: a decimal number that fits the machine's
/// word.
pub fn parse_decimal_usize(text: &[u8]) -> (number: Option<usize>)
    ensures
        number matches Some(n) ==> spec_parse_decimal(text@, usize::MAX as nat) == Some(n as nat),
        number is None ==> spec_parse_decimal(text@, usize::MAX as nat) is None,
{
    match parse_decimal(text, usize::MAX as u64) {
        Some(n) => Some(n as usize),
        None => None,
    }
}

fn digit_text(d: usize) -> (text: &'static str)
    requires
        d < 10,
    ensures
        text@ == seq![digit_char(d as nat)],
{
    proof {
        reveal_strlit("0");
        reveal_strlit("1");
        reveal_strlit("2");
        reveal_strlit("3");
        reveal_strlit("4");
        reveal_strlit("5");
        reveal_strlit("6");
        reveal_strlit("7");
        reveal_strlit("8");
        reveal_strlit("9");
    }
    let text = if d == 0 {
        "0"
    } else if d == 1 {
        "1"
    } else if d == 2 {
        "2"
    } else if d == 3 {
        "3"
    } else if d == 4 {
        "4"
    } else if d == 5 {
        "5"
    } else if d == 6 {
        "6"
    } else if d == 7 {
        "7"
    } else if d == 8 {
        "8"
    } else {
        "9"
    };
    assert(text@ =~= seq![digit_char(d as nat)]);
    text
}

/// Writes `n` in decimal, as text.
pub fn decimal_string(n: usize) -> (text: String)
    ensures
        text@ == decimal_text(n as nat),
    decreases n,
{
    if n < 10 {
        String::from_str(digit_text(n))
    } else {
        let mut text = decimal_string(n / 10);
        text.append(digit_text(n % 10));
        assert(text@ =~= decimal_text((n / 10) as nat).push(digit_char((n % 10) as nat)));
        text
    }
}

} // verus!
