use vstd::prelude::*;
use vstd::string::StringExecFns;

verus! {

/// The character that writes the digit `digit`.
pub open spec fn digit_char(digit: nat) -> char {
    if digit == 0 {
        '0'
    } else if digit == 1 {
        '1'
    } else if digit == 2 {
        '2'
    } else if digit == 3 {
        '3'
    } else if digit == 4 {
        '4'
    } else if digit == 5 {
        '5'
    } else if digit == 6 {
        '6'
    } else if digit == 7 {
        '7'
    } else if digit == 8 {
        '8'
    } else {
        '9'
    }
}

/// `number` in decimal digits, without leading zeros.
pub open spec fn decimal(number: nat) -> Seq<char>
    decreases number,
{
    if number < 10 {
        seq![digit_char(number)]
    } else {
        decimal(number / 10).push(digit_char(number % 10))
    }
}

/// The digit that `letter` writes, where it writes one.
pub open spec fn digit_of(letter: char) -> Option<nat> {
    if letter == '0' {
        Some(0)
    } else if letter == '1' {
        Some(1)
    } else if letter == '2' {
        Some(2)
    } else if letter == '3' {
        Some(3)
    } else if letter == '4' {
        Some(4)
    } else if letter == '5' {
        Some(5)
    } else if letter == '6' {
        Some(6)
    } else if letter == '7' {
        Some(7)
    } else if letter == '8' {
        Some(8)
    } else if letter == '9' {
        Some(9)
    } else {
        None
    }
}

/// Every character of `text` is a decimal digit.
pub open spec fn all_digits(text: Seq<char>) -> bool {
    forall|at: int| 0 <= at < text.len() ==> digit_of(#[trigger] text[at]) is Some
}

/// The number that the digits of `text` write; 0 for no digits.
pub open spec fn digits_value(text: Seq<char>) -> nat
    decreases text.len(),
{
    if text.len() == 0 {
        0
    } else {
        digits_value(text.drop_last()) * 10 + digit_of(text.last()).unwrap_or(0)
    }
}

/// `text` without the plus sign that may stand before a number.
pub open spec fn unsigned_part(text: Seq<char>) -> Seq<char> {
    if text.len() > 0 && text[0] == '+' {
        text.skip(1)
    } else {
        text
    }
}

/// The number that `text` writes, where it writes one that is not above `limit`: decimal
/// digits, at least one, with at most a plus sign before them and nothing else.
pub open spec fn parsed_number(text: Seq<char>, limit: nat) -> Option<nat> {
    let digits = unsigned_part(text);
    if digits.len() > 0 && all_digits(digits) && digits_value(digits) <= limit {
        Some(digits_value(digits))
    } else {
        None
    }
}

/// The digit that `letter` writes, where it writes one.
pub fn digit(letter: char) -> (value: Option<u64>)
    ensures
        match value {
            Some(digit) => digit_of(letter) == Some(digit as nat) && digit < 10,
            None => digit_of(letter) is None,
        },
{
    if letter == '0' {
        Some(0)
    } else if letter == '1' {
        Some(1)
    } else if letter == '2' {
        Some(2)
    } else if letter == '3' {
        Some(3)
    } else if letter == '4' {
        Some(4)
    } else if letter == '5' {
        Some(5)
    } else if letter == '6' {
        Some(6)
    } else if letter == '7' {
        Some(7)
    } else if letter == '8' {
        Some(8)
    } else if letter == '9' {
        Some(9)
    } else {
        None
    }
}

/// A longer run of digits writes no smaller number.
pub proof fn lemma_digits_grow(text: Seq<char>, shorter: int)
    requires
        0 <= shorter <= text.len(),
    ensures
        digits_value(text.take(shorter)) <= digits_value(text),
    decreases text.len() - shorter,
{
    if shorter == text.len() {
        assert(text.take(shorter) =~= text);
    } else {
        lemma_digits_grow(text, shorter + 1);
        assert(text.take(shorter + 1).drop_last() =~= text.take(shorter));
    }
}

/// Reads an unsigned decimal number that is not above `limit`.
pub fn parse_number(text: &str, limit: u64) -> (number: Option<u64>)
    ensures
        match number {
            Some(value) => parsed_number(text@, limit as nat) == Some(value as nat),
            None => parsed_number(text@, limit as nat) is None,
        },
{
    let length = text.unicode_len();
    if length == 0 {
        return None;
    }
    let start: usize = if text.get_char(0) == '+' {
        1
    } else {
        0
    };
    let ghost digits = unsigned_part(text@);
    if start == length {
        return None;
    }
    let mut value: u64 = 0;
    let mut at: usize = start;
    while at < length
        invariant
            start <= at <= length,
            length == text@.len(),
            digits == text@.skip(start as int),
            digits == unsigned_part(text@),
            all_digits(digits.take(at - start)),
            value == digits_value(digits.take(at - start)),
            value <= limit,
        decreases length - at,
    {
        let letter = text.get_char(at);
        proof {
            assert(digits.take(at - start + 1).drop_last() =~= digits.take(at - start));
            assert(digits.take(at - start + 1).last() == letter);
        }
        match digit(letter) {
            None => {
                proof {
                    assert(digit_of(digits[at - start]) is None);
                }
                return None;
            },
            Some(digit) => {
                let grown = match value.checked_mul(10) {
                    Some(tens) => tens.checked_add(digit),
                    None => None,
                };
                let fits = match grown {
                    Some(next) => next <= limit,
                    None => false,
                };
                if !fits {
                    proof {
                        assert(digits_value(digits.take(at - start + 1)) == value * 10 + digit);
                        lemma_digits_grow(digits, at - start + 1);
                    }
                    return None;
                }
                proof {
                    assert forall|i: int| 0 <= i < at - start + 1 implies digit_of(
                        #[trigger] digits.take(at - start + 1)[i],
                    ) is Some by {
                        if i < at - start {
                            assert(digits.take(at - start + 1)[i] == digits.take(at - start)[i]);
                        }
                    }
                }
                value = value * 10 + digit;
                at = at + 1;
            },
        }
    }
    proof {
        assert(digits.take(at - start) =~= digits);
    }
    Some(value)
}

/// Writes `number` in decimal digits.
pub fn write_number(number: u64) -> (text: String)
    ensures
        text@ == decimal(number as nat),
    decreases number,
{
    let last = number % 10;
    let letter = if last == 0 {
        "0"
    } else if last == 1 {
        "1"
    } else if last == 2 {
        "2"
    } else if last == 3 {
        "3"
    } else if last == 4 {
        "4"
    } else if last == 5 {
        "5"
    } else if last == 6 {
        "6"
    } else if last == 7 {
        "7"
    } else if last == 8 {
        "8"
    } else {
        "9"
    };
    proof {
        reveal_strlit("0");
        reveal_strlit("1");
        reveal_strlit("2");
        reveal_strlit("3");
        reveal_strlit("4");
        reveal_strlit("5");
        reveal_strlit("6");
        reveal_strlit("7");
        reveal_strlit("8");
        reveal_strlit("9");
        assert(letter@ =~= seq![digit_char(last as nat)]);
    }
    if number < 10 {
        String::from_str(letter)
    } else {
        let mut text = write_number(number / 10);
        text.append(letter);
        proof {
            assert(text@ =~= decimal(number as nat / 10).push(digit_char(number as nat % 10)));
        }
        text
    }
}

} // verus!
