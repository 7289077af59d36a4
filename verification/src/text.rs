//! Small helpers for building the texts that the library hands out.

use vstd::prelude::*;
use vstd::string::{StrSliceExecFns, StringExecFns};

verus! {

/// The character of one decimal digit.
pub open spec fn spec_digit(digit: nat) -> char {
    if digit == 0 {
        '0'
    } else if digit == 1 {
        '1'
    } else if digit == 2 {
        '2'
    } else if digit == 3 {
        '3'
    } else if digit == 4 {
        '4'
    } else if digit == 5 {
        '5'
    } else if digit == 6 {
        '6'
    } else if digit == 7 {
        '7'
    } else if digit == 8 {
        '8'
    } else {
        '9'
    }
}

/// The decimal notation of a number, without sign or leading zeros.
pub open spec fn spec_decimal(number: nat) -> Seq<char>
    decreases number,
{
    if number < 10 {
        seq![spec_digit(number)]
    } else {
        spec_decimal(number / 10).push(spec_digit(number % 10))
    }
}

/// `text` without its line feeds.
pub open spec fn spec_without_line_feeds(text: Seq<char>) -> Seq<char>
    decreases text.len(),
{
    if text.len() == 0 {
        Seq::empty()
    } else if text.last() == '\n' {
        spec_without_line_feeds(text.drop_last())
    } else {
        spec_without_line_feeds(text.drop_last()).push(text.last())
    }
}

/// Removes the line feeds from a text.
pub fn without_line_feeds(text: &str) -> (stripped: String)
    ensures
        stripped@ == spec_without_line_feeds(text@),
{
    let length = text.unicode_len();
    let mut stripped = String::new();
    let mut i: usize = 0;
    assert(text@.take(0) =~= Seq::empty());
    while i < length
        invariant
            length == text@.len(),
            i <= length,
            stripped@ == spec_without_line_feeds(text@.take(i as int)),
        decreases length - i,
    {
        let c = text.get_char(i);
        assert(text@.take(i + 1).drop_last() =~= text@.take(i as int));
        if c != '\n' {
            let ghost before = stripped@;
            stripped.append(text.substring_char(i, i + 1));
            assert(stripped@ =~= before.push(c));
        }
        i += 1;
    }
    assert(text@.take(i as int) =~= text@);
    stripped
}

fn digit(value: u64) -> (text: &'static str)
    requires
        value < 10,
    ensures
        text@ == seq![spec_digit(value as nat)],
{
    proof {
        reveal_strlit("0");
        reveal_strlit("1");
        reveal_strlit("2");
        reveal_strlit("3");
        reveal_strlit("4");
        reveal_strlit("5");
        reveal_strlit("6");
        reveal_strlit("7");
        reveal_strlit("8");
        reveal_strlit("9");
    }
    let text = if value == 0 {
        "0"
    } else if value == 1 {
        "1"
    } else if value == 2 {
        "2"
    } else if value == 3 {
        "3"
    } else if value == 4 {
        "4"
    } else if value == 5 {
        "5"
    } else if value == 6 {
        "6"
    } else if value == 7 {
        "7"
    } else if value == 8 {
        "8"
    } else {
        "9"
    };
    assert(text@ =~= seq![spec_digit(value as nat)]);
    text
}

/// Writes a number in decimal notation.
pub fn decimal(number: u64) -> (text: String)
    ensures
        text@ == spec_decimal(number as nat),
    decreases number,
{
    if number < 10 {
        String::from_str(digit(number))
    } else {
        let mut text = decimal(number / 10);
        let ghost before = text@;
        text.append(digit(number % 10));
        assert(text@ =~= before.push(spec_digit((number % 10) as nat)));
        text
    }
}

/// Appends the decimal notation of a number to a text.
pub fn append_decimal(text: &mut String, number: u64)
    ensures
        final(text)@ == old(text)@ + spec_decimal(number as nat),
{
    let digits = decimal(number);
    text.append(digits.as_str());
}

} // verus!
