//! The text under which integer parameters travel to the service.

use vstd::prelude::*;

verus! {

/// The decimal digit for `d`, which is less than ten.
pub open spec fn digit(d: nat) -> Seq<char> {
    if d == 0 {
        "0"@
    } else if d == 1 {
        "1"@
    } else if d == 2 {
        "2"@
    } else if d == 3 {
        "3"@
    } else if d == 4 {
        "4"@
    } else if d == 5 {
        "5"@
    } else if d == 6 {
        "6"@
    } else if d == 7 {
        "7"@
    } else if d == 8 {
        "8"@
    } else {
        "9"@
    }
}

/// `n` in decimal, without leading zeros.
pub open spec fn decimal(n: nat) -> Seq<char>
    decreases n,
{
    if n < 10 {
        digit(n)
    } else {
        decimal(n / 10) + digit(n % 10)
    }
}

/// The text of an integer: its decimal digits, behind a minus sign where it is negative.
pub open spec fn integer_text(value: int) -> Seq<char> {
    if value < 0 {
        "-"@ + decimal((-value) as nat)
    } else {
        decimal(value as nat)
    }
}

/// The decimal digit for `d`.
fn digit_str(d: u64) -> (text: &'static str)
    requires
        d < 10,
    ensures
        text@ == digit(d as nat),
{
    match d {
        0 => "0",
        1 => "1",
        2 => "2",
        3 => "3",
        4 => "4",
        5 => "5",
        6 => "6",
        7 => "7",
        8 => "8",
        _ => "9",
    }
}

/// Appends `n` in decimal.
fn append_decimal(text: &mut String, n: u64)
    ensures
        final(text)@ == old(text)@ + decimal(n as nat),
    decreases n,
{
    if n >= 10 {
        append_decimal(text, n / 10);
    }
    text.append(digit_str(n % 10));
    proof {
        assert(text@ =~= old(text)@ + decimal(n as nat));
    }
}

/// The text under which an `INT64` parameter travels: its decimal digits.
pub fn encode_int64(value: i64) -> (text: String)
    ensures
        text@ == integer_text(value as int),
{
    let mut text = String::new();
    if value < 0 {
        text.append("-");
        append_decimal(&mut text, (-(value + 1)) as u64 + 1);
    } else {
        append_decimal(&mut text, value as u64);
    }
    proof {
        assert(text@ =~= integer_text(value as int));
    }
    text
}

/// The number that a string of decimal digits denotes.
pub open spec fn digits_value(text: Seq<char>) -> int
    decreases text.len(),
{
    if text.len() == 0 {
        0
    } else {
        10 * digits_value(text.drop_last()) + (text.last() as int - '0' as int)
    }
}

/// Whether `text` is a number in decimal digits, without leading zeros.
pub open spec fn is_decimal(text: Seq<char>) -> bool {
    &&& text.len() > 0
    &&& text[0] == '0' ==> text.len() == 1
    &&& forall|i: int| 0 <= i < text.len() ==> '0' <= #[trigger] text[i] <= '9'
}

/// A digit is one character, as far behind `0` as it is worth.
proof fn lemma_digit(d: nat)
    requires
        d < 10,
    ensures
        digit(d).len() == 1,
        digit(d)[0] as int == '0' as int + d,
{
    reveal_strlit("0");
    reveal_strlit("1");
    reveal_strlit("2");
    reveal_strlit("3");
    reveal_strlit("4");
    reveal_strlit("5");
    reveal_strlit("6");
    reveal_strlit("7");
    reveal_strlit("8");
    reveal_strlit("9");
}

/// Reading the decimal digits of a number gives the number back.
pub proof fn law_digits_read_back(n: nat)
    ensures
        is_decimal(decimal(n)),
        digits_value(decimal(n)) == n,
        n > 0 ==> decimal(n)[0] != '0',
    decreases n,
{
    let text = decimal(n);
    lemma_digit(n % 10);
    if n < 10 {
        assert(n % 10 == n);
        assert(text.drop_last() =~= Seq::empty());
        reveal_with_fuel(digits_value, 2);
    } else {
        law_digits_read_back(n / 10);
        assert(text.drop_last() =~= decimal(n / 10));
        assert(text.last() == digit(n % 10)[0]);
        assert(text[0] == decimal(n / 10)[0]);
        assert forall|i: int| 0 <= i < text.len() implies '0' <= #[trigger] text[i] <= '9' by {
            if i < text.len() - 1 {
                assert(text[i] == decimal(n / 10)[i]);
            }
        }
    }
}

/// The text of an integer is its value in decimal digits, without leading zeros, behind a minus sign
/// exactly where it is negative.
pub proof fn law_integers_read_back(value: int)
    ensures
        value >= 0 ==> is_decimal(integer_text(value)) && digits_value(integer_text(value))
            == value,
        value < 0 ==> {
            let text = integer_text(value);
            &&& text[0] == '-'
            &&& is_decimal(text.drop_first())
            &&& digits_value(text.drop_first()) == -value
        },
{
    if value < 0 {
        reveal_strlit("-");
        law_digits_read_back((-value) as nat);
        assert(integer_text(value).drop_first() =~= decimal((-value) as nat));
    } else {
        law_digits_read_back(value as nat);
    }
}

} // verus!
