//! Text of the date shown on the gameplay screen.

use vstd::prelude::*;

use crate::game::date::GameDate;

verus! {

/// The character of a decimal digit.
pub open spec fn digit_char(d: nat) -> char {
    if d == 0 {
        '0'
    } else if d == 1 {
        '1'
    } else if d == 2 {
        '2'
    } else if d == 3 {
        '3'
    } else if d == 4 {
        '4'
    } else if d == 5 {
        '5'
    } else if d == 6 {
        '6'
    } else if d == 7 {
        '7'
    } else if d == 8 {
        '8'
    } else {
        '9'
    }
}

/// The decimal digits of `n`, with leading zeros up to `width` digits; a
/// number with more digits is written in full.
pub open spec fn padded_decimal(n: nat, width: nat) -> Seq<char>
    decreases n + width,
{
    if n < 10 && width <= 1 {
        seq![digit_char(n)]
    } else {
        padded_decimal(n / 10, if width > 0 {
            (width - 1) as nat
        } else {
            0
        }).push(digit_char(n % 10))
    }
}

/// The displayed text of a date: year with at least four digits, month and
/// day with at least two, separated by slashes.
pub open spec fn date_text_spec(date: GameDate) -> Seq<char> {
    padded_decimal(date.year as nat, 4) + seq!['/'] + padded_decimal(date.month as nat, 2) + seq![
        '/',
    ] + padded_decimal(date.day as nat, 2)
}

/// Number of decimal digits of `n` written without leading zeros.
pub open spec fn num_digits(n: nat) -> nat
    decreases n,
{
    if n < 10 {
        1
    } else {
        1 + num_digits(n / 10)
    }
}

/// True if `c` is one of the characters '0' to '9'.
pub open spec fn is_digit(c: char) -> bool {
    '0' as int <= c as int <= '9' as int
}

/// The number that a sequence of decimal digit characters stands for.
pub open spec fn digits_value(s: Seq<char>) -> int
    decreases s.len(),
{
    if s.len() == 0 {
        0
    } else {
        digits_value(s.drop_last()) * 10 + (s.last() as int - '0' as int)
    }
}

/// True if `s` is the decimal text of `n` with leading zeros up to `width`
/// digits: only digits, standing for `n`, and exactly as long as the longer
/// of `width` and the number of digits of `n`.
pub open spec fn is_padded_decimal_of(s: Seq<char>, n: nat, width: nat) -> bool {
    &&& forall|i: int| 0 <= i < s.len() ==> is_digit(#[trigger] s[i])
    &&& digits_value(s) == n
    &&& s.len() == if width > num_digits(n) {
        width
    } else {
        num_digits(n)
    }
}

/// The character written for a digit `d` is the one with code '0' + `d`.
pub proof fn law_digit_char_code(d: nat)
    requires
        d < 10,
    ensures
        digit_char(d) as int == '0' as int + d,
{
}

/// `padded_decimal` writes `n` in decimal, with leading zeros up to `width`
/// digits, as `{:0>width}` does for an unsigned number.
pub proof fn law_padded_decimal_is_decimal(n: nat, width: nat)
    ensures
        is_padded_decimal_of(padded_decimal(n, width), n, width),
    decreases n + width,
{
    let s = padded_decimal(n, width);
    if n < 10 && width <= 1 {
        law_digit_char_code(n);
        assert(s.drop_last() =~= Seq::<char>::empty());
        assert(digits_value(s.drop_last()) == 0);
        assert(digits_value(s) == n);
        assert(num_digits(n) == 1);
        assert(is_digit(s[0]));
        assert(is_padded_decimal_of(s, n, width));
    } else {
        let w2: nat = if width > 0 {
            (width - 1) as nat
        } else {
            0
        };
        law_padded_decimal_is_decimal(n / 10, w2);
        law_digit_char_code(n % 10);
        let t = padded_decimal(n / 10, w2);
        assert(s == t.push(digit_char(n % 10)));
        assert(s.drop_last() =~= t);
        assert forall|i: int| 0 <= i < s.len() implies is_digit(#[trigger] s[i]) by {
            if i < t.len() {
                assert(s[i] == t[i]);
            }
        }
        assert(n == (n / 10) * 10 + n % 10);
        assert(digits_value(s) == digits_value(t) * 10 + (s.last() as int - '0' as int));
        assert(digits_value(s) == n);
        if n >= 10 {
            assert(num_digits(n) == 1 + num_digits(n / 10));
        } else {
            assert(n / 10 == 0);
            assert(num_digits(0) == 1);
            assert(num_digits(n) == 1);
        }
        assert(s.len() == t.len() + 1);
        assert(is_padded_decimal_of(s, n, width));
    }
}

/// The displayed date is the year written with at least four digits, a
/// slash, the month with at least two digits, a slash and the day with at
/// least two digits, as `{:0>4}/{:0>2}/{:0>2}` gives.
pub proof fn law_date_text_layout(date: GameDate)
    ensures
        ({
            let t = date_text_spec(date);
            let y = padded_decimal(date.year as nat, 4);
            let m = padded_decimal(date.month as nat, 2);
            let d = padded_decimal(date.day as nat, 2);
            let yl = y.len() as int;
            let ml = m.len() as int;
            &&& t.len() == y.len() + 1 + m.len() + 1 + d.len()
            &&& is_padded_decimal_of(t.subrange(0, yl), date.year as nat, 4)
            &&& t[yl] == '/'
            &&& is_padded_decimal_of(
                t.subrange(yl + 1, yl + 1 + ml),
                date.month as nat,
                2,
            )
            &&& t[yl + 1 + ml] == '/'
            &&& is_padded_decimal_of(
                t.subrange(yl + 1 + ml + 1, t.len() as int),
                date.day as nat,
                2,
            )
        }),
{
    let t = date_text_spec(date);
    let y = padded_decimal(date.year as nat, 4);
    let m = padded_decimal(date.month as nat, 2);
    let d = padded_decimal(date.day as nat, 2);
    let yl = y.len() as int;
    let ml = m.len() as int;
    law_padded_decimal_is_decimal(date.year as nat, 4);
    law_padded_decimal_is_decimal(date.month as nat, 2);
    law_padded_decimal_is_decimal(date.day as nat, 2);
    assert(t.subrange(0, yl) =~= y);
    assert(t.subrange(yl + 1, yl + 1 + ml) =~= m);
    assert(t.subrange(yl + 1 + ml + 1, t.len() as int) =~= d);
}

/// The text of one decimal digit.
fn digit_str(d: u32) -> (res: &'static str)
    requires
        d < 10,
    ensures
        res@ == seq![digit_char(d as nat)],
        res@.len() == 1,
        res@[0] as int == '0' as int + d,
{
    proof {
        reveal_strlit("0");
        reveal_strlit("1");
        reveal_strlit("2");
        reveal_strlit("3");
        reveal_strlit("4");
        reveal_strlit("5");
        reveal_strlit("6");
        reveal_strlit("7");
        reveal_strlit("8");
        reveal_strlit("9");
    }
    match d {
        0 => "0",
        1 => "1",
        2 => "2",
        3 => "3",
        4 => "4",
        5 => "5",
        6 => "6",
        7 => "7",
        8 => "8",
        _ => "9",
    }
}

/// Append the digits of `n`, padded with zeros to `width` digits.
fn push_padded_decimal(out: &mut String, n: u32, width: u32)
    ensures
        final(out)@ == old(out)@ + padded_decimal(n as nat, width as nat),
    decreases n + width,
{
    if n < 10 && width <= 1 {
        out.append(digit_str(n));
    } else {
        let next_width: u32 = if width > 0 {
            width - 1
        } else {
            0
        };
        push_padded_decimal(out, n / 10, next_width);
        out.append(digit_str(n % 10));
    }
}

/// Text of a date as shown on the gameplay screen, such as `0001/02/03`.
pub fn date_text(date: &GameDate) -> (res: String)
    ensures
        res@ == date_text_spec(*date),
{
    let mut text = String::new();
    push_padded_decimal(&mut text, date.year as u32, 4);
    text.append("/");
    push_padded_decimal(&mut text, date.month as u32, 2);
    text.append("/");
    push_padded_decimal(&mut text, date.day as u32, 2);
    proof {
        reveal_strlit("/");
    }
    text
}

} // verus!
