//! The date that a snapshot is stamped with.

use vstd::prelude::*;

verus! {

/// A calendar day: the year, the month counted from 1, and the day of the month counted
/// from 1. The library reads no clock; whoever opens a file says which day it is.
#[derive(Clone, Copy, Debug, PartialEq, Eq)]
pub struct Date {
    pub year: i32,
    pub month: u32,
    pub day: u32,
}

/// The character of the digit `d`.
pub open spec fn digit(d: nat) -> char {
    if d == 0 {
        '0'
    } else if d == 1 {
        '1'
    } else if d == 2 {
        '2'
    } else if d == 3 {
        '3'
    } else if d == 4 {
        '4'
    } else if d == 5 {
        '5'
    } else if d == 6 {
        '6'
    } else if d == 7 {
        '7'
    } else if d == 8 {
        '8'
    } else {
        '9'
    }
}

/// Whether `c` is one of the digits `0` to `9`.
pub open spec fn is_digit(c: char) -> bool {
    '0' <= c <= '9'
}

/// `n` in decimal, with zeros in front of it where it has fewer than `width` digits.
pub open spec fn decimal(n: nat, width: nat) -> Seq<char>
    decreases n, width,
{
    if n < 10 && width <= 1 {
        seq![digit(n)]
    } else {
        decimal(
            n / 10,
            if width > 0 {
                (width - 1) as nat
            } else {
                0
            },
        ).push(digit(n % 10))
    }
}

/// A year as a stamp writes it: with four digits from 0 to 9999, and outside of that
/// with its sign and four digits or more.
pub open spec fn year_text(year: int) -> Seq<char> {
    if 0 <= year <= 9999 {
        decimal(year as nat, 4)
    } else if year > 9999 {
        seq!['+'] + decimal(year as nat, 4)
    } else {
        seq!['-'] + decimal((-year) as nat, 4)
    }
}

/// The stamp of a day: year, month and day with a dash between them, month and day with
/// two digits each.
pub open spec fn date_stamp(date: Date) -> Seq<char> {
    year_text(date.year as int) + seq!['-'] + decimal(date.month as nat, 2) + seq!['-'] + decimal(
        date.day as nat,
        2,
    )
}

/// The digit `d` as text.
fn digit_str(d: u32) -> (text: &'static str)
    requires
        d < 10,
    ensures
        text@ == seq![digit(d as nat)],
{
    proof {
        reveal_strlit("0");
        reveal_strlit("1");
        reveal_strlit("2");
        reveal_strlit("3");
        reveal_strlit("4");
        reveal_strlit("5");
        reveal_strlit("6");
        reveal_strlit("7");
        reveal_strlit("8");
        reveal_strlit("9");
    }
    let text = match d {
        0 => "0",
        1 => "1",
        2 => "2",
        3 => "3",
        4 => "4",
        5 => "5",
        6 => "6",
        7 => "7",
        8 => "8",
        _ => "9",
    };
    assert(text@ =~= seq![digit(d as nat)]);
    text
}

/// `n` in decimal, with zeros in front of it where it has fewer than `width` digits.
fn decimal_string(n: u32, width: u32) -> (text: String)
    ensures
        text@ == decimal(n as nat, width as nat),
    decreases n, width,
{
    if n < 10 && width <= 1 {
        digit_str(n).to_owned()
    } else {
        let rest: u32 = if width > 0 {
            width - 1
        } else {
            0
        };
        let mut text = decimal_string(n / 10, rest);
        text.append(digit_str(n % 10));
        text
    }
}

impl Date {
    /// The stamp of this day, such as `2024-03-09`.
    pub fn stamp(&self) -> (text: String)
        ensures
            text@ == date_stamp(*self),
    {
        proof {
            reveal_strlit("+");
            reveal_strlit("-");
            reveal_strlit("");
        }
        let mut text = if self.year > 9999 {
            "+".to_owned()
        } else if self.year < 0 {
            "-".to_owned()
        } else {
            "".to_owned()
        };
        let size: u32 = if self.year >= 0 {
            self.year as u32
        } else {
            (-(self.year as i64)) as u32
        };
        text.append(decimal_string(size, 4).as_str());
        text.append("-");
        text.append(decimal_string(self.month, 2).as_str());
        text.append("-");
        text.append(decimal_string(self.day, 2).as_str());
        assert(text@ =~= date_stamp(*self));
        text
    }
}

/// The stamp of a day of a year from 0 to 9999 has ten characters: four digits of year,
/// two of month and two of day, with a dash after the year and after the month.
pub proof fn lemma_stamp_form(date: Date)
    requires
        0 <= date.year <= 9999,
        1 <= date.month <= 12,
        1 <= date.day <= 31,
    ensures
        date_stamp(date).len() == 10,
        date_stamp(date)[4] == '-',
        date_stamp(date)[7] == '-',
        forall|i: int| 0 <= i < 10 && i != 4 && i != 7 ==> is_digit(#[trigger] date_stamp(date)[i]),
{
    reveal_with_fuel(decimal, 5);
    let year = decimal(date.year as nat, 4);
    let month = decimal(date.month as nat, 2);
    let day = decimal(date.day as nat, 2);
    assert(year.len() == 4 && month.len() == 2 && day.len() == 2);
    assert(forall|d: nat| d < 10 ==> is_digit(#[trigger] digit(d)));
    assert(forall|i: int| 0 <= i < 4 ==> is_digit(#[trigger] year[i]));
    assert(forall|i: int| 0 <= i < 2 ==> is_digit(#[trigger] month[i]));
    assert(forall|i: int| 0 <= i < 2 ==> is_digit(#[trigger] day[i]));
    let stamp = date_stamp(date);
    assert forall|i: int| 0 <= i < 10 && i != 4 && i != 7 implies is_digit(#[trigger] stamp[i]) by {
        if i < 4 {
            assert(stamp[i] == year[i]);
        } else if i < 7 {
            assert(stamp[i] == month[i - 5]);
        } else {
            assert(stamp[i] == day[i - 8]);
        }
    }
}

} // verus!
