//! Integers as decimal text.

use vstd::prelude::*;
use vstd::string::*;

verus! {

/// The character of the decimal digit `d`.
pub open spec fn digit_char(d: int) -> char {
    if d == 0 {
        '0'
    } else if d == 1 {
        '1'
    } else if d == 2 {
        '2'
    } else if d == 3 {
        '3'
    } else if d == 4 {
        '4'
    } else if d == 5 {
        '5'
    } else if d == 6 {
        '6'
    } else if d == 7 {
        '7'
    } else if d == 8 {
        '8'
    } else {
        '9'
    }
}

/// The decimal digits of `n`, without leading zeros.
pub open spec fn digits(n: nat) -> Seq<char>
    decreases n,
{
    if n < 10 {
        seq![digit_char(n as int)]
    } else {
        digits(n / 10) + seq![digit_char((n % 10) as int)]
    }
}

/// `n` in decimal notation, with a minus sign where it is negative.
pub open spec fn decimal(n: int) -> Seq<char> {
    if n < 0 {
        seq!['-'] + digits((-n) as nat)
    } else {
        digits(n as nat)
    }
}

/// The digits `low`, given from the least significant on, in the order in
/// which they are written.
pub open spec fn written(low: Seq<u8>) -> Seq<char> {
    Seq::new(low.len(), |i: int| digit_char(low[low.len() - 1 - i] as int))
}

/// The decimal digit `d` as text.
pub fn digit_text(d: u8) -> (text: &'static str)
    requires
        d < 10,
    ensures
        text@ == seq![digit_char(d as int)],
{
    proof {
        reveal_strlit("0");
        reveal_strlit("1");
        reveal_strlit("2");
        reveal_strlit("3");
        reveal_strlit("4");
        reveal_strlit("5");
        reveal_strlit("6");
        reveal_strlit("7");
        reveal_strlit("8");
        reveal_strlit("9");
    }
    let text = match d {
        0 => "0",
        1 => "1",
        2 => "2",
        3 => "3",
        4 => "4",
        5 => "5",
        6 => "6",
        7 => "7",
        8 => "8",
        _ => "9",
    };
    assert(text@ =~= seq![digit_char(d as int)]);
    text
}

/// `n` in decimal notation.
pub fn decimal_text(n: i32) -> (text: String)
    ensures
        text@ == decimal(n as int),
{
    let wide: i64 = n as i64;
    let magnitude: u64 = if wide < 0 {
        (-wide) as u64
    } else {
        wide as u64
    };
    let mut rest: u64 = magnitude;
    let mut low: Vec<u8> = Vec::new();
    assert(digits(rest as nat) + written(low@) =~= digits(magnitude as nat));
    while rest >= 10
        invariant
            digits(magnitude as nat) == digits(rest as nat) + written(low@),
            forall|i: int| 0 <= i < low.len() ==> low@[i] < 10,
        decreases rest,
    {
        let ghost before = low@;
        low.push((rest % 10) as u8);
        proof {
            assert(written(low@) =~= seq![digit_char((rest % 10) as int)] + written(before));
            assert(digits(rest as nat) == digits((rest / 10) as nat) + seq![
                digit_char((rest % 10) as int),
            ]);
            assert(digits((rest / 10) as nat) + written(low@) =~= digits(rest as nat) + written(
                before,
            ));
        }
        rest = rest / 10;
    }
    let mut text = String::new();
    if wide < 0 {
        proof {
            reveal_strlit("-");
        }
        text.append("-");
    }
    text.append(digit_text(rest as u8));
    let ghost head = text@;
    assert(head =~= if n < 0 {
        seq!['-'] + digits(rest as nat)
    } else {
        digits(rest as nat)
    });
    let mut i: usize = low.len();
    while i > 0
        invariant
            i <= low.len(),
            forall|j: int| 0 <= j < low.len() ==> low@[j] < 10,
            text@ == head + written(low@).take(low.len() - i),
        decreases i,
    {
        i -= 1;
        text.append(digit_text(low[i]));
        assert(text@ =~= head + written(low@).take(low.len() - i));
    }
    assert(written(low@).take(low.len() as int) =~= written(low@));
    assert(text@ =~= decimal(n as int));
    text
}

} // verus!
