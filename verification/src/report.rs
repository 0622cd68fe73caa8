//! The lines a run tells the operator, beyond the per-recipient outcomes.

use vstd::prelude::*;

verus! {

/// The character for one decimal digit.
pub open spec fn digit_char(digit: nat) -> char {
    if digit == 0 {
        '0'
    } else if digit == 1 {
        '1'
    } else if digit == 2 {
        '2'
    } else if digit == 3 {
        '3'
    } else if digit == 4 {
        '4'
    } else if digit == 5 {
        '5'
    } else if digit == 6 {
        '6'
    } else if digit == 7 {
        '7'
    } else if digit == 8 {
        '8'
    } else {
        '9'
    }
}

/// A number in decimal, most significant digit first, without leading zeros.
pub open spec fn decimal(n: nat) -> Seq<char>
    decreases n,
{
    if n < 10 {
        seq![digit_char(n)]
    } else {
        decimal(n / 10).push(digit_char(n % 10))
    }
}

/// The startup line: how many recipients were loaded, and from where.
pub open spec fn loaded_report(count: nat, source: Seq<char>) -> Seq<char> {
    "Successfully loaded "@ + decimal(count) + " contacts from "@ + source + "..."@
}

fn digit_of(value: usize) -> (c: char)
    requires
        value < 10,
    ensures
        c == digit_char(value as nat),
{
    if value == 0 {
        '0'
    } else if value == 1 {
        '1'
    } else if value == 2 {
        '2'
    } else if value == 3 {
        '3'
    } else if value == 4 {
        '4'
    } else if value == 5 {
        '5'
    } else if value == 6 {
        '6'
    } else if value == 7 {
        '7'
    } else if value == 8 {
        '8'
    } else {
        '9'
    }
}

/// Appends `n` in decimal to `text`.
pub fn push_decimal(text: &mut String, n: usize)
    ensures
        final(text)@ == old(text)@ + decimal(n as nat),
    decreases n,
{
    let ghost before = text@;
    if n >= 10 {
        push_decimal(text, n / 10);
    }
    text.push(digit_of(n % 10));
    proof {
        if n >= 10 {
            assert(text@ =~= before + decimal((n / 10) as nat).push(digit_char((n % 10) as nat)));
        } else {
            assert(text@ =~= before + seq![digit_char(n as nat)]);
        }
    }
}

/// The line that tells the operator how many recipients were loaded.
pub fn loaded_line(count: usize, source: &str) -> (line: String)
    ensures
        line@ == loaded_report(count as nat, source@),
{
    let mut line = "Successfully loaded ".to_owned();
    push_decimal(&mut line, count);
    line.append(" contacts from ");
    line.append(source);
    line.append("...");
    line
}

} // verus!
