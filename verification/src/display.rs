//! The progress line the cart shows, written out digit by digit.
use vstd::prelude::*;

verus! {

/// The character of decimal digit `d`.
pub open spec fn digit_char(d: int) -> char {
    (d + 48) as char
}

/// `n` written in decimal, without leading zeros.
pub open spec fn decimal(n: nat) -> Seq<char>
    decreases n,
{
    if n < 10 {
        seq![digit_char(n as int)]
    } else {
        decimal(n / 10).push(digit_char((n % 10) as int))
    }
}

/// The progress line: `Note: shown/total`.
pub open spec fn progress_label(shown: nat, total: nat) -> Seq<char> {
    seq!['N', 'o', 't', 'e', ':', ' '] + decimal(shown) + seq!['/'] + decimal(total)
}

fn digit_str(d: usize) -> (s: &'static str)
    requires
        d < 10,
    ensures
        s@ == seq![digit_char(d as int)],
{
    match d {
        0 => { proof { reveal_strlit("0"); } "0" },
        1 => { proof { reveal_strlit("1"); } "1" },
        2 => { proof { reveal_strlit("2"); } "2" },
        3 => { proof { reveal_strlit("3"); } "3" },
        4 => { proof { reveal_strlit("4"); } "4" },
        5 => { proof { reveal_strlit("5"); } "5" },
        6 => { proof { reveal_strlit("6"); } "6" },
        7 => { proof { reveal_strlit("7"); } "7" },
        8 => { proof { reveal_strlit("8"); } "8" },
        _ => { proof { reveal_strlit("9"); } "9" },
    }
}

fn push_decimal(s: &mut String, n: usize)
    ensures
        final(s)@ == old(s)@ + decimal(n as nat),
    decreases n,
{
    if n >= 10 {
        push_decimal(s, n / 10);
    }
    s.append(digit_str(n % 10));
}

/// The progress line for the note at index `current_note` of a melody of
/// `total` notes: `Note: ` and the note counted from one, `/` and the total.
pub fn progress_text(current_note: usize, total: usize) -> (s: String)
    requires
        current_note < usize::MAX,
    ensures
        s@ == progress_label((current_note + 1) as nat, total as nat),
{
    let mut s = String::new();
    proof {
        reveal_strlit("Note: ");
        reveal_strlit("/");
    }
    s.append("Note: ");
    push_decimal(&mut s, current_note + 1);
    s.append("/");
    push_decimal(&mut s, total);
    s
}

} // verus!
