//! Numbers as text, for the diagnostics that the kernel prints.

use vstd::prelude::*;
use vstd::string::StringExecFns;

verus! {

/// The character of a decimal digit.
pub open spec fn digit_char(digit: int) -> char {
    if digit == 0 {
        '0'
    } else if digit == 1 {
        '1'
    } else if digit == 2 {
        '2'
    } else if digit == 3 {
        '3'
    } else if digit == 4 {
        '4'
    } else if digit == 5 {
        '5'
    } else if digit == 6 {
        '6'
    } else if digit == 7 {
        '7'
    } else if digit == 8 {
        '8'
    } else {
        '9'
    }
}

/// A number in decimal notation, without leading zeros.
pub open spec fn decimal(n: nat) -> Seq<char>
    decreases n,
{
    if n < 10 {
        seq![digit_char(n as int)]
    } else {
        decimal(n / 10) + seq![digit_char((n % 10) as int)]
    }
}

/// `piece` stands somewhere in `text`, in one piece.
pub open spec fn contains(text: Seq<char>, piece: Seq<char>) -> bool {
    exists|at: int|
        0 <= at && at + piece.len() <= text.len() && #[trigger] text.subrange(
            at,
            at + piece.len(),
        ) == piece
}

/// What stands between a head and a tail stands in the whole.
pub proof fn lemma_contains_middle(head: Seq<char>, piece: Seq<char>, tail: Seq<char>)
    ensures
        contains(head + piece + tail, piece),
{
    let text = head + piece + tail;
    let at = head.len() as int;
    assert(text.subrange(at, at + piece.len()) =~= piece);
}

/// What stands in a text still stands in it when the text is extended at
/// either end.
pub proof fn lemma_contains_extended(
    head: Seq<char>,
    text: Seq<char>,
    tail: Seq<char>,
    piece: Seq<char>,
)
    requires
        contains(text, piece),
    ensures
        contains(head + text + tail, piece),
{
    let at = choose|at: int|
        0 <= at && at + piece.len() <= text.len() && #[trigger] text.subrange(
            at,
            at + piece.len(),
        ) == piece;
    let whole = head + text + tail;
    let shifted = head.len() + at;
    assert(whole.subrange(shifted, shifted + piece.len()) =~= text.subrange(
        at,
        at + piece.len(),
    ));
}

/// A decimal number has at least one digit.
pub proof fn lemma_decimal_is_not_empty(n: nat)
    ensures
        decimal(n).len() >= 1,
    decreases n,
{
    if n >= 10 {
        lemma_decimal_is_not_empty(n / 10);
    }
}

/// The text of one decimal digit.
fn digit_str(digit: u64) -> (text: &'static str)
    requires
        digit < 10,
    ensures
        text@ == seq![digit_char(digit as int)],
{
    proof {
        reveal_strlit("0");
        reveal_strlit("1");
        reveal_strlit("2");
        reveal_strlit("3");
        reveal_strlit("4");
        reveal_strlit("5");
        reveal_strlit("6");
        reveal_strlit("7");
        reveal_strlit("8");
        reveal_strlit("9");
    }
    let text = match digit {
        0 => "0",
        1 => "1",
        2 => "2",
        3 => "3",
        4 => "4",
        5 => "5",
        6 => "6",
        7 => "7",
        8 => "8",
        _ => "9",
    };
    text
}

/// Appends `n` in decimal notation.
pub fn append_decimal(text: &mut String, n: u64)
    ensures
        final(text)@ == old(text)@ + decimal(n as nat),
    decreases n,
{
    if n >= 10 {
        append_decimal(text, n / 10);
    }
    text.append(digit_str(n % 10));
}

/// `n` in decimal notation.
pub fn decimal_string(n: u64) -> (text: String)
    ensures
        text@ == decimal(n as nat),
{
    let mut text = String::new();
    append_decimal(&mut text, n);
    text
}

} // verus!
