//! The texts of refusals that name rounds.

use crate::types::Round;
use vstd::prelude::*;

verus! {

/// The decimal digit that stands for `d`.
pub open spec fn digit(d: nat) -> char {
    ('0' as nat + d) as char
}

/// `n` in decimal, without leading zeros.
pub open spec fn decimal(n: nat) -> Seq<char>
    decreases n,
{
    if n < 10 {
        seq![digit(n)]
    } else {
        decimal(n / 10).push(digit(n % 10))
    }
}

/// What a proposer is told whose round the validator has already voted in or
/// passed.
pub open spec fn round_not_higher(round: Round, last_voted_round: Round) -> Seq<char> {
    "Proposed round "@ + decimal(round as nat) + " is not higher than last voted round "@ + decimal(
        last_voted_round as nat,
    )
}

fn digit_text(d: u64) -> (r: &'static str)
    requires
        d < 10,
    ensures
        r@ == seq![digit(d as nat)],
{
    proof {
        reveal_strlit("0");
        reveal_strlit("1");
        reveal_strlit("2");
        reveal_strlit("3");
        reveal_strlit("4");
        reveal_strlit("5");
        reveal_strlit("6");
        reveal_strlit("7");
        reveal_strlit("8");
        reveal_strlit("9");
    }
    match d {
        0 => "0",
        1 => "1",
        2 => "2",
        3 => "3",
        4 => "4",
        5 => "5",
        6 => "6",
        7 => "7",
        8 => "8",
        _ => "9",
    }
}

fn append_decimal(text: &mut String, n: u64)
    ensures
        final(text)@ == old(text)@ + decimal(n as nat),
    decreases n,
{
    if n >= 10 {
        append_decimal(text, n / 10);
    }
    text.append(digit_text(n % 10));
    assert(text@ =~= old(text)@ + decimal(n as nat));
}

pub(crate) fn round_not_higher_text(round: Round, last_voted_round: Round) -> (r: String)
    ensures
        r@ == round_not_higher(round, last_voted_round),
{
    let mut text = "Proposed round ".to_owned();
    append_decimal(&mut text, round);
    text.append(" is not higher than last voted round ");
    append_decimal(&mut text, last_voted_round);
    text
}

} // verus!
