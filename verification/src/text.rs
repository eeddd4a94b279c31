use vstd::prelude::*;
use vstd::string::*;

verus! {

/// The character of a decimal digit.
pub open spec fn digit(d: nat) -> char {
    if d == 0 {
        '0'
    } else if d == 1 {
        '1'
    } else if d == 2 {
        '2'
    } else if d == 3 {
        '3'
    } else if d == 4 {
        '4'
    } else if d == 5 {
        '5'
    } else if d == 6 {
        '6'
    } else if d == 7 {
        '7'
    } else if d == 8 {
        '8'
    } else {
        '9'
    }
}

/// A number in decimal digits, the highest first, without leading zeros.
pub open spec fn decimal(n: nat) -> Seq<char>
    decreases n,
{
    if n < 10 {
        seq![digit(n)]
    } else {
        decimal(n / 10).push(digit(n % 10))
    }
}

/// The text of one decimal digit.
fn digit_text(d: u64) -> (text: &'static str)
    requires
        d < 10,
    ensures
        text@ == seq![digit(d as nat)],
{
    proof {
        reveal_strlit("0");
        reveal_strlit("1");
        reveal_strlit("2");
        reveal_strlit("3");
        reveal_strlit("4");
        reveal_strlit("5");
        reveal_strlit("6");
        reveal_strlit("7");
        reveal_strlit("8");
        reveal_strlit("9");
    }
    let text = if d == 0 {
        "0"
    } else if d == 1 {
        "1"
    } else if d == 2 {
        "2"
    } else if d == 3 {
        "3"
    } else if d == 4 {
        "4"
    } else if d == 5 {
        "5"
    } else if d == 6 {
        "6"
    } else if d == 7 {
        "7"
    } else if d == 8 {
        "8"
    } else {
        "9"
    };
    assert(text@ =~= seq![digit(d as nat)]);
    text
}

/// Writes a number in decimal digits behind a text.
pub fn append_decimal(text: &mut String, n: u64)
    ensures
        final(text)@ == old(text)@ + decimal(n as nat),
    decreases n,
{
    if n >= 10 {
        append_decimal(text, n / 10);
    }
    text.append(digit_text(n % 10));
    assert(text@ =~= old(text)@ + decimal(n as nat));
}

/// What is said of a block whose round is not above the last voted round.
pub open spec fn round_not_higher_text(round: u64, last_voted_round: u64) -> Seq<char> {
    "Proposed round "@ + decimal(round as nat) + " is not higher than last voted round "@ + decimal(
        last_voted_round as nat,
    )
}

/// What is said of an epoch that lies before the one that the voting state is in.
pub open spec fn stale_epoch_text(provided: u64, current: u64) -> Seq<char> {
    "Provided epoch "@ + decimal(provided as nat) + " is older than current "@ + decimal(current as nat)
        + ", likely waypoint is too old"@
}

/// The text for a block whose round is not above the last voted round.
pub fn round_not_higher(round: u64, last_voted_round: u64) -> (text: String)
    ensures
        text@ == round_not_higher_text(round, last_voted_round),
{
    let mut text = "Proposed round ".to_owned();
    append_decimal(&mut text, round);
    text.append(" is not higher than last voted round ");
    append_decimal(&mut text, last_voted_round);
    text
}

/// The text for an epoch that lies before the one that the voting state is in.
pub fn stale_epoch(provided: u64, current: u64) -> (text: String)
    ensures
        text@ == stale_epoch_text(provided, current),
{
    let mut text = "Provided epoch ".to_owned();
    append_decimal(&mut text, provided);
    text.append(" is older than current ");
    append_decimal(&mut text, current);
    text.append(", likely waypoint is too old");
    text
}

} // verus!
