//! The table of recorded rounds: how many columns it has, and what text
//! stands in a heading and in a cell.

use vstd::prelude::*;
use vstd::string::StringExecFns;
use crate::player::{records_of, Player, PlayerModel};

verus! {

/// The character that stands for the digit `d`.
pub open spec fn digit(d: nat) -> char {
    if d == 0 {
        '0'
    } else if d == 1 {
        '1'
    } else if d == 2 {
        '2'
    } else if d == 3 {
        '3'
    } else if d == 4 {
        '4'
    } else if d == 5 {
        '5'
    } else if d == 6 {
        '6'
    } else if d == 7 {
        '7'
    } else if d == 8 {
        '8'
    } else {
        '9'
    }
}

/// The number `n` written in decimal digits, without leading zeros.
pub open spec fn decimal(n: nat) -> Seq<char>
    decreases n,
{
    if n < 10 {
        seq![digit(n)]
    } else {
        decimal(n / 10).push(digit(n % 10))
    }
}

/// The text of the cell for a round that lasted `millis` milliseconds: whole
/// seconds, as `17s`, up to one minute, and minutes and seconds, as
/// `2m:5s`, beyond it.
pub open spec fn round_label(millis: nat) -> Seq<char> {
    let seconds = millis / 1000;
    if millis > 60_000 {
        decimal(seconds / 60) + seq!['m', ':'] + decimal(seconds % 60) + seq!['s']
    } else {
        decimal(seconds) + seq!['s']
    }
}

/// The heading of the column with index `column`: the word `Round` and the
/// column's number, counted from one.
pub open spec fn round_heading(column: nat) -> Seq<char> {
    seq!['R', 'o', 'u', 'n', 'd', ' '] + decimal(column + 1)
}

/// The number of rounds of the player who has recorded most; zero for an
/// empty roster.
pub open spec fn most_rounds(players: Seq<PlayerModel>) -> nat
    decreases players.len(),
{
    if players.len() == 0 {
        0
    } else {
        let rest = most_rounds(players.drop_last());
        if players.last().round_times.len() > rest {
            players.last().round_times.len()
        } else {
            rest
        }
    }
}

/// The text of one digit.
fn digit_text(d: u128) -> (text: &'static str)
    requires
        d < 10,
    ensures
        text@ == seq![digit(d as nat)],
{
    proof {
        reveal_strlit("0");
        reveal_strlit("1");
        reveal_strlit("2");
        reveal_strlit("3");
        reveal_strlit("4");
        reveal_strlit("5");
        reveal_strlit("6");
        reveal_strlit("7");
        reveal_strlit("8");
        reveal_strlit("9");
    }
    if d == 0 {
        "0"
    } else if d == 1 {
        "1"
    } else if d == 2 {
        "2"
    } else if d == 3 {
        "3"
    } else if d == 4 {
        "4"
    } else if d == 5 {
        "5"
    } else if d == 6 {
        "6"
    } else if d == 7 {
        "7"
    } else if d == 8 {
        "8"
    } else {
        "9"
    }
}

/// Writes `n` in decimal digits at the end of `text`.
fn push_decimal(text: &mut String, n: u128)
    ensures
        final(text)@ == old(text)@ + decimal(n as nat),
    decreases n,
{
    if n >= 10 {
        push_decimal(text, n / 10);
    }
    text.append(digit_text(n % 10));
}

/// The text of the cell for a round that lasted `millis` milliseconds.
pub fn format_round(millis: u64) -> (text: String)
    ensures
        text@ == round_label(millis as nat),
{
    let seconds: u64 = millis / 1000;
    let mut text = String::new();
    proof {
        reveal_strlit("m:");
        reveal_strlit("s");
    }
    if millis > 60_000 {
        push_decimal(&mut text, (seconds / 60) as u128);
        text.append("m:");
        push_decimal(&mut text, (seconds % 60) as u128);
        text.append("s");
    } else {
        push_decimal(&mut text, seconds as u128);
        text.append("s");
    }
    text
}

/// The heading of the column with index `column`.
pub fn format_heading(column: usize) -> (text: String)
    ensures
        text@ == round_heading(column as nat),
{
    let mut text = String::new();
    proof {
        reveal_strlit("Round ");
    }
    text.append("Round ");
    push_decimal(&mut text, column as u128 + 1);
    text
}

/// How many round columns the table of `players` needs: as many as the
/// player with the most recorded rounds has rounds.
pub fn column_count(players: &Vec<Player>) -> (columns: usize)
    ensures
        columns == most_rounds(records_of(players@)),
{
    let ghost records = records_of(players@);
    let mut columns: usize = 0;
    let mut i: usize = 0;
    while i < players.len()
        invariant
            i <= players@.len(),
            records == records_of(players@),
            columns == most_rounds(records.take(i as int)),
        decreases players@.len() - i,
    {
        let rounds = players[i].rounds();
        assert(records.take(i + 1).drop_last() =~= records.take(i as int));
        if rounds > columns {
            columns = rounds;
        }
        i += 1;
    }
    assert(records.take(i as int) =~= records);
    columns
}

/// The column count is the length of the longest history: no player has
/// recorded more rounds, and unless the roster is empty some player has
/// recorded exactly that many.
pub proof fn most_rounds_is_the_longest_history(players: Seq<PlayerModel>)
    ensures
        forall|i: int|
            0 <= i < players.len() ==> (#[trigger] players[i]).round_times.len() <= most_rounds(
                players,
            ),
        players.len() == 0 ==> most_rounds(players) == 0,
        players.len() > 0 ==> exists|i: int|
            0 <= i < players.len() && (#[trigger] players[i]).round_times.len() == most_rounds(
                players,
            ),
    decreases players.len(),
{
    if players.len() > 0 {
        let rest = players.drop_last();
        most_rounds_is_the_longest_history(rest);
        assert forall|i: int| 0 <= i < players.len() implies (
        #[trigger] players[i]).round_times.len() <= most_rounds(players) by {
            if i < rest.len() {
                assert(rest[i] == players[i]);
            }
        }
        if players.last().round_times.len() > most_rounds(rest) || rest.len() == 0 {
            assert(players[players.len() - 1].round_times.len() == most_rounds(players));
        } else {
            let i = choose|i: int|
                0 <= i < rest.len() && (#[trigger] rest[i]).round_times.len() == most_rounds(rest);
            assert(players[i].round_times.len() == most_rounds(players));
        }
    }
}

} // verus!
