//! The game's configuration: how many players, and what they are called.

use vstd::prelude::*;
use crate::table::{decimal, digit};

verus! {

/// Why a configuration, or a change to one, is refused.
#[derive(Clone, Copy, Debug, PartialEq, Eq, Structural)]
pub enum ConfigError {
    /// The player count is below zero.
    NegativeCount,
    /// There is not exactly one name for each player.
    NameCountMismatch,
    /// A name was given for a player the configuration does not have.
    NoSuchPlayer,
    /// The text entered for the player count is not a number.
    NotANumber,
}

/// The value of the decimal digit `c`, if `c` is one of `0` to `9`.
pub open spec fn digit_value(c: char) -> Option<nat> {
    if '0' <= c && c <= '9' {
        Some((c as u32 - '0' as u32) as nat)
    } else {
        None
    }
}

/// The number that `digits` writes in decimal, if `digits` is one or more
/// of the characters `0` to `9` and nothing else. Leading zeros count for
/// nothing.
pub open spec fn digits_value(digits: Seq<char>) -> Option<nat>
    decreases digits.len(),
{
    if digits.len() == 0 {
        None
    } else if digits.len() == 1 {
        digit_value(digits[0])
    } else {
        match (digits_value(digits.drop_last()), digit_value(digits.last())) {
            (Some(tens), Some(unit)) => Some(tens * 10 + unit),
            _ => None,
        }
    }
}

/// The count that `text` denotes: an optional sign, `+` or `-`, followed
/// by decimal digits whose number, with the sign, an `i32` can hold. Any
/// other text, the empty one and a sign alone among them, denotes nothing.
pub open spec fn parsed_count(text: Seq<char>) -> Option<i32> {
    if text.len() > 0 && text[0] == '-' {
        match digits_value(text.drop_first()) {
            Some(size) => if -size >= i32::MIN {
                Some((-size) as i32)
            } else {
                None
            },
            None => None,
        }
    } else {
        match digits_value(
            if text.len() > 0 && text[0] == '+' {
                text.drop_first()
            } else {
                text
            },
        ) {
            Some(size) => if size <= i32::MAX {
                Some(size as i32)
            } else {
                None
            },
            None => None,
        }
    }
}

/// `str::parse::<i32>`, with the error dropped. The contract states what
/// the documentation of the standard library says of it: the text is read
/// as an optional sign followed by decimal digits; anything else, white
/// space included, and a number that an `i32` cannot hold are errors.
#[verifier::external_body]
fn parse_count(text: &str) -> (count: Option<i32>)
    ensures
        count == parsed_count(text@),
{
    text.parse::<i32>().ok()
}

/// The number of players and their names, in seating order.
#[derive(Debug, Clone, PartialEq, Eq)]
pub struct Config {
    pub nplayers: i32,
    pub names: Vec<String>,
}

impl Config {
    /// The count is not negative and there is one name for each player.
    pub open spec fn valid(&self) -> bool {
        &&& self.nplayers >= 0
        &&& self.names@.len() == self.nplayers
    }

    /// The names as plain text, in seating order.
    pub open spec fn names_text(&self) -> Seq<Seq<char>> {
        Seq::new(self.names@.len(), |i: int| self.names@[i]@)
    }

    /// The configuration of a game without players.
    pub fn new() -> (config: Config)
        ensures
            config.valid(),
            config.nplayers == 0,
            config.names@.len() == 0,
    {
        Config { nplayers: 0, names: Vec::new() }
    }

    /// What is wrong with this configuration, if anything is. A negative
    /// count is reported before a mismatch of the names.
    pub open spec fn verdict(&self) -> Result<(), ConfigError> {
        if self.nplayers < 0 {
            Err(ConfigError::NegativeCount)
        } else if self.names@.len() != self.nplayers {
            Err(ConfigError::NameCountMismatch)
        } else {
            Ok(())
        }
    }

    /// Accepts this configuration if it is valid, and says what is wrong
    /// with it if it is not.
    pub fn validate(&self) -> (outcome: Result<(), ConfigError>)
        ensures
            outcome == self.verdict(),
            outcome is Ok <==> self.valid(),
    {
        if self.nplayers < 0 {
            Err(ConfigError::NegativeCount)
        } else if self.names.len() != self.nplayers as usize {
            Err(ConfigError::NameCountMismatch)
        } else {
            Ok(())
        }
    }

    /// This configuration is `before` with the player count changed to
    /// `count`: it is valid, the names of the players that stay are kept,
    /// and each player that was added has an empty name.
    pub open spec fn is_resized(&self, before: &Config, count: i32) -> bool {
        &&& self.valid()
        &&& self.nplayers == count
        &&& forall|i: int|
            0 <= i < count ==> #[trigger] self.names_text()[i] == if i < before.names@.len() {
                before.names_text()[i]
            } else {
                Seq::<char>::empty()
            }
    }

    /// Changes the number of players. The names of the players that stay
    /// are kept, each player that is added gets an empty name, and the
    /// names beyond the new count are dropped. A negative count is refused
    /// and changes nothing.
    pub fn set_player_count(&mut self, count: i32) -> (outcome: Result<(), ConfigError>)
        ensures
            count < 0 ==> outcome == Err::<(), ConfigError>(ConfigError::NegativeCount)
                && *final(self) == *old(self),
            count >= 0 ==> outcome is Ok && final(self).is_resized(old(self), count),
    {
        if count < 0 {
            return Err(ConfigError::NegativeCount);
        }
        self.nplayers = count;
        self.names.resize(count as usize, String::new());
        Ok(())
    }

    /// Takes the text entered for the player count. Text that is a number
    /// changes the count to it, as `set_player_count` does; any other text
    /// is refused and changes nothing.
    pub fn enter_player_count(&mut self, text: &str) -> (outcome: Result<(), ConfigError>)
        ensures
            match parsed_count(text@) {
                None => outcome == Err::<(), ConfigError>(ConfigError::NotANumber) && *final(self)
                    == *old(self),
                Some(count) => if count < 0 {
                    outcome == Err::<(), ConfigError>(ConfigError::NegativeCount) && *final(self)
                        == *old(self)
                } else {
                    outcome is Ok && final(self).is_resized(old(self), count)
                },
            },
    {
        match parse_count(text) {
            Some(count) => self.set_player_count(count),
            None => Err(ConfigError::NotANumber),
        }
    }

    /// Gives the player at `index` a name. An index that no name belongs to
    /// is refused and changes nothing.
    pub fn set_name(&mut self, index: usize, name: String) -> (outcome: Result<(), ConfigError>)
        ensures
            index >= old(self).names@.len() ==> outcome == Err::<(), ConfigError>(
                ConfigError::NoSuchPlayer,
            ) && *final(self) == *old(self),
            index < old(self).names@.len() ==> {
                &&& outcome is Ok
                &&& final(self).nplayers == old(self).nplayers
                &&& final(self).names@ == old(self).names@.update(index as int, name)
            },
    {
        if index >= self.names.len() {
            return Err(ConfigError::NoSuchPlayer);
        }
        self.names[index] = name;
        Ok(())
    }
}

/// A number written in decimal digits is read back as that number: the
/// digits are one or more, the first is no sign, and their value is the
/// number.
pub proof fn written_digits_are_read_back(n: nat)
    ensures
        decimal(n).len() >= 1,
        digit_value(decimal(n)[0]) is Some,
        digits_value(decimal(n)) == Some(n),
    decreases n,
{
    if n >= 10 {
        written_digits_are_read_back(n / 10);
        assert(decimal(n).drop_last() =~= decimal(n / 10));
        assert(decimal(n).last() == digit(n % 10));
        assert(decimal(n)[0] == decimal(n / 10)[0]);
    }
}

/// A count that an `i32` can hold, written in decimal digits as the table
/// of rounds writes numbers, is entered as that count.
pub proof fn a_written_count_is_entered_as_written(n: nat)
    requires
        n <= i32::MAX,
    ensures
        parsed_count(decimal(n)) == Some(n as i32),
{
    written_digits_are_read_back(n);
}

} // verus!
