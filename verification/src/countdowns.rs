//! Countdowns: the date line of a countdown, when a channel's countdown
//! message is written anew, and which countdown a position names.

use vstd::prelude::*;
use vstd::string::*;

verus! {

/// The ending that the day of a month takes when it is spoken.
pub open spec fn day_suffix_of(day: u32) -> Seq<char> {
    if day == 1 || day == 21 || day == 31 {
        "st"@
    } else if day == 2 || day == 22 {
        "nd"@
    } else if day == 3 || day == 23 {
        "rd"@
    } else {
        "th"@
    }
}

/// The ending that the day of a month takes when it is spoken.
pub fn day_suffix(day: u32) -> (suffix: &'static str)
    ensures
        suffix@ == day_suffix_of(day),
{
    if day == 1 || day == 21 || day == 31 {
        "st"
    } else if day == 2 || day == 22 {
        "nd"
    } else if day == 3 || day == 23 {
        "rd"
    } else {
        "th"
    }
}

/// The date line of a countdown, from the month's name, the day and the year
/// as they are written: the month, the day with its ending, a comma, the year.
pub open spec fn date_line(month: Seq<char>, day_text: Seq<char>, day: u32, year_text: Seq<char>) -> Seq<
    char,
> {
    month + " "@ + day_text + day_suffix_of(day) + ", "@ + year_text
}

/// Formats a date for a countdown. `month` is the month's name, `day_text`
/// and `year_text` are the day and the year as they are written.
pub fn format_naive_datetime(month: &str, day_text: &str, day: u32, year_text: &str) -> (line: String)
    ensures
        line@ == date_line(month@, day_text@, day, year_text@),
{
    let mut line = month.to_owned();
    line.append(" ");
    line.append(day_text);
    line.append(day_suffix(day));
    line.append(", ");
    line.append(year_text);
    line
}

/// Seconds after which a countdown message counts as old: seven days.
pub const MESSAGE_MAX_AGE_SECONDS: i64 = 604800;

/// Messages in a channel after which an old countdown message is written anew.
pub const MESSAGES_BEFORE_REFRESH: u32 = 48;

/// What is done with a channel's countdown message.
#[derive(Clone, Copy, Debug, PartialEq, Eq, Structural)]
pub enum Refresh {
    /// No countdown is left: delete the message and forget it.
    Delete,
    /// No countdown is left and there is no message: nothing to do.
    Nothing,
    /// Send a new message in the place of the old one.
    NewMessage,
    /// Edit the message that is there.
    Edit,
}

/// Whether the number of messages since the countdown message has to be
/// found out: only for a message that is there and old.
pub open spec fn count_needed(message_age: Option<i64>) -> bool {
    message_age matches Some(age) && age >= 604800
}

/// What is done with a channel's countdown message.
///
/// `message_id` is zero where the channel has none. `message_age` is the age
/// in seconds of the message, or nothing where it could not be found.
/// `messages_since` is the number of messages after it, or nothing where it
/// could not be found out. A message is written anew where there is none,
/// where it could not be found, and where it is old and 48 or more messages
/// came after it, or their number is not known.
pub open spec fn refresh_of(
    message_id: u64,
    countdown_empty: bool,
    message_age: Option<i64>,
    messages_since: Option<u32>,
) -> Refresh {
    if countdown_empty {
        if message_id != 0 {
            Refresh::Delete
        } else {
            Refresh::Nothing
        }
    } else if message_id == 0 {
        Refresh::NewMessage
    } else {
        match message_age {
            None => Refresh::NewMessage,
            Some(age) => if age < 604800 {
                Refresh::Edit
            } else {
                match messages_since {
                    None => Refresh::NewMessage,
                    Some(count) => if count >= 48 {
                        Refresh::NewMessage
                    } else {
                        Refresh::Edit
                    },
                }
            },
        }
    }
}

/// Whether the number of messages since the countdown message has to be
/// found out.
pub fn needs_message_count(message_age: Option<i64>) -> (needed: bool)
    ensures
        needed == count_needed(message_age),
{
    match message_age {
        Some(age) => age >= MESSAGE_MAX_AGE_SECONDS,
        None => false,
    }
}

/// Updates a channel's countdown message: decides what is done with it.
pub fn update_channel_message(
    message_id: u64,
    countdown_empty: bool,
    message_age: Option<i64>,
    messages_since: Option<u32>,
) -> (refresh: Refresh)
    ensures
        refresh == refresh_of(message_id, countdown_empty, message_age, messages_since),
{
    if countdown_empty {
        if message_id != 0 {
            Refresh::Delete
        } else {
            Refresh::Nothing
        }
    } else if message_id == 0 {
        Refresh::NewMessage
    } else {
        match message_age {
            None => Refresh::NewMessage,
            Some(age) => {
                if age < MESSAGE_MAX_AGE_SECONDS {
                    Refresh::Edit
                } else {
                    match messages_since {
                        None => Refresh::NewMessage,
                        Some(count) => {
                            if count >= MESSAGES_BEFORE_REFRESH {
                                Refresh::NewMessage
                            } else {
                                Refresh::Edit
                            }
                        },
                    }
                }
            },
        }
    }
}

/// What a position in a channel's countdowns names.
#[derive(Clone, Copy, Debug, PartialEq, Eq, Structural)]
pub enum Selection {
    /// The countdown at this place of the list.
    Found(usize),
    /// The channel has no countdown.
    NoCountdown,
    /// The position is past the last countdown, which stands at `last`.
    InvalidIndex { last: usize },
}

/// Finds the countdown to delete: the one at `countdown_index` among `count`
/// countdowns.
pub fn delete(count: usize, countdown_index: u64) -> (selection: Selection)
    ensures
        selection == (if countdown_index < count {
            Selection::Found(countdown_index as usize)
        } else if count == 0 {
            Selection::NoCountdown
        } else {
            Selection::InvalidIndex { last: (count - 1) as usize }
        }),
{
    if countdown_index < count as u64 {
        Selection::Found(countdown_index as usize)
    } else if count == 0 {
        Selection::NoCountdown
    } else {
        Selection::InvalidIndex { last: count - 1 }
    }
}

} // verus!
