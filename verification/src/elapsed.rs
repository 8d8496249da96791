//! How long ago something happened, in the words the dashboard uses.

use vstd::prelude::*;
use vstd::string::*;
use chrono::TimeDelta;

use crate::config::{all_digits, digits_value, lemma_decimal_text_reads_back};
use crate::decimal::{decimal_string, decimal_text};

verus! {

/// `chrono::TimeDelta`, carried through opaquely.
#[verifier::external_type_specification]
#[verifier::external_body]
pub struct ExTimeDelta(TimeDelta);

/// The phrase for an elapsed time of `secs` whole seconds: "Just now" at
/// zero, then seconds below a minute, whole minutes below an hour,
/// "yesterday" for a single whole day and whole days beyond.
pub open spec fn elapsed_phrase(secs: int) -> Seq<char> {
    if secs == 0 {
        "Just now"@
    } else if secs == 1 {
        "1 second ago"@
    } else if secs < 60 {
        decimal_text(secs) + " seconds ago"@
    } else if secs / 60 == 1 {
        "1 minute ago"@
    } else if secs / 60 < 60 {
        decimal_text(secs / 60) + " minutes ago"@
    } else if secs / 86400 == 1 {
        "yesterday"@
    } else {
        decimal_text(secs / 86400) + " days ago"@
    }
}

/// The whole seconds of a duration, rounded towards zero, as
/// `TimeDelta::num_seconds` gives them.
pub uninterp spec fn seconds_of(duration: TimeDelta) -> i64;

/// `TimeDelta::num_seconds`: its result is named `seconds_of` the duration;
/// how chrono rounds is not restated.
#[verifier::external_body]
fn whole_seconds(duration: &TimeDelta) -> (secs: i64)
    ensures
        secs == seconds_of(*duration),
{
    duration.num_seconds()
}

/// Describes an elapsed time given in whole seconds. A negative count (a
/// time stamp in the future) reads as seconds, like any count below a
/// minute.
pub fn describe_elapsed(secs: i64) -> (text: String)
    ensures
        text@ == elapsed_phrase(secs as int),
{
    if secs == 0 {
        String::from_str("Just now")
    } else if secs == 1 {
        String::from_str("1 second ago")
    } else if secs < 60 {
        decimal_string(secs).concat(" seconds ago")
    } else {
        let minutes = secs / 60;
        let days = secs / 86400;
        if minutes == 1 {
            String::from_str("1 minute ago")
        } else if minutes < 60 {
            decimal_string(minutes).concat(" minutes ago")
        } else if days == 1 {
            String::from_str("yesterday")
        } else {
            decimal_string(days).concat(" days ago")
        }
    }
}

/// Describes how long ago a duration reaches back, by its whole seconds
/// (`TimeDelta::num_seconds`), as `describe_elapsed` does.
pub fn format_duration(duration: &TimeDelta) -> (text: String)
    ensures
        text@ == elapsed_phrase(seconds_of(*duration) as int),
{
    let secs = whole_seconds(duration);
    describe_elapsed(secs)
}


/// The phrase at each range of elapsed seconds: the count it shows reads back
/// as the whole seconds, minutes or days elapsed.
pub proof fn lemma_elapsed_phrase_by_range(secs: int)
    ensures
        secs == 0 ==> elapsed_phrase(secs) == "Just now"@,
        secs == 1 ==> elapsed_phrase(secs) == "1 second ago"@,
        (secs < 0 || 2 <= secs < 60) ==> elapsed_phrase(secs) == decimal_text(secs)
            + " seconds ago"@,
        2 <= secs < 60 ==> all_digits(decimal_text(secs)) && digits_value(decimal_text(secs))
            == secs,
        60 <= secs < 120 ==> elapsed_phrase(secs) == "1 minute ago"@,
        120 <= secs < 3600 ==> {
            let n = decimal_text(secs / 60);
            &&& elapsed_phrase(secs) == n + " minutes ago"@
            &&& all_digits(n)
            &&& 60 * digits_value(n) <= secs < 60 * (digits_value(n) + 1)
            &&& 2 <= digits_value(n) < 60
        },
        3600 <= secs < 86400 ==> elapsed_phrase(secs) == decimal_text(0) + " days ago"@,
        86400 <= secs < 172800 ==> elapsed_phrase(secs) == "yesterday"@,
        secs >= 172800 ==> {
            let n = decimal_text(secs / 86400);
            &&& elapsed_phrase(secs) == n + " days ago"@
            &&& all_digits(n)
            &&& 86400 * digits_value(n) <= secs < 86400 * (digits_value(n) + 1)
            &&& digits_value(n) >= 2
        },
{
    if 2 <= secs < 60 {
        lemma_decimal_text_reads_back(secs);
    }
    if 120 <= secs < 3600 {
        lemma_decimal_text_reads_back(secs / 60);
    }
    if secs >= 172800 {
        lemma_decimal_text_reads_back(secs / 86400);
    }
}

} // verus!
