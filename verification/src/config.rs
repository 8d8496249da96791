//! The service's settings from its environment: the port it listens on.

use vstd::prelude::*;

use crate::decimal::{decimal_digits, decimal_text, digit_char};

verus! {

/// The port used when none is set.
pub const DEFAULT_PORT: u16 = 8080;

/// Why a setting was refused.
#[derive(PartialEq, Eq, Structural, Clone, Copy, Debug)]
pub enum ConfigError {
    /// The port setting is not a number from 0 to 65535.
    InvalidPort,
}

/// A character is a decimal digit.
pub open spec fn is_digit(c: char) -> bool {
    '0' <= c <= '9'
}

/// Every character is a decimal digit.
pub open spec fn all_digits(s: Seq<char>) -> bool {
    forall|i: int| 0 <= i < s.len() ==> is_digit(#[trigger] s[i])
}

/// The number the decimal digits `s` stand for.
pub open spec fn digits_value(s: Seq<char>) -> int
    decreases s.len(),
{
    if s.len() == 0 {
        0
    } else {
        digits_value(s.drop_last()) * 10 + (s.last() as int - 48)
    }
}

/// The digits of a port setting: what follows an optional leading `+`.
pub open spec fn port_digits(text: Seq<char>) -> Seq<char> {
    if text.len() > 0 && text[0] == '+' {
        text.drop_first()
    } else {
        text
    }
}

/// The port a setting names, as `str::parse::<u16>` reads it: an optional
/// `+` and then at least one decimal digit, of value at most 65535.
pub open spec fn port_number(text: Seq<char>) -> Option<u16> {
    let digits = port_digits(text);
    if digits.len() > 0 && all_digits(digits) && digits_value(digits) <= 65535 {
        Some(digits_value(digits) as u16)
    } else {
        None
    }
}

/// The port the service listens on: the default when the setting is absent.
pub open spec fn port_setting(value: Option<Seq<char>>) -> Result<u16, ConfigError> {
    match value {
        None => Ok(DEFAULT_PORT),
        Some(text) => match port_number(text) {
            Some(port) => Ok(port),
            None => Err(ConfigError::InvalidPort),
        },
    }
}

proof fn lemma_digits_value_nonnegative(s: Seq<char>)
    requires
        all_digits(s),
    ensures
        digits_value(s) >= 0,
    decreases s.len(),
{
    if s.len() > 0 {
        lemma_digits_value_nonnegative(s.drop_last());
    }
}

/// A prefix of digits never stands for more than the whole.
proof fn lemma_prefix_value_bounded(s: Seq<char>, k: int)
    requires
        all_digits(s),
        0 <= k <= s.len(),
    ensures
        digits_value(s.take(k)) <= digits_value(s),
    decreases s.len(),
{
    if k < s.len() {
        assert(s.drop_last().take(k) =~= s.take(k));
        lemma_prefix_value_bounded(s.drop_last(), k);
        lemma_digits_value_nonnegative(s.drop_last());
    } else {
        assert(s.take(k) =~= s);
    }
}

/// Reads a port number, as `text.parse::<u16>()` does.
pub fn parse_port(text: &str) -> (port: Option<u16>)
    ensures
        port == port_number(text@),
{
    let len = text.unicode_len();
    let mut start: usize = 0;
    if len > 0 && text.get_char(0) == '+' {
        start = 1;
    }
    let ghost digits = port_digits(text@);
    assert(digits =~= text@.skip(start as int));
    if start == len {
        return None;
    }
    let mut value: u32 = 0;
    let mut i: usize = start;
    while i < len
        invariant
            len == text@.len(),
            start <= i <= len,
            start < len,
            digits == text@.skip(start as int),
            digits == port_digits(text@),
            all_digits(digits.take(i - start)),
            value as int == digits_value(digits.take(i - start)),
            value <= 65535,
        decreases len - i,
    {
        let c = text.get_char(i);
        assert(c == digits[i - start]);
        assert(digits.take(i - start + 1).drop_last() =~= digits.take(i - start));
        if !('0' <= c && c <= '9') {
            assert(!is_digit(digits[i - start]));
            assert(!all_digits(digits));
            return None;
        }
        let d: u32 = (c as u32) - 48;
        let ghost prefix = digits.take(i - start + 1);
        assert(prefix.last() == c);
        assert(all_digits(prefix)) by {
            assert forall|k: int| 0 <= k < prefix.len() implies is_digit(#[trigger] prefix[k]) by {
                if k < prefix.len() - 1 {
                    assert(prefix[k] == digits.take(i - start)[k]);
                }
            }
        }
        value = value * 10 + d;
        assert(value as int == digits_value(prefix));
        if value > 65535 {
            proof {
                if all_digits(digits) {
                    lemma_prefix_value_bounded(digits, i - start + 1);
                }
            }
            return None;
        }
        i = i + 1;
    }
    assert(digits.take(len - start) =~= digits);
    Some(value as u16)
}

/// The port the service listens on, from its setting if one is given.
pub fn port_from_setting(value: Option<&str>) -> (port: Result<u16, ConfigError>)
    ensures
        port == port_setting(
            match value {
                Some(text) => Some(text@),
                None => None,
            },
        ),
{
    match value {
        None => Ok(DEFAULT_PORT),
        Some(text) => match parse_port(text) {
            Some(port) => Ok(port),
            None => Err(ConfigError::InvalidPort),
        },
    }
}

proof fn lemma_decimal_digits_read_back(n: nat)
    ensures
        decimal_digits(n).len() > 0,
        all_digits(decimal_digits(n)),
        digits_value(decimal_digits(n)) == n,
        decimal_digits(n)[0] != '+',
    decreases n,
{
    let s = decimal_digits(n);
    if n < 10 {
        assert(s =~= seq![digit_char(n)]);
        assert(s.drop_last() =~= Seq::<char>::empty());
        assert(digit_char(n) as int == n + 48);
        assert(digits_value(s) == digits_value(s.drop_last()) * 10 + (s.last() as int - 48));
        assert(digits_value(s) == n);
    } else {
        lemma_decimal_digits_read_back(n / 10);
        let front = decimal_digits(n / 10);
        assert(s.drop_last() =~= front);
        assert(s.last() == digit_char(n % 10));
        assert(digit_char(n % 10) as int == n % 10 + 48);
        assert(digits_value(s) == digits_value(front) * 10 + (s.last() as int - 48));
        assert(n == (n / 10) * 10 + n % 10);
        assert(digits_value(s) == n);
        assert forall|i: int| 0 <= i < s.len() implies is_digit(#[trigger] s[i]) by {
            if i < front.len() {
                assert(s[i] == front[i]);
            }
        }
        assert(s[0] == front[0]);
    }
}

/// A port written in decimal notation reads back as the same port.
pub proof fn lemma_port_text_round_trip(port: u16)
    ensures
        port_number(decimal_text(port as int)) == Some(port),
{
    lemma_decimal_digits_read_back(port as nat);
}

/// Decimal notation reads back: a non-negative integer is written as a
/// non-empty run of digits standing for it; a negative one as a minus sign
/// and then the digits of its magnitude.
pub proof fn lemma_decimal_text_reads_back(n: int)
    ensures
        n >= 0 ==> {
            &&& decimal_text(n).len() > 0
            &&& all_digits(decimal_text(n))
            &&& digits_value(decimal_text(n)) == n
        },
        n < 0 ==> {
            &&& decimal_text(n).len() > 1
            &&& decimal_text(n)[0] == '-'
            &&& all_digits(decimal_text(n).drop_first())
            &&& digits_value(decimal_text(n).drop_first()) == -n
        },
{
    if n >= 0 {
        lemma_decimal_digits_read_back(n as nat);
    } else {
        lemma_decimal_digits_read_back((-n) as nat);
        assert(decimal_text(n).drop_first() =~= decimal_digits((-n) as nat));
    }
}

/// Different integers are written differently.
pub proof fn lemma_decimal_text_injective(a: int, b: int)
    requires
        decimal_text(a) == decimal_text(b),
    ensures
        a == b,
{
    lemma_decimal_text_reads_back(a);
    lemma_decimal_text_reads_back(b);
    if a >= 0 && b < 0 {
        assert(is_digit(decimal_text(a)[0]));
    } else if a < 0 && b >= 0 {
        assert(is_digit(decimal_text(b)[0]));
    }
}

} // verus!
