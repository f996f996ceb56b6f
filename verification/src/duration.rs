//! Durations as the orchestrator's API writes them: an unsigned number of
//! seconds, or a number with a trailing unit, `s`, `m` or `h`. Reading and
//! writing work on plain text; turning the seconds into a `std::time::Duration`
//! is the caller's one remaining step.

use vstd::prelude::*;

use crate::text::{
    all_decimal_digits, decimal_digits_of, decimal_value, lemma_decimal_round_trip,
    parse_u64_decimal, u64_to_decimal,
};
use vstd::string::{StrSliceExecFns, StringExecFns};

verus! {

/// Why a duration text was rejected.
#[derive(Debug, Clone, Copy, PartialEq, Eq)]
pub enum DurationTextError {
    /// The text was empty: there is no room for digits and a unit.
    Empty,
    /// The characters before the unit are not a number: none at all, one
    /// that is no digit, or more than `u64::MAX`.
    Digits,
    /// The last character is not one of the units `s`, `m` and `h`.
    Unit,
    /// The number of seconds does not fit in 64 bits.
    Overflow,
}

/// The seconds in one unit: `s`, `m` or `h`.
pub open spec fn spec_unit_secs(c: char) -> Option<u64> {
    if c == 's' {
        Some(1u64)
    } else if c == 'm' {
        Some(60u64)
    } else if c == 'h' {
        Some(3600u64)
    } else {
        None
    }
}

/// The seconds a duration text denotes: decimal digits, then one unit
/// character. `None` when the text is not of that shape or the seconds
/// exceed `u64::MAX`.
pub open spec fn spec_duration_secs(s: Seq<char>) -> Option<u64> {
    if s.len() < 2 {
        None
    } else {
        let digits = s.drop_last();
        let unit = s.last();
        if !all_decimal_digits(digits) || decimal_value(digits) > u64::MAX {
            None
        } else {
            match spec_unit_secs(unit) {
                None => None,
                Some(f) => if decimal_value(digits) * f <= u64::MAX {
                    Some((decimal_value(digits) * f) as u64)
                } else {
                    None
                },
            }
        }
    }
}

/// The seconds in one unit character.
fn unit_secs(c: char) -> (r: Option<u64>)
    ensures
        r == spec_unit_secs(c),
{
    if c == 's' {
        Some(1)
    } else if c == 'm' {
        Some(60)
    } else if c == 'h' {
        Some(3600)
    } else {
        None
    }
}

/// Read a duration text: decimal digits and a trailing unit, `10s`, `3m` or
/// `1h`. Returns the seconds it denotes, or which part was at fault. The
/// digits are bare: a sign or whitespace is rejected with them.
pub fn parse_duration_text(s: &str) -> (r: Result<u64, DurationTextError>)
    ensures
        (match r {
            Ok(n) => spec_duration_secs(s@) == Some(n),
            Err(e) => spec_duration_secs(s@) is None && (match e {
                DurationTextError::Empty => s@.len() == 0,
                DurationTextError::Digits => s@.len() >= 1 && (!all_decimal_digits(s@.drop_last())
                    || s@.len() == 1 || decimal_value(s@.drop_last()) > u64::MAX),
                DurationTextError::Unit => s@.len() >= 2 && all_decimal_digits(s@.drop_last())
                    && decimal_value(s@.drop_last()) <= u64::MAX && spec_unit_secs(s@.last())
                    is None,
                DurationTextError::Overflow => s@.len() >= 2 && all_decimal_digits(s@.drop_last())
                    && decimal_value(s@.drop_last()) <= u64::MAX && spec_unit_secs(s@.last())
                    is Some && decimal_value(s@.drop_last()) * spec_unit_secs(s@.last())->0
                    > u64::MAX,
            }),
        }),
{
    let len = s.unicode_len();
    if len == 0 {
        return Err(DurationTextError::Empty);
    }
    let digits = s.substring_char(0, len - 1);
    let unit = s.get_char(len - 1);
    proof {
        assert(digits@ =~= s@.drop_last());
    }
    let value = match parse_u64_decimal(digits) {
        Some(v) => v,
        None => {
            return Err(DurationTextError::Digits);
        },
    };
    let factor = match unit_secs(unit) {
        Some(f) => f,
        None => {
            return Err(DurationTextError::Unit);
        },
    };
    match value.checked_mul(factor) {
        Some(secs) => Ok(secs),
        None => Err(DurationTextError::Overflow),
    }
}

/// Write a number of seconds as a duration text with the `s` unit.
pub fn duration_text_of_secs(secs: u64) -> (r: String)
    ensures
        r@ == decimal_digits_of(secs as int).push('s'),
{
    let mut text = u64_to_decimal(secs);
    proof {
        reveal_strlit("s");
        assert(text@ + "s"@ =~= decimal_digits_of(secs as int).push('s'));
    }
    text.append("s");
    text
}

/// Writing a number of seconds and reading the text back gives the same
/// number of seconds.
pub proof fn lemma_duration_text_round_trip(secs: u64)
    ensures
        spec_duration_secs(decimal_digits_of(secs as int).push('s')) == Some(secs),
{
    let digits = decimal_digits_of(secs as int);
    let whole = digits.push('s');
    lemma_decimal_round_trip(secs as int);
    assert(whole.drop_last() =~= digits);
    assert(whole.last() == 's');
}

} // verus!
