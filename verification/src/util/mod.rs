use vstd::prelude::*;

pub mod validate;

verus! {

/// Function to check if boolean is false.
/// Used for serde 'path' attributes.
pub fn is_false(b: &bool) -> (r: bool)
    ensures
        r == !*b,
{
    !*b
}

/// How a date and time is shown in the short format.
#[derive(Debug, Clone, Copy, PartialEq, Eq, Structural)]
pub enum ShortDateTime {
    /// "hh:mm AM": the time of a moment of today.
    Time,
    /// "Mon dd": the date of a moment of this year.
    MonthDay,
    /// "Mon dd, yyyy": the date of a moment of another year.
    MonthDayYear,
}

/// Dynamic short format for a date and time, in local time: the time of day when the
/// moment is less than a day before now and on the same day of the month; otherwise the
/// month and day, with the year when it is not this year's.
pub fn short_datetime_format(days_before_now: i64, same_day: bool, same_year: bool) -> (r:
    ShortDateTime)
    ensures
        r == (if days_before_now == 0 && same_day {
            ShortDateTime::Time
        } else if same_year {
            ShortDateTime::MonthDay
        } else {
            ShortDateTime::MonthDayYear
        }),
{
    if days_before_now == 0 && same_day {
        ShortDateTime::Time
    } else if same_year {
        ShortDateTime::MonthDay
    } else {
        ShortDateTime::MonthDayYear
    }
}

} // verus!
