//! The time of a message, and how each of the two formats writes it.

use vstd::prelude::*;
use crate::ascii::as_bytes;
use crate::ascii::CAPITAL_T;
use crate::ascii::CAPITAL_Z;
use crate::ascii::COLON;
use crate::ascii::FULL_STOP;
use crate::ascii::HYPHEN;
use crate::ascii::SPACE;
use crate::decimal::push_zero_padded;
use crate::decimal::zero_padded;

verus! {

/// The year in which a broken-down time starts to count years.
pub const FIRST_YEAR_OF_BROKEN_DOWN_TIME: i32 = 1900;

/// How many nanoseconds a microsecond has.
pub const NANOSECONDS_IN_A_MICROSECOND: i32 = 1000;

/// A time in UTC as a clock reports it, each part by the name and the meaning that it
/// has in C: months count from 0, years from 1900, and what is below a second is in
/// nanoseconds. Nothing is known of the parts of such a time.
#[derive(Debug, Clone, Copy)]
pub struct BrokenDownTime {
    pub tm_sec: i32,
    pub tm_min: i32,
    pub tm_hour: i32,
    pub tm_mday: i32,
    pub tm_mon: i32,
    pub tm_year: i32,
    pub tm_nsec: i32,
}

/// Whether the parts are those of a time that a message can carry: a year of four
/// digits at most, a month from 1 to 12, a day from 1 to 31, an hour below 24, a minute
/// and a second below 60, and less than a million microseconds. The second is never
/// 60: a message cannot carry a leap second.
pub open spec fn is_time_of_message(
    year: int,
    month: int,
    day: int,
    hour: int,
    minute: int,
    second: int,
    microsecond: int,
) -> bool {
    &&& 0 <= year <= 9999
    &&& 1 <= month <= 12
    &&& 1 <= day <= 31
    &&& 0 <= hour <= 23
    &&& 0 <= minute <= 59
    &&& 0 <= second <= 59
    &&& 0 <= microsecond <= 999_999
}

/// The English abbreviation of a month's name, for the months 1 to 12: `Jan`, `Feb`,
/// `Mar`, `Apr`, `May`, `Jun`, `Jul`, `Aug`, `Sep`, `Oct`, `Nov` and `Dec`.
pub open spec fn month_name(month: int) -> Seq<u8> {
    if month == 1 {
        seq![0x4au8, 0x61, 0x6e]
    } else if month == 2 {
        seq![0x46u8, 0x65, 0x62]
    } else if month == 3 {
        seq![0x4du8, 0x61, 0x72]
    } else if month == 4 {
        seq![0x41u8, 0x70, 0x72]
    } else if month == 5 {
        seq![0x4du8, 0x61, 0x79]
    } else if month == 6 {
        seq![0x4au8, 0x75, 0x6e]
    } else if month == 7 {
        seq![0x4au8, 0x75, 0x6c]
    } else if month == 8 {
        seq![0x41u8, 0x75, 0x67]
    } else if month == 9 {
        seq![0x53u8, 0x65, 0x70]
    } else if month == 10 {
        seq![0x4fu8, 0x63, 0x74]
    } else if month == 11 {
        seq![0x4eu8, 0x6f, 0x76]
    } else {
        seq![0x44u8, 0x65, 0x63]
    }
}

/// The names of the months, as text.
pub proof fn lemma_month_names()
    ensures
        month_name(1) == as_bytes("Jan"@),
        month_name(2) == as_bytes("Feb"@),
        month_name(3) == as_bytes("Mar"@),
        month_name(4) == as_bytes("Apr"@),
        month_name(5) == as_bytes("May"@),
        month_name(6) == as_bytes("Jun"@),
        month_name(7) == as_bytes("Jul"@),
        month_name(8) == as_bytes("Aug"@),
        month_name(9) == as_bytes("Sep"@),
        month_name(10) == as_bytes("Oct"@),
        month_name(11) == as_bytes("Nov"@),
        month_name(12) == as_bytes("Dec"@),
{
    reveal_strlit("Jan");
    reveal_strlit("Feb");
    reveal_strlit("Mar");
    reveal_strlit("Apr");
    reveal_strlit("May");
    reveal_strlit("Jun");
    reveal_strlit("Jul");
    reveal_strlit("Aug");
    reveal_strlit("Sep");
    reveal_strlit("Oct");
    reveal_strlit("Nov");
    reveal_strlit("Dec");
}

/// `hour:minute:second`, each in two digits.
pub open spec fn time_of_day_rendering(hour: int, minute: int, second: int) -> Seq<u8> {
    zero_padded(hour as nat, 2) + seq![COLON] + zero_padded(minute as nat, 2) + seq![COLON]
        + zero_padded(second as nat, 2)
}

/// A time as the legacy format writes it: `Mon DD HH:MM:SS`.
pub open spec fn legacy_rendering(month: int, day: int, hour: int, minute: int, second: int) -> Seq<
    u8,
> {
    month_name(month) + seq![SPACE] + zero_padded(day as nat, 2) + seq![SPACE]
        + time_of_day_rendering(hour, minute, second)
}

/// A time as the structured format writes it: `YYYY-MM-DDTHH:MM:SS.ffffffZ`.
pub open spec fn structured_rendering(
    year: int,
    month: int,
    day: int,
    hour: int,
    minute: int,
    second: int,
    microsecond: int,
) -> Seq<u8> {
    zero_padded(year as nat, 4) + seq![HYPHEN] + zero_padded(month as nat, 2) + seq![HYPHEN]
        + zero_padded(day as nat, 2) + seq![CAPITAL_T] + time_of_day_rendering(hour, minute, second)
        + seq![FULL_STOP] + zero_padded(microsecond as nat, 6) + seq![CAPITAL_Z]
}

/// `now_utc` of the crate `time`: the time that it is now in UTC, by the clock of the
/// system, broken down as C breaks a time down. The parts are handed on as they come,
/// and nothing is claimed of them.
#[verifier::external_body]
fn now_utc() -> (tm: BrokenDownTime) {
    let now = time::now_utc();
    BrokenDownTime {
        tm_sec: now.tm_sec,
        tm_min: now.tm_min,
        tm_hour: now.tm_hour,
        tm_mday: now.tm_mday,
        tm_mon: now.tm_mon,
        tm_year: now.tm_year,
        tm_nsec: now.tm_nsec,
    }
}

/// The time of a message, in UTC, to the microsecond.
#[derive(Debug, Clone, Copy, PartialEq, Eq)]
pub struct Timestamp {
    year: u16,
    month: u8,
    day: u8,
    hour: u8,
    minute: u8,
    second: u8,
    microsecond: u32,
}

impl Timestamp {
    #[verifier::type_invariant]
    spec fn valid(&self) -> bool {
        is_time_of_message(
            self.year as int,
            self.month as int,
            self.day as int,
            self.hour as int,
            self.minute as int,
            self.second as int,
            self.microsecond as int,
        )
    }

    pub closed spec fn year(&self) -> int {
        self.year as int
    }

    pub closed spec fn month(&self) -> int {
        self.month as int
    }

    pub closed spec fn day(&self) -> int {
        self.day as int
    }

    pub closed spec fn hour(&self) -> int {
        self.hour as int
    }

    pub closed spec fn minute(&self) -> int {
        self.minute as int
    }

    pub closed spec fn second(&self) -> int {
        self.second as int
    }

    pub closed spec fn microsecond(&self) -> int {
        self.microsecond as int
    }

    /// Whether the parts of this time are those of a time that a message can carry.
    /// Every time that the library hands out is such a time.
    pub open spec fn is_valid(&self) -> bool {
        is_time_of_message(
            self.year(),
            self.month(),
            self.day(),
            self.hour(),
            self.minute(),
            self.second(),
            self.microsecond(),
        )
    }

    /// Whether the parts of this time are `year`, `month` and so on.
    pub open spec fn has_parts(
        &self,
        year: int,
        month: int,
        day: int,
        hour: int,
        minute: int,
        second: int,
        microsecond: int,
    ) -> bool {
        &&& self.year() == year
        &&& self.month() == month
        &&& self.day() == day
        &&& self.hour() == hour
        &&& self.minute() == minute
        &&& self.second() == second
        &&& self.microsecond() == microsecond
    }

    /// The time as the legacy format writes it.
    pub open spec fn legacy(&self) -> Seq<u8> {
        legacy_rendering(self.month(), self.day(), self.hour(), self.minute(), self.second())
    }

    /// The time as the structured format writes it.
    pub open spec fn structured(&self) -> Seq<u8> {
        structured_rendering(
            self.year(),
            self.month(),
            self.day(),
            self.hour(),
            self.minute(),
            self.second(),
            self.microsecond(),
        )
    }

    /// The time with the given parts, where they are those of a time that a message
    /// can carry. A leap second is refused.
    pub fn new(
        year: u16,
        month: u8,
        day: u8,
        hour: u8,
        minute: u8,
        second: u8,
        microsecond: u32,
    ) -> (timestamp: Option<Timestamp>)
        ensures
            timestamp is Some <==> is_time_of_message(
                year as int,
                month as int,
                day as int,
                hour as int,
                minute as int,
                second as int,
                microsecond as int,
            ),
            timestamp matches Some(t) ==> t.is_valid() && t.has_parts(
                year as int,
                month as int,
                day as int,
                hour as int,
                minute as int,
                second as int,
                microsecond as int,
            ),
    {
        if year <= 9999 && 1 <= month && month <= 12 && 1 <= day && day <= 31 && hour <= 23
            && minute <= 59 && second <= 59 && microsecond <= 999_999 {
            Some(Timestamp { year, month, day, hour, minute, second, microsecond })
        } else {
            None
        }
    }

    /// Whether a clock's time can be the time of a message: its year, counted from
    /// 1900, has at most four digits, and each other part is in the range that C gives
    /// it. The second may be 60, a leap second.
    pub open spec fn is_broken_down_time(tm: BrokenDownTime) -> bool {
        &&& 0 <= tm.tm_year + FIRST_YEAR_OF_BROKEN_DOWN_TIME <= 9999
        &&& 0 <= tm.tm_mon <= 11
        &&& 1 <= tm.tm_mday <= 31
        &&& 0 <= tm.tm_hour <= 23
        &&& 0 <= tm.tm_min <= 59
        &&& 0 <= tm.tm_sec <= 60
        &&& 0 <= tm.tm_nsec <= 999_999_999
    }

    /// The time of a message that a clock's time stands for. A leap second is written
    /// as the second before it, since a message cannot carry one; what is below a
    /// microsecond is dropped.
    pub fn from_broken_down_time(tm: &BrokenDownTime) -> (timestamp: Option<Timestamp>)
        ensures
            timestamp is Some <==> Self::is_broken_down_time(*tm),
            timestamp matches Some(t) ==> t.is_valid() && t.has_parts(
                tm.tm_year + FIRST_YEAR_OF_BROKEN_DOWN_TIME,
                tm.tm_mon + 1,
                tm.tm_mday as int,
                tm.tm_hour as int,
                tm.tm_min as int,
                if tm.tm_sec == 60 {
                    59
                } else {
                    tm.tm_sec as int
                },
                tm.tm_nsec as int / 1000,
            ),
    {
        if -FIRST_YEAR_OF_BROKEN_DOWN_TIME <= tm.tm_year && tm.tm_year <= 9999
            - FIRST_YEAR_OF_BROKEN_DOWN_TIME && 0 <= tm.tm_mon && tm.tm_mon <= 11 && 1
            <= tm.tm_mday && tm.tm_mday <= 31 && 0 <= tm.tm_hour && tm.tm_hour <= 23 && 0
            <= tm.tm_min && tm.tm_min <= 59 && 0 <= tm.tm_sec && tm.tm_sec <= 60 && 0
            <= tm.tm_nsec && tm.tm_nsec <= 999_999_999 {
            let second: i32 = if tm.tm_sec == 60 {
                59
            } else {
                tm.tm_sec
            };
            Some(
                Timestamp {
                    year: (tm.tm_year + FIRST_YEAR_OF_BROKEN_DOWN_TIME) as u16,
                    month: (tm.tm_mon + 1) as u8,
                    day: tm.tm_mday as u8,
                    hour: tm.tm_hour as u8,
                    minute: tm.tm_min as u8,
                    second: second as u8,
                    microsecond: (tm.tm_nsec / NANOSECONDS_IN_A_MICROSECOND) as u32,
                },
            )
        } else {
            None
        }
    }

    /// The time that it is now, by the clock of the system; `None` where the clock
    /// reports what cannot be the time of a message.
    pub fn now() -> (timestamp: Option<Timestamp>)
        ensures
            timestamp matches Some(t) ==> t.is_valid(),
    {
        let tm: BrokenDownTime = now_utc();
        Timestamp::from_broken_down_time(&tm)
    }

    /// Appends `hour:minute:second` to `writer`.
    fn write_time_of_day(&self, writer: &mut Vec<u8>)
        ensures
            final(writer)@ == old(writer)@ + time_of_day_rendering(
                self.hour(),
                self.minute(),
                self.second(),
            ),
    {
        push_zero_padded(writer, self.hour as u32, 2);
        writer.push(COLON);
        push_zero_padded(writer, self.minute as u32, 2);
        writer.push(COLON);
        push_zero_padded(writer, self.second as u32, 2);
    }

    /// Appends the time to `writer` as the legacy format writes it.
    pub fn write_legacy(&self, writer: &mut Vec<u8>)
        ensures
            final(writer)@ == old(writer)@ + self.legacy(),
    {
        let name: [u8; 3] = match self.month {
            1 => [0x4a, 0x61, 0x6e],
            2 => [0x46, 0x65, 0x62],
            3 => [0x4d, 0x61, 0x72],
            4 => [0x41, 0x70, 0x72],
            5 => [0x4d, 0x61, 0x79],
            6 => [0x4a, 0x75, 0x6e],
            7 => [0x4a, 0x75, 0x6c],
            8 => [0x41, 0x75, 0x67],
            9 => [0x53, 0x65, 0x70],
            10 => [0x4f, 0x63, 0x74],
            11 => [0x4e, 0x6f, 0x76],
            _ => [0x44, 0x65, 0x63],
        };
        writer.push(name[0]);
        writer.push(name[1]);
        writer.push(name[2]);
        writer.push(SPACE);
        push_zero_padded(writer, self.day as u32, 2);
        writer.push(SPACE);
        self.write_time_of_day(writer);
    }

    /// Appends the time to `writer` as the structured format writes it.
    pub fn write_structured(&self, writer: &mut Vec<u8>)
        ensures
            final(writer)@ == old(writer)@ + self.structured(),
    {
        push_zero_padded(writer, self.year as u32, 4);
        writer.push(HYPHEN);
        push_zero_padded(writer, self.month as u32, 2);
        writer.push(HYPHEN);
        push_zero_padded(writer, self.day as u32, 2);
        writer.push(CAPITAL_T);
        self.write_time_of_day(writer);
        writer.push(FULL_STOP);
        push_zero_padded(writer, self.microsecond, 6);
        writer.push(CAPITAL_Z);
    }
}

} // verus!
