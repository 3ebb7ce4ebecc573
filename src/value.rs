//! The tagged value of one column, and the calendar types it carries.

use vstd::prelude::*;

use crate::text::padded;

verus! {

/// Smallest year that a calendar date can hold.
pub const MIN_YEAR: i32 = -262143;

/// Largest year that a calendar date can hold.
pub const MAX_YEAR: i32 = 262142;

pub open spec fn is_leap_year(year: int) -> bool {
    (year % 4 == 0 && year % 100 != 0) || year % 400 == 0
}

pub open spec fn days_in_month(year: int, month: int) -> int {
    if month == 2 {
        if is_leap_year(year) {
            29
        } else {
            28
        }
    } else if month == 4 || month == 6 || month == 9 || month == 11 {
        30
    } else {
        31
    }
}

/// A proleptic Gregorian date in the supported year range.
pub open spec fn valid_date(year: int, month: int, day: int) -> bool {
    &&& MIN_YEAR <= year <= MAX_YEAR
    &&& 1 <= month <= 12
    &&& 1 <= day <= days_in_month(year, month)
}

/// A time of day; a nanosecond count of a second or more marks a leap
/// second, which only the 59th second can hold.
pub open spec fn valid_time(hour: int, minute: int, second: int, nano: int) -> bool {
    &&& 0 <= hour < 24
    &&& 0 <= minute < 60
    &&& 0 <= second < 60
    &&& 0 <= nano < 2_000_000_000
    &&& nano >= 1_000_000_000 ==> second == 59
}

/// The ISO-8601 form of a year: four digits, with a sign outside 0..=9999.
pub open spec fn year_text(year: int) -> Seq<char> {
    if 0 <= year <= 9999 {
        padded(year as nat, 4)
    } else if year < 0 {
        seq!['-'] + padded((-year) as nat, 4)
    } else {
        seq!['+'] + padded(year as nat, 4)
    }
}

/// `YYYY-MM-DD`.
pub open spec fn date_text(year: int, month: int, day: int) -> Seq<char> {
    year_text(year) + seq!['-'] + padded(month as nat, 2) + seq!['-'] + padded(day as nat, 2)
}

/// The fraction of a second: nothing, or a dot and 3, 6 or 9 digits, the
/// fewest that hold it exactly.
pub open spec fn fraction_text(nano: nat) -> Seq<char> {
    if nano == 0 {
        Seq::empty()
    } else if nano % 1_000_000 == 0 {
        seq!['.'] + padded(nano / 1_000_000, 3)
    } else if nano % 1_000 == 0 {
        seq!['.'] + padded(nano / 1_000, 6)
    } else {
        seq!['.'] + padded(nano, 9)
    }
}

/// `HH:MM:SS` and the fraction; a leap second shows as second 60.
pub open spec fn time_text(hour: int, minute: int, second: int, nano: int) -> Seq<char> {
    let leap = nano >= 1_000_000_000;
    let sec = if leap {
        second + 1
    } else {
        second
    };
    let frac = if leap {
        nano - 1_000_000_000
    } else {
        nano
    };
    padded(hour as nat, 2) + seq![':'] + padded(minute as nat, 2) + seq![':'] + padded(
        sec as nat,
        2,
    ) + fraction_text(frac as nat)
}

/// Relies on `chrono::NaiveDate::from_ymd_opt`, which accepts exactly the
/// valid dates, and on `NaiveDate`'s `Display`, which writes `%Y-%m-%d` with a
/// signed year outside 0..=9999.
#[verifier::external_body]
fn chrono_date_text(year: i32, month: u32, day: u32) -> (r: String)
    requires
        valid_date(year as int, month as int, day as int),
    ensures
        r@ == date_text(year as int, month as int, day as int),
{
    match chrono::NaiveDate::from_ymd_opt(year, month, day) {
        Some(d) => d.to_string(),
        None => String::new(),
    }
}

/// Relies on `chrono::NaiveTime::from_hms_nano_opt`, which accepts exactly the
/// valid times, and on `NaiveTime`'s `Display`, which writes `%H:%M:%S` and
/// the shortest exact fraction of 3, 6 or 9 digits.
#[verifier::external_body]
fn chrono_time_text(hour: u32, minute: u32, second: u32, nano: u32) -> (r: String)
    requires
        valid_time(hour as int, minute as int, second as int, nano as int),
    ensures
        r@ == time_text(hour as int, minute as int, second as int, nano as int),
{
    match chrono::NaiveTime::from_hms_nano_opt(hour, minute, second, nano) {
        Some(t) => t.to_string(),
        None => String::new(),
    }
}

/// A calendar date without a time zone.
#[derive(Clone, Copy, Debug, PartialEq, Eq)]
pub struct Date {
    year: i32,
    month: u32,
    day: u32,
}

impl Date {
    #[verifier::type_invariant]
    spec fn inv(self) -> bool {
        valid_date(self.year as int, self.month as int, self.day as int)
    }

    pub closed spec fn spec_year(self) -> i32 {
        self.year
    }

    pub closed spec fn spec_month(self) -> u32 {
        self.month
    }

    pub closed spec fn spec_day(self) -> u32 {
        self.day
    }

    /// The date with these fields, if it exists.
    pub fn new(year: i32, month: u32, day: u32) -> (r: Option<Date>)
        ensures
            r is Some <==> valid_date(year as int, month as int, day as int),
            r matches Some(d) ==> d.spec_year() == year && d.spec_month() == month
                && d.spec_day() == day,
    {
        if year < MIN_YEAR || year > MAX_YEAR || month < 1 || month > 12 || day < 1 {
            return None;
        }
        let last: u32 = if month == 2 {
            if (year % 4 == 0 && year % 100 != 0) || year % 400 == 0 {
                29
            } else {
                28
            }
        } else if month == 4 || month == 6 || month == 9 || month == 11 {
            30
        } else {
            31
        };
        if day > last {
            return None;
        }
        Some(Date { year, month, day })
    }

    pub fn year(&self) -> (r: i32)
        ensures
            r == self.spec_year(),
    {
        self.year
    }

    pub fn month(&self) -> (r: u32)
        ensures
            r == self.spec_month(),
    {
        self.month
    }

    pub fn day(&self) -> (r: u32)
        ensures
            r == self.spec_day(),
    {
        self.day
    }

    /// The date as `YYYY-MM-DD`.
    pub fn iso_text(&self) -> (r: String)
        ensures
            r@ == date_text(self.spec_year() as int, self.spec_month() as int, self.spec_day() as int),
    {
        proof {
            use_type_invariant(self);
        }
        chrono_date_text(self.year, self.month, self.day)
    }
}

/// A time of day without a date or a time zone.
#[derive(Clone, Copy, Debug, PartialEq, Eq)]
pub struct Time {
    hour: u32,
    minute: u32,
    second: u32,
    nano: u32,
}

impl Time {
    #[verifier::type_invariant]
    spec fn inv(self) -> bool {
        valid_time(self.hour as int, self.minute as int, self.second as int, self.nano as int)
    }

    pub closed spec fn spec_hour(self) -> u32 {
        self.hour
    }

    pub closed spec fn spec_minute(self) -> u32 {
        self.minute
    }

    pub closed spec fn spec_second(self) -> u32 {
        self.second
    }

    pub closed spec fn spec_nano(self) -> u32 {
        self.nano
    }

    /// The time with these fields, if it exists.
    pub fn new(hour: u32, minute: u32, second: u32, nano: u32) -> (r: Option<Time>)
        ensures
            r is Some <==> valid_time(hour as int, minute as int, second as int, nano as int),
            r matches Some(t) ==> t.spec_hour() == hour && t.spec_minute() == minute
                && t.spec_second() == second && t.spec_nano() == nano,
    {
        if hour >= 24 || minute >= 60 || second >= 60 || nano >= 2_000_000_000 {
            return None;
        }
        if nano >= 1_000_000_000 && second != 59 {
            return None;
        }
        Some(Time { hour, minute, second, nano })
    }

    pub fn hour(&self) -> (r: u32)
        ensures
            r == self.spec_hour(),
    {
        self.hour
    }

    pub fn minute(&self) -> (r: u32)
        ensures
            r == self.spec_minute(),
    {
        self.minute
    }

    pub fn second(&self) -> (r: u32)
        ensures
            r == self.spec_second(),
    {
        self.second
    }

    pub fn nano(&self) -> (r: u32)
        ensures
            r == self.spec_nano(),
    {
        self.nano
    }

    /// The time as `HH:MM:SS`, with a fraction when it has one.
    pub fn iso_text(&self) -> (r: String)
        ensures
            r@ == time_text(
                self.spec_hour() as int,
                self.spec_minute() as int,
                self.spec_second() as int,
                self.spec_nano() as int,
            ),
    {
        proof {
            use_type_invariant(self);
        }
        chrono_time_text(self.hour, self.minute, self.second, self.nano)
    }
}

/// One column's value after mapping: a closed set of tagged variants.
#[allow(non_camel_case_types)]
#[derive(Clone, Debug, PartialEq)]
pub enum SqlResult {
    BOOL(bool),
    String(String),
    I32(i32),
    DATE(Date),
    TIME(Time),
    /// The column held SQL `NULL`.
    Null,
    /// The column's type has no variant here.
    UnknownType,
}

/// What a `SqlResult` holds, with text as a sequence of characters.
pub enum Value {
    Boolean(bool),
    Text(Seq<char>),
    Integer(i32),
    Date(Date),
    Time(Time),
    Null,
    Unrecognized,
}

impl View for SqlResult {
    type V = Value;

    open spec fn view(&self) -> Value {
        match self {
            SqlResult::BOOL(b) => Value::Boolean(*b),
            SqlResult::String(s) => Value::Text(s@),
            SqlResult::I32(n) => Value::Integer(*n),
            SqlResult::DATE(d) => Value::Date(*d),
            SqlResult::TIME(t) => Value::Time(*t),
            SqlResult::Null => Value::Null,
            SqlResult::UnknownType => Value::Unrecognized,
        }
    }
}

/// The variant of a value, without its payload.
#[derive(Clone, Copy, Debug, PartialEq, Eq, Structural)]
pub enum Tag {
    Bool,
    String,
    I32,
    Date,
    Time,
    Null,
    UnknownType,
}

/// The typed accessors of `SqlResult`.
#[derive(Clone, Copy, Debug, PartialEq, Eq, Structural)]
pub enum Accessor {
    ToBool,
    ToString,
    ToI32,
    ToDate,
    ToTime,
}

/// A typed accessor was applied to a value of another variant.
#[derive(Clone, Copy, Debug, PartialEq, Eq, Structural)]
pub enum AccessError {
    TypeMismatch { accessor: Accessor, found: Tag },
}

pub open spec fn tag_of(v: Value) -> Tag {
    match v {
        Value::Boolean(_) => Tag::Bool,
        Value::Text(_) => Tag::String,
        Value::Integer(_) => Tag::I32,
        Value::Date(_) => Tag::Date,
        Value::Time(_) => Tag::Time,
        Value::Null => Tag::Null,
        Value::Unrecognized => Tag::UnknownType,
    }
}

pub open spec fn mismatch(accessor: Accessor, v: Value) -> AccessError {
    AccessError::TypeMismatch { accessor, found: tag_of(v) }
}

pub open spec fn bool_of(v: Value) -> Result<bool, AccessError> {
    match v {
        Value::Boolean(b) => Ok(b),
        _ => Err(mismatch(Accessor::ToBool, v)),
    }
}

/// Text, where `NULL` reads as the empty string.
pub open spec fn text_of(v: Value) -> Result<Seq<char>, AccessError> {
    match v {
        Value::Text(s) => Ok(s),
        Value::Null => Ok(Seq::empty()),
        _ => Err(mismatch(Accessor::ToString, v)),
    }
}

pub open spec fn i32_of(v: Value) -> Result<i32, AccessError> {
    match v {
        Value::Integer(n) => Ok(n),
        _ => Err(mismatch(Accessor::ToI32, v)),
    }
}

pub open spec fn date_of(v: Value) -> Result<Date, AccessError> {
    match v {
        Value::Date(d) => Ok(d),
        _ => Err(mismatch(Accessor::ToDate, v)),
    }
}

pub open spec fn time_of(v: Value) -> Result<Time, AccessError> {
    match v {
        Value::Time(t) => Ok(t),
        _ => Err(mismatch(Accessor::ToTime, v)),
    }
}

/// A `String` result seen through the view of its text.
pub open spec fn text_result_view(r: Result<String, AccessError>) -> Result<Seq<char>, AccessError> {
    match r {
        Ok(s) => Ok(s@),
        Err(e) => Err(e),
    }
}

impl SqlResult {
    /// The variant of this value.
    pub fn tag(&self) -> (r: Tag)
        ensures
            r == tag_of(self@),
    {
        match self {
            SqlResult::BOOL(_) => Tag::Bool,
            SqlResult::String(_) => Tag::String,
            SqlResult::I32(_) => Tag::I32,
            SqlResult::DATE(_) => Tag::Date,
            SqlResult::TIME(_) => Tag::Time,
            SqlResult::Null => Tag::Null,
            SqlResult::UnknownType => Tag::UnknownType,
        }
    }

    /// A copy of this value.
    pub fn copied(&self) -> (r: SqlResult)
        ensures
            r@ == self@,
    {
        match self {
            SqlResult::BOOL(b) => SqlResult::BOOL(*b),
            SqlResult::String(s) => SqlResult::String(s.clone()),
            SqlResult::I32(n) => SqlResult::I32(*n),
            SqlResult::DATE(d) => SqlResult::DATE(*d),
            SqlResult::TIME(t) => SqlResult::TIME(*t),
            SqlResult::Null => SqlResult::Null,
            SqlResult::UnknownType => SqlResult::UnknownType,
        }
    }

    fn mismatch(&self, accessor: Accessor) -> (r: AccessError)
        ensures
            r == mismatch(accessor, self@),
    {
        AccessError::TypeMismatch { accessor, found: self.tag() }
    }

    /// The integer of an `I32` value.
    pub fn to_i32(self) -> (r: Result<i32, AccessError>)
        ensures
            r == i32_of(self@),
    {
        match self {
            SqlResult::I32(val) => Ok(val),
            _ => Err(self.mismatch(Accessor::ToI32)),
        }
    }

    /// The text of a `String` value; `Null` gives the empty string.
    pub fn to_string(self) -> (r: Result<String, AccessError>)
        ensures
            text_result_view(r) == text_of(self@),
    {
        match self {
            SqlResult::String(val) => Ok(val),
            SqlResult::Null => Ok(String::new()),
            _ => Err(self.mismatch(Accessor::ToString)),
        }
    }

    /// The flag of a `BOOL` value.
    pub fn to_bool(self) -> (r: Result<bool, AccessError>)
        ensures
            r == bool_of(self@),
    {
        match self {
            SqlResult::BOOL(val) => Ok(val),
            _ => Err(self.mismatch(Accessor::ToBool)),
        }
    }

    /// The date of a `DATE` value.
    pub fn to_date(self) -> (r: Result<Date, AccessError>)
        ensures
            r == date_of(self@),
    {
        match self {
            SqlResult::DATE(val) => Ok(val),
            _ => Err(self.mismatch(Accessor::ToDate)),
        }
    }

    /// The time of day of a `TIME` value.
    pub fn to_time(self) -> (r: Result<Time, AccessError>)
        ensures
            r == time_of(self@),
    {
        match self {
            SqlResult::TIME(val) => Ok(val),
            _ => Err(self.mismatch(Accessor::ToTime)),
        }
    }
}

} // verus!
