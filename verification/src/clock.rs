//! Calendar days and moments of local time, as the `chrono` crate has them.
use crate::value::Value;
use vstd::prelude::*;

verus! {

/// The first and last calendar day, counted from the day before 0001-01-01.
pub const MIN_DAY: i32 = -95746129;

pub const MAX_DAY: i32 = 95745399;

/// 1970-01-01.
pub const EPOCH_DAY: i32 = 719163;

pub const DAY_SECONDS: u32 = 86400;

/// A calendar day.
#[derive(Clone, Copy, Debug, PartialEq, Eq, Structural)]
pub struct Day {
    number: i32,
}

/// A moment of local time: a day, the second of the day, and the nanosecond,
/// which exceeds a second within a leap second.
#[derive(Clone, Copy, Debug, PartialEq, Eq, Structural)]
pub struct Moment {
    day: i32,
    second: u32,
    nano: u32,
}

pub open spec fn day_in_range(n: int) -> bool {
    MIN_DAY <= n <= MAX_DAY
}

pub open spec fn moment_in_range(day: int, second: int, nano: int) -> bool {
    &&& day_in_range(day)
    &&& 0 <= second < DAY_SECONDS
    &&& 0 <= nano < 2_000_000_000
    &&& nano >= 1_000_000_000 ==> second % 60 == 59
}

impl Day {
    #[verifier::type_invariant]
    spec fn inv(self) -> bool {
        day_in_range(self.number as int)
    }

    pub closed spec fn n(self) -> int {
        self.number as int
    }

    /// The day with a number.
    pub closed spec fn of(n: int) -> Day {
        Day { number: n as i32 }
    }

    /// The day with a number, where there is one.
    pub fn from_number(number: i32) -> (r: Option<Day>)
        ensures
            match r {
                Some(d) => day_in_range(number as int) && d.n() == number && d == Day::of(
                    number as int,
                ),
                None => !day_in_range(number as int),
            },
    {
        if number >= MIN_DAY && number <= MAX_DAY {
            Some(Day { number })
        } else {
            None
        }
    }

    pub fn number(&self) -> (r: i32)
        ensures
            r == self.n(),
            day_in_range(r as int),
    {
        proof {
            use_type_invariant(self);
        }
        self.number
    }

    /// Whether this day comes before the other.
    pub fn before(&self, other: &Day) -> (r: bool)
        ensures
            r == (self.n() < other.n()),
    {
        self.number < other.number
    }
}

impl DeepView for Day {
    type V = Day;

    open spec fn deep_view(&self) -> Day {
        *self
    }
}

impl View for Day {
    type V = Day;

    open spec fn view(&self) -> Day {
        *self
    }
}

impl Value for Day {
    fn dup(&self) -> (r: Self) {
        *self
    }

    fn same(&self, other: &Self) -> (r: bool) {
        self.number == other.number
    }
}

impl Moment {
    #[verifier::type_invariant]
    spec fn inv(self) -> bool {
        moment_in_range(self.day as int, self.second as int, self.nano as int)
    }

    pub closed spec fn d(self) -> int {
        self.day as int
    }

    pub closed spec fn s(self) -> int {
        self.second as int
    }

    pub closed spec fn n(self) -> int {
        self.nano as int
    }

    /// The moment with the given parts.
    pub closed spec fn of(day: int, second: int, nano: int) -> Moment {
        Moment { day: day as i32, second: second as u32, nano: nano as u32 }
    }

    pub open spec fn valid(self) -> bool {
        moment_in_range(self.d(), self.s(), self.n())
    }

    /// The position in time, leap seconds within their minute's last second.
    pub open spec fn position(self) -> int {
        (self.d() * DAY_SECONDS + self.s()) * 2_000_000_000 + self.n()
    }

    /// The moment with the given parts, where there is one.
    pub fn from_parts(day: i32, second: u32, nano: u32) -> (r: Option<Moment>)
        ensures
            match r {
                Some(m) => moment_in_range(day as int, second as int, nano as int) && m.d() == day
                    && m.s() == second && m.n() == nano && m == Moment::of(
                    day as int,
                    second as int,
                    nano as int,
                ),
                None => !moment_in_range(day as int, second as int, nano as int),
            },
    {
        if day >= MIN_DAY && day <= MAX_DAY && second < DAY_SECONDS && nano < 2_000_000_000 && (nano
            < 1_000_000_000 || second % 60 == 59) {
            Some(Moment { day, second, nano })
        } else {
            None
        }
    }

    pub fn day(&self) -> (r: Day)
        ensures
            r.n() == self.d(),
            r == Day::of(self.d()),
    {
        proof {
            use_type_invariant(self);
        }
        Day { number: self.day }
    }

    pub fn day_number(&self) -> (r: i32)
        ensures
            r == self.d(),
            day_in_range(r as int),
    {
        proof {
            use_type_invariant(self);
        }
        self.day
    }

    /// The second of the day.
    pub fn second(&self) -> (r: u32)
        ensures
            r == self.s(),
            r < DAY_SECONDS,
    {
        proof {
            use_type_invariant(self);
        }
        self.second
    }

    pub fn nano(&self) -> (r: u32)
        ensures
            r == self.n(),
            r < 2_000_000_000,
    {
        proof {
            use_type_invariant(self);
        }
        self.nano
    }

    /// Whether this moment comes before the other.
    pub fn before(&self, other: &Moment) -> (r: bool)
        ensures
            r == (self.position() < other.position()),
    {
        proof {
            use_type_invariant(self);
            use_type_invariant(other);
        }
        self.day < other.day || (self.day == other.day && (self.second < other.second || (
        self.second == other.second && self.nano < other.nano)))
    }

    /// The number of the weekday: Monday is 1 and Sunday 7.
    pub fn weekday(&self) -> (r: u32)
        ensures
            r == weekday_number(self.d()),
            1 <= r <= 7,
    {
        proof {
            use_type_invariant(self);
        }
        // The shift by a multiple of seven makes the day number positive.
        let shifted: u32 = (self.day as i64 + 95746132) as u32;
        let r: u32 = shifted % 7 + 1;
        assert((self.d() + 95746132) % 7 == (self.d() - 1) % 7);
        r
    }

    /// The nanoseconds from `earlier` to this moment; a leap second between them
    /// on one day is counted.
    pub fn since(&self, earlier: &Moment) -> (r: i128)
        ensures
            r == nanos_between(*earlier, *self),
    {
        proof {
            use_type_invariant(self);
            use_type_invariant(earlier);
        }
        let mut seconds: i128 = (self.day as i128 - earlier.day as i128) * 86400 + (
        self.second as i128 - earlier.second as i128);
        if self.second > earlier.second && earlier.nano >= 1_000_000_000 {
            seconds = seconds + 1;
        } else if self.second < earlier.second && self.nano >= 1_000_000_000 {
            seconds = seconds - 1;
        }
        seconds * 1_000_000_000 + (self.nano as i128 - earlier.nano as i128)
    }
}

/// The nanoseconds between two moments. A leap second between them is counted
/// by the order of their times of day.
pub open spec fn nanos_between(earlier: Moment, later: Moment) -> int {
    let leap = if later.s() > earlier.s() && earlier.n() >= 1_000_000_000 {
        1int
    } else if later.s() < earlier.s() && later.n() >= 1_000_000_000 {
        -1int
    } else {
        0int
    };
    ((later.d() - earlier.d()) * DAY_SECONDS + (later.s() - earlier.s()) + leap) * 1_000_000_000 + (
    later.n() - earlier.n())
}

/// The number of the weekday of a day: 0001-01-01 was a Monday.
pub open spec fn weekday_number(day: int) -> int {
    (day - 1) % 7 + 1
}

/// A moment is known by its parts.
pub proof fn lemma_moment_known(a: Moment, b: Moment)
    requires
        a.d() == b.d(),
        a.s() == b.s(),
        a.n() == b.n(),
    ensures
        a == b,
{
}

/// A moment has the parts that it is made of.
pub proof fn lemma_moment_parts(day: int, second: int, nano: int)
    requires
        moment_in_range(day, second, nano),
    ensures
        Moment::of(day, second, nano).d() == day,
        Moment::of(day, second, nano).s() == second,
        Moment::of(day, second, nano).n() == nano,
        Moment::of(day, second, nano).valid(),
{
}

/// Moments are equal exactly where neither comes before the other.
pub proof fn law_moments_are_ordered(a: Moment, b: Moment)
    requires
        a.valid(),
        b.valid(),
    ensures
        a == b <==> a.position() == b.position(),
{
    if a.position() == b.position() {
        let x = a.d() * DAY_SECONDS + a.s();
        let y = b.d() * DAY_SECONDS + b.s();
        assert(x == y);
        lemma_moment_known(a, b);
    }
}

impl DeepView for Moment {
    type V = Moment;

    open spec fn deep_view(&self) -> Moment {
        *self
    }
}

impl View for Moment {
    type V = Moment;

    open spec fn view(&self) -> Moment {
        *self
    }
}

impl Value for Moment {
    fn dup(&self) -> (r: Self) {
        *self
    }

    fn same(&self, other: &Self) -> (r: bool) {
        self.day == other.day && self.second == other.second && self.nano == other.nano
    }
}

/// How `chrono` writes a moment: the day and the time of day with a space
/// between them.
pub uninterp spec fn moment_text(day: int, second: int, nano: int) -> Seq<char>;

/// How `chrono` writes a moment by the format of year, month, day, hour, minute
/// and second, without the part of the second.
pub uninterp spec fn stamp_text(day: int, second: int, nano: int) -> Seq<char>;

/// How `chrono` writes a moment for serialization: the day and the time of day
/// with a `T` between them.
pub uninterp spec fn iso_text(day: int, second: int, nano: int) -> Seq<char>;

/// How `chrono` writes a day.
pub uninterp spec fn day_text(day: int) -> Seq<char>;

/// What `chrono` reads as a UTC moment from a text by RFC 3339.
pub uninterp spec fn read_instant(text: Seq<char>) -> Option<(int, int, int)>;

/// What `chrono` reads as a moment from a text by a format.
pub uninterp spec fn read_moment(text: Seq<char>, format: Seq<char>) -> Option<(int, int, int)>;

/// What `chrono` reads as a day from a text by a format.
pub uninterp spec fn read_day(text: Seq<char>, format: Seq<char>) -> Option<int>;

/// What `chrono` reads as a time of day from a text by a format.
pub uninterp spec fn read_time(text: Seq<char>, format: Seq<char>) -> Option<(int, int)>;

/// `Display` of `chrono::NaiveDateTime`: a text of the parts alone.
#[verifier::external_body]
fn outside_moment_text(day: i32, second: u32, nano: u32) -> (r: String)
    requires
        moment_in_range(day as int, second as int, nano as int),
    ensures
        r@ == moment_text(day as int, second as int, nano as int),
{
    let date = chrono::NaiveDate::from_num_days_from_ce_opt(day).unwrap();
    let time = chrono::NaiveTime::from_num_seconds_from_midnight_opt(second, nano).unwrap();
    chrono::NaiveDateTime::new(date, time).to_string()
}

/// `Debug` of `chrono::NaiveDateTime`, which its serialization writes: a text of
/// the parts alone.
#[verifier::external_body]
fn outside_iso_text(day: i32, second: u32, nano: u32) -> (r: String)
    requires
        moment_in_range(day as int, second as int, nano as int),
    ensures
        r@ == iso_text(day as int, second as int, nano as int),
{
    let date = chrono::NaiveDate::from_num_days_from_ce_opt(day).unwrap();
    let time = chrono::NaiveTime::from_num_seconds_from_midnight_opt(second, nano).unwrap();
    format!("{:?}", chrono::NaiveDateTime::new(date, time))
}

/// `Display` of `chrono::NaiveDate`: a text of the day alone.
#[verifier::external_body]
fn outside_day_text(day: i32) -> (r: String)
    requires
        day_in_range(day as int),
    ensures
        r@ == day_text(day as int),
{
    chrono::NaiveDate::from_num_days_from_ce_opt(day).unwrap().to_string()
}

/// `chrono::DateTime::parse_from_rfc3339`: the parts of the UTC moment that it
/// reads, or nothing.
#[verifier::external_body]
fn outside_read_instant(text: &str) -> (r: Option<(i32, u32, u32)>)
    ensures
        r matches Some(p) ==> moment_in_range(p.0 as int, p.1 as int, p.2 as int),
        moment_parts(r) == read_instant(text@),
{
    let t = chrono::DateTime::parse_from_rfc3339(text).ok()?.naive_utc();
    Some(
        (
            chrono::Datelike::num_days_from_ce(&t),
            chrono::Timelike::num_seconds_from_midnight(&t),
            chrono::Timelike::nanosecond(&t),
        ),
    )
}

/// `chrono::NaiveDateTime::format` by the format of year, month, day, hour,
/// minute and second: a text of the parts alone.
#[verifier::external_body]
fn outside_stamp_text(day: i32, second: u32, nano: u32) -> (r: String)
    requires
        moment_in_range(day as int, second as int, nano as int),
    ensures
        r@ == stamp_text(day as int, second as int, nano as int),
{
    let date = chrono::NaiveDate::from_num_days_from_ce_opt(day).unwrap();
    let time = chrono::NaiveTime::from_num_seconds_from_midnight_opt(second, nano).unwrap();
    chrono::NaiveDateTime::new(date, time).format("%Y-%m-%d %H:%M:%S").to_string()
}

/// The parts of a moment that was read.
pub open spec fn moment_parts(p: Option<(i32, u32, u32)>) -> Option<(int, int, int)> {
    match p {
        Some(q) => Some((q.0 as int, q.1 as int, q.2 as int)),
        None => None,
    }
}

/// `chrono::NaiveDateTime::parse_from_str`: the parts that it reads, or nothing.
#[verifier::external_body]
fn outside_read_moment(text: &str, format: &str) -> (r: Option<(i32, u32, u32)>)
    ensures
        r matches Some(p) ==> moment_in_range(p.0 as int, p.1 as int, p.2 as int),
        moment_parts(r) == read_moment(text@, format@),
{
    let t = chrono::NaiveDateTime::parse_from_str(text, format).ok()?;
    Some(
        (
            chrono::Datelike::num_days_from_ce(&t),
            chrono::Timelike::num_seconds_from_midnight(&t),
            chrono::Timelike::nanosecond(&t),
        ),
    )
}

/// The number of a day that was read.
pub open spec fn day_part(p: Option<i32>) -> Option<int> {
    match p {
        Some(q) => Some(q as int),
        None => None,
    }
}

/// `chrono::NaiveDate::parse_from_str`: the number of the day that it reads, or
/// nothing.
#[verifier::external_body]
fn outside_read_day(text: &str, format: &str) -> (r: Option<i32>)
    ensures
        r matches Some(n) ==> day_in_range(n as int),
        day_part(r) == read_day(text@, format@),
{
    let d = chrono::NaiveDate::parse_from_str(text, format).ok()?;
    Some(chrono::Datelike::num_days_from_ce(&d))
}

/// The parts of a time of day that was read.
pub open spec fn time_parts(p: Option<(u32, u32)>) -> Option<(int, int)> {
    match p {
        Some(q) => Some((q.0 as int, q.1 as int)),
        None => None,
    }
}

/// `chrono::NaiveTime::parse_from_str`: the second and nanosecond of the day that
/// it reads, or nothing.
#[verifier::external_body]
fn outside_read_time(text: &str, format: &str) -> (r: Option<(u32, u32)>)
    ensures
        r matches Some(p) ==> moment_in_range(0, p.0 as int, p.1 as int),
        time_parts(r) == read_time(text@, format@),
{
    let t = chrono::NaiveTime::parse_from_str(text, format).ok()?;
    Some(
        (chrono::Timelike::num_seconds_from_midnight(&t), chrono::Timelike::nanosecond(&t)),
    )
}

impl Moment {
    /// The text of the moment.
    pub fn text(&self) -> (r: String)
        ensures
            r@ == moment_text(self.d(), self.s(), self.n()),
    {
        proof {
            use_type_invariant(self);
        }
        outside_moment_text(self.day, self.second, self.nano)
    }

    /// The text of the moment as it is serialized.
    pub fn iso(&self) -> (r: String)
        ensures
            r@ == iso_text(self.d(), self.s(), self.n()),
    {
        proof {
            use_type_invariant(self);
        }
        outside_iso_text(self.day, self.second, self.nano)
    }

    /// The text of the moment without the part of the second.
    pub fn stamp(&self) -> (r: String)
        ensures
            r@ == stamp_text(self.d(), self.s(), self.n()),
    {
        proof {
            use_type_invariant(self);
        }
        outside_stamp_text(self.day, self.second, self.nano)
    }

    /// The moment that a text denotes by a format.
    pub fn parse(text: &str, format: &str) -> (r: Option<Moment>)
        ensures
            match read_moment(text@, format@) {
                Some(p) => r == Some(Moment::of(p.0, p.1, p.2)),
                None => r is None,
            },
    {
        match outside_read_moment(text, format) {
            Some(p) => Some(Moment { day: p.0, second: p.1, nano: p.2 }),
            None => None,
        }
    }
}

impl Day {
    /// The day that a text denotes by a format.
    pub fn parse(text: &str, format: &str) -> (r: Option<Day>)
        ensures
            match read_day(text@, format@) {
                Some(p) => r == Some(Day::of(p)),
                None => r is None,
            },
    {
        match outside_read_day(text, format) {
            Some(p) => Some(Day { number: p }),
            None => None,
        }
    }
}

impl Day {
    /// The text of the day.
    pub fn text(&self) -> (r: String)
        ensures
            r@ == day_text(self.n()),
    {
        proof {
            use_type_invariant(self);
        }
        outside_day_text(self.number)
    }
}

impl Day {
    /// The moment of a day at a second of it.
    pub fn at_second(&self, second: u32) -> (r: Moment)
        requires
            second < DAY_SECONDS,
        ensures
            r == Moment::of(self.n(), second as int, 0),
    {
        proof {
            use_type_invariant(self);
        }
        Moment { day: self.number, second, nano: 0 }
    }
}

/// Whole milliseconds of some nanoseconds, towards zero.
pub open spec fn whole_millis(nanos: int) -> int {
    if nanos >= 0 {
        nanos / 1_000_000
    } else {
        -((-nanos) / 1_000_000)
    }
}

/// The UTC moment of a moment at an offset of eight hours, where its day is one
/// of the calendar.
pub open spec fn utc_of(local: Moment) -> Option<Moment> {
    if local.s() >= 28_800 {
        Some(Moment::of(local.d(), local.s() - 28_800, local.n()))
    } else if local.d() > MIN_DAY {
        Some(Moment::of(local.d() - 1, local.s() + 57_600, local.n()))
    } else {
        None
    }
}

impl Moment {
    /// The UTC moment that a text denotes by RFC 3339.
    pub fn parse_instant(text: &str) -> (r: Option<Moment>)
        ensures
            match read_instant(text@) {
                Some(p) => r == Some(Moment::of(p.0, p.1, p.2)),
                None => r is None,
            },
    {
        match outside_read_instant(text) {
            Some(p) => Some(Moment { day: p.0, second: p.1, nano: p.2 }),
            None => None,
        }
    }

    /// The whole milliseconds from `earlier` to this moment, towards zero.
    pub fn millis_since(&self, earlier: &Moment) -> (r: i64)
        ensures
            r == whole_millis(nanos_between(*earlier, *self)),
    {
        proof {
            use_type_invariant(self);
            use_type_invariant(earlier);
        }
        let nanos: i128 = self.since(earlier);
        if nanos >= 0 {
            (nanos / 1_000_000) as i64
        } else {
            -(((-nanos) / 1_000_000) as i64)
        }
    }

    /// The UTC moment of a moment at an offset of eight hours.
    pub fn to_utc(&self) -> (r: Option<Moment>)
        ensures
            r == utc_of(*self),
    {
        proof {
            use_type_invariant(self);
        }
        if self.second >= 28_800 {
            Some(Moment { day: self.day, second: self.second - 28_800, nano: self.nano })
        } else if self.day > MIN_DAY {
            Some(Moment { day: self.day - 1, second: self.second + 57_600, nano: self.nano })
        } else {
            None
        }
    }
}

/// The second and nanosecond of the day that a text denotes by a format.
pub fn parse_time(text: &str, format: &str) -> (r: Option<(u32, u32)>)
    ensures
        time_parts(r) == read_time(text@, format@),
{
    outside_read_time(text, format)
}

/// The moment at an offset of eight hours from UTC that is `micros`
/// microseconds after the epoch, where both it and its UTC counterpart are days
/// of the calendar.
pub open spec fn local_moment(micros: int) -> Option<Moment> {
    let utc_day = EPOCH_DAY + micros / 86_400_000_000;
    let local = micros + 28_800_000_000;
    let day = EPOCH_DAY + local / 86_400_000_000;
    let rest = local % 86_400_000_000;
    if day_in_range(utc_day) && day_in_range(day) {
        Some(Moment::of(day, rest / 1_000_000, (rest % 1_000_000) * 1000))
    } else {
        None
    }
}

/// The moment at an offset of eight hours from UTC that is `micros`
/// microseconds after the epoch.
pub fn local_from_micros(micros: u64) -> (r: Option<Moment>)
    ensures
        r == local_moment(micros as int),
        r matches Some(m) ==> m.valid(),
{
    let utc_day: i128 = EPOCH_DAY as i128 + (micros / 86_400_000_000) as i128;
    let local: u128 = micros as u128 + 28_800_000_000;
    let day: i128 = EPOCH_DAY as i128 + (local / 86_400_000_000) as i128;
    let rest: u64 = (local % 86_400_000_000) as u64;
    if utc_day <= MAX_DAY as i128 && day <= MAX_DAY as i128 {
        let second: u32 = (rest / 1_000_000) as u32;
        let nano: u32 = (rest % 1_000_000) as u32 * 1000;
        Moment::from_parts(day as i32, second, nano)
    } else {
        None
    }
}

} // verus!
