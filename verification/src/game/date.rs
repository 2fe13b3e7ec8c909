//! In-game calendar: years of 10 months, months of 40 days.

use vstd::prelude::*;

verus! {

/// Minimum valid day.
pub const MIN_DAY: u8 = 1;

/// Minimum valid month.
pub const MIN_MONTH: u8 = 1;

/// Minimum valid year.
pub const MIN_YEAR: u16 = 1;

/// Maximum valid day.
pub const MAX_DAY: u8 = 40;

/// Maximum valid month.
pub const MAX_MONTH: u8 = 10;

/// Number of days in one year.
pub open spec fn days_per_year() -> int {
    MAX_DAY as int * MAX_MONTH as int
}

/// In-game date.
#[derive(Clone, Copy, Debug, PartialEq, Eq)]
pub struct GameDate {
    /// Current day of the month. [1, 40]
    pub day: u8,
    /// Current month of the year. [1, 10]
    pub month: u8,
    /// Current year. [1, ..]
    pub year: u16,
}

impl GameDate {
    /// The first day of the calendar: year 1, month 1, day 1.
    pub open spec fn first_day() -> GameDate {
        GameDate { day: MIN_DAY, month: MIN_MONTH, year: MIN_YEAR }
    }

    /// The fields lie in their documented ranges.
    pub open spec fn valid(self) -> bool {
        &&& MIN_DAY <= self.day <= MAX_DAY
        &&& MIN_MONTH <= self.month <= MAX_MONTH
        &&& MIN_YEAR <= self.year
    }

    /// Number of days elapsed since year 1, month 1, day 1.
    pub open spec fn ordinal(self) -> int {
        ((self.year - MIN_YEAR) * MAX_MONTH + (self.month - MIN_MONTH)) * MAX_DAY + (self.day
            - MIN_DAY)
    }

    /// The date that lies `n` days after year 1, month 1, day 1.
    pub open spec fn from_ordinal(n: nat) -> GameDate {
        GameDate {
            day: (n % (MAX_DAY as nat) + MIN_DAY) as u8,
            month: ((n / (MAX_DAY as nat)) % (MAX_MONTH as nat) + MIN_MONTH) as u8,
            year: (n / (days_per_year() as nat) + MIN_YEAR) as u16,
        }
    }

    /// The date `days` days after `self`.
    pub open spec fn plus_days(self, days: nat) -> GameDate {
        GameDate::from_ordinal((self.ordinal() + days) as nat)
    }

    /// Ordinals whose date still has a year that fits in a `u16`.
    pub open spec fn representable(n: int) -> bool {
        0 <= n < (u16::MAX as int) * days_per_year()
    }

    /// Create a new date.
    pub fn new(year: u16, month: u8, day: u8) -> (res: Self)
        ensures
            res.year == year,
            res.month == month,
            res.day == day,
    {
        Self { day, month, year }
    }

    /// True if the date is valid and `days` more days still give a year that
    /// fits in a `u16`: the condition under which `add_days` may be called.
    pub fn can_add_days(&self, days: u16) -> (res: bool)
        ensures
            res == (self.valid() && GameDate::representable(self.ordinal() + days)),
    {
        if self.day < MIN_DAY || self.day > MAX_DAY || self.month < MIN_MONTH || self.month
            > MAX_MONTH || self.year < MIN_YEAR {
            return false;
        }
        let ord: u64 = ((self.year - MIN_YEAR) as u64 * MAX_MONTH as u64 + (self.month
            - MIN_MONTH) as u64) * MAX_DAY as u64 + (self.day - MIN_DAY) as u64;
        assert(ord == self.ordinal()) by (nonlinear_arith)
            requires
                ord == ((self.year - MIN_YEAR) * MAX_MONTH + (self.month - MIN_MONTH)) * MAX_DAY
                    + (self.day - MIN_DAY),
        ;
        ord + (days as u64) < (u16::MAX as u64) * (MAX_DAY as u64) * (MAX_MONTH as u64)
    }

    /// Add a certain number of days to the date.
    pub fn add_days(&mut self, days: u16)
        requires
            old(self).valid(),
            GameDate::representable(old(self).ordinal() + days),
        ensures
            final(self).valid(),
            final(self).ordinal() == old(self).ordinal() + days,
            *final(self) == old(self).plus_days(days as nat),
    {
        let ghost ord = self.ordinal();
        let d0: u32 = (self.day - MIN_DAY) as u32 + days as u32;
        let carry_months: u32 = d0 / (MAX_DAY as u32);
        let new_day: u32 = d0 % (MAX_DAY as u32);
        let m0: u32 = (self.month - MIN_MONTH) as u32 + carry_months;
        let carry_years: u32 = m0 / (MAX_MONTH as u32);
        let new_month: u32 = m0 % (MAX_MONTH as u32);
        proof {
            lemma_date_arith(
                ord,
                (self.year - MIN_YEAR) as int,
                (self.month - MIN_MONTH) as int,
                (self.day - MIN_DAY) as int,
                days as int,
                d0 as int,
                carry_months as int,
                new_day as int,
                m0 as int,
                carry_years as int,
                new_month as int,
            );
        }
        self.day = (new_day + MIN_DAY as u32) as u8;
        self.month = (new_month + MIN_MONTH as u32) as u8;
        self.year = (self.year as u32 + carry_years) as u16;
        proof {
            lemma_ordinal_roundtrip(*self);
        }
    }
}

/// Arithmetic behind `add_days`: carrying days into months and months into years
/// keeps the ordinal equal to the old ordinal plus the added days.
proof fn lemma_date_arith(
    ord: int,
    y: int,
    m: int,
    d: int,
    k: int,
    d0: int,
    c1: int,
    nd: int,
    m0: int,
    c2: int,
    nm: int,
)
    requires
        0 <= y,
        0 <= m < 10,
        0 <= d < 40,
        0 <= k,
        ord == (y * 10 + m) * 40 + d,
        0 <= ord + k < 65535 * 400,
        d0 == d + k,
        c1 == d0 / 40,
        nd == d0 % 40,
        m0 == m + c1,
        c2 == m0 / 10,
        nm == m0 % 10,
    ensures
        0 <= nd < 40,
        0 <= nm < 10,
        ((y + c2) * 10 + nm) * 40 + nd == ord + k,
        y + c2 < 65535,
        0 <= c2,
{
    assert(d0 == 40 * c1 + nd && 0 <= nd < 40) by (nonlinear_arith)
        requires
            c1 == d0 / 40,
            nd == d0 % 40,
            d0 >= 0,
    ;
    assert(m0 == 10 * c2 + nm && 0 <= nm < 10) by (nonlinear_arith)
        requires
            c2 == m0 / 10,
            nm == m0 % 10,
            m0 >= 0,
    ;
    assert(c1 >= 0 && c2 >= 0) by (nonlinear_arith)
        requires
            c1 == d0 / 40,
            c2 == m0 / 10,
            d0 >= 0,
            m0 >= 0,
    ;
    assert(((y + c2) * 10 + nm) * 40 + nd == y * 400 + m0 * 40 + nd) by (nonlinear_arith)
        requires
            m0 == 10 * c2 + nm,
    ;
    assert(y + c2 < 65535) by (nonlinear_arith)
        requires
            ((y + c2) * 10 + nm) * 40 + nd < 65535 * 400,
            0 <= nm,
            0 <= nd,
            y + c2 >= 0,
    ;
}

/// Every valid date is the date of its own ordinal, and the ordinal of a
/// date built from an ordinal is that ordinal.
pub proof fn lemma_ordinal_roundtrip(date: GameDate)
    requires
        date.valid(),
    ensures
        date.ordinal() >= 0,
        GameDate::from_ordinal(date.ordinal() as nat) == date,
{
    let y = (date.year - MIN_YEAR) as int;
    let m = (date.month - MIN_MONTH) as int;
    let d = (date.day - MIN_DAY) as int;
    let n = date.ordinal();
    assert(n == y * 400 + m * 40 + d && n >= 0) by (nonlinear_arith)
        requires
            n == (y * 10 + m) * 40 + d,
            y >= 0,
            0 <= m,
            0 <= d,
    ;
    assert(n % 40 == d && n / 40 == y * 10 + m) by (nonlinear_arith)
        requires
            n == (y * 10 + m) * 40 + d,
            0 <= d < 40,
            y >= 0,
            0 <= m,
    ;
    assert((y * 10 + m) % 10 == m) by (nonlinear_arith)
        requires
            0 <= m < 10,
            y >= 0,
    ;
    assert(n / 400 == y) by (nonlinear_arith)
        requires
            n == y * 400 + m * 40 + d,
            0 <= m < 10,
            0 <= d < 40,
            y >= 0,
    ;
}

/// The date of an ordinal is valid and has that ordinal, as long as its
/// year fits in a `u16`.
pub proof fn lemma_from_ordinal(n: nat)
    requires
        GameDate::representable(n as int),
    ensures
        GameDate::from_ordinal(n).valid(),
        GameDate::from_ordinal(n).ordinal() == n,
{
    let q = n / 40;
    let d = n % 40;
    let m = q % 10;
    let y = n / 400;
    assert(n == 40 * q + d && 0 <= d < 40 && q >= 0) by (nonlinear_arith)
        requires
            q == n / 40,
            d == n % 40,
    ;
    assert(q == 10 * (q / 10) + m && 0 <= m < 10) by (nonlinear_arith)
        requires
            m == q % 10,
            q >= 0,
    ;
    assert(q / 10 == y) by (nonlinear_arith)
        requires
            q == n / 40,
            y == n / 400,
    ;
    assert(y < 65535) by (nonlinear_arith)
        requires
            y == n / 400,
            n < 65535 * 400,
    ;
    assert(n == (y * 10 + m) * 40 + d) by (nonlinear_arith)
        requires
            n == 40 * q + d,
            q == 10 * y + m,
    ;
}

/// Adding zero days leaves a valid date unchanged.
pub proof fn law_add_zero_days(date: GameDate)
    requires
        date.valid(),
    ensures
        date.plus_days(0) == date,
{
    lemma_ordinal_roundtrip(date);
}

/// Adding `a` days and then `b` days gives the same date as adding `a + b`
/// days at once.
pub proof fn law_add_days_compose(date: GameDate, a: nat, b: nat)
    requires
        date.valid(),
        GameDate::representable(date.ordinal() + a + b),
    ensures
        date.plus_days(a).plus_days(b) == date.plus_days(a + b),
{
    lemma_ordinal_roundtrip(date);
    lemma_from_ordinal((date.ordinal() + a) as nat);
}

/// Adding days moves a valid date strictly forward in time, by exactly the
/// number of days added.
pub proof fn law_add_days_advances(date: GameDate, days: nat)
    requires
        date.valid(),
        GameDate::representable(date.ordinal() + days),
    ensures
        date.plus_days(days).valid(),
        date.plus_days(days).ordinal() == date.ordinal() + days,
        days > 0 ==> date.plus_days(days) != date,
{
    lemma_ordinal_roundtrip(date);
    lemma_from_ordinal((date.ordinal() + days) as nat);
}

} // verus!
