use vstd::prelude::*;

verus! {

/// A calendar date, in UTC.
#[derive(Clone, Copy, Debug, PartialEq, Eq, Hash, Structural)]
pub struct Date {
    pub year: i32,
    /// January is 1.
    pub month: u8,
    pub day: u8,
}

impl Date {
    /// Whether `self` is an earlier day than `other`.
    pub open spec fn before(self, other: Date) -> bool {
        if self.year != other.year {
            self.year < other.year
        } else if self.month != other.month {
            self.month < other.month
        } else {
            self.day < other.day
        }
    }

    /// The month and the day are in the range of a calendar's.
    pub open spec fn in_range(self) -> bool {
        1 <= self.month <= 12 && 1 <= self.day <= 31
    }

    /// The date of the given year, month and day.
    pub fn new(year: i32, month: u8, day: u8) -> (r: Date)
        ensures
            r == (Date { year, month, day }),
    {
        Date { year, month, day }
    }

    /// Whether `self` is an earlier day than `other`.
    pub fn is_before(&self, other: &Date) -> (r: bool)
        ensures
            r == self.before(*other),
    {
        if self.year != other.year {
            self.year < other.year
        } else if self.month != other.month {
            self.month < other.month
        } else {
            self.day < other.day
        }
    }

    /// The current date. Two calls may differ.
    pub fn today() -> (r: Date)
        ensures
            r.in_range(),
    {
        today_outside()
    }
}

/// Reads the clock with `time::UtcDateTime::now` and takes the year, the month and the day of
/// its date. The contract says only what `time` documents of every date: the month is one of
/// the twelve, the day between 1 and 31.
#[verifier::external_body]
fn today_outside() -> (r: Date)
    ensures
        r.in_range(),
{
    let date = time::UtcDateTime::now().date();
    Date { year: date.year(), month: u8::from(date.month()), day: date.day() }
}

/// `before` orders the dates strictly: no date is before itself, and the relation is
/// transitive and total.
pub proof fn lemma_before_is_strict_total_order(a: Date, b: Date, c: Date)
    ensures
        !a.before(a),
        a.before(b) && b.before(c) ==> a.before(c),
        a != b ==> a.before(b) || b.before(a),
{
}

} // verus!
