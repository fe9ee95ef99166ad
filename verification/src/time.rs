//! Instants in UTC, held as plain values.
use vstd::prelude::*;

verus! {

/// An instant in UTC: whole seconds since the Unix epoch and the
/// nanoseconds within that second (a leap second is carried as a
/// nanosecond count of one billion or more, as chrono does).
///
/// Instants are ordered lexicographically: first by `secs`, then by `nanos`.
#[derive(Clone, Copy, Debug, PartialEq, Eq, Structural)]
pub struct Timestamp {
    pub secs: i64,
    pub nanos: u32,
}

impl Timestamp {
    /// `self` is strictly earlier than `other`.
    pub open spec fn earlier_than(self, other: Timestamp) -> bool {
        self.secs < other.secs || (self.secs == other.secs && self.nanos < other.nanos)
    }

    /// `self` is earlier than or equal to `other`.
    pub open spec fn not_later_than(self, other: Timestamp) -> bool {
        self.earlier_than(other) || self == other
    }

    /// Builds an instant from its two parts.
    pub fn new(secs: i64, nanos: u32) -> (t: Timestamp)
        ensures
            t.secs == secs,
            t.nanos == nanos,
    {
        Timestamp { secs, nanos }
    }

    /// Whether `self` is earlier than or equal to `other`.
    pub fn is_at_or_before(&self, other: &Timestamp) -> (r: bool)
        ensures
            r == self.not_later_than(*other),
            r == (self.secs < other.secs || (self.secs == other.secs && self.nanos <= other.nanos)),
    {
        self.secs < other.secs || (self.secs == other.secs && self.nanos <= other.nanos)
    }
}

/// The order on instants is a strict total order: irreflexive, transitive,
/// and any two distinct instants are comparable.
pub proof fn law_instant_order_is_strict_total(a: Timestamp, b: Timestamp, c: Timestamp)
    ensures
        !a.earlier_than(a),
        a.earlier_than(b) && b.earlier_than(c) ==> a.earlier_than(c),
        a != b ==> (a.earlier_than(b) || b.earlier_than(a)),
        a.earlier_than(b) ==> !b.earlier_than(a),
{
}

/// Instants are ordered lexicographically: by whole seconds, and within the
/// same second by nanoseconds.
pub proof fn law_instant_order_is_lexicographic(a: Timestamp, b: Timestamp)
    ensures
        a.earlier_than(b) <==> (a.secs < b.secs || (a.secs == b.secs && a.nanos < b.nanos)),
        a.not_later_than(b) <==> (a.secs < b.secs || (a.secs == b.secs && a.nanos <= b.nanos)),
{
}

/// `not_later_than` is the complement of the strict order taken the other way.
pub proof fn law_not_later_than_is_not_after(a: Timestamp, b: Timestamp)
    ensures
        a.not_later_than(b) <==> !b.earlier_than(a),
{
}

} // verus!
