//! Moments and time ranges of classes and rooms.
use vstd::prelude::*;

verus! {

/// A moment in UTC: whole seconds since the epoch and the nanoseconds within
/// that second (up to two seconds' worth, for a leap second).
#[derive(Clone, Copy, Debug, PartialEq, Eq, Structural)]
pub struct Moment {
    pub secs: i64,
    pub nanos: u32,
}

impl Moment {
    pub open spec fn well_formed(self) -> bool {
        self.nanos < 2_000_000_000
    }

    /// The position of the moment on the time line, in nanoseconds; moments
    /// are ordered by it.
    pub open spec fn key(self) -> int {
        self.secs * 2_000_000_000 + self.nanos
    }

    /// Whether `self` comes before `other` or is the same moment.
    pub fn le(&self, other: &Moment) -> (r: bool)
        requires
            self.well_formed(),
            other.well_formed(),
        ensures
            r == (self.key() <= other.key()),
    {
        self.secs < other.secs || (self.secs == other.secs && self.nanos <= other.nanos)
    }
}

/// One end of a time range.
#[derive(Clone, Copy, Debug, PartialEq, Eq, Structural)]
pub enum Bound {
    Included(Moment),
    Excluded(Moment),
    Unbounded,
}

/// A time range: its start and its end.
pub type BoundedDateTimeTuple = (Bound, Bound);

/// The moment at an end of a range, whether it belongs to the range or not.
pub open spec fn spec_bound_moment(t: Bound) -> Option<Moment> {
    match t {
        Bound::Included(m) => Some(m),
        Bound::Excluded(m) => Some(m),
        Bound::Unbounded => None,
    }
}

pub open spec fn bound_well_formed(t: Bound) -> bool {
    match t {
        Bound::Included(m) => m.well_formed(),
        Bound::Excluded(m) => m.well_formed(),
        Bound::Unbounded => true,
    }
}

pub open spec fn range_well_formed(t: BoundedDateTimeTuple) -> bool {
    bound_well_formed(t.0) && bound_well_formed(t.1)
}

/// The later of two optional moments; a missing moment gives way.
pub open spec fn spec_later(a: Option<Moment>, b: Option<Moment>) -> Option<Moment> {
    match (a, b) {
        (Some(x), Some(y)) => if x.key() <= y.key() { Some(y) } else { Some(x) },
        (Some(x), None) => Some(x),
        (None, Some(y)) => Some(y),
        (None, None) => None,
    }
}

/// The earlier of two optional moments; a missing moment gives way.
pub open spec fn spec_earlier(a: Option<Moment>, b: Option<Moment>) -> Option<Moment> {
    match (a, b) {
        (Some(x), Some(y)) => if x.key() <= y.key() { Some(x) } else { Some(y) },
        (Some(x), None) => Some(x),
        (None, Some(y)) => Some(y),
        (None, None) => None,
    }
}

/// The range common to two ranges: it starts (included) at the later start
/// and ends (excluded) at the earlier end; where neither range has a start or
/// neither has an end, that end of the result is unbounded.
pub open spec fn spec_overlap(t1: BoundedDateTimeTuple, t2: BoundedDateTimeTuple) -> BoundedDateTimeTuple {
    let st = spec_later(spec_bound_moment(t1.0), spec_bound_moment(t2.0));
    let end = spec_earlier(spec_bound_moment(t1.1), spec_bound_moment(t2.1));
    (
        match st {
            Some(m) => Bound::Included(m),
            None => Bound::Unbounded,
        },
        match end {
            Some(m) => Bound::Excluded(m),
            None => Bound::Unbounded,
        },
    )
}

/// The moment at an end of a range.
pub fn extract_bound(t: Bound) -> (r: Option<Moment>)
    ensures
        r == spec_bound_moment(t),
{
    match t {
        Bound::Included(t) => Some(t),
        Bound::Excluded(t) => Some(t),
        Bound::Unbounded => None,
    }
}

/// The later of two optional moments.
pub fn dt_options_cmp_max(a: Option<Moment>, b: Option<Moment>) -> (r: Option<Moment>)
    requires
        a matches Some(x) ==> x.well_formed(),
        b matches Some(y) ==> y.well_formed(),
    ensures
        r == spec_later(a, b),
{
    match (a, b) {
        (Some(a), Some(b)) => if a.le(&b) {
            Some(b)
        } else {
            Some(a)
        },
        (Some(a), None) => Some(a),
        (None, Some(b)) => Some(b),
        (None, None) => None,
    }
}

/// The earlier of two optional moments.
pub fn dt_options_cmp_min(a: Option<Moment>, b: Option<Moment>) -> (r: Option<Moment>)
    requires
        a matches Some(x) ==> x.well_formed(),
        b matches Some(y) ==> y.well_formed(),
    ensures
        r == spec_earlier(a, b),
{
    match (a, b) {
        (Some(a), Some(b)) => if a.le(&b) {
            Some(a)
        } else {
            Some(b)
        },
        (Some(a), None) => Some(a),
        (None, Some(b)) => Some(b),
        (None, None) => None,
    }
}

/// The range common to two ranges, as `spec_overlap` describes it.
pub fn times_overlap(t1: BoundedDateTimeTuple, t2: BoundedDateTimeTuple) -> (r: BoundedDateTimeTuple)
    requires
        range_well_formed(t1),
        range_well_formed(t2),
    ensures
        r == spec_overlap(t1, t2),
        range_well_formed(r),
{
    let st1 = extract_bound(t1.0);
    let end1 = extract_bound(t1.1);
    let st2 = extract_bound(t2.0);
    let end2 = extract_bound(t2.1);

    let st = dt_options_cmp_max(st1, st2);
    let st = match st {
        Some(m) => Bound::Included(m),
        None => Bound::Unbounded,
    };
    let end = dt_options_cmp_min(end1, end2);
    let end = match end {
        Some(m) => Bound::Excluded(m),
        None => Bound::Unbounded,
    };
    (st, end)
}

/// Distinct moments lie at distinct positions of the time line.
pub proof fn lemma_key_injective(a: Moment, b: Moment)
    requires
        a.well_formed(),
        b.well_formed(),
        a.key() == b.key(),
    ensures
        a == b,
{
    assert(a.secs == b.secs) by (nonlinear_arith)
        requires
            a.secs * 2_000_000_000 + a.nanos == b.secs * 2_000_000_000 + b.nanos,
            a.nanos < 2_000_000_000,
            b.nanos < 2_000_000_000,
            a.nanos >= 0,
            b.nanos >= 0,
    ;
}

/// The overlap of two ranges does not depend on their order.
pub proof fn lemma_overlap_commutes(t1: BoundedDateTimeTuple, t2: BoundedDateTimeTuple)
    requires
        range_well_formed(t1),
        range_well_formed(t2),
    ensures
        spec_overlap(t1, t2) == spec_overlap(t2, t1),
{
    if let (Some(x), Some(y)) = (spec_bound_moment(t1.0), spec_bound_moment(t2.0)) {
        if x.key() == y.key() {
            lemma_key_injective(x, y);
        }
    }
    if let (Some(x), Some(y)) = (spec_bound_moment(t1.1), spec_bound_moment(t2.1)) {
        if x.key() == y.key() {
            lemma_key_injective(x, y);
        }
    }
}

/// Taking overlaps one after another does not depend on their grouping.
pub proof fn lemma_overlap_associates(
    t1: BoundedDateTimeTuple,
    t2: BoundedDateTimeTuple,
    t3: BoundedDateTimeTuple,
)
    ensures
        spec_overlap(spec_overlap(t1, t2), t3) == spec_overlap(t1, spec_overlap(t2, t3)),
{
}

/// The overlap of two ranges starts, included, at the later of the starts
/// that exist, and is unbounded at its start only where neither range has a
/// start; it ends, excluded, at the earlier of the ends that exist, and is
/// unbounded at its end only where neither range has an end.
pub proof fn lemma_overlap_ends(t1: BoundedDateTimeTuple, t2: BoundedDateTimeTuple)
    ensures
        ({
            let r = spec_overlap(t1, t2);
            let s1 = spec_bound_moment(t1.0);
            let s2 = spec_bound_moment(t2.0);
            let e1 = spec_bound_moment(t1.1);
            let e2 = spec_bound_moment(t2.1);
            &&& (r.0 is Unbounded <==> (t1.0 is Unbounded && t2.0 is Unbounded))
            &&& (r.0 matches Bound::Included(s) ==> (s1 == Some(s) || s2 == Some(s)) && (s1 matches Some(
                a,
            ) ==> a.key() <= s.key()) && (s2 matches Some(b) ==> b.key() <= s.key()))
            &&& r.0 !is Excluded
            &&& (r.1 is Unbounded <==> (t1.1 is Unbounded && t2.1 is Unbounded))
            &&& (r.1 matches Bound::Excluded(e) ==> (e1 == Some(e) || e2 == Some(e)) && (e1 matches Some(
                a,
            ) ==> e.key() <= a.key()) && (e2 matches Some(b) ==> e.key() <= b.key()))
            &&& r.1 !is Included
        }),
{
}

/// The overlap starts no earlier and ends no later than either range.
pub proof fn lemma_overlap_within(t1: BoundedDateTimeTuple, t2: BoundedDateTimeTuple)
    ensures
        ({
            let r = spec_overlap(t1, t2);
            &&& (spec_bound_moment(r.0) matches Some(s) ==> (spec_bound_moment(t1.0) matches Some(
                s1,
            ) ==> s1.key() <= s.key()) && (spec_bound_moment(t2.0) matches Some(s2) ==> s2.key()
                <= s.key()))
            &&& (spec_bound_moment(r.1) matches Some(e) ==> (spec_bound_moment(t1.1) matches Some(
                e1,
            ) ==> e.key() <= e1.key()) && (spec_bound_moment(t2.1) matches Some(e2) ==> e.key()
                <= e2.key()))
        }),
{
}

} // verus!
