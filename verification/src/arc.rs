use vstd::prelude::*;

verus! {

// The interval arithmetic itself lives in an outside crate: an interval set
// keeps a sorted list of disjoint closed intervals over u32, merging as it
// goes. Contracts speak of the set of locations a value covers, named below;
// the arc logic on top is verified against those contracts.

/// The interval store: a sorted list of disjoint closed intervals over u32,
/// kept by the outside interval crate. Opaque to the verifier; its contents
/// are named below.
#[verifier::external_body]
#[derive(Debug)]
pub struct IntervalStore {
    inner: interval::interval_set::IntervalSet<u32>,
}

/// The set of locations an interval store covers.
pub uninterp spec fn iset_contents(s: IntervalStore) -> Set<u32>;

/// Relies on IntervalSet::empty: the empty set covers nothing.
#[verifier::external_body]
fn iset_empty() -> (r: IntervalStore)
    ensures
        forall|x: u32| !iset_contents(r).contains(x),
        !iset_contents(r).contains(u32::MAX),
{
    IntervalStore {
        inner: <interval::interval_set::IntervalSet<
            u32,
        > as gcollections::ops::constructor::Empty>::empty(),
    }
}

/// Relies on ToIntervalSet for one pair: covers exactly the closed range.
#[verifier::external_body]
fn iset_from_range(lo: u32, hi: u32) -> (r: IntervalStore)
    requires
        lo <= hi,
        hi <= u32::MAX - 1,
    ensures
        forall|x: u32| iset_contents(r).contains(x) <==> lo <= x <= hi,
        !iset_contents(r).contains(u32::MAX),
{
    IntervalStore { inner: interval::interval_set::ToIntervalSet::to_interval_set(vec![(lo, hi)]) }
}

/// Relies on IntervalSet::union: covers what either side covers.
#[verifier::external_body]
fn iset_union(a: &IntervalStore, b: &IntervalStore) -> (r: IntervalStore)
    ensures
        forall|x: u32|
            iset_contents(r).contains(x) <==> (iset_contents(*a).contains(x) || iset_contents(
                *b,
            ).contains(x)),
        !iset_contents(*a).contains(u32::MAX) && !iset_contents(*b).contains(u32::MAX)
            ==> !iset_contents(r).contains(u32::MAX),
{
    IntervalStore { inner: gcollections::ops::Union::union(&a.inner, &b.inner) }
}

/// Relies on IntervalSet::intersection: covers what both sides cover.
#[verifier::external_body]
fn iset_intersection(a: &IntervalStore, b: &IntervalStore) -> (r: IntervalStore)
    ensures
        forall|x: u32|
            iset_contents(r).contains(x) <==> (iset_contents(*a).contains(x) && iset_contents(
                *b,
            ).contains(x)),
{
    IntervalStore { inner: gcollections::ops::Intersection::intersection(&a.inner, &b.inner) }
}

/// Relies on IntervalSet::overlap: whether the two sets share a location.
#[verifier::external_body]
fn iset_overlap(a: &IntervalStore, b: &IntervalStore) -> (r: bool)
    ensures
        r == (exists|x: u32| iset_contents(*a).contains(x) && iset_contents(*b).contains(x)),
{
    gcollections::ops::Overlap::overlap(&a.inner, &b.inner)
}

/// Relies on IntervalSet::is_empty.
#[verifier::external_body]
fn iset_is_empty(a: &IntervalStore) -> (r: bool)
    ensures
        r == !(exists|x: u32| iset_contents(*a).contains(x)),
{
    gcollections::ops::IsEmpty::is_empty(&a.inner)
}

/// Relies on IntervalSet::contains.
#[verifier::external_body]
fn iset_contains(a: &IntervalStore, x: u32) -> (r: bool)
    ensures
        r == iset_contents(*a).contains(x),
{
    gcollections::ops::Contains::contains(&a.inner, &x)
}

/// Relies on IntervalSet's equality over its canonical sorted, merged
/// representation: two sets are equal exactly when they cover the same
/// locations.
#[verifier::external_body]
fn iset_eq(a: &IntervalStore, b: &IntervalStore) -> (r: bool)
    ensures
        r == (forall|x: u32| iset_contents(*a).contains(x) == iset_contents(*b).contains(x)),
{
    a.inner == b.inner
}

/// Relies on IntervalSet's canonical merged form: joinable intervals are
/// merged, so the store covers the whole normalized range exactly when a
/// single interval spans it.
#[verifier::external_body]
fn iset_covers_all(a: &IntervalStore) -> (r: bool)
    ensures
        r == (forall|x: u32| x != u32::MAX ==> iset_contents(*a).contains(x)),
{
    a.inner.iter().any(
        |i|
            gcollections::ops::Bounded::lower(i) == 0 && gcollections::ops::Bounded::upper(i)
                >= u32::MAX - 1,
    )
}

/// A set of arcs on the circular address space. Full coverage is kept as its
/// own variant because the underlying interval set cannot name `u32::MAX`.
#[derive(Debug)]
pub enum DhtArcSet {
    /// The whole circle.
    Full,
    /// Anything else, including empty.
    Partial(IntervalStore),
}

/// The locations an arc set covers.
pub open spec fn arcset_contents(s: DhtArcSet) -> Set<u32> {
    match s {
        DhtArcSet::Full => Set::new(|x: u32| true),
        DhtArcSet::Partial(p) => iset_contents(p),
    }
}

/// Every arc set built through this interface keeps the very top location
/// out of its partial form: the full circle is held by the `Full` variant
/// alone, so two well-formed sets of different shape never cover the same
/// locations.
pub open spec fn arcset_wf(s: DhtArcSet) -> bool {
    s is Partial ==> !iset_contents(s->Partial_0).contains(u32::MAX)
}

/// A bounded pair names the whole circle when it covers every nameable
/// location or wraps back onto its own start.
pub open spec fn spec_is_full(start: u32, end: u32) -> bool {
    (start == 0 && end >= u32::MAX - 1) || (end as int) == (start as int) - 1 || (start == 0
        && end == u32::MAX)
}

/// Check whether a bounded pair is equivalent to the full circle.
pub fn is_full(start: u32, end: u32) -> (r: bool)
    ensures
        r == spec_is_full(start, end),
{
    (start == 0 && end >= u32::MAX - 1) || (start > 0 && end == start - 1)
}

/// The locations a start/end pair covers, wrapping around the top.
pub open spec fn arc_range_contains(start: u32, end: u32, x: u32) -> bool {
    if start <= end {
        start <= x <= end
    } else {
        x >= start || x <= end
    }
}

impl DhtArcSet {
    /// The empty set of arcs.
    pub fn new_empty() -> (r: DhtArcSet)
        ensures
            forall|x: u32| !arcset_contents(r).contains(x),
            r is Partial,
            arcset_wf(r),
    {
        DhtArcSet::Partial(iset_empty())
    }

    /// The whole circle.
    pub fn new_full() -> (r: DhtArcSet)
        ensures
            forall|x: u32| arcset_contents(r).contains(x),
            r is Full,
            arcset_wf(r),
    {
        DhtArcSet::Full
    }

    /// The arc from `start` to `end` inclusive, wrapping around the top of
    /// the address space. The very top location is representable only by the
    /// full set, as in the interval store underneath; contracts therefore
    /// speak of every location below it.
    pub fn from_bounds(start: u32, end: u32) -> (r: DhtArcSet)
        ensures
            forall|x: u32|
                x != u32::MAX ==> arcset_contents(r).contains(x) == arc_range_contains(
                    start,
                    end,
                    x,
                ),
            arcset_contents(r).contains(u32::MAX) ==> forall|y: u32| arcset_contents(r).contains(y),
            (r is Full) == spec_is_full(start, end),
            arcset_wf(r),
    {
        if is_full(start, end) {
            let r = DhtArcSet::Full;
            proof {
                assert forall|x: u32| arcset_contents(r).contains(x) by {
                    assert(arcset_contents(r).contains(x));
                }
            }
            r
        } else if start <= end {
            let hi = if end == u32::MAX {
                u32::MAX - 1
            } else {
                end
            };
            if start > hi {
                DhtArcSet::Partial(iset_empty())
            } else {
                DhtArcSet::Partial(iset_from_range(start, hi))
            }
        } else if start == u32::MAX {
            // only the top location lies above `start`; below it the arc is
            // the plain range up to `end`
            DhtArcSet::Partial(iset_from_range(0, end))
        } else {
            // wrapping: [0, end] and [start, MAX-1]
            let a = iset_from_range(0, end);
            let b = iset_from_range(start, u32::MAX - 1);
            DhtArcSet::Partial(iset_union(&a, &b))
        }
    }

    /// Whether this set covers a location.
    pub fn contains(&self, loc: u32) -> (r: bool)
        ensures
            r == arcset_contents(*self).contains(loc),
    {
        match self {
            DhtArcSet::Full => true,
            DhtArcSet::Partial(p) => iset_contains(p, loc),
        }
    }

    /// Whether nothing is covered.
    pub fn is_empty(&self) -> (r: bool)
        ensures
            self is Full ==> !r,
            self is Partial ==> r == !(exists|x: u32|
                iset_contents((*self)->Partial_0).contains(x)),
    {
        match self {
            DhtArcSet::Full => false,
            DhtArcSet::Partial(p) => iset_is_empty(p),
        }
    }

    /// Whether two sets share any location.
    pub fn overlap(&self, other: &DhtArcSet) -> (r: bool)
        ensures
            (self is Partial && other is Partial) ==> r == (exists|x: u32|
                iset_contents((*self)->Partial_0).contains(x) && iset_contents(
                    (*other)->Partial_0,
                ).contains(x)),
            (self is Full && other is Full) ==> r,
            (self is Full && other is Partial) ==> r == (exists|x: u32|
                iset_contents((*other)->Partial_0).contains(x)),
            (self is Partial && other is Full) ==> r == (exists|x: u32|
                iset_contents((*self)->Partial_0).contains(x)),
    {
        match (self, other) {
            (DhtArcSet::Full, DhtArcSet::Full) => true,
            (DhtArcSet::Full, that) => !that.is_empty(),
            (this, DhtArcSet::Full) => !this.is_empty(),
            (DhtArcSet::Partial(a), DhtArcSet::Partial(b)) => iset_overlap(a, b),
        }
    }

    /// Everything either set covers. The result is normalized: a union that
    /// covers the whole circle collapses to the `Full` variant.
    pub fn union(&self, other: &DhtArcSet) -> (r: DhtArcSet)
        ensures
            forall|x: u32|
                x != u32::MAX ==> arcset_contents(r).contains(x) == (arcset_contents(
                    *self,
                ).contains(x) || arcset_contents(*other).contains(x)),
            (r is Full) == (self is Full || other is Full || (forall|x: u32|
                x != u32::MAX ==> arcset_contents(*self).contains(x) || arcset_contents(
                    *other,
                ).contains(x))),
            arcset_wf(*self) && arcset_wf(*other) ==> arcset_wf(r),
    {
        match (self, other) {
            (DhtArcSet::Full, _) => DhtArcSet::Full,
            (_, DhtArcSet::Full) => DhtArcSet::Full,
            (DhtArcSet::Partial(a), DhtArcSet::Partial(b)) => {
                let u = iset_union(a, b);
                let covers = iset_covers_all(&u);
                proof {
                    if covers {
                        assert forall|x: u32| x != u32::MAX implies arcset_contents(
                            *self,
                        ).contains(x) || arcset_contents(*other).contains(x) by {
                            assert(iset_contents(u).contains(x));
                        }
                    } else {
                        assert(exists|x: u32| x != u32::MAX && !iset_contents(u).contains(x));
                        let x = choose|x: u32| x != u32::MAX && !iset_contents(u).contains(x);
                        assert(!arcset_contents(*self).contains(x) && !arcset_contents(
                            *other,
                        ).contains(x));
                    }
                }
                if covers {
                    DhtArcSet::Full
                } else {
                    DhtArcSet::Partial(u)
                }
            },
        }
    }

    /// Everything both sets cover.
    pub fn intersection(&self, other: &DhtArcSet) -> (r: DhtArcSet)
        ensures
            forall|x: u32|
                arcset_contents(r).contains(x) == (arcset_contents(*self).contains(x)
                    && arcset_contents(*other).contains(x)),
            arcset_wf(*self) && arcset_wf(*other) ==> arcset_wf(r),
    {
        match (self, other) {
            (this, DhtArcSet::Full) => this.dup(),
            (DhtArcSet::Full, that) => that.dup(),
            (DhtArcSet::Partial(a), DhtArcSet::Partial(b)) => DhtArcSet::Partial(
                iset_intersection(a, b),
            ),
        }
    }

    /// A copy covering the same locations.
    pub fn dup(&self) -> (r: DhtArcSet)
        ensures
            forall|x: u32| arcset_contents(r).contains(x) == arcset_contents(*self).contains(x),
            r is Full == self is Full,
            arcset_wf(*self) ==> arcset_wf(r),
    {
        match self {
            DhtArcSet::Full => DhtArcSet::Full,
            DhtArcSet::Partial(p) => DhtArcSet::Partial(iset_union(p, &iset_empty())),
        }
    }

    /// Build from inclusive pairs, unioning them all.
    pub fn from_pairs(pairs: Vec<(u32, u32)>) -> (r: DhtArcSet)
        ensures
            forall|x: u32|
                x != u32::MAX ==> arcset_contents(r).contains(x) == exists|i: int|
                    0 <= i < pairs@.len() && arc_range_contains(
                        #[trigger] pairs@[i].0,
                        pairs@[i].1,
                        x,
                    ),
            arcset_wf(r),
    {
        let mut acc = DhtArcSet::new_empty();
        let mut i: usize = 0;
        while i < pairs.len()
            invariant
                i <= pairs.len(),
                arcset_wf(acc),
                forall|x: u32|
                    x != u32::MAX ==> arcset_contents(acc).contains(x) == exists|k: int|
                        0 <= k < i && arc_range_contains(#[trigger] pairs@[k].0, pairs@[k].1, x),
            decreases pairs.len() - i,
        {
            let piece = DhtArcSet::from_bounds(pairs[i].0, pairs[i].1);
            let next = acc.union(&piece);
            proof {
                assert forall|x: u32| x != u32::MAX implies arcset_contents(next).contains(x) == (
                exists|k: int|
                    0 <= k < i + 1 && arc_range_contains(
                        #[trigger] pairs@[k].0,
                        pairs@[k].1,
                        x,
                    )) by {
                    if arcset_contents(next).contains(x) {
                        if arcset_contents(piece).contains(x) {
                            assert(arc_range_contains(pairs@[i as int].0, pairs@[i as int].1, x));
                        }
                    }
                    if exists|k: int|
                        0 <= k < i + 1 && arc_range_contains(
                            #[trigger] pairs@[k].0,
                            pairs@[k].1,
                            x,
                        ) {
                        let k = choose|k: int|
                            0 <= k < i + 1 && arc_range_contains(
                                #[trigger] pairs@[k].0,
                                pairs@[k].1,
                                x,
                            );
                        if k == i {
                            assert(arcset_contents(piece).contains(x));
                        }
                    }
                }
            }
            acc = next;
            i = i + 1;
        }
        acc
    }

    /// Whether two arc sets cover the same locations. Sets of different
    /// shape compare unequal, rightly so for well-formed sets: the full set
    /// is the only holder of the very top location.
    pub fn same_coverage(&self, other: &DhtArcSet) -> (r: bool)
        ensures
            (self is Full && other is Full) ==> r,
            (self is Partial && other is Partial) ==> r == (forall|x: u32|
                iset_contents((*self)->Partial_0).contains(x) == iset_contents(
                    (*other)->Partial_0,
                ).contains(x)),
            (self is Full != other is Full) ==> !r,
            arcset_wf(*self) && arcset_wf(*other) ==> r == (forall|x: u32|
                arcset_contents(*self).contains(x) == arcset_contents(*other).contains(x)),
    {
        let r = match (self, other) {
            (DhtArcSet::Full, DhtArcSet::Full) => true,
            (DhtArcSet::Partial(a), DhtArcSet::Partial(b)) => iset_eq(a, b),
            _ => false,
        };
        proof {
            if arcset_wf(*self) && arcset_wf(*other) {
                if (self is Full) != (other is Full) {
                    assert(arcset_contents(*self).contains(u32::MAX) != arcset_contents(
                        *other,
                    ).contains(u32::MAX));
                } else if self is Partial && other is Partial {
                    if r {
                        assert forall|x: u32| arcset_contents(*self).contains(x)
                            == arcset_contents(*other).contains(x) by {
                            assert(iset_contents((*self)->Partial_0).contains(x) == iset_contents(
                                (*other)->Partial_0,
                            ).contains(x));
                        }
                    } else {
                        assert(exists|x: u32|
                            iset_contents((*self)->Partial_0).contains(x) != iset_contents(
                                (*other)->Partial_0,
                            ).contains(x));
                        let x = choose|x: u32|
                            iset_contents((*self)->Partial_0).contains(x) != iset_contents(
                                (*other)->Partial_0,
                            ).contains(x);
                        assert(arcset_contents(*self).contains(x) != arcset_contents(
                            *other,
                        ).contains(x));
                    }
                }
            }
        }
        r
    }
}

/// A single arc: empty, full, or a bounded wrap-around range, each
/// remembering where it starts.
#[derive(Clone, Copy, Debug, PartialEq, Eq, Structural)]
pub enum ArcInterval {
    Empty(u32),
    Full(u32),
    Bounded(u32, u32),
}

impl ArcInterval {
    /// The locations this arc covers.
    pub open spec fn spec_contains(self, x: u32) -> bool {
        match self {
            ArcInterval::Empty(_) => false,
            ArcInterval::Full(_) => true,
            ArcInterval::Bounded(lo, hi) => arc_range_contains(lo, hi, x),
        }
    }

    /// Whether this arc covers a location, wrapping where `lo > hi`.
    pub fn contains(&self, t: u32) -> (r: bool)
        ensures
            r == self.spec_contains(t),
    {
        match self {
            ArcInterval::Empty(_) => false,
            ArcInterval::Full(_) => true,
            ArcInterval::Bounded(lo, hi) => {
                if lo <= hi {
                    *lo <= t && t <= *hi
                } else {
                    *lo <= t || t <= *hi
                }
            },
        }
    }

    /// The arc from `start` to `end` inclusive; a pair that covers the whole
    /// circle becomes `Full`.
    pub fn from_bounds(start: u32, end: u32) -> (r: ArcInterval)
        ensures
            forall|x: u32|
                x != u32::MAX ==> r.spec_contains(x) == arc_range_contains(start, end, x),
    {
        if is_full(start, end) {
            ArcInterval::Full(start)
        } else {
            ArcInterval::Bounded(start, end)
        }
    }

    /// The arc of `len` locations starting at `start`; zero length is empty,
    /// a length spanning the circle or more covers everything, and any other
    /// length runs from `start` around the circle to its wrapped endpoint.
    pub fn from_start_and_len(start: u32, len: u64) -> (r: ArcInterval)
        ensures
            len == 0 ==> r == ArcInterval::Empty(start),
            len >= 0x1_0000_0000 ==> r == ArcInterval::Full(start),
            0 < len < 0x1_0000_0000 ==> forall|x: u32|
                x != u32::MAX ==> r.spec_contains(x) == arc_range_contains(
                    start,
                    (((start as int) + (len as int) - 1) % 0x1_0000_0000) as u32,
                    x,
                ),
    {
        if len == 0 {
            ArcInterval::Empty(start)
        } else if len >= 0x1_0000_0000 {
            ArcInterval::Full(start)
        } else {
            let end64 = (start as u64 + (len - 1)) % 0x1_0000_0000;
            let end = end64 as u32;
            proof {
                assert(end as int == ((start as int) + (len as int) - 1) % 0x1_0000_0000);
            }
            ArcInterval::from_bounds(start, end)
        }
    }

    pub fn new_empty(s: u32) -> (r: ArcInterval)
        ensures
            r == ArcInterval::Empty(s),
    {
        ArcInterval::Empty(s)
    }

    pub fn is_empty(&self) -> (r: bool)
        ensures
            r == (self is Empty),
    {
        matches!(self, ArcInterval::Empty(_))
    }

    /// Where this arc starts.
    pub fn start_loc(&self) -> (r: u32)
        ensures
            r == match *self {
                ArcInterval::Empty(s) => s,
                ArcInterval::Full(s) => s,
                ArcInterval::Bounded(s, _) => s,
            },
    {
        match self {
            ArcInterval::Empty(s) => *s,
            ArcInterval::Full(s) => *s,
            ArcInterval::Bounded(s, _) => *s,
        }
    }

    /// Turn this arc into an arc set.
    pub fn to_set(&self) -> (r: DhtArcSet)
        ensures
            forall|x: u32| x != u32::MAX ==> arcset_contents(r).contains(x) == self.spec_contains(x),
            arcset_contents(r).contains(u32::MAX) ==> forall|y: u32| arcset_contents(r).contains(y),
            arcset_wf(r),
    {
        match self {
            ArcInterval::Empty(_) => DhtArcSet::new_empty(),
            ArcInterval::Full(_) => DhtArcSet::new_full(),
            ArcInterval::Bounded(lo, hi) => DhtArcSet::from_bounds(*lo, *hi),
        }
    }

    /// Whether two arcs share any location.
    pub fn overlaps(&self, other: &ArcInterval) -> (r: bool)
        ensures
            r == exists|x: u32|
                x != u32::MAX && self.spec_contains(x) && other.spec_contains(x),
    {
        let a = self.to_set();
        let b = other.to_set();
        let r = a.overlap(&b);
        proof {
            if r {
                let x = choose|x: u32|
                    arcset_contents(a).contains(x) && arcset_contents(b).contains(x);
                if x == u32::MAX {
                    assert(arcset_contents(a).contains(0u32));
                    assert(arcset_contents(b).contains(0u32));
                    assert(self.spec_contains(0u32) && other.spec_contains(0u32));
                } else {
                    assert(self.spec_contains(x) && other.spec_contains(x));
                }
            }
        }
        r
    }
}

/// Build an arc set from one arc.
pub fn from_interval(arc: &ArcInterval) -> (r: DhtArcSet)
    ensures
        forall|x: u32| x != u32::MAX ==> arcset_contents(r).contains(x) == arc.spec_contains(x),
{
    arc.to_set()
}

/// An agent's published storage arc: a center location and a half-length.
/// A half-length of zero stores nothing; one of half the circle or more
/// spans the whole circle; anything between covers the wrapped range
/// reaching one short of the half-length to each side of the center.
#[derive(Clone, Copy, Debug, PartialEq, Eq, Structural)]
pub struct DhtArc {
    pub center_loc: u32,
    pub half_length: u32,
}

impl DhtArc {
    /// Where a bounded arc begins: one short of the half-length below the
    /// center, wrapping.
    pub open spec fn spec_start(self) -> u32 {
        (((self.center_loc as int) + 0x1_0000_0000 - (self.half_length as int) + 1)
            % 0x1_0000_0000) as u32
    }

    /// Where a bounded arc ends: one short of the half-length above the
    /// center, wrapping.
    pub open spec fn spec_end(self) -> u32 {
        (((self.center_loc as int) + (self.half_length as int) - 1) % 0x1_0000_0000) as u32
    }

    /// The locations this arc pledges to store.
    pub open spec fn spec_contains(self, x: u32) -> bool {
        if self.half_length == 0 {
            false
        } else if self.half_length >= 0x8000_0000 {
            true
        } else {
            arc_range_contains(self.spec_start(), self.spec_end(), x)
        }
    }

    pub fn new(center_loc: u32, half_length: u32) -> (r: DhtArc)
        ensures
            r == (DhtArc { center_loc, half_length }),
    {
        DhtArc { center_loc, half_length }
    }

    /// How many locations the arc covers: the numerator of its coverage of
    /// the circle.
    pub fn length(&self) -> (r: u64)
        ensures
            self.half_length == 0 ==> r == 0,
            self.half_length >= 0x8000_0000 ==> r == 0x1_0000_0000u64,
            0 < self.half_length < 0x8000_0000 ==> r == 2 * (self.half_length as int) - 1,
    {
        if self.half_length == 0 {
            0u64
        } else if self.half_length >= 0x8000_0000 {
            0x1_0000_0000u64
        } else {
            2 * (self.half_length as u64) - 1
        }
    }

    /// This arc as a start/end interval on the circle.
    pub fn to_interval(&self) -> (r: ArcInterval)
        ensures
            forall|x: u32| x != u32::MAX ==> r.spec_contains(x) == self.spec_contains(x),
            self.half_length == 0 ==> r is Empty,
            self.half_length >= 0x8000_0000 ==> r is Full,
    {
        if self.half_length == 0 {
            ArcInterval::Empty(self.center_loc)
        } else if self.half_length >= 0x8000_0000 {
            ArcInterval::Full(self.center_loc)
        } else {
            let offset = (self.half_length - 1) as u64;
            let start64 = (self.center_loc as u64 + 0x1_0000_0000 - offset) % 0x1_0000_0000;
            let end64 = (self.center_loc as u64 + offset) % 0x1_0000_0000;
            let start = start64 as u32;
            let end = end64 as u32;
            proof {
                assert(start as int == self.spec_start() as int);
                assert(end as int == self.spec_end() as int);
            }
            ArcInterval::from_bounds(start, end)
        }
    }

    /// Whether this arc pledges to store a location.
    pub fn contains(&self, x: u32) -> (r: bool)
        requires
            x != u32::MAX,
        ensures
            r == self.spec_contains(x),
    {
        self.to_interval().contains(x)
    }

    /// Whether two agents' arcs share any location below the top of the
    /// space, so the two could gossip about it.
    pub fn overlaps(&self, other: &DhtArc) -> (r: bool)
        ensures
            r == exists|x: u32|
                x != u32::MAX && self.spec_contains(x) && other.spec_contains(x),
    {
        let a = self.to_interval();
        let b = other.to_interval();
        let r = a.overlaps(&b);
        proof {
            if r {
                let x = choose|x: u32|
                    x != u32::MAX && a.spec_contains(x) && b.spec_contains(x);
                assert(self.spec_contains(x) && other.spec_contains(x));
            } else {
                assert forall|x: u32|
                    x != u32::MAX && self.spec_contains(x) implies !other.spec_contains(x) by {
                    assert(a.spec_contains(x));
                }
            }
        }
        r
    }
}

} // verus!
