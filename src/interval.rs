use vstd::prelude::*;
use vstd::std_specs::cmp::PartialOrdSpec;
use vstd::std_specs::cmp::PartialEqSpec;
use vstd::laws_cmp::obeys_partial_cmp_spec_properties;
use core::cmp::Ordering;

verus! {

/// `a < b` under the order that `T` declares for its values.
pub open spec fn precedes<T: PartialOrd>(a: T, b: T) -> bool {
    a.partial_cmp_spec(&b) == Some(Ordering::Less)
}

/// `a <= b` under the order that `T` declares for its values.
pub open spec fn precedes_or_equals<T: PartialOrd>(a: T, b: T) -> bool {
    a.partial_cmp_spec(&b) matches Some(Ordering::Less | Ordering::Equal)
}

/// The value `clamp` returns when the order of `T` is specified.
pub open spec fn clamp_spec<T: PartialOrd>(v: T, min: T, max: T) -> T {
    if precedes(v, min) {
        min
    } else if v.partial_cmp_spec(&max) == Some(Ordering::Greater) {
        max
    } else {
        v
    }
}

/// Limits `v` to `[min, max]`: `min` below it, `max` above it, else `v` itself.
pub fn clamp<T: PartialOrd + Copy>(v: T, min: T, max: T) -> (r: T)
    ensures
        T::obeys_partial_cmp_spec() ==> r == clamp_spec(v, min, max),
        r == v || r == min || r == max,
{
    if v < min {
        min
    } else if v > max {
        max
    } else {
        v
    }
}

/// A range of values from `min` to `max`. Callers keep `min <= max`; the
/// reversed range holds no value and stands for "nothing found yet".
pub struct Range<T> {
    pub min: T,
    pub max: T,
}

impl<T: PartialOrd + Copy> Range<T> {
    /// `min <= v <= max`: the closed range holds `v`.
    pub open spec fn holds(self, v: T) -> bool {
        precedes_or_equals(self.min, v) && precedes_or_equals(v, self.max)
    }

    /// `min < v < max`: `v` lies strictly inside, off both endpoints.
    pub open spec fn holds_strictly(self, v: T) -> bool {
        precedes(self.min, v) && precedes(v, self.max)
    }

    pub fn from(min: T, max: T) -> (r: Range<T>)
        ensures
            r.min == min,
            r.max == max,
    {
        Range { min, max }
    }

    /// Closed test: both endpoints are inside.
    pub fn contains(&self, value: T) -> (r: bool)
        ensures
            T::obeys_partial_cmp_spec() ==> r == self.holds(value),
    {
        self.min <= value && value <= self.max
    }

    /// Open test: both endpoints are outside.
    pub fn surrounds(&self, value: T) -> (r: bool)
        ensures
            T::obeys_partial_cmp_spec() ==> r == self.holds_strictly(value),
    {
        self.min < value && value < self.max
    }
}

/// The open test leaves out both endpoints of any range, and every value
/// that it takes in the closed test takes in too. The closed test takes in
/// both endpoints of a range with `min <= max` whose endpoints equal
/// themselves (under a floating-point order, neither is NaN).
pub proof fn lemma_endpoints<T: PartialOrd + Copy>(r: Range<T>, v: T)
    requires
        T::obeys_partial_cmp_spec(),
        obeys_partial_cmp_spec_properties::<T>(),
    ensures
        !r.holds_strictly(r.min),
        !r.holds_strictly(r.max),
        r.holds_strictly(v) ==> r.holds(v),
        precedes_or_equals(r.min, r.max) && r.min.eq_spec(&r.min) && r.max.eq_spec(&r.max)
            ==> r.holds(r.min) && r.holds(r.max),
{
    reveal(obeys_partial_cmp_spec_properties);
    assert(r.min.partial_cmp_spec(&r.min) == Some(Ordering::Less) ==> r.min.partial_cmp_spec(&r.min) == Some(Ordering::Greater));
    assert(r.max.partial_cmp_spec(&r.max) == Some(Ordering::Less) ==> r.max.partial_cmp_spec(&r.max) == Some(Ordering::Greater));
}

} // verus!
