use vstd::prelude::*;
use vstd::std_specs::cmp::PartialOrdSpec;
use vstd::laws_cmp::obeys_partial_cmp_spec_properties;
use crate::interval::{Range, precedes};
use core::cmp::Ordering;

verus! {

/// The closest hit of a scan over a scene's objects so far, and the bound
/// that the next object's distance must stay under.
pub struct NearestHit<T, H> {
    pub bound: T,
    pub hit: Option<H>,
}

impl<T: PartialOrd + Copy, H> NearestHit<T, H> {
    /// The state of a scan that is to search `ray_t`: nothing found, the
    /// bound at the range's upper end.
    pub open spec fn initial(ray_t: Range<T>) -> NearestHit<T, H> {
        NearestHit { bound: ray_t.max, hit: None }
    }

    /// The state after a hit at distance `t` is offered: it is kept when it
    /// is strictly closer than the bound, so the earlier of two equally
    /// close hits stays.
    pub open spec fn offered(self, hit: H, t: T) -> NearestHit<T, H> {
        if precedes(t, self.bound) {
            NearestHit { bound: t, hit: Some(hit) }
        } else {
            self
        }
    }

    pub fn start(ray_t: &Range<T>) -> (r: NearestHit<T, H>)
        ensures
            r == Self::initial(*ray_t),
    {
        NearestHit { bound: ray_t.max, hit: None }
    }

    /// The range in which the next object is searched: from `min`, the lower
    /// end of the scan's range, up to the closest hit so far.
    pub fn window(&self, min: T) -> (r: Range<T>)
        ensures
            r.min == min,
            r.max == self.bound,
    {
        Range::from(min, self.bound)
    }

    pub fn offer(self, hit: H, t: T) -> (r: NearestHit<T, H>)
        ensures
            T::obeys_partial_cmp_spec() ==> r == self.offered(hit, t),
            r == self || r == (NearestHit { bound: t, hit: Some(hit) }),
    {
        if t < self.bound {
            NearestHit { bound: t, hit: Some(hit) }
        } else {
            self
        }
    }

    /// The closest hit found, if any.
    pub fn finish(self) -> (r: Option<H>)
        ensures
            r == self.hit,
    {
        self.hit
    }
}

/// Of two hits offered in turn to a fresh scan, both under the range's upper
/// end, the scan keeps the closer, and the first of the two where neither is
/// closer.
pub proof fn lemma_nearest_of_two<T: PartialOrd + Copy, H>(
    ray_t: Range<T>,
    h1: H,
    t1: T,
    h2: H,
    t2: T,
)
    requires
        precedes(t1, ray_t.max),
        precedes(t2, ray_t.max),
    ensures
        ({
            let s = NearestHit::<T, H>::initial(ray_t).offered(h1, t1).offered(h2, t2);
            &&& precedes(t2, t1) ==> s.bound == t2 && s.hit == Some(h2)
            &&& !precedes(t2, t1) ==> s.bound == t1 && s.hit == Some(h1)
        }),
{
}

/// The state after each of `offers`, pairs of a hit and its distance, is
/// offered in turn.
pub open spec fn scan_all<T: PartialOrd + Copy, H>(
    s: NearestHit<T, H>,
    offers: Seq<(H, T)>,
) -> NearestHit<T, H>
    decreases offers.len(),
{
    if offers.len() == 0 {
        s
    } else {
        scan_all(s, offers.drop_last()).offered(offers.last().0, offers.last().1)
    }
}

/// A scan over any sequence of hits finds the nearest: no hit offered is
/// closer than the one it reports, the one it reports was offered with the
/// final bound as its distance and lies under the range's upper end, and it
/// reports none only where no hit lies under that end.
pub proof fn lemma_scan_finds_nearest<T: PartialOrd + Copy, H>(ray_t: Range<T>, offers: Seq<(H, T)>)
    requires
        T::obeys_partial_cmp_spec(),
        obeys_partial_cmp_spec_properties::<T>(),
    ensures
        ({
            let f = scan_all(NearestHit::<T, H>::initial(ray_t), offers);
            &&& forall|j: int| 0 <= j < offers.len() ==> !precedes(#[trigger] offers[j].1, f.bound)
            &&& f.hit is None ==> f.bound == ray_t.max && forall|j: int|
                0 <= j < offers.len() ==> !precedes(#[trigger] offers[j].1, ray_t.max)
            &&& f.hit is Some ==> precedes(f.bound, ray_t.max) && exists|k: int|
                0 <= k < offers.len() && #[trigger] offers[k] == (f.hit->0, f.bound)
        }),
    decreases offers.len(),
{
    reveal(obeys_partial_cmp_spec_properties);
    if offers.len() > 0 {
        let rest = offers.drop_last();
        let (h, t) = offers.last();
        lemma_scan_finds_nearest::<T, H>(ray_t, rest);
        let prev = scan_all(NearestHit::<T, H>::initial(ray_t), rest);
        let f = scan_all(NearestHit::<T, H>::initial(ray_t), offers);
        assert(forall|j: int| 0 <= j < rest.len() ==> #[trigger] rest[j] == offers[j]);
        if precedes(t, prev.bound) {
            assert(f.bound == t);
            assert forall|j: int| 0 <= j < offers.len() implies !precedes(#[trigger] offers[j].1, f.bound) by {
                if j < rest.len() {
                    assert(rest[j] == offers[j]);
                    if precedes(offers[j].1, t) {
                        assert(precedes(offers[j].1, prev.bound));
                    }
                } else {
                    assert(offers[j] == (h, t));
                    if t.partial_cmp_spec(&t) == Some(Ordering::Less) {
                        assert(t.partial_cmp_spec(&t) == Some(Ordering::Greater));
                    }
                }
            }
            if prev.hit is Some {
                assert(precedes(t, ray_t.max));
            }
            assert(offers[offers.len() - 1] == (f.hit->0, f.bound));
        } else {
            assert(f == prev);
            assert forall|j: int| 0 <= j < offers.len() implies !precedes(#[trigger] offers[j].1, f.bound) by {
                if j < rest.len() {
                    assert(rest[j] == offers[j]);
                } else {
                    assert(offers[j] == (h, t));
                }
            }
            if f.hit is None {
                assert forall|j: int| 0 <= j < offers.len() implies !precedes(#[trigger] offers[j].1, ray_t.max) by {
                    if j < rest.len() {
                        assert(rest[j] == offers[j]);
                    } else {
                        assert(offers[j] == (h, t));
                    }
                }
            } else {
                let k = choose|k: int| 0 <= k < rest.len() && #[trigger] rest[k] == (prev.hit->0, prev.bound);
                assert(offers[k] == rest[k]);
            }
        }
    }
}

/// The distance that an intersection reports from the two roots of its
/// equation, `near <= far`: the near one where it lies strictly inside
/// `ray_t`, else the far one where it does, else none.
pub open spec fn root_choice<T: PartialOrd + Copy>(ray_t: Range<T>, near: T, far: T) -> Option<T> {
    if ray_t.holds_strictly(near) {
        Some(near)
    } else if ray_t.holds_strictly(far) {
        Some(far)
    } else {
        None
    }
}

pub fn pick_root<T: PartialOrd + Copy>(ray_t: &Range<T>, near: T, far: T) -> (r: Option<T>)
    ensures
        T::obeys_partial_cmp_spec() ==> r == root_choice(*ray_t, near, far),
        r == None::<T> || r == Some(near) || r == Some(far),
{
    if ray_t.surrounds(near) {
        Some(near)
    } else if ray_t.surrounds(far) {
        Some(far)
    } else {
        None
    }
}

} // verus!
