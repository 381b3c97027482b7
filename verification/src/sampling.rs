//! Uniform draws from a range, with a record of every value drawn.

use vstd::prelude::*;
use vstd::std_specs::cmp::PartialOrdSpec;
use core::cmp::Ordering;
use rand::distributions::uniform::SampleUniform;
use rand::rngs::ThreadRng;
use rand::Rng;

verus! {

/// The thread-local random number generator of rand.
#[verifier::external_type_specification]
#[verifier::external_body]
pub struct ExThreadRng(ThreadRng);

/// `rand::thread_rng`: the random number generator of the current thread.
#[verifier::external_body]
fn thread_rng() -> (r: ThreadRng) {
    rand::thread_rng()
}

/// Whether `v` lies in the half-open range `low..high`: `low <= v < high`.
pub open spec fn in_half_open_range<T: PartialOrd>(low: T, high: T, v: T) -> bool {
    &&& (low.partial_cmp_spec(&v) == Some(Ordering::Less) || low.partial_cmp_spec(&v) == Some(
        Ordering::Equal,
    ))
    &&& v.partial_cmp_spec(&high) == Some(Ordering::Less)
}

/// `Rng::gen_range` over the half-open range `low..high`: a value drawn uniformly from it.
/// rand panics unless `low < high`, which is required here; for floats it also panics when
/// `high - low` is not finite, which cannot be stated for a generic `T`. The value lies in
/// `low..high`, as rand's `UniformSampler::sample_single` is documented to sample (and as
/// every implementation must); which value of the range comes out is left open.
#[verifier::external_body]
fn gen_range<T: SampleUniform + PartialOrd + Copy>(rng: &mut ThreadRng, low: T, high: T) -> (r: T)
    requires
        T::obeys_partial_cmp_spec(),
        low.partial_cmp_spec(&high) == Some(Ordering::Less),
    ensures
        in_half_open_range(low, high, r),
{
    rng.gen_range(low..high)
}

/// A source of uniform draws, which records every value it has drawn, in order. The only
/// way to draw from it is `draw`, so the record holds exactly the values that came out of
/// the random number generator.
pub struct UniformSource<T> {
    rng: ThreadRng,
    drawn: Ghost<Seq<T>>,
}

impl<T> UniformSource<T> {
    /// The values drawn so far, oldest first.
    pub closed spec fn drawn(&self) -> Seq<T> {
        self.drawn@
    }
}

impl<T: SampleUniform + PartialOrd + Copy> UniformSource<T> {
    /// A source on the random number generator of the current thread, with nothing drawn yet.
    pub fn new() -> (r: UniformSource<T>)
        ensures
            r.drawn() == Seq::<T>::empty(),
    {
        UniformSource { rng: thread_rng(), drawn: Ghost(Seq::empty()) }
    }

    /// One uniform draw from `low..high`, added to the record.
    pub fn draw(&mut self, low: T, high: T) -> (r: T)
        requires
            T::obeys_partial_cmp_spec(),
            low.partial_cmp_spec(&high) == Some(Ordering::Less),
        ensures
            in_half_open_range(low, high, r),
            final(self).drawn() == old(self).drawn().push(r),
    {
        let v = gen_range(&mut self.rng, low, high);
        self.drawn = Ghost(self.drawn@.push(v));
        v
    }
}

} // verus!
