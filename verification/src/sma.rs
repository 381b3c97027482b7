//! A sampling generator of values drawn uniformly from a range, and the window of recent
//! samples that a simple moving average is taken over.

use vstd::prelude::*;
use vstd::std_specs::cmp::PartialOrdSpec;
use std::collections::VecDeque;
use core::cmp::Ordering;
use rand::distributions::uniform::SampleUniform;
pub use crate::sampling::in_half_open_range;
use crate::sampling::UniformSource;

verus! {

/// A generator of values drawn uniformly from `min..max`.
pub struct SMAGenerator<T> {
    min: T,
    max: T,
    precision: u8,
    buffer: VecDeque<i32>,
    source: UniformSource<T>,
}

impl<T> SMAGenerator<T> {
    /// The lower end of the range.
    pub closed spec fn low(&self) -> T {
        self.min
    }

    /// The upper end of the range (excluded).
    pub closed spec fn high(&self) -> T {
        self.max
    }

    /// The number of decimal places the generator is configured with.
    pub closed spec fn decimals(&self) -> u8 {
        self.precision
    }

    /// The values that the generator has drawn from its random number generator, oldest first.
    pub closed spec fn draws(&self) -> Seq<T> {
        self.source.drawn()
    }
}

impl<T: SampleUniform + PartialOrd + Copy> SMAGenerator<T> {
    /// A new generator over `min..max`, with room for `buffer_size` samples.
    pub fn new(min: T, max: T, precision: u8, buffer_size: usize) -> (r: Box<SMAGenerator<T>>)
        ensures
            r.low() == min,
            r.high() == max,
            r.decimals() == precision,
            r.draws() == Seq::<T>::empty(),
    {
        Box::new(
            SMAGenerator {
                min,
                max,
                precision,
                buffer: VecDeque::with_capacity(buffer_size),
                source: UniformSource::new(),
            },
        )
    }

    /// A value drawn uniformly from the range `low..high`: exactly one new draw, which is the
    /// value returned.
    pub fn generate(&mut self, input: ()) -> (r: T)
        requires
            T::obeys_partial_cmp_spec(),
            old(self).low().partial_cmp_spec(&old(self).high()) == Some(Ordering::Less),
        ensures
            in_half_open_range(old(self).low(), old(self).high(), r),
            final(self).low() == old(self).low(),
            final(self).high() == old(self).high(),
            final(self).decimals() == old(self).decimals(),
            final(self).draws() == old(self).draws().push(r),
    {
        self.source.draw(self.min, self.max)
    }

    /// The range of the generator.
    pub fn range(&self) -> (r: (T, T))
        ensures
            r == (self.low(), self.high()),
    {
        (self.min, self.max)
    }
}

/// The instance that the plugin offers: a generator over `min..max`.
pub fn new_instance<T: SampleUniform + PartialOrd + Copy>(
    min: T,
    max: T,
    precision: u8,
    buffer_size: usize,
) -> (r: Box<SMAGenerator<T>>)
    ensures
        r.low() == min,
        r.high() == max,
        r.decimals() == precision,
        r.draws() == Seq::<T>::empty(),
{
    SMAGenerator::new(min, max, precision, buffer_size)
}

/// The window after a new sample arrives: an empty window is first filled with `size`
/// copies of the sample; then the oldest sample leaves and the new one enters at the front.
pub open spec fn window_after<T>(w: Seq<T>, size: nat, sample: T) -> Seq<T> {
    let filled = if w.len() == 0 { Seq::new(size, |i: int| sample) } else { w };
    let kept = if filled.len() == 0 { filled } else { filled.drop_last() };
    seq![sample] + kept
}

/// The window of the most recent samples of a moving average, newest first.
pub struct SmaWindow<T> {
    buffer: VecDeque<T>,
    buffer_size: u8,
}

impl<T> SmaWindow<T> {
    /// The samples in the window, newest first.
    pub closed spec fn samples(&self) -> Seq<T> {
        self.buffer@
    }

    /// The number of samples the window holds.
    pub closed spec fn size(&self) -> nat {
        self.buffer_size as nat
    }
}

impl<T: Copy> SmaWindow<T> {
    /// An empty window of `buffer_size` samples. The size is kept in a byte, so only
    /// `buffer_size % 256` samples are kept.
    pub fn new(buffer_size: usize) -> (r: SmaWindow<T>)
        ensures
            r.samples().len() == 0,
            r.size() == buffer_size % 256,
    {
        SmaWindow { buffer: VecDeque::with_capacity(buffer_size), buffer_size: (buffer_size % 256) as u8 }
    }

    /// Takes in a new sample.
    pub fn push(&mut self, sample: T)
        ensures
            final(self).samples() == window_after(old(self).samples(), old(self).size(), sample),
            final(self).size() == old(self).size(),
    {
        if self.buffer.len() == 0 {
            let mut k: u8 = 0;
            while k < self.buffer_size
                invariant
                    k <= self.buffer_size,
                    self.buffer@ =~= Seq::new(k as nat, |i: int| sample),
                    self.buffer_size == old(self).buffer_size,
                    old(self).buffer@.len() == 0,
                decreases self.buffer_size - k,
            {
                self.buffer.push_front(sample);
                k = k + 1;
            }
        }
        self.buffer.pop_back();
        self.buffer.push_front(sample);
        assert(self.buffer@ =~= window_after(old(self).buffer@, old(self).buffer_size as nat, sample));
    }

    /// The samples in the window, newest first.
    pub fn to_vec(&self) -> (r: Vec<T>)
        ensures
            r@ == self.samples(),
    {
        let mut out: Vec<T> = Vec::new();
        let n = self.buffer.len();
        let mut i: usize = 0;
        while i < n
            invariant
                n == self.buffer@.len(),
                i <= n,
                out@ == self.buffer@.take(i as int),
            decreases n - i,
        {
            out.push(self.buffer[i]);
            i = i + 1;
            assert(out@ =~= self.buffer@.take(i as int));
        }
        assert(self.buffer@.take(n as int) =~= self.buffer@);
        out
    }
}

/// A window of at least one sample keeps its size: filled on the first sample, it then
/// trades its oldest sample for the newest. The newest sample is first, and the others
/// follow in the order they came.
pub proof fn law_window_keeps_its_size<T>(w: Seq<T>, size: nat, sample: T)
    requires
        size >= 1,
        w.len() == 0 || w.len() == size,
    ensures
        window_after(w, size, sample).len() == size,
        window_after(w, size, sample)[0] == sample,
        w.len() > 0 ==> forall|i: int|
            0 <= i < size - 1 ==> #[trigger] window_after(w, size, sample)[i + 1] == w[i],
{
}

/// A window of size zero holds just the newest sample.
pub proof fn law_empty_window_holds_newest<T>(w: Seq<T>, sample: T)
    requires
        w.len() <= 1,
    ensures
        window_after(w, 0, sample) == seq![sample],
{
    let filled = if w.len() == 0 { Seq::new(0, |i: int| sample) } else { w };
    let kept = if filled.len() == 0 { filled } else { filled.drop_last() };
    assert(kept =~= Seq::<T>::empty());
    assert(seq![sample] + kept =~= seq![sample]);
}

/// A window only ever holds samples that were pushed into it: every sample of the new
/// window is the new sample or one of the window before. (So where every sample lies in a
/// range, every sample of the window does, and so does their average.)
pub proof fn law_window_holds_only_pushed_samples<T>(w: Seq<T>, size: nat, sample: T)
    ensures
        forall|i: int|
            0 <= i < window_after(w, size, sample).len() ==> #[trigger] window_after(
                w,
                size,
                sample,
            )[i] == sample || w.contains(window_after(w, size, sample)[i]),
{
    let r = window_after(w, size, sample);
    assert forall|i: int| 0 <= i < r.len() implies r[i] == sample || w.contains(r[i]) by {
        if i > 0 && w.len() > 0 {
            assert(r[i] == w[i - 1]);
        }
    }
}

} // verus!
