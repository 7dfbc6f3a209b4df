//! The domain sampler: evenly spaced sample points over a span, and the
//! bounded buffer that holds the most recent live samples.

use crate::scalar::Scalar;
use vstd::prelude::*;

verus! {

/// A bounded sample buffer with an overwrite-oldest policy: it holds at most
/// its fixed capacity of the most recently pushed samples, so a long
/// playback session never grows it without bound. The audio thread appends
/// one sample at a time; the render path takes a snapshot once per frame.
#[derive(Clone, Debug)]
pub struct WaveBuffer {
    data: Vec<Scalar>,
    cap: usize,
}

impl WaveBuffer {
    /// The buffer never holds more than its capacity, which is positive.
    pub closed spec fn wf(&self) -> bool {
        self.data@.len() <= self.cap && 1 <= self.cap
    }

    /// The held samples, oldest first, in scalar units.
    pub closed spec fn view_units(&self) -> Seq<int> {
        self.data@.map_values(|s: Scalar| s@)
    }

    /// The fixed capacity.
    pub closed spec fn cap_spec(&self) -> int {
        self.cap as int
    }

    /// An empty buffer of the given capacity.
    pub fn new(cap: usize) -> (r: WaveBuffer)
        requires
            cap >= 1,
        ensures
            r.wf(),
            r.view_units() == Seq::<int>::empty(),
            r.cap_spec() == cap,
    {
        let r = WaveBuffer { data: Vec::new(), cap };
        proof {
            assert(r.view_units() =~= Seq::<int>::empty());
        }
        r
    }

    /// How many samples the buffer holds now.
    pub fn len(&self) -> (n: usize)
        ensures
            n == self.view_units().len(),
    {
        self.data.len()
    }

    /// Appends one sample; when the buffer is full the oldest one leaves.
    pub fn push(&mut self, v: Scalar)
        requires
            old(self).wf(),
        ensures
            final(self).wf(),
            final(self).cap_spec() == old(self).cap_spec(),
            final(self).view_units() == if old(self).view_units().len() < old(self).cap_spec() {
                old(self).view_units().push(v@)
            } else {
                old(self).view_units().drop_first().push(v@)
            },
    {
        if self.data.len() >= self.cap {
            self.data.remove(0);
            proof {
                assert(self.data@.map_values(|s: Scalar| s@) =~= old(
                    self,
                ).view_units().drop_first());
            }
        }
        let ghost mid = self.view_units();
        self.data.push(v);
        proof {
            assert(self.data@.map_values(|s: Scalar| s@) =~= mid.push(v@));
        }
    }

    /// A copy of the held samples, oldest first.
    #[verifier::loop_isolation(false)]
    pub fn snapshot(&self) -> (samples: Vec<Scalar>)
        ensures
            samples@.map_values(|s: Scalar| s@) == self.view_units(),
    {
        let mut samples: Vec<Scalar> = Vec::new();
        let mut i: usize = 0;
        while i < self.data.len()
            invariant
                i <= self.data@.len(),
                samples@ == self.data@.take(i as int),
            decreases self.data@.len() - i,
        {
            samples.push(self.data[i]);
            proof {
                assert(samples@ =~= self.data@.take(i + 1));
            }
            i = i + 1;
        }
        proof {
            assert(samples@ =~= self.data@);
        }
        samples
    }
}

/// The step between adjacent samples: the span divided by the number of
/// gaps, rounded down in units; zero when fewer than two samples are asked
/// for.
pub open spec fn sample_step(lo: int, hi: int, count: int) -> int {
    if count <= 1 {
        0
    } else {
        (hi - lo) / (count - 1)
    }
}

/// The `i`-th domain sample over `[lo, hi]`: `lo` advanced by `i` steps.
pub open spec fn sample_at(lo: int, hi: int, count: int, i: int) -> int {
    lo + i * sample_step(lo, hi, count)
}

/// Produces `count` evenly spaced domain samples over `[lo, hi]`, in
/// ascending order, starting exactly at `lo`.
#[verifier::loop_isolation(false)]
pub fn sample_domain(lo: Scalar, hi: Scalar, count: usize) -> (samples: Vec<Scalar>)
    requires
        lo@ <= hi@,
    ensures
        samples@.len() == count,
        forall|i: int|
            0 <= i < count ==> (#[trigger] samples@[i])@ == sample_at(
                lo@,
                hi@,
                count as int,
                i,
            ),
{
    let mut samples: Vec<Scalar> = Vec::new();
    if count == 0 {
        return samples;
    }
    let ghost gstep = sample_step(lo@, hi@, count as int);
    let step: i128 = if count == 1 {
        0
    } else {
        let d: u128 = (hi.units as i128 - lo.units as i128) as u128;
        (d / ((count - 1) as u128)) as i128
    };
    proof {
        assert(step == gstep);
        if count > 1 {
            vstd::arithmetic::div_mod::lemma_fundamental_div_mod(
                hi@ - lo@,
                count as int - 1,
            );
            vstd::arithmetic::div_mod::lemma_mod_division_less_than_divisor(
                hi@ - lo@,
                count as int - 1,
            );
        }
    }
    // the last sample never passes `hi`: (count - 1) * step <= hi - lo
    let mut cur: i128 = lo.units as i128;
    let mut i: usize = 0;
    while i < count
        invariant
            i <= count,
            samples@.len() == i,
            i < count ==> cur == lo@ + i * gstep,
            lo@ <= cur,
            cur <= hi@,
            forall|j: int|
                0 <= j < i ==> (#[trigger] samples@[j])@ == sample_at(lo@, hi@, count as int, j),
        decreases count - i,
    {
        samples.push(Scalar { units: cur as i64 });
        if i + 1 < count {
            proof {
                assert((i + 1) * gstep == i * gstep + gstep) by (nonlinear_arith);
                assert((i + 1) * gstep <= (count - 1) * gstep) by (nonlinear_arith)
                    requires
                        i + 1 <= count - 1,
                        0 <= gstep,
                ;
                assert((count - 1) * gstep <= hi@ - lo@) by {
                    vstd::arithmetic::div_mod::lemma_fundamental_div_mod(
                        hi@ - lo@,
                        count as int - 1,
                    );
                    vstd::arithmetic::div_mod::lemma_mod_division_less_than_divisor(
                        hi@ - lo@,
                        count as int - 1,
                    );
                }
            }
            cur = cur + step;
        }
        i = i + 1;
    }
    samples
}

} // verus!
