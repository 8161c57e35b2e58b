use vstd::prelude::*;

use crate::numeric::Ln2;
use crate::LogProb;

verus! {

impl<T: Ln2> LogProb<T> {
    /// The log-probability of the joint of two independent events: adds
    /// the wrapped values, which multiplies the raw probabilities. The sum
    /// of two well-formed log-probabilities is always well-formed, so this
    /// operation needs no validation.
    pub fn add(self, other: Self) -> (r: Self)
        ensures
            r.value() == self.value().add_s(other.value()),
    {
        proof {
            use_type_invariant(&self);
            use_type_invariant(&other);
        }
        LogProb::from_valid(self.0.fadd(other.0))
    }

    /// Accumulating form of [`LogProb::add`]: replaces the receiver by the
    /// joint log-probability.
    pub fn add_in_place(&mut self, other: Self)
        ensures
            final(self).value() == old(self).value().add_s(other.value()),
    {
        proof {
            use_type_invariant(&*self);
            use_type_invariant(&other);
        }
        let v = self.0.fadd(other.0);
        *self = LogProb::from_valid(v);
    }

    /// Scales by an unsigned count: multiplies the wrapped value by the
    /// numeric value of `n`, which raises the raw probability to the power
    /// `n`. Scaling the log-probability of the impossible event by a count
    /// of zero has no meaningful answer (see
    /// [`MultiplyByZero`](crate::MultiplyByZero)) and is excluded.
    pub fn scale_by_count(self, n: u64) -> (r: Self)
        requires
            n >= 1 || !self.value().is_infinite_s(),
        ensures
            r.value() == T::from_count_s(n).mul_s(self.value()),
    {
        proof {
            use_type_invariant(&self);
        }
        let c = T::from_count(n);
        LogProb::from_valid(c.fmul(self.0))
    }
}

} // verus!
