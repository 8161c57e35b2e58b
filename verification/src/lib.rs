//! Log-probability arithmetic with an invariant-enforcing value type.
//!
//! [`LogProb`] can only hold values that are coherent for a log-probability:
//! any finite negative value, negative infinity (the probability zero) and
//! both signed zeros (the probability one). Every component is generic over
//! the numeric capability trait [`Ln2`]; a host numeric type provides the
//! comparisons, `exp`, `ln` and `ln_1p`, and the constants the algorithms
//! need, and all of the crate's logic is verified against that interface.

use vstd::prelude::*;

mod adding;
mod errors;
mod math;
mod numeric;
mod softmax;

pub use adding::add_clamped_s;
pub use adding::add_strict_s;
pub use adding::fold_pairwise_s;
pub use adding::lemma_add_overflow_agreement;
pub use adding::lemma_max_last_is_max;
pub use adding::log_sum_exp;
pub use adding::log_sum_exp_clamped;
pub use adding::log_sum_exp_clamped_no_alloc;
pub use adding::log_sum_exp_float;
pub use adding::log_sum_exp_float_no_alloc;
pub use adding::log_sum_exp_no_alloc;
pub use adding::lse_buffered_s;
pub use adding::lse_inner_s;
pub use adding::lse_stream_s;
pub use adding::max_last_s;
pub use adding::pairwise_s;
pub use adding::sum_exp_s;
pub use adding::values_s;
pub use errors::FloatIsNanOrPositive;
pub use errors::FloatIsNanOrPositiveInfinity;
pub use errors::MultiplyByZero;
pub use errors::ProbabilitiesSumToGreaterThanOne;
pub use numeric::valid_log;
pub use numeric::Ln2;
pub use softmax::admissible_s;
pub use softmax::all_admissible_s;
pub use softmax::softmax;
pub use softmax::softmax_out_s;
pub use softmax::softmax_shift_s;

verus! {

/// A wrapper that can only hold values that correspond to log-probabilities:
/// never NaN, never positive; either strictly negative (negative infinity
/// included) or a zero of either sign.
#[derive(Copy, Debug)]
pub struct LogProb<T: Ln2>(T);

impl<T: Ln2> Clone for LogProb<T> {
    fn clone(&self) -> (r: Self)
        ensures
            r == *self,
    {
        *self
    }
}

impl<T: Ln2> LogProb<T> {
    /// The wrapped value, for specifications.
    pub closed spec fn value(self) -> T {
        self.0
    }

    #[verifier::type_invariant]
    spec fn inv(self) -> bool {
        valid_log(self.0)
    }

    /// Crate-internal constructor for a value already known well-formed.
    pub(crate) fn from_valid(val: T) -> (r: Self)
        requires
            valid_log(val),
        ensures
            r.value() == val,
    {
        LogProb(val)
    }

    /// Construct a new [`LogProb`], rejecting every value that is NaN or
    /// positive (a positive zero is accepted).
    pub fn new(val: T) -> (r: Result<Self, FloatIsNanOrPositive>)
        ensures
            match r {
                Ok(p) => valid_log(val) && p.value() == val,
                Err(_) => !valid_log(val),
            },
    {
        if val.is_nan() || (!val.is_zero() && val.is_sign_positive()) {
            Err(FloatIsNanOrPositive)
        } else {
            Ok(LogProb(val))
        }
    }

    /// Construct a new [`LogProb`] from a raw probability in `[0, 1]`, by
    /// taking its logarithm. A value outside `[0, 1]` or NaN is rejected,
    /// because its logarithm is NaN or positive.
    pub fn from_raw_prob(val: T) -> (r: Result<Self, FloatIsNanOrPositive>)
        ensures
            match r {
                Ok(p) => valid_log(val.ln_s()) && p.value() == val.ln_s(),
                Err(_) => !valid_log(val.ln_s()),
            },
    {
        let l = val.fln();
        if l.is_nan() || (!l.is_zero() && l.is_sign_positive()) {
            Err(FloatIsNanOrPositive)
        } else {
            Ok(LogProb(l))
        }
    }

    /// Gets out the value.
    pub fn into_inner(self) -> (r: T)
        ensures
            r == self.value(),
            valid_log(r),
    {
        proof {
            use_type_invariant(self);
        }
        self.0
    }

    /// The equivalent raw (non-log) probability: the exponential of the
    /// stored value, a number between zero and one.
    pub fn raw_prob(&self) -> (r: T)
        ensures
            r == self.value().exp_s(),
            !r.is_nan_s(),
            0 <= r.key_s() <= T::one_key(),
    {
        proof {
            use_type_invariant(&*self);
        }
        self.0.fexp()
    }

    /// The log-probability of the complementary event, computed as
    /// `ln_1p(-exp(x))`, which retains precision when `exp(x)` is small.
    pub fn opposite_prob(&self) -> (r: Self)
        ensures
            r.value() == self.value().exp_s().neg_s().ln_1p_s(),
    {
        proof {
            use_type_invariant(&*self);
        }
        let e = self.0.fexp();
        let n = e.fneg();
        LogProb(n.fln_1p())
    }
}

impl<T: Ln2> PartialEq for LogProb<T> {
    /// Two log-probabilities are equal when neither is below the other;
    /// in particular the two signed zeros compare equal.
    fn eq(&self, o: &Self) -> (r: bool) {
        proof {
            use_type_invariant(&*self);
            use_type_invariant(&*o);
        }
        !self.0.key_lt(o.0) && !o.0.key_lt(self.0)
    }
}

impl<T: Ln2> vstd::std_specs::cmp::PartialEqSpecImpl for LogProb<T> {
    open spec fn obeys_eq_spec() -> bool {
        true
    }

    open spec fn eq_spec(&self, o: &Self) -> bool {
        self.value().key_s() == o.value().key_s()
    }
}

impl<T: Ln2> Eq for LogProb<T> {}

impl<T: Ln2> PartialOrd for LogProb<T> {
    /// Log-probabilities are totally ordered: the partial order of the
    /// host type is total once NaN is excluded by construction.
    fn partial_cmp(&self, o: &Self) -> (r: Option<core::cmp::Ordering>) {
        proof {
            use_type_invariant(&*self);
            use_type_invariant(&*o);
        }
        if self.0.key_lt(o.0) {
            Some(core::cmp::Ordering::Less)
        } else if o.0.key_lt(self.0) {
            Some(core::cmp::Ordering::Greater)
        } else {
            Some(core::cmp::Ordering::Equal)
        }
    }
}

impl<T: Ln2> vstd::std_specs::cmp::PartialOrdSpecImpl for LogProb<T> {
    open spec fn obeys_partial_cmp_spec() -> bool {
        true
    }

    open spec fn partial_cmp_spec(&self, o: &Self) -> Option<core::cmp::Ordering> {
        if self.value().key_s() < o.value().key_s() {
            Some(core::cmp::Ordering::Less)
        } else if self.value().key_s() > o.value().key_s() {
            Some(core::cmp::Ordering::Greater)
        } else {
            Some(core::cmp::Ordering::Equal)
        }
    }
}

impl<T: Ln2> Default for LogProb<T> {
    /// The default log-probability is zero: the probability one.
    fn default() -> (r: Self)
        ensures
            r.value() == T::zero_s(),
    {
        LogProb(T::zero())
    }
}

} // verus!
