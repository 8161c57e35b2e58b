use vstd::prelude::*;

verus! {

/// Error for constructing a log-probability from a value that is NaN or
/// strictly positive: no probability in `[0, 1]` has such a logarithm.
#[derive(Clone, Copy, Debug, PartialEq, Eq, Structural)]
pub struct FloatIsNanOrPositive;

/// Error for an addition of log-probabilities whose underlying raw
/// probabilities sum to more than one (an improper distribution).
#[derive(Clone, Copy, Debug, PartialEq, Eq, Structural)]
pub struct ProbabilitiesSumToGreaterThanOne;

/// Error for a softmax input that holds a NaN or a positive infinity.
/// Negative infinity is fine: it maps to zero probability mass.
#[derive(Clone, Copy, Debug, PartialEq, Eq, Structural)]
pub struct FloatIsNanOrPositiveInfinity;

/// Marker for scaling the log-probability of an impossible event by a count
/// of zero, which has no meaningful answer. Declared for API completeness;
/// no operation of this crate returns it.
#[derive(Clone, Copy, Debug, PartialEq, Eq, Structural)]
pub struct MultiplyByZero;

impl From<FloatIsNanOrPositive> for ProbabilitiesSumToGreaterThanOne {
    fn from(v: FloatIsNanOrPositive) -> (r: ProbabilitiesSumToGreaterThanOne) {
        ProbabilitiesSumToGreaterThanOne
    }
}

impl vstd::std_specs::convert::FromSpecImpl<FloatIsNanOrPositive> for ProbabilitiesSumToGreaterThanOne {
    open spec fn obeys_from_spec() -> bool {
        true
    }

    open spec fn from_spec(v: FloatIsNanOrPositive) -> Self {
        ProbabilitiesSumToGreaterThanOne
    }
}

} // verus!
