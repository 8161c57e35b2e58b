use vstd::prelude::*;

verus! {

/// A value is a well-formed log-probability when it is not a NaN and is
/// either a (signed) zero or carries a negative sign. Zero stands for the
/// logarithm of one (certainty); negative infinity for the logarithm of
/// zero (impossibility).
pub open spec fn valid_log<T: Ln2>(a: T) -> bool {
    !a.is_nan_s() && (a.is_zero_s() || !a.is_sign_positive_s())
}

/// The minimal numeric capability that every component of this crate is
/// generic over: classification of a value, a total order on the non-NaN
/// values, the maps `exp`, `ln` and `ln_1p`, addition, subtraction and
/// scaling, and the constants zero, negative infinity and the logarithm
/// of two (after which the trait is named).
///
/// The specification functions (`..._s`) are each implementor's model of
/// its own operations; the executable methods promise to agree with them.
/// Everything this crate proves about a host numeric type holds exactly as
/// far as that type honours the contracts below. A host type whose
/// operations follow the usual floating-point rules (rounding is monotone,
/// zero is exact, an operation yields NaN only from NaN operands or from an
/// indeterminate form) satisfies all of them.
pub trait Ln2: Sized + Copy {
    /// The value is a NaN.
    closed spec fn is_nan_s(self) -> bool {
        vstd::pervasive::arbitrary()
    }

    /// The value is a zero of either sign.
    closed spec fn is_zero_s(self) -> bool {
        vstd::pervasive::arbitrary()
    }

    /// The value's sign is positive (true for NaNs with a clear sign bit,
    /// for positive zero and for positive infinity).
    closed spec fn is_sign_positive_s(self) -> bool {
        vstd::pervasive::arbitrary()
    }

    /// The value is an infinity of either sign.
    closed spec fn is_infinite_s(self) -> bool {
        vstd::pervasive::arbitrary()
    }

    /// An integer key that embeds the order on the non-NaN values: the two
    /// zeros share the key zero, negative values have negative keys, and
    /// comparing keys is comparing values.
    closed spec fn key_s(self) -> int {
        vstd::pervasive::arbitrary()
    }

    /// The order key of the value one.
    closed spec fn one_key() -> int {
        vstd::pervasive::arbitrary()
    }

    /// Positive zero.
    closed spec fn zero_s() -> Self {
        vstd::pervasive::arbitrary()
    }

    /// Negative infinity.
    closed spec fn neg_infinity_s() -> Self {
        vstd::pervasive::arbitrary()
    }

    /// The natural logarithm of two.
    closed spec fn ln_2_s() -> Self {
        vstd::pervasive::arbitrary()
    }

    /// The sum of two values.
    closed spec fn add_s(self, o: Self) -> Self {
        vstd::pervasive::arbitrary()
    }

    /// The difference of two values.
    closed spec fn sub_s(self, o: Self) -> Self {
        vstd::pervasive::arbitrary()
    }

    /// The product of two values.
    closed spec fn mul_s(self, o: Self) -> Self {
        vstd::pervasive::arbitrary()
    }

    /// The exponential of the value.
    closed spec fn exp_s(self) -> Self {
        vstd::pervasive::arbitrary()
    }

    /// The natural logarithm of the value.
    closed spec fn ln_s(self) -> Self {
        vstd::pervasive::arbitrary()
    }

    /// The natural logarithm of one plus the value.
    closed spec fn ln_1p_s(self) -> Self {
        vstd::pervasive::arbitrary()
    }

    /// The negation of the value.
    closed spec fn neg_s(self) -> Self {
        vstd::pervasive::arbitrary()
    }

    /// The value of the unsigned count `n` (rounded, for counts the type
    /// cannot represent exactly).
    closed spec fn from_count_s(n: u64) -> Self {
        vstd::pervasive::arbitrary()
    }

    fn is_nan(self) -> (r: bool)
        ensures
            r == self.is_nan_s(),
    ;

    fn is_zero(self) -> (r: bool)
        ensures
            r == self.is_zero_s(),
    ;

    fn is_sign_positive(self) -> (r: bool)
        ensures
            r == self.is_sign_positive_s(),
    ;

    fn is_infinite(self) -> (r: bool)
        ensures
            r == self.is_infinite_s(),
    ;

    /// Strict comparison. The order of the host type is total once NaNs
    /// are excluded, so NaN operands are ruled out here.
    fn key_lt(self, o: Self) -> (r: bool)
        requires
            !self.is_nan_s(),
            !o.is_nan_s(),
        ensures
            r == (self.key_s() < o.key_s()),
    ;

    fn zero() -> (r: Self)
        ensures
            r == Self::zero_s(),
            r.is_zero_s(),
            !r.is_nan_s(),
            !r.is_infinite_s(),
            r.is_sign_positive_s(),
            r.key_s() == 0,
    ;

    fn neg_infinity() -> (r: Self)
        ensures
            r == Self::neg_infinity_s(),
            !r.is_nan_s(),
            !r.is_zero_s(),
            r.is_infinite_s(),
            !r.is_sign_positive_s(),
    ;

    /// The logarithm of two is strictly positive and finite.
    fn ln_2() -> (r: Self)
        ensures
            r == Self::ln_2_s(),
            !r.is_nan_s(),
            !r.is_zero_s(),
            !r.is_infinite_s(),
            r.is_sign_positive_s(),
    ;

    /// Addition. The sum of two well-formed log-probabilities is again
    /// well-formed: both operands are at most zero, rounding is monotone
    /// and zero is exactly representable, so the sum is at most zero. An
    /// addition yields NaN only for NaN operands or for infinities of
    /// opposite signs.
    fn fadd(self, o: Self) -> (r: Self)
        ensures
            r == self.add_s(o),
            (!self.is_nan_s() && (self.is_zero_s() || !self.is_sign_positive_s())
                && !o.is_nan_s() && (o.is_zero_s() || !o.is_sign_positive_s())) ==> (
            !r.is_nan_s() && (r.is_zero_s() || !r.is_sign_positive_s())),
            (!self.is_nan_s() && !o.is_nan_s() && !(self.is_infinite_s() && o.is_infinite_s()
                && self.is_sign_positive_s() != o.is_sign_positive_s())) ==> !r.is_nan_s(),
    ;

    /// Subtraction yields NaN only for NaN operands or for infinities of
    /// the same sign.
    fn fsub(self, o: Self) -> (r: Self)
        ensures
            r == self.sub_s(o),
            (!self.is_nan_s() && !o.is_nan_s() && !(self.is_infinite_s() && o.is_infinite_s()
                && self.is_sign_positive_s() == o.is_sign_positive_s())) ==> !r.is_nan_s(),
    ;

    /// Scaling. A product of a strictly positive finite value and a
    /// well-formed log-probability is at most zero and cannot be NaN; a
    /// product of zero and a finite value is a zero of either sign.
    fn fmul(self, o: Self) -> (r: Self)
        ensures
            r == self.mul_s(o),
            (!self.is_nan_s() && self.is_sign_positive_s() && !self.is_zero_s()
                && !self.is_infinite_s() && !o.is_nan_s() && (o.is_zero_s()
                || !o.is_sign_positive_s())) ==> (!r.is_nan_s() && (r.is_zero_s()
                || !r.is_sign_positive_s())),
            (self.is_zero_s() && !o.is_nan_s() && !o.is_infinite_s()) ==> (!r.is_nan_s()
                && r.is_zero_s()),
    ;

    /// The exponential of a non-NaN value is non-negative and never NaN;
    /// for a value that is at most zero it is moreover at most one (the
    /// exponential of negative infinity being exactly zero).
    fn fexp(self) -> (r: Self)
        ensures
            r == self.exp_s(),
            !self.is_nan_s() ==> (!r.is_nan_s() && r.key_s() >= 0),
            (!self.is_nan_s() && (self.is_zero_s() || !self.is_sign_positive_s())) ==> (
            r.key_s() <= Self::one_key()),
    ;

    fn fln(self) -> (r: Self)
        ensures
            r == self.ln_s(),
    ;

    /// `ln_1p` of a non-NaN value between minus one and zero inclusive is
    /// at most zero and never NaN (at minus one exactly, it is negative
    /// infinity); of a non-NaN, non-negative value it is non-negative and
    /// never NaN.
    fn fln_1p(self) -> (r: Self)
        ensures
            r == self.ln_1p_s(),
            (!self.is_nan_s() && -Self::one_key() <= self.key_s() <= 0) ==> (!r.is_nan_s()
                && (r.is_zero_s() || !r.is_sign_positive_s())),
            (!self.is_nan_s() && self.key_s() >= 0) ==> (!r.is_nan_s() && r.key_s() >= 0),
    ;

    /// Negation flips the sign and keeps the magnitude; it never turns a
    /// non-NaN value into a NaN.
    fn fneg(self) -> (r: Self)
        ensures
            r == self.neg_s(),
            !self.is_nan_s() ==> (!r.is_nan_s() && r.key_s() == -self.key_s()
                && r.is_zero_s() == self.is_zero_s()),
    ;

    /// The numeric value of an unsigned count: non-negative, never NaN,
    /// finite (every 64-bit count must round to a finite value of the host
    /// type), and zero exactly for the count zero.
    fn from_count(n: u64) -> (r: Self)
        ensures
            r == Self::from_count_s(n),
            !r.is_nan_s(),
            !r.is_infinite_s(),
            r.is_sign_positive_s(),
            r.is_zero_s() <==> n == 0,
    ;

    /// Coherence of the order key with the classification of the non-NaN
    /// values: zeros sit at key zero, the key's sign follows the value's
    /// sign, and the infinities sit strictly beyond every other key.
    proof fn lemma_key_coherence(a: Self, b: Self)
        requires
            !a.is_nan_s(),
            !b.is_nan_s(),
        ensures
            a.is_zero_s() ==> a.key_s() == 0,
            !a.is_sign_positive_s() ==> a.key_s() <= 0,
            a.is_sign_positive_s() ==> a.key_s() >= 0,
            a.is_infinite_s() ==> a.key_s() != 0,
            (a.is_infinite_s() && !a.is_sign_positive_s()) ==> a.key_s() <= b.key_s(),
            (a.is_infinite_s() && a.is_sign_positive_s()) ==> a.key_s() >= b.key_s(),
    ;
}

} // verus!
