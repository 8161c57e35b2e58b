use vstd::prelude::*;

use crate::errors::ProbabilitiesSumToGreaterThanOne;
use crate::numeric::valid_log;
use crate::numeric::Ln2;
use crate::LogProb;

verus! {

/// The sequence of wrapped values of a sequence of log-probabilities.
pub open spec fn values_s<T: Ln2>(s: Seq<LogProb<T>>) -> Seq<T> {
    s.map_values(|p: LogProb<T>| p.value())
}

/// The raw result of the stable two-term combination: for `x = ln p` and
/// `y = ln q` it is `ln(p + q)`, computed so that the argument of `exp` is
/// never positive. When the two values are equal the closed form `x + ln 2`
/// replaces `ln_1p(exp(0))`.
pub open spec fn pairwise_s<T: Ln2>(x: T, y: T) -> T {
    if y.key_s() < x.key_s() {
        x.add_s(y.sub_s(x).exp_s().ln_1p_s())
    } else if x.key_s() < y.key_s() {
        y.add_s(x.sub_s(y).exp_s().ln_1p_s())
    } else {
        x.add_s(T::ln_2_s())
    }
}

/// The strict two-term addition: the raw combination when it stays a
/// well-formed log-probability, nothing otherwise.
pub open spec fn add_strict_s<T: Ln2>(x: T, y: T) -> Option<T> {
    if valid_log(pairwise_s(x, y)) {
        Some(pairwise_s(x, y))
    } else {
        None
    }
}

/// The clamped two-term addition: the raw combination when it stays a
/// well-formed log-probability, the saturation value zero otherwise.
pub open spec fn add_clamped_s<T: Ln2>(x: T, y: T) -> T {
    if valid_log(pairwise_s(x, y)) {
        pairwise_s(x, y)
    } else {
        T::zero_s()
    }
}

/// Overflow is handled coherently across the three two-term variants:
/// exactly when the raw combination leaves the valid domain (the raw
/// probabilities sum to more than one), the strict addition fails and the
/// clamped addition yields the saturation value zero; otherwise both agree
/// with the raw combination.
pub proof fn lemma_add_overflow_agreement<T: Ln2>(x: T, y: T)
    requires
        valid_log(x),
        valid_log(y),
    ensures
        !valid_log(pairwise_s(x, y)) ==> (add_strict_s(x, y) is None && add_clamped_s(x, y)
            == T::zero_s()),
        valid_log(pairwise_s(x, y)) ==> (add_strict_s(x, y) == Some(pairwise_s(x, y))
            && add_clamped_s(x, y) == pairwise_s(x, y)),
{
}

impl<T: Ln2> LogProb<T> {
    /// The shared two-term kernel. The result may be positive (the raw
    /// probabilities may sum to more than one) but is never NaN.
    fn add_log_prob_internal(x: T, y: T) -> (r: T)
        requires
            !x.is_nan_s(),
            !y.is_nan_s(),
        ensures
            r == pairwise_s(x, y),
            !r.is_nan_s(),
    {
        proof {
            T::lemma_key_coherence(x, y);
            T::lemma_key_coherence(y, x);
        }
        if y.key_lt(x) {
            let d = y.fsub(x);
            let l = d.fexp().fln_1p();
            proof {
                T::lemma_key_coherence(l, x);
            }
            x.fadd(l)
        } else if x.key_lt(y) {
            let d = x.fsub(y);
            let l = d.fexp().fln_1p();
            proof {
                T::lemma_key_coherence(l, y);
            }
            y.fadd(l)
        } else {
            let t = T::ln_2();
            proof {
                T::lemma_key_coherence(t, x);
            }
            x.fadd(t)
        }
    }

    /// Adds two log-probabilities as raw probabilities (`ln(p + q)`) and
    /// returns the new log-probability, failing when the raw probabilities
    /// sum to more than one.
    pub fn add_log_prob(&self, y: LogProb<T>) -> (r: Result<
        LogProb<T>,
        ProbabilitiesSumToGreaterThanOne,
    >)
        ensures
            match r {
                Ok(z) => add_strict_s(self.value(), y.value()) == Some(z.value()),
                Err(_) => add_strict_s(self.value(), y.value()) is None,
            },
    {
        proof {
            use_type_invariant(&*self);
            use_type_invariant(&y);
        }
        let raw = Self::add_log_prob_internal(self.0, y.0);
        match LogProb::new(raw) {
            Ok(p) => Ok(p),
            Err(e) => Err(ProbabilitiesSumToGreaterThanOne::from(e)),
        }
    }

    /// Adds two log-probabilities as raw probabilities, clamping at zero
    /// (the probability one) instead of failing. The clamped result is a
    /// lossy approximation: a sum slightly over one is rounded down to one.
    pub fn add_log_prob_clamped(&self, y: LogProb<T>) -> (r: LogProb<T>)
        ensures
            r.value() == add_clamped_s(self.value(), y.value()),
    {
        match self.add_log_prob(y) {
            Ok(x) => x,
            Err(_) => LogProb::from_valid(T::zero()),
        }
    }

    /// Adds two log-probabilities as raw probabilities and returns the raw
    /// value, which may be greater than zero. A diagnostic escape hatch:
    /// the result must not be fed back as a validated log-probability.
    pub fn add_log_prob_float(&self, y: LogProb<T>) -> (r: T)
        ensures
            r == pairwise_s(self.value(), y.value()),
    {
        proof {
            use_type_invariant(&*self);
            use_type_invariant(&y);
        }
        Self::add_log_prob_internal(self.0, y.0)
    }
}

/// The element a maximum search settles on: the last element whose key is
/// no smaller than every earlier one, as a left fold.
pub open spec fn max_last_s<T: Ln2>(s: Seq<T>) -> T
    recommends
        s.len() > 0,
    decreases s.len(),
{
    if s.len() <= 1 {
        s[0]
    } else {
        let m = max_last_s(s.drop_last());
        if m.key_s() <= s.last().key_s() {
            s.last()
        } else {
            m
        }
    }
}

/// The value the maximum search settles on is one of the elements, and no
/// element's key is above its key: any maximal element would do for the
/// buffered shift, and this fold picks the last of them.
pub proof fn lemma_max_last_is_max<T: Ln2>(s: Seq<T>)
    requires
        s.len() > 0,
    ensures
        exists|i: int| 0 <= i < s.len() && s[i] == max_last_s(s),
        forall|i: int| 0 <= i < s.len() ==> s[i].key_s() <= max_last_s(s).key_s(),
    decreases s.len(),
{
    if s.len() == 1 {
        assert(s[0] == max_last_s(s));
    } else {
        lemma_max_last_is_max(s.drop_last());
        let m = max_last_s(s.drop_last());
        if m.key_s() <= s.last().key_s() {
            assert(s[s.len() - 1] == max_last_s(s));
        } else {
            let i = choose|i: int| 0 <= i < s.drop_last().len() && s.drop_last()[i] == m;
            assert(s[i] == max_last_s(s));
        }
        assert forall|i: int| 0 <= i < s.len() implies s[i].key_s() <= max_last_s(s).key_s() by {
            if i < s.len() - 1 {
                assert(s.drop_last()[i] == s[i]);
            }
        }
    }
}

/// The left-fold sum of the shifted exponentials `exp(x - m)`, starting
/// from zero.
pub open spec fn sum_exp_s<T: Ln2>(s: Seq<T>, m: T) -> T
    decreases s.len(),
{
    if s.len() == 0 {
        T::zero_s()
    } else {
        sum_exp_s(s.drop_last(), m).add_s(s.last().sub_s(m).exp_s())
    }
}

/// The raw buffered log-sum-exp with the shift `m`: the logarithm of the
/// sum of shifted exponentials, with the shift added back.
pub open spec fn lse_inner_s<T: Ln2>(s: Seq<T>, m: T) -> T {
    sum_exp_s(s, m).ln_s().add_s(m)
}

/// The raw buffered log-sum-exp of a non-empty sequence: shifted by its
/// maximum, so that the largest argument of `exp` is exactly zero.
pub open spec fn lse_buffered_s<T: Ln2>(s: Seq<T>) -> T
    recommends
        s.len() > 0,
{
    lse_inner_s(s, max_last_s(s))
}

/// The streaming log-sum-exp: a left fold of the two-term kernel that
/// stops at the first combination leaving the valid domain. Each step
/// combines the next element with the accumulator, in that order.
pub open spec fn lse_stream_s<T: Ln2>(s: Seq<T>, acc: T) -> Option<T>
    decreases s.len(),
{
    if s.len() == 0 {
        Some(acc)
    } else {
        let w = pairwise_s(s[0], acc);
        if valid_log(w) {
            lse_stream_s(s.drop_first(), w)
        } else {
            None
        }
    }
}

/// The raw streaming fold of the two-term kernel, never validated.
pub open spec fn fold_pairwise_s<T: Ln2>(s: Seq<T>, acc: T) -> T
    decreases s.len(),
{
    if s.len() == 0 {
        acc
    } else {
        fold_pairwise_s(s.drop_first(), pairwise_s(s[0], acc))
    }
}

/// The maximum of a non-empty slice of log-probabilities (the last
/// maximal element, when several are equal).
fn max_log_prob<T: Ln2>(val: &[LogProb<T>]) -> (r: LogProb<T>)
    requires
        val@.len() > 0,
    ensures
        r.value() == max_last_s(values_s(val@)),
{
    let mut m = val[0];
    let mut i: usize = 1;
    while i < val.len()
        invariant
            1 <= i <= val@.len(),
            m.value() == max_last_s(values_s(val@).take(i as int)),
        decreases val@.len() - i,
    {
        let x = val[i];
        proof {
            use_type_invariant(&m);
            use_type_invariant(&x);
            assert(values_s(val@).take(i as int + 1).drop_last() =~= values_s(val@).take(
                i as int,
            ));
            assert(values_s(val@).take(i as int + 1).last() == val@[i as int].value());
        }
        if !x.0.key_lt(m.0) {
            m = x;
        }
        i += 1;
    }
    proof {
        assert(values_s(val@).take(val@.len() as int) =~= values_s(val@));
    }
    m
}

/// The buffered shift-and-sum pass over a slice, with the shift `max`.
fn log_sum_exp_inner<T: Ln2>(val: &[LogProb<T>], max: LogProb<T>) -> (r: T)
    ensures
        r == lse_inner_s(values_s(val@), max.value()),
{
    let mut acc = T::zero();
    let mut i: usize = 0;
    while i < val.len()
        invariant
            i <= val@.len(),
            acc == sum_exp_s(values_s(val@).take(i as int), max.value()),
        decreases val@.len() - i,
    {
        let x = val[i];
        proof {
            assert(values_s(val@).take(i as int + 1).drop_last() =~= values_s(val@).take(
                i as int,
            ));
            assert(values_s(val@).take(i as int + 1).last() == val@[i as int].value());
        }
        acc = acc.fadd(x.0.fsub(max.0).fexp());
        i += 1;
    }
    proof {
        assert(values_s(val@).take(val@.len() as int) =~= values_s(val@));
    }
    acc.fln().fadd(max.0)
}

/// Adds up a slice of log-probabilities as raw probabilities, by the
/// buffered max-and-shift strategy, failing when the sum leaves the valid
/// domain. An empty slice yields negative infinity: the probability zero.
pub fn log_sum_exp<T: Ln2>(val: &[LogProb<T>]) -> (r: Result<
    LogProb<T>,
    ProbabilitiesSumToGreaterThanOne,
>)
    ensures
        val@.len() == 0 ==> (r matches Ok(p) && p.value() == T::neg_infinity_s()),
        val@.len() > 0 ==> (match r {
            Ok(p) => valid_log(lse_buffered_s(values_s(val@))) && p.value() == lse_buffered_s(
                values_s(val@),
            ),
            Err(_) => !valid_log(lse_buffered_s(values_s(val@))),
        }),
{
    if val.len() == 0 {
        return Ok(LogProb::from_valid(T::neg_infinity()));
    }
    let m = max_log_prob(val);
    let raw = log_sum_exp_inner(val, m);
    match LogProb::new(raw) {
        Ok(p) => Ok(p),
        Err(e) => Err(ProbabilitiesSumToGreaterThanOne::from(e)),
    }
}

/// Adds up a slice of log-probabilities as raw probabilities, by the
/// buffered max-and-shift strategy, clamping a sum over one at zero. An
/// empty slice yields negative infinity: the probability zero.
pub fn log_sum_exp_clamped<T: Ln2>(val: &[LogProb<T>]) -> (r: LogProb<T>)
    ensures
        val@.len() == 0 ==> r.value() == T::neg_infinity_s(),
        val@.len() > 0 ==> r.value() == (if valid_log(lse_buffered_s(values_s(val@))) {
            lse_buffered_s(values_s(val@))
        } else {
            T::zero_s()
        }),
{
    if val.len() == 0 {
        return LogProb::from_valid(T::neg_infinity());
    }
    let m = max_log_prob(val);
    let raw = log_sum_exp_inner(val, m);
    match LogProb::new(raw) {
        Ok(p) => p,
        Err(_) => LogProb::from_valid(T::zero()),
    }
}

/// Adds up a slice of log-probabilities as raw probabilities, by the
/// buffered max-and-shift strategy, returning the raw value whether or not
/// it would be a well-formed log-probability. An empty slice yields
/// negative infinity.
pub fn log_sum_exp_float<T: Ln2>(val: &[LogProb<T>]) -> (r: T)
    ensures
        val@.len() == 0 ==> r == T::neg_infinity_s(),
        val@.len() > 0 ==> r == lse_buffered_s(values_s(val@)),
{
    if val.len() == 0 {
        return T::neg_infinity();
    }
    let m = max_log_prob(val);
    log_sum_exp_inner(val, m)
}

/// Adds up a slice of log-probabilities as raw probabilities, by the
/// streaming strategy: a left fold of the two-term kernel, without an
/// intermediate buffer, failing at the first combination that leaves the
/// valid domain. An empty slice yields negative infinity.
pub fn log_sum_exp_no_alloc<T: Ln2>(val: &[LogProb<T>]) -> (r: Result<
    LogProb<T>,
    ProbabilitiesSumToGreaterThanOne,
>)
    ensures
        val@.len() == 0 ==> (r matches Ok(p) && p.value() == T::neg_infinity_s()),
        val@.len() > 0 ==> (match r {
            Ok(p) => lse_stream_s(values_s(val@).drop_first(), values_s(val@)[0]) == Some(
                p.value(),
            ),
            Err(_) => lse_stream_s(values_s(val@).drop_first(), values_s(val@)[0]) is None,
        }),
{
    if val.len() == 0 {
        return Ok(LogProb::from_valid(T::neg_infinity()));
    }
    let mut acc = val[0];
    let mut i: usize = 1;
    proof {
        assert(values_s(val@).drop_first() =~= values_s(val@).skip(1));
    }
    while i < val.len()
        invariant
            1 <= i <= val@.len(),
            lse_stream_s(values_s(val@).drop_first(), values_s(val@)[0]) == lse_stream_s(
                values_s(val@).skip(i as int),
                acc.value(),
            ),
        decreases val@.len() - i,
    {
        let x = val[i];
        proof {
            use_type_invariant(&x);
            use_type_invariant(&acc);
            assert(values_s(val@).skip(i as int)[0] == val@[i as int].value());
            assert(values_s(val@).skip(i as int).drop_first() =~= values_s(val@).skip(
                i as int + 1,
            ));
        }
        let raw = LogProb::add_log_prob_internal(x.0, acc.0);
        match LogProb::new(raw) {
            Ok(p) => {
                acc = p;
            },
            Err(_) => {
                return Err(ProbabilitiesSumToGreaterThanOne);
            },
        }
        i += 1;
    }
    proof {
        assert(values_s(val@).skip(val@.len() as int) =~= Seq::<T>::empty());
    }
    Ok(acc)
}

/// Adds up a slice of log-probabilities as raw probabilities, by the
/// streaming strategy, clamping at zero. The fold short-circuits: at the
/// first combination that leaves the valid domain the clamp value is
/// returned without examining the remaining elements, a deliberate
/// approximation (the remaining mass could only push the true sum further
/// over one, which the clamp already represents). An empty slice yields
/// negative infinity.
pub fn log_sum_exp_clamped_no_alloc<T: Ln2>(val: &[LogProb<T>]) -> (r: LogProb<T>)
    ensures
        val@.len() == 0 ==> r.value() == T::neg_infinity_s(),
        val@.len() > 0 ==> (match lse_stream_s(
            values_s(val@).drop_first(),
            values_s(val@)[0],
        ) {
            Some(v) => r.value() == v,
            None => r.value() == T::zero_s(),
        }),
{
    if val.len() == 0 {
        return LogProb::from_valid(T::neg_infinity());
    }
    let mut acc = val[0];
    let mut i: usize = 1;
    proof {
        assert(values_s(val@).drop_first() =~= values_s(val@).skip(1));
    }
    while i < val.len()
        invariant
            1 <= i <= val@.len(),
            lse_stream_s(values_s(val@).drop_first(), values_s(val@)[0]) == lse_stream_s(
                values_s(val@).skip(i as int),
                acc.value(),
            ),
        decreases val@.len() - i,
    {
        let x = val[i];
        proof {
            use_type_invariant(&x);
            use_type_invariant(&acc);
            assert(values_s(val@).skip(i as int)[0] == val@[i as int].value());
            assert(values_s(val@).skip(i as int).drop_first() =~= values_s(val@).skip(
                i as int + 1,
            ));
        }
        let raw = LogProb::add_log_prob_internal(x.0, acc.0);
        match LogProb::new(raw) {
            Ok(p) => {
                acc = p;
            },
            Err(_) => {
                return LogProb::from_valid(T::zero());
            },
        }
        i += 1;
    }
    proof {
        assert(values_s(val@).skip(val@.len() as int) =~= Seq::<T>::empty());
    }
    acc
}

/// Adds up a slice of log-probabilities as raw probabilities, by the
/// streaming strategy, returning the raw fold of the two-term kernel with
/// no validation at all. An empty slice yields negative infinity.
pub fn log_sum_exp_float_no_alloc<T: Ln2>(val: &[LogProb<T>]) -> (r: T)
    ensures
        val@.len() == 0 ==> r == T::neg_infinity_s(),
        val@.len() > 0 ==> r == fold_pairwise_s(values_s(val@).drop_first(), values_s(val@)[0]),
{
    if val.len() == 0 {
        return T::neg_infinity();
    }
    let first = val[0];
    proof {
        use_type_invariant(&first);
        assert(values_s(val@).drop_first() =~= values_s(val@).skip(1));
    }
    let mut acc = first.0;
    let mut i: usize = 1;
    while i < val.len()
        invariant
            1 <= i <= val@.len(),
            !acc.is_nan_s(),
            fold_pairwise_s(values_s(val@).drop_first(), values_s(val@)[0]) == fold_pairwise_s(
                values_s(val@).skip(i as int),
                acc,
            ),
        decreases val@.len() - i,
    {
        let x = val[i];
        proof {
            use_type_invariant(&x);
            assert(values_s(val@).skip(i as int)[0] == val@[i as int].value());
            assert(values_s(val@).skip(i as int).drop_first() =~= values_s(val@).skip(
                i as int + 1,
            ));
        }
        acc = LogProb::add_log_prob_internal(x.0, acc);
        i += 1;
    }
    proof {
        assert(values_s(val@).skip(val@.len() as int) =~= Seq::<T>::empty());
    }
    acc
}

} // verus!
