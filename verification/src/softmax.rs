use vstd::prelude::*;

use crate::adding::max_last_s;
use crate::adding::sum_exp_s;
use crate::errors::FloatIsNanOrPositiveInfinity;
use crate::numeric::valid_log;
use crate::numeric::Ln2;
use crate::LogProb;

verus! {

/// A softmax input element is admissible when it is neither NaN nor
/// positive infinity; negative infinity is fine and maps to zero
/// probability mass.
pub open spec fn admissible_s<T: Ln2>(x: T) -> bool {
    !x.is_nan_s() && !(x.is_infinite_s() && x.is_sign_positive_s())
}

/// Every element of the sequence is admissible.
pub open spec fn all_admissible_s<T: Ln2>(s: Seq<T>) -> bool {
    forall|i: int| 0 <= i < s.len() ==> admissible_s(s[i])
}

/// The shift of the softmax: the maximum element, or zero for an empty
/// input.
pub open spec fn softmax_shift_s<T: Ln2>(s: Seq<T>) -> T {
    if s.len() == 0 {
        T::zero_s()
    } else {
        max_last_s(s)
    }
}

/// The softmax output for position `i`: the element, less the logarithm of
/// the sum of shifted exponentials, less the shift.
pub open spec fn softmax_out_s<T: Ln2>(s: Seq<T>, i: int) -> T {
    let m = softmax_shift_s(s);
    s[i].sub_s(sum_exp_s(s, m).ln_s()).sub_s(m)
}

/// Normalizes a slice of raw values into log-probabilities whose raw
/// probabilities sum to one, by the buffered max-and-shift strategy. The
/// whole input is validated eagerly, before any output is produced: a NaN
/// or a positive infinity anywhere is rejected. Every output is
/// mathematically at most zero, so the per-element validation is expected
/// to succeed on any input the validation admits; a host numeric type
/// whose arithmetic breaks that expectation surfaces as the same error.
pub fn softmax<T: Ln2>(val: &[T]) -> (r: Result<Vec<LogProb<T>>, FloatIsNanOrPositiveInfinity>)
    ensures
        match r {
            Ok(out) => all_admissible_s(val@) && out@.len() == val@.len() && (forall|i: int|
                0 <= i < val@.len() ==> valid_log(softmax_out_s(val@, i)) && out@[i].value()
                    == softmax_out_s(val@, i)),
            Err(_) => !all_admissible_s(val@) || (exists|i: int|
                0 <= i < val@.len() && !valid_log(softmax_out_s(val@, i))),
        },
{
    let mut i: usize = 0;
    while i < val.len()
        invariant
            i <= val@.len(),
            forall|j: int| 0 <= j < i ==> admissible_s(val@[j]),
        decreases val@.len() - i,
    {
        let x = val[i];
        if x.is_nan() || (x.is_infinite() && x.is_sign_positive()) {
            return Err(FloatIsNanOrPositiveInfinity);
        }
        i += 1;
    }
    let m = if val.len() == 0 {
        T::zero()
    } else {
        max_raw(val)
    };
    let mut acc = T::zero();
    let mut i: usize = 0;
    while i < val.len()
        invariant
            i <= val@.len(),
            acc == sum_exp_s(val@.take(i as int), m),
        decreases val@.len() - i,
    {
        let x = val[i];
        proof {
            assert(val@.take(i as int + 1).drop_last() =~= val@.take(i as int));
        }
        acc = acc.fadd(x.fsub(m).fexp());
        i += 1;
    }
    proof {
        assert(val@.take(val@.len() as int) =~= val@);
    }
    let s_val = acc.fln();
    let mut out: Vec<LogProb<T>> = Vec::new();
    let mut i: usize = 0;
    while i < val.len()
        invariant
            i <= val@.len(),
            m == softmax_shift_s(val@),
            s_val == sum_exp_s(val@, m).ln_s(),
            out@.len() == i,
            forall|j: int| 0 <= j < i ==> valid_log(softmax_out_s(val@, j)) && out@[j].value()
                == softmax_out_s(val@, j),
        decreases val@.len() - i,
    {
        let o = val[i].fsub(s_val).fsub(m);
        if o.is_nan() || (!o.is_zero() && o.is_sign_positive()) {
            proof {
                assert((i as int) < val@.len() && !valid_log(softmax_out_s(val@, i as int)));
            }
            return Err(FloatIsNanOrPositiveInfinity);
        }
        out.push(LogProb::from_valid(o));
        i += 1;
    }
    Ok(out)
}

/// The maximum of a non-empty slice of NaN-free raw values (the last
/// maximal element, when several are equal).
fn max_raw<T: Ln2>(val: &[T]) -> (r: T)
    requires
        val@.len() > 0,
        forall|i: int| 0 <= i < val@.len() ==> !val@[i].is_nan_s(),
    ensures
        r == max_last_s(val@),
{
    let mut m = val[0];
    let mut i: usize = 1;
    while i < val.len()
        invariant
            1 <= i <= val@.len(),
            forall|j: int| 0 <= j < val@.len() ==> !val@[j].is_nan_s(),
            !m.is_nan_s(),
            m == max_last_s(val@.take(i as int)),
        decreases val@.len() - i,
    {
        let x = val[i];
        proof {
            assert(val@.take(i as int + 1).drop_last() =~= val@.take(i as int));
        }
        if !x.key_lt(m) {
            m = x;
        }
        i += 1;
    }
    proof {
        assert(val@.take(val@.len() as int) =~= val@);
    }
    m
}

} // verus!
