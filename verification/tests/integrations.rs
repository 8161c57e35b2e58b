use logprob::log_sum_exp;
use logprob::log_sum_exp_clamped;
use logprob::log_sum_exp_clamped_no_alloc;
use logprob::log_sum_exp_float;
use logprob::log_sum_exp_float_no_alloc;
use logprob::log_sum_exp_no_alloc;
use logprob::softmax;
use logprob::FloatIsNanOrPositive;
use logprob::FloatIsNanOrPositiveInfinity;
use logprob::Ln2;
use logprob::LogProb;
use logprob::ProbabilitiesSumToGreaterThanOne;

/// A 64-bit floating-point host for the library's numeric capability.
#[derive(Clone, Copy, Debug, PartialEq)]
struct F64(f64);

impl Ln2 for F64 {
    fn is_nan(self) -> bool {
        self.0.is_nan()
    }
    fn is_zero(self) -> bool {
        self.0 == 0.0
    }
    fn is_sign_positive(self) -> bool {
        self.0.is_sign_positive()
    }
    fn is_infinite(self) -> bool {
        self.0.is_infinite()
    }
    fn key_lt(self, o: Self) -> bool {
        self.0 < o.0
    }
    fn zero() -> Self {
        F64(0.0)
    }
    fn neg_infinity() -> Self {
        F64(f64::NEG_INFINITY)
    }
    fn ln_2() -> Self {
        F64(std::f64::consts::LN_2)
    }
    fn fadd(self, o: Self) -> Self {
        F64(self.0 + o.0)
    }
    fn fsub(self, o: Self) -> Self {
        F64(self.0 - o.0)
    }
    fn fmul(self, o: Self) -> Self {
        F64(self.0 * o.0)
    }
    fn fexp(self) -> Self {
        F64(self.0.exp())
    }
    fn fln(self) -> Self {
        F64(self.0.ln())
    }
    fn fln_1p(self) -> Self {
        F64(self.0.ln_1p())
    }
    fn fneg(self) -> Self {
        F64(-self.0)
    }
    fn from_count(n: u64) -> Self {
        F64(n as f64)
    }
    // the key laws hold of the total order on non-NaN floats; there is
    // nothing executable to discharge
    fn lemma_key_coherence(_a: Self, _b: Self) {
    }
}

/// A 32-bit floating-point host for the library's numeric capability.
#[derive(Clone, Copy, Debug, PartialEq)]
struct F32(f32);

impl Ln2 for F32 {
    fn is_nan(self) -> bool {
        self.0.is_nan()
    }
    fn is_zero(self) -> bool {
        self.0 == 0.0
    }
    fn is_sign_positive(self) -> bool {
        self.0.is_sign_positive()
    }
    fn is_infinite(self) -> bool {
        self.0.is_infinite()
    }
    fn key_lt(self, o: Self) -> bool {
        self.0 < o.0
    }
    fn zero() -> Self {
        F32(0.0)
    }
    fn neg_infinity() -> Self {
        F32(f32::NEG_INFINITY)
    }
    fn ln_2() -> Self {
        F32(std::f32::consts::LN_2)
    }
    fn fadd(self, o: Self) -> Self {
        F32(self.0 + o.0)
    }
    fn fsub(self, o: Self) -> Self {
        F32(self.0 - o.0)
    }
    fn fmul(self, o: Self) -> Self {
        F32(self.0 * o.0)
    }
    fn fexp(self) -> Self {
        F32(self.0.exp())
    }
    fn fln(self) -> Self {
        F32(self.0.ln())
    }
    fn fln_1p(self) -> Self {
        F32(self.0.ln_1p())
    }
    fn fneg(self) -> Self {
        F32(-self.0)
    }
    fn from_count(n: u64) -> Self {
        F32(n as f32)
    }
    // the key laws hold of the total order on non-NaN floats; there is
    // nothing executable to discharge
    fn lemma_key_coherence(_a: Self, _b: Self) {
    }
}

fn lp(v: f64) -> LogProb<F64> {
    LogProb::new(F64(v)).unwrap()
}

fn from_p(p: f64) -> LogProb<F64> {
    LogProb::from_raw_prob(F64(p)).unwrap()
}

fn assert_close(a: f64, b: f64) {
    if a == b {
        return;
    }
    let diff = (a - b).abs();
    let scale = a.abs().max(b.abs());
    assert!(
        diff <= 1e-9 * scale + 1e-12,
        "{} and {} differ by {}",
        a,
        b,
        diff
    );
}

#[test]
fn basic_construction() {
    LogProb::new(F64(-3.0)).unwrap();
    LogProb::new(F64(f64::NEG_INFINITY)).unwrap();
    LogProb::new(F64(0.0)).unwrap();
    LogProb::new(F64(-0.0)).unwrap();
    assert!(LogProb::new(F64(3.0)).is_err());
    assert!(LogProb::new(F64(f64::NAN)).is_err());
    assert!(LogProb::new(F64(f64::INFINITY)).is_err());
    assert!(LogProb::new(F64(23434.3432)).is_err());

    let x: LogProb<F32> = LogProb::new(F32(-3.0_f32)).unwrap();
    assert_eq!(x, LogProb::new(F32(-3.0_f32)).unwrap());
    let x: LogProb<F64> = LogProb::new(F64(f64::NEG_INFINITY)).unwrap();
    assert_eq!(x, LogProb::new(F64(f64::NEG_INFINITY)).unwrap());

    LogProb::new(F64(-3.0_f64)).unwrap();
    LogProb::new(F32(f32::NEG_INFINITY)).unwrap();
    LogProb::new(F32(0.0_f32)).unwrap();
    LogProb::new(F32(-0.0_f32)).unwrap();
    assert!(LogProb::new(F32(3.0_f32)).is_err());
    assert!(LogProb::new(F32(f32::NAN)).is_err());
    assert!(LogProb::new(F32(f32::INFINITY)).is_err());
    assert!(LogProb::new(F32(23434.34_f32)).is_err());
}

#[test]
fn addition() {
    let x = lp(-3.0).add(lp(-3.0));
    assert_eq!(x, lp(-6.0));

    let x = lp(-0.0).add(lp(0.0));
    assert_eq!(x, lp(-0.0));
    assert_eq!(x, lp(0.0));

    let x = lp(-0.0).add(lp(0.0));
    assert_eq!(x, lp(-0.0));
    assert_eq!(x, lp(0.0));

    let mut x = lp(-0.0).add(lp(0.0));
    assert_eq!(x, lp(-0.0));
    assert_eq!(x, lp(0.0));

    x.add_in_place(lp(-0.5));
    assert_eq!(x, lp(-0.5));

    x.add_in_place(lp(-0.5));
    assert_eq!(x, lp(-1.0));

    let x = lp(-0.5).add(lp(f64::NEG_INFINITY));
    assert_eq!(x, lp(f64::NEG_INFINITY));
}

#[test]
fn multiplication() {
    let x: LogProb<F64> = lp(-3.0).scale_by_count(4);
    assert_eq!(x, lp(-12.0));

    let x: LogProb<F64> = lp(-6.0).scale_by_count(2);
    assert_eq!(x, lp(-12.0));

    let x: LogProb<F64> = lp(-1.5).scale_by_count(8);
    assert_eq!(x, lp(-12.0));

    let x: LogProb<F64> = lp(-12.0).scale_by_count(1);
    assert_eq!(x, lp(-12.0));

    let x: LogProb<F64> = lp(-3.0).scale_by_count(1);
    assert_eq!(x, lp(-3.0));

    let x: LogProb<F64> = lp(-3.0).scale_by_count(0);
    assert_eq!(x, lp(0.0));

    let x: LogProb<F64> = lp(f64::NEG_INFINITY).scale_by_count(2);
    assert_eq!(x, lp(f64::NEG_INFINITY));

    let x: LogProb<F32> = LogProb::new(F32(-3.0)).unwrap().scale_by_count(4);
    assert_eq!(x, LogProb::new(F32(-12.0)).unwrap());
}

#[test]
fn add_probs_test() {
    let x = from_p(0.5);
    let y = from_p(0.25);
    assert_eq!(x.into_inner(), F64(0.5_f64.ln()));
    assert_eq!(y.into_inner(), F64(0.25_f64.ln()));

    let z = x.add_log_prob(y).unwrap();
    assert_eq!(z, from_p(0.75));
    assert!(x.add_log_prob(z).is_err());
    assert_eq!(x.add_log_prob_clamped(z), lp(0.0));
    assert_close(x.add_log_prob_float(z).0, (0.75 + 0.5_f64).ln());

    let x = from_p(0.5);
    let y = from_p(0.5);
    let z = x.add_log_prob(y).unwrap();
    assert_eq!(z, lp(0.0));

    let v: Vec<LogProb<F64>> = [0.5, 0.2, 0.3].iter().map(|&p| from_p(p)).collect();
    let sum = log_sum_exp_no_alloc(&v).unwrap();
    assert_close(sum.into_inner().0, lp(0.0).into_inner().0);

    let sum = log_sum_exp(&v).unwrap();
    assert_close(sum.into_inner().0, lp(0.0).into_inner().0);

    let v: Vec<LogProb<F64>> = [0.5, 0.5, 0.3].iter().map(|&p| from_p(p)).collect();
    assert!(log_sum_exp_no_alloc(&v).is_err());
    assert!(log_sum_exp(&v).is_err());

    let v: Vec<LogProb<F64>> = [0.5, 0.5, 0.5].iter().map(|&p| from_p(p)).collect();
    let sum = log_sum_exp_clamped_no_alloc(&v);
    assert_close(sum.into_inner().0, 0.0);
    let sum = log_sum_exp_clamped(&v);
    assert_close(sum.into_inner().0, 0.0);

    let v: Vec<LogProb<F64>> = [0.5, 0.3, 0.0, 0.0].iter().map(|&p| from_p(p)).collect();
    let sum = log_sum_exp_clamped_no_alloc(&v);
    assert_close(sum.into_inner().0, 0.8_f64.ln());
    let sum = log_sum_exp_clamped(&v);
    assert_close(sum.into_inner().0, 0.8_f64.ln());

    let v: Vec<LogProb<F64>> = [0.5, 0.5, 0.5, 0.0].iter().map(|&p| from_p(p)).collect();
    let sum = log_sum_exp_float_no_alloc(&v);
    assert_close(sum.0, 1.5_f64.ln());
    let sum = log_sum_exp_float(&v);
    assert_close(sum.0, 1.5_f64.ln());

    let v: Vec<LogProb<F64>> = [0.5, 0.5, 0.5].iter().map(|&p| from_p(p)).collect();
    assert!(log_sum_exp(&v).is_err());
    assert_close(log_sum_exp_float(&v).0, 1.5_f64.ln());
    assert_close(log_sum_exp_clamped(&v).into_inner().0, 0.0);

    let v_2: Vec<LogProb<F64>> = v.iter().cloned().collect();
    assert!(log_sum_exp(&v_2).is_err());
    assert_close(log_sum_exp_float(&v_2).0, 1.5_f64.ln());
    assert_close(log_sum_exp_clamped(&v_2).into_inner().0, 0.0);

    let v: Vec<LogProb<F64>> = vec![];
    assert_eq!(log_sum_exp(&v).unwrap(), lp(f64::NEG_INFINITY));
    assert_eq!(log_sum_exp_no_alloc(&v).unwrap(), lp(f64::NEG_INFINITY));
    assert_eq!(log_sum_exp_clamped(&v), lp(f64::NEG_INFINITY));
    assert_eq!(log_sum_exp_clamped_no_alloc(&v), lp(f64::NEG_INFINITY));
    assert_eq!(log_sum_exp_float(&v), F64(f64::NEG_INFINITY));
    assert_eq!(log_sum_exp_float_no_alloc(&v), F64(f64::NEG_INFINITY));

    assert_eq!(log_sum_exp(&v).unwrap(), lp(f64::NEG_INFINITY));
    assert_eq!(log_sum_exp_float(&v), F64(f64::NEG_INFINITY));
    assert_eq!(log_sum_exp_clamped(&v), lp(f64::NEG_INFINITY));
}

#[test]
fn round_trip_raw_prob() {
    for &p in &[1.0, 0.75, 0.5, 0.25, 0.1, 1e-3, 1e-9, 1e-300] {
        let x = from_p(p);
        assert_close(x.raw_prob().0, p);
    }
}

#[test]
fn additive_correctness() {
    for &(p, q) in &[(0.5, 0.25), (0.1, 0.8), (1e-9, 0.5), (0.3, 0.3)] {
        let z = from_p(p).add_log_prob(from_p(q)).unwrap();
        assert_close(z.into_inner().0, from_p(p + q).into_inner().0);
    }
}

#[test]
fn overflow_detection() {
    let x = from_p(0.5);
    let y = from_p(0.75);
    assert_eq!(
        x.add_log_prob(y),
        Err(ProbabilitiesSumToGreaterThanOne)
    );
    assert_eq!(x.add_log_prob_clamped(y), lp(0.0));
    assert_eq!(x.add_log_prob_clamped(y), from_p(1.0));
    assert_close(x.add_log_prob_float(y).0, 1.25_f64.ln());
    assert!(x.add_log_prob_float(y).0 > 0.0);
}

#[test]
fn empty_sequences_are_negative_infinity() {
    let v: Vec<LogProb<F64>> = vec![];
    assert_eq!(log_sum_exp(&v).unwrap(), lp(f64::NEG_INFINITY));
    assert_eq!(log_sum_exp_no_alloc(&v).unwrap(), lp(f64::NEG_INFINITY));
    assert_eq!(log_sum_exp_clamped(&v), lp(f64::NEG_INFINITY));
    assert_eq!(log_sum_exp_clamped_no_alloc(&v), lp(f64::NEG_INFINITY));
    assert_eq!(log_sum_exp_float(&v), F64(f64::NEG_INFINITY));
    assert_eq!(log_sum_exp_float_no_alloc(&v), F64(f64::NEG_INFINITY));

    let w: Vec<LogProb<F32>> = vec![];
    assert_eq!(
        log_sum_exp(&w).unwrap(),
        LogProb::new(F32(f32::NEG_INFINITY)).unwrap()
    );
    assert_eq!(
        log_sum_exp_no_alloc(&w).unwrap(),
        LogProb::new(F32(f32::NEG_INFINITY)).unwrap()
    );
    assert_eq!(log_sum_exp_float_no_alloc(&w), F32(f32::NEG_INFINITY));

    let out = softmax::<F64>(&[]).unwrap();
    assert!(out.is_empty());
}

#[test]
fn stability_large_magnitude_difference() {
    // ln(1e-300) and ln(0.5): the raw probabilities differ by three hundred
    // orders of magnitude; the sum is 0.5 + 1e-300, whose logarithm equals
    // ln(0.5) to double precision.
    let tiny = from_p(1e-300);
    let half = from_p(0.5);
    let z = half.add_log_prob(tiny).unwrap();
    assert!(!z.into_inner().0.is_nan());
    assert_close(z.into_inner().0, 0.5_f64.ln());

    let v = vec![tiny, half];
    let buffered = log_sum_exp_float(&v);
    let streaming = log_sum_exp_float_no_alloc(&v);
    assert!(!buffered.0.is_nan());
    assert!(!streaming.0.is_nan());
    assert_close(buffered.0, 0.5_f64.ln());
    assert_close(streaming.0, 0.5_f64.ln());

    let x = lp(-800.0);
    let y = lp(-100.0);
    let z = y.add_log_prob(x).unwrap();
    assert!(!z.into_inner().0.is_nan());
    assert_close(z.into_inner().0, -100.0);
}

#[test]
fn cross_strategy_agreement() {
    let mut seed: u64 = 0x9E3779B97F4A7C15;
    let mut next_unit = move || {
        seed = seed
            .wrapping_mul(6364136223846793005)
            .wrapping_add(1442695040888963407);
        ((seed >> 11) as f64 + 1.0) / (1u64 << 53) as f64
    };
    for &len in &[0usize, 1, 2, 3, 10, 100, 537, 1000] {
        let v: Vec<LogProb<F64>> = (0..len)
            .map(|_| LogProb::new(F64(next_unit().ln() * 5.0)).unwrap())
            .collect();
        let buffered = log_sum_exp_float(&v);
        let streaming = log_sum_exp_float_no_alloc(&v);
        if buffered.0.is_infinite() {
            assert_eq!(buffered, streaming);
        } else {
            assert_close(buffered.0, streaming.0);
        }
    }
}

#[test]
fn softmax_distribution() {
    let out = softmax(&[F64(1.0), F64(2.0), F64(3.0)]).unwrap();
    assert_eq!(out.len(), 3);
    let total: f64 = out.iter().map(|p| p.raw_prob().0).sum();
    assert_close(total, 1.0);
    // outputs proportional to e^1, e^2, e^3
    let p0 = out[0].raw_prob().0;
    let p1 = out[1].raw_prob().0;
    let p2 = out[2].raw_prob().0;
    assert_close(p1 / p0, 1.0_f64.exp());
    assert_close(p2 / p0, 2.0_f64.exp());

    let out = softmax(&[F64(-1000.0), F64(0.0), F64(1000.0)]).unwrap();
    let total: f64 = out.iter().map(|p| p.raw_prob().0).sum();
    assert_close(total, 1.0);

    // negative infinity is admissible and maps to zero mass
    let out = softmax(&[F64(f64::NEG_INFINITY), F64(0.0)]).unwrap();
    assert_eq!(out[0].raw_prob(), F64(0.0));
    assert_close(out[1].raw_prob().0, 1.0);

    let out = softmax(&[F32(1.0), F32(2.0), F32(3.0)]).unwrap();
    let total: f32 = out.iter().map(|p| p.raw_prob().0).sum();
    assert!((total - 1.0).abs() < 1e-5);
}

#[test]
fn softmax_rejects_nan_and_positive_infinity() {
    assert_eq!(
        softmax(&[F64(1.0), F64(f64::NAN), F64(2.0)]),
        Err(FloatIsNanOrPositiveInfinity)
    );
    assert_eq!(
        softmax(&[F64(1.0), F64(f64::INFINITY)]),
        Err(FloatIsNanOrPositiveInfinity)
    );
    assert_eq!(
        softmax(&[F32(f32::NAN)]),
        Err(FloatIsNanOrPositiveInfinity)
    );
}

#[test]
fn construction_error_value() {
    assert_eq!(LogProb::new(F64(3.0)), Err(FloatIsNanOrPositive));
    assert_eq!(
        LogProb::from_raw_prob(F64(1.5)),
        Err(FloatIsNanOrPositive)
    );
    assert_eq!(
        LogProb::from_raw_prob(F64(-0.5)),
        Err(FloatIsNanOrPositive)
    );
    assert_eq!(
        LogProb::from_raw_prob(F64(f64::NAN)),
        Err(FloatIsNanOrPositive)
    );
    assert_eq!(from_p(0.0), lp(f64::NEG_INFINITY));
    assert_eq!(from_p(1.0), lp(0.0));
}

#[test]
fn opposite_prob_complement() {
    let x = from_p(0.25);
    let y = from_p(0.75);
    assert_eq!(x.opposite_prob(), y);
    assert_close(from_p(1e-12).opposite_prob().raw_prob().0, 1.0 - 1e-12);
    assert_eq!(lp(0.0).opposite_prob(), lp(f64::NEG_INFINITY));
}

#[test]
fn ordering_is_total_on_log_probs() {
    assert!(lp(-2.0) < lp(-1.0));
    assert!(lp(f64::NEG_INFINITY) < lp(-1e300));
    assert!(lp(-1.0) <= lp(-1.0));
    assert!(lp(0.0) > lp(-1.0));
    assert!(lp(-0.0) <= lp(0.0));
    assert!(lp(0.0) <= lp(-0.0));
    assert_eq!(lp(-0.0).partial_cmp(&lp(0.0)), Some(std::cmp::Ordering::Equal));
}

#[test]
fn default_is_certainty() {
    let x: LogProb<F64> = Default::default();
    assert_eq!(x, lp(0.0));
    assert_close(x.raw_prob().0, 1.0);
}
