//! Inter-arrival-time (IAT) generation.
//!
//! A generator turns one minute's RPM target into a finite sequence of IATs
//! in microseconds whose sum stays within the minute.  Three arrival
//! processes are offered: Poisson (exponential IATs, fed by raw samples drawn
//! outside), Uniform (random IATs scaled to fill the minute), and Equidistant
//! (a constant IAT).

use vstd::prelude::*;

use vstd::arithmetic::div_mod::{
    lemma_div_multiples_vanish_fancy, lemma_fundamental_div_mod, lemma_multiply_divide_le,
};
use vstd::arithmetic::mul::lemma_mul_is_distributive_add;

use crate::rng::xoshiro_next_u64;
use crate::MICROSECONDS_PER_MINUTE;

verus! {

/// What can go wrong while generating IATs.
#[derive(Debug)]
pub enum IatError {
    /// The arrival process cannot be built at this rate (an RPM of zero).
    InvalidRate,
}

/// The sum of a sequence of IATs.
pub open spec fn sum_us(s: Seq<u64>) -> int
    decreases s.len(),
{
    if s.len() == 0 {
        0
    } else {
        s[0] + sum_us(s.skip(1))
    }
}

proof fn lemma_sum_us_nonneg(s: Seq<u64>)
    ensures
        sum_us(s) >= 0,
    decreases s.len(),
{
    if s.len() > 0 {
        lemma_sum_us_nonneg(s.skip(1));
    }
}

proof fn lemma_sum_us_push(s: Seq<u64>, x: u64)
    ensures
        sum_us(s.push(x)) == sum_us(s) + x,
    decreases s.len(),
{
    reveal_with_fuel(sum_us, 2);
    if s.len() == 0 {
        assert(s.push(x).skip(1) =~= Seq::<u64>::empty());
        assert(s.push(x)[0] == x);
        assert(sum_us(s.push(x)) == s.push(x)[0] + sum_us(s.push(x).skip(1)));
        assert(sum_us(s.push(x).skip(1)) == 0);
    } else {
        assert(s.push(x)[0] == s[0]);
        assert(s.push(x).skip(1) =~= s.skip(1).push(x));
        lemma_sum_us_push(s.skip(1), x);
        assert(sum_us(s.push(x)) == s.push(x)[0] + sum_us(s.push(x).skip(1)));
        assert(sum_us(s) == s[0] + sum_us(s.skip(1)));
    }
}

/// An IAT generator: one minute's worth of IATs from the RPM target, the
/// worker's generator, and (for arrival processes sampled outside) a supply
/// of raw samples in microseconds.
///
/// Whatever the variant: generation fails only at an invalid rate, never for
/// a positive RPM, and the emitted IATs never exceed the minute in sum.  Each
/// variant pins its exact outcome in `gen_post`, so a caller holding the
/// result of `gen` — directly or through the worker — knows which IATs the
/// arrival process produced.
pub trait IatGenerator: Sized {
    /// Exactly what this arrival process may return for one minute, as a
    /// relation over the RPM target, the raw samples, and the result.
    spec fn gen_post(&self, rpm: u32, raw_samples: Seq<u64>, r: Result<Vec<u64>, IatError>) -> bool;

    fn gen(
        &self,
        rpm: u32,
        rng: &mut rand_xoshiro::Xoshiro256PlusPlus,
        raw_samples: &[u64],
    ) -> (r: Result<Vec<u64>, IatError>)
        ensures
            self.gen_post(rpm, raw_samples@, r),
            rpm > 0 ==> r is Ok,
            r is Ok ==> sum_us(r->Ok_0@) <= MICROSECONDS_PER_MINUTE,
    ;
}

/// The prefix of a sample stream that a Poisson minute emits: samples are
/// taken while the running sum stays below the minute; the first sample that
/// would reach it ends the minute.
pub open spec fn poisson_take(s: Seq<u64>, total: int) -> Seq<u64>
    decreases s.len(),
{
    if s.len() == 0 {
        Seq::empty()
    } else if total + s[0] < MICROSECONDS_PER_MINUTE {
        seq![s[0]] + poisson_take(s.skip(1), total + s[0])
    } else {
        Seq::empty()
    }
}

/// What a Poisson minute emits from a raw sample stream.
pub open spec fn poisson_prefix(s: Seq<u64>) -> Seq<u64> {
    poisson_take(s, 0)
}

/// The Poisson budget bound: however the samples fall, what a minute emits
/// sums to strictly less than the minute.
pub proof fn lemma_poisson_take_sum(s: Seq<u64>, total: int)
    requires
        total < MICROSECONDS_PER_MINUTE,
    ensures
        sum_us(poisson_take(s, total)) + total < MICROSECONDS_PER_MINUTE,
    decreases s.len(),
{
    if s.len() > 0 && total + s[0] < MICROSECONDS_PER_MINUTE {
        lemma_poisson_take_sum(s.skip(1), total + s[0]);
        assert((seq![s[0]] + poisson_take(s.skip(1), total + s[0])).skip(1) =~= poisson_take(
            s.skip(1),
            total + s[0],
        ));
    }
}

/// Exponential IATs (a Poisson arrival process).  The exponential samples
/// themselves are drawn outside (they are floating-point work) and handed in
/// as whole microseconds; this generator enforces the minute budget exactly.
#[derive(Debug, Clone, Copy)]
pub struct Poisson;

impl IatGenerator for Poisson {
    /// The result is `Ok` exactly for a positive rate, and then holds the
    /// budgeted prefix of the raw samples.
    open spec fn gen_post(&self, rpm: u32, raw_samples: Seq<u64>, r: Result<Vec<u64>, IatError>) -> bool {
        &&& (r is Ok <==> rpm > 0)
        &&& (r is Ok ==> r->Ok_0@ == poisson_prefix(raw_samples))
        &&& (r is Ok ==> sum_us(r->Ok_0@) < MICROSECONDS_PER_MINUTE)
    }

    fn gen(
        &self,
        rpm: u32,
        _rng: &mut rand_xoshiro::Xoshiro256PlusPlus,
        raw_samples: &[u64],
    ) -> (r: Result<Vec<u64>, IatError>)
    {
        if rpm == 0 {
            return Err(IatError::InvalidRate);
        }
        proof {
            lemma_poisson_take_sum(raw_samples@, 0);
        }
        let mut iats: Vec<u64> = Vec::new();
        let mut total: u64 = 0;
        let mut i: usize = 0;
        proof {
            assert(raw_samples@.skip(0) =~= raw_samples@);
        }
        while i < raw_samples.len()
            invariant
                rpm > 0,
                i <= raw_samples@.len(),
                total == sum_us(iats@),
                total < MICROSECONDS_PER_MINUTE,
                poisson_prefix(raw_samples@) == iats@ + poisson_take(
                    raw_samples@.skip(i as int),
                    total as int,
                ),
            decreases raw_samples@.len() - i,
        {
            let s = raw_samples[i];
            proof {
                assert(raw_samples@.skip(i as int)[0] == raw_samples@[i as int]);
            }
            if s >= MICROSECONDS_PER_MINUTE - total {
                proof {
                    assert(poisson_take(raw_samples@.skip(i as int), total as int)
                        =~= Seq::<u64>::empty());
                    assert(iats@ + Seq::<u64>::empty() =~= iats@);
                    assert(iats@ == poisson_prefix(raw_samples@));
                }
                return Ok(iats);
            }
            proof {
                assert(raw_samples@.skip(i as int).skip(1) =~= raw_samples@.skip(i as int + 1));
                lemma_sum_us_push(iats@, s);
                assert(iats@ + (seq![s] + poisson_take(raw_samples@.skip(i as int + 1), total + s))
                    =~= iats@.push(s) + poisson_take(raw_samples@.skip(i as int + 1), total + s));
            }
            iats.push(s);
            total = total + s;
            i = i + 1;
        }
        proof {
            if i == raw_samples@.len() {
                assert(poisson_take(raw_samples@.skip(i as int), total as int)
                    =~= Seq::<u64>::empty());
                assert(iats@ + Seq::<u64>::empty() =~= iats@);
            }
        }
        Ok(iats)
    }
}

/// Bounds on how integer division distributes over a sum: the floored parts
/// sum to at most the floored whole, and fall short of it by less than one
/// unit per part.
proof fn lemma_div_sum_bounds(a: int, b: int, d: int)
    requires
        a >= 0,
        b >= 0,
        d > 0,
    ensures
        a / d + b / d <= (a + b) / d,
        (a + b) / d <= a / d + b / d + 1,
{
    lemma_fundamental_div_mod(a, d);
    lemma_fundamental_div_mod(b, d);
    let qa = a / d;
    let ra = a % d;
    let qb = b / d;
    let rb = b % d;
    lemma_mul_is_distributive_add(d, qa, qb);
    if ra + rb < d {
        assert(a + b == d * (qa + qb) + (ra + rb));
        lemma_div_multiples_vanish_fancy(qa + qb, ra + rb, d);
    } else {
        lemma_mul_is_distributive_add(d, qa + qb, 1);
        assert(a + b == d * (qa + qb + 1) + (ra + rb - d));
        lemma_div_multiples_vanish_fancy(qa + qb + 1, ra + rb - d, d);
    }
}

/// What a uniform minute emits for a given draw sequence: each draw's share
/// of the minute, the draw scaled by `minute / total`.
pub open spec fn uniform_scaled(draws: Seq<u64>, total: int) -> Seq<u64> {
    Seq::new(draws.len(), |i: int| (draws[i] * MICROSECONDS_PER_MINUTE / total) as u64)
}

/// Uniformly random IATs: one raw 64-bit draw per request, each scaled by
/// `minute / total` so that the minute is filled up to truncation error.
#[derive(Debug, Clone, Copy)]
pub struct Uniform;

impl IatGenerator for Uniform {
    /// Always `Ok`: exactly `rpm` IATs, the scaling of some draw sequence,
    /// filling the minute up to one microsecond of truncation per request.
    open spec fn gen_post(&self, rpm: u32, raw_samples: Seq<u64>, r: Result<Vec<u64>, IatError>) -> bool {
        &&& r is Ok
        &&& r->Ok_0@.len() == rpm
        &&& sum_us(r->Ok_0@) <= MICROSECONDS_PER_MINUTE
        &&& (sum_us(r->Ok_0@) == 0 || sum_us(r->Ok_0@) + rpm >= MICROSECONDS_PER_MINUTE)
        &&& exists|draws: Seq<u64>|
            #![trigger uniform_scaled(draws, sum_us(draws))]
            {
                &&& draws.len() == rpm
                &&& (sum_us(draws) > 0 ==> r->Ok_0@ == uniform_scaled(draws, sum_us(draws)))
                &&& (sum_us(draws) == 0 ==> sum_us(r->Ok_0@) == 0)
            }
    }

    fn gen(
        &self,
        rpm: u32,
        rng: &mut rand_xoshiro::Xoshiro256PlusPlus,
        _raw_samples: &[u64],
    ) -> (r: Result<Vec<u64>, IatError>)
    {
        let minute = MICROSECONDS_PER_MINUTE as u128;
        let n = rpm as usize;
        let mut draws: Vec<u64> = Vec::new();
        let mut k: usize = 0;
        while k < n
            invariant
                draws@.len() == k,
                k <= n,
            decreases n - k,
        {
            draws.push(xoshiro_next_u64(rng));
            k = k + 1;
        }
        let mut total: u128 = 0;
        let mut k: usize = 0;
        proof {
            assert(draws@.take(0) =~= Seq::<u64>::empty());
        }
        while k < n
            invariant
                draws@.len() == n,
                k <= n,
                n <= u32::MAX,
                total == sum_us(draws@.take(k as int)),
                total <= k * (u64::MAX as int),
            decreases n - k,
        {
            proof {
                lemma_sum_us_push(draws@.take(k as int), draws@[k as int]);
                assert(draws@.take(k as int).push(draws@[k as int]) =~= draws@.take(k as int + 1));
                lemma_mul_is_distributive_add(u64::MAX as int, k as int, 1);
                assert(n * (u64::MAX as int) < u128::MAX) by (nonlinear_arith)
                    requires
                        n <= u32::MAX,
                ;
            }
            total = total + draws[k] as u128;
            k = k + 1;
        }
        let mut iats: Vec<u64> = Vec::new();
        if total == 0 {
            let mut k: usize = 0;
            while k < n
                invariant
                    iats@.len() == k,
                    k <= n,
                    sum_us(iats@) == 0,
                decreases n - k,
            {
                proof {
                    lemma_sum_us_push(iats@, 0);
                }
                iats.push(0);
                k = k + 1;
            }
            proof {
                assert(draws@.take(n as int) =~= draws@);
                assert(uniform_scaled(draws@, sum_us(draws@)).len() == rpm);
            }
            return Ok(iats);
        }
        proof {
            assert(draws@.take(n as int) =~= draws@);
        }
        let mut k: usize = 0;
        while k < n
            invariant
                draws@.len() == n,
                k <= n,
                iats@.len() == k,
                minute == MICROSECONDS_PER_MINUTE as u128,
                0 < total == sum_us(draws@),
                sum_us(iats@) * total <= sum_us(draws@.take(k as int)) * (
                MICROSECONDS_PER_MINUTE as int),
                sum_us(iats@) >= 0,
                sum_us(draws@.take(k as int)) * (MICROSECONDS_PER_MINUTE as int) / (total as int)
                    <= sum_us(iats@) + k,
                forall|j: int|
                    0 <= j < k ==> #[trigger] iats@[j] == (draws@[j] * MICROSECONDS_PER_MINUTE
                        / (total as int)) as u64,
            decreases n - k,
        {
            let d = draws[k];
            proof {
                lemma_sum_us_nonneg(draws@.take(k as int));
                assert((d as int) * (MICROSECONDS_PER_MINUTE as int) < u128::MAX)
                    by (nonlinear_arith)
                    requires
                        d <= u64::MAX,
                ;
            }
            let scaled: u128 = (d as u128) * minute / total;
            proof {
                lemma_take_sum_le(draws@, k as int);
                assert((d as int) * (MICROSECONDS_PER_MINUTE as int) <= (total as int) * (
                MICROSECONDS_PER_MINUTE as int)) by (nonlinear_arith)
                    requires
                        0 <= d as int <= total as int,
                ;
                lemma_multiply_divide_le(
                    (d as int) * (MICROSECONDS_PER_MINUTE as int),
                    total as int,
                    MICROSECONDS_PER_MINUTE as int,
                );
                assert(scaled <= MICROSECONDS_PER_MINUTE);
            }
            let ghost old_iats = iats@;
            iats.push(scaled as u64);
            proof {
                lemma_sum_us_push(old_iats, scaled as u64);
                lemma_sum_us_push(draws@.take(k as int), draws@[k as int]);
                assert(draws@.take(k as int).push(draws@[k as int]) =~= draws@.take(k as int + 1));
                lemma_scaled_step(
                    sum_us(draws@.take(k as int)),
                    sum_us(old_iats),
                    d as int,
                    k as int,
                    total as int,
                    MICROSECONDS_PER_MINUTE as int,
                );
            }
            k = k + 1;
        }
        proof {
            assert(draws@.take(n as int) =~= draws@);
            lemma_final_bounds(draws@, iats@, total as int);
            assert(iats@ =~= uniform_scaled(draws@, sum_us(draws@)));
        }
        Ok(iats)
    }
}

/// A prefix of the draws sums to at most the whole.
proof fn lemma_take_sum_le(s: Seq<u64>, k: int)
    requires
        0 <= k < s.len(),
    ensures
        sum_us(s.take(k)) + s[k] <= sum_us(s),
    decreases s.len(),
{
    lemma_sum_us_push(s.take(k), s[k]);
    assert(s.take(k).push(s[k]) =~= s.take(k + 1));
    lemma_take_plus_rest(s, k + 1);
    lemma_sum_us_nonneg(s.skip(k + 1));
}

/// A sequence's sum splits at any point into prefix and suffix sums.
proof fn lemma_take_plus_rest(s: Seq<u64>, k: int)
    requires
        0 <= k <= s.len(),
    ensures
        sum_us(s) == sum_us(s.take(k)) + sum_us(s.skip(k)),
    decreases k,
{
    if k == 0 {
        assert(s.take(0) =~= Seq::<u64>::empty());
        assert(s.skip(0) =~= s);
    } else {
        lemma_take_plus_rest(s, k - 1);
        lemma_sum_us_push(s.take(k - 1), s[k - 1]);
        assert(s.take(k - 1).push(s[k - 1]) =~= s.take(k));
        assert(s.skip(k - 1) =~= seq![s[k - 1]] + s.skip(k));
        assert((seq![s[k - 1]] + s.skip(k)).skip(1) =~= s.skip(k));
    }
}

/// One scaling step keeps both running bounds: with `sd` the draws consumed
/// so far, `si` the IATs emitted so far, and `dk` the next draw, emitting
/// `dk * m / total` keeps the emitted sum between the exact share and one
/// unit per step below it.
proof fn lemma_scaled_step(sd: int, si: int, dk: int, k: int, total: int, m: int)
    requires
        total > 0,
        m >= 0,
        dk >= 0,
        sd >= 0,
        si >= 0,
        k >= 0,
        si * total <= sd * m,
        sd * m / total <= si + k,
    ensures
        (si + dk * m / total) * total <= (sd + dk) * m,
        (sd + dk) * m / total <= si + dk * m / total + k + 1,
{
    let scaled = dk * m / total;
    lemma_fundamental_div_mod(dk * m, total);
    assert(dk * m >= 0) by (nonlinear_arith)
        requires
            dk >= 0,
            m >= 0,
    ;
    assert(sd * m >= 0) by (nonlinear_arith)
        requires
            sd >= 0,
            m >= 0,
    ;
    assert(scaled * total <= dk * m) by (nonlinear_arith)
        requires
            total > 0,
            dk * m == total * scaled + (dk * m) % total,
            (dk * m) % total >= 0,
    ;
    assert((si + scaled) * total == si * total + scaled * total) by (nonlinear_arith);
    assert((sd + dk) * m == sd * m + dk * m) by (nonlinear_arith);
    lemma_div_sum_bounds(sd * m, dk * m, total);
}

/// At the last draw the bounds become the stated contract.
proof fn lemma_final_bounds(draws: Seq<u64>, iats: Seq<u64>, total: int)
    requires
        total == sum_us(draws) > 0,
        sum_us(iats) * total <= sum_us(draws) * (MICROSECONDS_PER_MINUTE as int),
        sum_us(draws) * (MICROSECONDS_PER_MINUTE as int) / total <= sum_us(iats) + iats.len(),
        sum_us(iats) >= 0,
    ensures
        sum_us(iats) <= MICROSECONDS_PER_MINUTE,
        sum_us(iats) + iats.len() >= MICROSECONDS_PER_MINUTE,
{
    let m = MICROSECONDS_PER_MINUTE as int;
    let si = sum_us(iats);
    assert(si <= m) by (nonlinear_arith)
        requires
            si * total <= total * m,
            total > 0,
    ;
    assert(total * m / total == m) by {
        vstd::arithmetic::div_mod::lemma_div_multiples_vanish(m, total);
    }
    assert(sum_us(draws) * m == total * m) by (nonlinear_arith)
        requires
            total == sum_us(draws),
    ;
}

/// Equidistant IATs: `rpm` copies of `minute / rpm`; the generator's
/// randomness is ignored.
#[derive(Debug, Clone, Copy)]
pub struct Equidistant;

impl IatGenerator for Equidistant {
    /// Always `Ok`: exactly `rpm` copies of the minute divided by `rpm`.
    open spec fn gen_post(&self, rpm: u32, raw_samples: Seq<u64>, r: Result<Vec<u64>, IatError>) -> bool {
        &&& r is Ok
        &&& r->Ok_0@.len() == rpm
        &&& (forall|i: int|
            0 <= i < rpm ==> #[trigger] r->Ok_0@[i] == MICROSECONDS_PER_MINUTE / (rpm as u64))
        &&& sum_us(r->Ok_0@) <= MICROSECONDS_PER_MINUTE
    }

    fn gen(
        &self,
        rpm: u32,
        _rng: &mut rand_xoshiro::Xoshiro256PlusPlus,
        _raw_samples: &[u64],
    ) -> (r: Result<Vec<u64>, IatError>)
    {
        let mut iats: Vec<u64> = Vec::new();
        if rpm == 0 {
            return Ok(iats);
        }
        let v = MICROSECONDS_PER_MINUTE / (rpm as u64);
        proof {
            lemma_fundamental_div_mod(MICROSECONDS_PER_MINUTE as int, rpm as int);
        }
        let n = rpm as usize;
        let mut k: usize = 0;
        while k < n
            invariant
                iats@.len() == k,
                k <= n,
                n == rpm,
                v == MICROSECONDS_PER_MINUTE / (rpm as u64),
                rpm > 0,
                forall|i: int| 0 <= i < k ==> iats@[i] == v,
                sum_us(iats@) == k * v,
            decreases n - k,
        {
            let ghost old_iats = iats@;
            proof {
                lemma_sum_us_push(old_iats, v);
            }
            iats.push(v);
            proof {
                assert((k + 1) * (v as int) == k * (v as int) + v) by (nonlinear_arith);
                assert(sum_us(iats@) == (k + 1) * (v as int));
            }
            k = k + 1;
        }
        proof {
            let m = MICROSECONDS_PER_MINUTE as int;
            lemma_fundamental_div_mod(m, rpm as int);
            assert(sum_us(iats@) == (rpm as int) * (v as int));
            assert((rpm as int) * (v as int) <= m) by (nonlinear_arith)
                requires
                    m == (rpm as int) * (m / (rpm as int)) + m % (rpm as int),
                    m % (rpm as int) >= 0,
                    v as int == m / (rpm as int),
            ;
        }
        Ok(iats)
    }
}

} // verus!
