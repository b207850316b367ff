use vstd::prelude::*;

verus! {

/// A jittered exponential-backoff envelope, expressed in whole
/// nanoseconds.
///
/// The wait time between retries is a random value between 1ns and the
/// current "retry envelope". The envelope starts at `initial` and grows
/// by the configured factor on every draw, but is capped at `max`.
///
/// The growth factor is kept as an exact integer ratio
/// `multiplier_num / multiplier_den` (for example 13/10 for a growth
/// factor of 1.30), so every envelope update is plain integer
/// arithmetic, truncating toward zero.
#[derive(Clone, Copy, Debug)]
pub struct Backoff {
    /// Envelope used for the first draw, in nanoseconds.
    pub initial: u64,
    /// Upper bound the envelope may grow to, in nanoseconds.
    pub max: u64,
    /// Numerator of the growth factor.
    pub multiplier_num: u64,
    /// Denominator of the growth factor.
    pub multiplier_den: u64,
    /// Current envelope, in nanoseconds; 0 until the first draw.
    pub cur: u64,
}

/// The envelope the next draw samples from: a fresh state (with `cur`
/// still 0) samples from `initial`, afterwards from `cur`.
pub open spec fn envelope_of(b: Backoff) -> u64 {
    if b.cur == 0 {
        b.initial
    } else {
        b.cur
    }
}

/// The envelope after one draw, before clamping: the sampling envelope
/// scaled by the growth factor, truncated to whole nanoseconds.
pub open spec fn grown_envelope(b: Backoff) -> int {
    envelope_of(b) * b.multiplier_num / (b.multiplier_den as int)
}

/// The envelope after one draw: grown by the factor, clamped to `max`.
pub open spec fn next_envelope(b: Backoff) -> u64 {
    if grown_envelope(b) > b.max {
        b.max
    } else {
        grown_envelope(b) as u64
    }
}

/// The state after one draw: only the current envelope changes.
pub open spec fn advanced(b: Backoff) -> Backoff {
    Backoff { cur: next_envelope(b), ..b }
}

/// The state after `n` draws.
pub open spec fn advanced_n(b: Backoff, n: nat) -> Backoff
    decreases n,
{
    if n == 0 {
        b
    } else {
        advanced_n(advanced(b), (n - 1) as nat)
    }
}

/// Relies on rand::random_range over `lo..=hi`: a uniform draw from a
/// non-empty inclusive integer range yields a value within that range
/// (the call panics on an empty range, which the precondition rules
/// out).
#[verifier::external_body]
fn random_in_range(lo: u64, hi: u64) -> (r: u64)
    requires
        lo <= hi,
    ensures
        lo <= r <= hi,
{
    rand::random_range(lo..=hi)
}

impl Backoff {
    /// Configuration is valid: a positive first envelope no larger than
    /// the cap, a growth factor strictly above one, and a current
    /// envelope that never exceeds the cap.
    pub open spec fn wf(self) -> bool {
        &&& 1 <= self.initial
        &&& self.initial <= self.max
        &&& 1 <= self.multiplier_den
        &&& self.multiplier_den < self.multiplier_num
        &&& self.cur <= self.max
    }

    /// Fresh state for one retry sequence. Malformed configuration (a
    /// zero initial envelope, a cap below the initial envelope, or a
    /// growth factor of one or less) is rejected at construction time
    /// by the precondition.
    pub fn new(initial: u64, max: u64, multiplier_num: u64, multiplier_den: u64) -> (b: Backoff)
        requires
            1 <= initial <= max,
            1 <= multiplier_den < multiplier_num,
        ensures
            b == (Backoff { initial, max, multiplier_num, multiplier_den, cur: 0u64 }),
            b.wf(),
    {
        Backoff { initial, max, multiplier_num, multiplier_den, cur: 0 }
    }

    /// Draw the next wait duration, in nanoseconds.
    ///
    /// Selects a duration between 1ns and the current envelope — full
    /// jitter, so that many clients retrying at once do not fall into
    /// lockstep — then grows the envelope by the configured factor,
    /// clamped to `max`. Never returns 0.
    pub fn duration(&mut self) -> (d: u64)
        requires
            old(self).wf(),
        ensures
            final(self).wf(),
            *final(self) == advanced(*old(self)),
            1 <= d <= envelope_of(*old(self)),
    {
        let env: u64 = if self.cur == 0 {
            self.initial
        } else {
            self.cur
        };
        let d = random_in_range(1, env);
        proof {
            assert((env as int) * (self.multiplier_num as int) < 0x1_0000_0000_0000_0000
                * 0x1_0000_0000_0000_0000) by (nonlinear_arith)
                requires
                    env < 0x1_0000_0000_0000_0000,
                    self.multiplier_num < 0x1_0000_0000_0000_0000,
            ;
        }
        let g: u128 = (env as u128) * (self.multiplier_num as u128) / (self.multiplier_den as u128);
        self.cur = if g > self.max as u128 {
            self.max
        } else {
            g as u64
        };
        d
    }
}

impl Default for Backoff {
    /// The stock configuration: first envelope 250µs, cap 32ms, growth
    /// factor 1.30.
    fn default() -> (b: Backoff)
        ensures
            b == (Backoff {
                initial: 250_000u64,
                max: 32_000_000u64,
                multiplier_num: 13u64,
                multiplier_den: 10u64,
                cur: 0u64,
            }),
            b.wf(),
    {
        Backoff {
            initial: 250_000,
            max: 32_000_000,
            multiplier_num: 13,
            multiplier_den: 10,
            cur: 0,
        }
    }
}

/// Law: the envelope never shrinks. One draw from a valid state leaves
/// a valid state whose sampling envelope is at least the old one, and
/// still no larger than the cap.
pub proof fn lemma_envelope_nondecreasing(b: Backoff)
    requires
        b.wf(),
    ensures
        advanced(b).wf(),
        envelope_of(advanced(b)) >= envelope_of(b),
        envelope_of(b) <= b.max,
{
    let e = envelope_of(b) as int;
    let num = b.multiplier_num as int;
    let den = b.multiplier_den as int;
    assert(e * num / den >= e) by (nonlinear_arith)
        requires
            1 <= e,
            1 <= den < num,
    ;
}

/// Law: once the envelope has reached the cap it stays pinned there.
pub proof fn lemma_envelope_pinned_at_max(b: Backoff)
    requires
        b.wf(),
        b.cur == b.max,
    ensures
        advanced(b) == b,
{
    let e = envelope_of(b) as int;
    let num = b.multiplier_num as int;
    let den = b.multiplier_den as int;
    assert(e * num / den >= e) by (nonlinear_arith)
        requires
            1 <= e,
            1 <= den < num,
    ;
}

/// Law: while the envelope is large enough that truncation cannot eat
/// the whole increment — `envelope * (num - den) >= den` — each draw
/// either reaches the cap or grows the envelope by at least 1ns.
pub proof fn lemma_envelope_strict_growth(b: Backoff)
    requires
        b.wf(),
        envelope_of(b) * (b.multiplier_num - b.multiplier_den) >= b.multiplier_den,
    ensures
        advanced(b).cur == b.max || advanced(b).cur >= envelope_of(b) + 1,
{
    let e = envelope_of(b) as int;
    let num = b.multiplier_num as int;
    let den = b.multiplier_den as int;
    assert(e * num / den >= e + 1) by (nonlinear_arith)
        requires
            1 <= e,
            1 <= den < num,
            e * (num - den) >= den,
    ;
}

/// Law: from any valid state whose sampling envelope is large enough
/// for strict growth, some finite number of draws reaches the cap
/// (where, by `lemma_envelope_pinned_at_max`, the envelope then stays).
pub proof fn lemma_envelope_converges(b: Backoff)
    requires
        b.wf(),
        envelope_of(b) * (b.multiplier_num - b.multiplier_den) >= b.multiplier_den,
    ensures
        exists|n: nat| advanced_n(b, n).cur == b.max,
    decreases b.max - envelope_of(b),
{
    lemma_envelope_nondecreasing(b);
    let b1 = advanced(b);
    if b1.cur == b.max {
        assert(advanced_n(b1, 0) == b1);
        assert(advanced_n(b, 1) == advanced_n(b1, 0));
    } else {
        lemma_envelope_strict_growth(b);
        assert(envelope_of(b1) * (b1.multiplier_num - b1.multiplier_den)
            >= envelope_of(b) * (b.multiplier_num - b.multiplier_den)) by (nonlinear_arith)
            requires
                envelope_of(b1) >= envelope_of(b),
                b1.multiplier_num == b.multiplier_num,
                b1.multiplier_den == b.multiplier_den,
                envelope_of(b) >= 1,
                b.multiplier_num > b.multiplier_den,
        ;
        lemma_envelope_converges(b1);
        let n1 = choose|n: nat| advanced_n(b1, n).cur == b.max;
        assert(advanced_n(b, n1 + 1) == advanced_n(b1, n1));
    }
}

} // verus!
