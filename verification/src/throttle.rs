use vstd::prelude::*;

verus! {

// The gossip loops pace their sends and receipts through a token bucket per
// direction. The decision of the bucket — admit now, wait this long, or send
// an oversized message under protest — is the logic verified here; the
// caller performs the sleep the decision asks for and hands the clock back.

/// One direction's token bucket: how many bits it may burst, how many bits
/// per second it refills, how many bits it holds, and when it last refilled,
/// in microseconds of the caller's clock.
#[derive(Clone, Copy, Debug, PartialEq, Eq, Structural)]
pub struct Bucket {
    pub capacity_bits: u64,
    pub rate_bits_per_sec: u64,
    pub tokens: u64,
    pub last_refill_micros: u64,
}

/// A bucket never holds more than its burst capacity, its capacity and rate
/// are sane machine numbers, and its rate is nonzero so waits are finite.
pub open spec fn bucket_wf(b: Bucket) -> bool {
    &&& b.tokens <= b.capacity_bits
    &&& b.capacity_bits <= u32::MAX as u64
    &&& 1 <= b.rate_bits_per_sec <= u32::MAX as u64
}

/// What the bucket holds after idling from its last refill to `now`: the
/// elapsed time's worth of new tokens, capped at the burst capacity.
pub open spec fn spec_refill(b: Bucket, now_micros: u64) -> u64 {
    let elapsed = if now_micros >= b.last_refill_micros {
        now_micros - b.last_refill_micros
    } else {
        0
    };
    let refilled = b.tokens + b.rate_bits_per_sec * elapsed / 1_000_000;
    if refilled > b.capacity_bits {
        b.capacity_bits
    } else {
        refilled as u64
    }
}

/// The microseconds until `bits` tokens will have accrued on top of `have`,
/// rounded up.
pub open spec fn spec_wait_micros(b: Bucket, have: u64, bits: u64) -> u64 {
    (((bits - have) * 1_000_000 + (b.rate_bits_per_sec - 1)) / (b.rate_bits_per_sec as int)) as u64
}

/// What the bucket decides for one message.
#[derive(Clone, Copy, Debug, PartialEq, Eq, Structural)]
pub enum BucketDecision {
    /// Enough tokens are held: send now.
    Admit,
    /// Too few tokens: wait this many microseconds and ask again.
    Wait(u64),
    /// The message alone is over the burst capacity. It is sent anyway, and
    /// the caller reports the oversize; holding it back would never succeed.
    AdmitOversized,
}

/// One step of the token bucket: refill for the time elapsed, then admit the
/// message, name the wait that will make it admissible, or pass an oversized
/// message through under protest. Admission spends exactly the message's
/// bits; a wait or an oversize spends nothing.
pub fn bucket_step(b: Bucket, bits: u64, now_micros: u64) -> (r: (BucketDecision, Bucket))
    requires
        bucket_wf(b),
        bits <= u32::MAX as u64,
    ensures
        bucket_wf(r.1),
        r.1.capacity_bits == b.capacity_bits,
        r.1.rate_bits_per_sec == b.rate_bits_per_sec,
        r.1.last_refill_micros == now_micros,
        ({
            let have = spec_refill(b, now_micros);
            if bits > b.capacity_bits {
                r.0 == BucketDecision::AdmitOversized && r.1.tokens == have
            } else if bits <= have {
                r.0 == BucketDecision::Admit && r.1.tokens == have - bits
            } else {
                r.0 == BucketDecision::Wait(spec_wait_micros(b, have, bits)) && r.1.tokens == have
            }
        }),
{
    let elapsed: u64 = if now_micros >= b.last_refill_micros {
        now_micros - b.last_refill_micros
    } else {
        0
    };
    proof {
        vstd::arithmetic::mul::lemma_mul_upper_bound(
            b.rate_bits_per_sec as int,
            u32::MAX as int,
            elapsed as int,
            u64::MAX as int,
        );
    }
    let accrued_wide: u128 = (b.rate_bits_per_sec as u128) * (elapsed as u128) / 1_000_000;
    let refilled_wide: u128 = (b.tokens as u128) + accrued_wide;
    let have: u64 = if refilled_wide > (b.capacity_bits as u128) {
        b.capacity_bits
    } else {
        refilled_wide as u64
    };
    proof {
        assert(have == spec_refill(b, now_micros));
    }
    if bits > b.capacity_bits {
        (
            BucketDecision::AdmitOversized,
            Bucket { tokens: have, last_refill_micros: now_micros, ..b },
        )
    } else if bits <= have {
        (
            BucketDecision::Admit,
            Bucket { tokens: have - bits, last_refill_micros: now_micros, ..b },
        )
    } else {
        let missing: u64 = bits - have;
        let wait: u64 = ((missing * 1_000_000) + (b.rate_bits_per_sec - 1))
            / b.rate_bits_per_sec;
        (
            BucketDecision::Wait(wait),
            Bucket { tokens: have, last_refill_micros: now_micros, ..b },
        )
    }
}

/// One bucket step never admits more than the bucket held: what goes out now
/// is covered by tokens accrued at the configured rate, so admitted traffic
/// between two refills never exceeds the burst capacity plus the rate's due.
pub proof fn lemma_bucket_admission_bounded(b: Bucket, bits: u64, now_micros: u64)
    requires
        bucket_wf(b),
    ensures
        bits <= b.capacity_bits && bits > spec_refill(b, now_micros) ==> spec_wait_micros(
            b,
            spec_refill(b, now_micros),
            bits,
        ) * b.rate_bits_per_sec >= (bits - spec_refill(b, now_micros)) * 1_000_000,
        spec_refill(b, now_micros) <= b.capacity_bits,
{
    let have = spec_refill(b, now_micros);
    if bits <= b.capacity_bits && bits > have {
        let missing = (bits - have) as int;
        let rate = b.rate_bits_per_sec as int;
        assert((missing * 1_000_000 + (rate - 1)) / rate * rate >= missing * 1_000_000) by {
            let q = (missing * 1_000_000 + (rate - 1)) / rate;
            vstd::arithmetic::div_mod::lemma_fundamental_div_mod(
                missing * 1_000_000 + (rate - 1),
                rate,
            );
            assert(q * rate == missing * 1_000_000 + (rate - 1) - (missing * 1_000_000 + (rate
                - 1)) % rate);
            vstd::arithmetic::div_mod::lemma_mod_bound(missing * 1_000_000 + (rate - 1), rate);
        }
    }
}

} // verus!
