use cell_core::throttle::bucket_step;
use cell_core::throttle::Bucket;
use cell_core::throttle::BucketDecision;

fn fresh(capacity_bits: u64, rate_bits_per_sec: u64, tokens: u64) -> Bucket {
    Bucket {
        capacity_bits,
        rate_bits_per_sec,
        tokens,
        last_refill_micros: 0,
    }
}

#[test]
fn a_held_message_is_admitted_and_spends_its_bits() {
    let b = fresh(1000, 1_000_000, 100);
    let (d, b2) = bucket_step(b, 64, 0);
    assert_eq!(d, BucketDecision::Admit);
    assert_eq!(b2.tokens, 36);
    assert_eq!(b2.capacity_bits, 1000);
}

#[test]
fn idling_refills_at_the_configured_rate() {
    // one million bits per second is one bit per microsecond
    let b = fresh(1000, 1_000_000, 0);
    let (d, b2) = bucket_step(b, 500, 500);
    assert_eq!(d, BucketDecision::Admit);
    assert_eq!(b2.tokens, 0);
    assert_eq!(b2.last_refill_micros, 500);
}

#[test]
fn refill_never_exceeds_the_burst_capacity() {
    let b = fresh(1000, 1_000_000, 900);
    let (d, b2) = bucket_step(b, 0, 1_000_000);
    assert_eq!(d, BucketDecision::Admit);
    assert_eq!(b2.tokens, 1000);
}

#[test]
fn a_short_bucket_names_the_exact_wait() {
    // 8 missing bits at one bit per microsecond: wait 8 microseconds
    let b = fresh(1000, 1_000_000, 0);
    let (d, b2) = bucket_step(b, 8, 0);
    assert_eq!(d, BucketDecision::Wait(8));
    assert_eq!(b2.tokens, 0);
}

#[test]
fn the_wait_rounds_up() {
    // 3 missing bits at 2 bits per second: 1.5 seconds rounds to 1_500_000 us
    let b = fresh(1000, 2, 1);
    let (d, _b2) = bucket_step(b, 4, 0);
    assert_eq!(d, BucketDecision::Wait(1_500_000));
}

#[test]
fn an_oversized_message_passes_under_protest() {
    let b = fresh(1000, 1_000_000, 1000);
    let (d, b2) = bucket_step(b, 1001, 0);
    assert_eq!(d, BucketDecision::AdmitOversized);
    assert_eq!(b2.tokens, 1000);
}
