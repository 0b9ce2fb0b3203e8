use seanify::block::BlockList;
use seanify::rate::RateLimiter;

#[test]
fn ban_counts_down_by_one_and_expires_at_zero() {
    let mut blocks = BlockList::new();
    blocks.insert(7, 3);
    assert!(blocks.contains(7));
    blocks.tick();
    assert!(blocks.contains(7));
    blocks.tick();
    assert!(blocks.contains(7));
    blocks.tick();
    assert!(!blocks.contains(7));
}

#[test]
fn ban_is_never_removed_early() {
    let mut blocks = BlockList::new();
    blocks.insert(1, 1);
    blocks.insert(2, 2);
    blocks.tick();
    assert!(!blocks.contains(1));
    assert!(blocks.contains(2));
    blocks.tick();
    assert!(!blocks.contains(2));
}

#[test]
fn reinserting_a_ban_refreshes_its_duration() {
    let mut blocks = BlockList::new();
    blocks.insert(9, 2);
    blocks.tick();
    blocks.insert(9, 5);
    blocks.tick();
    blocks.tick();
    blocks.tick();
    blocks.tick();
    assert!(blocks.contains(9));
    blocks.tick();
    assert!(!blocks.contains(9));
}

#[test]
fn over_threshold_identity_is_banned_for_configured_ticks() {
    // Window capacity 200, threshold 50, ban duration 60 ticks.
    let mut rate = RateLimiter::new(200, 50, 60);
    let mut blocks = BlockList::new();
    let noisy = 1111;
    let quiet = 2222;
    // 52 observations so that 51 > 50 remain after the cycle's eviction.
    for _ in 0..52 {
        rate.add(noisy);
    }
    rate.add(quiet);
    rate.cycle(&mut blocks);
    assert!(blocks.contains(noisy));
    assert!(!blocks.contains(quiet));
    // Unblocked after exactly 60 ticks, not before.
    for _ in 0..59 {
        blocks.tick();
        assert!(blocks.contains(noisy));
    }
    blocks.tick();
    assert!(!blocks.contains(noisy));
}

#[test]
fn under_threshold_identity_is_not_banned() {
    let mut rate = RateLimiter::new(200, 50, 60);
    let mut blocks = BlockList::new();
    for _ in 0..50 {
        rate.add(33);
    }
    rate.cycle(&mut blocks);
    assert!(!blocks.contains(33));
}

#[test]
fn full_window_drops_observations() {
    // Capacity 1: the second observation is dropped, so after the
    // cycle's eviction nothing is left to count.
    let mut rate = RateLimiter::new(1, 0, 5);
    let mut blocks = BlockList::new();
    rate.add(7);
    rate.add(7);
    rate.cycle(&mut blocks);
    assert!(!blocks.contains(7));
    // Capacity 2 keeps both: one survives the eviction and 1 > 0.
    let mut rate2 = RateLimiter::new(2, 0, 5);
    let mut blocks2 = BlockList::new();
    rate2.add(7);
    rate2.add(7);
    rate2.cycle(&mut blocks2);
    assert!(blocks2.contains(7));
}

#[test]
fn cycle_evicts_from_the_front() {
    // Threshold 1, capacity 3: two of the oldest identity and one newer.
    // After one cycle the oldest has count 1, not over the threshold.
    let mut rate = RateLimiter::new(3, 1, 4);
    let mut blocks = BlockList::new();
    rate.add(5);
    rate.add(5);
    rate.add(6);
    rate.cycle(&mut blocks);
    assert!(!blocks.contains(5));
    assert!(!blocks.contains(6));
}
