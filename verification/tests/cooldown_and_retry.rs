use skinvolt::cooldown::{check_refresh_cooldown, cooldown_arith_ok};
use skinvolt::retry::{Backoff, RetryStep};

#[test]
fn free_tier_waits_an_hour_in_minutes() {
    assert_eq!(
        check_refresh_cooldown("free", 1_000, 1_100),
        Err("Free Tier limit: Please wait 58 more minutes.".to_string())
    );
    assert_eq!(check_refresh_cooldown("free", 1_000, 4_599).err().unwrap(), "Free Tier limit: Please wait 0 more minutes.");
    assert_eq!(check_refresh_cooldown("free", 1_000, 4_600), Ok(()));
}

#[test]
fn basic_tier_waits_ten_minutes() {
    assert_eq!(
        check_refresh_cooldown("basic", 5_000, 5_010),
        Err("Basic Tier limit: Please wait 9 more minutes.".to_string())
    );
    assert_eq!(check_refresh_cooldown("basic", 5_000, 5_600), Ok(()));
}

#[test]
fn pro_tier_waits_a_minute_in_seconds() {
    assert_eq!(
        check_refresh_cooldown("pro", 1_000, 1_030),
        Err("Pro Tier limit: Please wait 30 more seconds.".to_string())
    );
    assert_eq!(check_refresh_cooldown("pro", 1_000, 1_060), Ok(()));
}

#[test]
fn elite_and_unknown_tiers_have_no_cooldown() {
    assert_eq!(check_refresh_cooldown("elite", 1_000, 1_000), Ok(()));
    assert_eq!(check_refresh_cooldown("gold", 1_000, 1_001), Ok(()));
    assert_eq!(check_refresh_cooldown("elite", 9_000, 1_000), Ok(()));
}

#[test]
fn never_fetched_items_are_not_held_back() {
    for tier in ["free", "basic", "pro", "elite"] {
        assert_eq!(check_refresh_cooldown(tier, 0, 10), Ok(()));
    }
}

#[test]
fn fetch_time_in_the_future_counts_as_a_wait() {
    assert_eq!(
        check_refresh_cooldown("free", 2_000, 1_000),
        Err("Free Tier limit: Please wait 76 more minutes.".to_string())
    );
}

#[test]
fn allowed_stays_allowed_on_examples() {
    for tier in ["free", "basic", "pro", "elite"] {
        let mut allowed = false;
        for now in 1_000..5_000 {
            let ok = check_refresh_cooldown(tier, 1_000, now).is_ok();
            if allowed {
                assert!(ok);
            }
            allowed = ok;
        }
        assert!(allowed);
    }
}

#[test]
fn cooldown_arithmetic_range() {
    assert!(cooldown_arith_ok("free", 1_000, 1_100));
    assert!(!cooldown_arith_ok("elite", i64::MIN, 1));
    assert!(cooldown_arith_ok("elite", 0, i64::MAX));
    assert!(!cooldown_arith_ok("free", i64::MAX, -10));
    assert!(cooldown_arith_ok("free", 0, -10));
    assert!(!cooldown_arith_ok("free", 1, i64::MIN + 1));
    assert!(cooldown_arith_ok("elite", 1, i64::MIN + 1));
}

#[test]
fn backoff_waits_double_then_gives_up() {
    let mut b = Backoff::new(3);
    assert_eq!(b.failures(), 0);
    assert_eq!(b.delay_secs(), 1);
    assert_eq!(b.on_failure(), RetryStep::Wait(1));
    assert_eq!(b.on_failure(), RetryStep::Wait(2));
    assert_eq!(b.failures(), 2);
    assert_eq!(b.on_failure(), RetryStep::GiveUp);
    assert_eq!(b.on_failure(), RetryStep::GiveUp);
    assert_eq!(b.failures(), 2);
}

#[test]
fn single_attempt_gives_up_at_once() {
    let mut b = Backoff::new(1);
    assert_eq!(b.on_failure(), RetryStep::GiveUp);
}

#[test]
fn backoff_schedule_is_powers_of_two() {
    let mut b = Backoff::new(20);
    let mut expected: u64 = 1;
    for _ in 0..19 {
        assert_eq!(b.on_failure(), RetryStep::Wait(expected));
        expected *= 2;
    }
    assert_eq!(b.on_failure(), RetryStep::GiveUp);
}
