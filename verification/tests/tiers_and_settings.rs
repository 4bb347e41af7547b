use skinvolt::settings::{dev_set_tier, set_currency_preference, set_refresh_interval, toggle_dark_mode};
use skinvolt::tiers::{get_current_tier, is_feature_allowed, polling_interval_secs, polling_plan, PollingPlan};

#[test]
fn current_tier_defaults_to_basic() {
    assert_eq!(get_current_tier(None), "basic");
}

#[test]
fn current_tier_is_the_stored_one() {
    assert_eq!(get_current_tier(Some("pro".to_string())), "pro");
    assert_eq!(get_current_tier(Some("anything".to_string())), "anything");
}

#[test]
fn elite_unlocks_everything() {
    for req in ["free", "basic", "pro", "elite", "other"] {
        assert!(is_feature_allowed("elite", req));
    }
}

#[test]
fn pro_unlocks_all_but_elite() {
    assert!(is_feature_allowed("pro", "basic"));
    assert!(is_feature_allowed("pro", "pro"));
    assert!(is_feature_allowed("pro", "free"));
    assert!(is_feature_allowed("pro", "something"));
    assert!(!is_feature_allowed("pro", "elite"));
}

#[test]
fn basic_unlocks_only_basic() {
    assert!(is_feature_allowed("basic", "basic"));
    assert!(!is_feature_allowed("basic", "pro"));
    assert!(!is_feature_allowed("basic", "elite"));
    assert!(!is_feature_allowed("basic", "free"));
}

#[test]
fn free_and_unknown_tiers_unlock_nothing() {
    for req in ["free", "basic", "pro", "elite"] {
        assert!(!is_feature_allowed("free", req));
        assert!(!is_feature_allowed("PRO", req));
        assert!(!is_feature_allowed("", req));
    }
}

#[test]
fn higher_tier_allows_more_on_examples() {
    let order = ["free", "basic", "pro", "elite"];
    for req in ["free", "basic", "pro", "elite", "x"] {
        for i in 0..order.len() {
            for j in i..order.len() {
                if is_feature_allowed(order[i], req) {
                    assert!(is_feature_allowed(order[j], req));
                }
            }
        }
    }
}

#[test]
fn polling_intervals_per_tier() {
    assert_eq!(polling_interval_secs("elite"), 60);
    assert_eq!(polling_interval_secs("pro"), 3600);
    assert_eq!(polling_interval_secs("basic"), 86400);
    assert_eq!(polling_interval_secs("free"), 0);
    assert_eq!(polling_interval_secs("gold"), 0);
}

#[test]
fn polling_plans_per_tier() {
    assert_eq!(polling_plan("elite"), PollingPlan { sync_inventory: true, sleep_secs: 60 });
    assert_eq!(polling_plan("pro"), PollingPlan { sync_inventory: true, sleep_secs: 3600 });
    assert_eq!(polling_plan("basic"), PollingPlan { sync_inventory: true, sleep_secs: 86400 });
    assert_eq!(polling_plan("free"), PollingPlan { sync_inventory: true, sleep_secs: 3600 });
    assert_eq!(polling_plan("Elite"), PollingPlan { sync_inventory: false, sleep_secs: 60 });
}

#[test]
fn dev_set_tier_lowercases_known_tiers() {
    let w = dev_set_tier("PRO").ok().unwrap();
    assert_eq!(w.key, "tier_level");
    assert_eq!(w.value, "pro");
    let w = dev_set_tier("Elite").ok().unwrap();
    assert_eq!(w.value, "elite");
    let w = dev_set_tier("free").ok().unwrap();
    assert_eq!(w.value, "free");
}

#[test]
fn dev_set_tier_refuses_unknown_tiers() {
    assert_eq!(dev_set_tier("gold").err().unwrap(), "Invalid tier specified");
    assert_eq!(dev_set_tier("").err().unwrap(), "Invalid tier specified");
    assert_eq!(dev_set_tier(" pro").err().unwrap(), "Invalid tier specified");
}

#[test]
fn set_tier_then_read_gives_it_back() {
    let w = dev_set_tier("BASIC").ok().unwrap();
    assert_eq!(get_current_tier(Some(w.value)), "basic");
}

#[test]
fn refresh_interval_is_written_in_decimal() {
    let w = set_refresh_interval(300);
    assert_eq!(w.key, "refresh_interval");
    assert_eq!(w.value, "300");
    assert_eq!(set_refresh_interval(0).value, "0");
    assert_eq!(set_refresh_interval(u32::MAX).value, "4294967295");
    assert_eq!(set_refresh_interval(10).value, "10");
}

#[test]
fn currency_preference_is_stored_as_given() {
    let w = set_currency_preference("EUR".to_string());
    assert_eq!(w.key, "currency");
    assert_eq!(w.value, "EUR");
}

#[test]
fn dark_mode_is_stored_as_true_or_false() {
    let on = toggle_dark_mode(true);
    assert_eq!(on.key, "dark_mode");
    assert_eq!(on.value, "true");
    assert_eq!(toggle_dark_mode(false).value, "false");
}
