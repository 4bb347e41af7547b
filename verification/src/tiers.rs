//! Subscription tiers: which tier is in force, what it unlocks, and how
//! often the background engine refreshes prices for it.
use vstd::prelude::*;

use crate::text::text_eq;

verus! {

/// The tier that applies when none is stored.
pub open spec fn default_tier() -> Seq<char> {
    "basic"@
}

/// The tier in force, given what the settings store holds under
/// `tier_level` (`None` when nothing could be read there).
pub open spec fn current_tier(stored: Option<Seq<char>>) -> Seq<char> {
    match stored {
        Some(t) => t,
        None => default_tier(),
    }
}

/// The tier in force: the stored `tier_level`, or `basic` when none could be read.
pub fn get_current_tier(stored: Option<String>) -> (r: String)
    ensures
        r@ == current_tier(
            match stored {
                Some(s) => Some(s@),
                None => None,
            },
        ),
        stored is None ==> r@ == "basic"@,
        stored matches Some(t) ==> r@ == t@,
{
    match stored {
        Some(t) => t,
        None => "basic".to_owned(),
    }
}

/// Whether a user on tier `current` may use a feature that needs tier
/// `required`: elite unlocks everything, pro everything but elite features,
/// basic only basic features, and any other tier (free among them) nothing.
pub open spec fn tier_allows(current: Seq<char>, required: Seq<char>) -> bool {
    if current == "elite"@ {
        true
    } else if current == "pro"@ {
        required != "elite"@
    } else if current == "basic"@ {
        required == "basic"@
    } else {
        false
    }
}

/// Whether tier `current_tier` unlocks a feature that needs `required_tier`.
pub fn is_feature_allowed(current_tier: &str, required_tier: &str) -> (r: bool)
    ensures
        r == tier_allows(current_tier@, required_tier@),
        current_tier@ == "elite"@ ==> r,
        current_tier@ == "pro"@ ==> (r <==> required_tier@ != "elite"@),
        current_tier@ == "basic"@ ==> (r <==> required_tier@ == "basic"@),
        current_tier@ != "elite"@ && current_tier@ != "pro"@ && current_tier@ != "basic"@ ==> !r,
{
    proof {
        lemma_tier_names_distinct();
    }
    if text_eq(current_tier, "elite") {
        true
    } else if text_eq(current_tier, "pro") {
        !text_eq(required_tier, "elite")
    } else if text_eq(current_tier, "basic") {
        text_eq(required_tier, "basic")
    } else {
        false
    }
}

/// The four tiers of the subscription model.
pub open spec fn is_known_tier(t: Seq<char>) -> bool {
    t == "free"@ || t == "basic"@ || t == "pro"@ || t == "elite"@
}

/// The four tier names are different words.
pub proof fn lemma_tier_names_distinct()
    ensures
        "free"@ != "basic"@,
        "free"@ != "pro"@,
        "free"@ != "elite"@,
        "basic"@ != "pro"@,
        "basic"@ != "elite"@,
        "pro"@ != "elite"@,
{
    reveal_strlit("free");
    reveal_strlit("basic");
    reveal_strlit("pro");
    reveal_strlit("elite");
    assert("free"@.len() != "basic"@.len());
    assert("free"@.len() != "pro"@.len());
    assert("free"@.len() != "elite"@.len());
    assert("basic"@.len() != "pro"@.len());
    assert("basic"@[0] != "elite"@[0]);
    assert("pro"@.len() != "elite"@.len());
}

/// The place of a known tier in the order free < basic < pro < elite.
pub open spec fn tier_rank(t: Seq<char>) -> int {
    if t == "elite"@ {
        3
    } else if t == "pro"@ {
        2
    } else if t == "basic"@ {
        1
    } else {
        0
    }
}

/// A higher tier unlocks everything that a lower one does.
pub proof fn lemma_higher_tier_allows_more(lower: Seq<char>, higher: Seq<char>, required: Seq<char>)
    requires
        is_known_tier(lower),
        is_known_tier(higher),
        tier_rank(lower) <= tier_rank(higher),
        tier_allows(lower, required),
    ensures
        tier_allows(higher, required),
{
    lemma_tier_names_distinct();
}

/// Seconds between automatic refreshes for a tier; 0 when the tier gets no
/// periodic refresh.
pub open spec fn polling_interval(tier: Seq<char>) -> nat {
    if tier == "elite"@ {
        60
    } else if tier == "pro"@ {
        3600
    } else if tier == "basic"@ {
        86400
    } else {
        0
    }
}

/// One cycle of the background engine: whether it refreshes the prices of
/// the whole inventory, and how long it sleeps afterwards.
#[derive(PartialEq, Eq, Structural, Clone, Copy, Debug)]
pub struct PollingPlan {
    pub sync_inventory: bool,
    pub sleep_secs: u64,
}

/// The cycle for a tier: tiers with an interval refresh and sleep that
/// interval; free refreshes once and sleeps an hour; any other tier only
/// sleeps a minute.
pub open spec fn polling_plan_for(tier: Seq<char>) -> PollingPlan {
    if polling_interval(tier) > 0 {
        PollingPlan { sync_inventory: true, sleep_secs: polling_interval(tier) as u64 }
    } else if tier == "free"@ {
        PollingPlan { sync_inventory: true, sleep_secs: 3600 }
    } else {
        PollingPlan { sync_inventory: false, sleep_secs: 60 }
    }
}

/// Seconds between automatic refreshes for a tier (0: none).
pub fn polling_interval_secs(tier: &str) -> (r: u64)
    ensures
        r == polling_interval(tier@),
        tier@ == "elite"@ ==> r == 60,
        tier@ == "pro"@ ==> r == 3600,
        tier@ == "basic"@ ==> r == 86400,
        tier@ != "elite"@ && tier@ != "pro"@ && tier@ != "basic"@ ==> r == 0,
{
    proof {
        lemma_tier_names_distinct();
    }
    if text_eq(tier, "elite") {
        60
    } else if text_eq(tier, "pro") {
        3600
    } else if text_eq(tier, "basic") {
        86400
    } else {
        0
    }
}

/// The next cycle of the background engine for a tier.
pub fn polling_plan(tier: &str) -> (r: PollingPlan)
    ensures
        r == polling_plan_for(tier@),
        tier@ == "elite"@ ==> r == (PollingPlan { sync_inventory: true, sleep_secs: 60 }),
        tier@ == "pro"@ ==> r == (PollingPlan { sync_inventory: true, sleep_secs: 3600 }),
        tier@ == "basic"@ ==> r == (PollingPlan { sync_inventory: true, sleep_secs: 86400 }),
        tier@ == "free"@ ==> r == (PollingPlan { sync_inventory: true, sleep_secs: 3600 }),
        !(tier@ == "elite"@ || tier@ == "pro"@ || tier@ == "basic"@ || tier@ == "free"@) ==> r
            == (PollingPlan { sync_inventory: false, sleep_secs: 60 }),
{
    proof {
        lemma_tier_names_distinct();
    }
    let interval = polling_interval_secs(tier);
    if interval > 0 {
        PollingPlan { sync_inventory: true, sleep_secs: interval }
    } else if text_eq(tier, "free") {
        PollingPlan { sync_inventory: true, sleep_secs: 3600 }
    } else {
        PollingPlan { sync_inventory: false, sleep_secs: 60 }
    }
}

/// A higher paid tier is refreshed at least as often as a lower one.
pub proof fn lemma_higher_tier_polls_sooner(lower: Seq<char>, higher: Seq<char>)
    requires
        is_known_tier(lower),
        is_known_tier(higher),
        1 <= tier_rank(lower) <= tier_rank(higher),
    ensures
        polling_interval(higher) <= polling_interval(lower),
        polling_interval(higher) > 0,
{
    lemma_tier_names_distinct();
}

} // verus!
