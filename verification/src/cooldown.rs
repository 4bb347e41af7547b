//! Manual refresh cooldowns: how soon after the last successful fetch a user
//! on each tier may ask Steam for a fresh price again.
use vstd::prelude::*;

use crate::text::{decimal, decimal_string, text_eq};
use crate::tiers::{is_known_tier, lemma_tier_names_distinct, tier_rank};

verus! {

/// Seconds a tier must wait between manual refreshes of one item; 0 for
/// tiers without a cooldown (elite, and any tier outside the model).
pub open spec fn cooldown_secs(tier: Seq<char>) -> int {
    if tier == "free"@ {
        3600
    } else if tier == "basic"@ {
        600
    } else if tier == "pro"@ {
        60
    } else {
        0
    }
}

/// Whether a manual refresh is refused: the item was fetched before
/// (`last_fetch != 0`) and less than the tier's cooldown has elapsed.
pub open spec fn refresh_blocked(tier: Seq<char>, last_fetch: int, now: int) -> bool {
    cooldown_secs(tier) > 0 && last_fetch != 0 && now - last_fetch < cooldown_secs(tier)
}

/// How long the user is told to wait: whole minutes (rounded down) on free
/// and basic, seconds on pro.
pub open spec fn wait_amount(tier: Seq<char>, elapsed: int) -> int {
    if tier == "pro"@ {
        60 - elapsed
    } else {
        (cooldown_secs(tier) - elapsed) / 60
    }
}

/// The message of a refused refresh.
pub open spec fn cooldown_message(tier: Seq<char>, elapsed: int) -> Seq<char> {
    let n = decimal(wait_amount(tier, elapsed) as nat);
    if tier == "free"@ {
        "Free Tier limit: Please wait "@ + n + " more minutes."@
    } else if tier == "basic"@ {
        "Basic Tier limit: Please wait "@ + n + " more minutes."@
    } else {
        "Pro Tier limit: Please wait "@ + n + " more seconds."@
    }
}

/// The inputs on which the cooldown arithmetic stays within `i64`: the
/// elapsed time, and the time left when the refresh is refused.
pub open spec fn cooldown_arith_in_range(tier: Seq<char>, last_fetch: int, now: int) -> bool {
    &&& i64::MIN <= now - last_fetch <= i64::MAX
    &&& refresh_blocked(tier, last_fetch, now) ==> cooldown_secs(tier) - (now - last_fetch)
        <= i64::MAX
}

/// Whether the cooldown arithmetic for these inputs stays within `i64`,
/// so that [`check_refresh_cooldown`] may be called on them.
pub fn cooldown_arith_ok(tier: &str, last_fetch: i64, now: i64) -> (r: bool)
    ensures
        r == cooldown_arith_in_range(tier@, last_fetch as int, now as int),
{
    proof {
        lemma_tier_names_distinct();
    }
    let elapsed = match now.checked_sub(last_fetch) {
        Some(e) => e,
        None => {
            return false;
        },
    };
    let cooldown: i64 = if text_eq(tier, "free") {
        3600
    } else if text_eq(tier, "basic") {
        600
    } else if text_eq(tier, "pro") {
        60
    } else {
        0
    };
    if cooldown > 0 && last_fetch != 0 && elapsed < cooldown {
        cooldown.checked_sub(elapsed).is_some()
    } else {
        true
    }
}

fn wait_message(prefix: &str, amount: i64, suffix: &str) -> (r: String)
    requires
        amount >= 0,
    ensures
        r@ == prefix@ + decimal(amount as nat) + suffix@,
{
    let mut m = prefix.to_owned();
    let n = decimal_string(amount as u64);
    m.append(n.as_str());
    m.append(suffix);
    m
}

/// Decides whether a manual refresh may go ahead for an item last fetched
/// at `last_fetch` (0: never), at time `now` (Unix seconds), on `tier`.
pub fn check_refresh_cooldown(tier: &str, last_fetch: i64, now: i64) -> (r: Result<(), String>)
    requires
        cooldown_arith_in_range(tier@, last_fetch as int, now as int),
    ensures
        match r {
            Ok(()) => !refresh_blocked(tier@, last_fetch as int, now as int),
            Err(m) => refresh_blocked(tier@, last_fetch as int, now as int) && m@
                == cooldown_message(tier@, now - last_fetch),
        },
        r is Err <==> (last_fetch != 0 && (tier@ == "free"@ && now - last_fetch < 3600 || tier@ == "basic"@
            && now - last_fetch < 600 || tier@ == "pro"@ && now - last_fetch < 60)),
        match r {
            Ok(()) => true,
            Err(m) => {
                &&& tier@ == "free"@ ==> m@ == "Free Tier limit: Please wait "@ + decimal(
                    ((3600 - (now - last_fetch)) / 60) as nat,
                ) + " more minutes."@
                &&& tier@ == "basic"@ ==> m@ == "Basic Tier limit: Please wait "@ + decimal(
                    ((600 - (now - last_fetch)) / 60) as nat,
                ) + " more minutes."@
                &&& tier@ == "pro"@ ==> m@ == "Pro Tier limit: Please wait "@ + decimal(
                    (60 - (now - last_fetch)) as nat,
                ) + " more seconds."@
            },
        },
{
    proof {
        lemma_tier_names_distinct();
        lemma_cooldown_schedule(tier@, last_fetch as int, now as int);
    }
    let elapsed = now - last_fetch;
    if text_eq(tier, "free") {
        if last_fetch != 0 && elapsed < 3600 {
            let remaining = (3600 - elapsed) / 60;
            return Err(wait_message("Free Tier limit: Please wait ", remaining, " more minutes."));
        }
    } else if text_eq(tier, "basic") {
        if last_fetch != 0 && elapsed < 600 {
            let remaining = (600 - elapsed) / 60;
            return Err(wait_message("Basic Tier limit: Please wait ", remaining, " more minutes."));
        }
    } else if text_eq(tier, "pro") {
        if last_fetch != 0 && elapsed < 60 {
            let remaining = 60 - elapsed;
            return Err(wait_message("Pro Tier limit: Please wait ", remaining, " more seconds."));
        }
    }
    Ok(())
}

/// The cooldown rule is the tier schedule: a refresh is refused exactly when
/// the item was fetched before and less than 3600 s (free), 600 s (basic) or
/// 60 s (pro) have passed, and the refusal tells the time left on that
/// schedule.
pub proof fn lemma_cooldown_schedule(tier: Seq<char>, last_fetch: int, now: int)
    ensures
        refresh_blocked(tier, last_fetch, now) <==> (last_fetch != 0 && (tier == "free"@ && now
            - last_fetch < 3600 || tier == "basic"@ && now - last_fetch < 600 || tier == "pro"@
            && now - last_fetch < 60)),
        refresh_blocked(tier, last_fetch, now) && tier == "basic"@ ==> cooldown_message(
            tier,
            now - last_fetch,
        ) == "Basic Tier limit: Please wait "@ + decimal(((600 - (now - last_fetch)) / 60) as nat)
            + " more minutes."@,
        refresh_blocked(tier, last_fetch, now) && tier == "free"@ ==> cooldown_message(
            tier,
            now - last_fetch,
        ) == "Free Tier limit: Please wait "@ + decimal(((3600 - (now - last_fetch)) / 60) as nat)
            + " more minutes."@,
        refresh_blocked(tier, last_fetch, now) && tier == "pro"@ ==> cooldown_message(
            tier,
            now - last_fetch,
        ) == "Pro Tier limit: Please wait "@ + decimal((60 - (now - last_fetch)) as nat)
            + " more seconds."@,
{
    lemma_tier_names_distinct();
}

/// An item that was never fetched can always be refreshed.
pub proof fn lemma_first_fetch_never_blocked(tier: Seq<char>, now: int)
    ensures
        !refresh_blocked(tier, 0, now),
{
}

/// Once a refresh is allowed, waiting longer keeps it allowed.
pub proof fn lemma_allowed_stays_allowed(tier: Seq<char>, last_fetch: int, now: int, later: int)
    requires
        !refresh_blocked(tier, last_fetch, now),
        now <= later,
    ensures
        !refresh_blocked(tier, last_fetch, later),
{
}

/// After the tier's full cooldown a refresh is always allowed.
pub proof fn lemma_cooldown_expires(tier: Seq<char>, last_fetch: int, now: int)
    requires
        now - last_fetch >= cooldown_secs(tier),
    ensures
        !refresh_blocked(tier, last_fetch, now),
{
}

/// Elite users are never held back.
pub proof fn lemma_elite_unlimited(last_fetch: int, now: int)
    ensures
        !refresh_blocked("elite"@, last_fetch, now),
{
    lemma_tier_names_distinct();
}

/// A refresh that a higher tier would refuse is refused on any lower tier too.
pub proof fn lemma_lower_tier_waits_longer(
    lower: Seq<char>,
    higher: Seq<char>,
    last_fetch: int,
    now: int,
)
    requires
        is_known_tier(lower),
        is_known_tier(higher),
        tier_rank(lower) <= tier_rank(higher),
        refresh_blocked(higher, last_fetch, now),
    ensures
        refresh_blocked(lower, last_fetch, now),
{
    lemma_tier_names_distinct();
}

} // verus!
