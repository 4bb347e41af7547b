//! User settings: what each settings command writes to the key/value
//! settings store. The application performs the write.
use vstd::prelude::*;

use crate::text::{decimal, decimal_string, text_eq};
use crate::tiers::{current_tier, is_known_tier};

verus! {

/// One row to upsert into the settings store.
pub struct SettingWrite {
    pub key: String,
    pub value: String,
}

/// `str::to_lowercase`: the Unicode lower-case mapping of a string.
pub uninterp spec fn std_to_lowercase(s: Seq<char>) -> Seq<char>;

/// Calls `str::to_lowercase`. The contract claims only that the result is
/// the named function of the input; the Unicode mapping is not restated.
#[verifier::external_body]
fn to_lowercase(s: &str) -> (r: String)
    ensures
        r@ == std_to_lowercase(s@),
{
    s.to_lowercase()
}

/// The value that `dev_set_tier` stores for a requested tier, when it accepts it.
pub open spec fn requested_tier(tier: Seq<char>) -> Seq<char> {
    std_to_lowercase(tier)
}

/// The message for a tier outside the subscription model.
pub open spec fn invalid_tier_message() -> Seq<char> {
    "Invalid tier specified"@
}

fn is_known_tier_text(t: &str) -> (r: bool)
    ensures
        r == is_known_tier(t@),
{
    text_eq(t, "free") || text_eq(t, "basic") || text_eq(t, "pro") || text_eq(t, "elite")
}

/// Switches the tier (a developer command): the lower-cased tier is stored
/// under `tier_level` when it is one of free, basic, pro and elite, and
/// refused otherwise.
pub fn dev_set_tier(tier: &str) -> (r: Result<SettingWrite, String>)
    ensures
        match r {
            Ok(w) => is_known_tier(requested_tier(tier@)) && w.key@ == "tier_level"@ && w.value@
                == requested_tier(tier@),
            Err(m) => !is_known_tier(requested_tier(tier@)) && m@ == invalid_tier_message(),
        },
{
    let lower = to_lowercase(tier);
    if !is_known_tier_text(lower.as_str()) {
        return Err("Invalid tier specified".to_owned());
    }
    Ok(SettingWrite { key: "tier_level".to_owned(), value: lower })
}

/// Stores the refresh interval, in decimal, under `refresh_interval`.
pub fn set_refresh_interval(seconds: u32) -> (r: SettingWrite)
    ensures
        r.key@ == "refresh_interval"@,
        r.value@ == decimal(seconds as nat),
{
    SettingWrite { key: "refresh_interval".to_owned(), value: decimal_string(seconds as u64) }
}

/// Stores the preferred currency under `currency`.
pub fn set_currency_preference(currency: String) -> (r: SettingWrite)
    ensures
        r.key@ == "currency"@,
        r.value@ == currency@,
{
    SettingWrite { key: "currency".to_owned(), value: currency }
}

/// Stores the dark-mode switch as `true` or `false` under `dark_mode`.
pub fn toggle_dark_mode(enabled: bool) -> (r: SettingWrite)
    ensures
        r.key@ == "dark_mode"@,
        r.value@ == (if enabled {
            "true"@
        } else {
            "false"@
        }),
{
    let value = if enabled {
        "true".to_owned()
    } else {
        "false".to_owned()
    };
    SettingWrite { key: "dark_mode".to_owned(), value }
}

/// A tier that `dev_set_tier` accepts is the tier in force once it is stored:
/// reading `tier_level` back gives the lower-cased tier, a known one.
pub proof fn lemma_set_tier_then_current(tier: Seq<char>, stored: Seq<char>)
    requires
        is_known_tier(requested_tier(tier)),
        stored == requested_tier(tier),
    ensures
        current_tier(Some(stored)) == requested_tier(tier),
        is_known_tier(current_tier(Some(stored))),
{
}

} // verus!
