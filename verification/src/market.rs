//! Market-wide views over the price history: the "top movers" query and the
//! time windows the history is cut at.
use vstd::prelude::*;

use crate::text::text_eq;

verus! {

/// How the top movers are ranked.
#[derive(PartialEq, Eq, Structural, Clone, Copy, Debug)]
pub enum MoverRanking {
    /// By the spread of prices over the last day relative to their mean.
    Volatility,
    /// By current price.
    Price,
    /// By the size of the relative change over the last day.
    Change,
}

/// The ranking that the user's choice selects: `volatility`, `price`, or
/// anything else (or nothing) for the relative change.
pub open spec fn ranking_for(sort_by: Option<Seq<char>>) -> MoverRanking {
    match sort_by {
        Some(s) => if s == "volatility"@ {
            MoverRanking::Volatility
        } else if s == "price"@ {
            MoverRanking::Price
        } else {
            MoverRanking::Change
        },
        None => MoverRanking::Change,
    }
}

/// The SQL `ORDER BY` clause of a ranking.
pub open spec fn order_clause(r: MoverRanking) -> Seq<char> {
    match r {
        MoverRanking::Volatility => "volatility_swing DESC"@,
        MoverRanking::Price => "curr.price DESC"@,
        MoverRanking::Change => "ABS((curr.price - old_price) / old_price) DESC"@,
    }
}

/// The top-movers query up to its ordering; `?1` is the start of the last day.
pub open spec fn movers_query_head() -> Seq<char> {
    "SELECT \n            curr.market_hash_name, \n            curr.price as current_price,\n            (SELECT price FROM price_history \n             WHERE market_hash_name = curr.market_hash_name \n             AND timestamp <= ?1 \n             ORDER BY timestamp DESC LIMIT 1) as old_price,\n            (SELECT (MAX(price) - MIN(price)) / NULLIF(AVG(price), 0) FROM price_history\n             WHERE market_hash_name = curr.market_hash_name\n             AND timestamp > ?1) as volatility_swing\n         FROM price_cache curr\n         WHERE old_price IS NOT NULL\n         ORDER BY "@
}

/// The end of the top-movers query; `?2` is the number of rows.
pub open spec fn movers_query_tail() -> Seq<char> {
    "\n         LIMIT ?2"@
}

/// The ranking for the user's choice.
pub fn mover_ranking(sort_by: Option<&str>) -> (r: MoverRanking)
    ensures
        r == ranking_for(
            match sort_by {
                Some(s) => Some(s@),
                None => None,
            },
        ),
        sort_by matches Some(s) && s@ == "volatility"@ ==> r == MoverRanking::Volatility,
        sort_by matches Some(s) && s@ == "price"@ ==> r == MoverRanking::Price,
        sort_by matches Some(s) && s@ != "volatility"@ && s@ != "price"@ ==> r == MoverRanking::Change,
        sort_by is None ==> r == MoverRanking::Change,
{
    proof {
        reveal_strlit("volatility");
        reveal_strlit("price");
        assert("volatility"@.len() != "price"@.len());
    }
    match sort_by {
        Some(s) => {
            if text_eq(s, "volatility") {
                MoverRanking::Volatility
            } else if text_eq(s, "price") {
                MoverRanking::Price
            } else {
                MoverRanking::Change
            }
        },
        None => MoverRanking::Change,
    }
}

/// The full top-movers SQL query for a ranking.
pub fn top_movers_query(ranking: MoverRanking) -> (r: String)
    ensures
        r@ == movers_query_head() + order_clause(ranking) + movers_query_tail(),
        ranking == MoverRanking::Volatility ==> r@ == "SELECT \n            curr.market_hash_name, \n            curr.price as current_price,\n            (SELECT price FROM price_history \n             WHERE market_hash_name = curr.market_hash_name \n             AND timestamp <= ?1 \n             ORDER BY timestamp DESC LIMIT 1) as old_price,\n            (SELECT (MAX(price) - MIN(price)) / NULLIF(AVG(price), 0) FROM price_history\n             WHERE market_hash_name = curr.market_hash_name\n             AND timestamp > ?1) as volatility_swing\n         FROM price_cache curr\n         WHERE old_price IS NOT NULL\n         ORDER BY volatility_swing DESC\n         LIMIT ?2"@,
        ranking == MoverRanking::Price ==> r@ == "SELECT \n            curr.market_hash_name, \n            curr.price as current_price,\n            (SELECT price FROM price_history \n             WHERE market_hash_name = curr.market_hash_name \n             AND timestamp <= ?1 \n             ORDER BY timestamp DESC LIMIT 1) as old_price,\n            (SELECT (MAX(price) - MIN(price)) / NULLIF(AVG(price), 0) FROM price_history\n             WHERE market_hash_name = curr.market_hash_name\n             AND timestamp > ?1) as volatility_swing\n         FROM price_cache curr\n         WHERE old_price IS NOT NULL\n         ORDER BY curr.price DESC\n         LIMIT ?2"@,
        ranking == MoverRanking::Change ==> r@ == "SELECT \n            curr.market_hash_name, \n            curr.price as current_price,\n            (SELECT price FROM price_history \n             WHERE market_hash_name = curr.market_hash_name \n             AND timestamp <= ?1 \n             ORDER BY timestamp DESC LIMIT 1) as old_price,\n            (SELECT (MAX(price) - MIN(price)) / NULLIF(AVG(price), 0) FROM price_history\n             WHERE market_hash_name = curr.market_hash_name\n             AND timestamp > ?1) as volatility_swing\n         FROM price_cache curr\n         WHERE old_price IS NOT NULL\n         ORDER BY ABS((curr.price - old_price) / old_price) DESC\n         LIMIT ?2"@,
{
    let mut q = "SELECT \n            curr.market_hash_name, \n            curr.price as current_price,\n            (SELECT price FROM price_history \n             WHERE market_hash_name = curr.market_hash_name \n             AND timestamp <= ?1 \n             ORDER BY timestamp DESC LIMIT 1) as old_price,\n            (SELECT (MAX(price) - MIN(price)) / NULLIF(AVG(price), 0) FROM price_history\n             WHERE market_hash_name = curr.market_hash_name\n             AND timestamp > ?1) as volatility_swing\n         FROM price_cache curr\n         WHERE old_price IS NOT NULL\n         ORDER BY ".to_owned();
    match ranking {
        MoverRanking::Volatility => q.append("volatility_swing DESC"),
        MoverRanking::Price => q.append("curr.price DESC"),
        MoverRanking::Change => q.append("ABS((curr.price - old_price) / old_price) DESC"),
    }
    q.append("\n         LIMIT ?2");
    proof {
        lemma_movers_query_text();
    }
    q
}

/// The top-movers query, written out whole for each ranking: the current
/// cached price, the latest history price at or before the start of the last
/// day (`?1`) as the old price, the relative spread of the prices since then,
/// only items with an old price, ordered by the ranking, at most `?2` rows.
pub proof fn lemma_movers_query_text()
    ensures
        movers_query_head() + order_clause(MoverRanking::Volatility) + movers_query_tail() == "SELECT \n            curr.market_hash_name, \n            curr.price as current_price,\n            (SELECT price FROM price_history \n             WHERE market_hash_name = curr.market_hash_name \n             AND timestamp <= ?1 \n             ORDER BY timestamp DESC LIMIT 1) as old_price,\n            (SELECT (MAX(price) - MIN(price)) / NULLIF(AVG(price), 0) FROM price_history\n             WHERE market_hash_name = curr.market_hash_name\n             AND timestamp > ?1) as volatility_swing\n         FROM price_cache curr\n         WHERE old_price IS NOT NULL\n         ORDER BY volatility_swing DESC\n         LIMIT ?2"@,
        movers_query_head() + order_clause(MoverRanking::Price) + movers_query_tail() == "SELECT \n            curr.market_hash_name, \n            curr.price as current_price,\n            (SELECT price FROM price_history \n             WHERE market_hash_name = curr.market_hash_name \n             AND timestamp <= ?1 \n             ORDER BY timestamp DESC LIMIT 1) as old_price,\n            (SELECT (MAX(price) - MIN(price)) / NULLIF(AVG(price), 0) FROM price_history\n             WHERE market_hash_name = curr.market_hash_name\n             AND timestamp > ?1) as volatility_swing\n         FROM price_cache curr\n         WHERE old_price IS NOT NULL\n         ORDER BY curr.price DESC\n         LIMIT ?2"@,
        movers_query_head() + order_clause(MoverRanking::Change) + movers_query_tail() == "SELECT \n            curr.market_hash_name, \n            curr.price as current_price,\n            (SELECT price FROM price_history \n             WHERE market_hash_name = curr.market_hash_name \n             AND timestamp <= ?1 \n             ORDER BY timestamp DESC LIMIT 1) as old_price,\n            (SELECT (MAX(price) - MIN(price)) / NULLIF(AVG(price), 0) FROM price_history\n             WHERE market_hash_name = curr.market_hash_name\n             AND timestamp > ?1) as volatility_swing\n         FROM price_cache curr\n         WHERE old_price IS NOT NULL\n         ORDER BY ABS((curr.price - old_price) / old_price) DESC\n         LIMIT ?2"@,
{
    reveal_strlit("SELECT \n            curr.market_hash_name, \n            curr.price as current_price,\n            (SELECT price FROM price_history \n             WHERE market_hash_name = curr.market_hash_name \n             AND timestamp <= ?1 \n             ORDER BY timestamp DESC LIMIT 1) as old_price,\n            (SELECT (MAX(price) - MIN(price)) / NULLIF(AVG(price), 0) FROM price_history\n             WHERE market_hash_name = curr.market_hash_name\n             AND timestamp > ?1) as volatility_swing\n         FROM price_cache curr\n         WHERE old_price IS NOT NULL\n         ORDER BY ");
    reveal_strlit("volatility_swing DESC");
    reveal_strlit("curr.price DESC");
    reveal_strlit("ABS((curr.price - old_price) / old_price) DESC");
    reveal_strlit("\n         LIMIT ?2");
    reveal_strlit("SELECT \n            curr.market_hash_name, \n            curr.price as current_price,\n            (SELECT price FROM price_history \n             WHERE market_hash_name = curr.market_hash_name \n             AND timestamp <= ?1 \n             ORDER BY timestamp DESC LIMIT 1) as old_price,\n            (SELECT (MAX(price) - MIN(price)) / NULLIF(AVG(price), 0) FROM price_history\n             WHERE market_hash_name = curr.market_hash_name\n             AND timestamp > ?1) as volatility_swing\n         FROM price_cache curr\n         WHERE old_price IS NOT NULL\n         ORDER BY volatility_swing DESC\n         LIMIT ?2");
    reveal_strlit("SELECT \n            curr.market_hash_name, \n            curr.price as current_price,\n            (SELECT price FROM price_history \n             WHERE market_hash_name = curr.market_hash_name \n             AND timestamp <= ?1 \n             ORDER BY timestamp DESC LIMIT 1) as old_price,\n            (SELECT (MAX(price) - MIN(price)) / NULLIF(AVG(price), 0) FROM price_history\n             WHERE market_hash_name = curr.market_hash_name\n             AND timestamp > ?1) as volatility_swing\n         FROM price_cache curr\n         WHERE old_price IS NOT NULL\n         ORDER BY curr.price DESC\n         LIMIT ?2");
    reveal_strlit("SELECT \n            curr.market_hash_name, \n            curr.price as current_price,\n            (SELECT price FROM price_history \n             WHERE market_hash_name = curr.market_hash_name \n             AND timestamp <= ?1 \n             ORDER BY timestamp DESC LIMIT 1) as old_price,\n            (SELECT (MAX(price) - MIN(price)) / NULLIF(AVG(price), 0) FROM price_history\n             WHERE market_hash_name = curr.market_hash_name\n             AND timestamp > ?1) as volatility_swing\n         FROM price_cache curr\n         WHERE old_price IS NOT NULL\n         ORDER BY ABS((curr.price - old_price) / old_price) DESC\n         LIMIT ?2");
    assert(movers_query_head() + order_clause(MoverRanking::Volatility) + movers_query_tail() =~= "SELECT \n            curr.market_hash_name, \n            curr.price as current_price,\n            (SELECT price FROM price_history \n             WHERE market_hash_name = curr.market_hash_name \n             AND timestamp <= ?1 \n             ORDER BY timestamp DESC LIMIT 1) as old_price,\n            (SELECT (MAX(price) - MIN(price)) / NULLIF(AVG(price), 0) FROM price_history\n             WHERE market_hash_name = curr.market_hash_name\n             AND timestamp > ?1) as volatility_swing\n         FROM price_cache curr\n         WHERE old_price IS NOT NULL\n         ORDER BY volatility_swing DESC\n         LIMIT ?2"@);
    assert(movers_query_head() + order_clause(MoverRanking::Price) + movers_query_tail() =~= "SELECT \n            curr.market_hash_name, \n            curr.price as current_price,\n            (SELECT price FROM price_history \n             WHERE market_hash_name = curr.market_hash_name \n             AND timestamp <= ?1 \n             ORDER BY timestamp DESC LIMIT 1) as old_price,\n            (SELECT (MAX(price) - MIN(price)) / NULLIF(AVG(price), 0) FROM price_history\n             WHERE market_hash_name = curr.market_hash_name\n             AND timestamp > ?1) as volatility_swing\n         FROM price_cache curr\n         WHERE old_price IS NOT NULL\n         ORDER BY curr.price DESC\n         LIMIT ?2"@);
    assert(movers_query_head() + order_clause(MoverRanking::Change) + movers_query_tail() =~= "SELECT \n            curr.market_hash_name, \n            curr.price as current_price,\n            (SELECT price FROM price_history \n             WHERE market_hash_name = curr.market_hash_name \n             AND timestamp <= ?1 \n             ORDER BY timestamp DESC LIMIT 1) as old_price,\n            (SELECT (MAX(price) - MIN(price)) / NULLIF(AVG(price), 0) FROM price_history\n             WHERE market_hash_name = curr.market_hash_name\n             AND timestamp > ?1) as volatility_swing\n         FROM price_cache curr\n         WHERE old_price IS NOT NULL\n         ORDER BY ABS((curr.price - old_price) / old_price) DESC\n         LIMIT ?2"@);
}

/// Seconds in a day: top movers compare against the price a day ago.
pub open spec fn day_secs() -> int {
    86400
}

/// Seconds in thirty days: cached prices older than that are pruned.
pub open spec fn cache_retention_secs() -> int {
    2592000
}

/// The start of the last day, for the top-movers query.
pub fn movers_since(now: i64) -> (r: i64)
    requires
        now - day_secs() >= i64::MIN,
    ensures
        r == now - day_secs(),
        r == now - 86400,
{
    now - 86400
}

/// The oldest timestamp a cached price may have and survive pruning:
/// entries with an earlier timestamp are deleted.
pub fn prune_cutoff(now: i64) -> (r: i64)
    requires
        now - cache_retention_secs() >= i64::MIN,
    ensures
        r == now - cache_retention_secs(),
        r == now - 30 * 24 * 60 * 60,
{
    now - 30 * 24 * 60 * 60
}

} // verus!
