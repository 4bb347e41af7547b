//! Which price points each market indicator reads. The prices themselves are
//! floating point and are combined by the application; this module fixes the
//! windows and index pairs, for prices of any type.
use vstd::prelude::*;

verus! {

/// The first point of a history (the latest, for histories listed latest first).
pub fn latest<T: Copy>(history: &[T]) -> (r: Option<T>)
    ensures
        r == (if history@.len() > 0 {
            Some(history@[0])
        } else {
            None
        }),
{
    if history.len() > 0 {
        Some(history[0])
    } else {
        None
    }
}

/// The first `n` points of a history, or all of it when it is shorter.
pub fn recent_window<T: Copy>(history: &[T], n: usize) -> (r: Vec<T>)
    ensures
        r@ == (if history@.len() >= n {
            history@.take(n as int)
        } else {
            history@
        }),
{
    let end = if history.len() >= n {
        n
    } else {
        history.len()
    };
    let mut out: Vec<T> = Vec::new();
    let mut i: usize = 0;
    while i < end
        invariant
            end <= history@.len(),
            end == (if history@.len() >= n {
                n as int
            } else {
                history@.len() as int
            }),
            0 <= i <= end,
            out@ == history@.take(i as int),
        decreases end - i,
    {
        out.push(history[i]);
        assert(history@.take(i + 1) == history@.take(i as int).push(history@[i as int]));
        i = i + 1;
    }
    assert(history@.take(history@.len() as int) == history@);
    out
}

/// The pair that momentum compares: the last price and the one `period`
/// points before it; `None` when the series has no more than `period` points.
pub fn momentum_pair<T: Copy>(prices: &[T], period: usize) -> (r: Option<(T, T)>)
    ensures
        prices@.len() <= period ==> r is None,
        prices@.len() > period ==> r == Some(
            (prices@[prices@.len() - 1], prices@[prices@.len() - 1 - period]),
        ),
{
    if prices.len() <= period {
        return None;
    }
    Some((prices[prices.len() - 1], prices[prices.len() - 1 - period]))
}

/// The `i`-th price change that RSI reads (counting from 1 at the end of the
/// series): the price at `len - i` and the one before it.
pub open spec fn rsi_change<T>(prices: Seq<T>, i: int) -> (T, T) {
    (prices[prices.len() - i], prices[prices.len() - i - 1])
}

/// Each change RSI reads pairs a price (first) with the price just before
/// it in the series (second), walking back from the end: the `k`-th change,
/// counting from 0, is (`prices[len-1-k]`, `prices[len-2-k]`).
pub proof fn lemma_rsi_changes_are_consecutive<T>(prices: Seq<T>)
    ensures
        forall|k: int|
            0 <= k < prices.len() - 1 ==> (#[trigger] rsi_change(prices, k + 1)).0 == prices[prices.len()
                - 1 - k] && rsi_change(prices, k + 1).1 == prices[prices.len() - 2 - k],
{
}

/// The last `period` price changes, latest first, as (newer, older) pairs;
/// `None` when the series has no more than `period` points.
pub fn rsi_changes<T: Copy>(prices: &[T], period: usize) -> (r: Option<Vec<(T, T)>>)
    ensures
        prices@.len() <= period ==> r is None,
        prices@.len() > period ==> (r matches Some(v) && v@.len() == period && forall|k: int|
            0 <= k < period ==> #[trigger] v@[k] == rsi_change(prices@, k + 1)),
        prices@.len() > period ==> (r matches Some(v) && forall|k: int|
            0 <= k < period ==> (#[trigger] v@[k]).0 == prices@[prices@.len() - 1 - k] && v@[k].1
                == prices@[prices@.len() - 2 - k]),
{
    proof {
        lemma_rsi_changes_are_consecutive(prices@);
    }
    if prices.len() <= period {
        return None;
    }
    let n = prices.len();
    let mut out: Vec<(T, T)> = Vec::new();
    let mut i: usize = 1;
    while i <= period
        invariant
            n == prices@.len(),
            n > period,
            1 <= i <= period + 1,
            out@.len() == i - 1,
            forall|k: int| 0 <= k < i - 1 ==> #[trigger] out@[k] == rsi_change(prices@, k + 1),
        decreases period + 1 - i,
    {
        out.push((prices[n - i], prices[n - i - 1]));
        i = i + 1;
    }
    Some(out)
}

} // verus!
