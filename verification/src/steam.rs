//! Steam market responses: checking a raw reply, reading its price fields,
//! and building the price-overview request URL.
use vstd::prelude::*;
use vstd::utf8::encode_utf8;

use crate::text::{first_non_white_space, lemma_without_char, remove_char, trim_start, without_char};

verus! {

/// What the top-level object of a JSON document holds under one key.
pub enum JsonField {
    /// The document is not an object, or has no such key.
    Absent,
    Null,
    Bool(bool),
    Number,
    Str(String),
    Array,
    Object,
}

/// The mathematical value of a [`JsonField`].
pub enum JsonFieldView {
    Absent,
    Null,
    Bool(bool),
    Number,
    Str(Seq<char>),
    Array,
    Object,
}

impl View for JsonField {
    type V = JsonFieldView;

    open spec fn view(&self) -> JsonFieldView {
        match self {
            JsonField::Absent => JsonFieldView::Absent,
            JsonField::Null => JsonFieldView::Null,
            JsonField::Bool(b) => JsonFieldView::Bool(*b),
            JsonField::Number => JsonFieldView::Number,
            JsonField::Str(s) => JsonFieldView::Str(s@),
            JsonField::Array => JsonFieldView::Array,
            JsonField::Object => JsonFieldView::Object,
        }
    }
}

/// What `serde_json::from_str::<serde_json::Value>(text)` followed by
/// `Value::get(key)` yields: `None` when the text is not JSON, otherwise the
/// kind of the value under `key` (with its text when it is a string).
pub uninterp spec fn serde_json_field(text: Seq<char>, key: Seq<char>) -> Option<JsonFieldView>;

/// Parses `text` with `serde_json::from_str` into a `serde_json::Value` and
/// looks `key` up with `Value::get`. The contract claims that the outcome is
/// the named function of `text` and `key`, and that whether parsing fails
/// does not depend on the key.
#[verifier::external_body]
fn json_field(text: &str, key: &str) -> (r: Option<JsonField>)
    ensures
        match r {
            None => serde_json_field(text@, key@) is None,
            Some(f) => serde_json_field(text@, key@) == Some(f@),
        },
        forall|k: Seq<char>| (#[trigger] serde_json_field(text@, k) is None) == (r is None),
{
    match serde_json::from_str::<serde_json::Value>(text) {
        Err(_) => None,
        Ok(v) => Some(
            match v.get(key).cloned() {
                None => JsonField::Absent,
                Some(serde_json::Value::Null) => JsonField::Null,
                Some(serde_json::Value::Bool(b)) => JsonField::Bool(b),
                Some(serde_json::Value::Number(_)) => JsonField::Number,
                Some(serde_json::Value::String(s)) => JsonField::Str(s),
                Some(serde_json::Value::Array(_)) => JsonField::Array,
                Some(serde_json::Value::Object(_)) => JsonField::Object,
            },
        ),
    }
}

/// Why a raw Steam reply was refused.
#[derive(PartialEq, Eq, Structural, Clone, Copy, Debug)]
pub enum SteamReplyError {
    /// The reply is an HTML page (Cloudflare or rate limiting).
    Html,
    /// The reply is not JSON.
    InvalidJson,
    /// The reply has no `success` field.
    MissingSuccess,
    /// The reply holds `lowest_price: null`.
    NullPrice,
    /// The reply does not hold `success: true`.
    Unsuccessful,
}

/// The message the application shows for each refusal.
pub open spec fn reply_error_message(e: SteamReplyError) -> Seq<char> {
    match e {
        SteamReplyError::Html => "Steam returned HTML instead of JSON (Cloudflare or rate limit)"@,
        SteamReplyError::InvalidJson => "Invalid JSON from Steam"@,
        SteamReplyError::MissingSuccess => "Missing 'success' field in Steam response"@,
        SteamReplyError::NullPrice => "Steam returned null price"@,
        SteamReplyError::Unsuccessful => "Steam reported success: false"@,
    }
}

impl SteamReplyError {
    /// The text of the error.
    pub fn message(&self) -> (r: String)
        ensures
            r@ == reply_error_message(*self),
            *self == SteamReplyError::Html ==> r@
                == "Steam returned HTML instead of JSON (Cloudflare or rate limit)"@,
            *self == SteamReplyError::InvalidJson ==> r@ == "Invalid JSON from Steam"@,
            *self == SteamReplyError::MissingSuccess ==> r@
                == "Missing 'success' field in Steam response"@,
            *self == SteamReplyError::NullPrice ==> r@ == "Steam returned null price"@,
            *self == SteamReplyError::Unsuccessful ==> r@ == "Steam reported success: false"@,
    {
        match self {
            SteamReplyError::Html => "Steam returned HTML instead of JSON (Cloudflare or rate limit)".to_owned(),
            SteamReplyError::InvalidJson => "Invalid JSON from Steam".to_owned(),
            SteamReplyError::MissingSuccess => "Missing 'success' field in Steam response".to_owned(),
            SteamReplyError::NullPrice => "Steam returned null price".to_owned(),
            SteamReplyError::Unsuccessful => "Steam reported success: false".to_owned(),
        }
    }
}

/// Whether the reply, once its leading white space is skipped, starts with `<`.
pub open spec fn looks_like_html(text: Seq<char>) -> bool {
    trim_start(text).len() > 0 && trim_start(text)[0] == '<'
}

/// The verdict on a raw Steam reply: `None` when it is accepted.
pub open spec fn reply_check(text: Seq<char>) -> Option<SteamReplyError> {
    if looks_like_html(text) {
        Some(SteamReplyError::Html)
    } else {
        match serde_json_field(text, "success"@) {
            None => Some(SteamReplyError::InvalidJson),
            Some(JsonFieldView::Absent) => Some(SteamReplyError::MissingSuccess),
            Some(_) => match serde_json_field(text, "lowest_price"@) {
                Some(JsonFieldView::Null) => Some(SteamReplyError::NullPrice),
                _ => None,
            },
        }
    }
}

proof fn lemma_zero_has_no_separators()
    ensures
        without_char("0"@, '$') == "0"@,
        without_char("0"@, ',') == "0"@,
{
    reveal_strlit("0");
    let z = "0"@;
    assert(z.drop_last() =~= Seq::<char>::empty());
    assert(without_char(z.drop_last(), '$') == z.drop_last());
    assert(without_char(z.drop_last(), ',') == z.drop_last());
    assert(z.drop_last().push('0') =~= z);
}

/// The reply check, field by field: an HTML page is refused; otherwise text
/// that is not JSON, then a reply without `success`, then a reply whose
/// `lowest_price` is `null`; every other reply is accepted, whether or not it
/// has a `lowest_price` at all.
pub proof fn lemma_reply_check_fields(text: Seq<char>)
    ensures
        (trim_start(text).len() > 0 && trim_start(text)[0] == '<') ==> reply_check(text) == Some(SteamReplyError::Html),
        !(trim_start(text).len() > 0 && trim_start(text)[0] == '<') && serde_json_field(text, "success"@) is None ==> reply_check(text) == Some(SteamReplyError::InvalidJson),
        !(trim_start(text).len() > 0 && trim_start(text)[0] == '<') && serde_json_field(text, "success"@) == Some(JsonFieldView::Absent) ==> reply_check(text) == Some(
            SteamReplyError::MissingSuccess,
        ),
        !(trim_start(text).len() > 0 && trim_start(text)[0] == '<') && serde_json_field(text, "success"@) is Some && serde_json_field(text, "success"@) != Some(JsonFieldView::Absent) ==> (serde_json_field(text, "lowest_price"@) == Some(
            JsonFieldView::Null,
        ) <==> reply_check(text) == Some(SteamReplyError::NullPrice)),
        !(trim_start(text).len() > 0 && trim_start(text)[0] == '<') && serde_json_field(text, "success"@) is Some && serde_json_field(text, "success"@) != Some(JsonFieldView::Absent) ==> (serde_json_field(text, "lowest_price"@) != Some(
            JsonFieldView::Null,
        ) <==> reply_check(text) is None),
{
}

/// Every accepted reply that says `success: true` yields its prices: the
/// text of `lowest_price`, `median_price` and `volume` (`"0"` where a field
/// is missing or not a string), without `$` (prices) and `,`; an accepted
/// reply whose `success` is anything else is refused as unsuccessful.
pub proof fn lemma_reply_prices_fields(text: Seq<char>)
    ensures
        !(trim_start(text).len() > 0 && trim_start(text)[0] == '<') && serde_json_field(text, "success"@) == Some(
            JsonFieldView::Bool(true),
        ) && serde_json_field(text, "lowest_price"@) != Some(JsonFieldView::Null) ==> (reply_prices(text) matches Ok((lowest, median, volume)) && (match serde_json_field(text, "lowest_price"@) {
                Some(JsonFieldView::Str(s)) => lowest == without_char(without_char(s, '$'), ','),
                _ => lowest == "0"@,
            }) && (match serde_json_field(text, "median_price"@) {
                Some(JsonFieldView::Str(s)) => median == without_char(without_char(s, '$'), ','),
                _ => median == "0"@,
            }) && (match serde_json_field(text, "volume"@) {
                Some(JsonFieldView::Str(s)) => volume == without_char(s, ','),
                _ => volume == "0"@,
            })),
        !(trim_start(text).len() > 0 && trim_start(text)[0] == '<') && serde_json_field(text, "success"@) is Some
            && serde_json_field(text, "success"@) != Some(JsonFieldView::Absent) && serde_json_field(text, "success"@) != Some(
            JsonFieldView::Bool(true),
        ) && serde_json_field(text, "lowest_price"@) != Some(JsonFieldView::Null) ==> reply_prices(text) == Err::<(Seq<char>, Seq<char>, Seq<char>), SteamReplyError>(SteamReplyError::Unsuccessful),
{
    lemma_reply_check_fields(text);
    lemma_zero_has_no_separators();
    if !(trim_start(text).len() > 0 && trim_start(text)[0] == '<') && serde_json_field(
        text,
        "success"@,
    ) == Some(JsonFieldView::Bool(true)) && serde_json_field(text, "lowest_price"@) != Some(
        JsonFieldView::Null,
    ) {
        assert(reply_check(text) is None);
        let l = serde_json_field(text, "lowest_price"@);
        let m = serde_json_field(text, "median_price"@);
        let v = serde_json_field(text, "volume"@);
        assert(reply_prices(text) == Ok::<(Seq<char>, Seq<char>, Seq<char>), SteamReplyError>(
            (bare_price(text_or_zero(l)), bare_price(text_or_zero(m)), without_char(text_or_zero(v), ',')),
        ));
    }
}

/// Checks a raw Steam reply before it is used.
pub fn check_steam_reply(raw: &str) -> (r: Result<(), SteamReplyError>)
    ensures
        match r {
            Ok(()) => reply_check(raw@) is None,
            Err(e) => reply_check(raw@) == Some(e),
        },
        (trim_start(raw@).len() > 0 && trim_start(raw@)[0] == '<') ==> r == Err::<(), SteamReplyError>(SteamReplyError::Html),
        !(trim_start(raw@).len() > 0 && trim_start(raw@)[0] == '<') && serde_json_field(raw@, "success"@) is None ==> r == Err::<(), SteamReplyError>(SteamReplyError::InvalidJson),
        !(trim_start(raw@).len() > 0 && trim_start(raw@)[0] == '<') && serde_json_field(raw@, "success"@) == Some(JsonFieldView::Absent) ==> r == Err::<(), SteamReplyError>(
            SteamReplyError::MissingSuccess,
        ),
        !(trim_start(raw@).len() > 0 && trim_start(raw@)[0] == '<') && serde_json_field(raw@, "success"@) is Some && serde_json_field(raw@, "success"@) != Some(JsonFieldView::Absent) ==> (serde_json_field(raw@, "lowest_price"@) == Some(
            JsonFieldView::Null,
        ) ==> r == Err::<(), SteamReplyError>(SteamReplyError::NullPrice)) && (serde_json_field(raw@, "lowest_price"@) != Some(
            JsonFieldView::Null,
        ) ==> r == Ok::<(), SteamReplyError>(())),
{
    proof {
        lemma_reply_check_fields(raw@);
    }
    match first_non_white_space(raw) {
        Some(c) => {
            if c == '<' {
                return Err(SteamReplyError::Html);
            }
        },
        None => {},
    }
    let success = json_field(raw, "success");
    match success {
        None => Err(SteamReplyError::InvalidJson),
        Some(JsonField::Absent) => Err(SteamReplyError::MissingSuccess),
        Some(_) => {
            match json_field(raw, "lowest_price") {
                Some(JsonField::Null) => Err(SteamReplyError::NullPrice),
                _ => Ok(()),
            }
        },
    }
}

/// Checks a raw Steam reply and hands it back unchanged when it is accepted,
/// or the message of the refusal.
pub fn validate_steam_response(raw: String) -> (r: Result<String, String>)
    ensures
        match reply_check(raw@) {
            None => r == Ok::<String, String>(raw),
            Some(e) => r matches Err(m) && m@ == reply_error_message(e),
        },
{
    match check_steam_reply(raw.as_str()) {
        Ok(()) => Ok(raw),
        Err(e) => Err(e.message()),
    }
}


/// The price fields of an accepted reply, as text with the currency sign and
/// the thousands separators taken out; the application parses them as numbers.
pub struct PriceFields {
    /// `lowest_price`, or `"0"` when it is not a string.
    pub lowest: String,
    /// `median_price`, or `"0"` when it is not a string.
    pub median: String,
    /// `volume`, or `"0"` when it is not a string.
    pub volume: String,
}

/// The text of a field, or `"0"` when the field is not a JSON string.
pub open spec fn text_or_zero(f: Option<JsonFieldView>) -> Seq<char> {
    match f {
        Some(JsonFieldView::Str(s)) => s,
        _ => "0"@,
    }
}

/// A price as Steam writes it (such as `$1,234.56`) without `$` and `,`.
pub open spec fn bare_price(t: Seq<char>) -> Seq<char> {
    without_char(without_char(t, '$'), ',')
}

/// What a raw reply yields: the refusal, or the texts of the lowest price,
/// the median price and the volume.
pub open spec fn reply_prices(text: Seq<char>) -> Result<(Seq<char>, Seq<char>, Seq<char>), SteamReplyError> {
    match reply_check(text) {
        Some(e) => Err(e),
        None => if serde_json_field(text, "success"@) != Some(JsonFieldView::Bool(true)) {
            Err(SteamReplyError::Unsuccessful)
        } else {
            Ok(
                (
                    bare_price(text_or_zero(serde_json_field(text, "lowest_price"@))),
                    bare_price(text_or_zero(serde_json_field(text, "median_price"@))),
                    without_char(text_or_zero(serde_json_field(text, "volume"@)), ','),
                ),
            )
        },
    }
}

fn field_text_or_zero(raw: &str, key: &str) -> (r: String)
    ensures
        r@ == text_or_zero(serde_json_field(raw@, key@)),
{
    match json_field(raw, key) {
        Some(JsonField::Str(s)) => s,
        _ => "0".to_owned(),
    }
}

/// Reads the price fields of a raw Steam reply.
pub fn read_price_fields(raw: &str) -> (r: Result<PriceFields, SteamReplyError>)
    ensures
        match reply_prices(raw@) {
            Err(e) => r == Err::<PriceFields, SteamReplyError>(e),
            Ok((lowest, median, volume)) => r matches Ok(p) && p.lowest@ == lowest
                && p.median@ == median && p.volume@ == volume,
        },
        !(trim_start(raw@).len() > 0 && trim_start(raw@)[0] == '<') && serde_json_field(raw@, "success"@) == Some(
            JsonFieldView::Bool(true),
        ) && serde_json_field(raw@, "lowest_price"@) != Some(JsonFieldView::Null) ==> (r matches Ok(p) && (match serde_json_field(raw@, "lowest_price"@) {
                Some(JsonFieldView::Str(s)) => p.lowest@ == without_char(without_char(s, '$'), ','),
                _ => p.lowest@ == "0"@,
            }) && (match serde_json_field(raw@, "median_price"@) {
                Some(JsonFieldView::Str(s)) => p.median@ == without_char(without_char(s, '$'), ','),
                _ => p.median@ == "0"@,
            }) && (match serde_json_field(raw@, "volume"@) {
                Some(JsonFieldView::Str(s)) => p.volume@ == without_char(s, ','),
                _ => p.volume@ == "0"@,
            })),
        !(trim_start(raw@).len() > 0 && trim_start(raw@)[0] == '<') && serde_json_field(raw@, "success"@) is Some
            && serde_json_field(raw@, "success"@) != Some(JsonFieldView::Absent) && serde_json_field(raw@, "success"@) != Some(
            JsonFieldView::Bool(true),
        ) && serde_json_field(raw@, "lowest_price"@) != Some(JsonFieldView::Null) ==> r == Err::<PriceFields, SteamReplyError>(SteamReplyError::Unsuccessful),
{
    proof {
        lemma_reply_prices_fields(raw@);
    }
    check_steam_reply(raw)?;
    match json_field(raw, "success") {
        Some(JsonField::Bool(true)) => {},
        Some(_) => {
            return Err(SteamReplyError::Unsuccessful);
        },
        None => {
            return Err(SteamReplyError::InvalidJson);
        },
    }
    let lowest = field_text_or_zero(raw, "lowest_price");
    let median = field_text_or_zero(raw, "median_price");
    let volume = field_text_or_zero(raw, "volume");
    let lowest = remove_char(&remove_char(lowest.as_str(), '$'), ',');
    let median = remove_char(&remove_char(median.as_str(), '$'), ',');
    let volume = remove_char(volume.as_str(), ',');
    Ok(PriceFields { lowest, median, volume })
}

/// Reads the price fields of a raw Steam reply, or the message of its refusal.
pub fn process_price_json(text: &str) -> (r: Result<PriceFields, String>)
    ensures
        match reply_prices(text@) {
            Err(e) => r matches Err(m) && m@ == reply_error_message(e),
            Ok((lowest, median, volume)) => r matches Ok(p) && p.lowest@ == lowest
                && p.median@ == median && p.volume@ == volume,
        },
        !(trim_start(text@).len() > 0 && trim_start(text@)[0] == '<') && serde_json_field(text@, "success"@) == Some(
            JsonFieldView::Bool(true),
        ) && serde_json_field(text@, "lowest_price"@) != Some(JsonFieldView::Null) ==> (r matches Ok(p) && (match serde_json_field(text@, "lowest_price"@) {
                Some(JsonFieldView::Str(s)) => p.lowest@ == without_char(without_char(s, '$'), ','),
                _ => p.lowest@ == "0"@,
            }) && (match serde_json_field(text@, "median_price"@) {
                Some(JsonFieldView::Str(s)) => p.median@ == without_char(without_char(s, '$'), ','),
                _ => p.median@ == "0"@,
            }) && (match serde_json_field(text@, "volume"@) {
                Some(JsonFieldView::Str(s)) => p.volume@ == without_char(s, ','),
                _ => p.volume@ == "0"@,
            })),
        !(trim_start(text@).len() > 0 && trim_start(text@)[0] == '<') && serde_json_field(text@, "success"@) is Some
            && serde_json_field(text@, "success"@) != Some(JsonFieldView::Absent) && serde_json_field(text@, "success"@) != Some(
            JsonFieldView::Bool(true),
        ) && serde_json_field(text@, "lowest_price"@) != Some(JsonFieldView::Null) ==> (r matches Err(m) && m@ == "Steam reported success: false"@),
{
    proof {
        lemma_reply_prices_fields(text@);
    }
    match read_price_fields(text) {
        Ok(p) => Ok(p),
        Err(e) => Err(e.message()),
    }
}


/// Bytes that percent-encoding leaves as they are: ASCII letters, digits,
/// `-`, `.`, `_` and `~`.
pub open spec fn is_unreserved_byte(b: u8) -> bool {
    ||| 48 <= b <= 57
    ||| 65 <= b <= 90
    ||| 97 <= b <= 122
    ||| b == 45
    ||| b == 46
    ||| b == 95
    ||| b == 126
}

/// An upper-case hexadecimal digit, `0 <= d < 16`.
pub open spec fn hex_digit(d: int) -> char {
    if d < 10 {
        (d + 48) as char
    } else {
        (d + 55) as char
    }
}

/// One byte, percent-encoded.
pub open spec fn percent_encode_byte(b: u8) -> Seq<char> {
    if is_unreserved_byte(b) {
        seq![b as char]
    } else {
        seq!['%', hex_digit((b / 16) as int), hex_digit((b % 16) as int)]
    }
}

/// A byte string, percent-encoded byte by byte.
pub open spec fn percent_encode(bytes: Seq<u8>) -> Seq<char>
    decreases bytes.len(),
{
    if bytes.len() == 0 {
        Seq::empty()
    } else {
        percent_encode(bytes.drop_last()) + percent_encode_byte(bytes.last())
    }
}

/// `urlencoding::encode`: percent-encodes every byte of the UTF-8 form of
/// `s` but ASCII alphanumerics and `-`, `_`, `.`, `~`, with upper-case
/// hexadecimal digits. The contract states exactly that.
#[verifier::external_body]
fn url_encode(s: &str) -> (r: String)
    ensures
        r@ == percent_encode(encode_utf8(s@)),
{
    urlencoding::encode(s).into_owned()
}

/// The start of Steam's price-overview request, for CS2 items in US dollars.
pub open spec fn price_overview_prefix() -> Seq<char> {
    "https://steamcommunity.com/market/priceoverview/?currency=1&appid=730&market_hash_name="@
}

/// The price-overview request URL for an item.
pub fn price_overview_url(market_hash_name: &str) -> (r: String)
    ensures
        r@ == price_overview_prefix() + percent_encode(encode_utf8(market_hash_name@)),
        r@ == "https://steamcommunity.com/market/priceoverview/?currency=1&appid=730&market_hash_name="@
            + percent_encode(encode_utf8(market_hash_name@)),
{
    let mut url = "https://steamcommunity.com/market/priceoverview/?currency=1&appid=730&market_hash_name=".to_owned();
    let encoded = url_encode(market_hash_name);
    url.append(encoded.as_str());
    url
}


/// Price fields come only from replies that pass the reply check, and the
/// price texts hold no `$` and no `,`.
pub proof fn lemma_prices_from_accepted_replies(text: Seq<char>)
    requires
        reply_prices(text) is Ok,
    ensures
        reply_check(text) is None,
        serde_json_field(text, "success"@) == Some(JsonFieldView::Bool(true)),
        ({
            let (lowest, median, volume) = reply_prices(text)->Ok_0;
            &&& !lowest.contains('$') && !lowest.contains(',')
            &&& !median.contains('$') && !median.contains(',')
            &&& !volume.contains(',')
        }),
{
    let lowest0 = text_or_zero(serde_json_field(text, "lowest_price"@));
    let median0 = text_or_zero(serde_json_field(text, "median_price"@));
    let volume0 = text_or_zero(serde_json_field(text, "volume"@));
    lemma_without_char(lowest0, '$');
    lemma_without_char(without_char(lowest0, '$'), ',');
    lemma_without_char(median0, '$');
    lemma_without_char(without_char(median0, '$'), ',');
    lemma_without_char(volume0, ',');
}

} // verus!
