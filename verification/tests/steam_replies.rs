use skinvolt::steam::{
    check_steam_reply, price_overview_url, process_price_json, read_price_fields,
    validate_steam_response, SteamReplyError,
};

#[test]
fn html_replies_are_refused() {
    assert_eq!(
        validate_steam_response("  \n<html>rate limited</html>".to_string()),
        Err("Steam returned HTML instead of JSON (Cloudflare or rate limit)".to_string())
    );
    assert_eq!(check_steam_reply("\u{3000}\u{a0}<!DOCTYPE html>"), Err(SteamReplyError::Html));
}

#[test]
fn non_json_replies_are_refused() {
    assert_eq!(
        validate_steam_response("not json".to_string()),
        Err("Invalid JSON from Steam".to_string())
    );
    assert_eq!(check_steam_reply(""), Err(SteamReplyError::InvalidJson));
    assert_eq!(check_steam_reply("   "), Err(SteamReplyError::InvalidJson));
}

#[test]
fn replies_without_success_are_refused() {
    assert_eq!(
        validate_steam_response("{}".to_string()),
        Err("Missing 'success' field in Steam response".to_string())
    );
    assert_eq!(check_steam_reply("[1, 2]"), Err(SteamReplyError::MissingSuccess));
    assert_eq!(check_steam_reply("42"), Err(SteamReplyError::MissingSuccess));
}

#[test]
fn null_prices_are_refused() {
    assert_eq!(
        validate_steam_response(r#"{"success": true, "lowest_price": null}"#.to_string()),
        Err("Steam returned null price".to_string())
    );
}

#[test]
fn good_replies_pass_unchanged() {
    let raw = r#"{"success":true,"lowest_price":"$1.23","volume":"12"}"#.to_string();
    assert_eq!(validate_steam_response(raw.clone()), Ok(raw));
    let raw = r#" {"success":false}"#.to_string();
    assert_eq!(validate_steam_response(raw.clone()), Ok(raw));
}

#[test]
fn prices_lose_dollar_signs_and_commas() {
    let p = process_price_json(
        r#"{"success":true,"lowest_price":"$1,234.56","median_price":"$1,200.00","volume":"1,024"}"#,
    )
    .ok()
    .unwrap();
    assert_eq!(p.lowest, "1234.56");
    assert_eq!(p.median, "1200.00");
    assert_eq!(p.volume, "1024");
}

#[test]
fn missing_or_non_text_fields_read_as_zero() {
    let p = process_price_json(r#"{"success":true,"median_price":3.5,"volume":null}"#).ok().unwrap();
    assert_eq!(p.lowest, "0");
    assert_eq!(p.median, "0");
    assert_eq!(p.volume, "0");
}

#[test]
fn unsuccessful_replies_are_refused() {
    assert_eq!(
        process_price_json(r#"{"success":false,"lowest_price":"$1.00"}"#).err().unwrap(),
        "Steam reported success: false"
    );
    assert_eq!(
        read_price_fields(r#"{"success":"true"}"#).err().unwrap(),
        SteamReplyError::Unsuccessful
    );
    assert_eq!(read_price_fields(r#"{"success":1}"#).err().unwrap(), SteamReplyError::Unsuccessful);
}

#[test]
fn price_reading_reports_reply_refusals() {
    assert_eq!(process_price_json("<html>").err().unwrap(), "Steam returned HTML instead of JSON (Cloudflare or rate limit)");
    assert_eq!(read_price_fields("{").err().unwrap(), SteamReplyError::InvalidJson);
    assert_eq!(read_price_fields(r#"{"success":true,"lowest_price":null}"#).err().unwrap(), SteamReplyError::NullPrice);
}

#[test]
fn price_url_percent_encodes_the_name() {
    assert_eq!(
        price_overview_url("AK-47 | Redline (Field-Tested)"),
        "https://steamcommunity.com/market/priceoverview/?currency=1&appid=730&market_hash_name=AK-47%20%7C%20Redline%20%28Field-Tested%29"
    );
    assert_eq!(
        price_overview_url("\u{2605} Karambit"),
        "https://steamcommunity.com/market/priceoverview/?currency=1&appid=730&market_hash_name=%E2%98%85%20Karambit"
    );
    assert_eq!(
        price_overview_url("a_b.c~d"),
        "https://steamcommunity.com/market/priceoverview/?currency=1&appid=730&market_hash_name=a_b.c~d"
    );
}
