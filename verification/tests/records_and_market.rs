use skinvolt::analytics::{latest, momentum_pair, recent_window, rsi_changes};
use skinvolt::market::{mover_ranking, movers_since, prune_cutoff, top_movers_query, MoverRanking};
use skinvolt::model::{AddItemArgs, SkinVoltError};
use skinvolt::text::{chars_of, decimal_string, first_non_white_space, is_blank_text, remove_char, text_eq};

#[test]
fn blank_item_names_are_refused() {
    for name in ["", "   ", "\t\n", "\u{2003}"] {
        let args = AddItemArgs { name: name.to_string(), quantity: 1 };
        assert_eq!(args.validate(), Err("Item name cannot be empty".to_string()));
    }
    let args = AddItemArgs { name: " AK-47 ".to_string(), quantity: 2 };
    assert_eq!(args.validate(), Ok(()));
}

#[test]
fn error_messages_name_their_kind() {
    assert_eq!(SkinVoltError::Database("locked".to_string()).message(), "Database error: locked");
    assert_eq!(SkinVoltError::Steam("429".to_string()).message(), "Steam API error: 429");
    assert_eq!(SkinVoltError::Unknown(String::new()).message(), "Unknown error: ");
}

#[test]
fn mover_ranking_follows_the_choice() {
    assert_eq!(mover_ranking(Some("volatility")), MoverRanking::Volatility);
    assert_eq!(mover_ranking(Some("price")), MoverRanking::Price);
    assert_eq!(mover_ranking(Some("Price")), MoverRanking::Change);
    assert_eq!(mover_ranking(None), MoverRanking::Change);
}

#[test]
fn movers_query_orders_as_chosen() {
    let q = top_movers_query(MoverRanking::Volatility);
    assert!(q.starts_with("SELECT \n            curr.market_hash_name, "));
    assert!(q.ends_with("ORDER BY volatility_swing DESC\n         LIMIT ?2"));
    assert!(top_movers_query(MoverRanking::Price).ends_with("ORDER BY curr.price DESC\n         LIMIT ?2"));
    assert!(top_movers_query(MoverRanking::Change)
        .ends_with("ORDER BY ABS((curr.price - old_price) / old_price) DESC\n         LIMIT ?2"));
}

#[test]
fn history_windows() {
    assert_eq!(movers_since(1_700_000_000), 1_699_913_600);
    assert_eq!(prune_cutoff(1_700_000_000), 1_697_408_000);
}

#[test]
fn latest_point_and_recent_window() {
    let h = [5.0f64, 4.0, 3.0, 2.0, 1.0, 0.5, 0.25, 0.125, 9.0];
    assert_eq!(latest(&h), Some(5.0));
    assert_eq!(latest::<f64>(&[]), None);
    assert_eq!(recent_window(&h, 7), vec![5.0, 4.0, 3.0, 2.0, 1.0, 0.5, 0.25]);
    assert_eq!(recent_window(&h[..3], 7), vec![5.0, 4.0, 3.0]);
}

#[test]
fn momentum_compares_last_with_period_before() {
    let p = [1.0f64, 2.0, 3.0, 4.0];
    assert_eq!(momentum_pair(&p, 2), Some((4.0, 2.0)));
    assert_eq!(momentum_pair(&p, 3), Some((4.0, 1.0)));
    assert_eq!(momentum_pair(&p, 4), None);
}

#[test]
fn rsi_reads_the_last_changes() {
    let p = [10, 11, 13, 12];
    assert_eq!(rsi_changes(&p, 2), Some(vec![(12, 13), (13, 11)]));
    assert_eq!(rsi_changes(&p, 3), Some(vec![(12, 13), (13, 11), (11, 10)]));
    assert_eq!(rsi_changes(&p, 4), None);
    assert_eq!(rsi_changes(&p, 0), Some(vec![]));
}

#[test]
fn text_helpers() {
    assert_eq!(decimal_string(0), "0");
    assert_eq!(decimal_string(u64::MAX), "18446744073709551615");
    assert_eq!(remove_char("$1,2$3", '$'), "1,23");
    assert!(is_blank_text(" \u{85}\r"));
    assert!(!is_blank_text(" x "));
    assert_eq!(first_non_white_space("\t  <a"), Some('<'));
    assert_eq!(first_non_white_space(" \n"), None);
    assert!(text_eq("pro", "pro"));
    assert!(!text_eq("pro", "Pro"));
    assert_eq!(chars_of("h\u{e9}"), vec!['h', '\u{e9}']);
}
