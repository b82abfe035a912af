use portfolio_tracker::dates::{current_year, str_le, year_end, year_start};
use portfolio_tracker::insights::{
    concentration_action_id, delta_windows, delta_windows_from, drift_action_id, find_at_or_before,
    is_stale, owned_refresh, owned_refresh_from, rebalance_headline, snapshot_age_days,
    snapshot_age_from, snapshot_notice, sparkline_start, window_from,
};
use portfolio_tracker::market::MarketMode;

fn strings(v: &[&str]) -> Vec<String> {
    v.iter().map(|s| s.to_string()).collect()
}

#[test]
fn dates_read_and_write() {
    // Day counts across a month end and a leap day are chrono's.
    assert_eq!(snapshot_age_days("2026-03-31", "2026-04-01"), 1);
    assert_eq!(snapshot_age_days("2024-02-28", "2024-03-01"), 2);
    assert_eq!(snapshot_age_days("2026-02-30", "2026-04-01"), 0);
    assert_eq!(snapshot_age_days("yesterday", "2026-04-01"), 0);
    assert!(str_le("2026-03-31", "2026-04-01"));
    assert!(str_le("2026-04-01", "2026-04-01"));
    assert!(!str_le("2026-04-02", "2026-04-01"));
    assert!(str_le("2026", "2026-01-01"));
}

#[test]
fn report_year() {
    assert_eq!(current_year("2025-11-30"), "2025");
    assert_eq!(current_year(""), "2026");
    assert_eq!(year_start("2025"), "2025-01-01");
    assert_eq!(year_end("2025"), "2025-12-31");
}

#[test]
fn baseline_is_latest_date_at_or_before() {
    let ds = strings(&["2026-01-01", "2026-02-01", "2026-03-01"]);
    assert_eq!(find_at_or_before(&ds, "2026-02-15"), Some(1));
    assert_eq!(find_at_or_before(&ds, "2026-03-01"), Some(2));
    assert_eq!(find_at_or_before(&ds, "2025-12-31"), None);
}

#[test]
fn delta_windows_of_a_series() {
    let ds = strings(&["2025-12-31", "2026-01-01", "2026-03-01", "2026-03-25", "2026-04-01"]);
    let ws = delta_windows(&ds);
    let got: Vec<(String, usize, i64)> =
        ws.into_iter().map(|w| (w.label, w.from_index, w.days)).collect();
    assert_eq!(
        got,
        vec![
            ("7d".to_string(), 3, 7),
            ("30d".to_string(), 2, 31),
            ("90d".to_string(), 1, 90),
            ("YTD".to_string(), 1, 90),
        ]
    );
}

#[test]
fn delta_windows_skip_what_the_series_cannot_cover() {
    let ds = strings(&["2026-03-20", "2026-04-01"]);
    let ws = delta_windows(&ds);
    let labels: Vec<String> = ws.into_iter().map(|w| w.label).collect();
    assert_eq!(labels, vec!["7d".to_string()]);
    assert!(delta_windows(&vec![]).is_empty());
    assert!(delta_windows(&strings(&["garbage"])).is_empty());
}

#[test]
fn sparkline_keeps_the_newest_thirty() {
    assert_eq!(sparkline_start(100), 70);
    assert_eq!(sparkline_start(30), 0);
    assert_eq!(sparkline_start(5), 0);
}

#[test]
fn snapshot_age_and_staleness() {
    assert_eq!(snapshot_age_days("2026-04-01", "2026-04-15"), 14);
    assert_eq!(snapshot_age_days("", "2026-04-15"), i64::MAX);
    assert_eq!(snapshot_age_days("bad", "2026-04-15"), 0);
    assert!(!is_stale(14));
    assert!(is_stale(15));
}

#[test]
fn snapshot_cards() {
    let n = snapshot_notice("", 0).unwrap();
    assert_eq!(n.id, "snapshot:none");
    assert_eq!(n.headline, "No snapshots yet");
    let n = snapshot_notice("2026-01-01", 20).unwrap();
    assert_eq!(n.id, "snapshot:stale");
    assert_eq!(n.headline, "Update holdings — last snapshot 20 days old");
    assert!(snapshot_notice("2026-01-01", 14).is_none());
}

#[test]
fn owned_value_refresh_cards() {
    let r = owned_refresh(7, "Car", Some("2025-01-01"), "2025-04-11").unwrap();
    assert_eq!(r.id, "stale_owned:7");
    assert_eq!(r.headline, "Update Car value — last set 100 days ago");
    assert_eq!(r.days, Some(100));
    let r = owned_refresh(3, "Flat", None, "2025-04-11").unwrap();
    assert_eq!(r.headline, "Update Flat value — last set never set");
    assert_eq!(r.days, None);
    assert!(owned_refresh(3, "Flat", Some("2025-03-12"), "2025-04-11").is_none());
}

#[test]
fn action_texts() {
    assert_eq!(
        rebalance_headline(true, 12000, "crypto", MarketMode::Bull),
        "Buy ~$12,000 of Crypto to hit BULL target"
    );
    assert_eq!(
        rebalance_headline(false, 1500, "stable_yielding", MarketMode::Crab),
        "Sell ~$1,500 of Stables to hit CRAB target"
    );
    assert_eq!(drift_action_id("cash"), "drift:cash");
    assert_eq!(concentration_action_id("BTC"), "concentration:BTC");
}

#[test]
fn windows_from_given_day_numbers() {
    let ds = strings(&["2026-01-01", "2026-02-01", "2026-03-01", "2026-04-01"]);
    let days = vec![Some(100), Some(131), Some(159), Some(190)];
    let targets = vec![
        Some("2026-03-25".to_string()),
        Some("2026-03-02".to_string()),
        Some("2026-01-01".to_string()),
        None,
    ];
    let got: Vec<(String, usize, i64)> = delta_windows_from(&ds, &days, 190, &targets)
        .into_iter()
        .map(|w| (w.label, w.from_index, w.days))
        .collect();
    assert_eq!(
        got,
        vec![("7d".to_string(), 2, 31), ("30d".to_string(), 2, 31), ("90d".to_string(), 0, 90)]
    );
    // A chosen date without a day number gives no window.
    let days = vec![None, Some(131), Some(159), Some(190)];
    assert_eq!(window_from(&ds, &days, 190, Some("2026-01-15")), None);
    assert_eq!(window_from(&ds, &days, 190, Some("2025-12-31")), None);
    assert_eq!(window_from(&ds, &days, 190, None), None);
    assert_eq!(window_from(&ds, &days, 190, Some("2026-02-01")), Some((1, 59)));
}

#[test]
fn age_from_given_day_numbers() {
    assert_eq!(snapshot_age_from("2026-04-01", Some(100), Some(115)), 15);
    assert_eq!(snapshot_age_from("", Some(100), Some(115)), i64::MAX);
    assert_eq!(snapshot_age_from("2026-04-01", None, Some(115)), 0);
    assert_eq!(snapshot_age_from("2026-04-01", Some(100), None), 0);
}

#[test]
fn refresh_from_given_age() {
    assert!(owned_refresh_from(4, "Car", Some(89)).is_none());
    let r = owned_refresh_from(4, "Car", Some(90)).unwrap();
    assert_eq!((r.id.as_str(), r.headline.as_str(), r.days), ("stale_owned:4", "Update Car value — last set 90 days ago", Some(90)));
    let r = owned_refresh_from(4, "Car", None).unwrap();
    assert_eq!(r.headline, "Update Car value — last set never set");
}
