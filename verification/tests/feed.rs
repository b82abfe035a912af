use portfolio_tracker::feed::{
    after_cycle, assets_with_price, coingecko_ids_param, coingecko_price_url, cycle_goes_on,
    cycle_steps, feed_args, fx_currencies, yahoo_chart_url, CycleStep, Failure,
    PricedAsset, DEFAULT_INTERVAL_SECS,
};

fn strings(v: &[&str]) -> Vec<String> {
    v.iter().map(|s| s.to_string()).collect()
}

#[test]
fn feed_runs_once_by_default() {
    let a = feed_args(&strings(&["nworth-feed"]));
    assert!(!a.looping);
    assert_eq!(a.interval_secs, 0);
    assert_eq!(after_cycle(&a), None);
    let a = feed_args(&strings(&["nworth-feed", "--once"]));
    assert!(!a.looping);
}

#[test]
fn feed_loops_with_its_interval() {
    let a = feed_args(&strings(&["nworth-feed", "--loop", "600"]));
    assert!(a.looping);
    assert_eq!(a.interval_secs, 600);
    assert_eq!(after_cycle(&a), Some(600));
    let a = feed_args(&strings(&["nworth-feed", "--loop"]));
    assert_eq!(a.interval_secs, DEFAULT_INTERVAL_SECS);
    assert_eq!(a.interval_secs, 3600);
    let a = feed_args(&strings(&["nworth-feed", "--loop", "soon"]));
    assert_eq!(a.interval_secs, 3600);
}

#[test]
fn cycle_order() {
    assert_eq!(
        cycle_steps(true, true),
        vec![CycleStep::FetchCrypto, CycleStep::FetchStocks, CycleStep::FetchFx, CycleStep::UpdatePositions, CycleStep::WriteSnapshots]
    );
    assert_eq!(
        cycle_steps(false, true),
        vec![CycleStep::FetchStocks, CycleStep::FetchFx, CycleStep::UpdatePositions, CycleStep::WriteSnapshots]
    );
    assert_eq!(cycle_steps(false, false), vec![CycleStep::FetchFx, CycleStep::UpdatePositions, CycleStep::WriteSnapshots]);
    assert!(cycle_goes_on(Failure::Fetch));
    assert!(!cycle_goes_on(Failure::Store));
}

#[test]
fn fetch_addresses() {
    assert_eq!(fx_currencies(), strings(&["EUR", "GBP", "PYG"]));
    assert_eq!(coingecko_ids_param(&strings(&["bitcoin", "solana"])), "bitcoin,solana");
    assert_eq!(coingecko_ids_param(&strings(&["bitcoin"])), "bitcoin");
    assert_eq!(coingecko_ids_param(&vec![]), "");
    assert_eq!(coingecko_price_url(), "https://api.coingecko.com/api/v3/simple/price");
    assert_eq!(
        yahoo_chart_url("VOO"),
        "https://query1.finance.yahoo.com/v8/finance/chart/VOO?range=1d&interval=1d"
    );
}

#[test]
fn only_assets_with_a_price_are_recorded() {
    let assets = vec![
        PricedAsset { asset_id: 1, coingecko_id: "bitcoin".to_string() },
        PricedAsset { asset_id: 2, coingecko_id: "unknown-coin".to_string() },
        PricedAsset { asset_id: 3, coingecko_id: "solana".to_string() },
    ];
    let kept = assets_with_price(assets, &strings(&["solana", "bitcoin", "ethereum"]));
    let ids: Vec<i64> = kept.iter().map(|a| a.asset_id).collect();
    assert_eq!(ids, vec![1, 3]);
}
