use portfolio_tracker::market::{
    classify, compact_badge, lookback_index, mode_coherence, mode_name, mode_upper,
    no_indicator_label, overall_market_mode, parse_mode, representative_asset,
    sentiment_alignment, signal_label, signal_of, status_for_days, status_name, Alignment,
    MarketMode, SentimentBadge, Side, Signal, SignalStatus,
};

fn badge(category: &str, signal: &str, status: &str) -> SentimentBadge {
    SentimentBadge {
        category: category.to_string(),
        signal: signal.to_string(),
        status: status.to_string(),
    }
}

#[test]
fn status_follows_the_history_length() {
    assert_eq!(status_for_days(0), SignalStatus::InsufficientData);
    assert_eq!(status_for_days(49), SignalStatus::InsufficientData);
    assert_eq!(status_for_days(50), SignalStatus::Partial);
    assert_eq!(status_for_days(199), SignalStatus::Partial);
    assert_eq!(status_for_days(200), SignalStatus::Active);
    assert_eq!(status_name(SignalStatus::InsufficientData), "insufficient_data");
}

#[test]
fn status_never_drops_with_more_history() {
    let rank = |s: SignalStatus| match s {
        SignalStatus::InsufficientData => 0,
        SignalStatus::Partial => 1,
        SignalStatus::Active => 2,
    };
    for n in 0..260u64 {
        assert!(rank(status_for_days(n)) <= rank(status_for_days(n + 1)));
    }
}

#[test]
fn golden_and_death_cross() {
    assert_eq!(classify(Side::Above, Side::Above), Signal::Bull);
    assert_eq!(classify(Side::Below, Side::Below), Signal::Bear);
    assert_eq!(classify(Side::Above, Side::Below), Signal::Crab);
    assert_eq!(classify(Side::Neither, Side::Above), Signal::Crab);
}

#[test]
fn compact_badges() {
    let b = compact_badge("stocks", 250, Side::Above, Side::Above);
    assert_eq!((b.category.as_str(), b.signal.as_str(), b.status.as_str()), ("stocks", "bull", "active"));
    let b = compact_badge("crypto", 120, Side::Below, Side::Below);
    assert_eq!((b.signal.as_str(), b.status.as_str()), ("bear", "partial"));
    let b = compact_badge("crypto", 10, Side::Above, Side::Above);
    assert_eq!((b.signal.as_str(), b.status.as_str()), ("pending", "insufficient_data"));
}

#[test]
fn majority_vote() {
    let bs = vec![badge("stocks", "bull", "active"), badge("crypto", "bull", "partial")];
    assert_eq!(overall_market_mode(&bs), MarketMode::Bull);
    let bs = vec![badge("stocks", "bear", "active"), badge("crypto", "bear", "active")];
    assert_eq!(overall_market_mode(&bs), MarketMode::Bear);
    let bs = vec![badge("stocks", "bull", "active"), badge("crypto", "bear", "active")];
    assert_eq!(overall_market_mode(&bs), MarketMode::Crab);
    // A badge without enough history does not vote.
    let bs = vec![badge("stocks", "bear", "active"), badge("crypto", "bull", "insufficient_data")];
    assert_eq!(overall_market_mode(&bs), MarketMode::Bear);
}

#[test]
fn no_votes_means_crab() {
    assert_eq!(overall_market_mode(&vec![]), MarketMode::Crab);
    let bs = vec![badge("stocks", "pending", "insufficient_data"), badge("crypto", "pending", "insufficient_data")];
    assert_eq!(overall_market_mode(&bs), MarketMode::Crab);
}

#[test]
fn mode_names() {
    assert_eq!(mode_name(MarketMode::Bull), "bull");
    assert_eq!(mode_upper(MarketMode::Bear), "BEAR");
    assert_eq!(parse_mode("bull"), MarketMode::Bull);
    assert_eq!(parse_mode("bear"), MarketMode::Bear);
    assert_eq!(parse_mode("crab"), MarketMode::Crab);
    assert_eq!(parse_mode("sideways"), MarketMode::Crab);
}

#[test]
fn coherence_of_configured_mode() {
    let bs = vec![badge("stocks", "bull", "active"), badge("crypto", "pending", "insufficient_data")];
    assert_eq!(signal_of(&bs, "stocks"), "bull");
    assert_eq!(signal_of(&bs, "cash"), "pending");
    let c = mode_coherence(MarketMode::Bull, &bs);
    assert_eq!((c.configured.as_str(), c.stocks.as_str(), c.crypto.as_str()), ("bull", "bull", "pending"));
    assert!(c.aligned);
    let c = mode_coherence(MarketMode::Bear, &bs);
    assert!(!c.aligned);
}

#[test]
fn trade_alignment() {
    assert_eq!(sentiment_alignment("crypto", false, MarketMode::Bull), Alignment::Aligned);
    assert_eq!(sentiment_alignment("cash", true, MarketMode::Bull), Alignment::Aligned);
    assert_eq!(sentiment_alignment("crypto", true, MarketMode::Bull), Alignment::Neutral);
    assert_eq!(sentiment_alignment("stable_yielding", false, MarketMode::Bear), Alignment::Aligned);
    assert_eq!(sentiment_alignment("stocks", true, MarketMode::Bear), Alignment::Aligned);
    assert_eq!(sentiment_alignment("cash", true, MarketMode::Bear), Alignment::Opposed);
    assert_eq!(sentiment_alignment("stocks", false, MarketMode::Crab), Alignment::Neutral);
}

#[test]
fn opposite_trades_are_never_both_aligned() {
    for cat in ["stocks", "crypto", "cash", "stable_yielding", "car"] {
        for m in [MarketMode::Bull, MarketMode::Crab, MarketMode::Bear] {
            let buy = sentiment_alignment(cat, false, m);
            let sell = sentiment_alignment(cat, true, m);
            assert!(!(buy == Alignment::Aligned && sell == Alignment::Aligned));
        }
    }
}

#[test]
fn representatives_and_labels() {
    assert_eq!(representative_asset("stocks"), Some(("VOO", "stock")));
    assert_eq!(representative_asset("crypto"), Some(("BTC", "crypto")));
    assert_eq!(representative_asset("cash"), None);
    assert_eq!(lookback_index(10, 3), 6);
    assert_eq!(lookback_index(3, 7), 0);
    assert_eq!(signal_label("VOO", 120, Signal::Pending), "Collecting data — 120/200 days of VOO prices");
    assert_eq!(signal_label("BTC", 0, Signal::Bull), "Bull — BTC above 200MA, Golden Cross");
    assert_eq!(signal_label("BTC", 0, Signal::Bear), "Bear — BTC below 200MA, Death Cross");
    assert_eq!(signal_label("VOO", 0, Signal::Crab), "Crab — VOO mixed signals (50/200 MA)");
    assert_eq!(no_indicator_label("cash"), "cash — no market indicator (stable/fiat)");
}
