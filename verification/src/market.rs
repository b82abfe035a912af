//! Market regime: the moving-average signal of each representative asset,
//! the majority vote that picks the active mode (bull / crab / bear), and how
//! well a planned trade fits that mode.

use vstd::prelude::*;
use crate::decimal::{decimal, u64_to_string};
use crate::taxonomy::{is_growth, is_growth_spec, is_safety, is_safety_spec};
use crate::text::{owned, str_eq};

verus! {

/// Fewest daily prices before any signal is computed.
pub const MIN_SIGNAL_DAYS: u64 = 50;

/// Daily prices for the full 200-day average.
pub const FULL_SIGNAL_DAYS: u64 = 200;

/// The market mode that allocation targets are keyed by.
#[derive(PartialEq, Eq, Structural, Clone, Copy, Debug)]
pub enum MarketMode {
    Bull,
    Crab,
    Bear,
}

/// Where one number stands against another; `Neither` covers equality and
/// values that do not compare.
#[derive(PartialEq, Eq, Structural, Clone, Copy, Debug)]
pub enum Side {
    Above,
    Below,
    Neither,
}

/// Moving-average signal of one representative asset.
#[derive(PartialEq, Eq, Structural, Clone, Copy, Debug)]
pub enum Signal {
    Bull,
    Bear,
    Crab,
    Pending,
}

/// How much price history backs a signal.
#[derive(PartialEq, Eq, Structural, Clone, Copy, Debug)]
pub enum SignalStatus {
    InsufficientData,
    Partial,
    Active,
}

/// One entry of the compact sentiment strip.
pub struct SentimentBadge {
    pub category: String,
    pub signal: String,
    pub status: String,
}

/// Configured mode against the representative signals.
pub struct ModeCoherence {
    pub configured: String,
    pub stocks: String,
    pub crypto: String,
    pub aligned: bool,
}

/// How well a trade fits the active mode; the action ranking weighs it
/// 1 (`Aligned`), 0.5 (`Neutral`) or 0 (`Opposed`).
#[derive(PartialEq, Eq, Structural, Clone, Copy, Debug)]
pub enum Alignment {
    Aligned,
    Neutral,
    Opposed,
}

pub open spec fn mode_name_spec(m: MarketMode) -> Seq<char> {
    match m {
        MarketMode::Bull => "bull"@,
        MarketMode::Crab => "crab"@,
        MarketMode::Bear => "bear"@,
    }
}

pub fn mode_name(m: MarketMode) -> (r: String)
    ensures
        r@ == mode_name_spec(m),
{
    match m {
        MarketMode::Bull => owned("bull"),
        MarketMode::Crab => owned("crab"),
        MarketMode::Bear => owned("bear"),
    }
}

/// The mode in capitals, as action headlines show it.
pub open spec fn mode_upper_spec(m: MarketMode) -> Seq<char> {
    match m {
        MarketMode::Bull => "BULL"@,
        MarketMode::Crab => "CRAB"@,
        MarketMode::Bear => "BEAR"@,
    }
}

pub fn mode_upper(m: MarketMode) -> (r: String)
    ensures
        r@ == mode_upper_spec(m),
{
    match m {
        MarketMode::Bull => owned("BULL"),
        MarketMode::Crab => owned("CRAB"),
        MarketMode::Bear => owned("BEAR"),
    }
}

/// Reads a mode name; anything that is not `bull` or `bear` is `crab`, the
/// mode a target gets when none is given.
pub open spec fn parse_mode_spec(s: Seq<char>) -> MarketMode {
    if s == "bull"@ {
        MarketMode::Bull
    } else if s == "bear"@ {
        MarketMode::Bear
    } else {
        MarketMode::Crab
    }
}

pub fn parse_mode(s: &str) -> (r: MarketMode)
    ensures
        r == parse_mode_spec(s@),
{
    if str_eq(s, "bull") {
        MarketMode::Bull
    } else if str_eq(s, "bear") {
        MarketMode::Bear
    } else {
        MarketMode::Crab
    }
}

pub open spec fn signal_name_spec(s: Signal) -> Seq<char> {
    match s {
        Signal::Bull => "bull"@,
        Signal::Bear => "bear"@,
        Signal::Crab => "crab"@,
        Signal::Pending => "pending"@,
    }
}

pub fn signal_name(s: Signal) -> (r: String)
    ensures
        r@ == signal_name_spec(s),
{
    match s {
        Signal::Bull => owned("bull"),
        Signal::Bear => owned("bear"),
        Signal::Crab => owned("crab"),
        Signal::Pending => owned("pending"),
    }
}

pub open spec fn status_name_spec(s: SignalStatus) -> Seq<char> {
    match s {
        SignalStatus::InsufficientData => "insufficient_data"@,
        SignalStatus::Partial => "partial"@,
        SignalStatus::Active => "active"@,
    }
}

pub fn status_name(s: SignalStatus) -> (r: String)
    ensures
        r@ == status_name_spec(s),
{
    match s {
        SignalStatus::InsufficientData => owned("insufficient_data"),
        SignalStatus::Partial => owned("partial"),
        SignalStatus::Active => owned("active"),
    }
}

/// Fewer than 50 daily prices: no signal; 50 to 199: a partial signal whose
/// long average runs over all the prices there are; 200 or more: active.
pub open spec fn status_for_days_spec(n: nat) -> SignalStatus {
    if n < MIN_SIGNAL_DAYS {
        SignalStatus::InsufficientData
    } else if n < FULL_SIGNAL_DAYS {
        SignalStatus::Partial
    } else {
        SignalStatus::Active
    }
}

pub fn status_for_days(n: u64) -> (r: SignalStatus)
    ensures
        r == status_for_days_spec(n as nat),
{
    if n < MIN_SIGNAL_DAYS {
        SignalStatus::InsufficientData
    } else if n < FULL_SIGNAL_DAYS {
        SignalStatus::Partial
    } else {
        SignalStatus::Active
    }
}

/// Golden cross / death cross: bull when the latest price and the 50-day
/// average are both above the long average, bear when both are below,
/// crab otherwise.
pub open spec fn classify_spec(price_vs_long: Side, short_vs_long: Side) -> Signal {
    if price_vs_long == Side::Above && short_vs_long == Side::Above {
        Signal::Bull
    } else if price_vs_long == Side::Below && short_vs_long == Side::Below {
        Signal::Bear
    } else {
        Signal::Crab
    }
}

pub fn classify(price_vs_long: Side, short_vs_long: Side) -> (r: Signal)
    ensures
        r == classify_spec(price_vs_long, short_vs_long),
{
    if price_vs_long == Side::Above && short_vs_long == Side::Above {
        Signal::Bull
    } else if price_vs_long == Side::Below && short_vs_long == Side::Below {
        Signal::Bear
    } else {
        Signal::Crab
    }
}

/// The signal of an asset with `n` daily prices; the two comparisons are
/// only read when there are enough prices.
pub open spec fn signal_for_spec(n: nat, price_vs_long: Side, short_vs_long: Side) -> Signal {
    if n < MIN_SIGNAL_DAYS {
        Signal::Pending
    } else {
        classify_spec(price_vs_long, short_vs_long)
    }
}

/// The compact badge of one representative asset.
pub fn compact_badge(category: &str, n: u64, price_vs_long: Side, short_vs_long: Side) -> (r:
    SentimentBadge)
    ensures
        r.category@ == category@,
        r.signal@ == signal_name_spec(signal_for_spec(n as nat, price_vs_long, short_vs_long)),
        r.status@ == status_name_spec(status_for_days_spec(n as nat)),
{
    let signal = if n < MIN_SIGNAL_DAYS {
        Signal::Pending
    } else {
        classify(price_vs_long, short_vs_long)
    };
    SentimentBadge {
        category: owned(category),
        signal: signal_name(signal),
        status: status_name(status_for_days(n)),
    }
}

/// Whether a badge counts in the vote: its status is `active` or `partial`.
pub open spec fn badge_votes(b: SentimentBadge) -> bool {
    b.status@ == "active"@ || b.status@ == "partial"@
}

pub open spec fn count_votes(bs: Seq<SentimentBadge>) -> nat
    decreases bs.len(),
{
    if bs.len() == 0 {
        0
    } else {
        count_votes(bs.drop_last()) + if badge_votes(bs.last()) {
            1nat
        } else {
            0nat
        }
    }
}

/// Number of voting badges whose signal is `sig`.
pub open spec fn count_votes_for(bs: Seq<SentimentBadge>, sig: Seq<char>) -> nat
    decreases bs.len(),
{
    if bs.len() == 0 {
        0
    } else {
        count_votes_for(bs.drop_last(), sig) + if badge_votes(bs.last()) && bs.last().signal@
            == sig {
            1nat
        } else {
            0nat
        }
    }
}

/// Majority vote of the voting badges: bull when more than half say bull,
/// bear when more than half say bear, crab otherwise, and crab when no badge
/// votes (too little price history anywhere).
pub open spec fn overall_mode_spec(bs: Seq<SentimentBadge>) -> MarketMode {
    let n = count_votes(bs);
    if n == 0 {
        MarketMode::Crab
    } else if 2 * count_votes_for(bs, "bull"@) > n {
        MarketMode::Bull
    } else if 2 * count_votes_for(bs, "bear"@) > n {
        MarketMode::Bear
    } else {
        MarketMode::Crab
    }
}

proof fn lemma_counts_bounded(bs: Seq<SentimentBadge>, sig: Seq<char>)
    ensures
        count_votes_for(bs, sig) <= count_votes(bs),
        count_votes(bs) <= bs.len(),
    decreases bs.len(),
{
    if bs.len() > 0 {
        lemma_counts_bounded(bs.drop_last(), sig);
    }
}

pub fn overall_market_mode(badges: &Vec<SentimentBadge>) -> (r: MarketMode)
    ensures
        r == overall_mode_spec(badges@),
{
    let n = badges.len();
    let mut valid: usize = 0;
    let mut bull: usize = 0;
    let mut bear: usize = 0;
    let mut i: usize = 0;
    while i < n
        invariant
            n == badges@.len(),
            i <= n,
            valid == count_votes(badges@.take(i as int)),
            bull == count_votes_for(badges@.take(i as int), "bull"@),
            bear == count_votes_for(badges@.take(i as int), "bear"@),
            valid <= i,
            bull <= valid,
            bear <= valid,
        decreases n - i,
    {
        let b = &badges[i];
        let ghost t = badges@.take(i + 1);
        proof {
            assert(t.drop_last() =~= badges@.take(i as int));
            assert(t.last() == *b);
            lemma_counts_bounded(badges@.take(i as int), "bull"@);
        }
        let votes = str_eq(b.status.as_str(), "active") || str_eq(b.status.as_str(), "partial");
        if votes {
            valid = valid + 1;
            if str_eq(b.signal.as_str(), "bull") {
                bull = bull + 1;
            }
            if str_eq(b.signal.as_str(), "bear") {
                bear = bear + 1;
            }
        }
        i = i + 1;
    }
    proof {
        assert(badges@.take(n as int) =~= badges@);
    }
    if valid == 0 {
        MarketMode::Crab
    } else if bull > valid - bull {
        MarketMode::Bull
    } else if bear > valid - bear {
        MarketMode::Bear
    } else {
        MarketMode::Crab
    }
}

/// Signal of the first badge of `category`, or `pending` when there is none.
pub open spec fn signal_of_spec(bs: Seq<SentimentBadge>, category: Seq<char>) -> Seq<char>
    decreases bs.len(),
{
    if bs.len() == 0 {
        "pending"@
    } else if bs[0].category@ == category {
        bs[0].signal@
    } else {
        signal_of_spec(bs.drop_first(), category)
    }
}

pub fn signal_of(badges: &Vec<SentimentBadge>, category: &str) -> (r: String)
    ensures
        r@ == signal_of_spec(badges@, category@),
{
    let n = badges.len();
    let mut i: usize = 0;
    assert(badges@.skip(0) =~= badges@);
    while i < n
        invariant
            n == badges@.len(),
            i <= n,
            signal_of_spec(badges@, category@) == signal_of_spec(badges@.skip(i as int), category@),
        decreases n - i,
    {
        proof {
            assert(badges@.skip(i as int)[0] == badges@[i as int]);
            assert(badges@.skip(i as int).drop_first() =~= badges@.skip(i + 1));
        }
        if str_eq(badges[i].category.as_str(), category) {
            return owned(badges[i].signal.as_str());
        }
        i = i + 1;
    }
    owned("pending")
}

/// A signal agrees with the configured mode when it names the same mode or
/// is still pending.
pub open spec fn agrees_spec(signal: Seq<char>, m: MarketMode) -> bool {
    signal == mode_name_spec(m) || signal == "pending"@
}

/// The configured mode next to the stocks and crypto signals, and whether
/// both agree with it.
pub fn mode_coherence(m: MarketMode, badges: &Vec<SentimentBadge>) -> (r: ModeCoherence)
    ensures
        r.configured@ == mode_name_spec(m),
        r.stocks@ == signal_of_spec(badges@, "stocks"@),
        r.crypto@ == signal_of_spec(badges@, "crypto"@),
        r.aligned == (agrees_spec(r.stocks@, m) && agrees_spec(r.crypto@, m)),
{
    let stocks = signal_of(badges, "stocks");
    let crypto = signal_of(badges, "crypto");
    let configured = mode_name(m);
    let aligned = (str_eq(stocks.as_str(), configured.as_str()) || str_eq(
        stocks.as_str(),
        "pending",
    )) && (str_eq(crypto.as_str(), configured.as_str()) || str_eq(crypto.as_str(), "pending"));
    ModeCoherence { configured, stocks, crypto, aligned }
}

/// How a trade in `category` fits mode `m`; `selling` when the adjustment
/// is negative. In a bull market buying growth or selling safety is
/// aligned; in a bear market buying safety or selling growth is aligned and
/// selling safety is opposed; everything else, and every trade in a crab
/// market, is neutral.
pub open spec fn alignment_spec(category: Seq<char>, selling: bool, m: MarketMode) -> Alignment {
    match m {
        MarketMode::Bull => if (is_growth_spec(category) && !selling) || (is_safety_spec(category)
            && selling) {
            Alignment::Aligned
        } else {
            Alignment::Neutral
        },
        MarketMode::Bear => if (is_safety_spec(category) && !selling) || (is_growth_spec(category)
            && selling) {
            Alignment::Aligned
        } else if is_safety_spec(category) && selling {
            Alignment::Opposed
        } else {
            Alignment::Neutral
        },
        MarketMode::Crab => Alignment::Neutral,
    }
}

pub fn sentiment_alignment(category: &str, selling: bool, m: MarketMode) -> (r: Alignment)
    ensures
        r == alignment_spec(category@, selling, m),
{
    let growth = is_growth(category);
    let safety = is_safety(category);
    match m {
        MarketMode::Bull => {
            if growth && !selling {
                Alignment::Aligned
            } else if safety && selling {
                Alignment::Aligned
            } else {
                Alignment::Neutral
            }
        },
        MarketMode::Bear => {
            if safety && !selling {
                Alignment::Aligned
            } else if growth && selling {
                Alignment::Aligned
            } else if safety && selling {
                Alignment::Opposed
            } else {
                Alignment::Neutral
            }
        },
        MarketMode::Crab => Alignment::Neutral,
    }
}

/// The asset whose prices stand for a category, with its type code: VOO
/// for stocks, BTC for crypto; stables and cash have none.
pub open spec fn representative_spec(category: Seq<char>) -> Option<(Seq<char>, Seq<char>)> {
    if category == "stocks"@ {
        Some(("VOO"@, "stock"@))
    } else if category == "crypto"@ {
        Some(("BTC"@, "crypto"@))
    } else {
        None
    }
}

pub fn representative_asset(category: &str) -> (r: Option<(&'static str, &'static str)>)
    ensures
        match r {
            Some(p) => representative_spec(category@) == Some((p.0@, p.1@)),
            None => representative_spec(category@) is None,
        },
{
    if str_eq(category, "stocks") {
        Some(("VOO", "stock"))
    } else if str_eq(category, "crypto") {
        Some(("BTC", "crypto"))
    } else {
        None
    }
}

/// Index of the value `k` points back from the newest of `n` points, or
/// the oldest point when the series is shorter than that.
pub open spec fn lookback_spec(n: nat, k: nat) -> nat {
    if n > k {
        (n - 1 - k) as nat
    } else {
        0
    }
}

pub fn lookback_index(n: usize, k: usize) -> (r: usize)
    requires
        n > 0,
    ensures
        r == lookback_spec(n as nat, k as nat),
        r < n,
{
    if n > k {
        n - 1 - k
    } else {
        0
    }
}

/// The label under a market signal.
pub open spec fn signal_label_spec(symbol: Seq<char>, n: nat, sig: Signal) -> Seq<char> {
    match sig {
        Signal::Pending => "Collecting data — "@ + decimal(n) + "/200 days of "@ + symbol
            + " prices"@,
        Signal::Bull => "Bull — "@ + symbol + " above 200MA, Golden Cross"@,
        Signal::Bear => "Bear — "@ + symbol + " below 200MA, Death Cross"@,
        Signal::Crab => "Crab — "@ + symbol + " mixed signals (50/200 MA)"@,
    }
}

pub fn signal_label(symbol: &str, n: u64, sig: Signal) -> (r: String)
    ensures
        r@ == signal_label_spec(symbol@, n as nat, sig),
{
    match sig {
        Signal::Pending => {
            let mut r = owned("Collecting data — ");
            let d = u64_to_string(n);
            r.append(d.as_str());
            r.append("/200 days of ");
            r.append(symbol);
            r.append(" prices");
            r
        },
        Signal::Bull => {
            let mut r = owned("Bull — ");
            r.append(symbol);
            r.append(" above 200MA, Golden Cross");
            r
        },
        Signal::Bear => {
            let mut r = owned("Bear — ");
            r.append(symbol);
            r.append(" below 200MA, Death Cross");
            r
        },
        Signal::Crab => {
            let mut r = owned("Crab — ");
            r.append(symbol);
            r.append(" mixed signals (50/200 MA)");
            r
        },
    }
}

/// The label of a category that has no market indicator.
pub fn no_indicator_label(category: &str) -> (r: String)
    ensures
        r@ == category@ + " — no market indicator (stable/fiat)"@,
{
    let mut r = owned(category);
    r.append(" — no market indicator (stable/fiat)");
    r
}


/// Rank of a status by how much history backs it.
pub open spec fn status_rank(s: SignalStatus) -> int {
    match s {
        SignalStatus::InsufficientData => 0,
        SignalStatus::Partial => 1,
        SignalStatus::Active => 2,
    }
}

/// More price history never lowers a signal's status.
pub proof fn law_status_grows_with_history(n: nat, m: nat)
    requires
        n <= m,
    ensures
        status_rank(status_for_days_spec(n)) <= status_rank(status_for_days_spec(m)),
{
}

proof fn lemma_unanimous_counts(bs: Seq<SentimentBadge>, sig: Seq<char>)
    requires
        forall|k: int| 0 <= k < bs.len() && badge_votes(#[trigger] bs[k]) ==> bs[k].signal@ == sig,
    ensures
        count_votes_for(bs, sig) == count_votes(bs),
    decreases bs.len(),
{
    if bs.len() > 0 {
        let init = bs.drop_last();
        assert forall|k: int| 0 <= k < init.len() && badge_votes(#[trigger] init[k]) implies init[k].signal@ == sig by {
            assert(init[k] == bs[k]);
        }
        lemma_unanimous_counts(init, sig);
    }
}

proof fn lemma_no_votes_for(bs: Seq<SentimentBadge>, sig: Seq<char>, other: Seq<char>)
    requires
        sig != other,
        forall|k: int| 0 <= k < bs.len() && badge_votes(#[trigger] bs[k]) ==> bs[k].signal@ == other,
    ensures
        count_votes_for(bs, sig) == 0,
    decreases bs.len(),
{
    if bs.len() > 0 {
        let init = bs.drop_last();
        assert forall|k: int| 0 <= k < init.len() && badge_votes(#[trigger] init[k]) implies init[k].signal@ == other by {
            assert(init[k] == bs[k]);
        }
        lemma_no_votes_for(init, sig, other);
    }
}

proof fn lemma_some_vote(bs: Seq<SentimentBadge>, j: int)
    requires
        0 <= j < bs.len(),
        badge_votes(bs[j]),
    ensures
        count_votes(bs) > 0,
    decreases bs.len(),
{
    if j < bs.len() - 1 {
        let init = bs.drop_last();
        assert(init[j] == bs[j]);
        lemma_some_vote(init, j);
    }
}

proof fn lemma_no_votes(bs: Seq<SentimentBadge>)
    requires
        forall|k: int| 0 <= k < bs.len() ==> !badge_votes(#[trigger] bs[k]),
    ensures
        count_votes(bs) == 0,
    decreases bs.len(),
{
    if bs.len() > 0 {
        let init = bs.drop_last();
        assert forall|k: int| 0 <= k < init.len() implies !badge_votes(#[trigger] init[k]) by {
            assert(init[k] == bs[k]);
        }
        lemma_no_votes(init);
    }
}

/// When at least one badge votes and every voting badge names the same
/// trending mode (bull or bear), that is the overall mode.
pub proof fn law_unanimous_vote_decides(bs: Seq<SentimentBadge>, m: MarketMode, j: int)
    requires
        m != MarketMode::Crab,
        0 <= j < bs.len(),
        badge_votes(bs[j]),
        forall|k: int|
            0 <= k < bs.len() && badge_votes(#[trigger] bs[k]) ==> bs[k].signal@ == mode_name_spec(m),
    ensures
        overall_mode_spec(bs) == m,
{
    reveal_strlit("bull");
    reveal_strlit("bear");
    assert("bull"@[1] != "bear"@[1]);
    lemma_some_vote(bs, j);
    lemma_unanimous_counts(bs, mode_name_spec(m));
    if m == MarketMode::Bear {
        lemma_no_votes_for(bs, "bull"@, "bear"@);
    }
}

/// With too little history for any badge to vote, the mode is crab.
pub proof fn law_no_votes_is_crab(bs: Seq<SentimentBadge>)
    requires
        forall|k: int| 0 <= k < bs.len() ==> !badge_votes(#[trigger] bs[k]),
    ensures
        overall_mode_spec(bs) == MarketMode::Crab,
{
    lemma_no_votes(bs);
}

/// A trade and its opposite (the same category bought or sold) are never
/// both aligned with the mode.
pub proof fn law_opposite_trades_not_both_aligned(category: Seq<char>, selling: bool, m: MarketMode)
    ensures
        !(alignment_spec(category, selling, m) == Alignment::Aligned && alignment_spec(
            category,
            !selling,
            m,
        ) == Alignment::Aligned),
{
    reveal_strlit("stocks");
    reveal_strlit("crypto");
    reveal_strlit("cash");
    reveal_strlit("stable_yielding");
    assert("stocks"@.len() == 6 && "crypto"@.len() == 6);
    assert("cash"@.len() == 4 && "stable_yielding"@.len() == 15);
    assert(!(is_growth_spec(category) && is_safety_spec(category)));
}


proof fn lemma_bull_bear_disjoint(bs: Seq<SentimentBadge>)
    ensures
        count_votes_for(bs, "bull"@) + count_votes_for(bs, "bear"@) <= count_votes(bs),
    decreases bs.len(),
{
    reveal_strlit("bull");
    reveal_strlit("bear");
    assert("bull"@[1] != "bear"@[1]);
    if bs.len() > 0 {
        lemma_bull_bear_disjoint(bs.drop_last());
    }
}

/// The mode is a strict-majority vote of the badges that vote: bull exactly
/// when more than half of them say bull, bear exactly when more than half
/// say bear, crab otherwise (and so with no votes, or with a mere
/// plurality).
pub proof fn law_mode_is_strict_majority(bs: Seq<SentimentBadge>)
    ensures
        (overall_mode_spec(bs) == MarketMode::Bull) == (2 * count_votes_for(bs, "bull"@) > count_votes(
            bs,
        )),
        (overall_mode_spec(bs) == MarketMode::Bear) == (2 * count_votes_for(bs, "bear"@) > count_votes(
            bs,
        )),
        (overall_mode_spec(bs) == MarketMode::Crab) == (2 * count_votes_for(bs, "bull"@)
            <= count_votes(bs) && 2 * count_votes_for(bs, "bear"@) <= count_votes(bs)),
{
    lemma_bull_bear_disjoint(bs);
    lemma_counts_bounded(bs, "bull"@);
}

/// Golden cross and death cross: the signal is bull exactly when the
/// latest price and the short average are both above the long average,
/// bear exactly when both are below, and crab whenever the two comparisons
/// do not both point the same way.
pub proof fn law_cross_signals(price_vs_long: Side, short_vs_long: Side)
    ensures
        (classify_spec(price_vs_long, short_vs_long) == Signal::Bull) == (price_vs_long == Side::Above
            && short_vs_long == Side::Above),
        (classify_spec(price_vs_long, short_vs_long) == Signal::Bear) == (price_vs_long == Side::Below
            && short_vs_long == Side::Below),
        classify_spec(price_vs_long, short_vs_long) != Signal::Pending,
        price_vs_long != short_vs_long ==> classify_spec(price_vs_long, short_vs_long)
            == Signal::Crab,
        forall|n: nat| #![auto]
            n < MIN_SIGNAL_DAYS ==> signal_for_spec(n, price_vs_long, short_vs_long)
                == Signal::Pending,
        forall|n: nat| #![auto]
            n >= MIN_SIGNAL_DAYS ==> signal_for_spec(n, price_vs_long, short_vs_long)
                == classify_spec(price_vs_long, short_vs_long),
{
}

/// Only one trade is ever opposed to the mode: selling a safety category
/// (cash, yielding stables) in a bear market. In a crab market every trade
/// is neutral; in a bull market buying growth or selling safety is aligned
/// and nothing is opposed; in a bear market buying safety or selling growth
/// is aligned.
pub proof fn law_alignment(category: Seq<char>, selling: bool, m: MarketMode)
    ensures
        (alignment_spec(category, selling, m) == Alignment::Opposed) == (m == MarketMode::Bear
            && selling && is_safety_spec(category)),
        m == MarketMode::Crab ==> alignment_spec(category, selling, m) == Alignment::Neutral,
        m == MarketMode::Bull ==> ((alignment_spec(category, selling, m) == Alignment::Aligned) == (
        (is_growth_spec(category) && !selling) || (is_safety_spec(category) && selling))),
        m == MarketMode::Bear ==> ((alignment_spec(category, selling, m) == Alignment::Aligned) == (
        (is_safety_spec(category) && !selling) || (is_growth_spec(category) && selling))),
        !is_growth_spec(category) && !is_safety_spec(category) ==> alignment_spec(
            category,
            selling,
            m,
        ) == Alignment::Neutral,
{
    reveal_strlit("stocks");
    reveal_strlit("crypto");
    reveal_strlit("cash");
    reveal_strlit("stable_yielding");
    assert("stocks"@.len() == 6 && "crypto"@.len() == 6);
    assert("cash"@.len() == 4 && "stable_yielding"@.len() == 15);
    assert(!(is_growth_spec(category) && is_safety_spec(category)));
}


/// A signal has no status before 50 daily prices, a partial one from 50 to
/// 199, and is active from 200 on.
pub proof fn law_status_thresholds(n: nat)
    ensures
        (status_for_days_spec(n) == SignalStatus::InsufficientData) == (n < 50),
        (status_for_days_spec(n) == SignalStatus::Partial) == (50 <= n && n < 200),
        (status_for_days_spec(n) == SignalStatus::Active) == (n >= 200),
{
}

} // verus!
