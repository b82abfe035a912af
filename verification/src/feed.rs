//! The price feed's decisions: how it was asked to run, what one cycle does
//! and in which order, which fetched prices are stored, and the addresses it
//! fetches from. The fetching, the storing and the sleeping are done around
//! these functions.

use vstd::prelude::*;
use crate::decimal::{parse_u64, parse_u64_spec};
use crate::text::{concat3, into_reversed, join_commas, lemma_filter_take_step, owned, str_eq};
use crate::views::{contains_string, contains_view};

verus! {

/// Seconds between two cycles when `--loop` names no valid interval.
pub const DEFAULT_INTERVAL_SECS: u64 = 3600;

/// How the feed runs: once, or in a loop with a pause between cycles.
pub struct FeedArgs {
    pub looping: bool,
    pub interval_secs: u64,
}

/// The mode word: the first argument after the program's name, `--once`
/// when there is none.
pub open spec fn mode_spec(args: Seq<String>) -> Seq<char> {
    if args.len() > 1 {
        args[1]@
    } else {
        "--once"@
    }
}

/// The pause of `--loop`: the second argument read as a `u64`, else one
/// hour; no pause for any other mode.
pub open spec fn interval_spec(args: Seq<String>) -> u64 {
    if mode_spec(args) == "--loop"@ {
        if args.len() > 2 {
            match parse_u64_spec(args[2]@) {
                Some(n) => n,
                None => DEFAULT_INTERVAL_SECS,
            }
        } else {
            DEFAULT_INTERVAL_SECS
        }
    } else {
        0
    }
}

/// Reads the command line (program name first).
pub fn feed_args(args: &Vec<String>) -> (r: FeedArgs)
    ensures
        r.looping == (mode_spec(args@) == "--loop"@),
        r.interval_secs == interval_spec(args@),
{
    proof {
        reveal_strlit("--once");
        reveal_strlit("--loop");
        assert("--once"@[2] != "--loop"@[2]);
    }
    let looping = args.len() > 1 && str_eq(args[1].as_str(), "--loop");
    let interval_secs = if looping {
        if args.len() > 2 {
            match parse_u64(args[2].as_str()) {
                Some(n) => n,
                None => DEFAULT_INTERVAL_SECS,
            }
        } else {
            DEFAULT_INTERVAL_SECS
        }
    } else {
        0
    };
    FeedArgs { looping, interval_secs }
}

/// After a cycle, successful or not: the pause before the next one, or
/// `None` to stop.
pub fn after_cycle(args: &FeedArgs) -> (r: Option<u64>)
    ensures
        r == (if args.looping {
            Some(args.interval_secs)
        } else {
            None::<u64>
        }),
{
    if args.looping {
        Some(args.interval_secs)
    } else {
        None
    }
}

/// One step of a price cycle.
#[derive(PartialEq, Eq, Structural, Clone, Copy, Debug)]
pub enum CycleStep {
    /// Spot prices of the active assets with a CoinGecko id.
    FetchCrypto,
    /// Quotes of the active assets with a Yahoo ticker, one by one.
    FetchStocks,
    /// The USD rates of the tracked currencies.
    FetchFx,
    /// Positions take the latest stored price.
    UpdatePositions,
    /// Today's snapshot rows are written from the positions and their
    /// latest prices.
    WriteSnapshots,
}

/// The steps of a cycle in order: the crypto and stock fetches only when
/// there are assets to price, the rest always.
pub open spec fn cycle_steps_spec(has_crypto: bool, has_stocks: bool) -> Seq<CycleStep> {
    let a: Seq<CycleStep> = if has_crypto {
        seq![CycleStep::FetchCrypto]
    } else {
        Seq::empty()
    };
    let b: Seq<CycleStep> = if has_stocks {
        seq![CycleStep::FetchStocks]
    } else {
        Seq::empty()
    };
    a + b + seq![CycleStep::FetchFx, CycleStep::UpdatePositions, CycleStep::WriteSnapshots]
}

pub fn cycle_steps(has_crypto: bool, has_stocks: bool) -> (r: Vec<CycleStep>)
    ensures
        r@ == cycle_steps_spec(has_crypto, has_stocks),
{
    let mut r: Vec<CycleStep> = Vec::new();
    if has_crypto {
        r.push(CycleStep::FetchCrypto);
    }
    if has_stocks {
        r.push(CycleStep::FetchStocks);
    }
    r.push(CycleStep::FetchFx);
    r.push(CycleStep::UpdatePositions);
    r.push(CycleStep::WriteSnapshots);
    assert(r@ =~= cycle_steps_spec(has_crypto, has_stocks));
    r
}

/// What went wrong in a step.
#[derive(PartialEq, Eq, Structural, Clone, Copy, Debug)]
pub enum Failure {
    /// A price source could not be reached or answered badly.
    Fetch,
    /// The database refused a read or a write.
    Store,
}

/// A failed fetch is logged and the cycle goes on; a failed read or write
/// of the database ends the cycle.
pub fn cycle_goes_on(f: Failure) -> (r: bool)
    ensures
        r == (f == Failure::Fetch),
{
    match f {
        Failure::Fetch => true,
        Failure::Store => false,
    }
}

/// The currencies whose USD rate each cycle fetches.
pub fn fx_currencies() -> (r: Vec<String>)
    ensures
        r@.len() == 3,
        r@[0]@ == "EUR"@,
        r@[1]@ == "GBP"@,
        r@[2]@ == "PYG"@,
{
    let mut r: Vec<String> = Vec::new();
    r.push(owned("EUR"));
    r.push(owned("GBP"));
    r.push(owned("PYG"));
    r
}

/// The views of a list of strings.
pub open spec fn views_of(v: Seq<String>) -> Seq<Seq<char>> {
    v.map_values(|s: String| s@)
}

/// The `ids` parameter of CoinGecko's simple-price query.
pub fn coingecko_ids_param(ids: &Vec<String>) -> (r: String)
    ensures
        r@ == join_commas(views_of(ids@)),
{
    let n = ids.len();
    let mut out = String::new();
    let mut i: usize = 0;
    while i < n
        invariant
            n == ids@.len(),
            i <= n,
            out@ == join_commas(views_of(ids@).take(i as int)),
        decreases n - i,
    {
        proof {
            let vs = views_of(ids@);
            assert(vs.take(i + 1).drop_last() =~= vs.take(i as int));
            assert(vs.take(i + 1).last() == ids@[i as int]@);
            if i == 0 {
                assert(vs.take(0) =~= Seq::<Seq<char>>::empty());
            }
        }
        if i == 0 {
            out = owned(ids[i].as_str());
        } else {
            out = concat3(out.as_str(), ",", ids[i].as_str());
        }
        i = i + 1;
    }
    proof {
        assert(views_of(ids@).take(n as int) =~= views_of(ids@));
    }
    out
}

/// The address of CoinGecko's simple-price endpoint.
pub fn coingecko_price_url() -> (r: String)
    ensures
        r@ == "https://api.coingecko.com/api/v3/simple/price"@,
{
    owned("https://api.coingecko.com/api/v3/simple/price")
}

/// The address of Yahoo's chart endpoint for one ticker, one day.
pub fn yahoo_chart_url(ticker: &str) -> (r: String)
    ensures
        r@ == "https://query1.finance.yahoo.com/v8/finance/chart/"@ + ticker@
            + "?range=1d&interval=1d"@,
{
    concat3("https://query1.finance.yahoo.com/v8/finance/chart/", ticker, "?range=1d&interval=1d")
}

/// An asset to price: its id and its CoinGecko id.
pub struct PricedAsset {
    pub asset_id: i64,
    pub coingecko_id: String,
}

pub open spec fn priced_view(a: PricedAsset) -> (i64, Seq<char>) {
    (a.asset_id, a.coingecko_id@)
}

/// The assets whose CoinGecko id came back with a price, in their order.
pub open spec fn with_price_spec(assets: Seq<PricedAsset>, priced: Seq<String>) -> Seq<(i64, Seq<char>)> {
    assets.filter(|a: PricedAsset| contains_view(priced, a.coingecko_id@)).map_values(
        |a: PricedAsset| priced_view(a),
    )
}

/// Which assets get a price recorded after a CoinGecko answer whose keys
/// are `priced`.
pub fn assets_with_price(assets: Vec<PricedAsset>, priced: &Vec<String>) -> (r: Vec<PricedAsset>)
    ensures
        r@.map_values(|a: PricedAsset| priced_view(a)) == with_price_spec(assets@, priced@),
{
    let ghost keep = |a: PricedAsset| contains_view(priced@, a.coingecko_id@);
    let ghost orig = assets@;
    let n = assets.len();
    let mut taken = into_reversed(assets);
    let mut out: Vec<PricedAsset> = Vec::new();
    let mut i: usize = 0;
    while taken.len() > 0
        invariant
            n == orig.len(),
            i + taken@.len() == n,
            forall|k: int| 0 <= k < taken@.len() ==> #[trigger] taken@[k] == orig[n - 1 - k],
            out@ == orig.take(i as int).filter(keep),
            forall|x: PricedAsset| #[trigger] keep(x) == contains_view(priced@, x.coingecko_id@),
        decreases taken@.len(),
    {
        let a = taken.pop().unwrap();
        proof {
            lemma_filter_take_step(orig, i as int, keep);
        }
        let kept = contains_string(priced, a.coingecko_id.as_str());
        assert(kept == keep(a));
        if kept {
            out.push(a);
        }
        i = i + 1;
    }
    proof {
        assert(orig.take(n as int) =~= orig);
        assert(out@ == orig.filter(keep));
        assert(orig.filter(keep) == orig.filter(
            |a: PricedAsset| contains_view(priced@, a.coingecko_id@),
        ));
    }
    out
}

} // verus!
