//! The Action Center's date logic and wording: which past snapshot each
//! net-worth delta compares against, how stale the data is, which owned
//! assets need a fresh valuation, and the text of the action cards.

use vstd::prelude::*;
use crate::dates::{
    ce_year, chrono_ce_year, chrono_format_ymd, chrono_parse_ymd, chrono_ymd, format_ymd, lex_le,
    parse_ymd, str_le, ymd_day,
};
use crate::decimal::{fmt_thousands, i64_to_string, signed_decimal, thousands};
use crate::market::{mode_upper, mode_upper_spec, MarketMode};
use crate::taxonomy::{humanize_cat, humanize_cat_spec};
use crate::text::{concat2, owned};

verus! {

/// Snapshot data older than this many days is stale.
pub const STALE_SNAPSHOT_DAYS: i64 = 14;

/// An owned asset's value wants refreshing after this many days.
pub const STALE_OWNED_DAYS: i64 = 90;

/// Net-worth points on the hero sparkline.
pub const SPARKLINE_POINTS: usize = 30;

/// Index of the last date in `dates` that is at or before `target` (text
/// order), or `None` when every date is later.
pub open spec fn last_at_or_before(dates: Seq<Seq<char>>, target: Seq<char>) -> Option<int>
    decreases dates.len(),
{
    if dates.len() == 0 {
        None
    } else if lex_le(dates.last(), target) {
        Some(dates.len() - 1)
    } else {
        last_at_or_before(dates.drop_last(), target)
    }
}

/// A delta's baseline is the latest point at or before the window's start:
/// the date chosen is at or before the target and every later date is after
/// it; no date is chosen only when every date is after the target.
pub proof fn law_baseline_at_or_before(dates: Seq<Seq<char>>, target: Seq<char>)
    ensures
        match last_at_or_before(dates, target) {
            Some(i) => 0 <= i < dates.len() && lex_le(dates[i], target) && forall|j: int|
                i < j < dates.len() ==> !lex_le(#[trigger] dates[j], target),
            None => forall|j: int| 0 <= j < dates.len() ==> !lex_le(#[trigger] dates[j], target),
        },
    decreases dates.len(),
{
    if dates.len() > 0 {
        let d = dates.drop_last();
        law_baseline_at_or_before(d, target);
        if !lex_le(dates.last(), target) {
            assert forall|j: int| 0 <= j < d.len() implies dates[j] == d[j] by {}
        }
    }
}

pub open spec fn view_strings(v: Seq<String>) -> Seq<Seq<char>> {
    v.map_values(|s: String| s@)
}

/// Position of the last date at or before `target`.
pub fn find_at_or_before(dates: &Vec<String>, target: &str) -> (r: Option<usize>)
    ensures
        match r {
            Some(i) => last_at_or_before(view_strings(dates@), target@) == Some(i as int),
            None => last_at_or_before(view_strings(dates@), target@) is None,
        },
{
    let n = dates.len();
    let mut i = n;
    proof {
        assert(view_strings(dates@).take(n as int) =~= view_strings(dates@));
    }
    while i > 0
        invariant
            n == dates@.len(),
            i <= n,
            last_at_or_before(view_strings(dates@), target@) == last_at_or_before(
                view_strings(dates@).take(i as int),
                target@,
            ),
        decreases i,
    {
        let ghost t = view_strings(dates@).take(i as int);
        proof {
            assert(t.last() == dates@[i - 1]@);
            assert(t.drop_last() =~= view_strings(dates@).take(i - 1));
        }
        if str_le(dates[i - 1].as_str(), target) {
            return Some(i - 1);
        }
        i = i - 1;
    }
    None
}

/// One net-worth delta window: compare the newest point with the point at
/// `from_index`, `days` days earlier.
pub struct DeltaWindow {
    pub label: String,
    pub from_index: usize,
    pub days: i64,
}

/// The day numbers that chrono reads from `dates` (`None` where it reads
/// none).
pub open spec fn parsed_days(dates: Seq<Seq<char>>) -> Seq<Option<i32>> {
    dates.map_values(|d: Seq<char>| chrono_parse_ymd(d))
}

/// The window whose start is written `target`, over `dates` (oldest first)
/// with their day numbers `days`, seen from day `current`: the comparison
/// point is the last date at or before the start (in text order), and the
/// window spans the days between; there is no window when there is no
/// start text, no date qualifies, or the chosen date has no day number.
pub open spec fn window_from_spec(
    dates: Seq<Seq<char>>,
    days: Seq<Option<i32>>,
    current: i32,
    target: Option<Seq<char>>,
) -> Option<(int, int)> {
    match target {
        None => None,
        Some(t) => match last_at_or_before(dates, t) {
            None => None,
            Some(i) => match days[i] {
                None => None,
                Some(d) => Some((i, current - d)),
            },
        },
    }
}

/// The text of a window's first day, as chrono writes it.
pub open spec fn start_text(from_day: Option<i32>) -> Option<Seq<char>> {
    match from_day {
        None => None,
        Some(fd) => chrono_format_ymd(fd),
    }
}

/// The window that starts on day number `from_day`, over the dates of the
/// net-worth series whose newest date is day `current`.
pub open spec fn window_spec(dates: Seq<Seq<char>>, current: i32, from_day: Option<i32>) -> Option<(
    int,
    int,
)> {
    window_from_spec(dates, parsed_days(dates), current, start_text(from_day))
}

/// Day number `k` days before `day`, when it is a day number.
pub open spec fn days_before(day: i32, k: int) -> Option<i32> {
    if i32::MIN <= day - k {
        Some((day - k) as i32)
    } else {
        None
    }
}

/// 1 January of the year of `day`; the day itself when chrono gives none.
pub open spec fn year_start_spec(day: i32) -> i32 {
    match chrono_ce_year(day) {
        Some(y) => match chrono_ymd(y as i32, 1, 1) {
            Some(d) => d,
            None => day,
        },
        None => day,
    }
}

/// The windows 7d, 30d, 90d and YTD whose start texts are `targets`, in
/// that order; each present only where `window_from_spec` finds it.
pub open spec fn windows_from_spec(
    dates: Seq<Seq<char>>,
    days: Seq<Option<i32>>,
    current: i32,
    targets: Seq<Option<Seq<char>>>,
) -> Seq<(Seq<char>, int, int)> {
    opt_window("7d"@, window_from_spec(dates, days, current, targets[0])) + opt_window(
        "30d"@,
        window_from_spec(dates, days, current, targets[1]),
    ) + opt_window("90d"@, window_from_spec(dates, days, current, targets[2])) + opt_window(
        "YTD"@,
        window_from_spec(dates, days, current, targets[3]),
    )
}

/// The start texts of the 7d, 30d, 90d and YTD windows seen from day `cd`.
pub open spec fn start_texts(cd: i32) -> Seq<Option<Seq<char>>> {
    seq![
        start_text(days_before(cd, 7)),
        start_text(days_before(cd, 30)),
        start_text(days_before(cd, 90)),
        start_text(Some(year_start_spec(cd))),
    ]
}

/// The windows of the net-worth hero, in order 7d, 30d, 90d, YTD. Nothing
/// when the series is empty or its newest date does not read as a date.
pub open spec fn windows_spec(dates: Seq<Seq<char>>) -> Seq<(Seq<char>, int, int)> {
    if dates.len() == 0 {
        Seq::empty()
    } else {
        match chrono_parse_ymd(dates.last()) {
            None => Seq::empty(),
            Some(cd) => windows_from_spec(dates, parsed_days(dates), cd, start_texts(cd)),
        }
    }
}

pub open spec fn opt_window(label: Seq<char>, w: Option<(int, int)>) -> Seq<(Seq<char>, int, int)> {
    match w {
        Some(p) => seq![(label, p.0, p.1)],
        None => Seq::empty(),
    }
}

pub open spec fn window_view(w: DeltaWindow) -> (Seq<char>, int, int) {
    (w.label@, w.from_index as int, w.days as int)
}

pub open spec fn opt_string_views(v: Seq<Option<String>>) -> Seq<Option<Seq<char>>> {
    v.map_values(
        |o: Option<String>|
            match o {
                Some(s) => Some(s@),
                None => None,
            },
    )
}

/// The window whose start is written `target`, over `dates` (oldest first)
/// with their day numbers `days`, seen from day `current`: the position of
/// the comparison point and the days between.
pub fn window_from(dates: &Vec<String>, days: &Vec<Option<i32>>, current: i32, target: Option<&str>) -> (r:
    Option<(usize, i64)>)
    requires
        days@.len() == dates@.len(),
    ensures
        match r {
            Some(p) => window_from_spec(view_strings(dates@), days@, current, opt_str_view(target))
                == Some((p.0 as int, p.1 as int)) && p.0 < dates@.len(),
            None => window_from_spec(view_strings(dates@), days@, current, opt_str_view(target)) is None,
        },
{
    let t = match target {
        Some(t) => t,
        None => {
            return None;
        },
    };
    let i = match find_at_or_before(dates, t) {
        Some(i) => i,
        None => {
            return None;
        },
    };
    proof {
        law_baseline_at_or_before(view_strings(dates@), t@);
    }
    match days[i] {
        Some(d) => Some((i, (current as i64) - (d as i64))),
        None => None,
    }
}

fn opt_as_str(o: &Option<String>) -> (r: Option<&str>)
    ensures
        opt_str_view(r) == (match *o {
            Some(s) => Some(s@),
            None => None::<Seq<char>>,
        }),
{
    match o {
        Some(s) => Some(s.as_str()),
        None => None,
    }
}

fn push_window(
    out: &mut Vec<DeltaWindow>,
    label: &str,
    w: Option<(usize, i64)>,
    Ghost(spec_w): Ghost<Option<(int, int)>>,
    Ghost(bound): Ghost<int>,
)
    requires
        match w {
            Some(p) => spec_w == Some((p.0 as int, p.1 as int)) && p.0 < bound,
            None => spec_w is None,
        },
        forall|k: int| 0 <= k < old(out)@.len() ==> #[trigger] old(out)@[k].from_index < bound,
    ensures
        forall|k: int| 0 <= k < final(out)@.len() ==> #[trigger] final(out)@[k].from_index < bound,
        final(out)@.map_values(|x: DeltaWindow| window_view(x)) == old(out)@.map_values(
            |x: DeltaWindow| window_view(x),
        ) + opt_window(label@, spec_w),
{
    let ghost before = out@;
    match w {
        Some((i, days)) => {
            out.push(DeltaWindow { label: owned(label), from_index: i, days });
            assert(out@.map_values(|x: DeltaWindow| window_view(x)) =~= before.map_values(
                |x: DeltaWindow| window_view(x),
            ) + opt_window(label@, spec_w));
        },
        None => {
            assert(out@.map_values(|x: DeltaWindow| window_view(x)) =~= before.map_values(
                |x: DeltaWindow| window_view(x),
            ) + opt_window(label@, spec_w));
        },
    }
}

/// The 7d / 30d / 90d / YTD windows over `dates` (oldest first) with their
/// day numbers `days`, seen from day `current`, whose start texts are
/// `targets` in that order.
pub fn delta_windows_from(
    dates: &Vec<String>,
    days: &Vec<Option<i32>>,
    current: i32,
    targets: &Vec<Option<String>>,
) -> (r: Vec<DeltaWindow>)
    requires
        days@.len() == dates@.len(),
        targets@.len() == 4,
    ensures
        r@.map_values(|x: DeltaWindow| window_view(x)) == windows_from_spec(
            view_strings(dates@),
            days@,
            current,
            opt_string_views(targets@),
        ),
        forall|k: int| 0 <= k < r@.len() ==> #[trigger] r@[k].from_index < dates@.len(),
{
    let ghost ds = view_strings(dates@);
    let ghost ts = opt_string_views(targets@);
    let ghost n = dates@.len() as int;
    let mut out: Vec<DeltaWindow> = Vec::new();
    assert(out@.map_values(|x: DeltaWindow| window_view(x)) =~= Seq::empty());
    let w7 = window_from(dates, days, current, opt_as_str(&targets[0]));
    push_window(&mut out, "7d", w7, Ghost(window_from_spec(ds, days@, current, ts[0])), Ghost(n));
    let w30 = window_from(dates, days, current, opt_as_str(&targets[1]));
    push_window(&mut out, "30d", w30, Ghost(window_from_spec(ds, days@, current, ts[1])), Ghost(n));
    let w90 = window_from(dates, days, current, opt_as_str(&targets[2]));
    push_window(&mut out, "90d", w90, Ghost(window_from_spec(ds, days@, current, ts[2])), Ghost(n));
    let wy = window_from(dates, days, current, opt_as_str(&targets[3]));
    push_window(&mut out, "YTD", wy, Ghost(window_from_spec(ds, days@, current, ts[3])), Ghost(n));
    proof {
        let e = Seq::<(Seq<char>, int, int)>::empty();
        let w = window_from_spec(ds, days@, current, ts[0]);
        assert(e + opt_window("7d"@, w) =~= opt_window("7d"@, w));
    }
    out
}

/// The text of the day `from_day`, when there is one.
fn start_of(from_day: Option<i32>) -> (r: Option<String>)
    ensures
        (match r {
            Some(s) => Some(s@),
            None => None::<Seq<char>>,
        }) == start_text(from_day),
{
    match from_day {
        Some(d) => format_ymd(d),
        None => None,
    }
}

/// The day numbers of `dates`.
fn day_numbers(dates: &Vec<String>) -> (r: Vec<Option<i32>>)
    ensures
        r@ == parsed_days(view_strings(dates@)),
{
    let n = dates.len();
    let mut r: Vec<Option<i32>> = Vec::new();
    let mut i: usize = 0;
    while i < n
        invariant
            n == dates@.len(),
            i <= n,
            r@ == parsed_days(view_strings(dates@)).take(i as int),
        decreases n - i,
    {
        let d = parse_ymd(dates[i].as_str());
        r.push(d);
        i = i + 1;
        assert(r@ =~= parsed_days(view_strings(dates@)).take(i as int));
    }
    assert(parsed_days(view_strings(dates@)).take(n as int) =~= parsed_days(view_strings(dates@)));
    r
}

/// The 7d / 30d / 90d / YTD comparison windows over the dates of the
/// net-worth series (oldest first), as `windows_spec` states them.
pub fn delta_windows(dates: &Vec<String>) -> (r: Vec<DeltaWindow>)
    ensures
        r@.map_values(|x: DeltaWindow| window_view(x)) == windows_spec(view_strings(dates@)),
        forall|k: int| 0 <= k < r@.len() ==> #[trigger] r@[k].from_index < dates@.len(),
{
    let n = dates.len();
    if n == 0 {
        let out: Vec<DeltaWindow> = Vec::new();
        assert(out@.map_values(|x: DeltaWindow| window_view(x)) =~= Seq::empty());
        return out;
    }
    proof {
        assert(view_strings(dates@).last() == dates@[n - 1]@);
    }
    let cd = match parse_ymd(dates[n - 1].as_str()) {
        Some(d) => d,
        None => {
            let out: Vec<DeltaWindow> = Vec::new();
            assert(out@.map_values(|x: DeltaWindow| window_view(x)) =~= Seq::empty());
            return out;
        },
    };
    let ystart = match ce_year(cd) {
        Some(y) => match ymd_day(#[verifier::truncate] (y as i32), 1, 1) {
            Some(d) => d,
            None => cd,
        },
        None => cd,
    };
    let d7 = cd.checked_sub(7);
    let d30 = cd.checked_sub(30);
    let d90 = cd.checked_sub(90);
    assert(d7 == days_before(cd, 7));
    assert(d30 == days_before(cd, 30));
    assert(d90 == days_before(cd, 90));
    let mut targets: Vec<Option<String>> = Vec::new();
    targets.push(start_of(d7));
    targets.push(start_of(d30));
    targets.push(start_of(d90));
    targets.push(start_of(Some(ystart)));
    assert(opt_string_views(targets@) =~= start_texts(cd));
    let days = day_numbers(dates);
    delta_windows_from(dates, &days, cd, &targets)
}

/// Index of the first point of the sparkline: the newest 30 points, or all
/// of them when there are fewer.
pub fn sparkline_start(n: usize) -> (r: usize)
    ensures
        r == if n > SPARKLINE_POINTS {
            n - SPARKLINE_POINTS
        } else {
            0
        },
{
    n.saturating_sub(SPARKLINE_POINTS)
}

/// Age in days of the newest snapshot, from the day numbers of the newest
/// snapshot and of today: `i64::MAX` when there are no snapshots (`latest`
/// empty), 0 when either day number is missing.
pub open spec fn age_from_spec(latest: Seq<char>, latest_day: Option<i32>, now_day: Option<i32>) -> int {
    if latest.len() == 0 {
        i64::MAX as int
    } else {
        match (latest_day, now_day) {
            (Some(l), Some(n)) => n - l,
            _ => 0,
        }
    }
}

/// Age in days of the newest snapshot `latest` on `now`, as chrono reads
/// the two dates.
pub open spec fn snapshot_age_spec(latest: Seq<char>, now: Seq<char>) -> int {
    age_from_spec(latest, chrono_parse_ymd(latest), chrono_parse_ymd(now))
}

pub fn snapshot_age_from(latest: &str, latest_day: Option<i32>, now_day: Option<i32>) -> (r: i64)
    ensures
        r == age_from_spec(latest@, latest_day, now_day),
{
    if latest.unicode_len() == 0 {
        return i64::MAX;
    }
    match (latest_day, now_day) {
        (Some(l), Some(n)) => (n as i64) - (l as i64),
        _ => 0,
    }
}

pub fn snapshot_age_days(latest: &str, now: &str) -> (r: i64)
    ensures
        r == snapshot_age_spec(latest@, now@),
{
    if latest.unicode_len() == 0 {
        return i64::MAX;
    }
    snapshot_age_from(latest, parse_ymd(latest), parse_ymd(now))
}

/// Whether snapshot data of this age is stale.
pub fn is_stale(age_days: i64) -> (r: bool)
    ensures
        r == (age_days > STALE_SNAPSHOT_DAYS),
{
    age_days > STALE_SNAPSHOT_DAYS
}

/// The text of an action card that is not a trade.
pub struct Notice {
    pub id: String,
    pub headline: String,
    pub body: String,
}

pub open spec fn no_snapshots_body() -> Seq<char> {
    "Add your first snapshot in /data?tab=snapshots to start tracking. The Action Center fills in once data exists."@
}

pub open spec fn stale_body() -> Seq<char> {
    "Your data is stale; rebalance signals below may be inaccurate. Click Snapshot in the nav."@
}

/// The snapshot card that heads the Action Center: one asking for a first
/// snapshot when there is no data (`latest` empty), one asking to update
/// holdings when the newest snapshot is more than 14 days old, none
/// otherwise.
pub fn snapshot_notice(latest: &str, age_days: i64) -> (r: Option<Notice>)
    ensures
        latest@.len() == 0 ==> (r matches Some(n) && n.id@ == "snapshot:none"@ && n.headline@
            == "No snapshots yet"@ && n.body@ == no_snapshots_body()),
        latest@.len() != 0 && age_days > STALE_SNAPSHOT_DAYS ==> (r matches Some(n) && n.id@
            == "snapshot:stale"@ && n.headline@ == "Update holdings — last snapshot "@
            + signed_decimal(age_days as int) + " days old"@ && n.body@ == stale_body()),
        latest@.len() != 0 && age_days <= STALE_SNAPSHOT_DAYS ==> r is None,
{
    if latest.unicode_len() == 0 {
        Some(
            Notice {
                id: owned("snapshot:none"),
                headline: owned("No snapshots yet"),
                body: owned(
                    "Add your first snapshot in /data?tab=snapshots to start tracking. The Action Center fills in once data exists.",
                ),
            },
        )
    } else if age_days > STALE_SNAPSHOT_DAYS {
        let mut headline = owned("Update holdings — last snapshot ");
        let d = i64_to_string(age_days);
        headline.append(d.as_str());
        headline.append(" days old");
        Some(
            Notice {
                id: owned("snapshot:stale"),
                headline,
                body: owned(
                    "Your data is stale; rebalance signals below may be inaccurate. Click Snapshot in the nav.",
                ),
            },
        )
    } else {
        None
    }
}

/// An owned asset (car, property, ...) whose value needs a manual update.
pub struct OwnedRefresh {
    pub id: String,
    pub headline: String,
    /// Days since the last valuation; `None` when it was never valued or
    /// its date does not read.
    pub days: Option<i64>,
}

/// Days since an owned account's last snapshot on `now`; `None` when there
/// is none, or a date does not read.
pub open spec fn owned_age_spec(last_snap: Option<Seq<char>>, now: Seq<char>) -> Option<int> {
    match (last_snap, chrono_parse_ymd(now)) {
        (Some(s), Some(n)) => match chrono_parse_ymd(s) {
            Some(d) => Some(n - d),
            None => None,
        },
        _ => None,
    }
}

pub open spec fn refresh_label(days: Option<int>) -> Seq<char> {
    match days {
        Some(d) => signed_decimal(d) + " days ago"@,
        None => "never set"@,
    }
}

pub open spec fn opt_str_view(o: Option<&str>) -> Option<Seq<char>> {
    match o {
        Some(s) => Some(s@),
        None => None,
    }
}

/// The refresh card of an owned account whose last valuation is `days`
/// old (`None`: never valued, or its date does not read): none when it is
/// less than 90 days old; otherwise one with id `stale_owned:{id}` that
/// says when the value was last set.
pub open spec fn refresh_card(r: Option<OwnedRefresh>, account_id: i64, name: Seq<char>, days: Option<
    int,
>) -> bool {
    match days {
        Some(d) => if d < STALE_OWNED_DAYS {
            r is None
        } else {
            r matches Some(o) && o.days == Some(d as i64) && o.id@ == "stale_owned:"@
                + signed_decimal(account_id as int) && o.headline@ == "Update "@ + name
                + " value — last set "@ + refresh_label(Some(d))
        },
        None => r matches Some(o) && o.days is None && o.id@ == "stale_owned:"@ + signed_decimal(
            account_id as int,
        ) && o.headline@ == "Update "@ + name + " value — last set "@ + refresh_label(None),
    }
}

pub open spec fn opt_int(days: Option<i64>) -> Option<int> {
    match days {
        Some(d) => Some(d as int),
        None => None,
    }
}

/// The refresh card of an owned account from the age of its last valuation.
pub fn owned_refresh_from(account_id: i64, name: &str, days: Option<i64>) -> (r: Option<OwnedRefresh>)
    ensures
        refresh_card(r, account_id, name@, opt_int(days)),
{
    match days {
        Some(d) => {
            if d < STALE_OWNED_DAYS {
                return None;
            }
        },
        None => {},
    }
    let id = concat2("stale_owned:", i64_to_string(account_id).as_str());
    let mut headline = owned("Update ");
    headline.append(name);
    headline.append(" value — last set ");
    match days {
        Some(d) => {
            let ds = i64_to_string(d);
            headline.append(ds.as_str());
            headline.append(" days ago");
            assert(headline@ == "Update "@ + name@ + " value — last set "@ + refresh_label(
                Some(d as int),
            ));
        },
        None => {
            headline.append("never set");
            assert(headline@ == "Update "@ + name@ + " value — last set "@ + refresh_label(None));
        },
    }
    Some(OwnedRefresh { id, headline, days })
}

/// The refresh card of an owned account whose last snapshot is dated
/// `last_snap`, on `now`, as chrono reads the dates.
pub fn owned_refresh(account_id: i64, name: &str, last_snap: Option<&str>, now: &str) -> (r:
    Option<OwnedRefresh>)
    ensures
        refresh_card(r, account_id, name@, owned_age_spec(opt_str_view(last_snap), now@)),
{
    let days: Option<i64> = match (last_snap, parse_ymd(now)) {
        (Some(s), Some(n)) => match parse_ymd(s) {
            Some(d) => Some((n as i64) - (d as i64)),
            None => None,
        },
        _ => None,
    };
    owned_refresh_from(account_id, name, days)
}

/// Headline of a rebalance card: `Buy ~$12,000 of Crypto to hit BULL
/// target`; `amount` is the trade in whole dollars.
pub fn rebalance_headline(buy: bool, amount: i64, category: &str, m: MarketMode) -> (r: String)
    requires
        amount > i64::MIN,
    ensures
        r@ == (if buy {
            "Buy"@
        } else {
            "Sell"@
        }) + " ~$"@ + thousands(amount as int) + " of "@ + humanize_cat_spec(category@)
            + " to hit "@ + mode_upper_spec(m) + " target"@,
{
    let mut r = if buy {
        owned("Buy")
    } else {
        owned("Sell")
    };
    r.append(" ~$");
    let a = fmt_thousands(amount);
    r.append(a.as_str());
    r.append(" of ");
    let c = humanize_cat(category);
    r.append(c.as_str());
    r.append(" to hit ");
    let u = mode_upper(m);
    r.append(u.as_str());
    r.append(" target");
    r
}

/// Card id of a rebalance in `category`.
pub fn drift_action_id(category: &str) -> (r: String)
    ensures
        r@ == "drift:"@ + category@,
{
    concat2("drift:", category)
}

/// Card id of a concentration warning on `symbol`.
pub fn concentration_action_id(symbol: &str) -> (r: String)
    ensures
        r@ == "concentration:"@ + symbol@,
{
    concat2("concentration:", symbol)
}


/// The window of `ws` labelled `YTD`, if it has one.
pub open spec fn ytd_entry(ws: Seq<(Seq<char>, int, int)>) -> Option<(int, int)> {
    if ws.len() > 0 && ws.last().0 == "YTD"@ {
        Some((ws.last().1, ws.last().2))
    } else {
        None
    }
}

/// The YTD window compares the newest point, day `cd`, with the last point
/// at or before 1 January of `cd`'s year (as chrono writes that day), and
/// spans the days between them; there is no YTD window when no point is
/// that early or the chosen point does not read as a date.
pub proof fn law_ytd_window(dates: Seq<Seq<char>>, cd: i32, y: u32, jan1: i32, t: Seq<char>)
    requires
        dates.len() > 0,
        chrono_parse_ymd(dates.last()) == Some(cd),
        chrono_ce_year(cd) == Some(y),
        chrono_ymd(y as i32, 1, 1) == Some(jan1),
        chrono_format_ymd(jan1) == Some(t),
    ensures
        ytd_entry(windows_spec(dates)) == (match last_at_or_before(dates, t) {
            None => None,
            Some(i) => match chrono_parse_ymd(dates[i]) {
                None => None,
                Some(d) => Some((i, cd - d)),
            },
        }),
        match last_at_or_before(dates, t) {
            Some(i) => 0 <= i < dates.len() && lex_le(dates[i], t) && forall|j: int|
                i < j < dates.len() ==> !lex_le(#[trigger] dates[j], t),
            None => forall|j: int| 0 <= j < dates.len() ==> !lex_le(#[trigger] dates[j], t),
        },
{
    law_baseline_at_or_before(dates, t);
    reveal_strlit("YTD");
    reveal_strlit("7d");
    reveal_strlit("30d");
    reveal_strlit("90d");
    assert("7d"@.len() == 2);
    assert("30d"@[0] != "YTD"@[0] && "90d"@[0] != "YTD"@[0]);
    let days = parsed_days(dates);
    let ts = start_texts(cd);
    assert(ts[3] == Some(t));
    let w7 = opt_window("7d"@, window_from_spec(dates, days, cd, ts[0]));
    let w30 = opt_window("30d"@, window_from_spec(dates, days, cd, ts[1]));
    let w90 = opt_window("90d"@, window_from_spec(dates, days, cd, ts[2]));
    let wy = opt_window("YTD"@, window_from_spec(dates, days, cd, ts[3]));
    let ws = windows_spec(dates);
    assert(ws == w7 + w30 + w90 + wy);
    match last_at_or_before(dates, t) {
        Some(i) => {
            assert(days[i] == chrono_parse_ymd(dates[i]));
        },
        None => {},
    }
    if wy.len() == 0 {
        assert(ws == w7 + w30 + w90);
        if ws.len() > 0 {
            if w90.len() > 0 {
                assert(ws.last() == w90[0]);
            } else if w30.len() > 0 {
                assert(w7 + w30 + w90 =~= w7 + w30);
                assert(ws.last() == w30[0]);
            } else {
                assert(w7 + w30 + w90 =~= w7);
                assert(ws.last() == w7[0]);
            }
        }
    } else {
        assert(ws.last() == wy[0]);
    }
}


/// The first window of `ws` labelled `label`, if any.
pub open spec fn labelled(ws: Seq<(Seq<char>, int, int)>, label: Seq<char>) -> Option<(int, int)>
    decreases ws.len(),
{
    if ws.len() == 0 {
        None
    } else if ws[0].0 == label {
        Some((ws[0].1, ws[0].2))
    } else {
        labelled(ws.drop_first(), label)
    }
}

proof fn lemma_labelled_concat(a: Seq<(Seq<char>, int, int)>, b: Seq<(Seq<char>, int, int)>, label: Seq<char>)
    ensures
        labelled(a + b, label) == (match labelled(a, label) {
            Some(x) => Some(x),
            None => labelled(b, label),
        }),
    decreases a.len(),
{
    if a.len() == 0 {
        assert(a + b =~= b);
    } else {
        assert((a + b)[0] == a[0]);
        assert((a + b).drop_first() =~= a.drop_first() + b);
        lemma_labelled_concat(a.drop_first(), b, label);
    }
}

proof fn lemma_labelled_window(l: Seq<char>, w: Option<(int, int)>, label: Seq<char>)
    ensures
        labelled(opt_window(l, w), label) == (if l == label {
            w
        } else {
            None
        }),
{
    match w {
        Some(p) => {
            let ws = opt_window(l, w);
            assert(ws[0] == (l, p.0, p.1));
            assert(ws.drop_first() =~= Seq::<(Seq<char>, int, int)>::empty());
            assert(labelled(Seq::<(Seq<char>, int, int)>::empty(), label) is None);
            assert(labelled(ws.drop_first(), label) is None);
        },
        None => {},
    }
}

/// The label of the window that starts `k` days back.
pub open spec fn day_window_label(k: int) -> Seq<char> {
    if k == 7 {
        "7d"@
    } else if k == 30 {
        "30d"@
    } else {
        "90d"@
    }
}

/// The 7d, 30d and 90d windows compare the newest point, day `cd`, with the
/// last point at or before the day `k` days earlier (as chrono writes that
/// day), and span the days between them; the window is absent when no
/// point is that early or the chosen point does not read as a date.
pub proof fn law_day_windows(dates: Seq<Seq<char>>, cd: i32, k: int, t: Seq<char>)
    requires
        k == 7 || k == 30 || k == 90,
        dates.len() > 0,
        chrono_parse_ymd(dates.last()) == Some(cd),
        i32::MIN <= cd - k,
        chrono_format_ymd((cd - k) as i32) == Some(t),
    ensures
        labelled(windows_spec(dates), day_window_label(k)) == (match last_at_or_before(dates, t) {
            None => None,
            Some(i) => match chrono_parse_ymd(dates[i]) {
                None => None,
                Some(d) => Some((i, cd - d)),
            },
        }),
{
    law_baseline_at_or_before(dates, t);
    reveal_strlit("YTD");
    reveal_strlit("7d");
    reveal_strlit("30d");
    reveal_strlit("90d");
    assert("7d"@.len() == 2 && "30d"@.len() == 3 && "90d"@.len() == 3);
    assert("30d"@[0] != "90d"@[0] && "30d"@[0] != "YTD"@[0] && "90d"@[0] != "YTD"@[0]);
    let label = day_window_label(k);
    let days = parsed_days(dates);
    let ts = start_texts(cd);
    let v7 = window_from_spec(dates, days, cd, ts[0]);
    let v30 = window_from_spec(dates, days, cd, ts[1]);
    let v90 = window_from_spec(dates, days, cd, ts[2]);
    let vy = window_from_spec(dates, days, cd, ts[3]);
    let w7 = opt_window("7d"@, v7);
    let w30 = opt_window("30d"@, v30);
    let w90 = opt_window("90d"@, v90);
    let wy = opt_window("YTD"@, vy);
    assert(windows_spec(dates) == w7 + w30 + w90 + wy);
    lemma_labelled_concat(w7 + w30 + w90, wy, label);
    lemma_labelled_concat(w7 + w30, w90, label);
    lemma_labelled_concat(w7, w30, label);
    lemma_labelled_window("7d"@, v7, label);
    lemma_labelled_window("30d"@, v30, label);
    lemma_labelled_window("90d"@, v90, label);
    lemma_labelled_window("YTD"@, vy, label);
    match last_at_or_before(dates, t) {
        Some(i) => {
            assert(days[i] == chrono_parse_ymd(dates[i]));
        },
        None => {},
    }
    if k == 7 {
        assert(ts[0] == Some(t));
    } else if k == 30 {
        assert(ts[1] == Some(t));
    } else {
        assert(ts[2] == Some(t));
    }
}

} // verus!
