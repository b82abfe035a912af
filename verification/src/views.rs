//! What the editing hub (`/data`), the expenses page and the settings page
//! decide before they render: which tab is open, which year filter holds,
//! which rows are listed, and how rows and choices are labelled.

use vstd::prelude::*;
use crate::dates::{year_end, year_start};
use crate::decimal::{all_digits, is_digit};
use crate::taxonomy::{currency_label, currency_label_spec};
use crate::records::AccountOut;
use crate::text::{chars_of, into_reversed, lemma_filter_take_step, owned, str_eq};

verus! {

/// Query of the editing hub.
pub struct DataQuery {
    pub tab: Option<String>,
    pub asset_type: Option<String>,
    pub as_of: Option<String>,
    /// Year filter for the income and expenses tabs (`YYYY` or `all`).
    pub year: Option<String>,
}

/// Query of the expenses page.
pub struct ExpensesQuery {
    pub year: Option<String>,
}

/// One pickable year and whether it is the one selected.
pub struct YearOption {
    pub year: String,
    pub selected: bool,
}

/// One currency of the settings dropdown.
pub struct CurrencyOption {
    pub code: String,
    pub label: String,
    pub selected: bool,
}

/// The settings form.
pub struct SettingsForm {
    pub display_currency: String,
}

/// Which tab of the editing hub is open.
pub struct TabFlags {
    pub is_assets: bool,
    pub is_snapshots: bool,
    pub is_positions: bool,
    pub is_accounts: bool,
    pub is_income: bool,
    pub is_expenses: bool,
    pub is_targets: bool,
    pub is_categories: bool,
    pub is_labels: bool,
}

pub open spec fn opt_view(s: Option<String>) -> Option<Seq<char>> {
    match s {
        Some(v) => Some(v@),
        None => None,
    }
}

/// The open tab: the one named, `assets` when none is.
pub open spec fn tab_spec(tab: Option<Seq<char>>) -> Seq<char> {
    match tab {
        Some(t) => t,
        None => "assets"@,
    }
}

/// One flag per tab, set for the open tab only.
pub fn tab_flags(tab: &Option<String>) -> (r: TabFlags)
    ensures
        r.is_assets == (tab_spec(opt_view(*tab)) == "assets"@),
        r.is_snapshots == (tab_spec(opt_view(*tab)) == "snapshots"@),
        r.is_positions == (tab_spec(opt_view(*tab)) == "positions"@),
        r.is_accounts == (tab_spec(opt_view(*tab)) == "accounts"@),
        r.is_income == (tab_spec(opt_view(*tab)) == "income"@),
        r.is_expenses == (tab_spec(opt_view(*tab)) == "expenses"@),
        r.is_targets == (tab_spec(opt_view(*tab)) == "targets"@),
        r.is_categories == (tab_spec(opt_view(*tab)) == "categories"@),
        r.is_labels == (tab_spec(opt_view(*tab)) == "labels"@),
{
    let t: &str = match tab {
        Some(v) => v.as_str(),
        None => "assets",
    };
    TabFlags {
        is_assets: str_eq(t, "assets"),
        is_snapshots: str_eq(t, "snapshots"),
        is_positions: str_eq(t, "positions"),
        is_accounts: str_eq(t, "accounts"),
        is_income: str_eq(t, "income"),
        is_expenses: str_eq(t, "expenses"),
        is_targets: str_eq(t, "targets"),
        is_categories: str_eq(t, "categories"),
        is_labels: str_eq(t, "labels"),
    }
}

/// A year filter applies when it is four ASCII digits; `all`, anything
/// else, and no filter mean every year.
pub open spec fn year_filter_spec(year: Option<Seq<char>>) -> Option<Seq<char>> {
    match year {
        Some(y) => if y != "all"@ && y.len() == 4 && all_digits(y) {
            Some(y)
        } else {
            None
        },
        None => None,
    }
}

pub fn year_filter(year: &Option<String>) -> (r: Option<String>)
    ensures
        opt_view(r) == year_filter_spec(opt_view(*year)),
{
    match year {
        Some(y) => {
            let cs = chars_of(y.as_str());
            if str_eq(y.as_str(), "all") || cs.len() != 4 {
                return None;
            }
            let mut i: usize = 0;
            while i < 4
                invariant
                    cs@ == y@,
                    opt_view(*year) == Some(y@),
                    y@ != "all"@,
                    cs@.len() == 4,
                    i <= 4,
                    forall|k: int| 0 <= k < i ==> is_digit(#[trigger] cs@[k]),
                decreases 4 - i,
            {
                let c = cs[i];
                if !('0' <= c && c <= '9') {
                    proof {
                        assert(!is_digit(y@[i as int]));
                    }
                    return None;
                }
                i = i + 1;
            }
            proof {
                assert(all_digits(y@));
            }
            Some(owned(y.as_str()))
        },
        None => None,
    }
}

/// Inclusive date bounds of a year filter: the filtered year, or
/// `0000-01-01 ..= 9999-12-31` for every year.
pub fn year_bounds(filter: &Option<String>) -> (r: (String, String))
    ensures
        match *filter {
            Some(y) => r.0@ == y@ + "-01-01"@ && r.1@ == y@ + "-12-31"@,
            None => r.0@ == "0000-01-01"@ && r.1@ == "9999-12-31"@,
        },
{
    match filter {
        Some(y) => (year_start(y.as_str()), year_end(y.as_str())),
        None => (owned("0000-01-01"), owned("9999-12-31")),
    }
}

pub open spec fn year_option_view(o: YearOption) -> (Seq<char>, bool) {
    (o.year@, o.selected)
}

/// The year picker: every year in the given order, selected where it is
/// the chosen year.
pub fn year_options(years: Vec<String>, chosen: &Option<String>) -> (r: Vec<YearOption>)
    ensures
        r@.len() == years@.len(),
        forall|k: int|
            0 <= k < years@.len() ==> #[trigger] year_option_view(r@[k]) == (
                years@[k]@,
                opt_view(*chosen) == Some(years@[k]@),
            ),
{
    let mut out: Vec<YearOption> = Vec::new();
    let n = years.len();
    let mut i: usize = 0;
    while i < n
        invariant
            n == years@.len(),
            i <= n,
            out@.len() == i,
            forall|k: int|
                0 <= k < i ==> #[trigger] year_option_view(out@[k]) == (
                    years@[k]@,
                    opt_view(*chosen) == Some(years@[k]@),
                ),
        decreases n - i,
    {
        let y = &years[i];
        let selected = match chosen {
            Some(c) => str_eq(c.as_str(), y.as_str()),
            None => false,
        };
        out.push(YearOption { year: owned(y.as_str()), selected });
        i = i + 1;
    }
    out
}

pub open spec fn contains_view(v: Seq<String>, s: Seq<char>) -> bool {
    exists|k: int| 0 <= k < v.len() && #[trigger] v[k]@ == s
}

/// The expenses page's year: `all` when asked for or when the year asked
/// for has no expenses; otherwise that year.
pub open spec fn selected_year_spec(asked: Option<Seq<char>>, available: Seq<String>) -> Seq<char> {
    match asked {
        Some(y) => if y == "all"@ {
            "all"@
        } else if contains_view(available, y) {
            y
        } else {
            "all"@
        },
        None => "all"@,
    }
}

pub fn contains_string(v: &Vec<String>, s: &str) -> (r: bool)
    ensures
        r == contains_view(v@, s@),
{
    let n = v.len();
    let mut i: usize = 0;
    while i < n
        invariant
            n == v@.len(),
            i <= n,
            forall|k: int| 0 <= k < i ==> #[trigger] v@[k]@ != s@,
        decreases n - i,
    {
        if str_eq(v[i].as_str(), s) {
            return true;
        }
        i = i + 1;
    }
    false
}

pub fn selected_year(asked: &Option<String>, available: &Vec<String>) -> (r: String)
    ensures
        r@ == selected_year_spec(opt_view(*asked), available@),
{
    match asked {
        Some(y) => if str_eq(y.as_str(), "all") {
            owned("all")
        } else if contains_string(available, y.as_str()) {
            owned(y.as_str())
        } else {
            owned("all")
        },
        None => owned("all"),
    }
}

/// The expenses page's period: the selected year's bounds and label, or
/// every date and `all years`.
pub fn expense_period(selected: &str) -> (r: (String, String, String))
    ensures
        selected@ == "all"@ ==> r.0@ == "0000-01-01"@ && r.1@ == "9999-12-31"@ && r.2@
            == "all years"@,
        selected@ != "all"@ ==> r.0@ == selected@ + "-01-01"@ && r.1@ == selected@ + "-12-31"@
            && r.2@ == selected@,
{
    if str_eq(selected, "all") {
        (owned("0000-01-01"), owned("9999-12-31"), owned("all years"))
    } else {
        (year_start(selected), year_end(selected), owned(selected))
    }
}

/// The expenses page's year picker: each year, selected when it is the
/// selected year.
pub fn expense_year_options(years: Vec<String>, selected: &str) -> (r: Vec<YearOption>)
    ensures
        r@.len() == years@.len(),
        forall|k: int|
            0 <= k < years@.len() ==> #[trigger] year_option_view(r@[k]) == (
                years@[k]@,
                years@[k]@ == selected@,
            ),
{
    let mut out: Vec<YearOption> = Vec::new();
    let n = years.len();
    let mut i: usize = 0;
    while i < n
        invariant
            n == years@.len(),
            i <= n,
            out@.len() == i,
            forall|k: int|
                0 <= k < i ==> #[trigger] year_option_view(out@[k]) == (
                    years@[k]@,
                    years@[k]@ == selected@,
                ),
        decreases n - i,
    {
        let y = &years[i];
        out.push(YearOption { year: owned(y.as_str()), selected: str_eq(y.as_str(), selected) });
        i = i + 1;
    }
    out
}

/// The snapshot date the hub shows: the one asked for, else the newest
/// (first) of the listed dates, else none (empty).
pub fn selected_snapshot_date(asked: Option<String>, dates: &Vec<String>) -> (r: String)
    ensures
        r@ == (match asked {
            Some(d) => d@,
            None => if dates@.len() > 0 {
                dates@[0]@
            } else {
                Seq::<char>::empty()
            },
        }),
{
    match asked {
        Some(d) => d,
        None => if dates.len() > 0 {
            owned(dates[0].as_str())
        } else {
            String::new()
        },
    }
}

/// An asset row of the hub; absent texts show as empty.
pub struct AssetRow {
    pub id: i64,
    pub symbol: String,
    pub name: String,
    pub type_code: String,
    pub chain_code: String,
    pub risk_code: String,
    pub coingecko_id: String,
    pub yahoo_ticker: String,
    pub active: i64,
}

/// An account row of the hub; absent texts show as empty.
pub struct AccountRow {
    pub id: i64,
    pub name: String,
    pub type_code: String,
    pub institution: String,
    pub chain_code: String,
    pub active: i64,
    pub notes: String,
    pub role: String,
}

/// A category row of the hub, with its name under its parent's.
pub struct CategoryRow {
    pub id: i64,
    pub name: String,
    /// `Parent / Name` when the parent is known, else the name.
    pub display_name: String,
    pub parent_id: Option<i64>,
    pub color: String,
    pub active: i64,
}

/// A label row of the hub with its number of uses.
pub struct LabelRow {
    pub id: i64,
    pub name: String,
    pub color: String,
    pub active: i64,
    pub use_count: i64,
}

pub open spec fn or_empty(s: Option<Seq<char>>) -> Seq<char> {
    match s {
        Some(v) => v,
        None => Seq::empty(),
    }
}

pub fn unwrap_or_empty(s: Option<String>) -> (r: String)
    ensures
        r@ == or_empty(opt_view(s)),
{
    match s {
        Some(v) => v,
        None => String::new(),
    }
}

impl AssetRow {
    /// A row from the stored asset; absent texts become empty.
    pub fn from_asset(a: crate::records::Asset) -> (r: AssetRow)
        ensures
            r.id == a.id,
            r.symbol@ == a.symbol@,
            r.name@ == or_empty(opt_view(a.name)),
            r.type_code@ == a.type_code@,
            r.chain_code@ == or_empty(opt_view(a.chain_code)),
            r.risk_code@ == or_empty(opt_view(a.risk_code)),
            r.coingecko_id@ == or_empty(opt_view(a.coingecko_id)),
            r.yahoo_ticker@ == or_empty(opt_view(a.yahoo_ticker)),
            r.active == a.active,
    {
        AssetRow {
            id: a.id,
            symbol: a.symbol,
            name: unwrap_or_empty(a.name),
            type_code: a.type_code,
            chain_code: unwrap_or_empty(a.chain_code),
            risk_code: unwrap_or_empty(a.risk_code),
            coingecko_id: unwrap_or_empty(a.coingecko_id),
            yahoo_ticker: unwrap_or_empty(a.yahoo_ticker),
            active: a.active,
        }
    }
}

impl AccountRow {
    /// A row from the stored account and its role; absent texts become
    /// empty.
    pub fn from_account(a: crate::records::AccountOut) -> (r: AccountRow)
        ensures
            r.id == a.id,
            r.name@ == a.name@,
            r.type_code@ == a.type_code@,
            r.institution@ == or_empty(opt_view(a.institution)),
            r.chain_code@ == or_empty(opt_view(a.chain_code)),
            r.active == a.active,
            r.notes@ == or_empty(opt_view(a.notes)),
            r.role@ == a.role@,
    {
        AccountRow {
            id: a.id,
            name: a.name,
            type_code: a.type_code,
            institution: unwrap_or_empty(a.institution),
            chain_code: unwrap_or_empty(a.chain_code),
            active: a.active,
            notes: unwrap_or_empty(a.notes),
            role: a.role,
        }
    }
}

impl LabelRow {
    pub fn from_label(l: crate::records::LabelOut, use_count: i64) -> (r: LabelRow)
        ensures
            r.id == l.id,
            r.name@ == l.name@,
            r.color@ == or_empty(opt_view(l.color)),
            r.active == l.active,
            r.use_count == use_count,
    {
        LabelRow {
            id: l.id,
            name: l.name,
            color: unwrap_or_empty(l.color),
            active: l.active,
            use_count,
        }
    }
}

/// The rows the assets tab lists: all of them when no type is chosen
/// (empty), else those of the chosen type, in order.
pub open spec fn asset_filter_spec(rows: Seq<AssetRow>, chosen: Seq<char>) -> Seq<AssetRow> {
    rows.filter(|r: AssetRow| chosen.len() == 0 || r.type_code@ == chosen)
}

pub fn filter_assets(rows: Vec<AssetRow>, chosen: &str) -> (r: Vec<AssetRow>)
    ensures
        r@ == asset_filter_spec(rows@, chosen@),
{
    let ghost keep = |r: AssetRow| chosen@.len() == 0 || r.type_code@ == chosen@;
    let all = chosen.unicode_len() == 0;
    let mut out: Vec<AssetRow> = Vec::new();
    let ghost orig = rows@;
    let n = rows.len();
    let mut taken = into_reversed(rows);
    let mut i: usize = 0;
    while taken.len() > 0
        invariant
            n == orig.len(),
            i + taken@.len() == n,
            forall|k: int| 0 <= k < taken@.len() ==> #[trigger] taken@[k] == orig[n - 1 - k],
            out@ == orig.take(i as int).filter(keep),
            all == (chosen@.len() == 0),
            forall|x: AssetRow| #[trigger] keep(x) == (chosen@.len() == 0 || x.type_code@ == chosen@),
        decreases taken@.len(),
    {
        let r = taken.pop().unwrap();
        proof {
            lemma_filter_take_step(orig, i as int, keep);
        }
        let matches = all || str_eq(r.type_code.as_str(), chosen);
        assert(matches == keep(r));
        if matches {
            out.push(r);
        }
        i = i + 1;
    }
    proof {
        assert(orig.take(n as int) =~= orig);
    }
    out
}

/// A stored category: id, name, parent, colour, active flag.
pub struct CategoryRecord {
    pub id: i64,
    pub name: String,
    pub parent_id: Option<i64>,
    pub color: Option<String>,
    pub active: i64,
}

/// The name of the last category in `cats` with id `id`, if any.
pub open spec fn name_of(cats: Seq<CategoryRecord>, id: i64) -> Option<Seq<char>>
    decreases cats.len(),
{
    if cats.len() == 0 {
        None
    } else if cats.last().id == id {
        Some(cats.last().name@)
    } else {
        name_of(cats.drop_last(), id)
    }
}

/// A category's name as the hub shows it: `Parent / Name` when its parent
/// is among the categories, else the bare name.
pub open spec fn display_name_spec(cats: Seq<CategoryRecord>, c: CategoryRecord) -> Seq<char> {
    match c.parent_id {
        Some(p) => match name_of(cats, p) {
            Some(pn) => pn + " / "@ + c.name@,
            None => c.name@,
        },
        None => c.name@,
    }
}

fn find_name(cats: &Vec<CategoryRecord>, id: i64) -> (r: Option<&String>)
    ensures
        match r {
            Some(s) => name_of(cats@, id) == Some(s@),
            None => name_of(cats@, id) is None,
        },
{
    let mut i = cats.len();
    proof {
        assert(cats@.take(cats@.len() as int) =~= cats@);
    }
    while i > 0
        invariant
            i <= cats@.len(),
            name_of(cats@, id) == name_of(cats@.take(i as int), id),
        decreases i,
    {
        proof {
            assert(cats@.take(i as int).last() == cats@[i - 1]);
            assert(cats@.take(i as int).drop_last() =~= cats@.take(i - 1));
        }
        if cats[i - 1].id == id {
            return Some(&cats[i - 1].name);
        }
        i = i - 1;
    }
    None
}

pub open spec fn category_row_matches(r: CategoryRow, cats: Seq<CategoryRecord>, c: CategoryRecord) -> bool {
    &&& r.id == c.id
    &&& r.name@ == c.name@
    &&& r.display_name@ == display_name_spec(cats, c)
    &&& r.parent_id == c.parent_id
    &&& r.color@ == or_empty(opt_view(c.color))
    &&& r.active == c.active
}

/// The category rows of the hub, in the given order.
pub fn category_rows(cats: &Vec<CategoryRecord>) -> (r: Vec<CategoryRow>)
    ensures
        r@.len() == cats@.len(),
        forall|k: int| 0 <= k < cats@.len() ==> #[trigger] category_row_matches(r@[k], cats@, cats@[k]),
{
    let mut out: Vec<CategoryRow> = Vec::new();
    let n = cats.len();
    let mut i: usize = 0;
    while i < n
        invariant
            n == cats@.len(),
            i <= n,
            out@.len() == i,
            forall|k: int| 0 <= k < i ==> #[trigger] category_row_matches(out@[k], cats@, cats@[k]),
        decreases n - i,
    {
        let c = &cats[i];
        let display_name = match c.parent_id {
            Some(p) => match find_name(cats, p) {
                Some(pn) => crate::text::concat3(pn.as_str(), " / ", c.name.as_str()),
                None => owned(c.name.as_str()),
            },
            None => owned(c.name.as_str()),
        };
        let color = match &c.color {
            Some(col) => owned(col.as_str()),
            None => String::new(),
        };
        out.push(
            CategoryRow {
                id: c.id,
                name: owned(c.name.as_str()),
                display_name,
                parent_id: c.parent_id,
                color,
                active: c.active,
            },
        );
        i = i + 1;
    }
    out
}

/// The currencies offered: `USD` first unless it is already among the
/// codes that have rates, then those codes in order.
pub open spec fn currency_codes_spec(codes: Seq<String>) -> Seq<Seq<char>> {
    let vs = codes.map_values(|c: String| c@);
    if contains_view(codes, "USD"@) {
        vs
    } else {
        seq!["USD"@] + vs
    }
}

pub open spec fn currency_option_view(o: CurrencyOption) -> (Seq<char>, Seq<char>, bool) {
    (o.code@, o.label@, o.selected)
}

/// The settings dropdown: one option per offered currency, with its label,
/// selected where it is the display currency.
pub fn currency_options(codes: Vec<String>, display: &str) -> (r: Vec<CurrencyOption>)
    ensures
        r@.len() == currency_codes_spec(codes@).len(),
        forall|k: int|
            0 <= k < r@.len() ==> #[trigger] currency_option_view(r@[k]) == (
                currency_codes_spec(codes@)[k],
                currency_label_spec(currency_codes_spec(codes@)[k]),
                currency_codes_spec(codes@)[k] == display@,
            ),
{
    let ghost all = currency_codes_spec(codes@);
    let has_usd = contains_string(&codes, "USD");
    let mut out: Vec<CurrencyOption> = Vec::new();
    let ghost offset: int = if has_usd {
        0
    } else {
        1
    };
    if !has_usd {
        out.push(
            CurrencyOption {
                code: owned("USD"),
                label: currency_label("USD"),
                selected: str_eq("USD", display),
            },
        );
    }
    let n = codes.len();
    let mut i: usize = 0;
    while i < n
        invariant
            n == codes@.len(),
            all == currency_codes_spec(codes@),
            has_usd == contains_view(codes@, "USD"@),
            offset == (if has_usd {
                0int
            } else {
                1int
            }),
            all.len() == n + offset,
            i <= n,
            out@.len() == i + offset,
            forall|k: int|
                0 <= k < out@.len() ==> #[trigger] currency_option_view(out@[k]) == (
                    all[k],
                    currency_label_spec(all[k]),
                    all[k] == display@,
                ),
        decreases n - i,
    {
        let c = &codes[i];
        proof {
            assert(all[i + offset] == c@);
        }
        out.push(
            CurrencyOption {
                code: owned(c.as_str()),
                label: currency_label(c.as_str()),
                selected: str_eq(c.as_str(), display),
            },
        );
        i = i + 1;
    }
    out
}


/// The accounts page's sections: investment accounts, operating accounts,
/// each in the given order; containers of property are listed with the
/// owned assets instead.
pub open spec fn role_section(accounts: Seq<AccountOut>, role: Seq<char>) -> Seq<AccountOut> {
    accounts.filter(|a: AccountOut| a.role@ == role)
}

pub struct AccountSections {
    pub investments: Vec<AccountOut>,
    pub operating: Vec<AccountOut>,
    /// How many active accounts there are, in every section.
    pub total_account_count: usize,
}

pub fn split_by_role(accounts: Vec<AccountOut>) -> (r: AccountSections)
    ensures
        r.investments@ == role_section(accounts@, "investment"@),
        r.operating@ == role_section(accounts@, "operating"@),
        r.total_account_count == accounts@.len(),
{
    let ghost inv = |a: AccountOut| a.role@ == "investment"@;
    let ghost ops = |a: AccountOut| a.role@ == "operating"@;
    let ghost orig = accounts@;
    let n = accounts.len();
    let mut taken = into_reversed(accounts);
    let mut investments: Vec<AccountOut> = Vec::new();
    let mut operating: Vec<AccountOut> = Vec::new();
    let mut i: usize = 0;
    while taken.len() > 0
        invariant
            n == orig.len(),
            i + taken@.len() == n,
            forall|k: int| 0 <= k < taken@.len() ==> #[trigger] taken@[k] == orig[n - 1 - k],
            investments@ == orig.take(i as int).filter(inv),
            operating@ == orig.take(i as int).filter(ops),
            forall|x: AccountOut| #[trigger] inv(x) == (x.role@ == "investment"@),
            forall|x: AccountOut| #[trigger] ops(x) == (x.role@ == "operating"@),
        decreases taken@.len(),
    {
        let a = taken.pop().unwrap();
        proof {
            lemma_filter_take_step(orig, i as int, inv);
            lemma_filter_take_step(orig, i as int, ops);
            reveal_strlit("investment");
            reveal_strlit("operating");
            assert("investment"@.len() != "operating"@.len());
        }
        if str_eq(a.role.as_str(), "investment") {
            assert(!ops(a));
            investments.push(a);
        } else if str_eq(a.role.as_str(), "operating") {
            operating.push(a);
        }
        i = i + 1;
    }
    proof {
        assert(orig.take(n as int) =~= orig);
    }
    AccountSections { investments, operating, total_account_count: n }
}


/// The expenses page never selects a year it has no expenses for: the
/// selection is `all` or one of the available years.
pub proof fn law_selected_year_available(asked: Option<Seq<char>>, available: Seq<String>)
    ensures
        selected_year_spec(asked, available) == "all"@ || contains_view(
            available,
            selected_year_spec(asked, available),
        ),
{
}

} // verus!
