use portfolio_tracker::records::{AccountOut, Asset};
use portfolio_tracker::views::{
    category_rows, contains_string, currency_options, expense_period, expense_year_options,
    filter_assets, selected_snapshot_date, selected_year, split_by_role, tab_flags, year_bounds,
    year_filter, year_options, AccountRow, AssetRow, CategoryRecord,
};

fn strings(v: &[&str]) -> Vec<String> {
    v.iter().map(|s| s.to_string()).collect()
}

fn asset(id: i64, symbol: &str, type_code: &str) -> Asset {
    Asset {
        id,
        symbol: symbol.to_string(),
        name: None,
        type_code: type_code.to_string(),
        chain_code: None,
        risk_code: Some("cat1_safe".to_string()),
        coingecko_id: None,
        yahoo_ticker: None,
        active: 1,
    }
}

fn account(id: i64, name: &str, role: &str) -> AccountOut {
    AccountOut {
        id,
        name: name.to_string(),
        type_code: "bank".to_string(),
        institution: None,
        chain_code: None,
        active: 1,
        notes: None,
        role: role.to_string(),
    }
}

#[test]
fn open_tab_defaults_to_assets() {
    let t = tab_flags(&None);
    assert!(t.is_assets && !t.is_expenses && !t.is_labels);
    let t = tab_flags(&Some("expenses".to_string()));
    assert!(t.is_expenses && !t.is_assets);
    let t = tab_flags(&Some("nope".to_string()));
    assert!(!t.is_assets && !t.is_snapshots && !t.is_positions && !t.is_accounts);
    assert!(!t.is_income && !t.is_expenses && !t.is_targets && !t.is_categories && !t.is_labels);
}

#[test]
fn year_filter_takes_four_digits_only() {
    assert_eq!(year_filter(&Some("2025".to_string())), Some("2025".to_string()));
    assert_eq!(year_filter(&Some("all".to_string())), None);
    assert_eq!(year_filter(&Some("20x5".to_string())), None);
    assert_eq!(year_filter(&Some("202".to_string())), None);
    assert_eq!(year_filter(&None), None);
    assert_eq!(year_bounds(&Some("2025".to_string())), ("2025-01-01".to_string(), "2025-12-31".to_string()));
    assert_eq!(year_bounds(&None), ("0000-01-01".to_string(), "9999-12-31".to_string()));
}

#[test]
fn year_picker_selects_the_chosen_year() {
    let opts = year_options(strings(&["2026", "2025", "2024"]), &Some("2025".to_string()));
    let got: Vec<(String, bool)> = opts.into_iter().map(|o| (o.year, o.selected)).collect();
    assert_eq!(
        got,
        vec![("2026".to_string(), false), ("2025".to_string(), true), ("2024".to_string(), false)]
    );
    let opts = year_options(strings(&["2026"]), &None);
    assert!(!opts[0].selected);
}

#[test]
fn expenses_year_is_all_unless_it_has_expenses() {
    let years = strings(&["2026", "2025"]);
    assert!(contains_string(&years, "2025"));
    assert!(!contains_string(&years, "2019"));
    assert_eq!(selected_year(&Some("2025".to_string()), &years), "2025");
    assert_eq!(selected_year(&Some("2019".to_string()), &years), "all");
    assert_eq!(selected_year(&Some("all".to_string()), &years), "all");
    assert_eq!(selected_year(&None, &years), "all");
    assert_eq!(
        expense_period("all"),
        ("0000-01-01".to_string(), "9999-12-31".to_string(), "all years".to_string())
    );
    assert_eq!(
        expense_period("2025"),
        ("2025-01-01".to_string(), "2025-12-31".to_string(), "2025".to_string())
    );
    let opts = expense_year_options(years, "2026");
    assert!(opts[0].selected && !opts[1].selected);
}

#[test]
fn snapshot_date_defaults_to_newest() {
    let dates = strings(&["2026-04-01", "2026-03-01"]);
    assert_eq!(selected_snapshot_date(None, &dates), "2026-04-01");
    assert_eq!(selected_snapshot_date(Some("2026-03-01".to_string()), &dates), "2026-03-01");
    assert_eq!(selected_snapshot_date(None, &vec![]), "");
}

#[test]
fn asset_rows_and_type_filter() {
    let rows: Vec<AssetRow> = vec![asset(1, "BTC", "crypto"), asset(2, "VOO", "stock"), asset(3, "SOL", "crypto")]
        .into_iter()
        .map(AssetRow::from_asset)
        .collect();
    assert_eq!(rows[0].name, "");
    assert_eq!(rows[0].risk_code, "cat1_safe");
    let crypto = filter_assets(rows, "crypto");
    let ids: Vec<i64> = crypto.iter().map(|r| r.id).collect();
    assert_eq!(ids, vec![1, 3]);
    let all = filter_assets(crypto, "");
    assert_eq!(all.len(), 2);
}

#[test]
fn account_rows_and_sections() {
    let a = account(5, "Citi", "operating");
    let row = AccountRow::from_account(account(5, "Citi", "operating"));
    assert_eq!((row.id, row.name.as_str(), row.institution.as_str(), row.role.as_str()), (5, "Citi", "", "operating"));
    let s = split_by_role(vec![
        account(1, "Broker", "investment"),
        a,
        account(3, "Garage", "property"),
        account(4, "Exchange", "investment"),
    ]);
    let inv: Vec<i64> = s.investments.iter().map(|a| a.id).collect();
    let ops: Vec<i64> = s.operating.iter().map(|a| a.id).collect();
    assert_eq!(inv, vec![1, 4]);
    assert_eq!(ops, vec![5]);
    assert_eq!(s.total_account_count, 4);
}

#[test]
fn category_rows_show_parent_names() {
    let cats = vec![
        CategoryRecord { id: 1, name: "Food".to_string(), parent_id: None, color: Some("#c0392b".to_string()), active: 1 },
        CategoryRecord { id: 2, name: "Sushi".to_string(), parent_id: Some(1), color: None, active: 1 },
        CategoryRecord { id: 3, name: "Orphan".to_string(), parent_id: Some(99), color: None, active: 0 },
    ];
    let rows = category_rows(&cats);
    let names: Vec<String> = rows.iter().map(|r| r.display_name.clone()).collect();
    assert_eq!(names, strings(&["Food", "Food / Sushi", "Orphan"]));
    assert_eq!(rows[0].color, "#c0392b");
    assert_eq!(rows[1].color, "");
}

#[test]
fn currency_dropdown_starts_with_usd() {
    let opts = currency_options(strings(&["EUR", "PYG"]), "EUR");
    let got: Vec<(String, String, bool)> =
        opts.into_iter().map(|o| (o.code, o.label, o.selected)).collect();
    assert_eq!(
        got,
        vec![
            ("USD".to_string(), "USD — US Dollar".to_string(), false),
            ("EUR".to_string(), "EUR — Euro".to_string(), true),
            ("PYG".to_string(), "PYG — Paraguayan Guaraní".to_string(), false),
        ]
    );
    let opts = currency_options(strings(&["GBP", "USD"]), "USD");
    let codes: Vec<String> = opts.iter().map(|o| o.code.clone()).collect();
    assert_eq!(codes, strings(&["GBP", "USD"]));
    assert!(opts[1].selected);
}
