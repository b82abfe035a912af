use portfolio_tracker::forms::{
    account_record, category_record, checkbox_flag, display_currency_choice, is_selected,
    label_record, mode_or_default, non_empty, nullable, positive_id, redirect_or, AccountForm,
    CategoryForm, LabelForm,
};
use portfolio_tracker::taxonomy::{
    category_for_type, currency_label, display_category, holding_category, humanize_cat,
    investment_flag, is_growth, is_safety, is_working_capital, role_or_default,
};

#[test]
fn asset_types_map_to_categories() {
    assert_eq!(category_for_type("stock"), "stocks");
    assert_eq!(category_for_type("stable"), "stable_yielding");
    assert_eq!(category_for_type("crypto"), "crypto");
    assert_eq!(category_for_type("nft"), "crypto");
    assert_eq!(category_for_type("fiat"), "cash");
    assert_eq!(category_for_type("owned"), "owned");
}

#[test]
fn holdings_in_the_car_account_are_car() {
    assert_eq!(holding_category("Car", "fiat"), "car");
    assert_eq!(holding_category("Broker", "stock"), "stocks");
}

#[test]
fn display_groups_follow_role_then_type() {
    assert_eq!(display_category("operating", "stock"), "Operating");
    assert_eq!(display_category("property", "fiat"), "Property");
    assert_eq!(display_category("investment", "stock"), "Stocks");
    assert_eq!(display_category("investment", "stable"), "Stable Yielding");
    assert_eq!(display_category("investment", "nft"), "Crypto");
    assert_eq!(display_category("investment", "fiat"), "Cash");
    assert_eq!(display_category("investment", "bond"), "bond");
}

#[test]
fn categories_have_human_names() {
    assert_eq!(humanize_cat("stable_yielding"), "Stables");
    assert_eq!(humanize_cat("stocks"), "Stocks");
    assert_eq!(humanize_cat("crypto"), "Crypto");
    assert_eq!(humanize_cat("cash"), "Cash");
    assert_eq!(humanize_cat("car"), "Car");
    assert_eq!(humanize_cat("bonds"), "bonds");
}

#[test]
fn category_families() {
    assert!(is_growth("stocks") && is_growth("crypto") && !is_growth("cash"));
    assert!(is_safety("cash") && is_safety("stable_yielding") && !is_safety("crypto"));
    assert!(is_working_capital("stable_yielding") && !is_working_capital("cash"));
}

#[test]
fn roles_default_to_investment() {
    assert_eq!(role_or_default(Some("operating")), "operating");
    assert_eq!(role_or_default(Some("property")), "property");
    assert_eq!(role_or_default(Some("bogus")), "investment");
    assert_eq!(role_or_default(None), "investment");
}

#[test]
fn investment_checkbox() {
    assert_eq!(investment_flag(&None), 1);
    assert_eq!(investment_flag(&Some("on".to_string())), 1);
    assert_eq!(investment_flag(&Some("0".to_string())), 0);
    assert_eq!(investment_flag(&Some("false".to_string())), 0);
}

#[test]
fn currency_labels() {
    assert_eq!(currency_label("USD"), "USD — US Dollar");
    assert_eq!(currency_label("EUR"), "EUR — Euro");
    assert_eq!(currency_label("GBP"), "GBP — British Pound");
    assert_eq!(currency_label("PYG"), "PYG — Paraguayan Guaraní");
    assert_eq!(currency_label("JPY"), "JPY");
}

#[test]
fn empty_fields_become_null() {
    assert_eq!(nullable(&Some(String::new())), None);
    assert_eq!(nullable(&Some("sol".to_string())), Some("sol"));
    assert_eq!(nullable(&None), None);
    assert_eq!(non_empty(Some(String::new())), None);
    assert_eq!(non_empty(Some("#fff".to_string())), Some("#fff".to_string()));
}

#[test]
fn dropdown_ids_and_checkboxes() {
    assert_eq!(positive_id(Some(0)), None);
    assert_eq!(positive_id(Some(-3)), None);
    assert_eq!(positive_id(Some(4)), Some(4));
    assert_eq!(positive_id(None), None);
    assert_eq!(checkbox_flag(&Some("on".to_string())), 1);
    assert_eq!(checkbox_flag(&Some(String::new())), 1);
    assert_eq!(checkbox_flag(&None), 0);
}

#[test]
fn defaults_of_choices() {
    assert_eq!(mode_or_default(None), "crab");
    assert_eq!(mode_or_default(Some("bull")), "bull");
    assert_eq!(redirect_or(None, "/expenses"), "/expenses");
    assert_eq!(redirect_or(Some("/data?tab=expenses"), "/expenses"), "/data?tab=expenses");
}

#[test]
fn account_form_is_cleaned() {
    let f = AccountForm {
        name: "Wise".to_string(),
        type_code: "bank".to_string(),
        institution: Some(String::new()),
        chain_code: Some(String::new()),
        notes: Some("EUR pot".to_string()),
        is_investment: Some("false".to_string()),
    };
    let r = account_record(&f);
    assert_eq!(r.name, "Wise");
    assert_eq!(r.type_code, "bank");
    assert_eq!(r.institution, None);
    assert_eq!(r.chain_code, None);
    assert_eq!(r.notes, Some("EUR pot".to_string()));
    assert_eq!(r.is_investment, 0);
}

#[test]
fn category_and_label_forms_are_cleaned() {
    let (name, parent, color) = category_record(CategoryForm {
        name: "Food".to_string(),
        parent_id: Some(0),
        color: Some(String::new()),
    });
    assert_eq!(name, "Food");
    assert_eq!(parent, None);
    assert_eq!(color, None);
    let (name, parent, color) = category_record(CategoryForm {
        name: "Sushi".to_string(),
        parent_id: Some(2),
        color: Some("#c0392b".to_string()),
    });
    assert_eq!((name.as_str(), parent, color.as_deref()), ("Sushi", Some(2), Some("#c0392b")));
    let (name, color) = label_record(LabelForm { name: "trip".to_string(), color: None });
    assert_eq!((name.as_str(), color), ("trip", None));
}

#[test]
fn display_currency_is_trimmed_and_upper_cased() {
    assert_eq!(display_currency_choice("  eur "), Ok("EUR".to_string()));
    assert_eq!(display_currency_choice("Pyg"), Ok("PYG".to_string()));
    assert_eq!(
        display_currency_choice("   "),
        Err("display_currency cannot be empty".to_string())
    );
    assert_eq!(display_currency_choice(""), Err("display_currency cannot be empty".to_string()));
    assert_eq!(display_currency_choice("\t\n"), Err("display_currency cannot be empty".to_string()));
    assert_eq!(display_currency_choice(" ß "), Ok("SS".to_string()));
    assert!(is_selected("EUR", "EUR"));
    assert!(!is_selected("EUR", "USD"));
}
