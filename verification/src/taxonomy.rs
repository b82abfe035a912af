//! How holdings are grouped: asset types into allocation categories, account
//! roles into display groups, and the labels the pages show for them.

use vstd::prelude::*;
use crate::text::{owned, str_eq};

verus! {

/// Allocation category of an asset type: `stock` is `stocks`, `stable` is
/// `stable_yielding`, `crypto` and `nft` are `crypto`, `fiat` is `cash`;
/// any other type code is its own category.
pub open spec fn category_of_type(type_code: Seq<char>) -> Seq<char> {
    if type_code == "stock"@ {
        "stocks"@
    } else if type_code == "stable"@ {
        "stable_yielding"@
    } else if type_code == "crypto"@ || type_code == "nft"@ {
        "crypto"@
    } else if type_code == "fiat"@ {
        "cash"@
    } else {
        type_code
    }
}

/// Allocation category of an asset type (see `category_of_type`).
pub fn category_for_type(type_code: &str) -> (r: String)
    ensures
        r@ == category_of_type(type_code@),
{
    if str_eq(type_code, "stock") {
        owned("stocks")
    } else if str_eq(type_code, "stable") {
        owned("stable_yielding")
    } else if str_eq(type_code, "crypto") || str_eq(type_code, "nft") {
        owned("crypto")
    } else if str_eq(type_code, "fiat") {
        owned("cash")
    } else {
        owned(type_code)
    }
}

/// Category of one holding on the wealth table: everything in the account
/// named `Car` is `car`; otherwise the category of its asset type.
pub open spec fn holding_category_spec(account_name: Seq<char>, type_code: Seq<char>) -> Seq<char> {
    if account_name == "Car"@ {
        "car"@
    } else {
        category_of_type(type_code)
    }
}

pub fn holding_category(account_name: &str, type_code: &str) -> (r: String)
    ensures
        r@ == holding_category_spec(account_name@, type_code@),
{
    if str_eq(account_name, "Car") {
        owned("car")
    } else {
        category_for_type(type_code)
    }
}

/// Net-worth chart group: accounts with role `operating` are `Operating`,
/// role `property` is `Property`; investment holdings go by asset type
/// (`Stocks`, `Stable Yielding`, `Crypto` for crypto and nft, `Cash` for
/// fiat, any other type code as it is).
pub open spec fn display_category_spec(role: Seq<char>, type_code: Seq<char>) -> Seq<char> {
    if role == "operating"@ {
        "Operating"@
    } else if role == "property"@ {
        "Property"@
    } else if type_code == "stock"@ {
        "Stocks"@
    } else if type_code == "stable"@ {
        "Stable Yielding"@
    } else if type_code == "crypto"@ || type_code == "nft"@ {
        "Crypto"@
    } else if type_code == "fiat"@ {
        "Cash"@
    } else {
        type_code
    }
}

pub fn display_category(role: &str, type_code: &str) -> (r: String)
    ensures
        r@ == display_category_spec(role@, type_code@),
{
    if str_eq(role, "operating") {
        owned("Operating")
    } else if str_eq(role, "property") {
        owned("Property")
    } else if str_eq(type_code, "stock") {
        owned("Stocks")
    } else if str_eq(type_code, "stable") {
        owned("Stable Yielding")
    } else if str_eq(type_code, "crypto") || str_eq(type_code, "nft") {
        owned("Crypto")
    } else if str_eq(type_code, "fiat") {
        owned("Cash")
    } else {
        owned(type_code)
    }
}

/// Human label of an allocation category.
pub open spec fn humanize_cat_spec(c: Seq<char>) -> Seq<char> {
    if c == "stable_yielding"@ {
        "Stables"@
    } else if c == "stocks"@ {
        "Stocks"@
    } else if c == "crypto"@ {
        "Crypto"@
    } else if c == "cash"@ {
        "Cash"@
    } else if c == "car"@ {
        "Car"@
    } else {
        c
    }
}

pub fn humanize_cat(c: &str) -> (r: String)
    ensures
        r@ == humanize_cat_spec(c@),
{
    if str_eq(c, "stable_yielding") {
        owned("Stables")
    } else if str_eq(c, "stocks") {
        owned("Stocks")
    } else if str_eq(c, "crypto") {
        owned("Crypto")
    } else if str_eq(c, "cash") {
        owned("Cash")
    } else if str_eq(c, "car") {
        owned("Car")
    } else {
        owned(c)
    }
}

/// Growth categories gain in a bull market.
pub open spec fn is_growth_spec(c: Seq<char>) -> bool {
    c == "stocks"@ || c == "crypto"@
}

/// Safety categories hold value in a bear market.
pub open spec fn is_safety_spec(c: Seq<char>) -> bool {
    c == "cash"@ || c == "stable_yielding"@
}

/// Working capital: the categories counted as deployed (stocks, crypto and
/// yielding stables) in the deployment ratio.
pub open spec fn is_working_capital_spec(c: Seq<char>) -> bool {
    c == "stocks"@ || c == "crypto"@ || c == "stable_yielding"@
}

pub fn is_growth(c: &str) -> (r: bool)
    ensures
        r == is_growth_spec(c@),
{
    str_eq(c, "stocks") || str_eq(c, "crypto")
}

pub fn is_safety(c: &str) -> (r: bool)
    ensures
        r == is_safety_spec(c@),
{
    str_eq(c, "cash") || str_eq(c, "stable_yielding")
}

pub fn is_working_capital(c: &str) -> (r: bool)
    ensures
        r == is_working_capital_spec(c@),
{
    str_eq(c, "stocks") || str_eq(c, "crypto") || str_eq(c, "stable_yielding")
}

/// The role an account is stored with: `operating` and `property` are kept,
/// anything else (or nothing) is `investment`.
pub open spec fn role_spec(raw: Option<Seq<char>>) -> Seq<char> {
    match raw {
        Some(r) => if r == "operating"@ {
            "operating"@
        } else if r == "property"@ {
            "property"@
        } else {
            "investment"@
        },
        None => "investment"@,
    }
}

pub open spec fn opt_view(raw: Option<&str>) -> Option<Seq<char>> {
    match raw {
        Some(r) => Some(r@),
        None => None,
    }
}

pub fn role_or_default(raw: Option<&str>) -> (r: &'static str)
    ensures
        r@ == role_spec(opt_view(raw)),
{
    match raw {
        Some(s) => if str_eq(s, "operating") {
            "operating"
        } else if str_eq(s, "property") {
            "property"
        } else {
            "investment"
        },
        None => "investment",
    }
}

pub open spec fn opt_string_view(raw: &Option<String>) -> Option<Seq<char>> {
    match raw {
        Some(r) => Some(r@),
        None => None,
    }
}

/// The account form's investment checkbox: an explicit `"0"` or `"false"`
/// marks an owned (non-investment) account; anything else, and an absent
/// field, means investment.
pub open spec fn investment_flag_spec(raw: Option<Seq<char>>) -> i64 {
    match raw {
        Some(r) => if r == "0"@ || r == "false"@ {
            0
        } else {
            1
        },
        None => 1,
    }
}

pub fn investment_flag(raw: &Option<String>) -> (r: i64)
    ensures
        r == investment_flag_spec(opt_string_view(raw)),
{
    match raw {
        Some(s) => if str_eq(s.as_str(), "0") || str_eq(s.as_str(), "false") {
            0
        } else {
            1
        },
        None => 1,
    }
}

/// Dropdown label of a currency code.
pub open spec fn currency_label_spec(code: Seq<char>) -> Seq<char> {
    if code == "USD"@ {
        "USD — US Dollar"@
    } else if code == "EUR"@ {
        "EUR — Euro"@
    } else if code == "GBP"@ {
        "GBP — British Pound"@
    } else if code == "PYG"@ {
        "PYG — Paraguayan Guaraní"@
    } else {
        code
    }
}

pub fn currency_label(code: &str) -> (r: String)
    ensures
        r@ == currency_label_spec(code@),
{
    if str_eq(code, "USD") {
        owned("USD — US Dollar")
    } else if str_eq(code, "EUR") {
        owned("EUR — Euro")
    } else if str_eq(code, "GBP") {
        owned("GBP — British Pound")
    } else if str_eq(code, "PYG") {
        owned("PYG — Paraguayan Guaraní")
    } else {
        owned(code)
    }
}

} // verus!
