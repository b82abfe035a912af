//! What the HTML forms and JSON bodies send, and how it is cleaned before
//! it is stored: empty fields become NULL, unset ids are dropped, checkbox
//! values become flags, and missing choices take their defaults.

use vstd::prelude::*;
use crate::taxonomy::{investment_flag, investment_flag_spec, opt_string_view};
use crate::text::{owned, str_eq};

verus! {

/// The account editor's fields.
pub struct AccountForm {
    pub name: String,
    pub type_code: String,
    pub institution: Option<String>,
    pub chain_code: Option<String>,
    pub notes: Option<String>,
    /// Checkbox value: present when checked, absent when unchecked.
    pub is_investment: Option<String>,
}

/// The category editor's fields.
pub struct CategoryForm {
    pub name: String,
    pub parent_id: Option<i64>,
    pub color: Option<String>,
}

/// The label editor's fields.
pub struct LabelForm {
    pub name: String,
    pub color: Option<String>,
}

/// An optional text that is dropped when empty.
pub open spec fn nonempty_spec(s: Option<Seq<char>>) -> Option<Seq<char>> {
    match s {
        Some(v) => if v.len() == 0 {
            None
        } else {
            Some(v)
        },
        None => None,
    }
}

pub open spec fn opt_str_view(s: Option<&str>) -> Option<Seq<char>> {
    match s {
        Some(v) => Some(v@),
        None => None,
    }
}

/// An empty form field is NULL (an empty `chain_code` would break its
/// foreign key).
pub fn nullable(s: &Option<String>) -> (r: Option<&str>)
    ensures
        opt_str_view(r) == nonempty_spec(opt_string_view(s)),
{
    match s {
        Some(v) => if v.as_str().unicode_len() == 0 {
            None
        } else {
            Some(v.as_str())
        },
        None => None,
    }
}

/// The same for an owned optional text.
pub fn non_empty(s: Option<String>) -> (r: Option<String>)
    ensures
        opt_string_view(&r) == nonempty_spec(opt_string_view(&s)),
{
    match s {
        Some(v) => if v.as_str().unicode_len() == 0 {
            None
        } else {
            Some(v)
        },
        None => None,
    }
}

/// An id picked in a dropdown: only a positive id names a row; an empty
/// choice arrives as 0 or nothing.
pub fn positive_id(id: Option<i64>) -> (r: Option<i64>)
    ensures
        r == (match id {
            Some(v) => if v > 0 {
                Some(v)
            } else {
                None
            },
            None => None,
        }),
{
    match id {
        Some(v) => if v > 0 {
            Some(v)
        } else {
            None
        },
        None => None,
    }
}

/// A checkbox that stores 1 when sent (whatever its value) and 0 when not.
pub fn checkbox_flag(raw: &Option<String>) -> (r: i64)
    ensures
        r == (if raw is Some {
            1i64
        } else {
            0i64
        }),
{
    match raw {
        Some(_) => 1,
        None => 0,
    }
}

/// The market mode of a new target; `crab` when none is chosen.
pub fn mode_or_default(mode: Option<&str>) -> (r: &str)
    ensures
        r@ == (match mode {
            Some(m) => m@,
            None => "crab"@,
        }),
{
    match mode {
        Some(m) => m,
        None => "crab",
    }
}

/// Where to go after a form post: the `redirect` the form names, or the
/// page's own default.
pub fn redirect_or<'a>(redirect: Option<&'a str>, fallback: &'a str) -> (r: &'a str)
    ensures
        r@ == (match redirect {
            Some(t) => t@,
            None => fallback@,
        }),
{
    match redirect {
        Some(t) => t,
        None => fallback,
    }
}

/// An account as the account form stores it.
pub struct AccountRecord {
    pub name: String,
    pub type_code: String,
    pub institution: Option<String>,
    pub chain_code: Option<String>,
    pub notes: Option<String>,
    pub is_investment: i64,
}

/// Cleans an account form: empty optional fields become NULL, and the
/// checkbox becomes the investment flag (`investment_flag`).
pub fn account_record(f: &AccountForm) -> (r: AccountRecord)
    ensures
        r.name@ == f.name@,
        r.type_code@ == f.type_code@,
        opt_string_view(&r.institution) == nonempty_spec(opt_string_view(&f.institution)),
        opt_string_view(&r.chain_code) == nonempty_spec(opt_string_view(&f.chain_code)),
        opt_string_view(&r.notes) == nonempty_spec(opt_string_view(&f.notes)),
        r.is_investment == investment_flag_spec(opt_string_view(&f.is_investment)),
{
    AccountRecord {
        name: owned(f.name.as_str()),
        type_code: owned(f.type_code.as_str()),
        institution: opt_owned(nullable(&f.institution)),
        chain_code: opt_owned(nullable(&f.chain_code)),
        notes: opt_owned(nullable(&f.notes)),
        is_investment: investment_flag(&f.is_investment),
    }
}

fn opt_owned(s: Option<&str>) -> (r: Option<String>)
    ensures
        opt_string_view(&r) == opt_str_view(s),
{
    match s {
        Some(v) => Some(owned(v)),
        None => None,
    }
}

/// A category as the category form stores it: no parent unless a positive
/// id is chosen, no colour unless one is given.
pub fn category_record(f: CategoryForm) -> (r: (String, Option<i64>, Option<String>))
    ensures
        r.0@ == f.name@,
        r.1 == (match f.parent_id {
            Some(v) => if v > 0 {
                Some(v)
            } else {
                None
            },
            None => None,
        }),
        opt_string_view(&r.2) == nonempty_spec(opt_string_view(&f.color)),
{
    (f.name, positive_id(f.parent_id), non_empty(f.color))
}

/// A label as the label form stores it: no colour unless one is given.
pub fn label_record(f: LabelForm) -> (r: (String, Option<String>))
    ensures
        r.0@ == f.name@,
        opt_string_view(&r.1) == nonempty_spec(opt_string_view(&f.color)),
{
    (f.name, non_empty(f.color))
}

/// The display currency a settings form asks for: refused when the entry
/// is blank (nothing but white space), else the trimmed entry in capitals.
pub fn display_currency_choice(entry: &str) -> (r: Result<String, String>)
    ensures
        match r {
            Ok(code) => crate::text::trim(entry@).len() > 0 && code@ == std_uppercase(
                crate::text::trim(entry@),
            ),
            Err(m) => crate::text::trim(entry@).len() == 0 && m@
                == "display_currency cannot be empty"@,
        },
{
    let t = crate::text::trimmed(entry);
    if t.as_str().unicode_len() == 0 {
        Err(owned("display_currency cannot be empty"))
    } else {
        Ok(to_uppercase(t.as_str()))
    }
}

/// What std's `str::to_uppercase` makes of a text (Unicode upper-casing).
pub uninterp spec fn std_uppercase(s: Seq<char>) -> Seq<char>;

/// std's `str::to_uppercase`. The contract names its result; Unicode's
/// case mapping is not stated here.
#[verifier::external_body]
pub(crate) fn to_uppercase(s: &str) -> (r: String)
    ensures
        r@ == std_uppercase(s@),
{
    s.to_uppercase()
}

/// Whether `code` is the display currency (for the dropdown's selection).
pub fn is_selected(code: &str, current: &str) -> (r: bool)
    ensures
        r == (code@ == current@),
{
    str_eq(code, current)
}

} // verus!
