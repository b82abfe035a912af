//! The records the library reads and writes: accounts, assets, categories,
//! labels, settings, and the settings of a running server.

use vstd::prelude::*;
use crate::text::owned;

verus! {

/// An account as the pages list it.
pub struct Account {
    pub id: i64,
    pub name: String,
    pub type_code: String,
    pub institution: Option<String>,
    pub chain_code: Option<String>,
    pub active: i64,
    pub notes: Option<String>,
    pub is_investment: i64,
}

/// An asset as the pages list it.
pub struct Asset {
    pub id: i64,
    pub symbol: String,
    pub name: Option<String>,
    pub type_code: String,
    pub chain_code: Option<String>,
    pub risk_code: Option<String>,
    pub coingecko_id: Option<String>,
    pub yahoo_ticker: Option<String>,
    pub active: i64,
}

/// Where the server listens, where its database is, and the optional keys
/// of the outside price services.
pub struct Config {
    pub bind_addr: String,
    pub database_url: String,
    pub coingecko_api_key: Option<String>,
    pub helius_rpc_url: Option<String>,
}

pub open spec fn default_bind_addr() -> Seq<char> {
    "0.0.0.0:8080"@
}

pub open spec fn default_database_url() -> Seq<char> {
    "sqlite://data/portfolio.db?mode=rwc"@
}

impl Config {
    /// The configuration from the values of `BIND_ADDR`, `DATABASE_URL`,
    /// `COINGECKO_API_KEY` and `HELIUS_RPC_URL` (`None` where unset): the
    /// address defaults to `0.0.0.0:8080`, the database to
    /// `sqlite://data/portfolio.db?mode=rwc`; the keys stay optional.
    pub fn from_values(
        bind_addr: Option<String>,
        database_url: Option<String>,
        coingecko_api_key: Option<String>,
        helius_rpc_url: Option<String>,
    ) -> (r: Config)
        ensures
            r.bind_addr@ == (match bind_addr {
                Some(b) => b@,
                None => default_bind_addr(),
            }),
            r.database_url@ == (match database_url {
                Some(d) => d@,
                None => default_database_url(),
            }),
            r.coingecko_api_key == coingecko_api_key,
            r.helius_rpc_url == helius_rpc_url,
    {
        Config {
            bind_addr: match bind_addr {
                Some(b) => b,
                None => owned("0.0.0.0:8080"),
            },
            database_url: match database_url {
                Some(d) => d,
                None => owned("sqlite://data/portfolio.db?mode=rwc"),
            },
            coingecko_api_key,
            helius_rpc_url,
        }
    }
}

/// Smart delete: a row that nothing references is removed; one that is
/// referenced is kept and marked inactive.
#[derive(PartialEq, Eq, Structural, Clone, Copy, Debug)]
pub enum DeleteAction {
    Purge,
    Deactivate,
}

/// What a delete does, given how many rows reference the one deleted.
pub open spec fn delete_action_spec(references: i64) -> DeleteAction {
    if references == 0 {
        DeleteAction::Purge
    } else {
        DeleteAction::Deactivate
    }
}

pub fn delete_action(references: i64) -> (r: DeleteAction)
    ensures
        r == delete_action_spec(references),
{
    if references == 0 {
        DeleteAction::Purge
    } else {
        DeleteAction::Deactivate
    }
}

/// The answer to a smart delete of accounts, assets, categories and labels.
pub struct DeleteResult {
    pub id: i64,
    pub purged: bool,
    pub deactivated: bool,
}

pub open spec fn delete_result_spec(id: i64, action: DeleteAction) -> DeleteResult {
    DeleteResult {
        id,
        purged: action == DeleteAction::Purge,
        deactivated: action == DeleteAction::Deactivate,
    }
}

pub fn delete_result(id: i64, action: DeleteAction) -> (r: DeleteResult)
    ensures
        r == delete_result_spec(id, action),
{
    let purged = match action {
        DeleteAction::Purge => true,
        DeleteAction::Deactivate => false,
    };
    DeleteResult { id, purged, deactivated: !purged }
}

/// Outcome of a snapshot trigger: the date of the rows and how many rows were
/// written.
pub struct TriggerResult {
    pub date: String,
    pub snapshots_created: u64,
}

pub struct AccountOut {
    pub id: i64,
    pub name: String,
    pub type_code: String,
    pub institution: Option<String>,
    pub chain_code: Option<String>,
    pub active: i64,
    pub notes: Option<String>,
    pub role: String,
}

pub struct AccountIn {
    pub name: String,
    pub type_code: String,
    pub institution: Option<String>,
    pub chain_code: Option<String>,
    pub notes: Option<String>,
    /// `investment`, `operating` or `property`; `investment` when absent.
    pub role: Option<String>,
}

pub struct AssetOut {
    pub id: i64,
    pub symbol: String,
    pub name: Option<String>,
    pub type_code: String,
    pub chain_code: Option<String>,
    pub risk_code: Option<String>,
    pub coingecko_id: Option<String>,
    pub yahoo_ticker: Option<String>,
    pub is_stable: i64,
    pub active: i64,
}

pub struct AssetIn {
    pub symbol: String,
    pub name: Option<String>,
    pub type_code: String,
    pub chain_code: Option<String>,
    pub risk_code: Option<String>,
    pub coingecko_id: Option<String>,
    pub yahoo_ticker: Option<String>,
    pub is_stable: Option<bool>,
}

pub struct LabelRef {
    pub id: i64,
    pub name: String,
}

pub struct CategoryOut {
    pub id: i64,
    pub name: String,
    pub parent_id: Option<i64>,
    pub color: Option<String>,
    pub active: i64,
}

pub struct CategoryIn {
    pub name: String,
    pub parent_id: Option<i64>,
    pub color: Option<String>,
}

pub struct LabelOut {
    pub id: i64,
    pub name: String,
    pub color: Option<String>,
    pub active: i64,
}

pub struct LabelIn {
    pub name: String,
    pub color: Option<String>,
}

pub struct SettingOut {
    pub key: String,
    pub value: String,
    pub updated_at: String,
}

pub struct SettingIn {
    pub value: String,
}

/// The stored stable flag of an asset sent as JSON: 1 when `is_stable` is
/// `true`, 0 when it is `false` or absent.
pub fn json_stable_flag(is_stable: Option<bool>) -> (r: i64)
    ensures
        r == (if is_stable == Some(true) {
            1i64
        } else {
            0i64
        }),
{
    match is_stable {
        Some(true) => 1,
        _ => 0,
    }
}

/// An HTTP error the server answers with.
pub enum ErrorKind {
    /// The request was refused, with the reason.
    BadRequest(String),
    Database,
    Template,
    Upstream,
    Internal,
}

/// Status code and body of an error answer: 400 with the reason for a bad
/// request; 500 with a short, fixed text for every failure inside.
pub fn error_response(e: &ErrorKind) -> (r: (u16, String))
    ensures
        match e {
            ErrorKind::BadRequest(m) => r.0 == 400 && r.1@ == m@,
            ErrorKind::Database => r.0 == 500 && r.1@ == "database error"@,
            ErrorKind::Template => r.0 == 500 && r.1@ == "template error"@,
            ErrorKind::Upstream => r.0 == 500 && r.1@ == "upstream error"@,
            ErrorKind::Internal => r.0 == 500 && r.1@ == "internal error"@,
        },
{
    match e {
        ErrorKind::BadRequest(m) => (400, owned(m.as_str())),
        ErrorKind::Database => (500, owned("database error")),
        ErrorKind::Template => (500, owned("template error")),
        ErrorKind::Upstream => (500, owned("upstream error")),
        ErrorKind::Internal => (500, owned("internal error")),
    }
}


/// A smart delete removes a row only when nothing refers to it; a row that
/// is referred to is kept and deactivated; the answer says exactly one of
/// the two.
pub proof fn law_smart_delete(id: i64, references: i64)
    ensures
        delete_result_spec(id, delete_action_spec(references)).purged == (references == 0),
        delete_result_spec(id, delete_action_spec(references)).deactivated == (references != 0),
        delete_result_spec(id, delete_action_spec(references)).id == id,
{
}

} // verus!
