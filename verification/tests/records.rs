use portfolio_tracker::records::{
    delete_action, delete_result, error_response, json_stable_flag, Config, DeleteAction,
    ErrorKind,
};

#[test]
fn unreferenced_rows_are_purged() {
    assert_eq!(delete_action(0), DeleteAction::Purge);
    let r = delete_result(7, delete_action(0));
    assert_eq!((r.id, r.purged, r.deactivated), (7, true, false));
}

#[test]
fn referenced_rows_are_deactivated() {
    assert_eq!(delete_action(3), DeleteAction::Deactivate);
    let r = delete_result(1, delete_action(3));
    assert_eq!((r.id, r.purged, r.deactivated), (1, false, true));
}

#[test]
fn stable_flag_from_json() {
    assert_eq!(json_stable_flag(Some(true)), 1);
    assert_eq!(json_stable_flag(Some(false)), 0);
    assert_eq!(json_stable_flag(None), 0);
}

#[test]
fn error_answers() {
    assert_eq!(error_response(&ErrorKind::BadRequest("target sum over 100%".to_string())), (400, "target sum over 100%".to_string()));
    assert_eq!(error_response(&ErrorKind::Database), (500, "database error".to_string()));
    assert_eq!(error_response(&ErrorKind::Template), (500, "template error".to_string()));
    assert_eq!(error_response(&ErrorKind::Upstream), (500, "upstream error".to_string()));
    assert_eq!(error_response(&ErrorKind::Internal), (500, "internal error".to_string()));
}

#[test]
fn config_defaults() {
    let c = Config::from_values(None, None, None, None);
    assert_eq!(c.bind_addr, "0.0.0.0:8080");
    assert_eq!(c.database_url, "sqlite://data/portfolio.db?mode=rwc");
    assert_eq!(c.coingecko_api_key, None);
    let c = Config::from_values(Some("127.0.0.1:9000".to_string()), Some("sqlite::memory:".to_string()), Some("k".to_string()), None);
    assert_eq!(c.bind_addr, "127.0.0.1:9000");
    assert_eq!(c.database_url, "sqlite::memory:");
    assert_eq!(c.coingecko_api_key, Some("k".to_string()));
}
