use portfolio_tracker::cli::{plan_command, split_url_flag, Command, Method, Report};
use portfolio_tracker::json::reply_text;

fn strings(v: &[&str]) -> Vec<String> {
    v.iter().map(|s| s.to_string()).collect()
}

fn plan(words: &[&str]) -> Result<Command, String> {
    plan_command("http://localhost:8080", &strings(words))
}

fn request(words: &[&str]) -> (Method, String, Option<String>) {
    match plan(words) {
        Ok(Command::Send(r)) => (r.method, r.url, r.body),
        Ok(Command::Help) => panic!("help for {words:?}"),
        Err(m) => panic!("error {m} for {words:?}"),
    }
}

#[test]
fn url_flag_is_taken_out_of_the_words() {
    let (base, words) = split_url_flag(&strings(&["nworth-cli", "--url", "https://nworth.example.com", "accounts", "list"]));
    assert_eq!(base, "https://nworth.example.com");
    assert_eq!(words, strings(&["accounts", "list"]));
    let (base, words) = split_url_flag(&strings(&["nworth-cli", "networth"]));
    assert_eq!(base, "http://localhost:8080");
    assert_eq!(words, strings(&["networth"]));
    let (base, words) = split_url_flag(&strings(&["nworth-cli", "--url", "a", "x", "--url", "b"]));
    assert_eq!(base, "b");
    assert_eq!(words, strings(&["x"]));
    let (base, words) = split_url_flag(&strings(&["nworth-cli", "x", "--url"]));
    assert_eq!(base, "http://localhost:8080");
    assert_eq!(words, strings(&["x", "--url"]));
}

#[test]
fn help_for_no_words() {
    assert!(matches!(plan(&[]), Ok(Command::Help)));
    assert!(matches!(plan(&["help"]), Ok(Command::Help)));
    assert!(matches!(plan(&["-h"]), Ok(Command::Help)));
}

#[test]
fn crud_commands() {
    assert_eq!(request(&["accounts", "list"]), (Method::Get, "http://localhost:8080/api/v1/accounts".to_string(), None));
    assert_eq!(request(&["accounts"]), (Method::Get, "http://localhost:8080/api/v1/accounts".to_string(), None));
    assert_eq!(request(&["assets", "get", "4"]), (Method::Get, "http://localhost:8080/api/v1/assets/4".to_string(), None));
    assert_eq!(
        request(&["categories", "create", "{ \"color\": \"#c0392b\", \"name\": \"Food\" }"]),
        (Method::Post, "http://localhost:8080/api/v1/categories".to_string(), Some("{\"color\":\"#c0392b\",\"name\":\"Food\"}".to_string()))
    );
    assert_eq!(
        request(&["expenses", "update", "9", "{}"]),
        (Method::Put, "http://localhost:8080/api/v1/expenses/9".to_string(), Some("{}".to_string()))
    );
    match plan(&["labels", "rm", "3"]) {
        Ok(Command::Send(r)) => {
            assert_eq!(r.method, Method::Delete);
            assert_eq!(r.url, "http://localhost:8080/api/v1/labels/3");
            assert!(matches!(r.report, Report::Deleted { ref entity, ref id } if entity == "labels" && id == "3"));
        }
        _ => panic!("expected a delete"),
    }
}

#[test]
fn missing_arguments_are_reported() {
    assert_eq!(plan(&["accounts", "get"]).err(), Some("missing <id>".to_string()));
    assert_eq!(plan(&["accounts", "create"]).err(), Some("missing <json>".to_string()));
    assert_eq!(plan(&["accounts", "update", "1"]).err(), Some("missing <json>".to_string()));
    assert_eq!(plan(&["positions", "delete", "1"]).err(), Some("missing <asset_id>".to_string()));
    assert_eq!(
        plan(&["accounts", "frobnicate"]).err(),
        Some("unknown action: frobnicate. Use list/get/create/update/delete".to_string())
    );
    assert_eq!(
        plan(&["widgets"]).err(),
        Some("unknown entity: widgets. Use accounts/assets/snapshots/positions/income/expenses/targets/categories/labels/networth/adjustments/apy".to_string())
    );
}

#[test]
fn snapshot_and_position_commands() {
    assert_eq!(
        request(&["snapshots", "list", "--date", "2026-04-01"]),
        (Method::Get, "http://localhost:8080/api/v1/snapshots?as_of=2026-04-01".to_string(), None)
    );
    assert_eq!(
        request(&["snapshots", "list", "2026-04-01"]),
        (Method::Get, "http://localhost:8080/api/v1/snapshots?as_of=2026-04-01".to_string(), None)
    );
    assert_eq!(request(&["snapshots", "trigger"]), (Method::Post, "http://localhost:8080/api/v1/snapshots/trigger".to_string(), None));
    match plan(&["positions", "delete", "1", "2"]) {
        Ok(Command::Send(r)) => {
            assert_eq!(r.url, "http://localhost:8080/api/v1/positions/1/2");
            assert!(matches!(r.report, Report::Message(ref m) if m == "deleted position 1/2"));
        }
        _ => panic!("expected a delete"),
    }
    match plan(&["snapshots", "delete", "8"]) {
        Ok(Command::Send(r)) => assert!(matches!(r.report, Report::Message(ref m) if m == "deleted snapshot 8")),
        _ => panic!("expected a delete"),
    }
}

#[test]
fn report_commands() {
    assert_eq!(request(&["networth"]), (Method::Get, "http://localhost:8080/api/networth".to_string(), None));
    assert_eq!(request(&["adjustments"]), (Method::Get, "http://localhost:8080/api/allocation/adjustments".to_string(), None));
    assert_eq!(request(&["apy"]), (Method::Get, "http://localhost:8080/api/stables/apy".to_string(), None));
}

#[test]
fn every_request_goes_to_the_base() {
    let base = "https://nworth.example.com";
    for words in [
        vec!["accounts"], vec!["assets", "get", "1"], vec!["snapshots", "list", "--date", "2026-01-01"],
        vec!["positions", "delete", "1", "2"], vec!["networth"], vec!["expenses", "create", "{}"],
    ] {
        match plan_command(base, &strings(&words)) {
            Ok(Command::Send(r)) => assert!(r.url.starts_with(base)),
            _ => panic!("expected a request for {words:?}"),
        }
    }
}

#[test]
fn json_arguments_are_read_before_sending() {
    assert_eq!(
        request(&["positions", "upsert", " [1, 2.5, true] "]),
        (Method::Post, "http://localhost:8080/api/v1/positions".to_string(), Some("[1,2.5,true]".to_string()))
    );
    assert_eq!(
        request(&["snapshots", "add", "{\"quantity\": 100}"]),
        (Method::Post, "http://localhost:8080/api/v1/snapshots".to_string(), Some("{\"quantity\":100}".to_string()))
    );
    for bad in ["{name:1}", "", "[1,", "nope"] {
        let expected = serde_json::from_str::<serde_json::Value>(bad).unwrap_err().to_string();
        assert_eq!(plan(&["accounts", "create", bad]).err(), Some(expected.clone()));
        assert_eq!(plan(&["labels", "update", "3", bad]).err(), Some(expected));
    }
    // A missing argument is reported before any JSON is read.
    assert_eq!(plan(&["accounts", "update"]).err(), Some("missing <id>".to_string()));
}

#[test]
fn replies_are_pretty_printed_when_json() {
    assert_eq!(reply_text("{\"a\":1}"), "{\n  \"a\": 1\n}");
    assert_eq!(reply_text("[]"), "[]");
    assert_eq!(reply_text("not json"), "not json");
    assert_eq!(reply_text(""), "");
}
