use cryptodash::api::{DisplayRow, FetchError};
use cryptodash::state::App;

fn row(symbol: &str) -> DisplayRow {
    DisplayRow {
        symbol: symbol.to_string(),
        name: "Name".to_string(),
        price: "$1".to_string(),
        change: "0.1%".to_string(),
    }
}

fn rows(symbols: &[&str]) -> Vec<DisplayRow> {
    symbols.iter().map(|s| row(s)).collect()
}

fn symbols(app: &App) -> Vec<String> {
    app.items.iter().map(|r| r.symbol.clone()).collect()
}

#[test]
fn new_with_ok_takes_rows() {
    let app = App::new(100, Ok(rows(&["BTC", "ETH"])));
    assert_eq!(symbols(&app), vec!["BTC".to_string(), "ETH".to_string()]);
    assert_eq!(app.selected, None);
    assert_eq!(app.last_update, 100);
}

#[test]
fn new_with_err_starts_empty() {
    let app = App::new(100, Err(FetchError::Transport));
    assert!(app.items.is_empty());
    assert_eq!(app.selected, None);
    assert_eq!(app.last_update, 100);
}

#[test]
fn update_below_threshold_is_noop() {
    let mut app = App::new(100, Ok(rows(&["BTC"])));
    app.update(160, Ok(rows(&["ETH"])));
    assert_eq!(symbols(&app), vec!["BTC".to_string()]);
    assert_eq!(app.last_update, 100);
}

#[test]
fn update_with_clock_gone_backwards_is_noop() {
    let mut app = App::new(100, Ok(rows(&["BTC"])));
    app.update(10, Ok(rows(&["ETH"])));
    assert_eq!(symbols(&app), vec!["BTC".to_string()]);
    assert_eq!(app.last_update, 100);
}

#[test]
fn update_past_threshold_replaces_rows_and_timestamp() {
    let mut app = App::new(100, Ok(rows(&["BTC"])));
    app.update(161, Ok(rows(&["ETH", "XRP"])));
    assert_eq!(symbols(&app), vec!["ETH".to_string(), "XRP".to_string()]);
    assert_eq!(app.last_update, 161);
}

#[test]
fn update_with_failing_fetch_keeps_prior_state() {
    let mut app = App::new(100, Ok(rows(&["BTC"])));
    app.selected = Some(0);
    app.update(200, Err(FetchError::Decode));
    assert_eq!(symbols(&app), vec!["BTC".to_string()]);
    assert_eq!(app.last_update, 100);
    assert_eq!(app.selected, Some(0));
}

#[test]
fn update_clamps_selection_to_new_count() {
    let mut app = App::new(100, Ok(rows(&["BTC", "ETH", "XRP"])));
    app.selected = Some(2);
    app.update(200, Ok(rows(&["ADA"])));
    assert_eq!(app.selected, Some(0));
}

#[test]
fn update_to_empty_rows_unsets_selection() {
    let mut app = App::new(100, Ok(rows(&["BTC"])));
    app.selected = Some(0);
    app.update(200, Ok(rows(&[])));
    assert_eq!(app.selected, None);
    assert!(app.items.is_empty());
}

#[test]
fn force_update_replaces_rows_keeps_timestamp() {
    let mut app = App::new(100, Ok(rows(&["BTC"])));
    app.force_update(Ok(rows(&["ETH"])));
    assert_eq!(symbols(&app), vec!["ETH".to_string()]);
    assert_eq!(app.last_update, 100);
}

#[test]
fn force_update_with_failing_fetch_keeps_prior_state() {
    let mut app = App::new(100, Ok(rows(&["BTC"])));
    app.force_update(Err(FetchError::Transport));
    assert_eq!(symbols(&app), vec!["BTC".to_string()]);
    assert_eq!(app.last_update, 100);
}

#[test]
fn needs_refresh_only_past_threshold() {
    let app = App::new(100, Ok(rows(&["BTC"])));
    assert!(!app.needs_refresh(100));
    assert!(!app.needs_refresh(160));
    assert!(app.needs_refresh(161));
    assert!(!app.needs_refresh(50));
}
