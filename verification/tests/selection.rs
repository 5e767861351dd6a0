use cryptodash::api::DisplayRow;
use cryptodash::state::App;

fn row(symbol: &str) -> DisplayRow {
    DisplayRow {
        symbol: symbol.to_string(),
        name: "Name".to_string(),
        price: "$1".to_string(),
        change: "0.1%".to_string(),
    }
}

fn app_with(n: usize) -> App {
    let mut items = Vec::new();
    for i in 0..n {
        items.push(row(&format!("S{}", i)));
    }
    App { items, selected: None, last_update: 0 }
}

#[test]
fn next_from_none_selects_first() {
    let mut app = app_with(3);
    app.next();
    assert_eq!(app.selected, Some(0));
}

#[test]
fn next_advances_and_wraps_past_end() {
    let mut app = app_with(3);
    app.selected = Some(1);
    app.next();
    assert_eq!(app.selected, Some(2));
    app.next();
    assert_eq!(app.selected, Some(0));
}

#[test]
fn wrap_around_closure() {
    // As many `next` steps as there are rows return the selection to its
    // starting value.
    let mut app = app_with(4);
    app.selected = Some(2);
    for _ in 0..4 {
        app.next();
    }
    assert_eq!(app.selected, Some(2));
}

#[test]
fn previous_from_zero_wraps_to_last() {
    let mut app = app_with(3);
    app.selected = Some(0);
    app.previous();
    assert_eq!(app.selected, Some(2));
}

#[test]
fn previous_retreats() {
    let mut app = app_with(3);
    app.selected = Some(2);
    app.previous();
    assert_eq!(app.selected, Some(1));
}

#[test]
fn previous_from_none_selects_first() {
    let mut app = app_with(3);
    app.previous();
    assert_eq!(app.selected, Some(0));
}

#[test]
fn empty_rows_selection_stays_unset() {
    let mut app = app_with(0);
    app.next();
    assert_eq!(app.selected, None);
    app.previous();
    assert_eq!(app.selected, None);
}
