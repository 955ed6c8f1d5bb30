use btc_price_alert::alert::{Alert, AlertDirection};
use btc_price_alert::price::Price;
use btc_price_alert::screen::{render, render_partial, Draw, Tint};
use btc_price_alert::state::{AppState, ConnectionStatus, InputMode};
use btc_price_alert::text::{measure, repeat};

fn price(value: f64) -> Price {
    Price::from_bits(value.to_bits())
}

fn text(content: &str) -> Draw {
    Draw::Print(content.to_string())
}

fn line(col: u16, row: u16, tint: Tint, content: &str) -> Vec<Draw> {
    vec![Draw::MoveTo(col, row), Draw::Foreground(tint), text(content), Draw::ResetColor]
}

fn bold_line(col: u16, row: u16, tint: Tint, content: &str) -> Vec<Draw> {
    vec![
        Draw::MoveTo(col, row),
        Draw::Foreground(tint),
        Draw::Bold,
        text(content),
        Draw::ResetAttributes,
        Draw::ResetColor,
    ]
}

fn clear(row: u16) -> Vec<Draw> {
    vec![Draw::MoveTo(0, row), Draw::ClearLine]
}

fn joined(parts: Vec<Vec<Draw>>) -> Vec<Draw> {
    let mut all = Vec::new();
    for part in parts {
        all.extend(part);
    }
    all
}

fn full_opening() -> Vec<Draw> {
    vec![Draw::HideCursor, Draw::MoveTo(0, 0), Draw::ClearAll, Draw::MoveTo(0, 0)]
}

fn border(cols: u16, row: u16) -> Vec<Draw> {
    let strokes = "─".repeat(usize::min(cols as usize, 60));
    let col = (cols as usize).saturating_sub(strokes.len()) / 2;
    line(col as u16, row, Tint::Rgb(30, 30, 30), &strokes)
}

#[test]
fn an_empty_state_in_full() {
    let state = AppState::new(None);
    let expected = joined(vec![
        full_opening(),
        line(68, 1, Tint::Yellow, "CONNECTING"),
        line(27, 7, Tint::DarkGrey, "BINANCE · BTCUSDT · SPOT"),
        line(30, 9, Tint::DarkGrey, "Waiting for data..."),
        line(28, 15, Tint::DarkGrey, "[A] set alert  [Q] quit"),
        border(80, 22),
    ]);
    assert_eq!(render(&state, true, 80, 24, "", ""), expected);
}

#[test]
fn a_price_and_an_alert_in_full() {
    let mut state = AppState::new(Some(Alert {
        price: price(65000.0),
        direction: AlertDirection::Above,
        last_triggered: None,
    }));
    state.on_price(price(64000.5), 0);
    state.status = ConnectionStatus::Connected;
    let expected = joined(vec![
        full_opening(),
        line(70, 1, Tint::Green, "● LIVE"),
        line(27, 7, Tint::DarkGrey, "BINANCE · BTCUSDT · SPOT"),
        bold_line(35, 9, Tint::Green, "$ 64000.50"),
        line(27, 12, Tint::DarkYellow, "Alert set: ABOVE $65000.00"),
        line(20, 15, Tint::DarkGrey, "[A] new alert  [C] clear alert  [Q] quit"),
        border(80, 22),
    ]);
    assert_eq!(render(&state, true, 80, 24, "64000.50", "65000.00"), expected);
}

#[test]
fn price_entry_in_full() {
    let mut state = AppState::new(None);
    state.input_mode = InputMode::EnteringPrice;
    state.input_buffer = "123.".to_string();
    state.alert_direction = AlertDirection::Below;
    let drawing = render(&state, true, 80, 24, "", "");
    let expected = joined(vec![
        vec![
            Draw::MoveTo(26, 15),
            Draw::Foreground(Tint::Cyan),
            text("Alert BELOW at price: $123."),
            text("█"),
            Draw::ResetColor,
        ],
        line(
            12,
            17,
            Tint::DarkGrey,
            "[Tab] toggle Above/Below  [Enter] confirm  [Esc] cancel",
        ),
        border(80, 22),
    ]);
    assert_eq!(drawing[drawing.len() - expected.len()..], expected[..]);
}

#[test]
fn a_redraw_that_keeps_the_screen_clears_rows() {
    let state = AppState::new(None);
    let drawing = render(&state, false, 80, 24, "", "");
    let expected = joined(vec![
        vec![Draw::HideCursor, Draw::MoveTo(0, 0)],
        clear(1),
        clear(7),
        clear(9),
        clear(12),
        clear(15),
        clear(17),
        clear(22),
    ]);
    assert_eq!(drawing[..expected.len()], expected[..]);
    let rest = render(&state, true, 80, 24, "", "");
    assert_eq!(drawing[expected.len()..], rest[4..]);
}

#[test]
fn rows_off_the_screen_are_not_cleared() {
    let state = AppState::new(None);
    let drawing = render(&state, false, 80, 6, "", "");
    let expected = joined(vec![
        vec![Draw::HideCursor, Draw::MoveTo(0, 0)],
        clear(1),
        clear(3),
        clear(6),
        clear(4),
    ]);
    assert_eq!(drawing[..expected.len()], expected[..]);
    assert_eq!(drawing[expected.len()], Draw::MoveTo(68, 1));
}

#[test]
fn a_partial_redraw_of_a_price() {
    let mut state = AppState::new(Some(Alert {
        price: price(70000.0),
        direction: AlertDirection::Above,
        last_triggered: None,
    }));
    state.on_price(price(64000.5), 0);
    state.on_price(price(64000.0), 1);
    state.status = ConnectionStatus::Disconnected;
    let expected = joined(vec![
        vec![Draw::HideCursor],
        clear(1),
        line(66, 1, Tint::Red, "DISCONNECTED"),
        clear(9),
        bold_line(35, 9, Tint::Red, "$ 64000.00"),
    ]);
    assert_eq!(render_partial(&state, 80, 24, "64000.00", "70000.00"), expected);
}

#[test]
fn a_partial_redraw_without_a_price() {
    let state = AppState::new(None);
    let expected = joined(vec![
        vec![Draw::HideCursor],
        clear(1),
        line(68, 1, Tint::Yellow, "CONNECTING"),
        clear(9),
        line(30, 9, Tint::DarkGrey, "Waiting for data..."),
    ]);
    assert_eq!(render_partial(&state, 80, 24, "", ""), expected);
}

#[test]
fn a_partial_redraw_of_an_alert_that_went_off() {
    let mut state = AppState::new(Some(Alert {
        price: price(64000.0),
        direction: AlertDirection::Below,
        last_triggered: None,
    }));
    state.on_price(price(64000.0), 1);
    let message = "⚡ ALERT TRIGGERED — Price went BELOW $64000.00";
    assert_eq!(measure(message), 50);
    for (flash, tint) in [(true, Tint::Yellow), (false, Tint::DarkYellow)] {
        state.alert_flash = flash;
        let expected = joined(vec![
            vec![Draw::HideCursor],
            clear(1),
            line(68, 1, Tint::Yellow, "CONNECTING"),
            clear(9),
            bold_line(35, 9, Tint::Green, "$ 64000.00"),
            clear(12),
            bold_line(15, 12, tint, message),
        ]);
        assert_eq!(render_partial(&state, 80, 24, "64000.00", "64000.00"), expected);
    }
}

#[test]
fn a_price_that_stays_is_green() {
    let mut state = AppState::new(None);
    state.on_price(price(5.0), 0);
    state.on_price(price(5.0), 1);
    let drawing = render_partial(&state, 80, 24, "5.00", "");
    assert!(drawing.contains(&Draw::Foreground(Tint::Green)));
    assert!(!drawing.contains(&Draw::Foreground(Tint::Red)));
}

#[test]
fn a_tiny_terminal_is_drawn_from_its_corner() {
    let state = AppState::new(None);
    let expected = joined(vec![
        full_opening(),
        line(0, 1, Tint::Yellow, "CONNECTING"),
        line(0, 0, Tint::DarkGrey, "BINANCE · BTCUSDT · SPOT"),
        line(0, 0, Tint::DarkGrey, "Waiting for data..."),
        line(0, 3, Tint::DarkGrey, "[A] set alert  [Q] quit"),
        line(0, 0, Tint::Rgb(30, 30, 30), ""),
    ]);
    assert_eq!(render(&state, true, 0, 0, "", ""), expected);
}

#[test]
fn a_huge_terminal_is_drawn_around_its_middle() {
    let state = AppState::new(None);
    let drawing = render(&state, true, 65535, 65535, "", "");
    assert_eq!(drawing[4], Draw::MoveTo(65523, 1));
    assert!(drawing.contains(&Draw::MoveTo(32756, 32770)));
}

#[test]
fn texts_are_measured_in_bytes() {
    assert_eq!(measure(""), 0);
    assert_eq!(measure("LIVE"), 4);
    assert_eq!(measure("● LIVE"), 8);
    assert_eq!(measure("·─⚡"), 8);
}

#[test]
fn characters_are_repeated() {
    assert_eq!(repeat('─', 3), "───");
    assert_eq!(repeat('x', 0), "");
}
