use btc_price_alert::alert::{Alert, AlertDirection, SavedAlert};
use btc_price_alert::clock::NANOS_PER_SEC;
use btc_price_alert::price::Price;
use btc_price_alert::state::{AppState, ConnectionStatus, InputMode, Key, KeyOutcome};
use btc_price_alert::store::load_alert;

fn price(value: f64) -> Price {
    Price::from_bits(value.to_bits())
}

fn parsed(text: &str) -> Option<Price> {
    text.parse::<f64>().ok().map(price)
}

/// Presses a key as the program does, with the number that the typed text stands for.
fn press(state: &mut AppState, key: Key) -> KeyOutcome {
    let number = parsed(&state.input_buffer);
    state.on_key(key, false, number)
}

fn type_text(state: &mut AppState, text: &str) {
    for c in text.chars() {
        assert_eq!(press(state, Key::Char(c)), KeyOutcome::Continue);
    }
}

#[test]
fn labels_of_statuses() {
    assert_eq!(ConnectionStatus::Connecting.label(), "CONNECTING");
    assert_eq!(ConnectionStatus::Connected.label(), "● LIVE");
    assert_eq!(ConnectionStatus::Disconnected.label(), "DISCONNECTED");
}

#[test]
fn a_run_starts_empty() {
    let state = AppState::new(None);
    assert_eq!(state.price, None);
    assert_eq!(state.prev_price, None);
    assert_eq!(state.alert, None);
    assert_eq!(state.input_mode, InputMode::Normal);
    assert_eq!(state.input_buffer, "");
    assert_eq!(state.alert_direction, AlertDirection::Above);
    assert_eq!(state.status, ConnectionStatus::Connecting);
    assert!(!state.alert_flash);
    assert!(!state.triggered());
}

#[test]
fn an_alert_is_set_by_dialogue() {
    let mut state = AppState::new(None);
    assert_eq!(press(&mut state, Key::Char('a')), KeyOutcome::Continue);
    assert_eq!(state.input_mode, InputMode::EnteringPrice);
    type_text(&mut state, "6x5 000.50");
    assert_eq!(state.input_buffer, "65000.50");
    let outcome = press(&mut state, Key::Enter);
    let saved = SavedAlert { price: price(65000.5), direction: AlertDirection::Above };
    assert_eq!(outcome, KeyOutcome::Save(Some(saved)));
    assert_eq!(
        state.alert,
        Some(Alert {
            price: price(65000.5),
            direction: AlertDirection::Above,
            last_triggered: None
        })
    );
    assert_eq!(state.input_mode, InputMode::Normal);
    assert_eq!(state.input_buffer, "");
    assert_eq!(load_alert(Some(saved)), state.alert);
}

#[test]
fn tab_turns_the_direction_round() {
    let mut state = AppState::new(None);
    press(&mut state, Key::Char('A'));
    type_text(&mut state, "10");
    press(&mut state, Key::Tab);
    assert_eq!(state.alert_direction, AlertDirection::Below);
    press(&mut state, Key::Tab);
    assert_eq!(state.alert_direction, AlertDirection::Above);
    press(&mut state, Key::Tab);
    press(&mut state, Key::Enter);
    assert_eq!(state.alert.unwrap().direction, AlertDirection::Below);
    press(&mut state, Key::Char('a'));
    assert_eq!(state.alert_direction, AlertDirection::Above);
}

#[test]
fn entry_keys_may_come_in_any_order() {
    let mut state = AppState::new(None);
    assert_eq!(state.on_key(Key::Char('A'), true, None), KeyOutcome::Continue);
    press(&mut state, Key::Tab);
    press(&mut state, Key::Backspace);
    type_text(&mut state, "49");
    press(&mut state, Key::Backspace);
    press(&mut state, Key::Tab);
    type_text(&mut state, ".");
    press(&mut state, Key::Other);
    press(&mut state, Key::Tab);
    type_text(&mut state, "c2");
    assert_eq!(state.input_buffer, "4.2");
    assert_eq!(state.alert_direction, AlertDirection::Below);
    let saved = SavedAlert { price: price(4.2), direction: AlertDirection::Below };
    assert_eq!(press(&mut state, Key::Enter), KeyOutcome::Save(Some(saved)));
}

#[test]
fn an_infinite_threshold_is_accepted() {
    let mut state = AppState::new(None);
    press(&mut state, Key::Char('a'));
    type_text(&mut state, &"9".repeat(310));
    press(&mut state, Key::Enter);
    assert_eq!(state.alert.unwrap().price, price(f64::INFINITY));
}

#[test]
fn alarms_keep_their_distance_among_other_happenings() {
    let set = Alert {
        price: price(100.0),
        direction: AlertDirection::Below,
        last_triggered: None,
    };
    let mut state = AppState::new(Some(set));
    let mut alarms = Vec::new();
    for second in 0..12u128 {
        let key = if second % 2 == 0 { Key::Char('a') } else { Key::Esc };
        assert_eq!(press(&mut state, key), KeyOutcome::Continue);
        state.status = ConnectionStatus::Connected;
        state.alert_flash = !state.alert_flash;
        if state.on_price(price(99.0), second * NANOS_PER_SEC).is_some() {
            alarms.push(second);
        }
    }
    assert_eq!(alarms, vec![0, 5, 10]);
}

#[test]
fn what_is_no_number_above_zero_sets_nothing() {
    let before = Alert {
        price: price(7.0),
        direction: AlertDirection::Below,
        last_triggered: Some(3),
    };
    for text in ["", ".", "1.2.3", "0", "0.0"] {
        let mut state = AppState::new(Some(before));
        press(&mut state, Key::Char('a'));
        type_text(&mut state, text);
        assert_eq!(press(&mut state, Key::Enter), KeyOutcome::Continue);
        assert_eq!(state.alert, Some(before));
        assert_eq!(state.input_mode, InputMode::Normal);
        assert_eq!(state.input_buffer, "");
    }
}

#[test]
fn escape_cancels_price_entry() {
    let mut state = AppState::new(None);
    press(&mut state, Key::Char('a'));
    type_text(&mut state, "123");
    assert_eq!(press(&mut state, Key::Esc), KeyOutcome::Continue);
    assert_eq!(state.alert, None);
    assert_eq!(state.input_mode, InputMode::Normal);
    assert_eq!(state.input_buffer, "");
}

#[test]
fn backspace_takes_characters_back() {
    let mut state = AppState::new(None);
    press(&mut state, Key::Char('a'));
    type_text(&mut state, "12.");
    press(&mut state, Key::Backspace);
    assert_eq!(state.input_buffer, "12");
    press(&mut state, Key::Backspace);
    press(&mut state, Key::Backspace);
    press(&mut state, Key::Backspace);
    assert_eq!(state.input_buffer, "");
    assert_eq!(state.input_mode, InputMode::EnteringPrice);
}

#[test]
fn other_keys_change_nothing() {
    let mut state = AppState::new(None);
    for key in [Key::Enter, Key::Esc, Key::Tab, Key::Backspace, Key::Other, Key::Char('x')] {
        assert_eq!(press(&mut state, key), KeyOutcome::Continue);
        assert_eq!(state.input_mode, InputMode::Normal);
        assert_eq!(state.alert_direction, AlertDirection::Above);
    }
    press(&mut state, Key::Char('a'));
    assert_eq!(press(&mut state, Key::Other), KeyOutcome::Continue);
    assert_eq!(press(&mut state, Key::Char('q')), KeyOutcome::Continue);
    assert_eq!(state.input_buffer, "");
}

#[test]
fn clearing_removes_the_alert_and_saves_that() {
    for c in ['c', 'C'] {
        let set = Alert {
            price: price(1.0),
            direction: AlertDirection::Above,
            last_triggered: Some(0),
        };
        let mut state = AppState::new(Some(set));
        assert_eq!(press(&mut state, Key::Char(c)), KeyOutcome::Save(None));
        assert_eq!(state.alert, None);
        assert_eq!(state.on_price(price(2.0), 99 * NANOS_PER_SEC), None);
    }
}

#[test]
fn ways_to_quit() {
    let mut state = AppState::new(None);
    assert_eq!(state.on_key(Key::Char('q'), false, None), KeyOutcome::Quit);
    assert_eq!(state.on_key(Key::Char('Q'), false, None), KeyOutcome::Quit);
    assert_eq!(state.on_key(Key::Char('c'), true, None), KeyOutcome::Quit);
    assert_eq!(state.on_key(Key::Char('C'), true, None), KeyOutcome::Save(None));
    press(&mut state, Key::Char('a'));
    assert_eq!(state.on_key(Key::Char('c'), true, None), KeyOutcome::Continue);
}

#[test]
fn prices_move_along() {
    let mut state = AppState::new(None);
    assert_eq!(state.on_price(price(1.0), 0), None);
    assert_eq!(state.price, Some(price(1.0)));
    assert_eq!(state.prev_price, None);
    assert_eq!(state.on_price(price(2.0), 1), None);
    assert_eq!(state.price, Some(price(2.0)));
    assert_eq!(state.prev_price, Some(price(1.0)));
}

#[test]
fn alarms_keep_their_distance() {
    let set = Alert {
        price: price(100.0),
        direction: AlertDirection::Above,
        last_triggered: None,
    };
    let mut state = AppState::new(Some(set));
    let mut alarms = Vec::new();
    for second in 0..13u128 {
        let now = second * NANOS_PER_SEC;
        if let Some(direction) = state.on_price(price(100.0), now) {
            assert_eq!(direction, AlertDirection::Above);
            alarms.push(second);
        }
    }
    assert_eq!(alarms, vec![0, 5, 10]);
    assert!(state.triggered());
    assert_eq!(state.alert.unwrap().last_triggered, Some(10 * NANOS_PER_SEC));
}

#[test]
fn a_price_short_of_the_threshold_sounds_nothing() {
    let set = Alert {
        price: price(100.0),
        direction: AlertDirection::Below,
        last_triggered: None,
    };
    let mut state = AppState::new(Some(set));
    assert_eq!(state.on_price(price(100.5), 0), None);
    assert!(!state.triggered());
    assert_eq!(state.on_price(price(100.0), 0), Some(AlertDirection::Below));
}
