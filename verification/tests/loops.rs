use btc_price_alert::alert::{Alert, AlertDirection};
use btc_price_alert::clock::NANOS_PER_SEC;
use btc_price_alert::feed::{
    apply_status, feed_step, feed_url, FeedAction, FeedEvent, IDLE_TIMEOUT_SECS, PRICE_QUEUE_LEN,
    RECONNECT_DELAY_SECS,
};
use btc_price_alert::price::Price;
use btc_price_alert::state::{AppState, ConnectionStatus, InputMode, Key, KeyOutcome};
use btc_price_alert::ticker::{InputEvent, Redraw, Ticker, DISCONNECT_SOUND_INTERVAL, POLL_MILLIS};

fn price(value: f64) -> Price {
    Price::from_bits(value.to_bits())
}

#[test]
fn lost_connections_are_heard_every_five_seconds() {
    assert_eq!(DISCONNECT_SOUND_INTERVAL, 5);
    let mut ticker = Ticker::new();
    assert!(!ticker.on_status(ConnectionStatus::Connecting, 0));
    let mut sounds = Vec::new();
    for second in 1..13u128 {
        let status = if second % 2 == 0 {
            ConnectionStatus::Connecting
        } else {
            ConnectionStatus::Disconnected
        };
        if ticker.on_status(status, second * NANOS_PER_SEC) {
            sounds.push(second);
        }
    }
    assert_eq!(sounds, vec![1, 7]);
}

#[test]
fn a_connection_in_between_makes_the_next_loss_heard() {
    let mut ticker = Ticker::new();
    assert!(ticker.on_status(ConnectionStatus::Disconnected, 10));
    assert!(!ticker.on_status(ConnectionStatus::Disconnected, 11));
    assert!(!ticker.on_status(ConnectionStatus::Connected, 12));
    assert_eq!(ticker.last_disconnect_sound, None);
    assert!(ticker.on_status(ConnectionStatus::Disconnected, 13));
    assert_eq!(ticker.last_disconnect_sound, Some(13));
}

#[test]
fn flashing_goes_by_threes() {
    let mut ticker = Ticker::new();
    let mut state = AppState::new(None);
    let mut seen = Vec::new();
    for _ in 0..12 {
        ticker.flash(&mut state);
        seen.push(state.alert_flash);
    }
    let expected = vec![
        true, true, false, false, false, true, true, true, false, false, false, true,
    ];
    assert_eq!(seen, expected);
}

#[test]
fn the_round_count_starts_over() {
    let mut ticker = Ticker::new();
    ticker.flash_counter = u32::MAX;
    let mut state = AppState::new(None);
    ticker.flash(&mut state);
    assert_eq!(ticker.flash_counter, 0);
    assert!(state.alert_flash);
}

#[test]
fn events_that_ask_for_a_full_redraw() {
    let mut state = AppState::new(None);
    let mut ticker = Ticker::new();
    assert_eq!(ticker.choose_redraw(&state, false), Redraw::Full);
    assert_eq!(ticker.choose_redraw(&state, false), Redraw::Nothing);
    assert_eq!(ticker.on_event(&mut state, InputEvent::Other, None), KeyOutcome::Continue);
    assert_eq!(ticker.choose_redraw(&state, false), Redraw::Nothing);
    assert_eq!(ticker.on_event(&mut state, InputEvent::Resize, None), KeyOutcome::Continue);
    assert_eq!(ticker.choose_redraw(&state, false), Redraw::Full);
    let key = InputEvent::Key { key: Key::Char('a'), control: false };
    assert_eq!(ticker.on_event(&mut state, key, None), KeyOutcome::Continue);
    assert_eq!(state.input_mode, InputMode::EnteringPrice);
    assert_eq!(ticker.choose_redraw(&state, true), Redraw::Full);
    assert_eq!(ticker.choose_redraw(&state, false), Redraw::Nothing);
}

#[test]
fn control_reaches_the_state() {
    let mut state = AppState::new(None);
    let mut ticker = Ticker::new();
    let key = InputEvent::Key { key: Key::Char('c'), control: true };
    assert_eq!(ticker.on_event(&mut state, key, None), KeyOutcome::Quit);
}

#[test]
fn what_asks_for_a_partial_redraw() {
    let mut state = AppState::new(None);
    let mut ticker = Ticker::new();
    ticker.choose_redraw(&state, false);
    assert_eq!(ticker.choose_redraw(&state, true), Redraw::Partial);
    state.status = ConnectionStatus::Connected;
    assert_eq!(ticker.choose_redraw(&state, false), Redraw::Partial);
    assert_eq!(ticker.choose_redraw(&state, false), Redraw::Nothing);
    state.alert = Some(Alert {
        price: price(1.0),
        direction: AlertDirection::Above,
        last_triggered: Some(0),
    });
    assert_eq!(ticker.choose_redraw(&state, false), Redraw::Partial);
    assert_eq!(ticker.choose_redraw(&state, false), Redraw::Partial);
}

#[test]
fn the_feed_goes_round() {
    let mut state = AppState::new(None);
    let step = feed_step(FeedEvent::Ready);
    apply_status(&mut state, step);
    assert_eq!((step.price, step.action), (None, FeedAction::Connect));
    assert_eq!(state.status, ConnectionStatus::Connecting);

    let step = feed_step(FeedEvent::Opened);
    apply_status(&mut state, step);
    assert_eq!((step.price, step.action), (None, FeedAction::Receive));
    assert_eq!(state.status, ConnectionStatus::Connected);

    let step = feed_step(FeedEvent::Text(Some(price(2.5))));
    apply_status(&mut state, step);
    assert_eq!((step.price, step.action), (Some(price(2.5)), FeedAction::Receive));
    assert_eq!(state.status, ConnectionStatus::Connected);

    for event in [FeedEvent::Text(None), FeedEvent::OtherMessage] {
        let step = feed_step(event);
        assert_eq!((step.status, step.price, step.action), (None, None, FeedAction::Receive));
    }

    for event in [FeedEvent::ReceiveFailed, FeedEvent::Closed, FeedEvent::Idle] {
        let step = feed_step(event);
        apply_status(&mut state, step);
        assert_eq!((step.price, step.action), (None, FeedAction::Rest));
        assert_eq!(state.status, ConnectionStatus::Disconnected);
    }
}

#[test]
fn a_connection_that_cannot_be_opened_is_rested() {
    let step = feed_step(FeedEvent::OpenFailed);
    assert_eq!(step.status, Some(ConnectionStatus::Disconnected));
    assert_eq!(step.price, None);
    assert_eq!(step.action, FeedAction::Rest);
}

#[test]
fn settings_of_the_loops() {
    assert_eq!(feed_url(), "wss://stream.binance.com:9443/ws/btcusdt@trade");
    assert_eq!(IDLE_TIMEOUT_SECS, 30);
    assert_eq!(RECONNECT_DELAY_SECS, 3);
    assert_eq!(PRICE_QUEUE_LEN, 256);
    assert_eq!(POLL_MILLIS, 50);
}
