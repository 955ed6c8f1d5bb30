//! The connection to the price feed: what follows on each thing that happens to it.

use crate::price::Price;
use crate::state::{AppState, AppStateView, ConnectionStatus};
use vstd::prelude::*;

verus! {

/// Seconds without a message after which a connection is given up.
pub const IDLE_TIMEOUT_SECS: u64 = 30;

/// Seconds to rest before a connection is tried again.
pub const RECONNECT_DELAY_SECS: u64 = 3;

/// How many prices can wait to be taken in.
pub const PRICE_QUEUE_LEN: usize = 256;

/// Where the feed is.
pub fn feed_url() -> (url: &'static str)
    ensures
        url@ == "wss://stream.binance.com:9443/ws/btcusdt@trade"@,
{
    "wss://stream.binance.com:9443/ws/btcusdt@trade"
}

/// Something that happens to the connection.
#[derive(Clone, Copy, Debug, PartialEq, Eq, Structural)]
pub enum FeedEvent {
    /// The program has started, or the rest is over.
    Ready,
    /// A connection was opened.
    Opened,
    /// No connection could be opened.
    OpenFailed,
    /// A text message came in, with the price of the trade that it reports. There is no price
    /// where the text reports no trade, or the price of the trade cannot be read.
    Text(Option<Price>),
    /// A message of another kind came in.
    OtherMessage,
    /// A message could not be received.
    ReceiveFailed,
    /// The connection was closed.
    Closed,
    /// No message came in for too long.
    Idle,
}

/// What is to be done next with the connection.
#[derive(Clone, Copy, Debug, PartialEq, Eq, Structural)]
pub enum FeedAction {
    /// Open a connection.
    Connect,
    /// Wait for a message.
    Receive,
    /// Drop the connection, if there is one, and rest.
    Rest,
}

/// What follows on an event.
#[derive(Clone, Copy, Debug, PartialEq, Eq, Structural)]
pub struct FeedStep {
    /// The status that the connection gets, where it changes.
    pub status: Option<ConnectionStatus>,
    /// The price to hand on.
    pub price: Option<Price>,
    /// What is to be done next.
    pub action: FeedAction,
}

/// What follows on an event.
pub open spec fn spec_feed_step(event: FeedEvent) -> FeedStep {
    match event {
        FeedEvent::Ready => FeedStep {
            status: Some(ConnectionStatus::Connecting),
            price: None,
            action: FeedAction::Connect,
        },
        FeedEvent::Opened => FeedStep {
            status: Some(ConnectionStatus::Connected),
            price: None,
            action: FeedAction::Receive,
        },
        FeedEvent::Text(price) => FeedStep { status: None, price, action: FeedAction::Receive },
        FeedEvent::OtherMessage => FeedStep {
            status: None,
            price: None,
            action: FeedAction::Receive,
        },
        FeedEvent::OpenFailed | FeedEvent::ReceiveFailed | FeedEvent::Closed | FeedEvent::Idle =>
            FeedStep {
                status: Some(ConnectionStatus::Disconnected),
                price: None,
                action: FeedAction::Rest,
            },
    }
}

/// What follows on an event.
pub fn feed_step(event: FeedEvent) -> (step: FeedStep)
    ensures
        step == spec_feed_step(event),
{
    match event {
        FeedEvent::Ready => FeedStep {
            status: Some(ConnectionStatus::Connecting),
            price: None,
            action: FeedAction::Connect,
        },
        FeedEvent::Opened => FeedStep {
            status: Some(ConnectionStatus::Connected),
            price: None,
            action: FeedAction::Receive,
        },
        FeedEvent::Text(price) => FeedStep { status: None, price, action: FeedAction::Receive },
        FeedEvent::OtherMessage => FeedStep {
            status: None,
            price: None,
            action: FeedAction::Receive,
        },
        FeedEvent::OpenFailed | FeedEvent::ReceiveFailed | FeedEvent::Closed | FeedEvent::Idle =>
            FeedStep {
                status: Some(ConnectionStatus::Disconnected),
                price: None,
                action: FeedAction::Rest,
            },
    }
}

/// The state with the status that a step gives it.
pub open spec fn with_status(state: AppStateView, step: FeedStep) -> AppStateView {
    match step.status {
        Some(status) => AppStateView { status, ..state },
        None => state,
    }
}

/// Gives the state the status of a step, where the step changes it.
pub fn apply_status(state: &mut AppState, step: FeedStep)
    ensures
        final(state)@ == with_status(old(state)@, step),
        old(state)@.valid() ==> final(state)@.valid(),
{
    if let Some(status) = step.status {
        state.status = status;
    }
}

/// Whether an event can come of an action.
pub open spec fn comes_of(event: FeedEvent, action: FeedAction) -> bool {
    match action {
        FeedAction::Connect => event is Opened || event is OpenFailed,
        FeedAction::Receive => {
            ||| event is Text
            ||| event is OtherMessage
            ||| event is ReceiveFailed
            ||| event is Closed
            ||| event is Idle
        },
        FeedAction::Rest => event is Ready,
    }
}

/// The status that goes with what is to be done next.
pub open spec fn status_during(action: FeedAction) -> ConnectionStatus {
    match action {
        FeedAction::Connect => ConnectionStatus::Connecting,
        FeedAction::Receive => ConnectionStatus::Connected,
        FeedAction::Rest => ConnectionStatus::Disconnected,
    }
}

/// A run of the connection: it starts ready, and each event comes of the action before it.
pub open spec fn is_run(events: Seq<FeedEvent>) -> bool
    decreases events.len(),
{
    if events.len() <= 1 {
        events.len() == 1 && events[0] is Ready
    } else {
        is_run(events.drop_last()) && comes_of(
            events.last(),
            spec_feed_step(events.drop_last().last()).action,
        )
    }
}

/// The state after the events of a run.
pub open spec fn after_events(state: AppStateView, events: Seq<FeedEvent>) -> AppStateView
    decreases events.len(),
{
    if events.len() == 0 {
        state
    } else {
        with_status(after_events(state, events.drop_last()), spec_feed_step(events.last()))
    }
}

/// At every point of a run the status tells what is going on: connecting while a connection is
/// being opened, connected while messages are awaited, and disconnected during the rest. Nothing
/// but the status of the state is touched.
pub proof fn law_status_tells_what_goes_on(state: AppStateView, events: Seq<FeedEvent>)
    requires
        is_run(events),
    ensures
        after_events(state, events) == (AppStateView {
            status: status_during(spec_feed_step(events.last()).action),
            ..state
        }),
    decreases events.len(),
{
    let before = events.drop_last();
    if events.len() > 1 {
        law_status_tells_what_goes_on(state, before);
    } else {
        assert(after_events(state, before) == state);
    }
}

/// A price is handed on only when a text message brings it, and only while connected.
pub proof fn law_prices_come_over_a_connection(events: Seq<FeedEvent>)
    requires
        is_run(events),
        spec_feed_step(events.last()).price is Some,
    ensures
        events.last() == FeedEvent::Text(spec_feed_step(events.last()).price),
        spec_feed_step(events.last()).action is Receive,
        events.len() > 1,
        spec_feed_step(events.drop_last().last()).action is Receive,
{
}

/// A connection that was lost or could not be opened is tried again, by the first event that comes
/// after it.
pub proof fn law_lost_connection_is_tried_again(event: FeedEvent, next: FeedEvent)
    requires
        spec_feed_step(event).action is Rest,
        comes_of(next, spec_feed_step(event).action),
    ensures
        spec_feed_step(next).action is Connect,
        spec_feed_step(next).status == Some(ConnectionStatus::Connecting),
{
}

/// No price is lost or changed: a text message that brings a price always hands exactly that price
/// on, one that brings none hands none on, and the connection goes on as it is.
pub proof fn law_every_price_is_handed_on(price: Price)
    ensures
        spec_feed_step(FeedEvent::Text(Some(price))).price == Some(price),
        spec_feed_step(FeedEvent::Text(Some(price))).action is Receive,
        spec_feed_step(FeedEvent::Text(Some(price))).status is None,
        spec_feed_step(FeedEvent::Text(None)).price is None,
        spec_feed_step(FeedEvent::Text(None)).action is Receive,
        spec_feed_step(FeedEvent::Text(None)).status is None,
{
}

/// Nothing but a text message makes a price.
pub proof fn law_only_texts_bring_prices(event: FeedEvent)
    requires
        event !is Text,
    ensures
        spec_feed_step(event).price is None,
{
}

/// Which status an event leads to, and which events lead to it.
pub proof fn law_status_of_events(event: FeedEvent)
    ensures
        spec_feed_step(event).status == Some(ConnectionStatus::Connecting) <==> event is Ready,
        spec_feed_step(event).status == Some(ConnectionStatus::Connected) <==> event is Opened,
        spec_feed_step(event).status == Some(ConnectionStatus::Disconnected) <==> event
            is OpenFailed || event is ReceiveFailed || event is Closed || event is Idle,
        spec_feed_step(event).status is None <==> event is Text || event is OtherMessage,
{
}

/// What is done next: a connection is opened only when ready, given up only when it was not opened
/// or no longer gives messages, and otherwise waited on.
pub proof fn law_action_of_events(event: FeedEvent)
    ensures
        spec_feed_step(event).action is Connect <==> event is Ready,
        spec_feed_step(event).action is Rest <==> event is OpenFailed || event is ReceiveFailed
            || event is Closed || event is Idle,
        spec_feed_step(event).action is Receive <==> event is Opened || event is Text || event
            is OtherMessage,
{
}

/// A step touches nothing of the state but the status, and that only where it has one.
pub proof fn law_step_touches_the_status_only(state: AppStateView, step: FeedStep)
    ensures
        ({
            let end = with_status(state, step);
            &&& step.status is Some ==> end.status == step.status->0
            &&& step.status is None ==> end.status == state.status
            &&& end.price == state.price && end.prev_price == state.prev_price
            &&& end.alert == state.alert
            &&& end.input_mode == state.input_mode
            &&& end.input == state.input
            &&& end.alert_direction == state.alert_direction
            &&& end.alert_flash == state.alert_flash
        }),
{
}

} // verus!
