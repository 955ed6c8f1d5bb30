//! The decisions of the event loop: what each round of it sounds, takes in and redraws.

use crate::canvas::{
    follows, law_full_redraw_shows_state, law_partial_redraw_is_enough, roomy, shown, Ink, Terminal,
};
use crate::clock::{
    all_after, lemma_all_after_with_first, lemma_spaced_with_first, spaced, spec_waited, waited,
    NANOS_PER_SEC,
};
use crate::price::Price;
use crate::screen::{full_drawing, partial_drawing, DrawView};
use crate::session::{after_prices, law_prices_leave_settings};
use crate::state::{AppState, AppStateView, ConnectionStatus, Key, KeyOutcome};
use vstd::prelude::*;

verus! {

/// Seconds between two sounds while the connection is down.
pub const DISCONNECT_SOUND_INTERVAL: u64 = 5;

/// Milliseconds that a round of the loop waits for a key press.
pub const POLL_MILLIS: u64 = 50;

/// Something that the terminal reports.
#[derive(Clone, Copy, Debug, PartialEq, Eq, Structural)]
pub enum InputEvent {
    /// A key was pressed, with the Control key held or not.
    Key {
        /// The key.
        key: Key,
        /// Whether Control was held.
        control: bool,
    },
    /// The terminal has another size.
    Resize,
    /// Anything else.
    Other,
}

/// How much of the screen is drawn.
#[derive(Clone, Copy, Debug, PartialEq, Eq, Structural)]
pub enum Redraw {
    /// All of it.
    Full,
    /// The status and the price, and the alert if it went off.
    Partial,
    /// Nothing.
    Nothing,
}

/// What the event loop remembers from one round to the next.
#[derive(Clone, Copy, Debug, PartialEq, Eq, Structural)]
pub struct Ticker {
    /// The number of rounds, which starts over when it no longer fits.
    pub flash_counter: u32,
    /// Whether the whole screen is out of date.
    pub need_full_redraw: bool,
    /// The status that the screen shows.
    pub last_rendered_status: Option<ConnectionStatus>,
    /// When the sound of a lost connection was last played since there was a connection.
    pub last_disconnect_sound: Option<u128>,
}

/// Whether an alert that went off is shown bright in a round: three rounds it is, three it is not.
pub open spec fn bright(flash_counter: u32) -> bool {
    flash_counter % 6 < 3
}

impl Ticker {
    /// Whether the sound of a lost connection is played in a round that finds `status` at `now`.
    pub open spec fn disconnect_sound_due(self, status: ConnectionStatus, now: u128) -> bool {
        status is Disconnected && spec_waited(
            self.last_disconnect_sound,
            now,
            DISCONNECT_SOUND_INTERVAL,
        )
    }

    /// The ticker after a round found `status` at `now`.
    pub open spec fn after_status(self, status: ConnectionStatus, now: u128) -> Ticker {
        if self.disconnect_sound_due(status, now) {
            Ticker { last_disconnect_sound: Some(now), ..self }
        } else if status is Connected {
            Ticker { last_disconnect_sound: None, ..self }
        } else {
            self
        }
    }

    /// The ticker after a round counted itself.
    pub open spec fn after_flash(self) -> Ticker {
        Ticker {
            flash_counter: if self.flash_counter == u32::MAX {
                0
            } else {
                (self.flash_counter + 1) as u32
            },
            ..self
        }
    }

    /// The ticker after an event of the terminal.
    pub open spec fn after_event(self, event: InputEvent) -> Ticker {
        match event {
            InputEvent::Other => self,
            _ => Ticker { need_full_redraw: true, ..self },
        }
    }

    /// How much a round draws of `state`, where `got_new_price` says whether a price came in.
    pub open spec fn spec_choose_redraw(self, state: AppStateView, got_new_price: bool) -> Redraw {
        if self.need_full_redraw {
            Redraw::Full
        } else if got_new_price || state.triggered() || self.last_rendered_status != Some(
            state.status,
        ) {
            Redraw::Partial
        } else {
            Redraw::Nothing
        }
    }

    /// The ticker after a round has drawn `state`.
    pub open spec fn after_redraw(self, state: AppStateView) -> Ticker {
        Ticker { need_full_redraw: false, last_rendered_status: Some(state.status), ..self }
    }

    /// The ticker before the first round, when the screen is still empty.
    pub open spec fn fresh() -> Ticker {
        Ticker {
            flash_counter: 0,
            need_full_redraw: true,
            last_rendered_status: None,
            last_disconnect_sound: None,
        }
    }

    /// The ticker before the first round, when the screen is still empty.
    pub fn new() -> (ticker: Ticker)
        ensures
            ticker == (Ticker {
                flash_counter: 0,
                need_full_redraw: true,
                last_rendered_status: None,
                last_disconnect_sound: None,
            }),
            ticker == Ticker::fresh(),
    {
        Ticker {
            flash_counter: 0,
            need_full_redraw: true,
            last_rendered_status: None,
            last_disconnect_sound: None,
        }
    }

    /// Takes in the connection status that a round finds at `now`. Returns whether the sound of a
    /// lost connection is to be played.
    pub fn on_status(&mut self, status: ConnectionStatus, now: u128) -> (sound: bool)
        ensures
            sound == old(self).disconnect_sound_due(status, now),
            *final(self) == old(self).after_status(status, now),
    {
        match status {
            ConnectionStatus::Disconnected => {
                let due = waited(self.last_disconnect_sound, now, DISCONNECT_SOUND_INTERVAL);
                if due {
                    self.last_disconnect_sound = Some(now);
                }
                due
            },
            ConnectionStatus::Connected => {
                self.last_disconnect_sound = None;
                false
            },
            ConnectionStatus::Connecting => false,
        }
    }

    /// Counts a round, and makes an alert that went off bright or dark for it.
    pub fn flash(&mut self, state: &mut AppState)
        ensures
            *final(self) == old(self).after_flash(),
            final(state)@ == (AppStateView {
                alert_flash: bright(final(self).flash_counter),
                ..old(state)@
            }),
            old(state)@.valid() ==> final(state)@.valid(),
    {
        self.flash_counter = self.flash_counter.wrapping_add(1);
        state.alert_flash = self.flash_counter % 6 < 3;
    }

    /// Takes in an event of the terminal. `parsed` is the number that the typed text stands for, if
    /// it stands for one. Returns what is left to do.
    pub fn on_event(
        &mut self,
        state: &mut AppState,
        event: InputEvent,
        parsed: Option<Price>,
    ) -> (outcome: KeyOutcome)
        ensures
            *final(self) == old(self).after_event(event),
            match event {
                InputEvent::Key { key, control } => {
                    &&& final(state)@ == old(state)@.after_key(key, control, parsed)
                    &&& outcome == old(state)@.key_outcome(key, control, parsed)
                },
                _ => final(state)@ == old(state)@ && outcome is Continue,
            },
            old(state)@.valid() ==> final(state)@.valid(),
    {
        match event {
            InputEvent::Key { key, control } => {
                self.need_full_redraw = true;
                state.on_key(key, control, parsed)
            },
            InputEvent::Resize => {
                self.need_full_redraw = true;
                KeyOutcome::Continue
            },
            InputEvent::Other => KeyOutcome::Continue,
        }
    }

    /// Decides how much of `state` a round draws, where `got_new_price` says whether a price came
    /// in.
    pub fn choose_redraw(&mut self, state: &AppState, got_new_price: bool) -> (redraw: Redraw)
        ensures
            redraw == old(self).spec_choose_redraw(state@, got_new_price),
            *final(self) == old(self).after_redraw(state@),
    {
        let status_changed = match self.last_rendered_status {
            Some(last) => last != state.status,
            None => true,
        };
        let redraw = if self.need_full_redraw {
            Redraw::Full
        } else if got_new_price || state.triggered() || status_changed {
            Redraw::Partial
        } else {
            Redraw::Nothing
        };
        self.need_full_redraw = false;
        self.last_rendered_status = Some(state.status);
        redraw
    }
}

/// The times at which the sound of a lost connection is played in rounds that find these statuses
/// at these times.
pub open spec fn disconnect_sounds(
    ticker: Ticker,
    rounds: Seq<(ConnectionStatus, u128)>,
) -> Seq<u128>
    decreases rounds.len(),
{
    if rounds.len() == 0 {
        Seq::empty()
    } else {
        let (status, now) = rounds.first();
        let later = disconnect_sounds(ticker.after_status(status, now), rounds.drop_first());
        if ticker.disconnect_sound_due(status, now) {
            seq![now] + later
        } else {
            later
        }
    }
}

/// The wait between two sounds of a lost connection, in nanoseconds.
pub open spec fn sound_interval() -> int {
    DISCONNECT_SOUND_INTERVAL * NANOS_PER_SEC
}

/// As long as no connection comes about, two sounds of a lost connection are never closer together
/// than the interval, and none is closer than that to one from before, however often a connection
/// is tried in between.
pub proof fn law_disconnect_sounds_are_spaced(
    ticker: Ticker,
    rounds: Seq<(ConnectionStatus, u128)>,
)
    requires
        forall|i: int| 0 <= i < rounds.len() ==> (#[trigger] rounds[i]).0 !is Connected,
    ensures
        spaced(disconnect_sounds(ticker, rounds), sound_interval()),
        all_after(
            disconnect_sounds(ticker, rounds),
            ticker.last_disconnect_sound,
            sound_interval(),
        ),
    decreases rounds.len(),
{
    if rounds.len() > 0 {
        let (status, now) = rounds.first();
        let rest = rounds.drop_first();
        let next = ticker.after_status(status, now);
        let later = disconnect_sounds(next, rest);
        assert forall|i: int| 0 <= i < rest.len() implies (#[trigger] rest[i]).0 !is Connected by {
            assert(rest[i] == rounds[i + 1]);
        }
        assert(rounds[0] == rounds.first());
        law_disconnect_sounds_are_spaced(next, rest);
        if ticker.disconnect_sound_due(status, now) {
            lemma_spaced_with_first(now, later, sound_interval());
            lemma_all_after_with_first(now, later, ticker.last_disconnect_sound, sound_interval());
        }
    }
}

/// A connection that was there and is lost is heard in the first round that finds it lost. A
/// connection that never came about is heard as well: the sound tells that there is no connection,
/// not that there was one before.
pub proof fn law_lost_connection_is_heard_at_once(
    ticker: Ticker,
    connected_at: u128,
    lost_at: u128,
)
    ensures
        ticker.after_status(ConnectionStatus::Connected, connected_at).disconnect_sound_due(
            ConnectionStatus::Disconnected,
            lost_at,
        ),
        ticker.last_disconnect_sound is None ==> ticker.disconnect_sound_due(
            ConnectionStatus::Disconnected,
            lost_at,
        ),
{
}

/// Flashing repeats every six rounds, and three rounds on is the opposite, as long as the count of
/// the rounds does not start over.
pub proof fn law_flash_alternates(flash_counter: u32)
    ensures
        flash_counter <= u32::MAX - 6 ==> bright((flash_counter + 6) as u32) == bright(
            flash_counter,
        ),
        flash_counter <= u32::MAX - 3 ==> bright((flash_counter + 3) as u32) != bright(
            flash_counter,
        ),
{
}

/// A price written out by `write`, or nothing where there is no price.
pub open spec fn written(write: spec_fn(Price) -> Seq<char>, price: Option<Price>) -> Seq<char> {
    match price {
        Some(price) => write(price),
        None => Seq::empty(),
    }
}

/// The threshold of the alert written out by `write`, or nothing where there is no alert.
pub open spec fn written_alert(
    write: spec_fn(Price) -> Seq<char>,
    state: AppStateView,
) -> Seq<char> {
    match state.alert {
        Some(alert) => write(alert.price),
        None => Seq::empty(),
    }
}

/// What the terminal shows of `state`, with prices written out by `write`.
pub open spec fn display(
    state: AppStateView,
    cols: u16,
    rows: u16,
    write: spec_fn(Price) -> Seq<char>,
) -> Map<u16, Seq<Ink>> {
    shown(state, cols, rows, written(write, state.price), written_alert(write, state))
}

/// The commands that a redraw consists of, with prices written out by `write`.
pub open spec fn drawing(
    redraw: Redraw,
    state: AppStateView,
    cols: u16,
    rows: u16,
    write: spec_fn(Price) -> Seq<char>,
) -> Seq<DrawView> {
    let price_text = written(write, state.price);
    let alert_text = written_alert(write, state);
    match redraw {
        Redraw::Full => full_drawing(state, true, cols, rows, price_text, alert_text),
        Redraw::Partial => partial_drawing(state, cols, rows, price_text, alert_text),
        Redraw::Nothing => Seq::empty(),
    }
}

/// The state at the end of a round without an event of the terminal: the connection has `status`,
/// the prices of `quotes` came in, and flashing is at `flash`.
pub open spec fn after_quiet_round(
    state: AppStateView,
    status: ConnectionStatus,
    quotes: Seq<(Price, u128)>,
    flash: bool,
) -> AppStateView {
    AppStateView {
        alert_flash: flash,
        ..after_prices(AppStateView { status, ..state }, quotes)
    }
}

/// The screen is never out of date. Where it shows the state of the last round, then after a round
/// without a key press or a change of size it shows the state of that round, however many prices
/// came in and whatever became of the connection, though only part of the screen, or none of it,
/// was drawn. Only where a partial redraw meets a terminal that is too low for its rows to be apart
/// can this fail.
pub proof fn law_screen_is_current(
    terminal: Terminal,
    ticker: Ticker,
    old_state: AppStateView,
    status: ConnectionStatus,
    quotes: Seq<(Price, u128)>,
    flash: bool,
    cols: u16,
    rows: u16,
    write: spec_fn(Price) -> Seq<char>,
)
    requires
        terminal.plain(),
        terminal.lines == display(old_state, cols, rows, write),
        ticker.last_rendered_status == Some(old_state.status),
        !ticker.need_full_redraw,
        roomy(rows) || ticker.spec_choose_redraw(
            after_quiet_round(old_state, status, quotes, flash),
            quotes.len() > 0,
        ) is Nothing,
    ensures
        ({
            let state = after_quiet_round(old_state, status, quotes, flash);
            let redraw = ticker.spec_choose_redraw(state, quotes.len() > 0);
            let end = terminal.painted(drawing(redraw, state, cols, rows, write));
            &&& end.lines == display(state, cols, rows, write)
            &&& end.plain()
            &&& ticker.after_redraw(state).last_rendered_status == Some(state.status)
            &&& !ticker.after_redraw(state).need_full_redraw
        }),
{
    let state = after_quiet_round(old_state, status, quotes, flash);
    let redraw = ticker.spec_choose_redraw(state, quotes.len() > 0);
    law_prices_leave_settings(AppStateView { status, ..old_state }, quotes);
    assert(follows(old_state, state));
    if redraw is Partial {
        assert(written_alert(write, old_state) == written_alert(write, state));
        law_partial_redraw_is_enough(
            terminal,
            old_state,
            state,
            cols,
            rows,
            written(write, old_state.price),
            written(write, state.price),
            written_alert(write, state),
        );
    } else {
        assert(quotes.len() == 0);
        assert(state.alert == old_state.alert);
        assert(state == AppStateView { alert_flash: flash, ..old_state });
        assert(terminal.painted(Seq::<DrawView>::empty()) == terminal);
        assert(display(state, cols, rows, write) =~~= display(old_state, cols, rows, write));
    }
}

/// In the first round, and in every round with a key press or a change of size, the screen comes to
/// show the state, whatever it showed before.
pub proof fn law_screen_is_current_after_event(
    terminal: Terminal,
    ticker: Ticker,
    event: InputEvent,
    state: AppStateView,
    got_new_price: bool,
    cols: u16,
    rows: u16,
    write: spec_fn(Price) -> Seq<char>,
)
    requires
        terminal.plain(),
        ticker.need_full_redraw || event !is Other,
    ensures
        ({
            let seen = ticker.after_event(event);
            let redraw = seen.spec_choose_redraw(state, got_new_price);
            let end = terminal.painted(drawing(redraw, state, cols, rows, write));
            &&& end.lines == display(state, cols, rows, write)
            &&& end.plain()
            &&& seen.after_redraw(state).last_rendered_status == Some(state.status)
            &&& !seen.after_redraw(state).need_full_redraw
        }),
{
    law_full_redraw_shows_state(
        terminal,
        state,
        cols,
        rows,
        written(write, state.price),
        written_alert(write, state),
    );
}

/// The sound of a lost connection is played only while disconnected, never while connected or
/// connecting; and then exactly when it was not played before, or five seconds ago or longer.
pub proof fn law_disconnect_sound_only_while_disconnected(
    ticker: Ticker,
    status: ConnectionStatus,
    now: u128,
)
    ensures
        ticker.disconnect_sound_due(status, now) ==> status is Disconnected,
        ticker.disconnect_sound_due(status, now) ==> (ticker.last_disconnect_sound
            matches Some(last) ==> now - last >= 5_000_000_000),
        status is Disconnected && (ticker.last_disconnect_sound matches Some(last) ==> now - last
            >= 5_000_000_000) ==> ticker.disconnect_sound_due(status, now),
{
}

/// What a round remembers of the sound: its time where it is played, nothing once there is a
/// connection, and otherwise what was remembered before. Nothing else of the ticker changes.
pub proof fn law_status_moves_the_sound_time(
    ticker: Ticker,
    status: ConnectionStatus,
    now: u128,
)
    ensures
        ({
            let end = ticker.after_status(status, now);
            &&& ticker.disconnect_sound_due(status, now) ==> end.last_disconnect_sound == Some(now)
            &&& status is Connected ==> end.last_disconnect_sound is None
            &&& status is Connecting ==> end.last_disconnect_sound == ticker.last_disconnect_sound
            &&& status is Disconnected && !ticker.disconnect_sound_due(status, now)
                ==> end.last_disconnect_sound == ticker.last_disconnect_sound
            &&& end.flash_counter == ticker.flash_counter
            &&& end.need_full_redraw == ticker.need_full_redraw
            &&& end.last_rendered_status == ticker.last_rendered_status
        }),
{
}

/// Of every six rounds, counted from zero, the first three are bright.
pub proof fn law_first_three_of_six_are_bright(cycle: nat, place: nat)
    requires
        place < 6,
        6 * cycle + place <= u32::MAX,
    ensures
        bright((6 * cycle + place) as u32) <==> place < 3,
{
}

/// A round counts one up, from the largest count to zero, and changes nothing else.
pub proof fn law_rounds_are_counted(ticker: Ticker)
    ensures
        ({
            let end = ticker.after_flash();
            &&& (ticker.flash_counter + 1 - end.flash_counter) % 0x1_0000_0000 == 0
            &&& end.need_full_redraw == ticker.need_full_redraw
            &&& end.last_rendered_status == ticker.last_rendered_status
            &&& end.last_disconnect_sound == ticker.last_disconnect_sound
        }),
{
}

/// A key press and a change of size ask for the whole screen to be drawn. No event takes such a
/// demand back, and none changes anything else.
pub proof fn law_events_ask_for_a_full_redraw(ticker: Ticker, event: InputEvent)
    ensures
        ({
            let end = ticker.after_event(event);
            &&& event is Key || event is Resize ==> end.need_full_redraw
            &&& event is Other ==> end.need_full_redraw == ticker.need_full_redraw
            &&& end.flash_counter == ticker.flash_counter
            &&& end.last_rendered_status == ticker.last_rendered_status
            &&& end.last_disconnect_sound == ticker.last_disconnect_sound
        }),
{
}

/// How much is drawn: everything exactly when that is asked for; otherwise nothing exactly when no
/// price came in, no alert has gone off, and the screen shows the status.
pub proof fn law_how_much_is_drawn(ticker: Ticker, state: AppStateView, got_new_price: bool)
    ensures
        ({
            let redraw = ticker.spec_choose_redraw(state, got_new_price);
            let gone_off = state.alert is Some && state.alert->0.last_triggered is Some;
            &&& redraw is Full <==> ticker.need_full_redraw
            &&& redraw is Nothing <==> {
                &&& !ticker.need_full_redraw
                &&& !got_new_price
                &&& !gone_off
                &&& ticker.last_rendered_status is Some
                &&& ticker.last_rendered_status->0 == state.status
            }
        }),
        ({
            let end = ticker.after_redraw(state);
            &&& !end.need_full_redraw
            &&& end.last_rendered_status == Some(state.status)
            &&& end.flash_counter == ticker.flash_counter
            &&& end.last_disconnect_sound == ticker.last_disconnect_sound
        }),
{
}

/// The first round draws everything, sounds at once where there is no connection, and is bright:
/// of the rounds that follow on it, the next one is bright too and the three after that are not.
pub proof fn law_first_round(
    state: AppStateView,
    got_new_price: bool,
    status: ConnectionStatus,
    now: u128,
)
    ensures
        Ticker::fresh().spec_choose_redraw(state, got_new_price) is Full,
        Ticker::fresh().disconnect_sound_due(status, now) <==> status is Disconnected,
        ({
            let first = Ticker::fresh().after_flash();
            let second = first.after_flash();
            let third = second.after_flash();
            let fourth = third.after_flash();
            let fifth = fourth.after_flash();
            let sixth = fifth.after_flash();
            &&& bright(first.flash_counter)
            &&& bright(second.flash_counter)
            &&& !bright(third.flash_counter)
            &&& !bright(fourth.flash_counter)
            &&& !bright(fifth.flash_counter)
            &&& bright(sixth.flash_counter)
        }),
{
}

} // verus!
