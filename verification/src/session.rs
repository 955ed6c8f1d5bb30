//! What holds of whole runs of prices and key presses.

use crate::alert::{Alert, AlertDirection, SavedAlert, ALERT_DEBOUNCE_SECS};
use crate::clock::{
    all_after, lemma_all_after_with_first, lemma_spaced_with_first, spaced, NANOS_PER_SEC,
};
use crate::price::Price;
use crate::state::{
    is_price_char, AppStateView, ConnectionStatus, InputMode, Key, KeyOutcome,
};
use crate::store::{spec_load_alert, spec_saved_form};
use vstd::prelude::*;

verus! {

/// The state after the prices of `quotes`, each with the time at which it came in.
pub open spec fn after_prices(state: AppStateView, quotes: Seq<(Price, u128)>) -> AppStateView
    decreases quotes.len(),
{
    if quotes.len() == 0 {
        state
    } else {
        let (price, now) = quotes.first();
        after_prices(state.after_price(price, now), quotes.drop_first())
    }
}

/// A key press, with the Control key held or not, and the number that the typed text stood for when
/// the key was pressed, if it stood for one.
pub struct Press {
    /// The key.
    pub key: Key,
    /// Whether Control was held.
    pub control: bool,
    /// The number that the typed text stood for.
    pub parsed: Option<Price>,
}

impl Press {
    /// The state after the key press.
    pub open spec fn after(self, state: AppStateView) -> AppStateView {
        state.after_key(self.key, self.control, self.parsed)
    }

    /// What is left to do after the key press.
    pub open spec fn outcome(self, state: AppStateView) -> KeyOutcome {
        state.key_outcome(self.key, self.control, self.parsed)
    }
}

/// Something that changes the state.
pub enum Happening {
    /// A price came in at a time.
    Quote(Price, u128),
    /// A key was pressed.
    Key(Press),
    /// The connection has another status.
    Status(ConnectionStatus),
    /// An alert that went off is shown bright or dark.
    Flash(bool),
}

impl Happening {
    /// The state after the happening.
    pub open spec fn after(self, state: AppStateView) -> AppStateView {
        match self {
            Happening::Quote(price, now) => state.after_price(price, now),
            Happening::Key(press) => press.after(state),
            Happening::Status(status) => AppStateView { status, ..state },
            Happening::Flash(flash) => AppStateView { alert_flash: flash, ..state },
        }
    }

    /// The time at which the happening sets off the alert, if it does.
    pub open spec fn alarm(self, state: AppStateView) -> Option<u128> {
        match self {
            Happening::Quote(price, now) if state.price_sound(price, now) is Some => Some(now),
            _ => None,
        }
    }

    /// Whether the happening hands an alert, or that there is none, on for saving.
    pub open spec fn saves(self, state: AppStateView) -> bool {
        self matches Happening::Key(press) && press.outcome(state) is Save
    }
}

/// The state after a run of happenings.
pub open spec fn after_run(state: AppStateView, run: Seq<Happening>) -> AppStateView
    decreases run.len(),
{
    if run.len() == 0 {
        state
    } else {
        after_run(run.first().after(state), run.drop_first())
    }
}

/// The times at which the alert goes off during a run.
pub open spec fn alarms(state: AppStateView, run: Seq<Happening>) -> Seq<u128>
    decreases run.len(),
{
    if run.len() == 0 {
        Seq::empty()
    } else {
        let later = alarms(run.first().after(state), run.drop_first());
        match run.first().alarm(state) {
            Some(now) => seq![now] + later,
            None => later,
        }
    }
}

/// Whether no key press of a run hands anything on for saving, so that the alert is one and the
/// same from the start of the run to its end.
pub open spec fn keeps_alert(state: AppStateView, run: Seq<Happening>) -> bool
    decreases run.len(),
{
    run.len() > 0 ==> !run.first().saves(state) && keeps_alert(
        run.first().after(state),
        run.drop_first(),
    )
}

/// When the alert last went off, if there is one and it did.
pub open spec fn last_alarm(state: AppStateView) -> Option<u128> {
    match state.alert {
        Some(alert) => alert.last_triggered,
        None => None,
    }
}

/// The wait between two alarms, in nanoseconds.
pub open spec fn debounce() -> int {
    ALERT_DEBOUNCE_SECS * NANOS_PER_SEC
}

/// However prices, key presses, changes of the connection and flashing mix, two alarms of one alert
/// are never closer together than the debounce, and none is closer than that to an alarm from
/// before the run.
pub proof fn law_alarms_are_spaced(state: AppStateView, run: Seq<Happening>)
    requires
        keeps_alert(state, run),
    ensures
        spaced(alarms(state, run), debounce()),
        all_after(alarms(state, run), last_alarm(state), debounce()),
    decreases run.len(),
{
    if run.len() > 0 {
        let next = run.first().after(state);
        let later = alarms(next, run.drop_first());
        law_alarms_are_spaced(next, run.drop_first());
        if let Some(now) = run.first().alarm(state) {
            lemma_spaced_with_first(now, later, debounce());
            lemma_all_after_with_first(now, later, last_alarm(state), debounce());
        }
    }
}

/// As long as nothing is handed on for saving, there is an alert at the end exactly when there was
/// one at the start, with the same threshold and direction, and one that has gone off stays so.
pub proof fn law_alert_is_kept(state: AppStateView, run: Seq<Happening>)
    requires
        keeps_alert(state, run),
    ensures
        ({
            let end = after_run(state, run);
            &&& end.alert is Some <==> state.alert is Some
            &&& state.alert is Some ==> end.alert->0.rearmed() == state.alert->0.rearmed()
            &&& state.triggered() ==> end.triggered()
        }),
    decreases run.len(),
{
    if run.len() > 0 {
        law_alert_is_kept(run.first().after(state), run.drop_first());
    }
}

/// A run of prices alone keeps the alert, and leads to the state after the prices.
pub proof fn law_prices_are_a_run(state: AppStateView, quotes: Seq<(Price, u128)>)
    ensures
        ({
            let run = quotes.map_values(|quote: (Price, u128)| Happening::Quote(quote.0, quote.1));
            &&& keeps_alert(state, run)
            &&& after_run(state, run) == after_prices(state, quotes)
        }),
    decreases quotes.len(),
{
    let as_quote = |quote: (Price, u128)| Happening::Quote(quote.0, quote.1);
    let run = quotes.map_values(as_quote);
    if quotes.len() > 0 {
        let (price, now) = quotes.first();
        law_prices_are_a_run(state.after_price(price, now), quotes.drop_first());
        assert(run.drop_first() =~= quotes.drop_first().map_values(as_quote));
        assert(run.first() == Happening::Quote(price, now));
    }
}

/// Once the debounce is over, the alert goes off again at the next price that reaches it, with the
/// sound of its direction.
pub proof fn law_alarm_repeats_after_debounce(state: AppStateView, price: Price, now: u128)
    requires
        state.triggered(),
        now - state.alert->0.last_triggered->0 >= debounce(),
        state.alert->0.spec_reached_by(price),
    ensures
        state.price_sound(price, now) == Some(state.alert->0.direction),
        state.after_price(price, now).alert->0.last_triggered == Some(now),
{
}

/// Prices change neither the alert's settings nor anything that belongs to the keyboard, the
/// connection or the display.
pub proof fn law_prices_leave_settings(state: AppStateView, quotes: Seq<(Price, u128)>)
    ensures
        ({
            let end = after_prices(state, quotes);
            &&& end.alert is Some <==> state.alert is Some
            &&& state.alert is Some ==> end.alert->0.rearmed() == state.alert->0.rearmed()
            &&& state.triggered() ==> end.triggered()
            &&& end.input_mode == state.input_mode
            &&& end.input == state.input
            &&& end.alert_direction == state.alert_direction
            &&& end.status == state.status
            &&& end.alert_flash == state.alert_flash
        }),
    decreases quotes.len(),
{
    if quotes.len() > 0 {
        let (price, now) = quotes.first();
        law_prices_leave_settings(state.after_price(price, now), quotes.drop_first());
    }
}

/// After a run of prices the state knows the last price of the run, and the one before it: that of
/// the run, or the latest from before the run where the run has only one.
pub proof fn law_last_two_prices_are_kept(state: AppStateView, quotes: Seq<(Price, u128)>)
    requires
        quotes.len() > 0,
    ensures
        after_prices(state, quotes).price == Some(quotes.last().0),
        after_prices(state, quotes).prev_price == (if quotes.len() == 1 {
            state.price
        } else {
            Some(quotes[quotes.len() - 2].0)
        }),
    decreases quotes.len(),
{
    let (price, now) = quotes.first();
    let rest = quotes.drop_first();
    let next = state.after_price(price, now);
    if rest.len() > 0 {
        law_last_two_prices_are_kept(next, rest);
    } else {
        assert(after_prices(next, rest) == next);
    }
}

/// Without an alert nothing sounds, until one is set.
pub proof fn law_no_alert_no_alarm(state: AppStateView, run: Seq<Happening>)
    requires
        state.alert is None,
        keeps_alert(state, run),
    ensures
        alarms(state, run).len() == 0,
    decreases run.len(),
{
    if run.len() > 0 {
        law_no_alert_no_alarm(run.first().after(state), run.drop_first());
    }
}

/// The state after key presses, one after the other.
pub open spec fn after_presses(state: AppStateView, presses: Seq<Press>) -> AppStateView
    decreases presses.len(),
{
    if presses.len() == 0 {
        state
    } else {
        presses.last().after(after_presses(state, presses.drop_last()))
    }
}

/// Whether none of the keys ends price entry.
pub open spec fn stays_in_entry(presses: Seq<Press>) -> bool {
    forall|i: int|
        0 <= i < presses.len() ==> (#[trigger] presses[i]).key !is Enter && presses[i].key !is Esc
}

/// What the keys leave of `text` and what is typed after it: a digit or a dot is added at the end,
/// Backspace takes the last character away, and every other key does nothing.
pub open spec fn typed_after(text: Seq<char>, presses: Seq<Press>) -> Seq<char>
    decreases presses.len(),
{
    if presses.len() == 0 {
        text
    } else {
        let before = typed_after(text, presses.drop_last());
        match presses.last().key {
            Key::Char(c) if is_price_char(c) => before.push(c),
            Key::Backspace if before.len() > 0 => before.drop_last(),
            _ => before,
        }
    }
}

/// How often Tab is among the keys.
pub open spec fn tabs(presses: Seq<Press>) -> nat
    decreases presses.len(),
{
    if presses.len() == 0 {
        0
    } else {
        tabs(presses.drop_last()) + if presses.last().key is Tab {
            1nat
        } else {
            0nat
        }
    }
}

/// The direction that `start` is turned to by so many Tabs.
pub open spec fn turned(start: AlertDirection, tabs: nat) -> AlertDirection {
    if tabs % 2 == 0 {
        start
    } else {
        start.spec_toggled()
    }
}

/// During price entry the keys may come in any order. As long as none of them ends it, the text is
/// what the character keys and Backspace alone leave, the direction is turned round by an odd
/// number of Tabs and kept by an even one, and nothing else changes.
pub proof fn law_entry_takes_keys_in_any_order(state: AppStateView, presses: Seq<Press>)
    requires
        state.input_mode is EnteringPrice,
        stays_in_entry(presses),
    ensures
        after_presses(state, presses) == (AppStateView {
            input: typed_after(state.input, presses),
            alert_direction: turned(state.alert_direction, tabs(presses)),
            ..state
        }),
        forall|i: int|
            0 <= i < presses.len() ==> (#[trigger] presses[i]).outcome(
                after_presses(state, presses.take(i)),
            ) is Continue,
    decreases presses.len(),
{
    if presses.len() > 0 {
        let before = presses.drop_last();
        assert forall|i: int| 0 <= i < before.len() implies (#[trigger] before[i]).key !is Enter
            && before[i].key !is Esc by {
            assert(before[i] == presses[i]);
        }
        law_entry_takes_keys_in_any_order(state, before);
        assert(presses[presses.len() - 1] == presses.last());
        assert forall|i: int| 0 <= i < presses.len() implies (#[trigger] presses[i]).outcome(
            after_presses(state, presses.take(i)),
        ) is Continue by {
            if i < before.len() {
                assert(before[i] == presses[i]);
                assert(before.take(i) =~= presses.take(i));
            } else {
                assert(presses.take(i) =~= before);
            }
        }
    }
}

/// Where only character keys are pressed, the digits and dots among them are added in the order in
/// which they are typed.
pub proof fn law_typing_collects_digits_and_dots(
    text: Seq<char>,
    typed: Seq<char>,
    presses: Seq<Press>,
)
    requires
        presses.len() == typed.len(),
        forall|i: int|
            0 <= i < typed.len() ==> (#[trigger] presses[i]).key == Key::Char(typed[i]),
    ensures
        typed_after(text, presses) == text + typed.filter(|c: char| is_price_char(c)),
    decreases typed.len(),
{
    let keep = |c: char| is_price_char(c);
    reveal(Seq::filter);
    if typed.len() == 0 {
        assert(text + typed.filter(keep) =~= text);
    } else {
        let before = presses.drop_last();
        assert forall|i: int| 0 <= i < typed.drop_last().len() implies (
        #[trigger] before[i]).key == Key::Char(typed.drop_last()[i]) by {
            assert(before[i] == presses[i]);
        }
        law_typing_collects_digits_and_dots(text, typed.drop_last(), before);
        let kept = typed.drop_last().filter(keep);
        let last = typed.last();
        assert(presses[presses.len() - 1].key == Key::Char(last));
        if is_price_char(last) {
            assert(typed.filter(keep) == kept.push(last));
            assert((text + kept).push(last) =~= text + kept.push(last));
        } else {
            assert(typed.filter(keep) == kept);
        }
    }
}

/// Setting an alert: A, then any keys but Enter and Escape in any order, then Enter. If what was
/// typed stands for a number above zero, the alert is set to it, above the threshold unless an odd
/// number of Tabs turned it round, and is handed on for saving. Otherwise the alert stays as it was
/// and nothing is saved. Either way price entry is over.
pub proof fn law_set_alert_dialogue(
    state: AppStateView,
    open: Press,
    presses: Seq<Press>,
    enter: Press,
)
    requires
        state.input_mode is Normal,
        open.key == Key::Char('a') || open.key == Key::Char('A'),
        stays_in_entry(presses),
        enter.key is Enter,
    ensures
        ({
            let entered = after_presses(open.after(state), presses);
            let end = enter.after(entered);
            let outcome = enter.outcome(entered);
            &&& open.outcome(state) is Continue
            &&& entered.input == typed_after(Seq::empty(), presses)
            &&& end.input_mode is Normal
            &&& end.input.len() == 0
            &&& match enter.parsed {
                Some(price) if price.spec_above_zero() => {
                    let alert = Alert {
                        price,
                        direction: turned(AlertDirection::Above, tabs(presses)),
                        last_triggered: None,
                    };
                    &&& end.alert == Some(alert)
                    &&& outcome == KeyOutcome::Save(Some(alert.spec_saved()))
                },
                _ => {
                    &&& end.alert == state.alert
                    &&& outcome is Continue
                },
            }
        }),
{
    law_entry_takes_keys_in_any_order(open.after(state), presses);
}

/// Escape during price entry cancels it: the alert stays as it was, and nothing is saved.
pub proof fn law_escape_cancels(state: AppStateView, control: bool, parsed: Option<Price>)
    requires
        state.input_mode is EnteringPrice,
    ensures
        state.after_key(Key::Esc, control, parsed) == (AppStateView {
            input_mode: InputMode::Normal,
            input: Seq::empty(),
            ..state
        }),
        state.key_outcome(Key::Esc, control, parsed) is Continue,
{
}

/// C clears the alert and has that saved. Nothing sounds after that until an alert is set.
pub proof fn law_clear_removes_alert(state: AppStateView, clear: Press, run: Seq<Happening>)
    requires
        state.input_mode is Normal,
        clear.key == Key::Char('C') || (clear.key == Key::Char('c') && !clear.control),
        keeps_alert(clear.after(state), run),
    ensures
        clear.after(state) == (AppStateView { alert: None, ..state }),
        clear.outcome(state) == KeyOutcome::Save(None),
        alarms(clear.after(state), run).len() == 0,
{
    law_no_alert_no_alarm(clear.after(state), run);
}

/// Backspace takes back the character that was typed last.
pub proof fn law_backspace_undoes_typing(state: AppStateView, letter: Press, back: Press)
    requires
        state.input_mode is EnteringPrice,
        letter.key matches Key::Char(c) && is_price_char(c),
        back.key is Backspace,
    ensures
        back.after(letter.after(state)) == state,
{
    assert(letter.after(state).input.drop_last() == state.input);
}

/// The program is left by Q or by Control and C, and by nothing else; during price entry it is not
/// left at all.
pub proof fn law_ways_to_quit(state: AppStateView, key: Key, control: bool, parsed: Option<Price>)
    ensures
        state.key_outcome(key, control, parsed) is Quit <==> state.input_mode is Normal && (key
            == Key::Char('q') || key == Key::Char('Q') || (key == Key::Char('c') && control)),
        state.key_outcome(key, control, parsed) is Quit ==> state.after_key(key, control, parsed)
            == state,
{
}

/// No key press touches the prices, the connection or the flashing of the alert.
pub proof fn law_keys_leave_the_feed(
    state: AppStateView,
    key: Key,
    control: bool,
    parsed: Option<Price>,
)
    ensures
        ({
            let end = state.after_key(key, control, parsed);
            &&& end.price == state.price
            &&& end.prev_price == state.prev_price
            &&& end.status == state.status
            &&& end.alert_flash == state.alert_flash
        }),
{
}

/// A key press changes the alert only when it hands something on for saving, and what it hands on
/// is the alert as it then stands.
pub proof fn law_saved_alert_is_the_alert(
    state: AppStateView,
    key: Key,
    control: bool,
    parsed: Option<Price>,
)
    ensures
        ({
            let end = state.after_key(key, control, parsed);
            match state.key_outcome(key, control, parsed) {
                KeyOutcome::Save(saved) => saved == spec_saved_form(end.alert),
                _ => end.alert == state.alert,
            }
        }),
{
}

/// The record that a key press hands on for saving loads as the alert as it then stands. Where the
/// number that was typed is finite, so is the threshold of the record, and the file can hold it. An
/// infinite one is accepted as an alert, but the text of the file has no way to write it.
pub proof fn law_saved_record_loads_as_the_alert(
    state: AppStateView,
    key: Key,
    control: bool,
    parsed: Option<Price>,
)
    ensures
        state.key_outcome(key, control, parsed) matches KeyOutcome::Save(saved) ==> {
            &&& spec_load_alert(saved) == state.after_key(key, control, parsed).alert
            &&& (parsed matches Some(price) ==> price.is_finite()) ==> (saved matches Some(record)
                ==> record.price.is_finite())
        },
{
}

/// Every state that a run comes to is valid: that of the start, where the alert is one that was
/// loaded, and with a valid state also the one after a price, and the one after a key press.
pub proof fn law_states_stay_valid(
    saved: Option<SavedAlert>,
    state: AppStateView,
    price: Price,
    now: u128,
    key: Key,
    control: bool,
    parsed: Option<Price>,
)
    ensures
        AppStateView::initial(spec_load_alert(saved)).valid(),
        state.valid() ==> state.after_price(price, now).valid(),
        state.valid() ==> state.after_key(key, control, parsed).valid(),
{
}

} // verus!
