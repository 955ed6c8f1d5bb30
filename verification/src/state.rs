//! What the program knows at any moment, and how prices and key presses change it.

use crate::alert::{Alert, AlertDirection, SavedAlert};
use crate::price::Price;
use vstd::prelude::*;

verus! {

/// What key presses are taken for.
#[derive(Clone, Copy, Debug, PartialEq, Eq, Structural)]
pub enum InputMode {
    /// Commands.
    Normal,
    /// The threshold of a new alert.
    EnteringPrice,
}

/// The state of the connection to the price feed.
#[derive(Clone, Copy, Debug, PartialEq, Eq, Structural)]
pub enum ConnectionStatus {
    /// A connection is being opened.
    Connecting,
    /// Prices can come in.
    Connected,
    /// There is no connection.
    Disconnected,
}

impl ConnectionStatus {
    /// The words shown for the status.
    pub open spec fn spec_label(self) -> Seq<char> {
        match self {
            ConnectionStatus::Connecting => "CONNECTING"@,
            ConnectionStatus::Connected => "● LIVE"@,
            ConnectionStatus::Disconnected => "DISCONNECTED"@,
        }
    }

    /// The words shown for the status.
    pub fn label(self) -> (text: &'static str)
        ensures
            text@ == self.spec_label(),
    {
        match self {
            ConnectionStatus::Connecting => "CONNECTING",
            ConnectionStatus::Connected => "● LIVE",
            ConnectionStatus::Disconnected => "DISCONNECTED",
        }
    }
}

/// A key of the keyboard.
#[derive(Clone, Copy, Debug, PartialEq, Eq, Structural)]
pub enum Key {
    /// A key that stands for a character.
    Char(char),
    /// Enter.
    Enter,
    /// Escape.
    Esc,
    /// Tab.
    Tab,
    /// Backspace.
    Backspace,
    /// Any other key.
    Other,
}

/// What is left to do after a key press.
#[derive(Clone, Copy, Debug, PartialEq, Eq, Structural)]
pub enum KeyOutcome {
    /// Go on.
    Continue,
    /// Leave the program.
    Quit,
    /// Save this alert, or that there is none, and go on.
    Save(Option<SavedAlert>),
}

/// Whether a character can be typed into a threshold.
pub open spec fn is_price_char(c: char) -> bool {
    '0' <= c <= '9' || c == '.'
}

/// The program's state as mathematics sees it.
#[verifier::ext_equal]
pub struct AppStateView {
    pub price: Option<Price>,
    pub prev_price: Option<Price>,
    pub alert: Option<Alert>,
    pub input_mode: InputMode,
    pub input: Seq<char>,
    pub alert_direction: AlertDirection,
    pub status: ConnectionStatus,
    pub alert_flash: bool,
}

impl AppStateView {
    /// The state in which a run starts.
    pub open spec fn initial(alert: Option<Alert>) -> AppStateView {
        AppStateView {
            price: None,
            prev_price: None,
            alert,
            input_mode: InputMode::Normal,
            input: Seq::empty(),
            alert_direction: AlertDirection::Above,
            status: ConnectionStatus::Connecting,
            alert_flash: false,
        }
    }

    /// What holds of every state that a run comes to: only threshold characters were typed, none
    /// of them is left over outside of price entry, and the threshold is not at or below zero.
    pub open spec fn valid(self) -> bool {
        &&& forall|i: int| 0 <= i < self.input.len() ==> is_price_char(#[trigger] self.input[i])
        &&& self.input_mode is Normal ==> self.input.len() == 0
        &&& self.alert matches Some(alert) ==> !alert.price.spec_at_most_zero()
    }

    /// Whether there is an alert and it has gone off before.
    pub open spec fn triggered(self) -> bool {
        self.alert matches Some(alert) && alert.last_triggered is Some
    }

    /// Whether the alert goes off when `price` comes in at `now`.
    pub open spec fn goes_off(self, price: Price, now: u128) -> bool {
        self.alert matches Some(alert) && alert.spec_goes_off(price, now)
    }

    /// The state after `price` came in at `now`.
    pub open spec fn after_price(self, price: Price, now: u128) -> AppStateView {
        AppStateView {
            prev_price: self.price,
            price: Some(price),
            alert: if self.goes_off(price, now) {
                Some(Alert { last_triggered: Some(now), ..self.alert->0 })
            } else {
                self.alert
            },
            ..self
        }
    }

    /// The direction whose sound is played when `price` comes in at `now`, if any is.
    pub open spec fn price_sound(self, price: Price, now: u128) -> Option<AlertDirection> {
        if self.goes_off(price, now) {
            Some(self.alert->0.direction)
        } else {
            None
        }
    }

    /// Price entry is over, and what was typed is gone.
    pub open spec fn entry_closed(self) -> AppStateView {
        AppStateView { input_mode: InputMode::Normal, input: Seq::empty(), ..self }
    }

    /// The alert that Enter sets, where `parsed` is the number that the typed text stands for.
    pub open spec fn confirmed_alert(self, parsed: Option<Price>) -> Option<Alert> {
        match parsed {
            Some(price) if price.spec_above_zero() => Some(
                Alert { price, direction: self.alert_direction, last_triggered: None },
            ),
            _ => None,
        }
    }

    /// The state after a key press. `parsed` is the number that the typed text stands for, if it
    /// stands for one.
    pub open spec fn after_key(
        self,
        key: Key,
        control: bool,
        parsed: Option<Price>,
    ) -> AppStateView {
        match self.input_mode {
            InputMode::Normal => match key {
                Key::Char(c) => if c == 'a' || c == 'A' {
                    AppStateView {
                        input_mode: InputMode::EnteringPrice,
                        input: Seq::empty(),
                        alert_direction: AlertDirection::Above,
                        ..self
                    }
                } else if (c == 'c' && !control) || c == 'C' {
                    AppStateView { alert: None, ..self }
                } else {
                    self
                },
                _ => self,
            },
            InputMode::EnteringPrice => match key {
                Key::Esc => self.entry_closed(),
                Key::Tab => AppStateView {
                    alert_direction: self.alert_direction.spec_toggled(),
                    ..self
                },
                Key::Enter => {
                    let closed = self.entry_closed();
                    match self.confirmed_alert(parsed) {
                        Some(alert) => AppStateView { alert: Some(alert), ..closed },
                        None => closed,
                    }
                },
                Key::Backspace => if self.input.len() > 0 {
                    AppStateView { input: self.input.drop_last(), ..self }
                } else {
                    self
                },
                Key::Char(c) => if is_price_char(c) {
                    AppStateView { input: self.input.push(c), ..self }
                } else {
                    self
                },
                Key::Other => self,
            },
        }
    }

    /// What is left to do after a key press.
    pub open spec fn key_outcome(
        self,
        key: Key,
        control: bool,
        parsed: Option<Price>,
    ) -> KeyOutcome {
        match self.input_mode {
            InputMode::Normal => match key {
                Key::Char(c) => if c == 'q' || c == 'Q' || (c == 'c' && control) {
                    KeyOutcome::Quit
                } else if c == 'c' || c == 'C' {
                    KeyOutcome::Save(None)
                } else {
                    KeyOutcome::Continue
                },
                _ => KeyOutcome::Continue,
            },
            InputMode::EnteringPrice => match key {
                Key::Enter => match self.confirmed_alert(parsed) {
                    Some(alert) => KeyOutcome::Save(Some(alert.spec_saved())),
                    None => KeyOutcome::Continue,
                },
                _ => KeyOutcome::Continue,
            },
        }
    }
}

/// The program's state.
pub struct AppState {
    /// The latest price.
    pub price: Option<Price>,
    /// The price before the latest one.
    pub prev_price: Option<Price>,
    /// The alert that is set.
    pub alert: Option<Alert>,
    /// What key presses are taken for.
    pub input_mode: InputMode,
    /// What was typed of a threshold so far.
    pub input_buffer: String,
    /// The direction of the alert that is being entered.
    pub alert_direction: AlertDirection,
    /// The state of the connection to the price feed.
    pub status: ConnectionStatus,
    /// Whether an alert that went off is shown bright at the moment.
    pub alert_flash: bool,
}

impl View for AppState {
    type V = AppStateView;

    open spec fn view(&self) -> AppStateView {
        AppStateView {
            price: self.price,
            prev_price: self.prev_price,
            alert: self.alert,
            input_mode: self.input_mode,
            input: self.input_buffer@,
            alert_direction: self.alert_direction,
            status: self.status,
            alert_flash: self.alert_flash,
        }
    }
}

impl AppState {
    /// The state in which a run starts.
    pub fn new(alert: Option<Alert>) -> (state: AppState)
        ensures
            state@ == AppStateView::initial(alert),
            (alert matches Some(set) ==> !set.price.spec_at_most_zero()) ==> state@.valid(),
    {
        AppState {
            price: None,
            prev_price: None,
            alert,
            input_mode: InputMode::Normal,
            input_buffer: String::new(),
            alert_direction: AlertDirection::Above,
            status: ConnectionStatus::Connecting,
            alert_flash: false,
        }
    }

    /// Whether there is an alert and it has gone off before.
    pub fn triggered(&self) -> (triggered: bool)
        ensures
            triggered == self@.triggered(),
    {
        match self.alert {
            Some(alert) => alert.last_triggered.is_some(),
            None => false,
        }
    }

    /// Takes in `price`, which came in at `now`. Returns the direction whose sound is to be
    /// played, if the alert goes off.
    pub fn on_price(&mut self, price: Price, now: u128) -> (sound: Option<AlertDirection>)
        ensures
            final(self)@ == old(self)@.after_price(price, now),
            sound == old(self)@.price_sound(price, now),
            old(self)@.valid() ==> final(self)@.valid(),
    {
        self.prev_price = self.price;
        self.price = Some(price);
        match self.alert {
            Some(alert) => {
                if alert.goes_off(price, now) {
                    self.alert = Some(
                        Alert {
                            price: alert.price,
                            direction: alert.direction,
                            last_triggered: Some(now),
                        },
                    );
                    Some(alert.direction)
                } else {
                    None
                }
            },
            None => None,
        }
    }

    /// Takes in a key press. `parsed` is the number that the typed text stands for, if it stands
    /// for one.
    pub fn on_key(
        &mut self,
        key: Key,
        control: bool,
        parsed: Option<Price>,
    ) -> (outcome: KeyOutcome)
        ensures
            final(self)@ == old(self)@.after_key(key, control, parsed),
            outcome == old(self)@.key_outcome(key, control, parsed),
            old(self)@.valid() ==> final(self)@.valid(),
    {
        match self.input_mode {
            InputMode::Normal => self.on_command(key, control),
            InputMode::EnteringPrice => self.on_entry(key, parsed),
        }
    }

    /// Takes in a key press outside of price entry.
    fn on_command(&mut self, key: Key, control: bool) -> (outcome: KeyOutcome)
        requires
            old(self)@.input_mode is Normal,
        ensures
            final(self)@ == old(self)@.after_key(key, control, None),
            outcome == old(self)@.key_outcome(key, control, None),
    {
        match key {
            Key::Char(c) => {
                if c == 'q' || c == 'Q' || (c == 'c' && control) {
                    KeyOutcome::Quit
                } else if c == 'a' || c == 'A' {
                    self.input_mode = InputMode::EnteringPrice;
                    self.input_buffer = String::new();
                    self.alert_direction = AlertDirection::Above;
                    KeyOutcome::Continue
                } else if c == 'c' || c == 'C' {
                    self.alert = None;
                    KeyOutcome::Save(None)
                } else {
                    KeyOutcome::Continue
                }
            },
            _ => KeyOutcome::Continue,
        }
    }

    /// Takes in a key press during price entry.
    fn on_entry(&mut self, key: Key, parsed: Option<Price>) -> (outcome: KeyOutcome)
        requires
            old(self)@.input_mode is EnteringPrice,
        ensures
            final(self)@ == old(self)@.after_key(key, false, parsed),
            outcome == old(self)@.key_outcome(key, false, parsed),
    {
        match key {
            Key::Esc => {
                self.input_mode = InputMode::Normal;
                self.input_buffer = String::new();
                KeyOutcome::Continue
            },
            Key::Tab => {
                self.alert_direction = self.alert_direction.toggled();
                KeyOutcome::Continue
            },
            Key::Enter => {
                let outcome = self.confirm(parsed);
                self.input_mode = InputMode::Normal;
                self.input_buffer = String::new();
                outcome
            },
            Key::Backspace => {
                let _ = self.input_buffer.pop();
                KeyOutcome::Continue
            },
            Key::Char(c) => {
                if ('0' <= c && c <= '9') || c == '.' {
                    self.input_buffer.push(c);
                }
                KeyOutcome::Continue
            },
            Key::Other => KeyOutcome::Continue,
        }
    }

    /// Sets the alert that was entered, where `parsed` is the number that was typed. Without a
    /// number above zero the alert stays as it is.
    fn confirm(&mut self, parsed: Option<Price>) -> (outcome: KeyOutcome)
        ensures
            final(self)@ == (match old(self)@.confirmed_alert(parsed) {
                Some(alert) => AppStateView { alert: Some(alert), ..old(self)@ },
                None => old(self)@,
            }),
            outcome == (match old(self)@.confirmed_alert(parsed) {
                Some(alert) => KeyOutcome::Save(Some(alert.spec_saved())),
                None => KeyOutcome::Continue,
            }),
    {
        if let Some(price) = parsed {
            if price.above_zero() {
                let alert = Alert { price, direction: self.alert_direction, last_triggered: None };
                self.alert = Some(alert);
                return KeyOutcome::Save(Some(alert.saved()));
            }
        }
        KeyOutcome::Continue
    }
}

/// The view of a state shows each of its fields as it is.
pub proof fn law_view_shows_the_fields(state: AppState)
    ensures
        state@.price == state.price,
        state@.prev_price == state.prev_price,
        state@.alert == state.alert,
        state@.input_mode == state.input_mode,
        state@.input == state.input_buffer@,
        state@.alert_direction == state.alert_direction,
        state@.status == state.status,
        state@.alert_flash == state.alert_flash,
{
}

/// Each status has its own words.
pub proof fn law_statuses_are_told_apart()
    ensures
        ConnectionStatus::Connecting.spec_label() == seq![
            'C',
            'O',
            'N',
            'N',
            'E',
            'C',
            'T',
            'I',
            'N',
            'G',
        ],
        ConnectionStatus::Connected.spec_label() == seq!['●', ' ', 'L', 'I', 'V', 'E'],
        ConnectionStatus::Disconnected.spec_label() == seq![
            'D',
            'I',
            'S',
            'C',
            'O',
            'N',
            'N',
            'E',
            'C',
            'T',
            'E',
            'D',
        ],
{
    reveal_strlit("CONNECTING");
    reveal_strlit("● LIVE");
    reveal_strlit("DISCONNECTED");
}

/// What can be typed into a threshold are the ten digits and the dot.
pub proof fn law_price_characters(c: char)
    ensures
        is_price_char(c) <==> 48 <= c as u32 <= 57 || c as u32 == 46,
{
}

/// A run starts without prices, with the alert that it is given, taking commands, with nothing
/// typed, and not yet connected.
pub proof fn law_run_starts_empty(alert: Option<Alert>)
    ensures
        ({
            let start = AppStateView::initial(alert);
            &&& start.price is None && start.prev_price is None
            &&& start.alert == alert
            &&& start.input_mode is Normal
            &&& start.input.len() == 0
            &&& start.alert_direction is Above
            &&& start.status is Connecting
            &&& !start.alert_flash
        }),
{
}

/// An alert counts as triggered exactly when it is there and has gone off.
pub proof fn law_triggered_means_gone_off(state: AppStateView)
    ensures
        state.triggered() <==> state.alert is Some && state.alert->0.last_triggered is Some,
{
}

/// What validity promises: a text of digits and dots, none of it outside of price entry, and a
/// threshold that is above zero wherever it is a number.
pub proof fn law_valid_states(state: AppStateView, i: int)
    requires
        state.valid(),
    ensures
        0 <= i < state.input.len() ==> 48 <= state.input[i] as u32 <= 57 || state.input[i] as u32
            == 46,
        state.input_mode is Normal ==> state.input.len() == 0,
        state.alert is Some && !state.alert->0.price.is_nan() ==> state.alert->0.price.units() > 0,
{
    if 0 <= i < state.input.len() {
        assert(is_price_char(state.input[i]));
    }
}

/// A price that comes in is the latest one from then on, and the one that was the latest comes
/// before it. Everything else but the time of the alarm stays.
pub proof fn law_price_moves_along(state: AppStateView, price: Price, now: u128)
    ensures
        ({
            let end = state.after_price(price, now);
            &&& end.price == Some(price)
            &&& end.prev_price == state.price
            &&& end.input_mode == state.input_mode
            &&& end.input == state.input
            &&& end.alert_direction == state.alert_direction
            &&& end.status == state.status
            &&& end.alert_flash == state.alert_flash
            &&& end.alert is Some <==> state.alert is Some
            &&& state.alert is Some ==> end.alert->0.price == state.alert->0.price
                && end.alert->0.direction == state.alert->0.direction
        }),
{
}

/// A price sounds exactly when there is an alert, both are numbers, the price is at the threshold
/// or beyond it on the alert's side, and the alert has been silent for five seconds. The sound is
/// that of the alert's direction.
pub proof fn law_price_sounds_at_the_threshold(state: AppStateView, price: Price, now: u128)
    ensures
        state.price_sound(price, now) is Some ==> {
            &&& state.alert is Some
            &&& state.price_sound(price, now)->0 == state.alert->0.direction
            &&& !price.is_nan() && !state.alert->0.price.is_nan()
            &&& state.alert->0.direction is Above ==> price.units() >= state.alert->0.price.units()
            &&& state.alert->0.direction is Below ==> price.units() <= state.alert->0.price.units()
            &&& state.alert->0.last_triggered matches Some(last) ==> now - last >= 5_000_000_000
        },
        ({
            &&& state.alert is Some
            &&& !price.is_nan() && !state.alert->0.price.is_nan()
            &&& state.alert->0.direction is Above ==> price.units() >= state.alert->0.price.units()
            &&& state.alert->0.direction is Below ==> price.units() <= state.alert->0.price.units()
            &&& state.alert->0.last_triggered matches Some(last) ==> now - last >= 5_000_000_000
        }) ==> state.price_sound(price, now) is Some,
{
}

/// The time of the alarm is kept exactly when there is one: a price that sounds leaves its own
/// time, and a price that does not leaves the alert as it is.
pub proof fn law_sound_and_alarm_time_agree(state: AppStateView, price: Price, now: u128)
    ensures
        state.price_sound(price, now) is Some ==> state.after_price(price, now).alert is Some
            && state.after_price(price, now).alert->0.last_triggered == Some(now),
        state.price_sound(price, now) is None ==> state.after_price(price, now).alert
            == state.alert,
{
}

/// Outside of price entry every key but A, C and Q does nothing, and so does Q but for leaving.
pub proof fn law_other_commands_do_nothing(
    state: AppStateView,
    key: Key,
    control: bool,
    parsed: Option<Price>,
)
    requires
        state.input_mode is Normal,
        key != Key::Char('a') && key != Key::Char('A'),
        key != Key::Char('C') && (key != Key::Char('c') || control),
    ensures
        state.after_key(key, control, parsed) == state,
        !(state.key_outcome(key, control, parsed) is Save),
        state.key_outcome(key, control, parsed) is Quit <==> key == Key::Char('q') || key
            == Key::Char('Q') || key == Key::Char('c'),
{
}

/// A opens price entry with nothing typed, above the threshold, and leaves everything else.
pub proof fn law_entry_opens_empty(
    state: AppStateView,
    key: Key,
    control: bool,
    parsed: Option<Price>,
)
    requires
        state.input_mode is Normal,
        key == Key::Char('a') || key == Key::Char('A'),
    ensures
        ({
            let end = state.after_key(key, control, parsed);
            &&& state.key_outcome(key, control, parsed) is Continue
            &&& end.input_mode is EnteringPrice
            &&& end.input.len() == 0
            &&& end.alert_direction is Above
            &&& end.alert == state.alert
            &&& end.price == state.price && end.prev_price == state.prev_price
            &&& end.status == state.status
            &&& end.alert_flash == state.alert_flash
        }),
{
}

/// C takes the alert away, has that saved, and leaves everything else.
pub proof fn law_clear_takes_the_alert_away(
    state: AppStateView,
    key: Key,
    control: bool,
    parsed: Option<Price>,
)
    requires
        state.input_mode is Normal,
        key == Key::Char('C') || (key == Key::Char('c') && !control),
    ensures
        ({
            let end = state.after_key(key, control, parsed);
            &&& state.key_outcome(key, control, parsed) == KeyOutcome::Save(None)
            &&& end.alert is None
            &&& end.input_mode is Normal
            &&& end.input == state.input
            &&& end.alert_direction == state.alert_direction
            &&& end.price == state.price && end.prev_price == state.prev_price
            &&& end.status == state.status
            &&& end.alert_flash == state.alert_flash
        }),
{
}

/// During price entry a digit or a dot goes to the end of the text, any other character goes
/// nowhere, Backspace takes the last character away where there is one, Tab turns the direction
/// round, and nothing else changes.
pub proof fn law_entry_keys(state: AppStateView, key: Key, control: bool, parsed: Option<Price>)
    requires
        state.input_mode is EnteringPrice,
        key != Key::Enter,
        key != Key::Esc,
    ensures
        ({
            let end = state.after_key(key, control, parsed);
            &&& state.key_outcome(key, control, parsed) is Continue
            &&& end.input_mode is EnteringPrice
            &&& end.alert == state.alert
            &&& end.price == state.price && end.prev_price == state.prev_price
            &&& end.status == state.status
            &&& end.alert_flash == state.alert_flash
            &&& key is Tab <==> end.alert_direction != state.alert_direction
            &&& key matches Key::Char(c) ==> if 48 <= c as u32 <= 57 || c as u32 == 46 {
                &&& end.input.len() == state.input.len() + 1
                &&& end.input.last() == c
                &&& end.input.drop_last() == state.input
            } else {
                end.input == state.input
            }
            &&& key is Backspace && state.input.len() > 0 ==> end.input.push(state.input.last())
                == state.input
            &&& key is Backspace && state.input.len() == 0 ==> end.input.len() == 0
            &&& key is Tab || key is Other ==> end.input == state.input
        }),
{
    if let Key::Char(c) = key {
        assert(state.input.push(c).drop_last() =~= state.input);
    }
    if key is Backspace && state.input.len() > 0 {
        assert(state.input.drop_last().push(state.input.last()) =~= state.input);
    }
}

/// Enter ends price entry. Where the typed text stands for a number above zero, that number is the
/// threshold of the new alert, which has the direction chosen and has not gone off, and its record
/// is handed on for saving. Where it does not, the alert stays and nothing is saved.
pub proof fn law_enter_sets_what_was_typed(
    state: AppStateView,
    control: bool,
    parsed: Option<Price>,
)
    requires
        state.input_mode is EnteringPrice,
    ensures
        ({
            let end = state.after_key(Key::Enter, control, parsed);
            let outcome = state.key_outcome(Key::Enter, control, parsed);
            &&& end.input_mode is Normal
            &&& end.input.len() == 0
            &&& end.alert_direction == state.alert_direction
            &&& end.price == state.price && end.prev_price == state.prev_price
            &&& end.status == state.status
            &&& end.alert_flash == state.alert_flash
            &&& parsed is Some && !parsed->0.is_nan() && parsed->0.units() > 0 ==> {
                &&& end.alert == Some(
                    Alert {
                        price: parsed->0,
                        direction: state.alert_direction,
                        last_triggered: None,
                    },
                )
                &&& outcome == KeyOutcome::Save(
                    Some(SavedAlert { price: parsed->0, direction: state.alert_direction }),
                )
            }
            &&& parsed is None || parsed->0.is_nan() || parsed->0.units() <= 0 ==> end.alert
                == state.alert && outcome is Continue
        }),
{
}

} // verus!
