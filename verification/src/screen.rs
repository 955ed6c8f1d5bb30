//! What is drawn on the terminal.
//!
//! A drawing is a list of terminal commands, built here and carried out elsewhere. Everything is
//! laid out around the middle row. Texts are centred by the number of bytes they take up.

use crate::alert::Alert;
use crate::price::Price;
use crate::state::{AppState, AppStateView, ConnectionStatus, InputMode};
use crate::text::{byte_len, measure, repeat, repeated};
use vstd::prelude::*;
use vstd::string::*;

verus! {

/// A colour of text.
#[derive(Clone, Copy, Debug, PartialEq, Eq, Structural)]
pub enum Tint {
    /// Green.
    Green,
    /// Yellow.
    Yellow,
    /// Red.
    Red,
    /// Dark grey.
    DarkGrey,
    /// Dark yellow.
    DarkYellow,
    /// Cyan.
    Cyan,
    /// A colour by its parts of red, green and blue.
    Rgb(u8, u8, u8),
}

/// A terminal command.
#[derive(Debug, PartialEq, Eq)]
pub enum Draw {
    /// Hide the cursor.
    HideCursor,
    /// Move the cursor to a column and a row, both counted from zero.
    MoveTo(u16, u16),
    /// Clear the whole screen.
    ClearAll,
    /// Clear the row of the cursor.
    ClearLine,
    /// Write in this colour from now on.
    Foreground(Tint),
    /// Write in bold from now on.
    Bold,
    /// Write without bold and colour from now on.
    ResetAttributes,
    /// Write in the terminal's own colours, and without bold, from now on.
    ResetColor,
    /// Write this text.
    Print(String),
}

/// A terminal command as mathematics sees it.
pub enum DrawView {
    HideCursor,
    MoveTo(u16, u16),
    ClearAll,
    ClearLine,
    Foreground(Tint),
    Bold,
    ResetAttributes,
    ResetColor,
    Print(Seq<char>),
}

impl View for Draw {
    type V = DrawView;

    open spec fn view(&self) -> DrawView {
        match self {
            Draw::HideCursor => DrawView::HideCursor,
            Draw::MoveTo(col, row) => DrawView::MoveTo(*col, *row),
            Draw::ClearAll => DrawView::ClearAll,
            Draw::ClearLine => DrawView::ClearLine,
            Draw::Foreground(tint) => DrawView::Foreground(*tint),
            Draw::Bold => DrawView::Bold,
            Draw::ResetAttributes => DrawView::ResetAttributes,
            Draw::ResetColor => DrawView::ResetColor,
            Draw::Print(text) => DrawView::Print(text@),
        }
    }
}

/// The commands of a drawing as mathematics sees them.
pub open spec fn drawn(commands: Seq<Draw>) -> Seq<DrawView> {
    Seq::new(commands.len(), |i: int| commands[i]@)
}

/// The longest border, in characters.
pub const BORDER_WIDTH: u16 = 60;

/// The row of the connection status.
pub const STATUS_ROW: u16 = 1;

/// `a - b`, but not below zero.
pub open spec fn minus(a: int, b: int) -> int {
    if a > b {
        a - b
    } else {
        0
    }
}

/// The column at which a text of `len` bytes is centred.
pub open spec fn centered(cols: u16, len: nat) -> u16 {
    (minus(cols as int, len as int) / 2) as u16
}

/// The column at which a status of `len` bytes ends two columns before the right edge.
pub open spec fn status_col(cols: u16, len: nat) -> u16 {
    minus(cols as int, len as int + 2) as u16
}

/// The middle row.
pub open spec fn center_row(rows: u16) -> u16 {
    rows / 2
}

/// The row of the header.
pub open spec fn header_row(rows: u16) -> u16 {
    minus(center_row(rows) as int, 5) as u16
}

/// The row of the price.
pub open spec fn price_row(rows: u16) -> u16 {
    minus(center_row(rows) as int, 3) as u16
}

/// The row of the alert.
pub open spec fn alert_row(rows: u16) -> u16 {
    center_row(rows)
}

/// The row of the help, or of what is being entered.
pub open spec fn input_row(rows: u16) -> u16 {
    (center_row(rows) + 3) as u16
}

/// The row of the hint shown during price entry.
pub open spec fn hint_row(rows: u16) -> u16 {
    (center_row(rows) + 5) as u16
}

/// The row of the border.
pub open spec fn border_row(rows: u16) -> u16 {
    minus(rows as int, 2) as u16
}

/// The colour of the connection status.
pub open spec fn status_tint(status: ConnectionStatus) -> Tint {
    match status {
        ConnectionStatus::Connected => Tint::Green,
        ConnectionStatus::Connecting => Tint::Yellow,
        ConnectionStatus::Disconnected => Tint::Red,
    }
}

/// The colour of a price: green unless it fell.
pub open spec fn price_tint(price: Price, prev_price: Option<Price>) -> Tint {
    match prev_price {
        Some(prev) => if price.spec_at_least(prev) {
            Tint::Green
        } else {
            Tint::Red
        },
        None => Tint::Green,
    }
}

/// The colour of an alert that went off.
pub open spec fn flash_tint(bright: bool) -> Tint {
    if bright {
        Tint::Yellow
    } else {
        Tint::DarkYellow
    }
}

/// The text shown for an alert, with the threshold written out as `alert_text`.
pub open spec fn alert_message(alert: Alert, alert_text: Seq<char>) -> Seq<char> {
    (if alert.last_triggered is Some {
        "⚡ ALERT TRIGGERED — Price went "@
    } else {
        "Alert set: "@
    }) + alert.direction.spec_label() + " $"@ + alert_text
}

/// The text shown in front of the cursor during price entry.
pub open spec fn prompt(state: AppStateView) -> Seq<char> {
    "Alert "@ + state.alert_direction.spec_label() + " at price: $"@ + state.input
}

/// The text that says which keys there are.
pub open spec fn help(state: AppStateView) -> Seq<char> {
    if state.alert is Some {
        "[A] new alert  [C] clear alert  [Q] quit"@
    } else {
        "[A] set alert  [Q] quit"@
    }
}

/// The text of the border: as many strokes as there are columns, up to the longest border.
pub open spec fn border(cols: u16) -> Seq<char> {
    repeated(
        '─',
        if cols <= BORDER_WIDTH {
            cols as nat
        } else {
            BORDER_WIDTH as nat
        },
    )
}

/// The commands that write `text` in `tint` at a place and leave the style plain.
pub open spec fn line(col: u16, row: u16, tint: Tint, text: Seq<char>) -> Seq<DrawView> {
    seq![
        DrawView::MoveTo(col, row),
        DrawView::Foreground(tint),
        DrawView::Print(text),
        DrawView::ResetColor,
    ]
}

/// The commands that write `text` in bold and in `tint` at a place and leave the style plain.
pub open spec fn bold_line(col: u16, row: u16, tint: Tint, text: Seq<char>) -> Seq<DrawView> {
    seq![
        DrawView::MoveTo(col, row),
        DrawView::Foreground(tint),
        DrawView::Bold,
        DrawView::Print(text),
        DrawView::ResetAttributes,
        DrawView::ResetColor,
    ]
}

/// The commands that clear a row.
pub open spec fn clear_row(row: u16) -> Seq<DrawView> {
    seq![DrawView::MoveTo(0, row), DrawView::ClearLine]
}

/// The rows that something is drawn on.
pub open spec fn content_rows(rows: u16) -> Seq<u16> {
    seq![
        STATUS_ROW,
        header_row(rows),
        price_row(rows),
        alert_row(rows),
        input_row(rows),
        hint_row(rows),
        border_row(rows),
    ]
}

/// The commands that clear those of `targets` that are below the top row and not past `rows`.
pub open spec fn clear_rows(targets: Seq<u16>, rows: u16) -> Seq<DrawView>
    decreases targets.len(),
{
    if targets.len() == 0 {
        Seq::empty()
    } else {
        let before = clear_rows(targets.drop_last(), rows);
        if 0 < targets.last() <= rows {
            before + clear_row(targets.last())
        } else {
            before
        }
    }
}

/// The connection status, at the right of its row.
pub open spec fn status_part(state: AppStateView, cols: u16) -> Seq<DrawView> {
    let text = state.status.spec_label();
    line(status_col(cols, byte_len(text)), STATUS_ROW, status_tint(state.status), text)
}

/// The header.
pub open spec fn header_part(cols: u16, rows: u16) -> Seq<DrawView> {
    let text = "BINANCE · BTCUSDT · SPOT"@;
    line(centered(cols, byte_len(text)), header_row(rows), Tint::DarkGrey, text)
}

/// The price, written out as `price_text`, or that there is none yet.
pub open spec fn price_part(
    state: AppStateView,
    cols: u16,
    rows: u16,
    price_text: Seq<char>,
) -> Seq<DrawView> {
    match state.price {
        Some(price) => {
            let text = "$ "@ + price_text;
            bold_line(
                centered(cols, byte_len(text)),
                price_row(rows),
                price_tint(price, state.prev_price),
                text,
            )
        },
        None => {
            let text = "Waiting for data..."@;
            line(centered(cols, byte_len(text)), price_row(rows), Tint::DarkGrey, text)
        },
    }
}

/// The alert, with the threshold written out as `alert_text`: bold and flashing once it went off.
pub open spec fn alert_part(
    state: AppStateView,
    cols: u16,
    rows: u16,
    alert_text: Seq<char>,
) -> Seq<DrawView> {
    match state.alert {
        Some(alert) => {
            let text = alert_message(alert, alert_text);
            let col = centered(cols, byte_len(text));
            if alert.last_triggered is Some {
                bold_line(col, alert_row(rows), flash_tint(state.alert_flash), text)
            } else {
                line(col, alert_row(rows), Tint::DarkYellow, text)
            }
        },
        None => Seq::empty(),
    }
}

/// The commands that write what is being entered, with a block for the cursor behind it.
pub open spec fn prompt_line(state: AppStateView, cols: u16, rows: u16) -> Seq<DrawView> {
    let text = prompt(state);
    seq![
        DrawView::MoveTo(centered(cols, byte_len(text) + 1), input_row(rows)),
        DrawView::Foreground(Tint::Cyan),
        DrawView::Print(text),
        DrawView::Print("█"@),
        DrawView::ResetColor,
    ]
}

/// The text of the hint shown during price entry.
pub open spec fn hint() -> Seq<char> {
    "[Tab] toggle Above/Below  [Enter] confirm  [Esc] cancel"@
}

/// What is being entered, or the help.
pub open spec fn input_part(state: AppStateView, cols: u16, rows: u16) -> Seq<DrawView> {
    match state.input_mode {
        InputMode::EnteringPrice => prompt_line(state, cols, rows) + line(
            centered(cols, byte_len(hint())),
            hint_row(rows),
            Tint::DarkGrey,
            hint(),
        ),
        InputMode::Normal => line(
            centered(cols, byte_len(help(state))),
            input_row(rows),
            Tint::DarkGrey,
            help(state),
        ),
    }
}

/// The border.
pub open spec fn border_part(cols: u16, rows: u16) -> Seq<DrawView> {
    line(
        centered(cols, byte_len(border(cols))),
        border_row(rows),
        Tint::Rgb(30, 30, 30),
        border(cols),
    )
}

/// The commands that make room for a drawing of everything.
pub open spec fn opening(full_redraw: bool, rows: u16) -> Seq<DrawView> {
    seq![DrawView::HideCursor, DrawView::MoveTo(0, 0)] + if full_redraw {
        seq![DrawView::ClearAll, DrawView::MoveTo(0, 0)]
    } else {
        clear_rows(content_rows(rows), rows)
    }
}

/// The drawing of everything.
pub open spec fn full_drawing(
    state: AppStateView,
    full_redraw: bool,
    cols: u16,
    rows: u16,
    price_text: Seq<char>,
    alert_text: Seq<char>,
) -> Seq<DrawView> {
    opening(full_redraw, rows) + status_part(state, cols) + header_part(cols, rows) + price_part(
        state,
        cols,
        rows,
        price_text,
    ) + alert_part(state, cols, rows, alert_text) + input_part(state, cols, rows) + border_part(
        cols,
        rows,
    )
}

/// The drawing of the status and the price alone, and of the alert if it went off.
pub open spec fn partial_drawing(
    state: AppStateView,
    cols: u16,
    rows: u16,
    price_text: Seq<char>,
    alert_text: Seq<char>,
) -> Seq<DrawView> {
    seq![DrawView::HideCursor] + clear_row(STATUS_ROW) + status_part(state, cols) + clear_row(
        price_row(rows),
    ) + price_part(state, cols, rows, price_text) + if state.triggered() {
        clear_row(alert_row(rows)) + alert_part(state, cols, rows, alert_text)
    } else {
        Seq::empty()
    }
}

/// Adds a command to a drawing.
fn put(out: &mut Vec<Draw>, command: Draw)
    ensures
        drawn(final(out)@) == drawn(old(out)@).push(command@),
{
    out.push(command);
    assert(drawn(out@) =~= drawn(old(out)@).push(command@));
}

/// Adds the commands that write `text` in `tint` at a place.
fn put_line(out: &mut Vec<Draw>, col: u16, row: u16, tint: Tint, text: String)
    ensures
        drawn(final(out)@) == drawn(old(out)@) + line(col, row, tint, text@),
{
    put(out, Draw::MoveTo(col, row));
    put(out, Draw::Foreground(tint));
    put(out, Draw::Print(text));
    put(out, Draw::ResetColor);
    assert(drawn(out@) =~= drawn(old(out)@) + line(col, row, tint, text@));
}

/// Adds the commands that write `text` in bold and in `tint` at a place.
fn put_bold_line(out: &mut Vec<Draw>, col: u16, row: u16, tint: Tint, text: String)
    ensures
        drawn(final(out)@) == drawn(old(out)@) + bold_line(col, row, tint, text@),
{
    put(out, Draw::MoveTo(col, row));
    put(out, Draw::Foreground(tint));
    put(out, Draw::Bold);
    put(out, Draw::Print(text));
    put(out, Draw::ResetAttributes);
    put(out, Draw::ResetColor);
    assert(drawn(out@) =~= drawn(old(out)@) + bold_line(col, row, tint, text@));
}

/// Adds the commands that clear a row.
fn put_clear_row(out: &mut Vec<Draw>, row: u16)
    ensures
        drawn(final(out)@) == drawn(old(out)@) + clear_row(row),
{
    put(out, Draw::MoveTo(0, row));
    put(out, Draw::ClearLine);
    assert(drawn(out@) =~= drawn(old(out)@) + clear_row(row));
}

/// The column at which a text of `len` bytes is centred.
fn center(cols: u16, len: usize) -> (col: u16)
    ensures
        col == centered(cols, len as nat),
{
    ((cols as usize).saturating_sub(len) / 2) as u16
}

/// Adds the connection status.
fn put_status(out: &mut Vec<Draw>, state: &AppState, cols: u16)
    ensures
        drawn(final(out)@) == drawn(old(out)@) + status_part(state@, cols),
{
    let text = state.status.label();
    let len: usize = measure(text);
    let col: u16 = (cols as usize).saturating_sub(len).saturating_sub(2) as u16;
    let tint = match state.status {
        ConnectionStatus::Connected => Tint::Green,
        ConnectionStatus::Connecting => Tint::Yellow,
        ConnectionStatus::Disconnected => Tint::Red,
    };
    put_line(out, col, STATUS_ROW, tint, text.to_owned());
}

/// Adds the header.
fn put_header(out: &mut Vec<Draw>, cols: u16, rows: u16)
    ensures
        drawn(final(out)@) == drawn(old(out)@) + header_part(cols, rows),
{
    let text = "BINANCE · BTCUSDT · SPOT";
    let col: u16 = center(cols, measure(text));
    put_line(out, col, (rows / 2).saturating_sub(5), Tint::DarkGrey, text.to_owned());
}

/// Adds the price.
fn put_price(out: &mut Vec<Draw>, state: &AppState, cols: u16, rows: u16, price_text: &str)
    ensures
        drawn(final(out)@) == drawn(old(out)@) + price_part(state@, cols, rows, price_text@),
{
    let row: u16 = (rows / 2).saturating_sub(3);
    match state.price {
        Some(price) => {
            let text = "$ ".to_owned().concat(price_text);
            let col: u16 = center(cols, measure(text.as_str()));
            let is_up = match state.prev_price {
                Some(prev) => price.at_least(prev),
                None => true,
            };
            let tint = if is_up {
                Tint::Green
            } else {
                Tint::Red
            };
            put_bold_line(out, col, row, tint, text);
        },
        None => {
            let text = "Waiting for data...";
            let col: u16 = center(cols, measure(text));
            put_line(out, col, row, Tint::DarkGrey, text.to_owned());
        },
    }
}

/// The text shown for an alert.
fn message_of(alert: &Alert, alert_text: &str) -> (text: String)
    ensures
        text@ == alert_message(*alert, alert_text@),
{
    let lead = if alert.last_triggered.is_some() {
        "⚡ ALERT TRIGGERED — Price went "
    } else {
        "Alert set: "
    };
    lead.to_owned().concat(alert.direction.label()).concat(" $").concat(alert_text)
}

/// Adds the alert.
fn put_alert(out: &mut Vec<Draw>, state: &AppState, cols: u16, rows: u16, alert_text: &str)
    ensures
        drawn(final(out)@) == drawn(old(out)@) + alert_part(state@, cols, rows, alert_text@),
{
    match state.alert {
        Some(alert) => {
            let text = message_of(&alert, alert_text);
            let col: u16 = center(cols, measure(text.as_str()));
            if alert.last_triggered.is_some() {
                let tint = if state.alert_flash {
                    Tint::Yellow
                } else {
                    Tint::DarkYellow
                };
                put_bold_line(out, col, rows / 2, tint, text);
            } else {
                put_line(out, col, rows / 2, Tint::DarkYellow, text);
            }
        },
        None => {
            assert(drawn(old(out)@) + Seq::<DrawView>::empty() =~= drawn(old(out)@));
        },
    }
}

/// Adds what is being entered, or the help.
fn put_input(out: &mut Vec<Draw>, state: &AppState, cols: u16, rows: u16)
    ensures
        drawn(final(out)@) == drawn(old(out)@) + input_part(state@, cols, rows),
{
    let row: u16 = rows / 2 + 3;
    match state.input_mode {
        InputMode::EnteringPrice => {
            let text = "Alert ".to_owned().concat(state.alert_direction.label()).concat(
                " at price: $",
            ).concat(state.input_buffer.as_str());
            let len: usize = measure(text.as_str());
            let col: u16 = ((cols as usize).saturating_sub(len).saturating_sub(1) / 2) as u16;
            put(out, Draw::MoveTo(col, row));
            put(out, Draw::Foreground(Tint::Cyan));
            put(out, Draw::Print(text));
            put(out, Draw::Print("█".to_owned()));
            put(out, Draw::ResetColor);
            assert(drawn(out@) =~= drawn(old(out)@) + prompt_line(state@, cols, rows));
            let hint = "[Tab] toggle Above/Below  [Enter] confirm  [Esc] cancel";
            put_line(out, center(cols, measure(hint)), row + 2, Tint::DarkGrey, hint.to_owned());
            assert(drawn(out@) =~= drawn(old(out)@) + input_part(state@, cols, rows));
        },
        InputMode::Normal => {
            let help = if state.alert.is_some() {
                "[A] new alert  [C] clear alert  [Q] quit"
            } else {
                "[A] set alert  [Q] quit"
            };
            put_line(out, center(cols, measure(help)), row, Tint::DarkGrey, help.to_owned());
        },
    }
}

/// Adds the border.
fn put_border(out: &mut Vec<Draw>, cols: u16, rows: u16)
    ensures
        drawn(final(out)@) == drawn(old(out)@) + border_part(cols, rows),
{
    let width: u16 = if cols <= BORDER_WIDTH {
        cols
    } else {
        BORDER_WIDTH
    };
    let text = repeat('─', width as usize);
    let col: u16 = center(cols, measure(text.as_str()));
    put_line(out, col, rows.saturating_sub(2), Tint::Rgb(30, 30, 30), text);
}

/// Adds the commands that clear the rows that something is drawn on.
fn put_clear_rows(out: &mut Vec<Draw>, rows: u16)
    ensures
        drawn(final(out)@) == drawn(old(out)@) + clear_rows(content_rows(rows), rows),
{
    let center: u16 = rows / 2;
    let targets: [u16; 7] = [
        STATUS_ROW,
        center.saturating_sub(5),
        center.saturating_sub(3),
        center,
        center + 3,
        center + 5,
        rows.saturating_sub(2),
    ];
    assert(targets@ =~= content_rows(rows));
    assert(clear_rows(targets@.take(0), rows) =~= Seq::<DrawView>::empty());
    let ghost start = drawn(out@);
    assert(start + clear_rows(targets@.take(0), rows) =~= start);
    let mut i: usize = 0;
    while i < 7
        invariant
            i <= 7,
            targets@.len() == 7,
            drawn(out@) == start + clear_rows(targets@.take(i as int), rows),
        decreases 7 - i,
    {
        let row: u16 = targets[i];
        let ghost before = clear_rows(targets@.take(i as int), rows);
        assert(targets@.take(i + 1).drop_last() =~= targets@.take(i as int));
        if row > 0 && row <= rows {
            put_clear_row(out, row);
            assert(start + before + clear_row(row) =~= start + (before + clear_row(row)));
        }
        i = i + 1;
    }
    assert(targets@.take(7) =~= targets@);
}

/// Draws everything. `price_text` and `alert_text` are the latest price and the threshold of the
/// alert written out; where there is no price or no alert, its text is not used.
pub fn render(
    state: &AppState,
    full_redraw: bool,
    cols: u16,
    rows: u16,
    price_text: &str,
    alert_text: &str,
) -> (out: Vec<Draw>)
    ensures
        drawn(out@) == full_drawing(state@, full_redraw, cols, rows, price_text@, alert_text@),
{
    let mut out: Vec<Draw> = Vec::new();
    put(&mut out, Draw::HideCursor);
    put(&mut out, Draw::MoveTo(0, 0));
    if full_redraw {
        put(&mut out, Draw::ClearAll);
        put(&mut out, Draw::MoveTo(0, 0));
    } else {
        put_clear_rows(&mut out, rows);
    }
    assert(drawn(out@) =~= opening(full_redraw, rows));
    put_status(&mut out, state, cols);
    put_header(&mut out, cols, rows);
    put_price(&mut out, state, cols, rows, price_text);
    put_alert(&mut out, state, cols, rows, alert_text);
    put_input(&mut out, state, cols, rows);
    put_border(&mut out, cols, rows);
    out
}

/// Draws the status and the price alone, and the alert if it went off. The rest of the screen is
/// left as it is.
pub fn render_partial(
    state: &AppState,
    cols: u16,
    rows: u16,
    price_text: &str,
    alert_text: &str,
) -> (out: Vec<Draw>)
    ensures
        drawn(out@) == partial_drawing(state@, cols, rows, price_text@, alert_text@),
{
    let mut out: Vec<Draw> = Vec::new();
    put(&mut out, Draw::HideCursor);
    assert(drawn(out@) =~= seq![DrawView::HideCursor]);
    put_clear_row(&mut out, STATUS_ROW);
    put_status(&mut out, state, cols);
    put_clear_row(&mut out, (rows / 2).saturating_sub(3));
    put_price(&mut out, state, cols, rows, price_text);
    let ghost before = drawn(out@);
    if state.triggered() {
        put_clear_row(&mut out, rows / 2);
        put_alert(&mut out, state, cols, rows, alert_text);
        assert(drawn(out@) =~= before + (clear_row(alert_row(rows)) + alert_part(
            state@,
            cols,
            rows,
            alert_text@,
        )));
    } else {
        assert(before + Seq::<DrawView>::empty() =~= before);
    }
    out
}

/// A command is seen as what it is, and a drawing as its commands in their order.
pub proof fn law_commands_are_seen_as_they_are(commands: Seq<Draw>, i: int)
    requires
        0 <= i < commands.len(),
    ensures
        drawn(commands).len() == commands.len(),
        match commands[i] {
            Draw::HideCursor => drawn(commands)[i] is HideCursor,
            Draw::MoveTo(col, row) => drawn(commands)[i] == DrawView::MoveTo(col, row),
            Draw::ClearAll => drawn(commands)[i] is ClearAll,
            Draw::ClearLine => drawn(commands)[i] is ClearLine,
            Draw::Foreground(tint) => drawn(commands)[i] == DrawView::Foreground(tint),
            Draw::Bold => drawn(commands)[i] is Bold,
            Draw::ResetAttributes => drawn(commands)[i] is ResetAttributes,
            Draw::ResetColor => drawn(commands)[i] is ResetColor,
            Draw::Print(text) => drawn(commands)[i] == DrawView::Print(text@),
        },
{
}

/// A centred text has as much room before it as after it, or one column less, and a text without
/// room starts at the left edge.
pub proof fn law_centred_text_has_equal_margins(cols: u16, len: nat)
    ensures
        len < cols ==> {
            let before = centered(cols, len) as int;
            let after = cols - len - before;
            before == after || before + 1 == after
        },
        len >= cols ==> centered(cols, len) == 0,
{
}

/// The status ends two columns before the right edge, or starts at the left edge where there is no
/// room for that.
pub proof fn law_status_is_at_the_right(cols: u16, len: nat)
    ensures
        len + 2 < cols ==> status_col(cols, len) + len + 2 == cols,
        len + 2 >= cols ==> status_col(cols, len) == 0,
{
}

/// Where the rows are: the alert in the middle, the price three above it and the header five, the
/// input three below it and the hint five, the border two from the bottom, and the status under the
/// top. What would be above the top is on it.
pub proof fn law_rows_around_the_middle(rows: u16)
    ensures
        STATUS_ROW == 1,
        2 * alert_row(rows) == rows || 2 * alert_row(rows) + 1 == rows,
        alert_row(rows) >= 3 ==> price_row(rows) + 3 == alert_row(rows),
        alert_row(rows) < 3 ==> price_row(rows) == 0,
        alert_row(rows) >= 5 ==> header_row(rows) + 5 == alert_row(rows),
        alert_row(rows) < 5 ==> header_row(rows) == 0,
        input_row(rows) == alert_row(rows) + 3,
        hint_row(rows) == alert_row(rows) + 5,
        rows >= 2 ==> border_row(rows) + 2 == rows,
        rows < 2 ==> border_row(rows) == 0,
{
}

/// The colours of the statuses.
pub proof fn law_status_colours(status: ConnectionStatus)
    ensures
        status_tint(status) is Green <==> status is Connected,
        status_tint(status) is Yellow <==> status is Connecting,
        status_tint(status) is Red <==> status is Disconnected,
{
}

/// A price is green or red: green where there is none before it, or where it is not below that one,
/// and red where it fell, or one of the two is not a number.
pub proof fn law_price_colours(price: Price, prev_price: Option<Price>)
    ensures
        price_tint(price, prev_price) is Green || price_tint(price, prev_price) is Red,
        prev_price is None ==> price_tint(price, prev_price) is Green,
        prev_price is Some && (price.is_nan() || prev_price->0.is_nan()) ==> price_tint(
            price,
            prev_price,
        ) is Red,
        prev_price is Some && !price.is_nan() && !prev_price->0.is_nan() ==> (price_tint(
            price,
            prev_price,
        ) is Green <==> price.units() >= prev_price->0.units()),
{
}

/// An alert that went off is bright yellow and dark yellow in turn.
pub proof fn law_flash_colours()
    ensures
        flash_tint(true) is Yellow,
        flash_tint(false) is DarkYellow,
{
}

/// The text for an alert says whether it went off, then which way it looks, then its threshold.
pub proof fn law_alert_message_parts(alert: Alert, alert_text: Seq<char>)
    ensures
        ({
            let lead = if alert.last_triggered is None {
                "Alert set: "@
            } else {
                "⚡ ALERT TRIGGERED — Price went "@
            };
            let word = if alert.direction is Above {
                seq!['A', 'B', 'O', 'V', 'E']
            } else {
                seq!['B', 'E', 'L', 'O', 'W']
            };
            let message = alert_message(alert, alert_text);
            &&& message.len() == lead.len() + 7 + alert_text.len()
            &&& message.take(lead.len() as int) == lead
            &&& message.subrange(lead.len() as int, lead.len() as int + 5) == word
            &&& message.subrange(lead.len() as int + 5, lead.len() as int + 7) == seq![' ', '$']
            &&& message.skip(lead.len() as int + 7) == alert_text
        }),
{
    reveal_strlit(" $");
    crate::alert::law_directions_are_told_apart();
    let lead = if alert.last_triggered is None {
        "Alert set: "@
    } else {
        "⚡ ALERT TRIGGERED — Price went "@
    };
    let message = alert_message(alert, alert_text);
    let n = lead.len() as int;
    assert(message.len() == n + 7 + alert_text.len());
    assert(message.take(n) =~= lead);
    assert(message.subrange(n, n + 5) =~= alert.direction.spec_label());
    assert(message.subrange(n + 5, n + 7) =~= seq![' ', '$']);
    assert(message.skip(n + 7) =~= alert_text);
}

/// Two alerts that differ in nothing but the direction are told apart by their texts, whether they
/// went off or not.
pub proof fn law_alert_message_shows_the_direction(
    first: Alert,
    second: Alert,
    alert_text: Seq<char>,
)
    requires
        first.direction != second.direction,
        first.last_triggered is Some <==> second.last_triggered is Some,
    ensures
        alert_message(first, alert_text) != alert_message(second, alert_text),
{
    law_alert_message_parts(first, alert_text);
    law_alert_message_parts(second, alert_text);
    let n = if first.last_triggered is None {
        "Alert set: "@.len() as int
    } else {
        "⚡ ALERT TRIGGERED — Price went "@.len() as int
    };
    let a = alert_message(first, alert_text).subrange(n, n + 5);
    let b = alert_message(second, alert_text).subrange(n, n + 5);
    assert(a[0] != b[0]);
}

/// Whether `word` stands somewhere in `text`.
pub open spec fn holds_word(text: Seq<char>, word: Seq<char>) -> bool {
    exists|i: int|
        0 <= i <= text.len() - word.len() && #[trigger] text.subrange(i, i + word.len()) == word
}

/// No letter that tells the two words apart stands in what comes before them.
proof fn lemma_leads_without_the_words(k: int)
    ensures
        0 <= k < "Alert set: "@.len() ==> "Alert set: "@[k] != 'V' && "Alert set: "@[k] != 'W',
        0 <= k < "⚡ ALERT TRIGGERED — Price went "@.len() ==> {
            let c = "⚡ ALERT TRIGGERED — Price went "@[k];
            c != 'V' && c != 'W'
        },
{
    reveal_strlit("Alert set: ");
    reveal_strlit("⚡ ALERT TRIGGERED — Price went ");
}

/// In the text for an alert, the letters that tell the two words apart stand in its word only.
proof fn lemma_word_letters(alert: Alert, alert_text: Seq<char>, k: int)
    requires
        !alert_text.contains('V'),
        !alert_text.contains('W'),
        0 <= k < alert_message(alert, alert_text).len(),
    ensures
        alert_message(alert, alert_text)[k] == 'V' ==> alert.direction is Above,
        alert_message(alert, alert_text)[k] == 'W' ==> alert.direction is Below,
{
    let n = if alert.last_triggered is None {
        "Alert set: "@.len() as int
    } else {
        "⚡ ALERT TRIGGERED — Price went "@.len() as int
    };
    let message = alert_message(alert, alert_text);
    law_alert_message_parts(alert, alert_text);
    if k < n {
        lemma_leads_without_the_words(k);
        assert(message[k] == message.take(n)[k]);
    } else if k < n + 5 {
        assert(message[k] == message.subrange(n, n + 5)[k - n]);
    } else if k < n + 7 {
        assert(message[k] == message.subrange(n + 5, n + 7)[k - n - 5]);
    } else {
        assert(message[k] == message.skip(n + 7)[k - n - 7]);
        assert(alert_text[k - n - 7] == message[k]);
    }
}

/// Among the two words for directions, the text for an alert holds that of its own direction and
/// not the other, as long as the threshold is written without letters.
pub proof fn law_alert_message_holds_its_word(alert: Alert, alert_text: Seq<char>)
    requires
        !alert_text.contains('V'),
        !alert_text.contains('W'),
    ensures
        holds_word(alert_message(alert, alert_text), seq!['A', 'B', 'O', 'V', 'E'])
            <==> alert.direction is Above,
        holds_word(alert_message(alert, alert_text), seq!['B', 'E', 'L', 'O', 'W'])
            <==> alert.direction is Below,
{
    let above = seq!['A', 'B', 'O', 'V', 'E'];
    let below = seq!['B', 'E', 'L', 'O', 'W'];
    let n = if alert.last_triggered is None {
        "Alert set: "@.len() as int
    } else {
        "⚡ ALERT TRIGGERED — Price went "@.len() as int
    };
    let message = alert_message(alert, alert_text);
    law_alert_message_parts(alert, alert_text);
    if holds_word(message, above) {
        let i = choose|i: int|
            0 <= i <= message.len() - above.len() && #[trigger] message.subrange(
                i,
                i + above.len(),
            ) == above;
        assert(message.subrange(i, i + above.len())[3] == 'V');
        lemma_word_letters(alert, alert_text, i + 3);
    }
    if holds_word(message, below) {
        let i = choose|i: int|
            0 <= i <= message.len() - below.len() && #[trigger] message.subrange(
                i,
                i + below.len(),
            ) == below;
        assert(message.subrange(i, i + below.len())[4] == 'W');
        lemma_word_letters(alert, alert_text, i + 4);
    }
    if alert.direction is Above {
        assert(message.subrange(n, n + above.len()) == above);
    } else {
        assert(message.subrange(n, n + below.len()) == below);
    }
}

/// The prompt names the direction that is being entered and ends with what was typed.
pub proof fn law_prompt_shows_what_is_entered(state: AppStateView)
    ensures
        ({
            let word = if state.alert_direction is Above {
                seq!['A', 'B', 'O', 'V', 'E']
            } else {
                seq!['B', 'E', 'L', 'O', 'W']
            };
            let text = prompt(state);
            &&& text.len() == 23 + state.input.len()
            &&& text.take(6) == "Alert "@
            &&& text.subrange(6, 11) == word
            &&& text.subrange(11, 23) == " at price: $"@
            &&& text.skip(23) == state.input
        }),
{
    reveal_strlit("Alert ");
    reveal_strlit(" at price: $");
    crate::alert::law_directions_are_told_apart();
    let text = prompt(state);
    assert(text.take(6) =~= "Alert "@);
    assert(text.subrange(6, 11) =~= state.alert_direction.spec_label());
    assert(text.subrange(11, 23) =~= " at price: $"@);
    assert(text.skip(23) =~= state.input);
}

/// The help offers to clear the alert exactly where there is one, and the hint names the keys of
/// price entry.
pub proof fn law_help_offers_what_can_be_done(state: AppStateView)
    ensures
        state.alert is Some ==> help(state) == "[A] new alert  [C] clear alert  [Q] quit"@,
        state.alert is None ==> help(state) == "[A] set alert  [Q] quit"@,
        hint() == "[Tab] toggle Above/Below  [Enter] confirm  [Esc] cancel"@,
{
}

/// The border is as wide as the terminal, but never wider than sixty strokes.
pub proof fn law_border_is_as_wide_as_allowed(cols: u16, i: int)
    requires
        0 <= i < border(cols).len(),
    ensures
        border(cols)[i] == '─',
        border(cols).len() == cols || (border(cols).len() == 60 && cols > 60),
        border(cols).len() <= 60,
{
}

} // verus!
