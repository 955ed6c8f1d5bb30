//! What a drawing leaves on the terminal.
//!
//! The terminal is modelled row by row. A row holds what was written on it since it was last
//! cleared, each piece with its place and style. How wide a piece comes out, and what happens at
//! the right edge, is left to the terminal.
//!
//! There is a row for every number. In a low terminal some parts of a drawing are meant for rows
//! past the last one. A terminal keeps the cursor on its last row then, where such parts come to
//! stand over one another; the model keeps them apart, each on the row it was meant for.

use crate::alert::{Alert, AlertDirection};
use crate::screen::{
    alert_message, alert_part, alert_row, bold_line, border, border_part, border_row, centered,
    clear_row, clear_rows, content_rows, flash_tint, full_drawing, header_part, header_row, help,
    hint, hint_row, holds_word, input_part, input_row, law_alert_message_holds_its_word,
    law_alert_message_parts, law_alert_message_shows_the_direction, line, opening, partial_drawing,
    price_part, price_row, price_tint, prompt, prompt_line, status_col, status_part, status_tint,
    DrawView, Tint, STATUS_ROW,
};
use crate::state::{AppStateView, InputMode};
use crate::text::byte_len;
use vstd::prelude::*;

verus! {

/// A piece of text on the terminal.
pub struct Ink {
    /// The column that the cursor was moved to before the piece was written.
    pub col: u16,
    /// What was written between that move and the piece.
    pub lead: Seq<char>,
    /// The colour, where one was set.
    pub tint: Option<Tint>,
    /// Whether the piece is bold.
    pub bold: bool,
    /// The text.
    pub text: Seq<char>,
}

/// A terminal.
#[verifier::ext_equal]
pub struct Terminal {
    /// What stands on each row.
    pub lines: Map<u16, Seq<Ink>>,
    /// The row of the cursor.
    pub row: u16,
    /// The column that the cursor was last moved to.
    pub col: u16,
    /// What was written since that move.
    pub lead: Seq<char>,
    /// The colour in which text is written.
    pub tint: Option<Tint>,
    /// Whether text is written in bold.
    pub bold: bool,
    /// Whether the cursor can be seen.
    pub cursor_hidden: bool,
}

/// Rows without anything on them.
pub open spec fn blank() -> Map<u16, Seq<Ink>> {
    Map::new(|row: u16| true, |row: u16| Seq::empty())
}

/// `lines` with `ink` added on a row.
pub open spec fn inked(lines: Map<u16, Seq<Ink>>, row: u16, ink: Ink) -> Map<u16, Seq<Ink>> {
    lines.insert(row, lines[row].push(ink))
}

impl Terminal {
    /// Whether text is written without colour and bold.
    pub open spec fn plain(self) -> bool {
        self.tint is None && !self.bold
    }

    /// Whether every row is there.
    pub open spec fn whole(self) -> bool {
        forall|row: u16| #[trigger] self.lines.contains_key(row)
    }

    /// The terminal after one command.
    pub open spec fn after(self, command: DrawView) -> Terminal {
        match command {
            DrawView::HideCursor => Terminal { cursor_hidden: true, ..self },
            DrawView::MoveTo(col, row) => Terminal { col, row, lead: Seq::empty(), ..self },
            DrawView::ClearAll => Terminal { lines: blank(), ..self },
            DrawView::ClearLine => Terminal {
                lines: self.lines.insert(self.row, Seq::empty()),
                ..self
            },
            DrawView::Foreground(tint) => Terminal { tint: Some(tint), ..self },
            DrawView::Bold => Terminal { bold: true, ..self },
            DrawView::ResetAttributes => Terminal { tint: None, bold: false, ..self },
            DrawView::ResetColor => Terminal { tint: None, bold: false, ..self },
            DrawView::Print(text) => {
                let ink = Ink {
                    col: self.col,
                    lead: self.lead,
                    tint: self.tint,
                    bold: self.bold,
                    text,
                };
                Terminal {
                    lines: inked(self.lines, self.row, ink),
                    lead: self.lead + text,
                    ..self
                }
            },
        }
    }

    /// The terminal after a drawing.
    pub open spec fn painted(self, drawing: Seq<DrawView>) -> Terminal
        decreases drawing.len(),
    {
        if drawing.len() == 0 {
            self
        } else {
            self.painted(drawing.drop_last()).after(drawing.last())
        }
    }
}

/// A piece of text that begins where the cursor was moved to.
pub open spec fn piece(col: u16, tint: Tint, bold: bool, text: Seq<char>) -> Ink {
    Ink { col, lead: Seq::empty(), tint: Some(tint), bold, text }
}

/// The piece that shows the connection status.
pub open spec fn status_ink(state: AppStateView, cols: u16) -> Ink {
    let text = state.status.spec_label();
    piece(status_col(cols, byte_len(text)), status_tint(state.status), false, text)
}

/// The piece that shows the header.
pub open spec fn header_ink(cols: u16) -> Ink {
    let text = "BINANCE · BTCUSDT · SPOT"@;
    piece(centered(cols, byte_len(text)), Tint::DarkGrey, false, text)
}

/// The piece that shows the price, or that there is none yet.
pub open spec fn price_ink(state: AppStateView, cols: u16, price_text: Seq<char>) -> Ink {
    match state.price {
        Some(price) => {
            let text = "$ "@ + price_text;
            let tint = price_tint(price, state.prev_price);
            piece(centered(cols, byte_len(text)), tint, true, text)
        },
        None => {
            let text = "Waiting for data..."@;
            piece(centered(cols, byte_len(text)), Tint::DarkGrey, false, text)
        },
    }
}

/// The piece that shows the alert.
pub open spec fn alert_ink(state: AppStateView, cols: u16, alert_text: Seq<char>) -> Ink {
    let text = alert_message(state.alert->0, alert_text);
    let tint = if state.triggered() {
        flash_tint(state.alert_flash)
    } else {
        Tint::DarkYellow
    };
    piece(centered(cols, byte_len(text)), tint, state.triggered(), text)
}

/// The piece that shows what is being entered.
pub open spec fn prompt_ink(state: AppStateView, cols: u16) -> Ink {
    piece(centered(cols, byte_len(prompt(state)) + 1), Tint::Cyan, false, prompt(state))
}

/// The piece that stands for the cursor behind what is being entered.
pub open spec fn block_ink(state: AppStateView, cols: u16) -> Ink {
    Ink { lead: prompt(state), text: "█"@, ..prompt_ink(state, cols) }
}

/// The piece that shows the hint.
pub open spec fn hint_ink(cols: u16) -> Ink {
    piece(centered(cols, byte_len(hint())), Tint::DarkGrey, false, hint())
}

/// The piece that shows the help.
pub open spec fn help_ink(state: AppStateView, cols: u16) -> Ink {
    piece(centered(cols, byte_len(help(state))), Tint::DarkGrey, false, help(state))
}

/// The piece that shows the border.
pub open spec fn border_ink(cols: u16) -> Ink {
    piece(centered(cols, byte_len(border(cols))), Tint::Rgb(30, 30, 30), false, border(cols))
}

/// `lines` with the alert added, if there is one.
pub open spec fn with_alert(
    lines: Map<u16, Seq<Ink>>,
    state: AppStateView,
    cols: u16,
    rows: u16,
    alert_text: Seq<char>,
) -> Map<u16, Seq<Ink>> {
    if state.alert is Some {
        inked(lines, alert_row(rows), alert_ink(state, cols, alert_text))
    } else {
        lines
    }
}

/// `lines` with what is being entered, or the help, added.
pub open spec fn with_input(
    lines: Map<u16, Seq<Ink>>,
    state: AppStateView,
    cols: u16,
    rows: u16,
) -> Map<u16, Seq<Ink>> {
    match state.input_mode {
        InputMode::EnteringPrice => inked(
            inked(
                inked(lines, input_row(rows), prompt_ink(state, cols)),
                input_row(rows),
                block_ink(state, cols),
            ),
            hint_row(rows),
            hint_ink(cols),
        ),
        InputMode::Normal => inked(lines, input_row(rows), help_ink(state, cols)),
    }
}

/// What the terminal shows of `state`: the status, the header, the price, the alert, what is being
/// entered or the help, and the border, each on its row.
pub open spec fn shown(
    state: AppStateView,
    cols: u16,
    rows: u16,
    price_text: Seq<char>,
    alert_text: Seq<char>,
) -> Map<u16, Seq<Ink>> {
    let lines = inked(blank(), STATUS_ROW, status_ink(state, cols));
    let lines = inked(lines, header_row(rows), header_ink(cols));
    let lines = inked(lines, price_row(rows), price_ink(state, cols, price_text));
    let lines = with_alert(lines, state, cols, rows, alert_text);
    let lines = with_input(lines, state, cols, rows);
    inked(lines, border_row(rows), border_ink(cols))
}

/// Painting two drawings one after the other is painting them joined.
proof fn lemma_painted_joined(terminal: Terminal, first: Seq<DrawView>, second: Seq<DrawView>)
    ensures
        terminal.painted(first + second) == terminal.painted(first).painted(second),
    decreases second.len(),
{
    if second.len() == 0 {
        assert(first + second =~= first);
    } else {
        lemma_painted_joined(terminal, first, second.drop_last());
        assert((first + second).drop_last() =~= first + second.drop_last());
    }
}

/// The effect of writing a line.
proof fn lemma_line(terminal: Terminal, col: u16, row: u16, tint: Tint, text: Seq<char>)
    requires
        terminal.plain(),
    ensures
        ({
            let end = terminal.painted(line(col, row, tint, text));
            &&& end.lines == inked(terminal.lines, row, piece(col, tint, false, text))
            &&& end.plain()
            &&& end.cursor_hidden == terminal.cursor_hidden
        }),
{
    let drawing = line(col, row, tint, text);
    let d3 = drawing.drop_last();
    let d2 = d3.drop_last();
    let d1 = d2.drop_last();
    reveal_with_fuel(Terminal::painted, 5);
    assert(d1.drop_last().len() == 0);
    assert(terminal.painted(d1) == terminal.after(DrawView::MoveTo(col, row)));
}

/// The effect of writing a bold line.
proof fn lemma_bold_line(terminal: Terminal, col: u16, row: u16, tint: Tint, text: Seq<char>)
    ensures
        ({
            let end = terminal.painted(bold_line(col, row, tint, text));
            &&& end.lines == inked(terminal.lines, row, piece(col, tint, true, text))
            &&& end.plain()
            &&& end.cursor_hidden == terminal.cursor_hidden
        }),
{
    let drawing = bold_line(col, row, tint, text);
    let d5 = drawing.drop_last();
    let d4 = d5.drop_last();
    let d3 = d4.drop_last();
    let d2 = d3.drop_last();
    let d1 = d2.drop_last();
    reveal_with_fuel(Terminal::painted, 7);
    assert(d1.drop_last().len() == 0);
    assert(terminal.painted(d1) == terminal.after(DrawView::MoveTo(col, row)));
}

/// The effect of clearing a row.
proof fn lemma_clear_row(terminal: Terminal, row: u16)
    ensures
        ({
            let end = terminal.painted(clear_row(row));
            &&& end.lines == terminal.lines.insert(row, Seq::empty())
            &&& end.tint == terminal.tint
            &&& end.bold == terminal.bold
            &&& end.cursor_hidden == terminal.cursor_hidden
        }),
{
    let drawing = clear_row(row);
    let d1 = drawing.drop_last();
    reveal_with_fuel(Terminal::painted, 3);
    assert(d1.drop_last().len() == 0);
    assert(terminal.painted(d1) == terminal.after(DrawView::MoveTo(0, row)));
}

/// The effect of writing what is being entered.
proof fn lemma_prompt_line(terminal: Terminal, state: AppStateView, cols: u16, rows: u16)
    requires
        terminal.plain(),
    ensures
        ({
            let end = terminal.painted(prompt_line(state, cols, rows));
            &&& end.lines == inked(
                inked(terminal.lines, input_row(rows), prompt_ink(state, cols)),
                input_row(rows),
                block_ink(state, cols),
            )
            &&& end.plain()
            &&& end.cursor_hidden == terminal.cursor_hidden
        }),
{
    let drawing = prompt_line(state, cols, rows);
    let d4 = drawing.drop_last();
    let d3 = d4.drop_last();
    let d2 = d3.drop_last();
    let d1 = d2.drop_last();
    reveal_with_fuel(Terminal::painted, 6);
    assert(d1.drop_last().len() == 0);
    assert(Seq::<char>::empty() + prompt(state) =~= prompt(state));
}

/// The effect of drawing the price.
proof fn lemma_price_part(
    terminal: Terminal,
    state: AppStateView,
    cols: u16,
    rows: u16,
    price_text: Seq<char>,
)
    requires
        terminal.plain(),
    ensures
        ({
            let end = terminal.painted(price_part(state, cols, rows, price_text));
            &&& end.lines == inked(
                terminal.lines,
                price_row(rows),
                price_ink(state, cols, price_text),
            )
            &&& end.plain()
            &&& end.cursor_hidden == terminal.cursor_hidden
        }),
{
    match state.price {
        Some(price) => {
            let text = "$ "@ + price_text;
            lemma_bold_line(
                terminal,
                centered(cols, byte_len(text)),
                price_row(rows),
                price_tint(price, state.prev_price),
                text,
            );
        },
        None => {
            let text = "Waiting for data..."@;
            lemma_line(
                terminal,
                centered(cols, byte_len(text)),
                price_row(rows),
                Tint::DarkGrey,
                text,
            );
        },
    }
}

/// The effect of drawing the alert.
proof fn lemma_alert_part(
    terminal: Terminal,
    state: AppStateView,
    cols: u16,
    rows: u16,
    alert_text: Seq<char>,
)
    requires
        terminal.plain(),
    ensures
        ({
            let end = terminal.painted(alert_part(state, cols, rows, alert_text));
            &&& end.lines == with_alert(terminal.lines, state, cols, rows, alert_text)
            &&& end.plain()
            &&& end.cursor_hidden == terminal.cursor_hidden
        }),
{
    if let Some(alert) = state.alert {
        let text = alert_message(alert, alert_text);
        let col = centered(cols, byte_len(text));
        if state.triggered() {
            lemma_bold_line(terminal, col, alert_row(rows), flash_tint(state.alert_flash), text);
        } else {
            lemma_line(terminal, col, alert_row(rows), Tint::DarkYellow, text);
        }
    }
}

/// The effect of drawing what is being entered, or the help.
proof fn lemma_input_part(terminal: Terminal, state: AppStateView, cols: u16, rows: u16)
    requires
        terminal.plain(),
    ensures
        ({
            let end = terminal.painted(input_part(state, cols, rows));
            &&& end.lines == with_input(terminal.lines, state, cols, rows)
            &&& end.plain()
            &&& end.cursor_hidden == terminal.cursor_hidden
        }),
{
    match state.input_mode {
        InputMode::EnteringPrice => {
            let first = prompt_line(state, cols, rows);
            let col = centered(cols, byte_len(hint()));
            let second = line(col, hint_row(rows), Tint::DarkGrey, hint());
            lemma_prompt_line(terminal, state, cols, rows);
            lemma_line(terminal.painted(first), col, hint_row(rows), Tint::DarkGrey, hint());
            lemma_painted_joined(terminal, first, second);
        },
        InputMode::Normal => {
            let text = help(state);
            lemma_line(
                terminal,
                centered(cols, byte_len(text)),
                input_row(rows),
                Tint::DarkGrey,
                text,
            );
        },
    }
}

/// The effect of everything that is drawn once there is room for it.
proof fn lemma_parts(
    terminal: Terminal,
    start: Seq<DrawView>,
    state: AppStateView,
    cols: u16,
    rows: u16,
    price_text: Seq<char>,
    alert_text: Seq<char>,
)
    requires
        terminal.painted(start).plain(),
        terminal.painted(start).lines == blank(),
        terminal.painted(start).cursor_hidden,
    ensures
        ({
            let end = terminal.painted(
                start + status_part(state, cols) + header_part(cols, rows) + price_part(
                    state,
                    cols,
                    rows,
                    price_text,
                ) + alert_part(state, cols, rows, alert_text) + input_part(state, cols, rows)
                    + border_part(cols, rows),
            );
            &&& end.lines == shown(state, cols, rows, price_text, alert_text)
            &&& end.plain()
            &&& end.cursor_hidden
        }),
{
    let t0 = terminal.painted(start);
    let status = state.status.spec_label();
    lemma_line(
        t0,
        status_col(cols, byte_len(status)),
        STATUS_ROW,
        status_tint(state.status),
        status,
    );
    let d1 = start + status_part(state, cols);
    lemma_painted_joined(terminal, start, status_part(state, cols));
    let t1 = terminal.painted(d1);

    let header = "BINANCE · BTCUSDT · SPOT"@;
    lemma_line(t1, centered(cols, byte_len(header)), header_row(rows), Tint::DarkGrey, header);
    let d2 = d1 + header_part(cols, rows);
    lemma_painted_joined(terminal, d1, header_part(cols, rows));
    let t2 = terminal.painted(d2);

    lemma_price_part(t2, state, cols, rows, price_text);
    let d3 = d2 + price_part(state, cols, rows, price_text);
    lemma_painted_joined(terminal, d2, price_part(state, cols, rows, price_text));
    let t3 = terminal.painted(d3);

    lemma_alert_part(t3, state, cols, rows, alert_text);
    let d4 = d3 + alert_part(state, cols, rows, alert_text);
    lemma_painted_joined(terminal, d3, alert_part(state, cols, rows, alert_text));
    let t4 = terminal.painted(d4);

    lemma_input_part(t4, state, cols, rows);
    let d5 = d4 + input_part(state, cols, rows);
    lemma_painted_joined(terminal, d4, input_part(state, cols, rows));
    let t5 = terminal.painted(d5);

    let text = border(cols);
    lemma_line(
        t5,
        centered(cols, byte_len(text)),
        border_row(rows),
        Tint::Rgb(30, 30, 30),
        text,
    );
    lemma_painted_joined(terminal, d5, border_part(cols, rows));
}

/// A full redraw shows the state and nothing else, whatever the terminal showed before, with the
/// cursor hidden, and leaves no colour or bold behind.
pub proof fn law_full_redraw_shows_state(
    terminal: Terminal,
    state: AppStateView,
    cols: u16,
    rows: u16,
    price_text: Seq<char>,
    alert_text: Seq<char>,
)
    requires
        terminal.plain(),
    ensures
        ({
            let end = terminal.painted(
                full_drawing(state, true, cols, rows, price_text, alert_text),
            );
            &&& end.lines == shown(state, cols, rows, price_text, alert_text)
            &&& end.plain()
            &&& end.cursor_hidden
        }),
{
    let start = opening(true, rows);
    assert(start =~= seq![
        DrawView::HideCursor,
        DrawView::MoveTo(0, 0),
        DrawView::ClearAll,
        DrawView::MoveTo(0, 0),
    ]);
    let d3 = start.drop_last();
    let d2 = d3.drop_last();
    let d1 = d2.drop_last();
    assert(d1.drop_last().len() == 0);
    assert(terminal.painted(start).lines == blank() && terminal.painted(start).plain()
        && terminal.painted(start).cursor_hidden) by {
        reveal_with_fuel(Terminal::painted, 5);
        assert(terminal.painted(d1) == terminal.after(DrawView::HideCursor));
    }
    lemma_parts(terminal, start, state, cols, rows, price_text, alert_text);
}

/// The effect of clearing rows.
proof fn lemma_clear_rows(terminal: Terminal, targets: Seq<u16>, rows: u16)
    requires
        terminal.whole(),
    ensures
        ({
            let end = terminal.painted(clear_rows(targets, rows));
            &&& end.whole()
            &&& forall|row: u16|
                #[trigger] end.lines[row] == if 0 < row <= rows && targets.contains(row) {
                    Seq::<Ink>::empty()
                } else {
                    terminal.lines[row]
                }
            &&& end.tint == terminal.tint
            &&& end.bold == terminal.bold
            &&& end.cursor_hidden == terminal.cursor_hidden
        }),
    decreases targets.len(),
{
    if targets.len() > 0 {
        let last = targets.last();
        let before = clear_rows(targets.drop_last(), rows);
        let middle = terminal.painted(before);
        lemma_clear_rows(terminal, targets.drop_last(), rows);
        assert forall|row: u16| targets.contains(row) <==> row == last
            || targets.drop_last().contains(row) by {
            if targets.contains(row) && row != last {
                let i = choose|i: int| 0 <= i < targets.len() && targets[i] == row;
                assert(targets.drop_last()[i] == row);
            }
            if targets.drop_last().contains(row) {
                let i = choose|i: int|
                    0 <= i < targets.drop_last().len() && targets.drop_last()[i] == row;
                assert(targets[i] == row);
            }
            assert(targets[targets.len() - 1] == last);
        }
        if 0 < last <= rows {
            lemma_painted_joined(terminal, before, clear_row(last));
            lemma_clear_row(middle, last);
            let end = middle.painted(clear_row(last));
            assert forall|row: u16| #[trigger] end.lines.contains_key(row) by {
                assert(middle.lines.contains_key(row));
            }
            assert forall|row: u16|
                #[trigger] end.lines[row] == if 0 < row <= rows && targets.contains(row) {
                    Seq::<Ink>::empty()
                } else {
                    terminal.lines[row]
                } by {
                assert(middle.lines.contains_key(row));
            }
        }
    }
}

/// Where the terminal shows a state, a redraw that clears only the rows with content makes it show
/// any other state, as a full redraw would, unless the header is on the top row, which such a
/// redraw does not clear.
pub proof fn law_content_redraw_shows_state(
    terminal: Terminal,
    old_state: AppStateView,
    new_state: AppStateView,
    cols: u16,
    rows: u16,
    old_price_text: Seq<char>,
    old_alert_text: Seq<char>,
    new_price_text: Seq<char>,
    new_alert_text: Seq<char>,
)
    requires
        terminal.plain(),
        terminal.lines == shown(old_state, cols, rows, old_price_text, old_alert_text),
        header_row(rows) > 0,
    ensures
        ({
            let end = terminal.painted(
                full_drawing(new_state, false, cols, rows, new_price_text, new_alert_text),
            );
            &&& end.lines == shown(new_state, cols, rows, new_price_text, new_alert_text)
            &&& end.plain()
            &&& end.cursor_hidden
        }),
{
    let targets = content_rows(rows);
    let first = seq![DrawView::HideCursor, DrawView::MoveTo(0, 0)];
    let start = opening(false, rows);
    assert(first.drop_last().drop_last().len() == 0);
    let t1 = terminal.painted(first);
    assert(t1.lines == terminal.lines && t1.plain() && t1.cursor_hidden) by {
        reveal_with_fuel(Terminal::painted, 3);
        assert(terminal.painted(first.drop_last()) == terminal.after(DrawView::HideCursor));
    }
    assert(t1.whole());
    lemma_painted_joined(terminal, first, clear_rows(targets, rows));
    lemma_clear_rows(t1, targets, rows);
    let cleared = terminal.painted(start);
    assert(targets[0] == STATUS_ROW && targets[1] == header_row(rows) && targets[2] == price_row(
        rows,
    ) && targets[3] == alert_row(rows) && targets[4] == input_row(rows) && targets[5] == hint_row(
        rows,
    ) && targets[6] == border_row(rows));
    assert forall|row: u16| #[trigger] cleared.lines[row] == Seq::<Ink>::empty() by {
        if !targets.contains(row) {
            assert(terminal.lines[row] == Seq::<Ink>::empty());
        }
    }
    assert forall|row: u16| #[trigger] cleared.lines.contains_key(row) by {}
    assert(cleared.lines =~= blank());
    lemma_parts(terminal, start, new_state, cols, rows, new_price_text, new_alert_text);
}

/// `lines` with a row cleared.
pub open spec fn wiped(lines: Map<u16, Seq<Ink>>, row: u16) -> Map<u16, Seq<Ink>> {
    lines.insert(row, Seq::empty())
}

/// What a partial redraw makes of `lines`.
pub open spec fn refreshed(
    lines: Map<u16, Seq<Ink>>,
    state: AppStateView,
    cols: u16,
    rows: u16,
    price_text: Seq<char>,
    alert_text: Seq<char>,
) -> Map<u16, Seq<Ink>> {
    let lines = inked(wiped(lines, STATUS_ROW), STATUS_ROW, status_ink(state, cols));
    let lines = inked(
        wiped(lines, price_row(rows)),
        price_row(rows),
        price_ink(state, cols, price_text),
    );
    if state.triggered() {
        with_alert(wiped(lines, alert_row(rows)), state, cols, rows, alert_text)
    } else {
        lines
    }
}

/// The effect of a partial redraw.
proof fn lemma_partial_redraw(
    terminal: Terminal,
    state: AppStateView,
    cols: u16,
    rows: u16,
    price_text: Seq<char>,
    alert_text: Seq<char>,
)
    requires
        terminal.plain(),
    ensures
        ({
            let end = terminal.painted(partial_drawing(state, cols, rows, price_text, alert_text));
            &&& end.lines == refreshed(terminal.lines, state, cols, rows, price_text, alert_text)
            &&& end.plain()
            &&& end.cursor_hidden
        }),
{
    let d0 = seq![DrawView::HideCursor];
    reveal_with_fuel(Terminal::painted, 2);
    assert(d0.drop_last().len() == 0);
    let t0 = terminal.painted(d0);
    assert(t0 == Terminal { cursor_hidden: true, ..terminal });

    let d1 = d0 + clear_row(STATUS_ROW);
    lemma_painted_joined(terminal, d0, clear_row(STATUS_ROW));
    lemma_clear_row(t0, STATUS_ROW);
    let t1 = terminal.painted(d1);

    let status = state.status.spec_label();
    let d2 = d1 + status_part(state, cols);
    lemma_painted_joined(terminal, d1, status_part(state, cols));
    lemma_line(
        t1,
        status_col(cols, byte_len(status)),
        STATUS_ROW,
        status_tint(state.status),
        status,
    );
    let t2 = terminal.painted(d2);

    let d3 = d2 + clear_row(price_row(rows));
    lemma_painted_joined(terminal, d2, clear_row(price_row(rows)));
    lemma_clear_row(t2, price_row(rows));
    let t3 = terminal.painted(d3);

    let d4 = d3 + price_part(state, cols, rows, price_text);
    lemma_painted_joined(terminal, d3, price_part(state, cols, rows, price_text));
    lemma_price_part(t3, state, cols, rows, price_text);
    let t4 = terminal.painted(d4);

    if state.triggered() {
        let clear = clear_row(alert_row(rows));
        let part = alert_part(state, cols, rows, alert_text);
        let d5 = d4 + clear;
        lemma_painted_joined(terminal, d4, clear);
        lemma_clear_row(t4, alert_row(rows));
        let t5 = terminal.painted(d5);
        lemma_painted_joined(terminal, d5, part);
        lemma_alert_part(t5, state, cols, rows, alert_text);
        assert(d5 + part =~= d4 + (clear + part));
    } else {
        assert(d4 + Seq::<DrawView>::empty() =~= d4);
    }
}

/// A partial redraw touches only the rows of the status and the price, and that of the alert if it
/// went off, whatever the terminal shows.
pub proof fn law_partial_redraw_leaves_other_rows(
    terminal: Terminal,
    state: AppStateView,
    cols: u16,
    rows: u16,
    price_text: Seq<char>,
    alert_text: Seq<char>,
    row: u16,
)
    requires
        terminal.plain(),
        row != STATUS_ROW,
        row != price_row(rows),
        row != alert_row(rows) || !state.triggered(),
    ensures
        terminal.painted(
            partial_drawing(state, cols, rows, price_text, alert_text),
        ).lines[row] == terminal.lines[row],
{
    lemma_partial_redraw(terminal, state, cols, rows, price_text, alert_text);
}

/// Whether the rows that a partial redraw clears have nothing else on them: the header is off the
/// rows of the status and of the price, and those two are not one row. Only in terminals that are
/// very low do they meet.
pub open spec fn roomy(rows: u16) -> bool {
    header_row(rows) != STATUS_ROW && header_row(rows) != price_row(rows) && price_row(rows)
        != STATUS_ROW
}

/// Whether `new` can follow `old` without a key press: what is being entered and the settings of
/// the alert are the same, and an alert that went off has not been set anew.
pub open spec fn follows(old_state: AppStateView, new_state: AppStateView) -> bool {
    &&& new_state.input_mode == old_state.input_mode
    &&& new_state.input == old_state.input
    &&& new_state.alert_direction == old_state.alert_direction
    &&& new_state.alert is Some <==> old_state.alert is Some
    &&& new_state.alert is Some ==> new_state.alert->0.rearmed() == old_state.alert->0.rearmed()
    &&& old_state.triggered() ==> new_state.triggered()
}

/// Which terminals are roomy.
pub proof fn law_roomy_terminals(rows: u16)
    ensures
        roomy(rows) <==> rows == 10 || rows == 11 || rows >= 14,
{
}

/// Where the terminal shows a state, a partial redraw makes it show any state that follows without
/// a key press, as a full redraw would. `old_price_text` and `new_price_text` are the prices of the
/// two states written out.
pub proof fn law_partial_redraw_is_enough(
    terminal: Terminal,
    old_state: AppStateView,
    new_state: AppStateView,
    cols: u16,
    rows: u16,
    old_price_text: Seq<char>,
    new_price_text: Seq<char>,
    alert_text: Seq<char>,
)
    requires
        terminal.plain(),
        terminal.lines == shown(old_state, cols, rows, old_price_text, alert_text),
        follows(old_state, new_state),
        roomy(rows),
    ensures
        ({
            let end = terminal.painted(
                partial_drawing(new_state, cols, rows, new_price_text, alert_text),
            );
            &&& end.lines == shown(new_state, cols, rows, new_price_text, alert_text)
            &&& end.plain()
            &&& end.cursor_hidden
        }),
{
    lemma_partial_redraw(terminal, new_state, cols, rows, new_price_text, alert_text);
    law_roomy_terminals(rows);
    assert(refreshed(terminal.lines, new_state, cols, rows, new_price_text, alert_text) =~~= shown(
        new_state,
        cols,
        rows,
        new_price_text,
        alert_text,
    ));
}

/// Whether a piece in this style, written where the cursor was moved to, stands on a row.
pub open spec fn stands(
    lines: Map<u16, Seq<Ink>>,
    row: u16,
    col: u16,
    tint: Tint,
    bold: bool,
    text: Seq<char>,
) -> bool {
    lines[row].contains(Ink { col, lead: Seq::empty(), tint: Some(tint), bold, text })
}

/// One where a thing holds, and none where it does not.
pub open spec fn one_if(holds: bool) -> int {
    if holds {
        1
    } else {
        0
    }
}

/// What a full redraw leaves of each part, in a terminal of any size: the status and the header.
pub proof fn law_full_redraw_shows_status_and_header(
    terminal: Terminal,
    state: AppStateView,
    cols: u16,
    rows: u16,
    price_text: Seq<char>,
    alert_text: Seq<char>,
)
    requires
        terminal.plain(),
    ensures
        ({
            let lines = terminal.painted(
                full_drawing(state, true, cols, rows, price_text, alert_text),
            ).lines;
            let status = state.status.spec_label();
            let header = "BINANCE · BTCUSDT · SPOT"@;
            &&& stands(
                lines,
                1,
                status_col(cols, byte_len(status)),
                status_tint(state.status),
                false,
                status,
            )
            &&& stands(
                lines,
                header_row(rows),
                centered(cols, byte_len(header)),
                Tint::DarkGrey,
                false,
                header,
            )
        }),
{
    law_full_redraw_shows_state(terminal, state, cols, rows, price_text, alert_text);
    let l1 = inked(blank(), STATUS_ROW, status_ink(state, cols));
    let l2 = inked(l1, header_row(rows), header_ink(cols));
    lemma_inked_last(blank(), STATUS_ROW, status_ink(state, cols));
    lemma_inked_last(l1, header_row(rows), header_ink(cols));
    lemma_inked_keeps(l1, header_row(rows), header_ink(cols), STATUS_ROW, status_ink(state, cols));
    let status = status_ink(state, cols);
    let header = header_ink(cols);
    lemma_shown_keeps(state, cols, rows, price_text, alert_text, STATUS_ROW, status);
    lemma_shown_keeps(state, cols, rows, price_text, alert_text, header_row(rows), header);
}

/// What a full redraw leaves of each part, in a terminal of any size: the price, or that there is
/// none yet, and the alert, bold once it went off.
pub proof fn law_full_redraw_shows_price_and_alert(
    terminal: Terminal,
    state: AppStateView,
    cols: u16,
    rows: u16,
    price_text: Seq<char>,
    alert_text: Seq<char>,
)
    requires
        terminal.plain(),
    ensures
        ({
            let lines = terminal.painted(
                full_drawing(state, true, cols, rows, price_text, alert_text),
            ).lines;
            let text = "$ "@ + price_text;
            let waiting = "Waiting for data..."@;
            let message = alert_message(state.alert->0, alert_text);
            &&& state.price is Some ==> stands(
                lines,
                price_row(rows),
                centered(cols, byte_len(text)),
                price_tint(state.price->0, state.prev_price),
                true,
                text,
            )
            &&& state.price is None ==> stands(
                lines,
                price_row(rows),
                centered(cols, byte_len(waiting)),
                Tint::DarkGrey,
                false,
                waiting,
            )
            &&& state.alert is Some && state.alert->0.last_triggered is Some ==> stands(
                lines,
                alert_row(rows),
                centered(cols, byte_len(message)),
                flash_tint(state.alert_flash),
                true,
                message,
            )
            &&& state.alert is Some && state.alert->0.last_triggered is None ==> stands(
                lines,
                alert_row(rows),
                centered(cols, byte_len(message)),
                Tint::DarkYellow,
                false,
                message,
            )
        }),
{
    law_full_redraw_shows_state(terminal, state, cols, rows, price_text, alert_text);
    let l1 = inked(blank(), STATUS_ROW, status_ink(state, cols));
    let l2 = inked(l1, header_row(rows), header_ink(cols));
    let price = price_ink(state, cols, price_text);
    let l3 = inked(l2, price_row(rows), price);
    lemma_inked_last(l2, price_row(rows), price);
    let alert = alert_ink(state, cols, alert_text);
    if state.alert is Some {
        lemma_inked_last(l3, alert_row(rows), alert);
        lemma_inked_keeps(l3, alert_row(rows), alert, price_row(rows), price);
        lemma_end_keeps(
            with_alert(l3, state, cols, rows, alert_text),
            state,
            cols,
            rows,
            alert_row(rows),
            alert,
        );
    }
    lemma_end_keeps(
        with_alert(l3, state, cols, rows, alert_text),
        state,
        cols,
        rows,
        price_row(rows),
        price,
    );
}

/// What a full redraw leaves of each part, in a terminal of any size: what is being entered with a
/// block behind it, and the hint, or the help; and the border.
pub proof fn law_full_redraw_shows_input_and_border(
    terminal: Terminal,
    state: AppStateView,
    cols: u16,
    rows: u16,
    price_text: Seq<char>,
    alert_text: Seq<char>,
)
    requires
        terminal.plain(),
    ensures
        ({
            let lines = terminal.painted(
                full_drawing(state, true, cols, rows, price_text, alert_text),
            ).lines;
            let entered = prompt(state);
            &&& state.input_mode is EnteringPrice ==> {
                &&& stands(
                    lines,
                    input_row(rows),
                    centered(cols, byte_len(entered) + 1),
                    Tint::Cyan,
                    false,
                    entered,
                )
                &&& lines[input_row(rows)].contains(
                    Ink {
                        col: centered(cols, byte_len(entered) + 1),
                        lead: entered,
                        tint: Some(Tint::Cyan),
                        bold: false,
                        text: "█"@,
                    },
                )
                &&& stands(
                    lines,
                    hint_row(rows),
                    centered(cols, byte_len(hint())),
                    Tint::DarkGrey,
                    false,
                    hint(),
                )
            }
            &&& state.input_mode is Normal ==> stands(
                lines,
                input_row(rows),
                centered(cols, byte_len(help(state))),
                Tint::DarkGrey,
                false,
                help(state),
            )
            &&& stands(
                lines,
                border_row(rows),
                centered(cols, byte_len(border(cols))),
                Tint::Rgb(30, 30, 30),
                false,
                border(cols),
            )
        }),
{
    law_full_redraw_shows_state(terminal, state, cols, rows, price_text, alert_text);
    let l1 = inked(blank(), STATUS_ROW, status_ink(state, cols));
    let l2 = inked(l1, header_row(rows), header_ink(cols));
    let l3 = inked(l2, price_row(rows), price_ink(state, cols, price_text));
    let l4 = with_alert(l3, state, cols, rows, alert_text);
    let l5 = with_input(l4, state, cols, rows);
    let rim = border_ink(cols);
    lemma_inked_last(l5, border_row(rows), rim);
    if state.input_mode is EnteringPrice {
        let a = inked(l4, input_row(rows), prompt_ink(state, cols));
        let b = inked(a, input_row(rows), block_ink(state, cols));
        lemma_inked_last(l4, input_row(rows), prompt_ink(state, cols));
        lemma_inked_keeps(
            a,
            input_row(rows),
            block_ink(state, cols),
            input_row(rows),
            prompt_ink(state, cols),
        );
        lemma_inked_last(a, input_row(rows), block_ink(state, cols));
        lemma_inked_last(b, hint_row(rows), hint_ink(cols));
        lemma_inked_keeps(
            b,
            hint_row(rows),
            hint_ink(cols),
            input_row(rows),
            prompt_ink(state, cols),
        );
        lemma_inked_keeps(
            b,
            hint_row(rows),
            hint_ink(cols),
            input_row(rows),
            block_ink(state, cols),
        );
        lemma_inked_keeps(l5, border_row(rows), rim, input_row(rows), prompt_ink(state, cols));
        lemma_inked_keeps(l5, border_row(rows), rim, input_row(rows), block_ink(state, cols));
        lemma_inked_keeps(l5, border_row(rows), rim, hint_row(rows), hint_ink(cols));
    } else {
        lemma_inked_last(l4, input_row(rows), help_ink(state, cols));
        lemma_inked_keeps(l5, border_row(rows), rim, input_row(rows), help_ink(state, cols));
    }
}

/// A full redraw leaves nothing but the parts: as many pieces stand on a row as there are parts
/// meant for it.
pub proof fn law_full_redraw_shows_nothing_else(
    terminal: Terminal,
    state: AppStateView,
    cols: u16,
    rows: u16,
    price_text: Seq<char>,
    alert_text: Seq<char>,
    row: u16,
)
    requires
        terminal.plain(),
    ensures
        terminal.painted(
            full_drawing(state, true, cols, rows, price_text, alert_text),
        ).lines[row].len() == one_if(row == 1) + one_if(row == header_row(rows)) + one_if(
            row == price_row(rows),
        ) + one_if(row == alert_row(rows) && state.alert is Some) + one_if(row == input_row(rows))
            + one_if(row == input_row(rows) && state.input_mode is EnteringPrice) + one_if(
            row == hint_row(rows) && state.input_mode is EnteringPrice,
        ) + one_if(row == border_row(rows)),
{
    law_full_redraw_shows_state(terminal, state, cols, rows, price_text, alert_text);
}

/// A piece that was added to a row stands on it.
proof fn lemma_inked_last(lines: Map<u16, Seq<Ink>>, row: u16, ink: Ink)
    ensures
        inked(lines, row, ink)[row].contains(ink),
{
    let line = lines[row].push(ink);
    assert(line[line.len() - 1] == ink);
    assert(inked(lines, row, ink)[row] == line);
}

/// A piece that stands on a row stays when another is added somewhere.
proof fn lemma_inked_keeps(
    lines: Map<u16, Seq<Ink>>,
    row: u16,
    ink: Ink,
    other_row: u16,
    other: Ink,
)
    requires
        lines[other_row].contains(other),
    ensures
        inked(lines, row, ink)[other_row].contains(other),
{
    if row == other_row {
        let i = choose|i: int| 0 <= i < lines[row].len() && lines[row][i] == other;
        assert(lines[row].push(ink)[i] == other);
    }
}

/// A piece that stands on a row stays when the input and the border are added.
proof fn lemma_end_keeps(
    lines: Map<u16, Seq<Ink>>,
    state: AppStateView,
    cols: u16,
    rows: u16,
    row: u16,
    ink: Ink,
)
    requires
        lines[row].contains(ink),
    ensures
        inked(
            with_input(lines, state, cols, rows),
            border_row(rows),
            border_ink(cols),
        )[row].contains(ink),
{
    if state.input_mode is EnteringPrice {
        let a = inked(lines, input_row(rows), prompt_ink(state, cols));
        let b = inked(a, input_row(rows), block_ink(state, cols));
        lemma_inked_keeps(lines, input_row(rows), prompt_ink(state, cols), row, ink);
        lemma_inked_keeps(a, input_row(rows), block_ink(state, cols), row, ink);
        lemma_inked_keeps(b, hint_row(rows), hint_ink(cols), row, ink);
    } else {
        lemma_inked_keeps(lines, input_row(rows), help_ink(state, cols), row, ink);
    }
    lemma_inked_keeps(
        with_input(lines, state, cols, rows),
        border_row(rows),
        border_ink(cols),
        row,
        ink,
    );
}

/// A piece that stands on a row once the status and the header are there stays to the end.
proof fn lemma_shown_keeps(
    state: AppStateView,
    cols: u16,
    rows: u16,
    price_text: Seq<char>,
    alert_text: Seq<char>,
    row: u16,
    ink: Ink,
)
    requires
        inked(
            inked(blank(), STATUS_ROW, status_ink(state, cols)),
            header_row(rows),
            header_ink(cols),
        )[row].contains(ink),
    ensures
        shown(state, cols, rows, price_text, alert_text)[row].contains(ink),
{
    let l2 = inked(
        inked(blank(), STATUS_ROW, status_ink(state, cols)),
        header_row(rows),
        header_ink(cols),
    );
    let l3 = inked(l2, price_row(rows), price_ink(state, cols, price_text));
    lemma_inked_keeps(l2, price_row(rows), price_ink(state, cols, price_text), row, ink);
    if state.alert is Some {
        lemma_inked_keeps(l3, alert_row(rows), alert_ink(state, cols, alert_text), row, ink);
    }
    lemma_end_keeps(with_alert(l3, state, cols, rows, alert_text), state, cols, rows, row, ink);
}

/// What a partial redraw leaves on the rows that it draws, in a terminal of any size: the status,
/// the price or that there is none yet, and the alert if it went off, each alone on its row, but
/// that a later one of these takes a row over from an earlier one.
pub proof fn law_partial_redraw_shows_its_parts(
    terminal: Terminal,
    state: AppStateView,
    cols: u16,
    rows: u16,
    price_text: Seq<char>,
    alert_text: Seq<char>,
)
    requires
        terminal.plain(),
    ensures
        ({
            let lines = terminal.painted(
                partial_drawing(state, cols, rows, price_text, alert_text),
            ).lines;
            let gone_off = state.alert is Some && state.alert->0.last_triggered is Some;
            let status = state.status.spec_label();
            let text = "$ "@ + price_text;
            let waiting = "Waiting for data..."@;
            let message = alert_message(state.alert->0, alert_text);
            &&& price_row(rows) != 1 && !(gone_off && alert_row(rows) == 1) ==> {
                &&& lines[1].len() == 1
                &&& lines[1][0] == Ink {
                    col: status_col(cols, byte_len(status)),
                    lead: Seq::empty(),
                    tint: Some(status_tint(state.status)),
                    bold: false,
                    text: status,
                }
            }
            &&& !(gone_off && alert_row(rows) == price_row(rows)) ==> {
                &&& lines[price_row(rows)].len() == 1
                &&& state.price is Some ==> lines[price_row(rows)][0] == Ink {
                    col: centered(cols, byte_len(text)),
                    lead: Seq::empty(),
                    tint: Some(price_tint(state.price->0, state.prev_price)),
                    bold: true,
                    text,
                }
                &&& state.price is None ==> lines[price_row(rows)][0] == Ink {
                    col: centered(cols, byte_len(waiting)),
                    lead: Seq::empty(),
                    tint: Some(Tint::DarkGrey),
                    bold: false,
                    text: waiting,
                }
            }
            &&& gone_off ==> {
                &&& lines[alert_row(rows)].len() == 1
                &&& lines[alert_row(rows)][0] == Ink {
                    col: centered(cols, byte_len(message)),
                    lead: Seq::empty(),
                    tint: Some(flash_tint(state.alert_flash)),
                    bold: true,
                    text: message,
                }
            }
        }),
{
    lemma_partial_redraw(terminal, state, cols, rows, price_text, alert_text);
}

/// A redraw that keeps the screen draws after its opening what a full redraw draws after its own.
pub proof fn law_redraws_differ_in_their_opening(
    state: AppStateView,
    cols: u16,
    rows: u16,
    price_text: Seq<char>,
    alert_text: Seq<char>,
)
    ensures
        ({
            let keeping = full_drawing(state, false, cols, rows, price_text, alert_text);
            let wiping = full_drawing(state, true, cols, rows, price_text, alert_text);
            let n = opening(false, rows).len() as int;
            &&& keeping.len() >= n
            &&& keeping.take(n) == opening(false, rows)
            &&& keeping.skip(n) == wiping.skip(4)
        }),
{
    let keeping = full_drawing(state, false, cols, rows, price_text, alert_text);
    let wiping = full_drawing(state, true, cols, rows, price_text, alert_text);
    let n = opening(false, rows).len() as int;
    let rest = status_part(state, cols) + header_part(cols, rows) + price_part(
        state,
        cols,
        rows,
        price_text,
    ) + alert_part(state, cols, rows, alert_text) + input_part(state, cols, rows) + border_part(
        cols,
        rows,
    );
    assert(keeping =~= opening(false, rows) + rest);
    assert(wiping =~= opening(true, rows) + rest);
    assert(keeping.take(n) =~= opening(false, rows));
    assert(keeping.skip(n) =~= rest);
    assert(wiping.skip(4) =~= rest);
}

/// The opening of a redraw that keeps the screen clears exactly the rows that parts are meant for,
/// but for the top one and those past the end of the terminal, and hides the cursor.
pub proof fn law_opening_clears_the_rows_of_the_parts(terminal: Terminal, rows: u16, row: u16)
    requires
        terminal.whole(),
    ensures
        ({
            let end = terminal.painted(opening(false, rows));
            let meant = row == 1 || row == header_row(rows) || row == price_row(rows) || row
                == alert_row(rows) || row == input_row(rows) || row == hint_row(rows) || row
                == border_row(rows);
            &&& 0 < row <= rows && meant ==> end.lines[row].len() == 0
            &&& !(0 < row <= rows && meant) ==> end.lines[row] == terminal.lines[row]
            &&& end.tint == terminal.tint
            &&& end.bold == terminal.bold
            &&& end.cursor_hidden
        }),
{
    let targets = content_rows(rows);
    let first = seq![DrawView::HideCursor, DrawView::MoveTo(0, 0)];
    assert(first.drop_last().drop_last().len() == 0);
    let t1 = terminal.painted(first);
    assert(t1.lines == terminal.lines && t1.tint == terminal.tint && t1.bold == terminal.bold
        && t1.cursor_hidden) by {
        reveal_with_fuel(Terminal::painted, 3);
        assert(terminal.painted(first.drop_last()) == terminal.after(DrawView::HideCursor));
    }
    assert(t1.whole());
    lemma_painted_joined(terminal, first, clear_rows(targets, rows));
    lemma_clear_rows(t1, targets, rows);
    assert(targets[0] == STATUS_ROW && targets[1] == header_row(rows) && targets[2] == price_row(
        rows,
    ) && targets[3] == alert_row(rows) && targets[4] == input_row(rows) && targets[5] == hint_row(
        rows,
    ) && targets[6] == border_row(rows));
    if targets.contains(row) {
        let i = choose|i: int| 0 <= i < targets.len() && targets[i] == row;
    }
}

/// Whether a text on a row names one direction and not the other, and ends with a threshold.
pub open spec fn names_direction(
    line: Seq<Ink>,
    direction: AlertDirection,
    alert_text: Seq<char>,
) -> bool {
    exists|ink: Ink|
        {
            &&& #[trigger] line.contains(ink)
            &&& holds_word(ink.text, seq!['A', 'B', 'O', 'V', 'E']) <==> direction is Above
            &&& holds_word(ink.text, seq!['B', 'E', 'L', 'O', 'W']) <==> direction is Below
            &&& ink.text.len() >= alert_text.len()
            &&& ink.text.skip(ink.text.len() - alert_text.len()) == alert_text
        }
}

/// The row of the alert names the direction of the alert after a full redraw, whether the alert
/// went off or not, and after a partial one once it did.
pub proof fn law_alert_row_names_the_direction(
    terminal: Terminal,
    state: AppStateView,
    cols: u16,
    rows: u16,
    price_text: Seq<char>,
    alert_text: Seq<char>,
)
    requires
        terminal.plain(),
        state.alert is Some,
        !alert_text.contains('V'),
        !alert_text.contains('W'),
    ensures
        names_direction(
            terminal.painted(
                full_drawing(state, true, cols, rows, price_text, alert_text),
            ).lines[alert_row(rows)],
            state.alert->0.direction,
            alert_text,
        ),
        state.alert->0.last_triggered is Some ==> names_direction(
            terminal.painted(
                partial_drawing(state, cols, rows, price_text, alert_text),
            ).lines[alert_row(rows)],
            state.alert->0.direction,
            alert_text,
        ),
{
    let alert = state.alert->0;
    let message = alert_message(alert, alert_text);
    law_full_redraw_shows_price_and_alert(terminal, state, cols, rows, price_text, alert_text);
    law_partial_redraw_shows_its_parts(terminal, state, cols, rows, price_text, alert_text);
    law_alert_message_holds_its_word(alert, alert_text);
    law_alert_message_parts(alert, alert_text);
    let full = terminal.painted(
        full_drawing(state, true, cols, rows, price_text, alert_text),
    ).lines[alert_row(rows)];
    let partial = terminal.painted(
        partial_drawing(state, cols, rows, price_text, alert_text),
    ).lines[alert_row(rows)];
    let gone_off = alert.last_triggered is Some;
    let ink = Ink {
        col: centered(cols, byte_len(message)),
        lead: Seq::empty(),
        tint: Some(
            if gone_off {
                flash_tint(state.alert_flash)
            } else {
                Tint::DarkYellow
            },
        ),
        bold: gone_off,
        text: message,
    };
    assert(full.contains(ink));
    if gone_off {
        assert(partial[0] == ink);
        assert(partial.contains(ink));
    }
}

/// Two states that differ in the direction of their alert are drawn differently, whether the alert
/// went off or not.
pub proof fn law_directions_are_drawn_differently(
    state: AppStateView,
    full_redraw: bool,
    cols: u16,
    rows: u16,
    price_text: Seq<char>,
    alert_text: Seq<char>,
)
    requires
        state.alert is Some,
    ensures
        ({
            let turned = AppStateView {
                alert: Some(
                    Alert {
                        direction: if state.alert->0.direction is Above {
                            AlertDirection::Below
                        } else {
                            AlertDirection::Above
                        },
                        ..state.alert->0
                    },
                ),
                ..state
            };
            full_drawing(state, full_redraw, cols, rows, price_text, alert_text) != full_drawing(
                turned,
                full_redraw,
                cols,
                rows,
                price_text,
                alert_text,
            )
        }),
{
    let alert = state.alert->0;
    let other = Alert {
        direction: if alert.direction is Above {
            AlertDirection::Below
        } else {
            AlertDirection::Above
        },
        ..alert
    };
    let turned = AppStateView { alert: Some(other), ..state };
    law_alert_message_shows_the_direction(alert, other, alert_text);
    let before = opening(full_redraw, rows) + status_part(state, cols) + header_part(cols, rows)
        + price_part(state, cols, rows, price_text);
    let place = before.len() + if alert.last_triggered is Some {
        3int
    } else {
        2int
    };
    let drawing = full_drawing(state, full_redraw, cols, rows, price_text, alert_text);
    let other_drawing = full_drawing(turned, full_redraw, cols, rows, price_text, alert_text);
    assert(drawing[place] == DrawView::Print(alert_message(alert, alert_text)));
    assert(other_drawing[place] == DrawView::Print(alert_message(other, alert_text)));
}

} // verus!
