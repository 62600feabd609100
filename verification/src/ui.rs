//! What the board looks like: a header, four column panels and a line of
//! help, described as plain values for a terminal to draw.

use vstd::prelude::*;
use vstd::string::*;
use crate::app::{App, BoardModel, referenced_models};
use crate::column::FocusedColumn;
use crate::text::{decimal, decimal_text};
use crate::ticket::{Ticket, TicketModel};

verus! {

/// The colours the board uses.
#[derive(Debug, Clone, Copy, PartialEq, Eq, Structural)]
pub enum Color {
    Black,
    Cyan,
    Green,
    Yellow,
    White,
    DarkGray,
}

/// How a piece of the board is drawn. `None` leaves a colour as the
/// terminal has it.
#[derive(Debug, Clone, Copy, PartialEq, Eq)]
pub struct Style {
    pub fg: Option<Color>,
    pub bg: Option<Color>,
    pub bold: bool,
}

impl Style {
    /// Nothing set.
    pub open spec fn plain() -> Style {
        Style { fg: None, bg: None, bold: false }
    }

    /// A foreground colour and nothing else.
    pub open spec fn colored(fg: Color) -> Style {
        Style { fg: Some(fg), bg: None, bold: false }
    }

    /// The style of a ticket: the selected one stands out.
    pub open spec fn of_item(selected: bool) -> Style {
        if selected {
            Style { fg: Some(Color::Black), bg: Some(Color::Yellow), bold: true }
        } else {
            Style::plain()
        }
    }

    /// The style of a panel's border: the focused one stands out.
    pub open spec fn of_border(focused: bool) -> Style {
        if focused {
            Style::colored(Color::Yellow)
        } else {
            Style::colored(Color::White)
        }
    }

    /// The style of the header.
    pub open spec fn of_header() -> Style {
        Style { fg: Some(Color::Cyan), bg: None, bold: true }
    }
}

/// The text of the header.
pub open spec fn header_text() -> Seq<char> {
    "Hlavi TUI - Kanban Board"@
}

/// The text of the help line.
pub open spec fn help_text() -> Seq<char> {
    "h/l: \u{2190} \u{2192}  j/k: \u{2191} \u{2193}  r: reload  q/ESC/Ctrl+C: quit"@
}

/// The share of the width that each of the four panels takes, in percent.
pub open spec fn panel_width_percent() -> nat {
    25
}

/// The name that a column's panel shows.
pub open spec fn label(column: FocusedColumn) -> Seq<char> {
    match column {
        FocusedColumn::Open => "OPEN"@,
        FocusedColumn::InProgress => "IN PROGRESS"@,
        FocusedColumn::Review => "REVIEW"@,
        FocusedColumn::Done => "DONE"@,
    }
}

/// The title of a panel: the column's name and, in brackets, the number of
/// tickets in it, with a blank on either side.
pub open spec fn panel_title(column: FocusedColumn, count: nat) -> Seq<char> {
    " "@ + label(column) + " ("@ + decimal(count) + ") "@
}

/// The progress line of a ticket: a check mark, then the number of
/// criteria that are met, a slash and the number of criteria.
pub open spec fn progress(completed: nat, total: nat) -> Seq<char> {
    "  \u{2713} "@ + decimal(completed) + "/"@ + decimal(total)
}

/// What the panel shows of one ticket.
pub struct ItemModel {
    pub id: Seq<char>,
    pub id_style: Style,
    pub title: Seq<char>,
    pub progress: Seq<char>,
    pub progress_style: Style,
    pub selected: bool,
    pub style: Style,
}

/// What a column's panel shows.
pub struct ColumnModel {
    pub column: FocusedColumn,
    pub title: Seq<char>,
    pub focused: bool,
    pub border: Style,
    pub width_percent: nat,
    pub items: Seq<ItemModel>,
}

/// What the whole board shows.
pub struct BoardViewModel {
    pub header: Seq<char>,
    pub header_style: Style,
    pub header_height: nat,
    pub columns: Seq<ColumnModel>,
    pub help: Seq<char>,
    pub help_style: Style,
    pub help_height: nat,
}

/// One ticket as its panel shows it.
pub open spec fn render_item(ticket: TicketModel, selected: bool) -> ItemModel {
    ItemModel {
        id: ticket.id,
        id_style: Style::colored(Color::Cyan),
        title: ticket.title,
        progress: progress(ticket.completed(), ticket.total()),
        progress_style: Style::colored(Color::Green),
        selected,
        style: Style::of_item(selected),
    }
}

/// The panel of one column. It lists the tickets of the column's status in
/// load order. The ticket under the cursor is marked in the focused column,
/// and no ticket is marked anywhere else, nor where the cursor points past
/// the last ticket.
pub open spec fn render_column(state: BoardModel, column: FocusedColumn) -> ColumnModel {
    let tickets = state.column(column.shown());
    let focused = state.focused == column;
    ColumnModel {
        column,
        title: panel_title(column, tickets.len()),
        focused,
        border: Style::of_border(focused),
        width_percent: panel_width_percent(),
        items: Seq::new(
            tickets.len(),
            |i: int| render_item(tickets[i], focused && i == state.selected),
        ),
    }
}

/// The whole board: the header, the four panels from left to right, and the
/// help line.
pub open spec fn render(state: BoardModel) -> BoardViewModel {
    BoardViewModel {
        header: header_text(),
        header_style: Style::of_header(),
        header_height: 3,
        columns: seq![
            render_column(state, FocusedColumn::Open),
            render_column(state, FocusedColumn::InProgress),
            render_column(state, FocusedColumn::Review),
            render_column(state, FocusedColumn::Done),
        ],
        help: help_text(),
        help_style: Style::colored(Color::DarkGray),
        help_height: 1,
    }
}

/// What the panel shows of one ticket.
#[derive(Debug, Clone, PartialEq, Eq)]
pub struct ItemView {
    pub id: String,
    pub id_style: Style,
    pub title: String,
    pub progress: String,
    pub progress_style: Style,
    pub selected: bool,
    pub style: Style,
}

impl View for ItemView {
    type V = ItemModel;

    open spec fn view(&self) -> ItemModel {
        ItemModel {
            id: self.id@,
            id_style: self.id_style,
            title: self.title@,
            progress: self.progress@,
            progress_style: self.progress_style,
            selected: self.selected,
            style: self.style,
        }
    }
}

/// What each item of a list shows, in the order of the list.
pub open spec fn item_models(items: Seq<ItemView>) -> Seq<ItemModel> {
    items.map_values(|item: ItemView| item@)
}

/// What a column's panel shows.
#[derive(Debug, Clone, PartialEq, Eq)]
pub struct ColumnView {
    pub column: FocusedColumn,
    pub title: String,
    pub focused: bool,
    pub border: Style,
    pub width_percent: u16,
    pub items: Vec<ItemView>,
}

impl View for ColumnView {
    type V = ColumnModel;

    open spec fn view(&self) -> ColumnModel {
        ColumnModel {
            column: self.column,
            title: self.title@,
            focused: self.focused,
            border: self.border,
            width_percent: self.width_percent as nat,
            items: item_models(self.items@),
        }
    }
}

/// What each panel of a list shows, in the order of the list.
pub open spec fn column_models(columns: Seq<ColumnView>) -> Seq<ColumnModel> {
    columns.map_values(|column: ColumnView| column@)
}

/// What the whole board shows.
#[derive(Debug, Clone, PartialEq, Eq)]
pub struct BoardView {
    pub header: String,
    pub header_style: Style,
    pub header_height: u16,
    pub columns: Vec<ColumnView>,
    pub help: String,
    pub help_style: Style,
    pub help_height: u16,
}

impl View for BoardView {
    type V = BoardViewModel;

    open spec fn view(&self) -> BoardViewModel {
        BoardViewModel {
            header: self.header@,
            header_style: self.header_style,
            header_height: self.header_height as nat,
            columns: column_models(self.columns@),
            help: self.help@,
            help_style: self.help_style,
            help_height: self.help_height as nat,
        }
    }
}

/// The name that a column's panel shows.
pub fn column_label(column: FocusedColumn) -> (name: &'static str)
    ensures
        name@ == label(column),
{
    match column {
        FocusedColumn::Open => "OPEN",
        FocusedColumn::InProgress => "IN PROGRESS",
        FocusedColumn::Review => "REVIEW",
        FocusedColumn::Done => "DONE",
    }
}

/// Writes the title of a panel.
pub fn panel_title_text(column: FocusedColumn, count: usize) -> (title: String)
    ensures
        title@ == panel_title(column, count as nat),
{
    let mut title = String::from_str(" ");
    title.append(column_label(column));
    title.append(" (");
    let number = decimal_text(count);
    title.append(number.as_str());
    title.append(") ");
    title
}

/// Writes the progress line of a ticket.
pub fn progress_text(completed: usize, total: usize) -> (line: String)
    ensures
        line@ == progress(completed as nat, total as nat),
{
    let mut line = String::from_str("  \u{2713} ");
    let met = decimal_text(completed);
    line.append(met.as_str());
    line.append("/");
    let all = decimal_text(total);
    line.append(all.as_str());
    line
}

/// A ticket without acceptance criteria shows `0/0` behind the check mark.
pub proof fn lemma_progress_without_criteria(ticket: TicketModel)
    requires
        ticket.criteria.len() == 0,
    ensures
        render_item(ticket, false).progress == seq![' ', ' ', '\u{2713}', ' ', '0', '/', '0'],
        render_item(ticket, true).progress == seq![' ', ' ', '\u{2713}', ' ', '0', '/', '0'],
{
    reveal_strlit("  \u{2713} ");
    reveal_strlit("/");
    reveal(Seq::filter);
    assert(progress(0, 0) =~= seq![' ', ' ', '\u{2713}', ' ', '0', '/', '0']);
}

/// The board has four panels, one for each column in the order of the
/// columns. Each takes a quarter of the width, and exactly the panel of the
/// focused column is marked as focused.
pub proof fn lemma_four_equal_panels(state: BoardModel)
    ensures
        render(state).columns.len() == 4,
        forall|i: int|
            0 <= i < 4 ==> {
                let panel = #[trigger] render(state).columns[i];
                &&& panel.column.rank() == i
                &&& 4 * panel.width_percent == 100
                &&& panel.focused == (state.focused.rank() == i)
                &&& panel.items.len() == state.column(panel.column.shown()).len()
            },
{
}

/// A panel marks a ticket exactly if the panel is the focused one and the
/// cursor points at the ticket.
pub proof fn lemma_marked_item(state: BoardModel, column: FocusedColumn, i: int)
    requires
        0 <= i < render_column(state, column).items.len(),
    ensures
        render_column(state, column).items[i].selected <==> state.focused == column && i
            == state.selected,
{
}

/// A cursor that points past the last ticket of the focused column marks
/// no ticket in any panel.
pub proof fn lemma_cursor_past_the_end_marks_nothing(state: BoardModel, column: FocusedColumn)
    requires
        state.selected >= state.focused_tickets().len(),
    ensures
        forall|i: int|
            0 <= i < render_column(state, column).items.len() ==> !(#[trigger] render_column(
                state,
                column,
            ).items[i]).selected,
{
}

fn draw_item(ticket: &Ticket, selected: bool) -> (item: ItemView)
    ensures
        item@ == render_item(ticket@, selected),
{
    let completed = ticket.completed_criteria();
    let total = ticket.total_criteria();
    ItemView {
        id: ticket.id.clone(),
        id_style: Style { fg: Some(Color::Cyan), bg: None, bold: false },
        title: ticket.title.clone(),
        progress: progress_text(completed, total),
        progress_style: Style { fg: Some(Color::Green), bg: None, bold: false },
        selected,
        style: if selected {
            Style { fg: Some(Color::Black), bg: Some(Color::Yellow), bold: true }
        } else {
            Style { fg: None, bg: None, bold: false }
        },
    }
}

/// Describes the panel of one column.
pub fn draw_column(app: &App, column: FocusedColumn) -> (view: ColumnView)
    ensures
        view@ == render_column(app@, column),
{
    let is_focused = app.focused_column() == column;
    let tickets = app.tickets_in_column(column.status());
    let ghost shown = app@.column(column.shown());
    let mut items: Vec<ItemView> = Vec::new();
    let mut i: usize = 0;
    while i < tickets.len()
        invariant
            i <= tickets.len(),
            is_focused == (app@.focused == column),
            referenced_models(tickets@) == shown,
            items.len() == i,
            forall|j: int|
                0 <= j < i ==> (#[trigger] items@[j])@ == render_item(
                    shown[j],
                    is_focused && j == app@.selected,
                ),
        decreases tickets.len() - i,
    {
        let is_selected = is_focused && i == app.selected_index();
        let ticket: &Ticket = tickets[i];
        assert(ticket@ == referenced_models(tickets@)[i as int]);
        items.push(draw_item(ticket, is_selected));
        i = i + 1;
    }
    let view = ColumnView {
        column,
        title: panel_title_text(column, tickets.len()),
        focused: is_focused,
        border: if is_focused {
            Style { fg: Some(Color::Yellow), bg: None, bold: false }
        } else {
            Style { fg: Some(Color::White), bg: None, bold: false }
        },
        width_percent: 25,
        items,
    };
    assert(view@.items =~= render_column(app@, column).items);
    view
}

/// Describes the whole board.
pub fn draw(app: &App) -> (view: BoardView)
    ensures
        view@ == render(app@),
{
    let mut columns: Vec<ColumnView> = Vec::new();
    columns.push(draw_column(app, FocusedColumn::Open));
    columns.push(draw_column(app, FocusedColumn::InProgress));
    columns.push(draw_column(app, FocusedColumn::Review));
    columns.push(draw_column(app, FocusedColumn::Done));
    let view = BoardView {
        header: String::from_str("Hlavi TUI - Kanban Board"),
        header_style: Style { fg: Some(Color::Cyan), bg: None, bold: true },
        header_height: 3,
        columns,
        help: String::from_str(
            "h/l: \u{2190} \u{2192}  j/k: \u{2191} \u{2193}  r: reload  q/ESC/Ctrl+C: quit",
        ),
        help_style: Style { fg: Some(Color::DarkGray), bg: None, bold: false },
        help_height: 1,
    };
    assert(view@.columns =~= render(app@).columns);
    view
}

} // verus!
