use hlavi_tui::app::{App, Record};
use hlavi_tui::column::{FocusedColumn, TicketStatus};
use hlavi_tui::text::decimal_text;
use hlavi_tui::ticket::{AcceptanceCriterion, Ticket};
use hlavi_tui::ui::{
    column_label, draw, draw_column, panel_title_text, progress_text, Color, Style,
};

fn ticket(id: &str, title: &str, status: TicketStatus, criteria: Vec<bool>) -> Ticket {
    let mut acceptance_criteria = Vec::new();
    for (i, completed) in criteria.into_iter().enumerate() {
        acceptance_criteria.push(AcceptanceCriterion {
            description: format!("criterion {}", i),
            completed,
        });
    }
    Ticket { id: id.to_string(), title: title.to_string(), status, acceptance_criteria }
}

fn board(tickets: Vec<Ticket>) -> App {
    let mut records: Vec<Record> = Vec::new();
    for t in tickets {
        records.push(Ok(t));
    }
    match App::new(Ok(records)) {
        Ok(app) => app,
        Err(e) => panic!("unexpected failure: {:?}", e),
    }
}

fn plain() -> Style {
    Style { fg: None, bg: None, bold: false }
}

fn colored(fg: Color) -> Style {
    Style { fg: Some(fg), bg: None, bold: false }
}

fn marked() -> Style {
    Style { fg: Some(Color::Black), bg: Some(Color::Yellow), bold: true }
}

#[test]
fn decimal_text_of_small_and_large_counts() {
    assert_eq!(decimal_text(0), "0");
    assert_eq!(decimal_text(7), "7");
    assert_eq!(decimal_text(9), "9");
    assert_eq!(decimal_text(10), "10");
    assert_eq!(decimal_text(42), "42");
    assert_eq!(decimal_text(100), "100");
    assert_eq!(decimal_text(12345), "12345");
    assert_eq!(decimal_text(9876543210), "9876543210");
    assert_eq!(decimal_text(usize::MAX), format!("{}", usize::MAX));
}

#[test]
fn column_labels() {
    assert_eq!(column_label(FocusedColumn::Open), "OPEN");
    assert_eq!(column_label(FocusedColumn::InProgress), "IN PROGRESS");
    assert_eq!(column_label(FocusedColumn::Review), "REVIEW");
    assert_eq!(column_label(FocusedColumn::Done), "DONE");
}

#[test]
fn panel_titles() {
    assert_eq!(panel_title_text(FocusedColumn::Open, 0), " OPEN (0) ");
    assert_eq!(panel_title_text(FocusedColumn::InProgress, 2), " IN PROGRESS (2) ");
    assert_eq!(panel_title_text(FocusedColumn::Review, 17), " REVIEW (17) ");
    assert_eq!(panel_title_text(FocusedColumn::Done, 120), " DONE (120) ");
}

#[test]
fn progress_lines() {
    assert_eq!(progress_text(0, 0), "  \u{2713} 0/0");
    assert_eq!(progress_text(1, 3), "  \u{2713} 1/3");
    assert_eq!(progress_text(12, 12), "  \u{2713} 12/12");
}

#[test]
fn ticket_counts_its_criteria() {
    let t = ticket("A", "a", TicketStatus::Open, vec![true, false, true, true, false]);
    assert_eq!(t.completed_criteria(), 3);
    assert_eq!(t.total_criteria(), 5);
    let none = ticket("B", "b", TicketStatus::Open, Vec::new());
    assert_eq!(none.completed_criteria(), 0);
    assert_eq!(none.total_criteria(), 0);
    let all_open = ticket("C", "c", TicketStatus::Open, vec![false, false]);
    assert_eq!(all_open.completed_criteria(), 0);
    assert_eq!(all_open.total_criteria(), 2);
}

#[test]
fn ticket_without_criteria_shows_zero_of_zero() {
    let app = board(vec![ticket("A", "first", TicketStatus::Open, Vec::new())]);
    let panel = draw_column(&app, FocusedColumn::Open);
    assert_eq!(panel.items.len(), 1);
    assert_eq!(panel.items[0].progress, "  \u{2713} 0/0");
}

#[test]
fn board_has_header_four_panels_and_help() {
    let app = board(Vec::new());
    let view = draw(&app);
    assert_eq!(view.header, "Hlavi TUI - Kanban Board");
    assert_eq!(view.header_style, Style { fg: Some(Color::Cyan), bg: None, bold: true });
    assert_eq!(view.header_height, 3);
    assert_eq!(
        view.help,
        "h/l: \u{2190} \u{2192}  j/k: \u{2191} \u{2193}  r: reload  q/ESC/Ctrl+C: quit"
    );
    assert_eq!(view.help_style, colored(Color::DarkGray));
    assert_eq!(view.help_height, 1);
    assert_eq!(view.columns.len(), 4);
    let order = [
        FocusedColumn::Open,
        FocusedColumn::InProgress,
        FocusedColumn::Review,
        FocusedColumn::Done,
    ];
    let mut width: u16 = 0;
    for (panel, column) in view.columns.iter().zip(order) {
        assert_eq!(panel.column, column);
        assert_eq!(panel.width_percent, 25);
        assert!(panel.items.is_empty());
        width += panel.width_percent;
    }
    assert_eq!(width, 100);
    assert_eq!(view.columns[0].title, " OPEN (0) ");
    assert_eq!(view.columns[1].title, " IN PROGRESS (0) ");
    assert_eq!(view.columns[2].title, " REVIEW (0) ");
    assert_eq!(view.columns[3].title, " DONE (0) ");
}

#[test]
fn only_the_focused_panel_stands_out() {
    let mut app = board(Vec::new());
    app.move_right();
    app.move_right();
    let view = draw(&app);
    for panel in &view.columns {
        let focused = panel.column == FocusedColumn::Review;
        assert_eq!(panel.focused, focused);
        if focused {
            assert_eq!(panel.border, colored(Color::Yellow));
        } else {
            assert_eq!(panel.border, colored(Color::White));
        }
    }
}

#[test]
fn panel_lists_its_tickets_in_load_order() {
    let app = board(vec![
        ticket("T-2", "second", TicketStatus::Done, vec![true]),
        ticket("T-1", "first", TicketStatus::Open, vec![true, false]),
        ticket("T-3", "third", TicketStatus::Done, vec![false, false, true]),
    ]);
    let view = draw(&app);
    let done = &view.columns[3];
    assert_eq!(done.title, " DONE (2) ");
    assert_eq!(done.items.len(), 2);
    assert_eq!(done.items[0].id, "T-2");
    assert_eq!(done.items[0].title, "second");
    assert_eq!(done.items[0].progress, "  \u{2713} 1/1");
    assert_eq!(done.items[1].id, "T-3");
    assert_eq!(done.items[1].title, "third");
    assert_eq!(done.items[1].progress, "  \u{2713} 1/3");
    let open = &view.columns[0];
    assert_eq!(open.title, " OPEN (1) ");
    assert_eq!(open.items.len(), 1);
    assert_eq!(open.items[0].id, "T-1");
    assert_eq!(open.items[0].progress, "  \u{2713} 1/2");
    assert_eq!(open.items[0].id_style, colored(Color::Cyan));
    assert_eq!(open.items[0].progress_style, colored(Color::Green));
    assert!(view.columns[1].items.is_empty());
    assert!(view.columns[2].items.is_empty());
}

#[test]
fn only_the_ticket_under_the_cursor_is_marked() {
    let mut app = board(vec![
        ticket("A", "a", TicketStatus::Open, Vec::new()),
        ticket("B", "b", TicketStatus::Open, Vec::new()),
        ticket("C", "c", TicketStatus::Open, Vec::new()),
        ticket("D", "d", TicketStatus::InProgress, Vec::new()),
        ticket("E", "e", TicketStatus::InProgress, Vec::new()),
    ]);
    app.move_down();
    let view = draw(&app);
    let open = &view.columns[0];
    assert_eq!(
        (open.items[0].selected, open.items[1].selected, open.items[2].selected),
        (false, true, false)
    );
    assert_eq!(open.items[0].style, plain());
    assert_eq!(open.items[1].style, marked());
    assert_eq!(open.items[2].style, plain());
    let in_progress = &view.columns[1];
    for item in &in_progress.items {
        assert!(!item.selected);
        assert_eq!(item.style, plain());
    }
}

#[test]
fn draw_column_agrees_with_draw() {
    let mut app = board(vec![
        ticket("A", "a", TicketStatus::Open, vec![true]),
        ticket("B", "b", TicketStatus::Review, vec![false]),
    ]);
    app.move_right();
    let view = draw(&app);
    assert_eq!(view.columns[0], draw_column(&app, FocusedColumn::Open));
    assert_eq!(view.columns[1], draw_column(&app, FocusedColumn::InProgress));
    assert_eq!(view.columns[2], draw_column(&app, FocusedColumn::Review));
    assert_eq!(view.columns[3], draw_column(&app, FocusedColumn::Done));
}

#[test]
fn drawing_twice_gives_the_same_board() {
    let mut app = board(vec![
        ticket("A", "a", TicketStatus::Open, vec![true]),
        ticket("B", "b", TicketStatus::Open, vec![false]),
    ]);
    app.move_down();
    let before = app.clone();
    let first = draw(&app);
    let second = draw(&app);
    assert_eq!(first, second);
    assert_eq!(app, before);
}

#[test]
fn reload_that_removes_the_selected_ticket_marks_nothing() {
    let mut app = board(vec![
        ticket("A", "a", TicketStatus::Open, Vec::new()),
        ticket("B", "b", TicketStatus::Open, Vec::new()),
    ]);
    app.move_down();
    assert_eq!(app.selected_index(), 1);
    let records: Vec<Record> = vec![Ok(ticket("A", "a", TicketStatus::Open, Vec::new()))];
    assert_eq!(app.reload(Ok(records)), Ok(()));
    assert_eq!(app.selected_index(), 1);
    let view = draw(&app);
    assert_eq!(view.columns.len(), 4);
    assert!(view.columns[0].focused);
    assert_eq!(view.columns[0].items.len(), 1);
    for panel in &view.columns {
        for item in &panel.items {
            assert!(!item.selected);
            assert_eq!(item.style, plain());
        }
    }
}

#[test]
fn reload_that_empties_the_focused_column_marks_nothing() {
    let mut app = board(vec![
        ticket("A", "a", TicketStatus::Open, Vec::new()),
        ticket("B", "b", TicketStatus::Open, Vec::new()),
    ]);
    app.move_down();
    let records: Vec<Record> = vec![Ok(ticket("C", "c", TicketStatus::Done, Vec::new()))];
    assert_eq!(app.reload(Ok(records)), Ok(()));
    let view = draw(&app);
    assert!(view.columns[0].items.is_empty());
    assert_eq!(view.columns[0].title, " OPEN (0) ");
    assert_eq!(view.columns[3].items.len(), 1);
    assert!(!view.columns[3].items[0].selected);
}
