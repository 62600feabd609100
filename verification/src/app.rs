//! The board view state: the loaded tickets, the focused column and the
//! selection inside it.

use vstd::prelude::*;
pub use crate::column::{FocusedColumn, TicketStatus};
use crate::ticket::{Ticket, TicketModel, has_status, ticket_models};

verus! {

/// Why the ticket store could not hand out what was asked of it.
#[derive(Debug, Clone, PartialEq, Eq)]
pub struct StorageFailure {
    pub message: String,
}

/// What the store answered for one ticket of the board index.
pub type Record = Result<Ticket, StorageFailure>;

/// What the store answered for the board index and, if that could be read,
/// for each ticket it lists, in the order of the index.
pub type Loaded = Result<Vec<Record>, StorageFailure>;

/// Keeps what a readable record holds and nothing of an unreadable one.
pub open spec fn kept() -> spec_fn(Record) -> Option<TicketModel> {
    |record: Record|
        match record {
            Ok(ticket) => Some(ticket@),
            Err(_) => None,
        }
}

/// The tickets of the records that could be read, in the order of the
/// records. An unreadable record leaves no trace.
pub open spec fn readable(records: Seq<Record>) -> Seq<TicketModel> {
    records.filter_map(kept())
}

fn readable_tickets(records: Vec<Record>) -> (tickets: Vec<Ticket>)
    ensures
        ticket_models(tickets@) == readable(records@),
{
    let mut tickets: Vec<Ticket> = Vec::new();
    let ghost all = records@;
    for record in iter: records
        invariant
            iter.seq() == all,
            ticket_models(tickets@) == readable(all.take(iter.index() as int)),
    {
        proof {
            all.lemma_filter_map_take_succ(kept(), iter.index() as int);
        }
        match record {
            Ok(ticket) => {
                proof {
                    tickets@.lemma_push_map_commute(|t: Ticket| t@, ticket);
                }
                tickets.push(ticket);
            },
            Err(_) => {},
        }
    }
    assert(all.take(all.len() as int) =~= all);
    tickets
}

/// What the board view state holds.
pub struct BoardModel {
    /// The loaded tickets, in load order.
    pub snapshot: Seq<TicketModel>,
    /// The column under focus.
    pub focused: FocusedColumn,
    /// The cursor into the tickets of the focused column.
    pub selected: nat,
}

impl BoardModel {
    /// The state right after loading: focus on the first column, cursor on
    /// its first ticket.
    pub open spec fn initial(snapshot: Seq<TicketModel>) -> BoardModel {
        BoardModel { snapshot, focused: FocusedColumn::Open, selected: 0 }
    }

    /// The tickets of one status, in load order.
    pub open spec fn column(self, status: TicketStatus) -> Seq<TicketModel> {
        self.snapshot.filter(has_status(status))
    }

    /// The tickets of the focused column, in load order.
    pub open spec fn focused_tickets(self) -> Seq<TicketModel> {
        self.column(self.focused.shown())
    }

    /// The cursor points at a ticket of the focused column, or rests at
    /// zero while that column is empty.
    pub open spec fn selection_in_bounds(self) -> bool {
        if self.focused_tickets().len() == 0 {
            self.selected == 0
        } else {
            self.selected < self.focused_tickets().len()
        }
    }

    /// Focus one column to the left, cursor back to the top.
    pub open spec fn move_left(self) -> BoardModel {
        BoardModel { snapshot: self.snapshot, focused: self.focused.left(), selected: 0 }
    }

    /// Focus one column to the right, cursor back to the top.
    pub open spec fn move_right(self) -> BoardModel {
        BoardModel { snapshot: self.snapshot, focused: self.focused.right(), selected: 0 }
    }

    /// Cursor one ticket down, stopping at the last ticket of the focused
    /// column. Nothing moves while that column is empty.
    pub open spec fn move_down(self) -> BoardModel {
        let count = self.focused_tickets().len();
        if count == 0 {
            self
        } else if self.selected + 1 < count {
            BoardModel {
                snapshot: self.snapshot,
                focused: self.focused,
                selected: self.selected + 1,
            }
        } else {
            BoardModel {
                snapshot: self.snapshot,
                focused: self.focused,
                selected: (count - 1) as nat,
            }
        }
    }

    /// Cursor one ticket up, stopping at the top.
    pub open spec fn move_up(self) -> BoardModel {
        if self.selected > 0 {
            BoardModel {
                snapshot: self.snapshot,
                focused: self.focused,
                selected: (self.selected - 1) as nat,
            }
        } else {
            self
        }
    }

    /// The cursor pulled back into bounds: onto the last ticket of the
    /// focused column where it pointed past it, to zero where that column
    /// is empty.
    pub open spec fn clamped(self) -> BoardModel {
        let count = self.focused_tickets().len();
        if count == 0 {
            BoardModel { snapshot: self.snapshot, focused: self.focused, selected: 0 }
        } else if self.selected < count {
            self
        } else {
            BoardModel {
                snapshot: self.snapshot,
                focused: self.focused,
                selected: (count - 1) as nat,
            }
        }
    }

    /// The same focus and cursor over another snapshot.
    pub open spec fn with_snapshot(self, snapshot: Seq<TicketModel>) -> BoardModel {
        BoardModel { snapshot, focused: self.focused, selected: self.selected }
    }
}

/// The board view state. The cursor and the focus change only through the
/// navigation methods.
#[derive(Debug, Clone, PartialEq, Eq)]
pub struct App {
    tickets: Vec<Ticket>,
    focused_column: FocusedColumn,
    selected_index: usize,
}

impl View for App {
    type V = BoardModel;

    closed spec fn view(&self) -> BoardModel {
        BoardModel {
            snapshot: ticket_models(self.tickets@),
            focused: self.focused_column,
            selected: self.selected_index as nat,
        }
    }
}

/// What each referenced ticket holds, in the order of the references.
pub open spec fn referenced_models(tickets: Seq<&Ticket>) -> Seq<TicketModel> {
    tickets.map_values(|t: &Ticket| t@)
}

impl App {
    /// Builds the state from what the store answered. An unreadable board
    /// index is handed back as the failure it is. An unreadable ticket is
    /// left out of the snapshot.
    pub fn new(loaded: Loaded) -> (r: Result<App, StorageFailure>)
        ensures
            match loaded {
                Ok(records) => r matches Ok(app) && app@ == BoardModel::initial(
                    readable(records@),
                ),
                Err(failure) => r == Err::<App, StorageFailure>(failure),
            },
    {
        match loaded {
            Ok(records) => {
                let tickets = readable_tickets(records);
                Ok(App { tickets, focused_column: FocusedColumn::Open, selected_index: 0 })
            },
            Err(failure) => Err(failure),
        }
    }

    /// Replaces the snapshot by what the store answered, and keeps focus and
    /// cursor as they are, so the cursor may afterwards point past the last
    /// ticket of the focused column: `clamp_selection` pulls it back. An
    /// unreadable board index changes nothing and is handed back as the
    /// failure it is.
    pub fn reload(&mut self, loaded: Loaded) -> (r: Result<(), StorageFailure>)
        ensures
            match loaded {
                Ok(records) => r is Ok && final(self)@ == old(self)@.with_snapshot(
                    readable(records@),
                ),
                Err(failure) => r == Err::<(), StorageFailure>(failure) && *final(self) == *old(
                    self,
                ),
            },
    {
        match loaded {
            Ok(records) => {
                self.tickets = readable_tickets(records);
                Ok(())
            },
            Err(failure) => Err(failure),
        }
    }

    /// Moves the focus one column to the left and puts the cursor at the top.
    pub fn move_left(&mut self)
        ensures
            final(self)@ == old(self)@.move_left(),
            final(self)@.selected == 0,
    {
        self.focused_column = self.focused_column.prev();
        self.selected_index = 0;
    }

    /// Moves the focus one column to the right and puts the cursor at the top.
    pub fn move_right(&mut self)
        ensures
            final(self)@ == old(self)@.move_right(),
            final(self)@.selected == 0,
    {
        self.focused_column = self.focused_column.next();
        self.selected_index = 0;
    }

    /// Moves the cursor one ticket down inside the focused column.
    pub fn move_down(&mut self)
        ensures
            final(self)@ == old(self)@.move_down(),
    {
        let tickets_in_column = self.tickets_in_focused_column().len();
        if tickets_in_column > 0 {
            if self.selected_index < tickets_in_column - 1 {
                self.selected_index = self.selected_index + 1;
            } else {
                self.selected_index = tickets_in_column - 1;
            }
        }
    }

    /// Moves the cursor one ticket up.
    pub fn move_up(&mut self)
        ensures
            final(self)@ == old(self)@.move_up(),
    {
        if self.selected_index > 0 {
            self.selected_index -= 1;
        }
    }

    /// Pulls the cursor back into bounds after the snapshot has changed.
    pub fn clamp_selection(&mut self)
        ensures
            final(self)@ == old(self)@.clamped(),
            final(self)@.selection_in_bounds(),
    {
        let tickets_in_column = self.tickets_in_focused_column().len();
        if tickets_in_column == 0 {
            self.selected_index = 0;
        } else if self.selected_index >= tickets_in_column {
            self.selected_index = tickets_in_column - 1;
        }
    }

    /// The column under focus.
    pub fn focused_column(&self) -> (column: FocusedColumn)
        ensures
            column == self@.focused,
    {
        self.focused_column
    }

    /// The cursor into the tickets of the focused column.
    pub fn selected_index(&self) -> (index: usize)
        ensures
            index == self@.selected,
    {
        self.selected_index
    }

    /// The tickets of one status, in load order.
    pub fn tickets_in_column(&self, status: TicketStatus) -> (tickets: Vec<&Ticket>)
        ensures
            referenced_models(tickets@) == self@.column(status),
    {
        let ghost all = ticket_models(self.tickets@);
        let mut tickets: Vec<&Ticket> = Vec::new();
        let mut i: usize = 0;
        while i < self.tickets.len()
            invariant
                i <= self.tickets.len(),
                all == ticket_models(self.tickets@),
                referenced_models(tickets@) == all.take(i as int).filter(has_status(status)),
            decreases self.tickets.len() - i,
        {
            let ticket = &self.tickets[i];
            proof {
                all.lemma_take_succ_push(i as int);
                all.take(i as int).lemma_filter_push(all[i as int], has_status(status));
            }
            if ticket.status == status {
                proof {
                    tickets@.lemma_push_map_commute(|t: &Ticket| t@, ticket);
                }
                tickets.push(ticket);
            }
            i = i + 1;
        }
        assert(all.take(i as int) =~= all);
        tickets
    }

    fn tickets_in_focused_column(&self) -> (tickets: Vec<&Ticket>)
        ensures
            referenced_models(tickets@) == self@.focused_tickets(),
    {
        self.tickets_in_column(self.focused_column.status())
    }
}

} // verus!
