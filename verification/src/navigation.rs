//! What holds of the board view state over whole sequences of commands.

use vstd::prelude::*;
use crate::app::BoardModel;
use crate::column::TicketStatus;
use crate::input::Command;
use crate::ticket::{TicketModel, has_status};

verus! {

/// The same command, a number of times in a row.
pub open spec fn repeat(command: Command, times: nat) -> Seq<Command> {
    Seq::new(times, |i: int| command)
}

proof fn lemma_repeat_unfolds(start: BoardModel, command: Command, times: nat)
    requires
        times > 0,
    ensures
        start.navigate(repeat(command, times)) == start.navigate(
            repeat(command, (times - 1) as nat),
        ).step(command),
{
    assert(repeat(command, times).drop_last() =~= repeat(command, (times - 1) as nat));
}

/// The focus never leaves the board and never wraps around it. Whatever
/// commands came before, a move to the right goes one column to the right
/// and stays on the last column; a move to the left goes one column to the
/// left and stays on the first; no other command moves the focus.
pub proof fn lemma_focus_never_wraps(start: BoardModel, commands: Seq<Command>, i: int)
    requires
        0 <= i < commands.len(),
    ensures
        ({
            let before = start.navigate(commands.take(i)).focused.rank();
            let after = start.navigate(commands.take(i + 1)).focused.rank();
            &&& 0 <= after <= 3
            &&& commands[i] == Command::MoveRight ==> after == if before < 3 {
                before + 1
            } else {
                3
            }
            &&& commands[i] == Command::MoveLeft ==> after == if before > 0 {
                before - 1
            } else {
                0
            }
            &&& commands[i] != Command::MoveRight && commands[i] != Command::MoveLeft ==> after
                == before
        }),
{
    assert(commands.take(i + 1).drop_last() =~= commands.take(i));
}

/// Moving right a number of times goes that many columns to the right, and
/// no further than the last column.
pub proof fn lemma_moving_right_stops_at_last_column(start: BoardModel, times: nat)
    ensures
        start.navigate(repeat(Command::MoveRight, times)).focused.rank() == if start.focused.rank()
            + times < 3 {
            start.focused.rank() + times
        } else {
            3
        },
    decreases times,
{
    if times > 0 {
        lemma_moving_right_stops_at_last_column(start, (times - 1) as nat);
        lemma_repeat_unfolds(start, Command::MoveRight, times);
    }
}

/// Moving left a number of times goes that many columns to the left, and no
/// further than the first column.
pub proof fn lemma_moving_left_stops_at_first_column(start: BoardModel, times: nat)
    ensures
        start.navigate(repeat(Command::MoveLeft, times)).focused.rank() == if start.focused.rank()
            - times > 0 {
            start.focused.rank() - times
        } else {
            0
        },
    decreases times,
{
    if times > 0 {
        lemma_moving_left_stops_at_first_column(start, (times - 1) as nat);
        lemma_repeat_unfolds(start, Command::MoveLeft, times);
    }
}

/// A move to the left or to the right puts the cursor at the top, also
/// where the focus had no column left to move to.
pub proof fn lemma_sideways_move_resets_cursor(state: BoardModel)
    ensures
        state.move_left().selected == 0,
        state.move_right().selected == 0,
        state.step(Command::MoveLeft).selected == 0,
        state.step(Command::MoveRight).selected == 0,
{
}

/// A freshly loaded board has its cursor in bounds.
pub proof fn lemma_initial_selection_in_bounds(snapshot: Seq<TicketModel>)
    ensures
        BoardModel::initial(snapshot).selection_in_bounds(),
{
}

/// No command puts the cursor out of bounds.
pub proof fn lemma_step_keeps_selection_in_bounds(state: BoardModel, command: Command)
    requires
        state.selection_in_bounds(),
    ensures
        state.step(command).selection_in_bounds(),
{
}

/// No sequence of commands puts the cursor out of bounds: it points at a
/// ticket of the focused column, or rests at zero while that column is
/// empty.
pub proof fn lemma_navigation_keeps_selection_in_bounds(start: BoardModel, commands: Seq<Command>)
    requires
        start.selection_in_bounds(),
    ensures
        start.navigate(commands).selection_in_bounds(),
    decreases commands.len(),
{
    if commands.len() > 0 {
        lemma_navigation_keeps_selection_in_bounds(start, commands.drop_last());
        lemma_step_keeps_selection_in_bounds(
            start.navigate(commands.drop_last()),
            commands.last(),
        );
    }
}

/// Replacing the snapshot keeps the cursor in bounds exactly if the cursor
/// is at the top or the focused column of the new snapshot reaches it.
pub proof fn lemma_reload_selection_in_bounds(state: BoardModel, snapshot: Seq<TicketModel>)
    ensures
        state.with_snapshot(snapshot).selection_in_bounds() <==> state.selected == 0
            || state.selected < state.with_snapshot(snapshot).focused_tickets().len(),
{
}

/// Clamping puts the cursor in bounds, whatever the snapshot has become, and
/// changes nothing where the cursor is in bounds already.
pub proof fn lemma_clamping_restores_bounds(state: BoardModel, snapshot: Seq<TicketModel>)
    ensures
        state.with_snapshot(snapshot).clamped().selection_in_bounds(),
        state.selection_in_bounds() ==> state.clamped() == state,
{
}

/// Moving down a number of times from the top of a column ends on the
/// ticket with that number, and no lower than the last ticket. In an empty
/// column the cursor stays at zero. Nothing else changes.
pub proof fn lemma_moving_down_stops_at_last_ticket(start: BoardModel, times: nat)
    requires
        start.selected == 0,
    ensures
        ({
            let count = start.focused_tickets().len();
            let end = start.navigate(repeat(Command::MoveDown, times));
            &&& end.snapshot == start.snapshot
            &&& end.focused == start.focused
            &&& end.selected == if count == 0 {
                0
            } else if times < count - 1 {
                times as int
            } else {
                count - 1
            }
        }),
    decreases times,
{
    if times > 0 {
        lemma_moving_down_stops_at_last_ticket(start, (times - 1) as nat);
        lemma_repeat_unfolds(start, Command::MoveDown, times);
    }
}

/// Moving up a number of times takes that number off the cursor and stops
/// at zero, so the cursor never goes below zero and ends at zero once the
/// number of moves reaches it. Nothing else changes.
pub proof fn lemma_moving_up_stops_at_top(start: BoardModel, times: nat)
    ensures
        ({
            let end = start.navigate(repeat(Command::MoveUp, times));
            &&& end.snapshot == start.snapshot
            &&& end.focused == start.focused
            &&& end.selected >= 0
            &&& end.selected == if times < start.selected {
                start.selected - times
            } else {
                0
            }
        }),
    decreases times,
{
    if times > 0 {
        lemma_moving_up_stops_at_top(start, (times - 1) as nat);
        lemma_repeat_unfolds(start, Command::MoveUp, times);
    }
}

/// The column of a status depends on the snapshot and the status alone:
/// states with the same snapshot have the same columns, in the same order,
/// whatever their focus and cursor.
pub proof fn lemma_column_depends_on_snapshot_alone(
    a: BoardModel,
    b: BoardModel,
    status: TicketStatus,
)
    requires
        a.snapshot == b.snapshot,
    ensures
        a.column(status) == b.column(status),
{
}

/// Every ticket of a column has the status of the column, and the column
/// holds no more tickets than the snapshot.
pub proof fn lemma_column_holds_its_status(state: BoardModel, status: TicketStatus)
    ensures
        state.column(status).len() <= state.snapshot.len(),
        forall|i: int|
            0 <= i < state.column(status).len() ==> (#[trigger] state.column(status)[i]).status
                == status,
{
    state.snapshot.lemma_filter_len(has_status(status));
    assert forall|i: int| 0 <= i < state.column(status).len() implies (#[trigger] state.column(
        status,
    )[i]).status == status by {
        state.snapshot.lemma_filter_pred(has_status(status), i);
    }
}

/// Taking the column of a status out of a column of that status changes
/// nothing.
pub proof fn lemma_column_of_column(state: BoardModel, status: TicketStatus)
    ensures
        state.with_snapshot(state.column(status)).column(status) == state.column(status),
{
    lemma_filter_of_filter(state.snapshot, status);
}

proof fn lemma_filter_of_filter(tickets: Seq<TicketModel>, status: TicketStatus)
    ensures
        tickets.filter(has_status(status)).filter(has_status(status)) == tickets.filter(
            has_status(status),
        ),
    decreases tickets.len(),
{
    reveal(Seq::filter);
    if tickets.len() > 0 {
        lemma_filter_of_filter(tickets.drop_last(), status);
        tickets.drop_last().filter(has_status(status)).lemma_filter_push(
            tickets.last(),
            has_status(status),
        );
    }
}

} // verus!
