//! The four board columns, their fixed order, and the status each one shows.

use vstd::prelude::*;

verus! {

/// The status of a ticket. The order of the variants is the order of the
/// columns on the board, left to right.
#[derive(Debug, Clone, Copy, PartialEq, Eq, Structural)]
pub enum TicketStatus {
    Open,
    InProgress,
    Review,
    Done,
}

impl TicketStatus {
    /// Position of the status in the fixed order, counted from zero.
    pub open spec fn rank(self) -> int {
        match self {
            TicketStatus::Open => 0,
            TicketStatus::InProgress => 1,
            TicketStatus::Review => 2,
            TicketStatus::Done => 3,
        }
    }
}

/// The column that receives up and down navigation.
#[derive(Debug, Clone, Copy, PartialEq, Eq, Structural)]
pub enum FocusedColumn {
    Open,
    InProgress,
    Review,
    Done,
}

impl FocusedColumn {
    /// Position of the column on the board, counted from the left, from zero.
    pub open spec fn rank(self) -> int {
        match self {
            FocusedColumn::Open => 0,
            FocusedColumn::InProgress => 1,
            FocusedColumn::Review => 2,
            FocusedColumn::Done => 3,
        }
    }

    /// The column at a position. A position before the first column gives
    /// the first column, one past the last column gives the last.
    pub open spec fn at(rank: int) -> FocusedColumn {
        if rank <= 0 {
            FocusedColumn::Open
        } else if rank == 1 {
            FocusedColumn::InProgress
        } else if rank == 2 {
            FocusedColumn::Review
        } else {
            FocusedColumn::Done
        }
    }

    /// The column one step to the right, or the last column itself.
    pub open spec fn right(self) -> FocusedColumn {
        Self::at(self.rank() + 1)
    }

    /// The column one step to the left, or the first column itself.
    pub open spec fn left(self) -> FocusedColumn {
        Self::at(self.rank() - 1)
    }

    /// The status whose tickets the column shows.
    pub open spec fn shown(self) -> TicketStatus {
        match self {
            FocusedColumn::Open => TicketStatus::Open,
            FocusedColumn::InProgress => TicketStatus::InProgress,
            FocusedColumn::Review => TicketStatus::Review,
            FocusedColumn::Done => TicketStatus::Done,
        }
    }

    /// Moves one column to the right and stops at the last one.
    pub fn next(&self) -> (r: Self)
        ensures
            r == self.right(),
            r.rank() == if self.rank() < 3 { self.rank() + 1 } else { 3 },
    {
        match self {
            Self::Open => Self::InProgress,
            Self::InProgress => Self::Review,
            Self::Review => Self::Done,
            Self::Done => Self::Done,
        }
    }

    /// Moves one column to the left and stops at the first one.
    pub fn prev(&self) -> (r: Self)
        ensures
            r == self.left(),
            r.rank() == if self.rank() > 0 { self.rank() - 1 } else { 0 },
    {
        match self {
            Self::Open => Self::Open,
            Self::InProgress => Self::Open,
            Self::Review => Self::InProgress,
            Self::Done => Self::Review,
        }
    }

    /// The status whose tickets this column shows: the one at the same
    /// position in the order.
    pub fn status(&self) -> (r: TicketStatus)
        ensures
            r == self.shown(),
            r.rank() == self.rank(),
    {
        match self {
            Self::Open => TicketStatus::Open,
            Self::InProgress => TicketStatus::InProgress,
            Self::Review => TicketStatus::Review,
            Self::Done => TicketStatus::Done,
        }
    }
}

} // verus!
