//! Tickets and their acceptance criteria, as the board reads them.

use vstd::prelude::*;
use crate::column::TicketStatus;

verus! {

/// One condition a ticket has to meet, and whether it is met.
#[derive(Debug, Clone, PartialEq, Eq)]
pub struct AcceptanceCriterion {
    pub description: String,
    pub completed: bool,
}

/// What an acceptance criterion holds.
pub struct CriterionModel {
    pub description: Seq<char>,
    pub completed: bool,
}

impl View for AcceptanceCriterion {
    type V = CriterionModel;

    open spec fn view(&self) -> CriterionModel {
        CriterionModel { description: self.description@, completed: self.completed }
    }
}

/// A unit of work on the board.
#[derive(Debug, Clone, PartialEq, Eq)]
pub struct Ticket {
    pub id: String,
    pub title: String,
    pub status: TicketStatus,
    pub acceptance_criteria: Vec<AcceptanceCriterion>,
}

/// What a ticket holds.
pub struct TicketModel {
    pub id: Seq<char>,
    pub title: Seq<char>,
    pub status: TicketStatus,
    pub criteria: Seq<CriterionModel>,
}

/// The predicate that picks the criteria that are met.
pub open spec fn is_completed() -> spec_fn(CriterionModel) -> bool {
    |c: CriterionModel| c.completed
}

/// The predicate that picks the tickets of one status.
pub open spec fn has_status(status: TicketStatus) -> spec_fn(TicketModel) -> bool {
    |t: TicketModel| t.status == status
}

/// What each criterion of a list holds, in the order of the list.
pub open spec fn criteria_models(criteria: Seq<AcceptanceCriterion>) -> Seq<CriterionModel> {
    criteria.map_values(|c: AcceptanceCriterion| c@)
}

/// What each ticket of a list holds, in the order of the list.
pub open spec fn ticket_models(tickets: Seq<Ticket>) -> Seq<TicketModel> {
    tickets.map_values(|t: Ticket| t@)
}

impl TicketModel {
    /// Number of acceptance criteria.
    pub open spec fn total(self) -> nat {
        self.criteria.len()
    }

    /// Number of acceptance criteria that are met.
    pub open spec fn completed(self) -> nat {
        self.criteria.filter(is_completed()).len()
    }
}

impl View for Ticket {
    type V = TicketModel;

    open spec fn view(&self) -> TicketModel {
        TicketModel {
            id: self.id@,
            title: self.title@,
            status: self.status,
            criteria: criteria_models(self.acceptance_criteria@),
        }
    }
}

impl Ticket {
    /// Number of acceptance criteria of the ticket.
    pub fn total_criteria(&self) -> (n: usize)
        ensures
            n == self@.total(),
    {
        self.acceptance_criteria.len()
    }

    /// Number of acceptance criteria of the ticket that are met.
    pub fn completed_criteria(&self) -> (n: usize)
        ensures
            n == self@.completed(),
    {
        let ghost all = criteria_models(self.acceptance_criteria@);
        let mut n: usize = 0;
        let mut i: usize = 0;
        while i < self.acceptance_criteria.len()
            invariant
                i <= self.acceptance_criteria.len(),
                all == criteria_models(self.acceptance_criteria@),
                n == all.take(i as int).filter(is_completed()).len(),
                n <= i,
            decreases self.acceptance_criteria.len() - i,
        {
            proof {
                all.lemma_take_succ_push(i as int);
                all.take(i as int).lemma_filter_push(all[i as int], is_completed());
            }
            if self.acceptance_criteria[i].completed {
                n = n + 1;
            }
            i = i + 1;
        }
        assert(all.take(i as int) =~= all);
        n
    }
}

} // verus!
