//! What an operation asks its caller to carry out: transfers of the escrowed
//! asset and notifications.

use vstd::prelude::*;
use crate::types::Party;

verus! {

/// A movement of `amount` of the escrowed asset from one party to another.
#[derive(Clone, Copy, Debug, PartialEq, Eq, Structural)]
pub struct Transfer {
    pub from: Party,
    pub to: Party,
    pub amount: i128,
}

/// A notification about something that happened to the escrow.
#[derive(Debug, PartialEq, Eq)]
pub enum Event {
    /// The escrow was created and funded.
    Initialized { total_amount: i128, milestone_count: u32 },
    /// The backend attested a milestone.
    MilestoneCompleted { milestone_index: u32, pr_url: String, completed_at: u64 },
    /// A milestone's share was paid out; `amount` is what the recipient got
    /// after the fee.
    FundsReleased { milestone_index: u32, recipient: Party, amount: i128, automatic: bool },
    /// The client disputed a milestone.
    DisputeOpened { milestone_index: u32, reason: String, opened_at: u64 },
    /// A dispute ended with the milestone's share going back.
    DisputeResolved { milestone_index: u32, recipient: Party, amount: i128 },
    /// The client cancelled the escrow and took back `refunded`.
    Cancelled { recipient: Party, refunded: i128 },
    /// Every milestone has been resolved.
    Completed,
}

/// The transfers and notifications of one operation, each in the order in
/// which they are to be carried out.
#[derive(Debug, PartialEq, Eq)]
pub struct Effects {
    pub transfers: Vec<Transfer>,
    pub events: Vec<Event>,
}

/// The mathematical content of an `Effects` value.
pub struct EffectsView {
    pub transfers: Seq<Transfer>,
    pub events: Seq<Event>,
}

impl View for Effects {
    type V = EffectsView;

    open spec fn view(&self) -> EffectsView {
        EffectsView { transfers: self.transfers@, events: self.events@ }
    }
}

impl EffectsView {
    /// No transfer and no notification.
    pub open spec fn none() -> EffectsView {
        EffectsView { transfers: Seq::empty(), events: Seq::empty() }
    }

    /// The sum of the amounts that the transfers move to `party`.
    pub open spec fn received_by(self, party: Party) -> int {
        received(self.transfers, party)
    }
}

/// The sum of the amounts that `transfers` move to `party`.
pub open spec fn received(transfers: Seq<Transfer>, party: Party) -> int
    decreases transfers.len(),
{
    if transfers.len() == 0 {
        0
    } else {
        received(transfers.drop_last(), party) + if transfers.last().to == party {
            transfers.last().amount as int
        } else {
            0
        }
    }
}

impl Effects {
    /// Effects that hold nothing yet.
    pub fn new() -> (fx: Effects)
        ensures
            fx@ == EffectsView::none(),
    {
        Effects { transfers: Vec::new(), events: Vec::new() }
    }
}

} // verus!
