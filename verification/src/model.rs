//! The escrow as a mathematical state machine.
//!
//! `EscrowModel` is the state, and each operation is a function from a state
//! and the operation's arguments to either an `Outcome`, the next state with
//! the effects to carry out, or the `Error` with which the operation is
//! refused. The executable operations are specified against these functions,
//! and the laws of the escrow are proved about them.

use vstd::prelude::*;
use crate::amount::{fee, share, share_fits};
use crate::effects::{EffectsView, Event, Transfer};
use crate::errors::Error;
use crate::types::{Address, EscrowStatus, Milestone, MilestoneStatus, Party};
use crate::window::{deadline, seconds_left};

verus! {

/// The state of an initialized escrow.
pub struct EscrowModel {
    pub client: Address,
    pub developer: Address,
    pub backend: Address,
    pub token: Address,
    pub total_amount: i128,
    pub released_amount: i128,
    pub status: EscrowStatus,
    pub dispute_window: u64,
    pub milestones: Seq<Milestone>,
}

/// What a successful operation leads to.
pub struct Outcome {
    pub state: EscrowModel,
    pub effects: EffectsView,
}

/// A state-changing operation with its arguments.
#[derive(Debug, PartialEq, Eq)]
pub enum Operation {
    Initialize {
        client: Address,
        developer: Address,
        backend: Address,
        token: Address,
        total_amount: i128,
        milestones: Vec<Milestone>,
        dispute_window_secs: u64,
    },
    MarkComplete { milestone_index: u32, pr_url: String },
    Approve { milestone_index: u32 },
    AutoRelease { milestone_index: u32 },
    Dispute { milestone_index: u32, reason: String },
    ResolveDispute { milestone_index: u32, release_to_developer: bool },
    Cancel,
}

impl Operation {
    /// The party whose consent an operation needs, if it needs any: the
    /// client deposits, approves, disputes and cancels; the backend attests
    /// and arbitrates; anyone may release after the dispute window.
    pub open spec fn authorized_by(self) -> Option<Party> {
        match self {
            Operation::Initialize { .. } => Some(Party::Client),
            Operation::MarkComplete { .. } => Some(Party::Backend),
            Operation::Approve { .. } => Some(Party::Client),
            Operation::AutoRelease { .. } => None,
            Operation::Dispute { .. } => Some(Party::Client),
            Operation::ResolveDispute { .. } => Some(Party::Backend),
            Operation::Cancel => Some(Party::Client),
        }
    }

    /// The party whose consent the operation needs, if it needs any. The
    /// escrow itself cannot tell who calls: its caller has to obtain the
    /// consent before it carries out what the operation asks for.
    pub fn authorizer(&self) -> (who: Option<Party>)
        ensures
            who == self.authorized_by(),
    {
        match self {
            Operation::Initialize { .. } => Some(Party::Client),
            Operation::MarkComplete { .. } => Some(Party::Backend),
            Operation::Approve { .. } => Some(Party::Client),
            Operation::AutoRelease { .. } => None,
            Operation::Dispute { .. } => Some(Party::Client),
            Operation::ResolveDispute { .. } => Some(Party::Backend),
            Operation::Cancel => Some(Party::Client),
        }
    }
}

/// An operation together with the time at which it is made.
pub struct Call {
    pub operation: Operation,
    pub now: u64,
}

/// Every milestone has been released or refunded.
pub open spec fn all_resolved(milestones: Seq<Milestone>) -> bool {
    forall|i: int| 0 <= i < milestones.len() ==> (#[trigger] milestones[i]).status.resolved()
}

/// Some milestone waits for release or is under dispute.
pub open spec fn any_in_flight(milestones: Seq<Milestone>) -> bool {
    exists|i: int| 0 <= i < milestones.len() && (#[trigger] milestones[i]).status.in_flight()
}

/// Every milestone has a share.
pub open spec fn all_bps_positive(milestones: Seq<Milestone>) -> bool {
    forall|i: int| 0 <= i < milestones.len() ==> (#[trigger] milestones[i]).bps > 0
}

/// The sum of the milestones' basis points.
pub open spec fn total_bps(milestones: Seq<Milestone>) -> int
    decreases milestones.len(),
{
    if milestones.len() == 0 {
        0
    } else {
        total_bps(milestones.drop_last()) + milestones.last().bps
    }
}

/// The milestones are ones that an escrow can be created with: between one
/// and ten of them, each with a share, the shares adding up to the whole.
pub open spec fn valid_split(milestones: Seq<Milestone>) -> bool {
    &&& 1 <= milestones.len() <= 10
    &&& all_bps_positive(milestones)
    &&& total_bps(milestones) == 10_000
}

/// Why `initialize` refuses, if it does.
pub open spec fn initialize_error(
    state: Option<EscrowModel>,
    total_amount: i128,
    milestones: Seq<Milestone>,
) -> Option<Error> {
    if state is Some {
        Some(Error::AlreadyInitialized)
    } else if total_amount <= 0 {
        Some(Error::InvalidAmount)
    } else if milestones.len() == 0 {
        Some(Error::NoMilestones)
    } else if milestones.len() > 10 {
        Some(Error::TooManyMilestones)
    } else if !all_bps_positive(milestones) || total_bps(milestones) != 10_000 {
        Some(Error::InvalidMilestoneBps)
    } else {
        None
    }
}

/// The escrow that `initialize` creates, with the deposit it asks for.
pub open spec fn initialized(
    client: Address,
    developer: Address,
    backend: Address,
    token: Address,
    total_amount: i128,
    milestones: Seq<Milestone>,
    dispute_window: u64,
) -> Outcome {
    Outcome {
        state: EscrowModel {
            client,
            developer,
            backend,
            token,
            total_amount,
            released_amount: 0,
            status: EscrowStatus::Active,
            dispute_window,
            milestones,
        },
        effects: EffectsView {
            transfers: seq![Transfer { from: Party::Client, to: Party::Escrow, amount: total_amount }],
            events: seq![
                Event::Initialized { total_amount, milestone_count: milestones.len() as u32 },
            ],
        },
    }
}

/// `initialize`: creates the escrow and asks for the client's deposit.
pub open spec fn initialize(
    state: Option<EscrowModel>,
    client: Address,
    developer: Address,
    backend: Address,
    token: Address,
    total_amount: i128,
    milestones: Seq<Milestone>,
    dispute_window: u64,
) -> Result<Outcome, Error> {
    match initialize_error(state, total_amount, milestones) {
        Some(error) => Err(error),
        None => Ok(
            initialized(
                client,
                developer,
                backend,
                token,
                total_amount,
                milestones,
                dispute_window,
            ),
        ),
    }
}

impl EscrowModel {
    /// There is a milestone with this index.
    pub open spec fn has(self, index: u32) -> bool {
        index < self.milestones.len()
    }

    /// Why a state-changing operation is refused on account of the escrow's
    /// status, if it is.
    pub open spec fn activity_error(self) -> Option<Error> {
        match self.status {
            EscrowStatus::Active => None,
            EscrowStatus::Completed => Some(Error::EscrowCompleted),
            EscrowStatus::Cancelled => Some(Error::EscrowCancelled),
        }
    }

    /// The same escrow with milestone `index` replaced.
    pub open spec fn with_milestone(self, index: u32, milestone: Milestone) -> EscrowModel {
        EscrowModel { milestones: self.milestones.update(index as int, milestone), ..self }
    }

    /// The same escrow with milestone `index` in another status.
    pub open spec fn with_status(self, index: u32, status: MilestoneStatus) -> EscrowModel {
        self.with_milestone(index, self.milestones[index as int].with_status(status))
    }

    /// The share of the total amount that milestone `index` stands for.
    pub open spec fn share_of(self, index: u32) -> int {
        share(self.total_amount as int, self.milestones[index as int].bps as int)
    }

    /// Why the share of milestone `index` cannot be taken out of the escrow,
    /// if it cannot: the share or the new released amount does not fit.
    pub open spec fn payout_error(self, index: u32) -> Option<Error> {
        if !share_fits(self.total_amount as int, self.milestones[index as int].bps as int) {
            Some(Error::Overflow)
        } else if !(i128::MIN <= self.released_amount + self.share_of(index) <= i128::MAX) {
            Some(Error::Overflow)
        } else {
            None
        }
    }

    /// The escrow after the share of milestone `index` has left it and the
    /// milestone has reached `status`, before completion is looked at.
    pub open spec fn paid_out(self, index: u32, status: MilestoneStatus) -> EscrowModel {
        EscrowModel {
            released_amount: (self.released_amount + self.share_of(index)) as i128,
            ..self.with_status(index, status)
        }
    }

    /// Completion detection: an escrow whose milestones are all resolved
    /// becomes `Completed` and says so; any other is left as it is.
    pub open spec fn completion(self, effects: EffectsView) -> Outcome {
        if all_resolved(self.milestones) {
            Outcome {
                state: EscrowModel { status: EscrowStatus::Completed, ..self },
                effects: EffectsView { events: effects.events.push(Event::Completed), ..effects },
            }
        } else {
            Outcome { state: self, effects }
        }
    }

    /// `mark_complete`: the backend attests milestone `index` at `now`.
    pub open spec fn mark_complete(self, now: u64, index: u32, pr_url: String) -> Result<
        Outcome,
        Error,
    > {
        if self.activity_error() is Some {
            Err(self.activity_error()->Some_0)
        } else if !self.has(index) {
            Err(Error::MilestoneNotFound)
        } else if self.milestones[index as int].status != MilestoneStatus::Pending {
            Err(Error::MilestoneAlreadyCompleted)
        } else {
            Ok(
                Outcome {
                    state: self.with_milestone(
                        index,
                        self.milestones[index as int].attested(pr_url, now),
                    ),
                    effects: EffectsView {
                        transfers: Seq::empty(),
                        events: seq![
                            Event::MilestoneCompleted {
                                milestone_index: index,
                                pr_url,
                                completed_at: now,
                            },
                        ],
                    },
                },
            )
        }
    }

    /// The release procedure: pays the share of milestone `index`, less the
    /// platform fee, to the developer and the fee to the backend. It does not
    /// look at the escrow's status.
    pub open spec fn release(self, index: u32, automatic: bool) -> Result<Outcome, Error> {
        if !self.has(index) {
            Err(Error::MilestoneNotFound)
        } else if self.milestones[index as int].status != MilestoneStatus::PendingRelease {
            Err(Error::MilestoneNotPendingRelease)
        } else if self.payout_error(index) is Some {
            Err(self.payout_error(index)->Some_0)
        } else {
            let amount = self.share_of(index);
            Ok(
                self.paid_out(index, MilestoneStatus::Released).completion(
                    EffectsView {
                        transfers: seq![
                            Transfer {
                                from: Party::Escrow,
                                to: Party::Developer,
                                amount: (amount - fee(amount)) as i128,
                            },
                            Transfer {
                                from: Party::Escrow,
                                to: Party::Backend,
                                amount: fee(amount) as i128,
                            },
                        ],
                        events: seq![
                            Event::FundsReleased {
                                milestone_index: index,
                                recipient: Party::Developer,
                                amount: (amount - fee(amount)) as i128,
                                automatic,
                            },
                        ],
                    },
                ),
            )
        }
    }

    /// `approve`: the client releases milestone `index` at once.
    pub open spec fn approve(self, index: u32) -> Result<Outcome, Error> {
        if self.activity_error() is Some {
            Err(self.activity_error()->Some_0)
        } else {
            self.release(index, false)
        }
    }

    /// Why the dispute window of milestone `index` cannot be looked at, if it
    /// cannot: the milestone carries no completion time, or the deadline does
    /// not fit.
    pub open spec fn deadline_error(self, index: u32) -> Option<Error> {
        match self.milestones[index as int].completed_at {
            None => Some(Error::MilestoneNotCompleted),
            Some(completed_at) => if deadline(completed_at, self.dispute_window) > u64::MAX {
                Some(Error::Overflow)
            } else {
                None
            },
        }
    }

    /// The dispute window of milestone `index` is open at `now`.
    pub open spec fn window_open(self, index: u32, now: u64) -> bool {
        now < deadline(self.milestones[index as int].completed_at->Some_0, self.dispute_window)
    }

    /// `auto_release`: anyone releases milestone `index` once its dispute
    /// window has closed.
    pub open spec fn auto_release(self, now: u64, index: u32) -> Result<Outcome, Error> {
        if self.activity_error() is Some {
            Err(self.activity_error()->Some_0)
        } else if !self.has(index) {
            Err(Error::MilestoneNotFound)
        } else if self.milestones[index as int].status != MilestoneStatus::PendingRelease {
            Err(Error::MilestoneNotPendingRelease)
        } else if self.dispute_window == 0 {
            Err(Error::ManualApprovalRequired)
        } else if self.deadline_error(index) is Some {
            Err(self.deadline_error(index)->Some_0)
        } else if self.window_open(index, now) {
            Err(Error::DisputeWindowOpen)
        } else {
            self.release(index, true)
        }
    }

    /// `dispute`: the client freezes milestone `index` while its dispute
    /// window is open.
    pub open spec fn dispute(self, now: u64, index: u32, reason: String) -> Result<Outcome, Error> {
        if self.activity_error() is Some {
            Err(self.activity_error()->Some_0)
        } else if self.dispute_window == 0 {
            Err(Error::NoDisputeWindow)
        } else if !self.has(index) {
            Err(Error::MilestoneNotFound)
        } else if self.milestones[index as int].status != MilestoneStatus::PendingRelease {
            Err(Error::MilestoneNotPendingRelease)
        } else if self.deadline_error(index) is Some {
            Err(self.deadline_error(index)->Some_0)
        } else if !self.window_open(index, now) {
            Err(Error::DisputeWindowClosed)
        } else {
            Ok(
                Outcome {
                    state: self.with_status(index, MilestoneStatus::Disputed),
                    effects: EffectsView {
                        transfers: Seq::empty(),
                        events: seq![
                            Event::DisputeOpened { milestone_index: index, reason, opened_at: now },
                        ],
                    },
                },
            )
        }
    }

    /// The refund branch of `resolve_dispute`: the whole share of milestone
    /// `index` goes back to the client, with no fee taken.
    pub open spec fn refund(self, index: u32) -> Result<Outcome, Error> {
        if self.payout_error(index) is Some {
            Err(self.payout_error(index)->Some_0)
        } else {
            let amount = self.share_of(index);
            Ok(
                self.paid_out(index, MilestoneStatus::Refunded).completion(
                    EffectsView {
                        transfers: seq![
                            Transfer {
                                from: Party::Escrow,
                                to: Party::Client,
                                amount: amount as i128,
                            },
                        ],
                        events: seq![
                            Event::DisputeResolved {
                                milestone_index: index,
                                recipient: Party::Client,
                                amount: amount as i128,
                            },
                        ],
                    },
                ),
            )
        }
    }

    /// `resolve_dispute`: the backend rules on the disputed milestone `index`.
    /// For the developer, the milestone goes back to waiting for release and
    /// is released; for the client, its share is refunded.
    pub open spec fn resolve_dispute(self, index: u32, release_to_developer: bool) -> Result<
        Outcome,
        Error,
    > {
        if self.activity_error() is Some {
            Err(self.activity_error()->Some_0)
        } else if !self.has(index) {
            Err(Error::MilestoneNotFound)
        } else if self.milestones[index as int].status != MilestoneStatus::Disputed {
            Err(Error::MilestoneNotDisputed)
        } else if release_to_developer {
            self.with_status(index, MilestoneStatus::PendingRelease).release(index, false)
        } else {
            self.refund(index)
        }
    }

    /// What `cancel` gives back to the client: all that was not released.
    pub open spec fn unreleased(self) -> int {
        self.total_amount - self.released_amount
    }

    /// `cancel`: the client ends the escrow and takes back what was not
    /// released. A refund of nothing asks for no transfer.
    pub open spec fn cancel(self) -> Result<Outcome, Error> {
        if self.activity_error() is Some {
            Err(self.activity_error()->Some_0)
        } else if any_in_flight(self.milestones) {
            Err(Error::CannotCancelWithPendingMilestones)
        } else if !(i128::MIN <= self.unreleased() <= i128::MAX) {
            Err(Error::Overflow)
        } else {
            Ok(
                Outcome {
                    state: EscrowModel { status: EscrowStatus::Cancelled, ..self },
                    effects: EffectsView {
                        transfers: if self.unreleased() > 0 {
                            seq![
                                Transfer {
                                    from: Party::Escrow,
                                    to: Party::Client,
                                    amount: self.unreleased() as i128,
                                },
                            ]
                        } else {
                            Seq::empty()
                        },
                        events: seq![
                            Event::Cancelled {
                                recipient: Party::Client,
                                refunded: self.unreleased() as i128,
                            },
                        ],
                    },
                },
            )
        }
    }

    /// The seconds until milestone `index` can be released by anyone, as
    /// `time_until_auto_release` reports them at `now`.
    pub open spec fn time_until_auto_release(self, now: u64, index: u32) -> Result<u64, Error> {
        if !self.has(index) {
            Err(Error::MilestoneNotFound)
        } else if self.milestones[index as int].status != MilestoneStatus::PendingRelease
            || self.dispute_window == 0 {
            Ok(0)
        } else if self.deadline_error(index) is Some {
            Err(self.deadline_error(index)->Some_0)
        } else {
            Ok(
                seconds_left(
                    self.milestones[index as int].completed_at->Some_0,
                    self.dispute_window,
                    now,
                ) as u64,
            )
        }
    }

    /// The balance triple: total, released and what is left.
    pub open spec fn balance(self) -> Result<(i128, i128, i128), Error> {
        if !(i128::MIN <= self.unreleased() <= i128::MAX) {
            Err(Error::Overflow)
        } else {
            Ok((self.total_amount, self.released_amount, self.unreleased() as i128))
        }
    }

    /// One operation made at `now`. An escrow that exists cannot be
    /// initialized again.
    pub open spec fn step(self, operation: Operation, now: u64) -> Result<Outcome, Error> {
        match operation {
            Operation::Initialize { .. } => Err(Error::AlreadyInitialized),
            Operation::MarkComplete { milestone_index, pr_url } => self.mark_complete(
                now,
                milestone_index,
                pr_url,
            ),
            Operation::Approve { milestone_index } => self.approve(milestone_index),
            Operation::AutoRelease { milestone_index } => self.auto_release(now, milestone_index),
            Operation::Dispute { milestone_index, reason } => self.dispute(
                now,
                milestone_index,
                reason,
            ),
            Operation::ResolveDispute {
                milestone_index,
                release_to_developer,
            } => self.resolve_dispute(milestone_index, release_to_developer),
            Operation::Cancel => self.cancel(),
        }
    }

    /// The state after one call: a refused call changes nothing.
    pub open spec fn after(self, call: Call) -> EscrowModel {
        match self.step(call.operation, call.now) {
            Ok(outcome) => outcome.state,
            Err(_) => self,
        }
    }

    /// The state after a sequence of calls, made in order.
    pub open spec fn run(self, calls: Seq<Call>) -> EscrowModel
        decreases calls.len(),
    {
        if calls.len() == 0 {
            self
        } else {
            self.run(calls.drop_last()).after(calls.last())
        }
    }
}

/// One operation made at `now` on an escrow that may not have been
/// initialized: only `Initialize` can then succeed.
pub open spec fn transition(state: Option<EscrowModel>, operation: Operation, now: u64) -> Result<
    Outcome,
    Error,
> {
    match state {
        Some(escrow) => escrow.step(operation, now),
        None => match operation {
            Operation::Initialize {
                client,
                developer,
                backend,
                token,
                total_amount,
                milestones,
                dispute_window_secs,
            } => initialize(
                None,
                client,
                developer,
                backend,
                token,
                total_amount,
                milestones@,
                dispute_window_secs,
            ),
            _ => Err(Error::NotInitialized),
        },
    }
}

/// An operation on an escrow that may not have been initialized: it is then
/// refused with `NotInitialized`.
pub open spec fn on_initialized(
    state: Option<EscrowModel>,
    operation: spec_fn(EscrowModel) -> Result<Outcome, Error>,
) -> Result<Outcome, Error> {
    match state {
        None => Err(Error::NotInitialized),
        Some(escrow) => operation(escrow),
    }
}

} // verus!
