//! The executable escrow: the state and the operations on it.

use vstd::prelude::*;
use crate::amount::{checked_share, share, share_fits, split_fee};
use crate::effects::{Effects, Event, Transfer};
use crate::errors::Error;
use crate::model::{
    all_bps_positive, any_in_flight, initialize, on_initialized, total_bps, transition,
    EscrowModel, Operation, Outcome,
};
use crate::types::{Address, EscrowStatus, Milestone, MilestoneStatus, Party};
use crate::window::{window_state, Window};

verus! {

/// The most milestones that an escrow can have.
pub const MAX_MILESTONES: usize = 10;

/// The state of an initialized escrow.
#[derive(Clone, Debug, PartialEq, Eq)]
pub struct Escrow {
    /// Deposits the funds and approves releases.
    pub client: Address,
    /// Receives the released shares.
    pub developer: Address,
    /// Attests completion, arbitrates disputes and receives the fee.
    pub backend: Address,
    /// The asset in which the escrow is held.
    pub token: Address,
    /// What the client deposited.
    pub total_amount: i128,
    /// What has left the escrow through releases and refunds of milestones.
    pub released_amount: i128,
    /// Where the escrow stands as a whole.
    pub status: EscrowStatus,
    /// The seconds that the client has to dispute a completed milestone;
    /// zero where every release needs the client's approval.
    pub dispute_window: u64,
    /// The milestones, in the order in which they were given.
    pub milestones: Vec<Milestone>,
}

impl View for Escrow {
    type V = EscrowModel;

    open spec fn view(&self) -> EscrowModel {
        EscrowModel {
            client: self.client,
            developer: self.developer,
            backend: self.backend,
            token: self.token,
            total_amount: self.total_amount,
            released_amount: self.released_amount,
            status: self.status,
            dispute_window: self.dispute_window,
            milestones: self.milestones@,
        }
    }
}

/// An escrow from its deployment on: nothing until `initialize` succeeds, the
/// escrow's state from then on.
#[derive(Clone, Debug, PartialEq, Eq)]
pub struct StreamEscrow {
    pub escrow: Option<Escrow>,
}

impl View for StreamEscrow {
    type V = Option<EscrowModel>;

    open spec fn view(&self) -> Option<EscrowModel> {
        match self.escrow {
            None => None,
            Some(escrow) => Some(escrow@),
        }
    }
}

/// An operation did what the model says: it succeeded with the outcome's
/// effects and left the outcome's state, or it was refused with the model's
/// error and left the state as it was.
pub open spec fn conforms(
    before: Option<EscrowModel>,
    after: Option<EscrowModel>,
    result: Result<Effects, Error>,
    expected: Result<Outcome, Error>,
) -> bool {
    match expected {
        Ok(outcome) => {
            &&& result is Ok
            &&& result->Ok_0@ == outcome.effects
            &&& after == Some(outcome.state)
        },
        Err(error) => {
            &&& result is Err
            &&& result->Err_0 == error
            &&& after == before
        },
    }
}

impl Escrow {
    /// Refuses unless the escrow is active.
    fn assert_active(&self) -> (r: Result<(), Error>)
        ensures
            r == match self@.activity_error() {
                None => Ok::<(), Error>(()),
                Some(error) => Err(error),
            },
    {
        match self.status {
            EscrowStatus::Active => Ok(()),
            EscrowStatus::Completed => Err(Error::EscrowCompleted),
            EscrowStatus::Cancelled => Err(Error::EscrowCancelled),
        }
    }

    /// Completion detection: where every milestone is released or refunded,
    /// the escrow becomes `Completed` and a notification is added to
    /// `effects`. Otherwise nothing changes.
    fn check_completion(&mut self, effects: &mut Effects)
        ensures
            final(self)@ == old(self)@.completion(old(effects)@).state,
            final(effects)@ == old(self)@.completion(old(effects)@).effects,
    {
        let mut i: usize = 0;
        while i < self.milestones.len()
            invariant
                i <= self.milestones.len(),
                *self == *old(self),
                forall|j: int| 0 <= j < i ==> (#[trigger] self.milestones@[j]).status.resolved(),
            decreases self.milestones.len() - i,
        {
            if !self.milestones[i].status.is_resolved() {
                return ;
            }
            i += 1;
        }
        self.status = EscrowStatus::Completed;
        effects.events.push(Event::Completed);
    }

    /// Whether some milestone waits for release or is under dispute.
    fn has_in_flight(&self) -> (found: bool)
        ensures
            found == any_in_flight(self.milestones@),
    {
        let mut i: usize = 0;
        while i < self.milestones.len()
            invariant
                i <= self.milestones.len(),
                forall|j: int| 0 <= j < i ==> !(#[trigger] self.milestones@[j]).status.in_flight(),
            decreases self.milestones.len() - i,
        {
            if self.milestones[i].status.is_in_flight() {
                return true;
            }
            i += 1;
        }
        false
    }

    /// The share of milestone `index` and the released amount once that
    /// share has left the escrow, or `Overflow` where one of them does not fit.
    fn payout(&self, index: usize) -> (r: Result<(i128, i128), Error>)
        requires
            index < self.milestones.len(),
            index <= u32::MAX,
        ensures
            match self@.payout_error(index as u32) {
                Some(error) => r == Err::<(i128, i128), Error>(error),
                None => {
                    &&& r is Ok
                    &&& r->Ok_0.0 == self@.share_of(index as u32)
                    &&& r->Ok_0.1 == self.released_amount + self@.share_of(index as u32)
                },
            },
    {
        match checked_share(self.total_amount, self.milestones[index].bps) {
            None => Err(Error::Overflow),
            Some(amount) => match self.released_amount.checked_add(amount) {
                None => Err(Error::Overflow),
                Some(released) => Ok((amount, released)),
            },
        }
    }

    /// The release procedure: pays the share of a milestone that waits for
    /// release to the developer, less the platform fee, which goes to the
    /// backend; counts the whole share as released; and looks for completion.
    fn release_milestone(&mut self, milestone_index: u32, automatic: bool) -> (r: Result<
        Effects,
        Error,
    >)
        ensures
            conforms(
                Some(old(self)@),
                Some(final(self)@),
                r,
                old(self)@.release(milestone_index, automatic),
            ),
    {
        let index = milestone_index as usize;
        if index >= self.milestones.len() {
            return Err(Error::MilestoneNotFound);
        }
        if self.milestones[index].status != MilestoneStatus::PendingRelease {
            return Err(Error::MilestoneNotPendingRelease);
        }
        let (amount, released) = self.payout(index)?;
        let (developer_amount, fee_amount) = split_fee(amount);

        let mut effects = Effects::new();
        effects.transfers.push(
            Transfer { from: Party::Escrow, to: Party::Developer, amount: developer_amount },
        );
        effects.transfers.push(
            Transfer { from: Party::Escrow, to: Party::Backend, amount: fee_amount },
        );
        self.released_amount = released;
        self.milestones[index].status = MilestoneStatus::Released;
        effects.events.push(
            Event::FundsReleased {
                milestone_index,
                recipient: Party::Developer,
                amount: developer_amount,
                automatic,
            },
        );
        proof {
            let paid = old(self)@.paid_out(milestone_index, MilestoneStatus::Released);
            assert(self@.milestones =~= paid.milestones);
            assert(self@ == paid);
            assert(effects@.transfers =~= old(self)@.release(milestone_index, automatic)->Ok_0.effects.transfers);
        }
        self.check_completion(&mut effects);
        Ok(effects)
    }
}

impl StreamEscrow {
    /// An escrow that has not been initialized.
    pub fn new() -> (fresh: StreamEscrow)
        ensures
            fresh@ is None,
    {
        StreamEscrow { escrow: None }
    }

    /// Rules on a disputed milestone. For the developer, the milestone goes
    /// back to waiting for release and is released by the release procedure.
    /// For the client, the milestone's whole share of the total amount is
    /// refunded, with no fee, and counted as released. Either way completion
    /// is looked for.
    pub fn resolve_dispute(&mut self, milestone_index: u32, release_to_developer: bool) -> (r:
        Result<Effects, Error>)
        ensures
            conforms(
                old(self)@,
                final(self)@,
                r,
                on_initialized(
                    old(self)@,
                    |escrow: EscrowModel| escrow.resolve_dispute(milestone_index, release_to_developer),
                ),
            ),
    {
        match &mut self.escrow {
            None => Err(Error::NotInitialized),
            Some(escrow) => {
                escrow.assert_active()?;
                let index = milestone_index as usize;
                if index >= escrow.milestones.len() {
                    return Err(Error::MilestoneNotFound);
                }
                if escrow.milestones[index].status != MilestoneStatus::Disputed {
                    return Err(Error::MilestoneNotDisputed);
                }
                if release_to_developer {
                    escrow.milestones[index].status = MilestoneStatus::PendingRelease;
                    let released = escrow.release_milestone(milestone_index, false);
                    if released.is_err() {
                        escrow.milestones[index].status = MilestoneStatus::Disputed;
                        assert(escrow@.milestones =~= old(self)@->Some_0.milestones);
                    }
                    released
                } else {
                    let (refund_amount, released) = escrow.payout(index)?;
                    let mut effects = Effects::new();
                    effects.transfers.push(
                        Transfer { from: Party::Escrow, to: Party::Client, amount: refund_amount },
                    );
                    escrow.milestones[index].status = MilestoneStatus::Refunded;
                    escrow.released_amount = released;
                    effects.events.push(
                        Event::DisputeResolved {
                            milestone_index,
                            recipient: Party::Client,
                            amount: refund_amount,
                        },
                    );
                    proof {
                        let paid = old(self)@->Some_0.paid_out(
                            milestone_index,
                            MilestoneStatus::Refunded,
                        );
                        assert(escrow@.milestones =~= paid.milestones);
                        assert(effects@.transfers =~= old(self)@->Some_0.refund(
                            milestone_index,
                        )->Ok_0.effects.transfers);
                    }
                    escrow.check_completion(&mut effects);
                    Ok(effects)
                }
            },
        }
    }

    /// Creates the escrow and asks for the client's deposit of the total
    /// amount. Succeeds exactly when the escrow does not exist yet, the total
    /// amount is positive, and there are between one and ten milestones, each
    /// with a share, whose shares add up to 10000 basis points.
    pub fn initialize(
        &mut self,
        client: Address,
        developer: Address,
        backend: Address,
        token: Address,
        total_amount: i128,
        milestones: Vec<Milestone>,
        dispute_window_secs: u64,
    ) -> (r: Result<Effects, Error>)
        ensures
            conforms(
                old(self)@,
                final(self)@,
                r,
                initialize(
                    old(self)@,
                    client,
                    developer,
                    backend,
                    token,
                    total_amount,
                    milestones@,
                    dispute_window_secs,
                ),
            ),
    {
        if self.escrow.is_some() {
            return Err(Error::AlreadyInitialized);
        }
        if total_amount <= 0 {
            return Err(Error::InvalidAmount);
        }
        if milestones.len() == 0 {
            return Err(Error::NoMilestones);
        }
        if milestones.len() > MAX_MILESTONES {
            return Err(Error::TooManyMilestones);
        }
        if !split_is_whole(&milestones) {
            return Err(Error::InvalidMilestoneBps);
        }
        let milestone_count = milestones.len() as u32;
        let mut effects = Effects::new();
        effects.transfers.push(
            Transfer { from: Party::Client, to: Party::Escrow, amount: total_amount },
        );
        effects.events.push(Event::Initialized { total_amount, milestone_count });
        self.escrow = Some(
            Escrow {
                client,
                developer,
                backend,
                token,
                total_amount,
                released_amount: 0,
                status: EscrowStatus::Active,
                dispute_window: dispute_window_secs,
                milestones,
            },
        );
        Ok(effects)
    }

    /// The client freezes a milestone that waits for release, while its
    /// dispute window is open. Nothing can release the milestone until the
    /// backend has ruled on it.
    pub fn dispute(&mut self, now: u64, milestone_index: u32, reason: String) -> (r: Result<
        Effects,
        Error,
    >)
        ensures
            conforms(
                old(self)@,
                final(self)@,
                r,
                on_initialized(
                    old(self)@,
                    |escrow: EscrowModel| escrow.dispute(now, milestone_index, reason),
                ),
            ),
    {
        match &mut self.escrow {
            None => Err(Error::NotInitialized),
            Some(escrow) => {
                escrow.assert_active()?;
                if escrow.dispute_window == 0 {
                    return Err(Error::NoDisputeWindow);
                }
                let index = milestone_index as usize;
                if index >= escrow.milestones.len() {
                    return Err(Error::MilestoneNotFound);
                }
                if escrow.milestones[index].status != MilestoneStatus::PendingRelease {
                    return Err(Error::MilestoneNotPendingRelease);
                }
                let completed_at = match escrow.milestones[index].completed_at {
                    None => { return Err(Error::MilestoneNotCompleted); },
                    Some(at) => at,
                };
                match window_state(completed_at, escrow.dispute_window, now)? {
                    Window::Open { .. } => {},
                    _ => { return Err(Error::DisputeWindowClosed); },
                }
                escrow.milestones[index].status = MilestoneStatus::Disputed;
                let mut effects = Effects::new();
                effects.events.push(
                    Event::DisputeOpened { milestone_index, reason, opened_at: now },
                );
                assert(escrow@.milestones =~= old(self)@->Some_0.with_status(
                    milestone_index,
                    MilestoneStatus::Disputed,
                ).milestones);
                Ok(effects)
            },
        }
    }

    /// The client ends the escrow and takes back all that was not released.
    /// Refused while a milestone waits for release or is under dispute. A
    /// refund of nothing asks for no transfer and still succeeds.
    pub fn cancel(&mut self) -> (r: Result<Effects, Error>)
        ensures
            conforms(
                old(self)@,
                final(self)@,
                r,
                on_initialized(old(self)@, |escrow: EscrowModel| escrow.cancel()),
            ),
    {
        match &mut self.escrow {
            None => Err(Error::NotInitialized),
            Some(escrow) => {
                escrow.assert_active()?;
                if escrow.has_in_flight() {
                    return Err(Error::CannotCancelWithPendingMilestones);
                }
                let remaining = match escrow.total_amount.checked_sub(escrow.released_amount) {
                    None => { return Err(Error::Overflow); },
                    Some(rest) => rest,
                };
                let mut effects = Effects::new();
                if remaining > 0 {
                    effects.transfers.push(
                        Transfer { from: Party::Escrow, to: Party::Client, amount: remaining },
                    );
                }
                escrow.status = EscrowStatus::Cancelled;
                effects.events.push(
                    Event::Cancelled { recipient: Party::Client, refunded: remaining },
                );
                assert(effects@.transfers =~= old(self)@->Some_0.cancel()->Ok_0.effects.transfers);
                Ok(effects)
            },
        }
    }

    /// Anyone releases a milestone that waits for release, once its dispute
    /// window has closed. Refused where the escrow has no dispute window.
    pub fn auto_release(&mut self, now: u64, milestone_index: u32) -> (r: Result<Effects, Error>)
        ensures
            conforms(
                old(self)@,
                final(self)@,
                r,
                on_initialized(
                    old(self)@,
                    |escrow: EscrowModel| escrow.auto_release(now, milestone_index),
                ),
            ),
    {
        match &mut self.escrow {
            None => Err(Error::NotInitialized),
            Some(escrow) => {
                escrow.assert_active()?;
                let index = milestone_index as usize;
                if index >= escrow.milestones.len() {
                    return Err(Error::MilestoneNotFound);
                }
                if escrow.milestones[index].status != MilestoneStatus::PendingRelease {
                    return Err(Error::MilestoneNotPendingRelease);
                }
                if escrow.dispute_window == 0 {
                    return Err(Error::ManualApprovalRequired);
                }
                let completed_at = match escrow.milestones[index].completed_at {
                    None => { return Err(Error::MilestoneNotCompleted); },
                    Some(at) => at,
                };
                match window_state(completed_at, escrow.dispute_window, now)? {
                    Window::Absent => Err(Error::ManualApprovalRequired),
                    Window::Open { .. } => Err(Error::DisputeWindowOpen),
                    Window::Closed => escrow.release_milestone(milestone_index, true),
                }
            },
        }
    }

    /// The backend attests a pending milestone: the evidence and the time are
    /// recorded together, and the milestone waits for release from then on.
    pub fn mark_complete(&mut self, now: u64, milestone_index: u32, pr_url: String) -> (r: Result<
        Effects,
        Error,
    >)
        ensures
            conforms(
                old(self)@,
                final(self)@,
                r,
                on_initialized(
                    old(self)@,
                    |escrow: EscrowModel| escrow.mark_complete(now, milestone_index, pr_url),
                ),
            ),
    {
        match &mut self.escrow {
            None => Err(Error::NotInitialized),
            Some(escrow) => {
                escrow.assert_active()?;
                let index = milestone_index as usize;
                if index >= escrow.milestones.len() {
                    return Err(Error::MilestoneNotFound);
                }
                if escrow.milestones[index].status != MilestoneStatus::Pending {
                    return Err(Error::MilestoneAlreadyCompleted);
                }
                let mut effects = Effects::new();
                effects.events.push(
                    Event::MilestoneCompleted {
                        milestone_index,
                        pr_url: pr_url.clone(),
                        completed_at: now,
                    },
                );
                escrow.milestones[index].status = MilestoneStatus::PendingRelease;
                escrow.milestones[index].pr_url = Some(pr_url);
                escrow.milestones[index].completed_at = Some(now);
                assert(escrow@.milestones =~= old(self)@->Some_0.with_milestone(
                    milestone_index,
                    old(self)@->Some_0.milestones[milestone_index as int].attested(pr_url, now),
                ).milestones);
                Ok(effects)
            },
        }
    }

    /// The client releases a milestone that waits for release, at once and
    /// whatever the state of its dispute window.
    pub fn approve(&mut self, milestone_index: u32) -> (r: Result<Effects, Error>)
        ensures
            conforms(
                old(self)@,
                final(self)@,
                r,
                on_initialized(old(self)@, |escrow: EscrowModel| escrow.approve(milestone_index)),
            ),
    {
        match &mut self.escrow {
            None => Err(Error::NotInitialized),
            Some(escrow) => {
                escrow.assert_active()?;
                escrow.release_milestone(milestone_index, false)
            },
        }
    }

    /// The seconds until a milestone can be released by anyone: zero unless
    /// the milestone waits for release and its dispute window is open.
    pub fn time_until_auto_release(&self, now: u64, milestone_index: u32) -> (r: Result<u64, Error>)
        ensures
            r == match self@ {
                None => Err::<u64, Error>(Error::NotInitialized),
                Some(escrow) => escrow.time_until_auto_release(now, milestone_index),
            },
    {
        match &self.escrow {
            None => Err(Error::NotInitialized),
            Some(escrow) => {
                let index = milestone_index as usize;
                if index >= escrow.milestones.len() {
                    return Err(Error::MilestoneNotFound);
                }
                if escrow.milestones[index].status != MilestoneStatus::PendingRelease
                    || escrow.dispute_window == 0 {
                    return Ok(0);
                }
                let completed_at = match escrow.milestones[index].completed_at {
                    None => { return Err(Error::MilestoneNotCompleted); },
                    Some(at) => at,
                };
                match window_state(completed_at, escrow.dispute_window, now)? {
                    Window::Open { remaining } => Ok(remaining),
                    _ => Ok(0),
                }
            },
        }
    }

    /// One operation made at `now`, whichever it is.
    pub fn apply(&mut self, operation: Operation, now: u64) -> (r: Result<Effects, Error>)
        ensures
            conforms(old(self)@, final(self)@, r, transition(old(self)@, operation, now)),
    {
        match operation {
            Operation::Initialize {
                client,
                developer,
                backend,
                token,
                total_amount,
                milestones,
                dispute_window_secs,
            } => self.initialize(
                client,
                developer,
                backend,
                token,
                total_amount,
                milestones,
                dispute_window_secs,
            ),
            Operation::MarkComplete { milestone_index, pr_url } => self.mark_complete(
                now,
                milestone_index,
                pr_url,
            ),
            Operation::Approve { milestone_index } => self.approve(milestone_index),
            Operation::AutoRelease { milestone_index } => self.auto_release(now, milestone_index),
            Operation::Dispute { milestone_index, reason } => self.dispute(
                now,
                milestone_index,
                reason,
            ),
            Operation::ResolveDispute {
                milestone_index,
                release_to_developer,
            } => self.resolve_dispute(milestone_index, release_to_developer),
            Operation::Cancel => self.cancel(),
        }
    }

    /// The milestones, in order.
    pub fn get_milestones(&self) -> (r: Result<Vec<Milestone>, Error>)
        ensures
            match self@ {
                None => r == Err::<Vec<Milestone>, Error>(Error::NotInitialized),
                Some(escrow) => r is Ok && r->Ok_0@ == escrow.milestones,
            },
    {
        match &self.escrow {
            None => Err(Error::NotInitialized),
            Some(escrow) => {
                let mut list: Vec<Milestone> = Vec::new();
                let mut i: usize = 0;
                while i < escrow.milestones.len()
                    invariant
                        i <= escrow.milestones.len(),
                        list@ == escrow.milestones@.take(i as int),
                    decreases escrow.milestones.len() - i,
                {
                    list.push(escrow.milestones[i].clone());
                    assert(list@ =~= escrow.milestones@.take(i + 1));
                    i += 1;
                }
                assert(list@ =~= escrow.milestones@);
                Ok(list)
            },
        }
    }

    /// The milestone with the given index.
    pub fn get_milestone(&self, index: u32) -> (r: Result<Milestone, Error>)
        ensures
            r == match self@ {
                None => Err::<Milestone, Error>(Error::NotInitialized),
                Some(escrow) => if escrow.has(index) {
                    Ok(escrow.milestones[index as int])
                } else {
                    Err(Error::MilestoneNotFound)
                },
            },
    {
        match &self.escrow {
            None => Err(Error::NotInitialized),
            Some(escrow) => {
                let i = index as usize;
                if i < escrow.milestones.len() {
                    Ok(escrow.milestones[i].clone())
                } else {
                    Err(Error::MilestoneNotFound)
                }
            },
        }
    }

    /// Where the escrow stands as a whole.
    pub fn get_status(&self) -> (r: Result<EscrowStatus, Error>)
        ensures
            r == match self@ {
                None => Err::<EscrowStatus, Error>(Error::NotInitialized),
                Some(escrow) => Ok(escrow.status),
            },
    {
        match &self.escrow {
            None => Err(Error::NotInitialized),
            Some(escrow) => Ok(escrow.status),
        }
    }

    /// The total amount, the released amount and what is left of the total.
    pub fn get_balance(&self) -> (r: Result<(i128, i128, i128), Error>)
        ensures
            r == match self@ {
                None => Err::<(i128, i128, i128), Error>(Error::NotInitialized),
                Some(escrow) => escrow.balance(),
            },
    {
        match &self.escrow {
            None => Err(Error::NotInitialized),
            Some(escrow) => match escrow.total_amount.checked_sub(escrow.released_amount) {
                None => Err(Error::Overflow),
                Some(remaining) => Ok((escrow.total_amount, escrow.released_amount, remaining)),
            },
        }
    }

    /// The share of `total` that `bps` basis points stand for: `total * bps /
    /// 10000`, with the fraction dropped.
    pub fn milestone_amount(total: i128, bps: u32) -> (amount: i128)
        requires
            share_fits(total as int, bps as int),
        ensures
            amount == share(total as int, bps as int),
    {
        total * (bps as i128) / 10_000
    }
}

/// Whether every milestone has a share and the shares add up to 10000 basis
/// points.
pub fn split_is_whole(milestones: &Vec<Milestone>) -> (whole: bool)
    ensures
        whole == (all_bps_positive(milestones@) && total_bps(milestones@) == 10_000),
{
    let mut sum: u128 = 0;
    let mut i: usize = 0;
    while i < milestones.len()
        invariant
            i <= milestones.len(),
            sum == total_bps(milestones@.take(i as int)),
            sum <= i * u32::MAX,
            all_bps_positive(milestones@.take(i as int)),
        decreases milestones.len() - i,
    {
        let bps = milestones[i].bps;
        if bps == 0 {
            return false;
        }
        proof {
            assert(milestones@.take(i + 1).drop_last() =~= milestones@.take(i as int));
            assert(i * u32::MAX + u32::MAX <= usize::MAX * u32::MAX + u32::MAX) by (nonlinear_arith)
                requires
                    i <= usize::MAX,
            ;
            assert(usize::MAX * u32::MAX <= u64::MAX * u32::MAX) by (nonlinear_arith);
        }
        sum = sum + bps as u128;
        i += 1;
    }
    proof {
        assert(milestones@.take(i as int) =~= milestones@);
    }
    sum == 10_000
}

} // verus!
