//! The laws of the escrow, proved about the model that the executable
//! operations are specified against.

use vstd::prelude::*;
use crate::accounting::{
    counted, evidence_paired, lemma_bps_at_most_total, lemma_resolved_below_total,
    lemma_shares_bounds, lemma_shares_conserve, lemma_shares_update, lemma_total_bps_update,
    lemma_valid_split_update, shares,
};
use crate::amount::{
    fee, lemma_fee_bounds, lemma_share_bounds, lemma_share_rounding, share, share_fits,
};
use crate::effects::{received, Transfer};
use crate::errors::Error;
use crate::model::{
    any_in_flight, initialize, initialized, valid_split, Call, EscrowModel, Operation, Outcome,
};
use crate::types::{Address, EscrowStatus, Milestone, MilestoneStatus, Party};
use crate::window::{deadline, seconds_left};

verus! {

/// Every milestone is as it is before any work was attested.
pub open spec fn all_fresh(milestones: Seq<Milestone>) -> bool {
    forall|i: int| 0 <= i < milestones.len() ==> (#[trigger] milestones[i]).fresh()
}

/// The milestone that an operation is about, if it is about one.
pub open spec fn target(operation: Operation) -> Option<u32> {
    match operation {
        Operation::Initialize { .. } => None,
        Operation::MarkComplete { milestone_index, .. } => Some(milestone_index),
        Operation::Approve { milestone_index } => Some(milestone_index),
        Operation::AutoRelease { milestone_index } => Some(milestone_index),
        Operation::Dispute { milestone_index, .. } => Some(milestone_index),
        Operation::ResolveDispute { milestone_index, .. } => Some(milestone_index),
        Operation::Cancel => None,
    }
}

/// Where no milestone is resolved, the resolved shares are zero.
proof fn lemma_nothing_resolved(total: int, milestones: Seq<Milestone>)
    requires
        forall|i: int| 0 <= i < milestones.len() ==> !(#[trigger] milestones[i]).status.resolved(),
    ensures
        shares(total, milestones, true) == 0,
    decreases milestones.len(),
{
    if milestones.len() > 0 {
        let rest = milestones.drop_last();
        assert forall|i: int| 0 <= i < rest.len() implies !(#[trigger] rest[i]).status.resolved() by {
            assert(rest[i] == milestones[i]);
        }
        lemma_nothing_resolved(total, rest);
        assert(!milestones[milestones.len() - 1].status.resolved());
    }
}

/// Initialization succeeds if and only if the escrow does not exist yet, the
/// total amount is positive, and the milestones are between one and ten, each
/// with a positive share, the shares adding up to exactly 10000 basis points.
pub proof fn lemma_initialize_succeeds_iff(
    state: Option<EscrowModel>,
    client: Address,
    developer: Address,
    backend: Address,
    token: Address,
    total_amount: i128,
    milestones: Seq<Milestone>,
    dispute_window: u64,
)
    ensures
        initialize(
            state,
            client,
            developer,
            backend,
            token,
            total_amount,
            milestones,
            dispute_window,
        ) is Ok <==> state is None && total_amount > 0 && valid_split(milestones),
{
}

/// An escrow initialized with fresh milestones satisfies the invariant:
/// nothing is released, it is active, and it asks for exactly the total
/// amount from the client.
pub proof fn lemma_initialize_establishes_invariant(
    client: Address,
    developer: Address,
    backend: Address,
    token: Address,
    total_amount: i128,
    milestones: Seq<Milestone>,
    dispute_window: u64,
)
    requires
        total_amount > 0,
        valid_split(milestones),
        all_fresh(milestones),
    ensures
        initialized(
            client,
            developer,
            backend,
            token,
            total_amount,
            milestones,
            dispute_window,
        ).state.consistent(),
        initialized(
            client,
            developer,
            backend,
            token,
            total_amount,
            milestones,
            dispute_window,
        ).effects.received_by(Party::Escrow) == total_amount,
{
    let outcome = initialized(
        client,
        developer,
        backend,
        token,
        total_amount,
        milestones,
        dispute_window,
    );
    assert forall|i: int| 0 <= i < milestones.len() implies !(#[trigger] milestones[i]).status.resolved()
        && evidence_paired(milestones[i]) by {
        assert(milestones[i].fresh());
    }
    lemma_nothing_resolved(total_amount as int, milestones);
    assert(!milestones[0].status.resolved());
    assert(!any_in_flight(milestones)) by {
        if any_in_flight(milestones) {
            let i = choose|i: int|
                0 <= i < milestones.len() && (#[trigger] milestones[i]).status.in_flight();
            assert(milestones[i].fresh());
        }
    }
    let transfers = outcome.effects.transfers;
    assert(transfers.drop_last() =~= Seq::<Transfer>::empty());
    assert(received(transfers.drop_last(), Party::Escrow) == 0);
}

/// Conservation: in an escrow that satisfies the invariant, what was released
/// and what the unresolved milestones still stand for add up to the total
/// amount, less a rounding drift of at most one unit for each milestone but
/// one; and the released amount lies between zero and the total.
pub proof fn lemma_conservation(escrow: EscrowModel)
    requires
        escrow.consistent(),
    ensures
        escrow.total_amount - (escrow.milestones.len() - 1) <= escrow.released_amount
            + escrow.outstanding_shares() <= escrow.total_amount,
        0 <= escrow.released_amount <= escrow.total_amount,
        0 <= escrow.outstanding_shares(),
{
    lemma_shares_conserve(escrow.total_amount as int, escrow.milestones);
    lemma_shares_bounds(escrow.total_amount as int, escrow.milestones);
}

/// In a valid split every milestone has between one and 10000 basis points,
/// so that its share of a non-negative total lies between zero and the total.
pub proof fn lemma_each_share_is_part_of_the_total(
    total: int,
    milestones: Seq<Milestone>,
    index: int,
)
    requires
        0 <= total,
        valid_split(milestones),
        0 <= index < milestones.len(),
    ensures
        0 < milestones[index].bps <= 10_000,
        0 <= share(total, milestones[index].bps as int) <= total,
{
    lemma_bps_at_most_total(milestones, index);
    lemma_share_bounds(total, milestones[index].bps as int);
}

/// An escrow that satisfies the invariant never fails for want of a
/// completion time, and its released amount never outgrows its type: the
/// only arithmetic that can fail is the product `total * bps` of a share, and
/// that of a deadline.
pub proof fn lemma_consistent_escrow_errors(escrow: EscrowModel, index: u32)
    requires
        escrow.consistent(),
        escrow.has(index),
    ensures
        escrow.milestones[index as int].status != MilestoneStatus::Pending
            ==> escrow.deadline_error(index) != Some(Error::MilestoneNotCompleted),
        !escrow.milestones[index as int].status.resolved() ==> (escrow.payout_error(index) is Some
            <==> !share_fits(
            escrow.total_amount as int,
            escrow.milestones[index as int].bps as int,
        )),
        escrow.total_amount <= i128::MAX / 10_000 ==> share_fits(
            escrow.total_amount as int,
            escrow.milestones[index as int].bps as int,
        ),
        i128::MIN <= escrow.unreleased() <= i128::MAX,
{
    let total = escrow.total_amount as int;
    let bps = escrow.milestones[index as int].bps as int;
    assert(evidence_paired(escrow.milestones[index as int]));
    lemma_conservation(escrow);
    lemma_each_share_is_part_of_the_total(total, escrow.milestones, index as int);
    if !escrow.milestones[index as int].status.resolved() {
        // The resolved shares and this share are both among all the shares,
        // which together do not exceed the total.
        let resolved = escrow.milestones[index as int].with_status(MilestoneStatus::Released);
        lemma_shares_update(total, escrow.milestones, index as int, resolved, true);
        lemma_total_bps_update(escrow.milestones, index as int, resolved);
        lemma_shares_bounds(total, escrow.milestones.update(index as int, resolved));
    }
    if escrow.total_amount <= i128::MAX / 10_000 {
        assert(0 <= total * bps <= total * 10_000) by (nonlinear_arith)
            requires
                0 <= total,
                0 <= bps <= 10_000,
        ;
    }
}

/// Replacing a milestone by one with the same basis points keeps the split
/// valid and every other milestone as it was, and moves the milestone's share
/// between the sums according to whether it was and is resolved.
proof fn lemma_replace(escrow: EscrowModel, index: u32, milestone: Milestone)
    requires
        escrow.has(index),
        valid_split(escrow.milestones),
        milestone.bps == escrow.milestones[index as int].bps,
    ensures
        valid_split(escrow.with_milestone(index, milestone).milestones),
        escrow.with_milestone(index, milestone).milestones.len() == escrow.milestones.len(),
        escrow.with_milestone(index, milestone).milestones[index as int] == milestone,
        forall|j: int|
            0 <= j < escrow.milestones.len() && j != index ==> (#[trigger] escrow.with_milestone(
                index,
                milestone,
            ).milestones[j]) == escrow.milestones[j],
        escrow.with_milestone(index, milestone).resolved_shares() == escrow.resolved_shares()
            - counted(escrow.total_amount as int, escrow.milestones[index as int], true) + counted(
            escrow.total_amount as int,
            milestone,
            true,
        ),
{
    lemma_valid_split_update(escrow.milestones, index as int, milestone);
    lemma_shares_update(escrow.total_amount as int, escrow.milestones, index as int, milestone, true);
}

/// Changing the status of an attested milestone to another status than
/// `Pending` keeps the rest of the invariant: the pairing of evidence.
proof fn lemma_pairing_kept(escrow: EscrowModel, index: u32, milestone: Milestone)
    requires
        escrow.has(index),
        evidence_paired(milestone),
        forall|i: int|
            0 <= i < escrow.milestones.len() ==> evidence_paired(#[trigger] escrow.milestones[i]),
    ensures
        forall|i: int|
            0 <= i < escrow.milestones.len() ==> evidence_paired(
                #[trigger] escrow.with_milestone(index, milestone).milestones[i],
            ),
{
    let after = escrow.with_milestone(index, milestone).milestones;
    assert forall|i: int| 0 <= i < escrow.milestones.len() implies evidence_paired(
        #[trigger] after[i],
    ) by {
        if i != index {
            assert(after[i] == escrow.milestones[i]);
        }
    }
}

/// Paying out the share of an unresolved, attested milestone and looking for
/// completion keeps the invariant of an active escrow.
proof fn lemma_payout_preserves_invariant(
    escrow: EscrowModel,
    index: u32,
    status: MilestoneStatus,
)
    requires
        escrow.consistent(),
        escrow.status == EscrowStatus::Active,
        escrow.has(index),
        escrow.milestones[index as int].status.in_flight(),
        status.resolved(),
        escrow.payout_error(index) is None,
    ensures
        forall|effects|
            (#[trigger] escrow.paid_out(index, status).completion(effects)).state.consistent(),
        escrow.paid_out(index, status).released_amount == escrow.released_amount
            + escrow.share_of(index),
        0 <= escrow.share_of(index),
{
    let old_milestone = escrow.milestones[index as int];
    let new_milestone = old_milestone.with_status(status);
    let paid = escrow.paid_out(index, status);
    lemma_replace(escrow, index, new_milestone);
    assert(evidence_paired(old_milestone));
    lemma_pairing_kept(escrow, index, new_milestone);
    lemma_share_rounding(escrow.total_amount as int, old_milestone.bps as int);
    assert(paid.milestones == escrow.with_milestone(index, new_milestone).milestones);
    assert(paid.resolved_shares() == escrow.with_milestone(index, new_milestone).resolved_shares());
    assert forall|effects| (#[trigger] paid.completion(effects)).state.consistent() by {
        let done = paid.completion(effects).state;
        assert(done.milestones == paid.milestones);
        assert(done.resolved_shares() == paid.resolved_shares());
        assert(done.status != EscrowStatus::Cancelled);
    }
}

/// The release procedure keeps the invariant of an active escrow.
proof fn lemma_release_preserves_invariant(
    escrow: EscrowModel,
    index: u32,
    automatic: bool,
)
    requires
        escrow.consistent(),
        escrow.status == EscrowStatus::Active,
        escrow.release(index, automatic) is Ok,
    ensures
        escrow.release(index, automatic)->Ok_0.state.consistent(),
        escrow.release(index, automatic)->Ok_0.state.released_amount >= escrow.released_amount,
{
    lemma_payout_preserves_invariant(escrow, index, MilestoneStatus::Released);
}

/// Every operation keeps the invariant: a successful operation on an escrow
/// that satisfies it leads to one that satisfies it.
pub proof fn lemma_step_preserves_invariant(escrow: EscrowModel, operation: Operation, now: u64)
    requires
        escrow.consistent(),
        escrow.step(operation, now) is Ok,
    ensures
        escrow.step(operation, now)->Ok_0.state.consistent(),
        escrow.step(operation, now)->Ok_0.state.released_amount >= escrow.released_amount,
{
    let next = escrow.step(operation, now)->Ok_0.state;
    match operation {
        Operation::Initialize { .. } => {},
        Operation::MarkComplete { milestone_index, pr_url } => {
            let attested = escrow.milestones[milestone_index as int].attested(pr_url, now);
            lemma_replace(escrow, milestone_index, attested);
            lemma_pairing_kept(escrow, milestone_index, attested);
            assert(!next.milestones[milestone_index as int].status.resolved());
        },
        Operation::Approve { milestone_index } => {
            lemma_release_preserves_invariant(escrow, milestone_index, false);
        },
        Operation::AutoRelease { milestone_index } => {
            lemma_release_preserves_invariant(escrow, milestone_index, true);
        },
        Operation::Dispute { milestone_index, reason } => {
            let disputed = escrow.milestones[milestone_index as int].with_status(
                MilestoneStatus::Disputed,
            );
            assert(evidence_paired(escrow.milestones[milestone_index as int]));
            lemma_replace(escrow, milestone_index, disputed);
            lemma_pairing_kept(escrow, milestone_index, disputed);
            assert(!next.milestones[milestone_index as int].status.resolved());
        },
        Operation::ResolveDispute { milestone_index, release_to_developer } => {
            if release_to_developer {
                let waiting = escrow.with_status(milestone_index, MilestoneStatus::PendingRelease);
                let reopened = escrow.milestones[milestone_index as int].with_status(
                    MilestoneStatus::PendingRelease,
                );
                assert(evidence_paired(escrow.milestones[milestone_index as int]));
                lemma_replace(escrow, milestone_index, reopened);
                lemma_pairing_kept(escrow, milestone_index, reopened);
                assert(!waiting.milestones[milestone_index as int].status.resolved());
                assert(waiting.consistent());
                lemma_release_preserves_invariant(waiting, milestone_index, false);
            } else {
                lemma_payout_preserves_invariant(
                    escrow,
                    milestone_index,
                    MilestoneStatus::Refunded,
                );
            }
        },
        Operation::Cancel => {},
    }
}

/// Conservation over any sequence of operations: whatever calls are made on
/// an escrow that satisfies the invariant, in whatever order and at whatever
/// times, the escrow satisfies the invariant afterwards, its released amount
/// has not decreased, and its total amount and split are what they were.
pub proof fn lemma_run_preserves_invariant(escrow: EscrowModel, calls: Seq<Call>)
    requires
        escrow.consistent(),
    ensures
        escrow.run(calls).consistent(),
        escrow.run(calls).released_amount >= escrow.released_amount,
        escrow.run(calls).total_amount == escrow.total_amount,
        escrow.run(calls).milestones.len() == escrow.milestones.len(),
    decreases calls.len(),
{
    if calls.len() > 0 {
        let before = escrow.run(calls.drop_last());
        let call = calls.last();
        lemma_run_preserves_invariant(escrow, calls.drop_last());
        if before.step(call.operation, call.now) is Ok {
            lemma_step_preserves_invariant(before, call.operation, call.now);
            lemma_step_keeps_terms(before, call.operation, call.now);
        }
    }
}

/// No operation changes the terms of an escrow: the parties, the asset, the
/// total amount, the dispute window, and the number, titles, keywords and
/// basis points of the milestones.
pub proof fn lemma_step_keeps_terms(escrow: EscrowModel, operation: Operation, now: u64)
    requires
        escrow.step(operation, now) is Ok,
    ensures
        ({
            let next = escrow.step(operation, now)->Ok_0.state;
            &&& next.client == escrow.client
            &&& next.developer == escrow.developer
            &&& next.backend == escrow.backend
            &&& next.token == escrow.token
            &&& next.total_amount == escrow.total_amount
            &&& next.dispute_window == escrow.dispute_window
            &&& next.milestones.len() == escrow.milestones.len()
            &&& forall|i: int|
                0 <= i < escrow.milestones.len() ==> {
                    &&& (#[trigger] next.milestones[i]).bps == escrow.milestones[i].bps
                    &&& next.milestones[i].title == escrow.milestones[i].title
                    &&& next.milestones[i].trigger_keyword == escrow.milestones[i].trigger_keyword
                }
        }),
{
}

/// Monotonic status: an escrow that is completed or cancelled refuses every
/// operation: a second initialization because the escrow exists, every other
/// operation with the error that names the escrow's status.
pub proof fn lemma_finished_escrow_refuses(escrow: EscrowModel, operation: Operation, now: u64)
    requires
        escrow.status != EscrowStatus::Active,
    ensures
        escrow.step(operation, now) == Err::<Outcome, Error>(
            if operation is Initialize {
                Error::AlreadyInitialized
            } else if escrow.status == EscrowStatus::Completed {
                Error::EscrowCompleted
            } else {
                Error::EscrowCancelled
            },
        ),
{
}

/// Monotonic status over any sequence of operations: an escrow that is
/// completed or cancelled stays exactly as it is.
pub proof fn lemma_finished_escrow_is_final(escrow: EscrowModel, calls: Seq<Call>)
    requires
        escrow.status != EscrowStatus::Active,
    ensures
        escrow.run(calls) == escrow,
    decreases calls.len(),
{
    if calls.len() > 0 {
        lemma_finished_escrow_is_final(escrow, calls.drop_last());
        lemma_finished_escrow_refuses(escrow, calls.last().operation, calls.last().now);
    }
}

/// At most one release: every operation about a milestone that is released
/// or refunded is refused, and so asks for no transfer. On an active escrow
/// the error is the one that names the milestone's state.
pub proof fn lemma_resolved_milestone_refuses(escrow: EscrowModel, operation: Operation, now: u64)
    requires
        target(operation) is Some,
        escrow.has(target(operation)->Some_0),
        escrow.milestones[target(operation)->Some_0 as int].status.resolved(),
    ensures
        escrow.step(operation, now) is Err,
        escrow.status == EscrowStatus::Active ==> {
            let error = escrow.step(operation, now)->Err_0;
            &&& operation is MarkComplete ==> error == Error::MilestoneAlreadyCompleted
            &&& operation is Approve ==> error == Error::MilestoneNotPendingRelease
            &&& operation is AutoRelease ==> error == Error::MilestoneNotPendingRelease
            &&& operation is Dispute ==> error == if escrow.dispute_window == 0 {
                Error::NoDisputeWindow
            } else {
                Error::MilestoneNotPendingRelease
            }
            &&& operation is ResolveDispute ==> error == Error::MilestoneNotDisputed
        },
{
}

/// At most one release: no operation changes a milestone that is released or
/// refunded.
pub proof fn lemma_resolved_milestone_is_kept(
    escrow: EscrowModel,
    operation: Operation,
    now: u64,
    index: int,
)
    requires
        0 <= index < escrow.milestones.len(),
        escrow.milestones[index].status.resolved(),
        escrow.step(operation, now) is Ok,
    ensures
        escrow.step(operation, now)->Ok_0.state.milestones[index] == escrow.milestones[index],
{
}

/// At most one release over any sequence of operations: a milestone that is
/// released or refunded stays exactly as it is.
pub proof fn lemma_resolved_milestone_is_final(escrow: EscrowModel, calls: Seq<Call>, index: int)
    requires
        0 <= index < escrow.milestones.len(),
        escrow.milestones[index].status.resolved(),
    ensures
        escrow.run(calls).milestones.len() == escrow.milestones.len(),
        escrow.run(calls).milestones[index] == escrow.milestones[index],
    decreases calls.len(),
{
    if calls.len() > 0 {
        let before = escrow.run(calls.drop_last());
        let call = calls.last();
        lemma_resolved_milestone_is_final(escrow, calls.drop_last(), index);
        if before.step(call.operation, call.now) is Ok {
            lemma_step_keeps_terms(before, call.operation, call.now);
            lemma_resolved_milestone_is_kept(before, call.operation, call.now, index);
        }
    }
}

/// A release moves exactly the milestone's share out of the escrow: the
/// developer and the backend together receive it, the backend's part being
/// the fee of one hundredth, and neither part is negative.
pub proof fn lemma_release_pays_the_share(escrow: EscrowModel, index: u32, automatic: bool)
    requires
        escrow.consistent(),
        escrow.release(index, automatic) is Ok,
    ensures
        ({
            let outcome = escrow.release(index, automatic)->Ok_0;
            &&& outcome.effects.received_by(Party::Developer) + outcome.effects.received_by(
                Party::Backend,
            ) == escrow.share_of(index)
            &&& outcome.effects.received_by(Party::Backend) == fee(escrow.share_of(index))
            &&& outcome.effects.received_by(Party::Client) == 0
            &&& 0 <= outcome.effects.received_by(Party::Backend)
                <= outcome.effects.received_by(Party::Developer) + outcome.effects.received_by(
                Party::Backend,
            )
            &&& outcome.state.released_amount == escrow.released_amount + escrow.share_of(index)
        }),
{
    let amount = escrow.share_of(index);
    lemma_share_rounding(escrow.total_amount as int, escrow.milestones[index as int].bps as int);
    lemma_fee_bounds(amount);
    let outcome = escrow.release(index, automatic)->Ok_0;
    let transfers = outcome.effects.transfers;
    let first = Transfer {
        from: Party::Escrow,
        to: Party::Developer,
        amount: (amount - fee(amount)) as i128,
    };
    let second = Transfer { from: Party::Escrow, to: Party::Backend, amount: fee(amount) as i128 };
    assert(transfers =~= seq![first, second]);
    assert(transfers.drop_last() =~= seq![first]);
    assert(transfers.drop_last().drop_last() =~= Seq::<Transfer>::empty());
    assert(received(Seq::<Transfer>::empty(), Party::Developer) == 0);
    assert(received(Seq::<Transfer>::empty(), Party::Backend) == 0);
    assert(received(Seq::<Transfer>::empty(), Party::Client) == 0);
    assert(received(transfers.drop_last(), Party::Developer) == amount - fee(amount));
    assert(received(transfers.drop_last(), Party::Backend) == 0);
    assert(received(transfers.drop_last(), Party::Client) == 0);
}

/// A refund gives the client the milestone's whole share: no fee is taken.
pub proof fn lemma_refund_pays_the_share(escrow: EscrowModel, index: u32)
    requires
        escrow.consistent(),
        escrow.has(index),
        escrow.refund(index) is Ok,
    ensures
        ({
            let outcome = escrow.refund(index)->Ok_0;
            &&& outcome.effects.received_by(Party::Client) == escrow.share_of(index)
            &&& outcome.effects.received_by(Party::Developer) == 0
            &&& outcome.effects.received_by(Party::Backend) == 0
            &&& 0 <= escrow.share_of(index)
            &&& outcome.state.released_amount == escrow.released_amount + escrow.share_of(index)
        }),
{
    lemma_share_rounding(escrow.total_amount as int, escrow.milestones[index as int].bps as int);
    let outcome = escrow.refund(index)->Ok_0;
    let transfers = outcome.effects.transfers;
    assert(transfers.drop_last() =~= Seq::<Transfer>::empty());
    assert(received(Seq::<Transfer>::empty(), Party::Developer) == 0);
    assert(received(Seq::<Transfer>::empty(), Party::Backend) == 0);
    assert(received(Seq::<Transfer>::empty(), Party::Client) == 0);
}

/// Conservation at cancellation: the client takes back exactly the total
/// amount less what was released, which is more than nothing and covers
/// what the unresolved milestones stood for with at most the rounding drift
/// on top; so that what was released and the refund make up the total.
pub proof fn lemma_cancel_refunds_the_rest(escrow: EscrowModel)
    requires
        escrow.consistent(),
        escrow.cancel() is Ok,
    ensures
        ({
            let outcome = escrow.cancel()->Ok_0;
            let refund = outcome.effects.received_by(Party::Client);
            &&& outcome.state.released_amount + refund == escrow.total_amount
            &&& refund > 0
            &&& escrow.outstanding_shares() <= refund <= escrow.outstanding_shares() + (
            escrow.milestones.len() - 1)
            &&& outcome.state.status == EscrowStatus::Cancelled
            &&& outcome.state.consistent()
        }),
{
    lemma_conservation(escrow);
    let i = choose|i: int|
        0 <= i < escrow.milestones.len() && !(#[trigger] escrow.milestones[i]).status.resolved();
    lemma_resolved_below_total(escrow.total_amount as int, escrow.milestones, i);
    let outcome = escrow.cancel()->Ok_0;
    let transfers = outcome.effects.transfers;
    assert(transfers.drop_last() =~= Seq::<Transfer>::empty());
    assert(received(Seq::<Transfer>::empty(), Party::Client) == 0);
    assert(outcome.state.resolved_shares() == escrow.resolved_shares());
}

/// Window correctness: while the dispute window is open the seconds left
/// are positive and strictly decrease as time advances, second for second;
/// and they are exactly zero once the deadline is reached.
pub proof fn lemma_seconds_left_decrease(
    completed_at: u64,
    dispute_window: u64,
    earlier: u64,
    later: u64,
)
    requires
        earlier < later,
    ensures
        dispute_window != 0 && later < deadline(completed_at, dispute_window) ==> {
            &&& seconds_left(completed_at, dispute_window, later) > 0
            &&& seconds_left(completed_at, dispute_window, later) == seconds_left(
                completed_at,
                dispute_window,
                earlier,
            ) - (later - earlier)
        },
        later >= deadline(completed_at, dispute_window) ==> seconds_left(
            completed_at,
            dispute_window,
            later,
        ) == 0,
        earlier >= deadline(completed_at, dispute_window) ==> seconds_left(
            completed_at,
            dispute_window,
            earlier,
        ) == 0,
        seconds_left(completed_at, dispute_window, later) <= seconds_left(
            completed_at,
            dispute_window,
            earlier,
        ),
{
}

/// Window correctness for a milestone of an escrow: while the milestone
/// waits for release and its window is open, `time_until_auto_release`
/// reports strictly less at a later time than at an earlier one, and it
/// reports exactly zero once the deadline is reached.
pub proof fn lemma_time_until_auto_release_decreases(
    escrow: EscrowModel,
    index: u32,
    earlier: u64,
    later: u64,
)
    requires
        escrow.has(index),
        escrow.milestones[index as int].status == MilestoneStatus::PendingRelease,
        escrow.milestones[index as int].completed_at is Some,
        escrow.dispute_window != 0,
        deadline(escrow.milestones[index as int].completed_at->Some_0, escrow.dispute_window)
            <= u64::MAX,
        earlier < later,
    ensures
        escrow.time_until_auto_release(earlier, index) is Ok,
        escrow.time_until_auto_release(later, index) is Ok,
        escrow.window_open(index, later) ==> 0 < escrow.time_until_auto_release(later, index)->Ok_0
            < escrow.time_until_auto_release(earlier, index)->Ok_0,
        !escrow.window_open(index, later) ==> escrow.time_until_auto_release(later, index)->Ok_0
            == 0,
        escrow.status == EscrowStatus::Active && escrow.window_open(index, later)
            ==> escrow.auto_release(later, index) == Err::<Outcome, Error>(
            Error::DisputeWindowOpen,
        ),
{
    let completed_at = escrow.milestones[index as int].completed_at->Some_0;
    lemma_seconds_left_decrease(completed_at, escrow.dispute_window, earlier, later);
}

} // verus!
