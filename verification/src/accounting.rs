//! Sums over the milestones of an escrow, and the invariant that ties the
//! released amount to them.

use vstd::prelude::*;
use crate::amount::{lemma_share_rounding, share};
use crate::model::{all_resolved, any_in_flight, total_bps, valid_split, EscrowModel};
use crate::types::{EscrowStatus, Milestone, MilestoneStatus};

verus! {

/// What a milestone adds to the sum of the resolved shares (`resolved` true)
/// or of the unresolved ones (`resolved` false) of an escrow of `total`.
pub open spec fn counted(total: int, milestone: Milestone, resolved: bool) -> int {
    if milestone.status.resolved() == resolved {
        share(total, milestone.bps as int)
    } else {
        0
    }
}

/// The sum of the shares of the milestones that are resolved (`resolved`
/// true) or not yet resolved (`resolved` false).
pub open spec fn shares(total: int, milestones: Seq<Milestone>, resolved: bool) -> int
    decreases milestones.len(),
{
    if milestones.len() == 0 {
        0
    } else {
        shares(total, milestones.drop_last(), resolved) + counted(
            total,
            milestones.last(),
            resolved,
        )
    }
}

/// Evidence and completion time come together: a milestone has both from the
/// moment it is attested, and neither before.
pub open spec fn evidence_paired(milestone: Milestone) -> bool {
    &&& (milestone.status == MilestoneStatus::Pending) == (milestone.completed_at is None)
    &&& (milestone.completed_at is None) == (milestone.pr_url is None)
}

impl EscrowModel {
    /// What has left the escrow according to the milestones: the shares of
    /// those that are released or refunded.
    pub open spec fn resolved_shares(self) -> int {
        shares(self.total_amount as int, self.milestones, true)
    }

    /// What the milestones that are not resolved yet still stand for.
    pub open spec fn outstanding_shares(self) -> int {
        shares(self.total_amount as int, self.milestones, false)
    }

    /// The invariant of an escrow: a positive total; a valid split; a
    /// released amount that is exactly the sum of the resolved shares; a
    /// status that agrees with the milestones; and evidence paired with the
    /// completion time on every milestone.
    pub open spec fn consistent(self) -> bool {
        &&& self.total_amount > 0
        &&& valid_split(self.milestones)
        &&& self.released_amount == self.resolved_shares()
        &&& (self.status == EscrowStatus::Active ==> !all_resolved(self.milestones))
        &&& (self.status == EscrowStatus::Completed ==> all_resolved(self.milestones))
        &&& (self.status == EscrowStatus::Cancelled ==> !any_in_flight(self.milestones))
        &&& forall|i: int|
            0 <= i < self.milestones.len() ==> evidence_paired(#[trigger] self.milestones[i])
    }
}

/// Replacing one milestone changes a sum of shares by what the old milestone
/// added to it and the new one adds.
pub proof fn lemma_shares_update(
    total: int,
    milestones: Seq<Milestone>,
    index: int,
    milestone: Milestone,
    resolved: bool,
)
    requires
        0 <= index < milestones.len(),
    ensures
        shares(total, milestones.update(index, milestone), resolved) == shares(
            total,
            milestones,
            resolved,
        ) - counted(total, milestones[index], resolved) + counted(total, milestone, resolved),
    decreases milestones.len(),
{
    let updated = milestones.update(index, milestone);
    if index == milestones.len() - 1 {
        assert(updated.drop_last() =~= milestones.drop_last());
    } else {
        assert(updated.drop_last() =~= milestones.drop_last().update(index, milestone));
        lemma_shares_update(total, milestones.drop_last(), index, milestone, resolved);
    }
}

/// Replacing one milestone changes the sum of the basis points by the
/// difference between the new milestone's and the old one's.
pub proof fn lemma_total_bps_update(milestones: Seq<Milestone>, index: int, milestone: Milestone)
    requires
        0 <= index < milestones.len(),
    ensures
        total_bps(milestones.update(index, milestone)) == total_bps(milestones)
            - milestones[index].bps + milestone.bps,
    decreases milestones.len(),
{
    let updated = milestones.update(index, milestone);
    if index == milestones.len() - 1 {
        assert(updated.drop_last() =~= milestones.drop_last());
    } else {
        assert(updated.drop_last() =~= milestones.drop_last().update(index, milestone));
        lemma_total_bps_update(milestones.drop_last(), index, milestone);
    }
}

/// Replacing a milestone by one with the same basis points keeps a valid
/// split valid.
pub proof fn lemma_valid_split_update(milestones: Seq<Milestone>, index: int, milestone: Milestone)
    requires
        0 <= index < milestones.len(),
        milestone.bps == milestones[index].bps,
        valid_split(milestones),
    ensures
        valid_split(milestones.update(index, milestone)),
{
    lemma_total_bps_update(milestones, index, milestone);
    let updated = milestones.update(index, milestone);
    assert forall|i: int| 0 <= i < updated.len() implies (#[trigger] updated[i]).bps > 0 by {
        if i != index {
            assert(updated[i] == milestones[i]);
        }
    }
}

/// The basis points of one milestone are at most the sum of all of them.
pub proof fn lemma_bps_at_most_total(milestones: Seq<Milestone>, index: int)
    requires
        0 <= index < milestones.len(),
    ensures
        milestones[index].bps <= total_bps(milestones),
        0 <= total_bps(milestones),
    decreases milestones.len(),
{
    lemma_total_bps_nonnegative(milestones.drop_last());
    if index < milestones.len() - 1 {
        lemma_bps_at_most_total(milestones.drop_last(), index);
    }
}

/// A sum of basis points is never negative.
pub proof fn lemma_total_bps_nonnegative(milestones: Seq<Milestone>)
    ensures
        0 <= total_bps(milestones),
    decreases milestones.len(),
{
    if milestones.len() > 0 {
        lemma_total_bps_nonnegative(milestones.drop_last());
    }
}

/// Of a non-negative total, neither sum of shares is negative, and the two
/// together miss the exact proportion `total * total_bps / 10000` by less
/// than one unit for each milestone, never exceeding it.
pub proof fn lemma_shares_bounds(total: int, milestones: Seq<Milestone>)
    requires
        0 <= total,
    ensures
        0 <= shares(total, milestones, true),
        0 <= shares(total, milestones, false),
        10_000 * (shares(total, milestones, true) + shares(total, milestones, false)) <= total
            * total_bps(milestones),
        total * total_bps(milestones) <= 10_000 * (shares(total, milestones, true) + shares(
            total,
            milestones,
            false,
        )) + 9_999 * milestones.len(),
    decreases milestones.len(),
{
    if milestones.len() > 0 {
        let rest = milestones.drop_last();
        let last = milestones.last();
        lemma_shares_bounds(total, rest);
        lemma_share_rounding(total, last.bps as int);
        assert(total * (total_bps(rest) + last.bps) == total * total_bps(rest) + total * last.bps)
            by (nonlinear_arith);
    } else {
        assert(total * 0 == 0);
    }
}

/// Conservation, for any list of milestones whose basis points add up to the
/// whole: the resolved and the unresolved shares of a non-negative total add
/// up to the total less a rounding drift of at most one unit for each
/// milestone but one.
pub proof fn lemma_shares_conserve(total: int, milestones: Seq<Milestone>)
    requires
        0 <= total,
        milestones.len() >= 1,
        total_bps(milestones) == 10_000,
    ensures
        total - (milestones.len() - 1) <= shares(total, milestones, true) + shares(
            total,
            milestones,
            false,
        ) <= total,
{
    lemma_shares_bounds(total, milestones);
}

/// Where a milestone with a share is not resolved, the resolved shares of a
/// positive total stay below the total.
pub proof fn lemma_resolved_below_total(total: int, milestones: Seq<Milestone>, index: int)
    requires
        0 < total,
        0 <= index < milestones.len(),
        total_bps(milestones) == 10_000,
        milestones[index].bps > 0,
        !milestones[index].status.resolved(),
    ensures
        shares(total, milestones, true) < total,
{
    // Count the unresolved milestone as if it had no share: the resolved
    // shares stay the same, and the basis points drop below the whole.
    let without = Milestone { bps: 0, ..milestones[index] };
    let reduced = milestones.update(index, without);
    lemma_shares_update(total, milestones, index, without, true);
    lemma_total_bps_update(milestones, index, without);
    lemma_shares_bounds(total, reduced);
    let bps = total_bps(reduced);
    assert(bps <= 9_999);
    assert(total * bps <= total * 9_999) by (nonlinear_arith)
        requires
            0 < total,
            bps <= 9_999,
    ;
}

} // verus!
