//! The records that an escrow is made of.

use vstd::prelude::*;

verus! {

/// Where an escrow stands as a whole.
#[derive(Clone, Copy, Debug, PartialEq, Eq, Structural)]
pub enum EscrowStatus {
    /// Milestones can still be completed and released.
    Active,
    /// Every milestone has been released or refunded.
    Completed,
    /// The client cancelled and took back what was not released.
    Cancelled,
}

/// Where a single milestone stands.
#[derive(Clone, Copy, Debug, PartialEq, Eq, Structural)]
pub enum MilestoneStatus {
    /// The work has not been attested yet.
    Pending,
    /// The backend attested the work; the share waits for approval or for the
    /// dispute window to pass.
    PendingRelease,
    /// The share was paid to the developer.
    Released,
    /// The client disputed the milestone; its share is frozen.
    Disputed,
    /// The share went back to the client.
    Refunded,
}

impl MilestoneStatus {
    /// The milestone's share has left the escrow for good.
    pub open spec fn resolved(self) -> bool {
        self == MilestoneStatus::Released || self == MilestoneStatus::Refunded
    }

    /// The milestone is under review: attested and neither paid nor refunded.
    pub open spec fn in_flight(self) -> bool {
        self == MilestoneStatus::PendingRelease || self == MilestoneStatus::Disputed
    }

    /// Whether the milestone's share has left the escrow for good.
    pub fn is_resolved(self) -> (r: bool)
        ensures
            r == self.resolved(),
    {
        match self {
            MilestoneStatus::Released | MilestoneStatus::Refunded => true,
            _ => false,
        }
    }

    /// Whether the milestone is under review.
    pub fn is_in_flight(self) -> (r: bool)
        ensures
            r == self.in_flight(),
    {
        match self {
            MilestoneStatus::PendingRelease | MilestoneStatus::Disputed => true,
            _ => false,
        }
    }
}

/// One of the parties that an escrow moves funds between.
#[derive(Clone, Copy, Debug, PartialEq, Eq, Structural)]
pub enum Party {
    /// Deposits the funds and approves releases.
    Client,
    /// Receives a milestone's share when it is released.
    Developer,
    /// Attests completion, arbitrates disputes and receives the platform fee.
    Backend,
    /// The escrow's own custody.
    Escrow,
}

/// An identity as the surrounding ledger writes it. The escrow stores
/// identities and hands them back; it never looks inside one.
#[derive(Debug, PartialEq, Eq)]
pub struct Address {
    pub key: String,
}

impl Clone for Address {
    fn clone(&self) -> (copy: Self)
        ensures
            copy == *self,
    {
        Address { key: self.key.clone() }
    }
}

/// A unit of work with its share of the escrow's funds.
#[derive(Debug, PartialEq, Eq)]
pub struct Milestone {
    /// A title for people to read.
    pub title: String,
    /// The keyword by which the backend recognizes the work.
    pub trigger_keyword: String,
    /// The milestone's share of the total amount, in basis points.
    pub bps: u32,
    /// Where the milestone stands.
    pub status: MilestoneStatus,
    /// The evidence that the backend gave when it attested the work.
    pub pr_url: Option<String>,
    /// When the backend attested the work, in seconds.
    pub completed_at: Option<u64>,
}

impl Milestone {
    /// A milestone as it is before any work was attested.
    pub open spec fn fresh(self) -> bool {
        &&& self.status == MilestoneStatus::Pending
        &&& self.pr_url is None
        &&& self.completed_at is None
    }

    /// The same milestone in another status.
    pub open spec fn with_status(self, status: MilestoneStatus) -> Milestone {
        Milestone { status, ..self }
    }

    /// The milestone once the backend has attested it at `now`.
    pub open spec fn attested(self, pr_url: String, now: u64) -> Milestone {
        Milestone {
            status: MilestoneStatus::PendingRelease,
            pr_url: Some(pr_url),
            completed_at: Some(now),
            ..self
        }
    }
}

impl Clone for Milestone {
    fn clone(&self) -> (copy: Self)
        ensures
            copy == *self,
    {
        Milestone {
            title: self.title.clone(),
            trigger_keyword: self.trigger_keyword.clone(),
            bps: self.bps,
            status: self.status,
            pr_url: match &self.pr_url {
                Some(url) => Some(url.clone()),
                None => None,
            },
            completed_at: self.completed_at,
        }
    }
}

} // verus!
