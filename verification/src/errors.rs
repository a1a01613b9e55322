//! The closed set of codes with which an operation can fail.

use vstd::prelude::*;

verus! {

/// Why an operation was refused. A refused operation changes nothing.
#[derive(Clone, Copy, Debug, PartialEq, Eq, Structural)]
pub enum Error {
    /// `initialize` was called on an escrow that already exists.
    AlreadyInitialized,
    /// The escrow has not been initialized yet.
    NotInitialized,
    /// The total amount is zero or negative.
    InvalidAmount,
    /// The list of milestones is empty.
    NoMilestones,
    /// More than ten milestones were given.
    TooManyMilestones,
    /// A milestone has no share, or the shares do not add up to 10000 basis points.
    InvalidMilestoneBps,
    /// Every milestone has been resolved; the escrow is done.
    EscrowCompleted,
    /// The client cancelled the escrow.
    EscrowCancelled,
    /// No milestone has the given index.
    MilestoneNotFound,
    /// The milestone has been marked complete before.
    MilestoneAlreadyCompleted,
    /// The milestone is not waiting for release.
    MilestoneNotPendingRelease,
    /// The milestone carries no completion time.
    MilestoneNotCompleted,
    /// The milestone is not under dispute.
    MilestoneNotDisputed,
    /// The escrow has no dispute window, so nothing can be disputed.
    NoDisputeWindow,
    /// The dispute window has not passed yet.
    DisputeWindowOpen,
    /// The dispute window has passed.
    DisputeWindowClosed,
    /// The escrow has no dispute window, so only the client can release.
    ManualApprovalRequired,
    /// A milestone is waiting for release or under dispute.
    CannotCancelWithPendingMilestones,
    /// An amount or a deadline does not fit its integer type.
    Overflow,
}

impl Error {
    /// The number under which the error is reported to callers.
    pub open spec fn code_of(self) -> u32 {
        match self {
            Error::AlreadyInitialized => 1,
            Error::NotInitialized => 2,
            Error::InvalidAmount => 10,
            Error::NoMilestones => 11,
            Error::TooManyMilestones => 12,
            Error::InvalidMilestoneBps => 13,
            Error::EscrowCompleted => 20,
            Error::EscrowCancelled => 21,
            Error::MilestoneNotFound => 30,
            Error::MilestoneAlreadyCompleted => 31,
            Error::MilestoneNotPendingRelease => 32,
            Error::MilestoneNotCompleted => 33,
            Error::MilestoneNotDisputed => 34,
            Error::NoDisputeWindow => 40,
            Error::DisputeWindowOpen => 41,
            Error::DisputeWindowClosed => 42,
            Error::ManualApprovalRequired => 50,
            Error::CannotCancelWithPendingMilestones => 51,
            Error::Overflow => 99,
        }
    }

    /// The number under which the error is reported to callers.
    pub fn code(self) -> (code: u32)
        ensures
            code == self.code_of(),
    {
        match self {
            Error::AlreadyInitialized => 1,
            Error::NotInitialized => 2,
            Error::InvalidAmount => 10,
            Error::NoMilestones => 11,
            Error::TooManyMilestones => 12,
            Error::InvalidMilestoneBps => 13,
            Error::EscrowCompleted => 20,
            Error::EscrowCancelled => 21,
            Error::MilestoneNotFound => 30,
            Error::MilestoneAlreadyCompleted => 31,
            Error::MilestoneNotPendingRelease => 32,
            Error::MilestoneNotCompleted => 33,
            Error::MilestoneNotDisputed => 34,
            Error::NoDisputeWindow => 40,
            Error::DisputeWindowOpen => 41,
            Error::DisputeWindowClosed => 42,
            Error::ManualApprovalRequired => 50,
            Error::CannotCancelWithPendingMilestones => 51,
            Error::Overflow => 99,
        }
    }

    /// No two errors share a code.
    pub proof fn lemma_codes_are_distinct(a: Error, b: Error)
        requires
            a.code_of() == b.code_of(),
        ensures
            a == b,
    {
    }
}

} // verus!
