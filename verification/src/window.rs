//! The dispute window: the time after a milestone's completion during which
//! the client may dispute it, and after which anyone may release it.

use vstd::prelude::*;
use crate::errors::Error;

verus! {

/// How a milestone's dispute window stands at some moment.
#[derive(Clone, Copy, Debug, PartialEq, Eq, Structural)]
pub enum Window {
    /// The escrow has no dispute window: only the client can release.
    Absent,
    /// The deadline lies ahead by the given number of seconds.
    Open { remaining: u64 },
    /// The deadline has been reached.
    Closed,
}

/// The moment at which the window of a milestone completed at `completed_at`
/// closes.
pub open spec fn deadline(completed_at: u64, dispute_window: u64) -> int {
    completed_at + dispute_window
}

/// The window of a milestone completed at `completed_at`, seen at `now`.
pub open spec fn window_at(completed_at: u64, dispute_window: u64, now: u64) -> Window {
    if dispute_window == 0 {
        Window::Absent
    } else if now < deadline(completed_at, dispute_window) {
        Window::Open { remaining: (deadline(completed_at, dispute_window) - now) as u64 }
    } else {
        Window::Closed
    }
}

/// The seconds until a milestone completed at `completed_at` can be released
/// by anyone: zero where there is no window or it has closed.
pub open spec fn seconds_left(completed_at: u64, dispute_window: u64, now: u64) -> int {
    if dispute_window != 0 && now < deadline(completed_at, dispute_window) {
        deadline(completed_at, dispute_window) - now
    } else {
        0
    }
}

/// The window of a milestone completed at `completed_at`, seen at `now`.
/// Fails with `Overflow` where a window exists and its deadline does not fit.
pub fn window_state(completed_at: u64, dispute_window: u64, now: u64) -> (r: Result<Window, Error>)
    ensures
        r == if dispute_window != 0 && deadline(completed_at, dispute_window) > u64::MAX {
            Err::<Window, Error>(Error::Overflow)
        } else {
            Ok(window_at(completed_at, dispute_window, now))
        },
{
    if dispute_window == 0 {
        return Ok(Window::Absent);
    }
    match completed_at.checked_add(dispute_window) {
        None => Err(Error::Overflow),
        Some(end) => {
            if now < end {
                Ok(Window::Open { remaining: end - now })
            } else {
                Ok(Window::Closed)
            }
        },
    }
}

/// What `window_at` reports and `seconds_left` agree.
pub proof fn lemma_seconds_left_matches_window(completed_at: u64, dispute_window: u64, now: u64)
    requires
        deadline(completed_at, dispute_window) <= u64::MAX,
    ensures
        match window_at(completed_at, dispute_window, now) {
            Window::Open { remaining } => remaining == seconds_left(
                completed_at,
                dispute_window,
                now,
            ) && remaining > 0,
            _ => seconds_left(completed_at, dispute_window, now) == 0,
        },
{
}

} // verus!
