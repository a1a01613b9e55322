//! A milestone-based escrow engine.
//!
//! A client locks funds up front. A trusted backend attests that milestones of
//! work are complete, and each milestone's share of the funds is then paid to
//! the developer: at once when the client approves, or by anyone after a
//! dispute window has passed without a dispute. A disputed milestone is frozen
//! until the backend rules on it.
//!
//! The crate holds the escrow's rules as a state machine over plain values.
//! It performs no transfer and reads no clock: each operation takes the current
//! time where it needs one and returns the transfers and notifications that its
//! caller has to carry out.

pub mod accounting;
pub mod amount;
pub mod effects;
pub mod errors;
pub mod escrow;
pub mod laws;
pub mod model;
pub mod types;
pub mod window;

pub use crate::effects::{Effects, Event, Transfer};
pub use crate::errors::Error;
pub use crate::escrow::{Escrow, StreamEscrow};
pub use crate::model::Operation;
pub use crate::types::{Address, EscrowStatus, Milestone, MilestoneStatus, Party};
pub use crate::window::Window;
