//! A daily streak-reward ledger.
//!
//! A user may claim a reward once every 24 hours. Claims made within 48 hours
//! of the previous one extend the user's streak; the reward doubles with the
//! streak up to a cap, and a few streak lengths and identifiers earn extras.
//!
//! [`StreakContract`] serves claims and queries over a [`RecordStore`];
//! [`UserRecord::claim`] is the transition on one user's record that it
//! applies. The module `laws` proves what holds of every claim.

pub mod contract;
pub mod laws;
pub mod presentation;
pub mod record;
pub mod rules;
pub mod store;
pub mod text;

pub use contract::{LedgerError, StreakContract};
pub use record::{ClaimResult, UserRecord};
pub use store::{MemoryStore, RecordStore, StoreError};
