//! A reader-writer lock that admits any number of exclusive acquisitions
//! until it is fused, and from then on only shared access.
mod outside;
pub mod guard;
pub mod history;
pub mod lock;
pub mod phase;

pub use guard::{FusedRwLockGuard, FusedRwLockReadGuard};
pub use lock::FusedRwLock;
pub use phase::{Admission, Phase};
