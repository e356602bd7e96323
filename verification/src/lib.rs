//! A per-account admission quota: how many transactions, and how many bytes of
//! them, an account may submit inside one window of blocks.
//!
//! [`Rate`] is the record kept for each account and [`RateLimiter`] the window
//! policy over it. [`CheckRate`] runs the check, reserve and commit phases
//! around a transaction against an [`AccountStore`], and [`Pallet`] holds the
//! administrative call that lifts or restores the limits of one account.

pub mod convert;
pub mod extensions;
pub mod laws;
pub mod limiter;
pub mod origin;
pub mod pallet;
pub mod store;
pub mod types;

pub use extensions::{CheckRate, Pre, Val};
pub use limiter::RateLimiter;
pub use origin::{ensure_root, ensure_signed, RawOrigin};
pub use pallet::{Event, Pallet};
pub use store::AccountStore;
pub use types::{AccountId, BlockNumber, Config, Error, Rate, Status};
