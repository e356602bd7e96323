//! The data model: account identifiers, block numbers, the quota record and
//! the limits it is held to.

use vstd::prelude::*;

verus! {

/// Identifies an account.
pub type AccountId = u64;

/// The host's time coordinate. It never decreases.
pub type BlockNumber = u64;

/// Whether quota enforcement applies to an account.
#[derive(Clone, Copy, Debug, PartialEq, Eq, Structural)]
pub enum Status {
    /// The account is held to the per-window limits.
    Limited,
    /// The account is exempt from the limits.
    Unlimited,
}

impl Default for Status {
    fn default() -> (status: Self)
        ensures
            status == Status::Limited,
    {
        Status::Limited
    }
}

/// What an account has consumed in its current window.
#[derive(Clone, Copy, Debug, PartialEq, Eq, Structural)]
pub struct Rate {
    /// Block at which the current window began.
    pub last_block: BlockNumber,
    /// Transactions admitted since `last_block`.
    pub tx_since_last: u32,
    /// Total size of the transactions admitted since `last_block`.
    pub size_since_last: u32,
    /// Whether the limits apply to this account.
    pub status: Status,
}

impl Rate {
    /// The record of an account that has not been seen yet.
    pub open spec fn fresh() -> Rate {
        Rate { last_block: 0, tx_since_last: 0, size_since_last: 0, status: Status::Limited }
    }

    /// This record under another status, the counters and the window kept.
    pub open spec fn with_status(self, status: Status) -> Rate {
        Rate { status, ..self }
    }
}

impl Default for Rate {
    fn default() -> (rate: Self)
        ensures
            rate == Rate::fresh(),
    {
        Rate { last_block: 0, tx_since_last: 0, size_since_last: 0, status: Status::Limited }
    }
}

/// The limits of a deployment. They are fixed when the controller is built.
#[derive(Clone, Copy, Debug, PartialEq, Eq, Structural)]
pub struct Config {
    /// Most transactions an account may have admitted inside one window.
    pub max_tx_by_period: u32,
    /// Bound on the total size an account may have admitted inside one window.
    pub max_size_by_period: u32,
    /// Length of a window, in blocks.
    pub period: u32,
}

/// Why a request was turned down.
#[derive(Clone, Copy, Debug, PartialEq, Eq, Structural)]
pub enum Error {
    /// The account whose status was to be set has no record.
    StatusNotChanged,
    /// The account has used up its quota for the current window.
    ExhaustsResources,
    /// The caller does not hold the capability that the call asks for.
    BadOrigin,
}

} // verus!
