//! The window policy: whether a transaction may be admitted, and what the
//! record of its account holds once it has been.

use crate::convert::{capped, saturated_into_u32};
use crate::types::{BlockNumber, Config, Rate, Status};
use vstd::prelude::*;

verus! {

/// Blocks gone by at `now` since `since`; none where `now` lies before it.
pub open spec fn elapsed(now: BlockNumber, since: BlockNumber) -> int {
    if now >= since {
        now - since
    } else {
        0
    }
}

impl Rate {
    /// Whether `now` still lies inside the window that began at `last_block`.
    pub open spec fn in_window(self, now: BlockNumber, config: Config) -> bool {
        elapsed(now, self.last_block) < config.period
    }
}

/// Rate-limiting behaviour of a per-account record.
pub trait RateLimiter: Sized {
    /// Whether the record admits a transaction of `size` bytes at block `b`.
    spec fn admits(&self, b: BlockNumber, size: u32, config: Config) -> bool;

    /// The record once such a transaction has been admitted.
    spec fn after_admission(&self, b: BlockNumber, size: u32, config: Config) -> Self;

    /// Checks if a transaction is allowed for the current block.
    fn is_allowed(&self, b: BlockNumber, size: u32, config: &Config) -> (allowed: bool)
        ensures
            allowed == self.admits(b, size, *config),
    ;

    /// Updates the rate limiter after a transaction.
    fn update_rate(&mut self, b: BlockNumber, size: u32, config: &Config)
        ensures
            *final(self) == old(self).after_admission(b, size, *config),
    ;
}

/// Whether block `b` lies inside the window of `period` blocks that began at
/// `last_block`.
fn within_period(b: BlockNumber, last_block: BlockNumber, period: u32) -> (inside: bool)
    ensures
        inside == (elapsed(b, last_block) < period),
{
    saturated_into_u32(b.saturating_sub(last_block)) < period
}

impl RateLimiter for Rate {
    /// An unlimited account is always admitted. Inside the window both limits
    /// hold: the count so far lies under the one, and the size so far together
    /// with the new size, as a sum of integers, under the other. Once the
    /// window has elapsed only the new size is held against the size limit.
    open spec fn admits(&self, b: BlockNumber, size: u32, config: Config) -> bool {
        if self.status == Status::Unlimited {
            true
        } else if self.in_window(b, config) {
            self.tx_since_last < config.max_tx_by_period && self.size_since_last + size
                < config.max_size_by_period
        } else {
            size < config.max_size_by_period
        }
    }

    /// Inside the window the counters grow by the transaction, each held at
    /// `u32::MAX`. Once the window has elapsed a new one begins at `b` and
    /// holds this transaction alone.
    open spec fn after_admission(&self, b: BlockNumber, size: u32, config: Config) -> Rate {
        if self.in_window(b, config) {
            Rate {
                tx_since_last: capped(self.tx_since_last + 1) as u32,
                size_since_last: capped(self.size_since_last + size) as u32,
                ..*self
            }
        } else {
            Rate { last_block: b, tx_since_last: 1, size_since_last: size, ..*self }
        }
    }

    fn is_allowed(&self, b: BlockNumber, size: u32, config: &Config) -> (allowed: bool)
        ensures
            self.status == Status::Unlimited ==> allowed,
    {
        if self.status == Status::Unlimited {
            true
        } else if within_period(b, self.last_block, config.period) {
            self.tx_since_last < config.max_tx_by_period && self.size_since_last.saturating_add(
                size,
            ) < config.max_size_by_period
        } else {
            size < config.max_size_by_period
        }
    }

    fn update_rate(&mut self, b: BlockNumber, size: u32, config: &Config) {
        if within_period(b, self.last_block, config.period) {
            self.tx_since_last = self.tx_since_last.saturating_add(1);
            self.size_since_last = self.size_since_last.saturating_add(size);
        } else {
            self.tx_since_last = 1;
            self.size_since_last = size;
            self.last_block = b;
        }
    }
}

} // verus!
