use vstd::prelude::*;

use crate::error::StakingError;
use crate::pubkey::Pubkey;

verus! {

/// Per-staker aggregate: the sum of the reward rates of all of this staker's
/// running receipts, the accrued-but-unclaimed reward total, and the time up
/// to which that total is exact.
///
/// A farmer is mutated only through the flush-then-adjust protocol: every
/// rate change is preceded by [`Farmer::update_accrued_rewards`], so
/// `accrued_rewards` is always the exact time-weighted sum of the rates that
/// were in force, up to `last_update_ts`.
#[derive(Clone, Copy, Debug, PartialEq, Eq, Structural)]
pub struct Farmer {
    /// The farm this farmer stakes in.
    pub farm: Pubkey,
    /// The staker that owns this aggregate.
    pub owner: Pubkey,
    /// Sum of `reward_rate` over all of this staker's running receipts.
    pub reward_rate: u64,
    /// Reward accrued and not yet claimed; exact up to `last_update_ts`.
    pub accrued_rewards: u64,
    /// The time up to which `accrued_rewards` has been brought current.
    pub last_update_ts: u64,
}

impl Farmer {
    /// The accrual flush at time `now` is well-defined: the clock did not run
    /// backwards, and the pending reward fits in `u64` arithmetic.
    pub open spec fn flush_ok(self, now: u64) -> bool {
        &&& self.last_update_ts <= now
        &&& self.accrued_rewards + (now - self.last_update_ts) * self.reward_rate <= u64::MAX
    }

    /// The farmer after flushing pending accrual at time `now`: the reward for
    /// the elapsed interval at the current rate is added to the accrued total,
    /// and the total is now exact up to `now`.
    pub open spec fn flushed(self, now: u64) -> Farmer {
        Farmer {
            accrued_rewards: (self.accrued_rewards
                + (now - self.last_update_ts) * self.reward_rate) as u64,
            last_update_ts: now,
            ..self
        }
    }

    /// The farmer with its aggregate rate raised by `delta`.
    pub open spec fn with_rate_increased(self, delta: u64) -> Farmer {
        Farmer { reward_rate: (self.reward_rate + delta) as u64, ..self }
    }

    /// The farmer with its aggregate rate lowered by `delta`.
    pub open spec fn with_rate_decreased(self, delta: u64) -> Farmer {
        Farmer { reward_rate: (self.reward_rate - delta) as u64, ..self }
    }

    /// Flush pending accrual: add `(now - last_update_ts) * reward_rate` to
    /// `accrued_rewards` and mark the total exact up to `now`.
    ///
    /// Fails with an arithmetic error — leaving the farmer untouched — if the
    /// clock ran backwards or either checked operation would overflow. Callers
    /// that are about to change a reward rate must call this first and abort
    /// on failure, so that the old rate is applied to exactly the time it was
    /// in force.
    pub fn update_accrued_rewards(&mut self, now: u64) -> (r: Result<(), StakingError>)
        ensures
            r is Ok <==> old(self).flush_ok(now),
            r is Ok ==> *final(self) == old(self).flushed(now),
            r is Err ==> *final(self) == *old(self)
                && r == Err::<(), StakingError>(StakingError::ArithmeticError),
            final(self).accrued_rewards >= old(self).accrued_rewards,
            final(self).reward_rate == old(self).reward_rate,
    {
        let elapsed = match now.checked_sub(self.last_update_ts) {
            Some(e) => e,
            None => return Err(StakingError::ArithmeticError),
        };
        let pending = match elapsed.checked_mul(self.reward_rate) {
            Some(p) => p,
            None => return Err(StakingError::ArithmeticError),
        };
        let total = match self.accrued_rewards.checked_add(pending) {
            Some(t) => t,
            None => return Err(StakingError::ArithmeticError),
        };
        self.accrued_rewards = total;
        self.last_update_ts = now;
        Ok(())
    }

    /// Raise the aggregate rate by `delta`, the rate a receipt of this staker
    /// just gained. Fails with an arithmetic error — leaving the farmer
    /// untouched — on overflow.
    pub fn increase_reward_rate(&mut self, delta: u64) -> (r: Result<(), StakingError>)
        ensures
            r is Ok <==> old(self).reward_rate + delta <= u64::MAX,
            r is Ok ==> *final(self) == old(self).with_rate_increased(delta),
            r is Err ==> *final(self) == *old(self)
                && r == Err::<(), StakingError>(StakingError::ArithmeticError),
    {
        match self.reward_rate.checked_add(delta) {
            Some(v) => {
                self.reward_rate = v;
                Ok(())
            },
            None => Err(StakingError::ArithmeticError),
        }
    }

    /// Lower the aggregate rate by `delta`, the rate a receipt of this staker
    /// just lost. A `delta` above the current rate signals an invariant
    /// violation upstream: it fails with an arithmetic error rather than
    /// clamping to zero, leaving the farmer untouched.
    pub fn decrease_reward_rate(&mut self, delta: u64) -> (r: Result<(), StakingError>)
        ensures
            r is Ok <==> delta <= old(self).reward_rate,
            r is Ok ==> *final(self) == old(self).with_rate_decreased(delta),
            r is Err ==> *final(self) == *old(self)
                && r == Err::<(), StakingError>(StakingError::ArithmeticError),
    {
        match self.reward_rate.checked_sub(delta) {
            Some(v) => {
                self.reward_rate = v;
                Ok(())
            },
            None => Err(StakingError::ArithmeticError),
        }
    }
}

/// Flushing is idempotent: once a farmer is current up to `now`, flushing
/// again at `now` is well-defined and changes nothing, because no time has
/// elapsed at any rate.
pub proof fn lemma_flush_idempotent(f: Farmer, now: u64)
    requires
        f.flush_ok(now),
    ensures
        f.flushed(now).flush_ok(now),
        f.flushed(now).flushed(now) == f.flushed(now),
{
    let g = f.flushed(now);
    assert((now - g.last_update_ts) * g.reward_rate == 0) by (nonlinear_arith)
        requires g.last_update_ts == now;
}

} // verus!
