//! The ledger's data model: the immutable policy, the per-user entry, the
//! aggregate total, and the error taxonomy — together with the spec-level
//! accrual model the engine's contracts are stated over.

use vstd::prelude::*;
use vstd::math::min;
use crate::math::{capped_elapsed, pow10, MAX_DECIMALS};

verus! {

/// Why an operation was rejected. Every failure is terminal for the
/// operation that raised it: no partial state is ever committed.
#[derive(Clone, Copy, Debug, PartialEq, Eq, Structural)]
pub enum ErrorCode {
    /// A stake or unstake was requested with a zero amount.
    AmountZero,
    /// A forced exit found an empty vault.
    VaultZero,
    /// A forced exit found an entry with nothing staked.
    DevotionZero,
    /// A checked addition on a balance would wrap.
    MathOverflow,
    /// A checked subtraction on the aggregate would go negative.
    MathUnderflow,
    /// A withdrawal asked for more than the staked balance.
    InsufficientFunds,
    /// A policy divisor would be zero; rejected at initialization, never
    /// raised at call time.
    DivError,
    /// The policy's unit-time divisor was not positive.
    InvalidInterval,
    /// The policy's cap window was not positive.
    InvalidMaxDevotionCharge,
    /// The policy's scale would push the accrual cap outside the wide
    /// arithmetic domain.
    MaxDevotionOverflow,
}

/// The policy, fixed once at initialization and immutable thereafter.
#[derive(Clone, Copy, Debug, PartialEq, Eq, Structural)]
pub struct StakeState {
    /// Identity of the administrator who initialized the ledger.
    pub admin: u64,
    /// Identity of the token mint whose units may be staked.
    pub stake_mint: u64,
    /// The unit-time divisor: seconds per unit of reward-earning time.
    pub interval: i64,
    /// The cap window in seconds; staked time beyond it earns no further
    /// reward per staked unit.
    pub max_devotion_charge: i64,
    /// Decimal places of the staked token; raw units are scaled down by
    /// `10^decimals` in the accrual formula.
    pub decimals: u8,
}

impl StakeState {
    /// A policy that initialization accepts: positive divisors and a scale
    /// that fits the wide arithmetic domain.
    pub open spec fn wf(self) -> bool {
        &&& 0 < self.interval
        &&& 0 < self.max_devotion_charge
        &&& self.decimals <= MAX_DECIMALS
    }

    /// The fixed-point scale factor `10^decimals`.
    pub open spec fn scale(self) -> int {
        pow10(self.decimals as nat) as int
    }

    /// Reward newly earned by `amount` staked units over the window from
    /// `last` to `now`: the clamped elapsed seconds times the amount, floor
    /// divided by the scale and then by the unit-time divisor.
    pub open spec fn accrued(self, amount: u64, last: int, now: int) -> int {
        (amount as int) * capped_elapsed(now, last, self.max_devotion_charge as int)
            / self.scale() / (self.interval as int)
    }

    /// The asymptotic ceiling on the reward `amount` staked units can carry:
    /// what a full cap window earns.
    pub open spec fn max_devotion(self, amount: u64) -> int {
        (amount as int) * (self.max_devotion_charge as int) / self.scale()
            / (self.interval as int)
    }
}

/// One user's ledger entry: staked balance, carried-over accrued reward, and
/// the timestamp of the last balance-affecting operation.
#[derive(Clone, Copy, Debug, PartialEq, Eq, Structural)]
pub struct Devoted {
    /// Identity of the depositing user, bound on the first stake.
    pub user: u64,
    /// Token units currently held in custody for this user.
    pub amount: u64,
    /// Reward accrued but not yet reflected in a fresh calculation window;
    /// carried across restakes, reset to zero on any withdrawal.
    pub residual_devotion: u128,
    /// Timestamp of the last balance-affecting operation.
    pub last_stake_timestamp: i64,
}

impl Devoted {
    /// The cap invariant: the carried reward never exceeds the ceiling for
    /// the currently staked amount. Every mutation of the entry preserves
    /// it; in particular an entry with nothing staked carries nothing.
    pub open spec fn wf(self, state: StakeState) -> bool {
        self.residual_devotion <= state.max_devotion(self.amount)
    }

    /// What a query reports at time `now`: reward earned since the last
    /// update plus the carry, clamped to the cap for the staked amount.
    pub open spec fn devotion(self, state: StakeState, now: int) -> int {
        min(
            state.accrued(self.amount, self.last_stake_timestamp as int, now)
                + self.residual_devotion,
            state.max_devotion(self.amount),
        )
    }

    /// The carry after the pre-step that every balance change on an active
    /// entry runs first: reward earned over the elapsed window is folded
    /// into the carry, clamped to the cap for the amount staked during that
    /// window. A fresh entry has nothing to fold.
    pub open spec fn folded_residual(self, state: StakeState, now: int) -> int {
        if self.amount > 0 {
            min(
                self.residual_devotion
                    + state.accrued(self.amount, self.last_stake_timestamp as int, now),
                state.max_devotion(self.amount),
            )
        } else {
            self.residual_devotion as int
        }
    }

    /// A fresh, inactive entry for `user`: nothing staked, nothing carried,
    /// and within the accrual cap of any valid policy.
    pub fn new(user: u64) -> (d: Devoted)
        ensures
            d.user == user,
            d.amount == 0,
            d.residual_devotion == 0,
            d.last_stake_timestamp == 0,
            forall|s: StakeState| s.wf() ==> d.wf(s),
    {
        let d = Devoted { user, amount: 0, residual_devotion: 0, last_stake_timestamp: 0 };
        proof {
            assert forall|s: StakeState| s.wf() implies d.wf(s) by {
                lemma_accrual_bounds(s, 0, 0, 0);
            }
        }
        d
    }
}

/// The aggregate ledger: the sum of all staked balances, kept in lockstep
/// with every per-user balance change.
#[derive(Clone, Copy, Debug, PartialEq, Eq, Structural)]
pub struct TotalDevoted {
    /// Token units staked across all ledger entries.
    pub total_tokens: u64,
}

/// Newly earned reward is never negative and never exceeds the cap for the
/// staked amount, and that cap itself sits well inside the wide arithmetic
/// domain: half of it, so that a carry and a fresh accrual always add
/// without overflow.
pub proof fn lemma_accrual_bounds(state: StakeState, amount: u64, last: int, now: int)
    requires
        state.wf(),
    ensures
        0 <= state.accrued(amount, last, now) <= state.max_devotion(amount),
        state.max_devotion(amount) < 0x8000_0000_0000_0000_0000_0000_0000_0000,
{
    let c = capped_elapsed(now, last, state.max_devotion_charge as int);
    let s = state.scale();
    let i = state.interval as int;
    crate::math::lemma_pow10_pos(state.decimals as nat);
    crate::math::lemma_mul_factor_ordered(amount as int, c, state.max_devotion_charge as int);
    vstd::arithmetic::div_mod::lemma_div_is_ordered(
        (amount as int) * c,
        (amount as int) * (state.max_devotion_charge as int),
        s,
    );
    vstd::arithmetic::div_mod::lemma_div_pos_is_pos((amount as int) * c, s);
    vstd::arithmetic::div_mod::lemma_div_pos_is_pos((amount as int) * c / s, i);
    vstd::arithmetic::div_mod::lemma_div_is_ordered(
        (amount as int) * c / s,
        (amount as int) * (state.max_devotion_charge as int) / s,
        i,
    );
    vstd::arithmetic::mul::lemma_mul_upper_bound(
        amount as int,
        u64::MAX as int,
        state.max_devotion_charge as int,
        i64::MAX as int,
    );
    vstd::arithmetic::div_mod::lemma_div_pos_is_pos(
        (amount as int) * (state.max_devotion_charge as int),
        s,
    );
    vstd::arithmetic::div_mod::lemma_div_nonincreasing(
        (amount as int) * (state.max_devotion_charge as int),
        s,
    );
    vstd::arithmetic::div_mod::lemma_div_nonincreasing(
        (amount as int) * (state.max_devotion_charge as int) / s,
        i,
    );
}

/// The reward cap grows (weakly) with the staked amount: staking more never
/// lowers the ceiling, so folding the carry before an amount increase keeps
/// the cap invariant.
pub proof fn lemma_max_devotion_monotone(state: StakeState, a1: u64, a2: u64)
    requires
        state.wf(),
        a1 <= a2,
    ensures
        state.max_devotion(a1) <= state.max_devotion(a2),
{
    let ch = state.max_devotion_charge as int;
    let s = state.scale();
    let i = state.interval as int;
    crate::math::lemma_pow10_pos(state.decimals as nat);
    vstd::arithmetic::mul::lemma_mul_inequality(a1 as int, a2 as int, ch);
    vstd::arithmetic::div_mod::lemma_div_is_ordered((a1 as int) * ch, (a2 as int) * ch, s);
    vstd::arithmetic::div_mod::lemma_div_is_ordered(
        (a1 as int) * ch / s,
        (a2 as int) * ch / s,
        i,
    );
}

} // verus!
