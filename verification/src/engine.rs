//! The accrual engine: the one-time initialization and the four public
//! operations — stake, unstake, forced exit, and the read-only query.
//!
//! Every operation either takes full effect or leaves the ledger exactly as
//! it was: balances are checked before anything is written, so a failed call
//! commits no partial state. Custody of the actual token units is the
//! hosting environment's collaborator; the engine is handed the wall-clock
//! time and the vault balance as plain values and owns only the ledger.

use vstd::prelude::*;
use crate::math::{capped_elapsed_seconds, pow10_u128, MAX_DECIMALS};
use crate::state::{
    lemma_accrual_bounds, lemma_max_devotion_monotone, Devoted, ErrorCode, StakeState,
    TotalDevoted,
};

verus! {

/// The accrual calculator: reward newly earned by `amount` staked units over
/// the wall-clock window from `last` to `now`, computed in the wide domain
/// so the product of a full `u64` balance and a full cap window cannot
/// overflow.
pub fn accrue(state: &StakeState, amount: u64, last: i64, now: i64) -> (r: u128)
    requires
        state.wf(),
    ensures
        r == state.accrued(amount, last as int, now as int),
{
    let capped: i64 = capped_elapsed_seconds(now, last, state.max_devotion_charge);
    let scale: u128 = pow10_u128(state.decimals);
    proof {
        vstd::arithmetic::mul::lemma_mul_upper_bound(
            amount as int,
            u64::MAX as int,
            capped as int,
            i64::MAX as int,
        );
    }
    let product: u128 = (amount as u128) * (capped as u128);
    (product / scale) / (state.interval as u128)
}

/// The reward ceiling for `amount` staked units: what a full cap window
/// earns. The carried residual is clamped to this value on every restake.
pub fn max_reward_for(state: &StakeState, amount: u64) -> (r: u128)
    requires
        state.wf(),
    ensures
        r == state.max_devotion(amount),
{
    let scale: u128 = pow10_u128(state.decimals);
    proof {
        vstd::arithmetic::mul::lemma_mul_upper_bound(
            amount as int,
            u64::MAX as int,
            state.max_devotion_charge as int,
            i64::MAX as int,
        );
    }
    let product: u128 = (amount as u128) * (state.max_devotion_charge as u128);
    (product / scale) / (state.interval as u128)
}

/// One-time setup: validates the policy and returns it together with an
/// empty aggregate ledger. A non-positive divisor or a scale outside the
/// wide arithmetic domain is rejected here, failing closed, so that no
/// later operation can hit a division by zero or a truncated cap.
pub fn initialize(
    admin: u64,
    stake_mint: u64,
    decimals: u8,
    interval: i64,
    max_devotion_charge: i64,
) -> (r: Result<(StakeState, TotalDevoted), ErrorCode>)
    ensures
        r is Ok <==> (0 < interval && 0 < max_devotion_charge && decimals <= MAX_DECIMALS),
        r matches Ok(p) ==> ({
            &&& p.0 == (StakeState { admin, stake_mint, interval, max_devotion_charge, decimals })
            &&& p.0.wf()
            &&& p.1.total_tokens == 0
        }),
        r matches Err(e) ==> e == (if interval <= 0 {
            ErrorCode::InvalidInterval
        } else if max_devotion_charge <= 0 {
            ErrorCode::InvalidMaxDevotionCharge
        } else {
            ErrorCode::MaxDevotionOverflow
        }),
{
    if interval <= 0 {
        return Err(ErrorCode::InvalidInterval);
    }
    if max_devotion_charge <= 0 {
        return Err(ErrorCode::InvalidMaxDevotionCharge);
    }
    if decimals > MAX_DECIMALS {
        return Err(ErrorCode::MaxDevotionOverflow);
    }

    // The cap-overflow guard: the worst-case ceiling — a full `u64` balance
    // held for a full cap window — must stay inside the wide domain. With
    // the divisors already validated, each step is provably in range.
    let decimals_multiplier: u128 = pow10_u128(decimals);
    let worst_numerator: u128 = match (u64::MAX as u128).checked_mul(
        max_devotion_charge as u128,
    ) {
        Some(w) => w,
        None => {
            return Err(ErrorCode::MaxDevotionOverflow);
        },
    };
    let worst_scaled: u128 = match worst_numerator.checked_div(decimals_multiplier) {
        Some(w) => w,
        None => {
            return Err(ErrorCode::DivError);
        },
    };
    let _worst_cap: u128 = match worst_scaled.checked_div(interval as u128) {
        Some(w) => w,
        None => {
            return Err(ErrorCode::DivError);
        },
    };

    let state = StakeState { admin, stake_mint, interval, max_devotion_charge, decimals };
    let total_devoted = TotalDevoted { total_tokens: 0 };
    Ok((state, total_devoted))
}

/// Stake: move `amount` fresh units into the user's position.
///
/// On an active entry the elapsed reward is first folded into the carry,
/// clamped to the cap for the amount that was staked during the window; a
/// fresh entry is bound to `user` instead. Then the staked balance and the
/// aggregate grow by `amount` in the same step. A zero amount or a balance
/// that would wrap is rejected with nothing written.
pub fn devote(
    state: &StakeState,
    devoted: &mut Devoted,
    total_devoted: &mut TotalDevoted,
    user: u64,
    amount: u64,
    now: i64,
) -> (r: Result<(), ErrorCode>)
    requires
        state.wf(),
        old(devoted).wf(*state),
    ensures
        r is Ok <==> (0 < amount && old(devoted).amount + amount <= u64::MAX
            && old(total_devoted).total_tokens + amount <= u64::MAX),
        r is Ok ==> ({
            &&& final(devoted).user == (if old(devoted).amount > 0 {
                old(devoted).user
            } else {
                user
            })
            &&& final(devoted).amount == old(devoted).amount + amount
            &&& final(devoted).residual_devotion == old(devoted).folded_residual(
                *state,
                now as int,
            )
            &&& final(devoted).last_stake_timestamp == now
            &&& final(devoted).wf(*state)
            &&& final(total_devoted).total_tokens == old(total_devoted).total_tokens + amount
        }),
        r matches Err(e) ==> ({
            &&& *final(devoted) == *old(devoted)
            &&& *final(total_devoted) == *old(total_devoted)
            &&& e == (if amount == 0 {
                ErrorCode::AmountZero
            } else {
                ErrorCode::MathOverflow
            })
        }),
{
    if amount == 0 {
        return Err(ErrorCode::AmountZero);
    }

    // Check both balance updates up front: a failure must leave no trace.
    let new_amount: u64 = match devoted.amount.checked_add(amount) {
        Some(v) => v,
        None => {
            return Err(ErrorCode::MathOverflow);
        },
    };
    let new_total: u64 = match total_devoted.total_tokens.checked_add(amount) {
        Some(v) => v,
        None => {
            return Err(ErrorCode::MathOverflow);
        },
    };

    if devoted.amount > 0 {
        let earned: u128 = accrue(state, devoted.amount, devoted.last_stake_timestamp, now);
        let cap: u128 = max_reward_for(state, devoted.amount);
        proof {
            lemma_accrual_bounds(
                *state,
                devoted.amount,
                devoted.last_stake_timestamp as int,
                now as int,
            );
        }
        let current: u128 = devoted.residual_devotion + earned;
        devoted.residual_devotion = if current < cap {
            current
        } else {
            cap
        };
    } else {
        devoted.user = user;
    }

    proof {
        lemma_max_devotion_monotone(*state, devoted.amount, new_amount);
        lemma_accrual_bounds(*state, new_amount, 0, 0);
    }
    devoted.amount = new_amount;
    devoted.last_stake_timestamp = now;
    total_devoted.total_tokens = new_total;
    Ok(())
}

/// Unstake: withdraw `amount` units from the user's position.
///
/// Withdrawal, partial or full, forfeits the entire unredeemed carry — the
/// residual is reset to zero, not reduced pro rata — and stamps the entry
/// with the current time. The staked balance and the aggregate shrink by
/// `amount` in the same step. A zero amount, an amount beyond the staked
/// balance, or an aggregate that would go negative is rejected with nothing
/// written.
pub fn waver(
    state: &StakeState,
    devoted: &mut Devoted,
    total_devoted: &mut TotalDevoted,
    amount: u64,
    now: i64,
) -> (r: Result<(), ErrorCode>)
    requires
        state.wf(),
        old(devoted).wf(*state),
    ensures
        r is Ok <==> (0 < amount && amount <= old(devoted).amount
            && amount <= old(total_devoted).total_tokens),
        r is Ok ==> ({
            &&& final(devoted).user == old(devoted).user
            &&& final(devoted).amount == old(devoted).amount - amount
            &&& final(devoted).residual_devotion == 0
            &&& final(devoted).last_stake_timestamp == now
            &&& final(devoted).wf(*state)
            &&& final(total_devoted).total_tokens == old(total_devoted).total_tokens - amount
        }),
        r matches Err(e) ==> ({
            &&& *final(devoted) == *old(devoted)
            &&& *final(total_devoted) == *old(total_devoted)
            &&& e == (if amount == 0 {
                ErrorCode::AmountZero
            } else if amount > old(devoted).amount {
                ErrorCode::InsufficientFunds
            } else {
                ErrorCode::MathUnderflow
            })
        }),
{
    if amount == 0 {
        return Err(ErrorCode::AmountZero);
    }
    let new_amount: u64 = match devoted.amount.checked_sub(amount) {
        Some(v) => v,
        None => {
            return Err(ErrorCode::InsufficientFunds);
        },
    };
    let new_total: u64 = match total_devoted.total_tokens.checked_sub(amount) {
        Some(v) => v,
        None => {
            return Err(ErrorCode::MathUnderflow);
        },
    };

    proof {
        lemma_accrual_bounds(*state, new_amount, 0, 0);
    }
    devoted.amount = new_amount;
    devoted.residual_devotion = 0;
    devoted.last_stake_timestamp = now;
    total_devoted.total_tokens = new_total;
    Ok(())
}

/// Forced exit: the emergency path that empties the vault and closes the
/// entry unconditionally, crediting no accrual and discarding any carry.
///
/// The engine is handed the vault balance as a plain value; the custody
/// collaborator transfers exactly that balance back to the user. The
/// aggregate shrinks by the vault balance, and the entry is left closed:
/// nothing staked, nothing carried, the timestamp untouched.
pub fn heresy(
    devoted: &mut Devoted,
    total_devoted: &mut TotalDevoted,
    vault_amount: u64,
) -> (r: Result<(), ErrorCode>)
    ensures
        r is Ok <==> (0 < vault_amount && 0 < old(devoted).amount
            && vault_amount <= old(total_devoted).total_tokens),
        r is Ok ==> ({
            &&& final(devoted).user == old(devoted).user
            &&& final(devoted).amount == 0
            &&& final(devoted).residual_devotion == 0
            &&& final(devoted).last_stake_timestamp == old(devoted).last_stake_timestamp
            &&& final(total_devoted).total_tokens == old(total_devoted).total_tokens
                - vault_amount
            &&& forall|s: StakeState| s.wf() ==> final(devoted).wf(s)
        }),
        r matches Err(e) ==> ({
            &&& *final(devoted) == *old(devoted)
            &&& *final(total_devoted) == *old(total_devoted)
            &&& e == (if vault_amount == 0 {
                ErrorCode::VaultZero
            } else if old(devoted).amount == 0 {
                ErrorCode::DevotionZero
            } else {
                ErrorCode::MathUnderflow
            })
        }),
{
    if vault_amount == 0 {
        return Err(ErrorCode::VaultZero);
    }
    if devoted.amount == 0 {
        return Err(ErrorCode::DevotionZero);
    }
    let new_total: u64 = match total_devoted.total_tokens.checked_sub(vault_amount) {
        Some(v) => v,
        None => {
            return Err(ErrorCode::MathUnderflow);
        },
    };

    devoted.amount = 0;
    devoted.residual_devotion = 0;
    total_devoted.total_tokens = new_total;
    proof {
        assert forall|s: StakeState| s.wf() implies devoted.wf(s) by {
            lemma_accrual_bounds(s, 0, 0, 0);
        }
    }
    Ok(())
}

/// Query: the devotion the entry has earned as of `now` — reward accrued
/// since the last update plus the carry, clamped to the cap for the staked
/// amount. Read-only and side-effect-free: the result is a function of the
/// ledger snapshot and the clock alone, so repeated calls with identical
/// inputs return identical values, and nothing is written back.
pub fn check_devotion(state: &StakeState, devoted: &Devoted, now: i64) -> (r: Result<
    u128,
    ErrorCode,
>)
    requires
        state.wf(),
        devoted.wf(*state),
    ensures
        r matches Ok(v) && v == devoted.devotion(*state, now as int),
{
    let earned: u128 = accrue(state, devoted.amount, devoted.last_stake_timestamp, now);
    let cap: u128 = max_reward_for(state, devoted.amount);
    proof {
        lemma_accrual_bounds(
            *state,
            devoted.amount,
            devoted.last_stake_timestamp as int,
            now as int,
        );
    }
    let total_devotion: u128 = earned + devoted.residual_devotion;
    if total_devotion < cap {
        Ok(total_devotion)
    } else {
        Ok(cap)
    }
}

} // verus!
