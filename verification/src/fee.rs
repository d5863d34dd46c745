//! Fees and the price of pool tokens.
//!
//! Every conversion rounds in the pool's favour: a deposit mints the largest
//! whole number of tokens that the lamports pay for, a withdrawal pays the
//! largest whole number of lamports that the tokens are worth, and the tokens
//! asked for a given payout are rounded up.

use crate::state::{Fee, StakePool};
use vstd::prelude::*;

verus! {

/// The amount as a 64-bit value, if it is one.
pub open spec fn fits_u64(x: int) -> Option<u64> {
    if 0 <= x <= u64::MAX {
        Some(x as u64)
    } else {
        None
    }
}

/// The fee on `amount` at the ratio `numerator / denominator`, rounded up.
/// A denominator of zero means no fee.
pub open spec fn fee_on(numerator: int, denominator: int, amount: int) -> int {
    if denominator == 0 {
        0
    } else {
        (amount * numerator + denominator - 1) / denominator
    }
}

/// Pool tokens minted for `lamports` while the pool holds `total` lamports
/// against `supply` tokens: one for one while the pool is empty, else in
/// proportion, rounded down.
pub open spec fn tokens_for_deposit(total: int, supply: int, lamports: int) -> int {
    if total == 0 || supply == 0 {
        lamports
    } else {
        lamports * supply / total
    }
}

/// Lamports paid for `tokens` while the pool holds `total` lamports against
/// `supply` tokens: in proportion, rounded down.
pub open spec fn lamports_for_withdraw(total: int, supply: int, tokens: int) -> int {
    if supply == 0 {
        0
    } else {
        tokens * total / supply
    }
}

/// What one pool token is worth in lamports, rounded up, while the pool
/// holds `total` lamports against `supply` tokens; nothing while there are no
/// tokens.
pub open spec fn lamports_per_pool_token(total: int, supply: int) -> int {
    if supply == 0 {
        0
    } else {
        (total + supply - 1) / supply
    }
}

/// The fewest pool tokens that pay out at least `lamports`, where
/// `total > 0`.
pub open spec fn tokens_for_withdraw(total: int, supply: int, lamports: int) -> int {
    (lamports * supply + total - 1) / total
}

/// Pool tokens minted as the fee on `reward` lamports of growth, for a pool
/// that held `total` lamports against `supply` tokens before the growth and
/// charges `fee_lamports` of it. The tokens are priced so that they are
/// worth the fee after they are minted.
pub open spec fn epoch_fee_tokens(total: int, supply: int, reward: int, fee_lamports: int) -> int {
    if reward == 0 {
        0
    } else if total + reward == fee_lamports || supply == 0 {
        reward
    } else {
        supply * fee_lamports / (total + reward - fee_lamports)
    }
}

/// Pool tokens to mint as the epoch fee when a pool that held `total`
/// lamports against `supply` tokens has grown by `reward` lamports: `None`
/// if the fee is more than the growth or the tokens leave the 64-bit range.
pub open spec fn epoch_fee_amount(fee: Fee, total: int, supply: int, reward: int) -> Option<u64> {
    let fee_lamports = fee_on(fee.numerator as int, fee.denominator as int, reward);
    if fee_lamports > reward {
        None
    } else {
        fits_u64(epoch_fee_tokens(total, supply, reward, fee_lamports))
    }
}

proof fn lemma_product_fits(a: int, b: int)
    by (nonlinear_arith)
    requires
        0 <= a <= u64::MAX,
        0 <= b <= u64::MAX,
    ensures
        0 <= a * b <= 0xFFFF_FFFF_FFFF_FFFE_0000_0000_0000_0001,
{
}

/// No fee is charged on nothing.
pub proof fn lemma_fee_on_nothing(numerator: int, denominator: int)
    requires
        0 <= denominator,
    ensures
        fee_on(numerator, denominator, 0) == 0,
{
    if denominator != 0 {
        assert(0 * numerator == 0);
        assert((denominator - 1) / denominator == 0) by (nonlinear_arith)
            requires
                denominator >= 1,
        ;
    }
}

impl Fee {
    /// Whether the ratio is at most one.
    pub open spec fn is_valid(&self) -> bool {
        self.numerator <= self.denominator
    }

    /// Whether the ratio is at most one.
    pub fn check(&self) -> (r: bool)
        ensures
            r == self.is_valid(),
    {
        self.numerator <= self.denominator
    }

    /// The fee on `amount`, rounded up.
    pub fn apply(&self, amount: u64) -> (fee: u128)
        ensures
            fee == fee_on(self.numerator as int, self.denominator as int, amount as int),
    {
        if self.denominator == 0 {
            return 0;
        }
        let a: u128 = amount as u128;
        let n: u128 = self.numerator as u128;
        let d: u128 = self.denominator as u128;
        proof {
            lemma_product_fits(a as int, n as int);
        }
        (a * n + d - 1) / d
    }
}

impl StakePool {
    /// Pool tokens to mint for a deposit of `stake_lamports`, or `None` if
    /// they do not fit in 64 bits.
    pub fn calc_pool_tokens_for_deposit(&self, stake_lamports: u64) -> (r: Option<u64>)
        ensures
            r == fits_u64(
                tokens_for_deposit(
                    self.total_lamports as int,
                    self.pool_token_supply as int,
                    stake_lamports as int,
                ),
            ),
    {
        if self.total_lamports == 0 || self.pool_token_supply == 0 {
            return Some(stake_lamports);
        }
        let l: u128 = stake_lamports as u128;
        let s: u128 = self.pool_token_supply as u128;
        let t: u128 = self.total_lamports as u128;
        proof {
            lemma_product_fits(l as int, s as int);
        }
        let q: u128 = l * s / t;
        if q > u64::MAX as u128 {
            None
        } else {
            Some(q as u64)
        }
    }

    /// Lamports to pay out for `pool_tokens`, or `None` if they do not fit in
    /// 64 bits.
    pub fn calc_lamports_withdraw_amount(&self, pool_tokens: u64) -> (r: Option<u64>)
        ensures
            r == fits_u64(
                lamports_for_withdraw(
                    self.total_lamports as int,
                    self.pool_token_supply as int,
                    pool_tokens as int,
                ),
            ),
    {
        if self.pool_token_supply == 0 {
            return Some(0);
        }
        let p: u128 = pool_tokens as u128;
        let s: u128 = self.pool_token_supply as u128;
        let t: u128 = self.total_lamports as u128;
        proof {
            lemma_product_fits(p as int, t as int);
        }
        let q: u128 = p * t / s;
        if q > u64::MAX as u128 {
            None
        } else {
            Some(q as u64)
        }
    }

    /// What one pool token is worth in lamports, rounded up, or `None` while
    /// there are no pool tokens.
    pub fn get_lamports_per_pool_token(&self) -> (r: Option<u64>)
        ensures
            r == if self.pool_token_supply == 0 {
                None
            } else {
                Some(
                    lamports_per_pool_token(
                        self.total_lamports as int,
                        self.pool_token_supply as int,
                    ) as u64,
                )
            },
            r matches Some(worth) ==> worth == lamports_per_pool_token(
                self.total_lamports as int,
                self.pool_token_supply as int,
            ),
    {
        if self.pool_token_supply == 0 {
            return None;
        }
        let t: u128 = self.total_lamports as u128;
        let s: u128 = self.pool_token_supply as u128;
        let q: u128 = (t + s - 1) / s;
        proof {
            let total = t as int;
            let supply = s as int;
            assert((total + supply - 1) / supply <= total) by (nonlinear_arith)
                requires
                    supply >= 1,
                    total >= 0,
            ;
        }
        Some(q as u64)
    }

    /// The fewest pool tokens whose withdrawal pays at least `lamports`.
    /// `None` if the pool holds no lamports while some are asked for, or if
    /// the tokens do not fit in 64 bits.
    pub fn calc_pool_tokens_for_withdraw(&self, lamports: u64) -> (r: Option<u64>)
        ensures
            r == if self.total_lamports == 0 {
                if lamports == 0 {
                    Some(0u64)
                } else {
                    None
                }
            } else {
                fits_u64(
                    tokens_for_withdraw(
                        self.total_lamports as int,
                        self.pool_token_supply as int,
                        lamports as int,
                    ),
                )
            },
    {
        if self.total_lamports == 0 {
            return if lamports == 0 {
                Some(0)
            } else {
                None
            };
        }
        let l: u128 = lamports as u128;
        let s: u128 = self.pool_token_supply as u128;
        let t: u128 = self.total_lamports as u128;
        proof {
            lemma_product_fits(l as int, s as int);
        }
        let q: u128 = (l * s + t - 1) / t;
        if q > u64::MAX as u128 {
            None
        } else {
            Some(q as u64)
        }
    }

    /// Pool tokens to mint as the epoch fee on `reward_lamports` of growth.
    /// `None` if the fee is more than the growth, which a ratio above one
    /// makes it, or if the tokens do not fit in 64 bits.
    pub fn calc_epoch_fee_amount(&self, reward_lamports: u64) -> (r: Option<u64>)
        ensures
            r == epoch_fee_amount(
                self.epoch_fee,
                self.total_lamports as int,
                self.pool_token_supply as int,
                reward_lamports as int,
            ),
    {
        if reward_lamports == 0 {
            proof {
                lemma_fee_on_nothing(
                    self.epoch_fee.numerator as int,
                    self.epoch_fee.denominator as int,
                );
            }
            return Some(0);
        }
        let total: u128 = self.total_lamports as u128 + reward_lamports as u128;
        let fee_lamports: u128 = self.epoch_fee.apply(reward_lamports);
        if fee_lamports > reward_lamports as u128 {
            return None;
        }
        if total == fee_lamports || self.pool_token_supply == 0 {
            return Some(reward_lamports);
        }
        let s: u128 = self.pool_token_supply as u128;
        proof {
            lemma_product_fits(s as int, fee_lamports as int);
        }
        let q: u128 = s * fee_lamports / (total - fee_lamports);
        if q > u64::MAX as u128 {
            None
        } else {
            Some(q as u64)
        }
    }
}

} // verus!
