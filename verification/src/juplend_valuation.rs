//! JupLend balance valuation: the reward/exchange-price growth model that
//! turns the vault's f-token balance into an underlying-asset amount.

use vstd::prelude::*;
use vstd::arithmetic::mul::{lemma_mul_upper_bound, lemma_mul_inequality};
use vstd::arithmetic::div_mod::{lemma_div_is_ordered, lemma_div_basics_5};
use crate::constants::{
    EXCHANGE_PRICES_PRECISION,
    PERCENT_PRECISION,
    SECONDS_PER_YEAR,
    MAX_REWARDS_RATE,
};
use crate::errors::AggregatorError;
use crate::juplend_state::{Lending, LendingRewardsRateModel};
use crate::juplend_reserve::{TOKEN_RESERVE_LEN, SUPPLY_EXCHANGE_PRICE_OFFSET, get_supply_exchange_price};
use crate::bytes::le_u64;

verus! {

/// A computed reward rate, at 10^12 precision.
pub struct RewardsRate {
    pub rate: u128,
    pub rewards_ended: bool,
    pub rewards_start_time: u64,
}

/// The reward rate owed for a pool of `total_assets`: zero above the
/// `start_tvl` threshold and on an empty pool, otherwise the annualized
/// budget spread over the pool, capped at `MAX_REWARDS_RATE`.
pub open spec fn rewards_rate_spec(total_assets: int, start_tvl: u64, yearly_reward: u64) -> int
    recommends
        0 <= total_assets,
{
    if total_assets > start_tvl || total_assets == 0 {
        0
    } else {
        let rate = yearly_reward * EXCHANGE_PRICES_PRECISION / total_assets;
        if rate > MAX_REWARDS_RATE {
            MAX_REWARDS_RATE as int
        } else {
            rate
        }
    }
}

/// Total assets currently backing the f-token supply, at asset precision.
pub open spec fn total_assets_spec(token_exchange_price: u64, supply: u64) -> int {
    token_exchange_price * supply / (EXCHANGE_PRICES_PRECISION as int)
}

/// The low 64 bits of a wider value, as the executable truncating cast
/// produces them.
pub open spec fn truncate_u64_spec(x: int) -> int {
    x % 0x1_0000_0000_0000_0000
}

/// The later of the lending record's last update and the reward phase's
/// start.
pub open spec fn effective_last_update_spec(last_update_timestamp: u64, start_time: u64) -> int {
    if last_update_timestamp < start_time {
        start_time as int
    } else {
        last_update_timestamp as int
    }
}

/// Reward return accrued over `elapsed` seconds, at 10^14 precision.
pub open spec fn base_return_spec(rate: int, elapsed: int) -> int {
    rate * elapsed / (SECONDS_PER_YEAR as int)
}

/// Total return percentage at 10^14 precision: the reward accrual plus the
/// liquidity price's own movement — a gain is added, a loss is subtracted
/// and floored at zero.
pub open spec fn total_return_percent_spec(rate: int, elapsed: int, supply_price: u64, old_liquidity_price: u64) -> int
    recommends
        old_liquidity_price > 0 || supply_price < old_liquidity_price,
{
    let base = base_return_spec(rate, elapsed);
    if supply_price >= old_liquidity_price {
        base + (supply_price - old_liquidity_price) * PERCENT_PRECISION / (old_liquidity_price as int)
    } else {
        let dp = (old_liquidity_price - supply_price) * PERCENT_PRECISION / (old_liquidity_price as int);
        if base >= dp {
            base - dp
        } else {
            0
        }
    }
}

/// The reward rate the valuation uses for a given reading of the records.
pub open spec fn current_rate_spec(supply: u64, lending: Lending, model: LendingRewardsRateModel) -> int {
    rewards_rate_spec(
        truncate_u64_spec(total_assets_spec(lending.token_exchange_price, supply)),
        model.start_tvl,
        model.yearly_reward,
    )
}

/// The total return percentage for a full reading of the records at `now`.
pub open spec fn return_percent_at_spec(supply_price: u64, supply: u64, lending: Lending, model: LendingRewardsRateModel, now: u64) -> int {
    total_return_percent_spec(
        current_rate_spec(supply, lending, model),
        now - effective_last_update_spec(lending.last_update_timestamp, model.start_time),
        supply_price,
        lending.liquidity_exchange_price,
    )
}

/// When the price update succeeds: time must not run backwards, a gain
/// needs a nonzero liquidity price to divide by, and the price-times-return
/// product must fit in 128 bits.
pub open spec fn new_exchange_price_ok(supply_price: u64, supply: u64, lending: Lending, model: LendingRewardsRateModel, now: u64) -> bool {
    &&& now >= effective_last_update_spec(lending.last_update_timestamp, model.start_time)
    &&& (supply_price >= lending.liquidity_exchange_price ==> lending.liquidity_exchange_price > 0)
    &&& lending.token_exchange_price * return_percent_at_spec(supply_price, supply, lending, model, now) <= u128::MAX
}

/// The updated f-token exchange price.
pub open spec fn new_exchange_price_spec(supply_price: u64, supply: u64, lending: Lending, model: LendingRewardsRateModel, now: u64) -> int {
    lending.token_exchange_price + lending.token_exchange_price * return_percent_at_spec(
        supply_price,
        supply,
        lending,
        model,
        now,
    ) / (PERCENT_PRECISION as int)
}

/// Computes the reward rate for a pool of `total_assets`. Never fails.
pub fn get_rewards_rate(total_assets: u64, rewards_rate_model: &LendingRewardsRateModel) -> (r:
    Result<RewardsRate, AggregatorError>)
    ensures
        r matches Ok(rr) && rr.rate == rewards_rate_spec(
            total_assets as int,
            rewards_rate_model.start_tvl,
            rewards_rate_model.yearly_reward,
        ) && rr.rewards_ended == false && rr.rewards_start_time == rewards_rate_model.start_time,
{
    if total_assets > rewards_rate_model.start_tvl {
        return Ok(
            RewardsRate {
                rate: 0,
                rewards_ended: false,
                rewards_start_time: rewards_rate_model.start_time,
            },
        );
    }
    if total_assets == 0 {
        return Ok(
            RewardsRate {
                rate: 0,
                rewards_ended: false,
                rewards_start_time: rewards_rate_model.start_time,
            },
        );
    }
    proof {
        lemma_mul_upper_bound(
            rewards_rate_model.yearly_reward as int,
            u64::MAX as int,
            EXCHANGE_PRICES_PRECISION as int,
            EXCHANGE_PRICES_PRECISION as int,
        );
    }
    let rate = (rewards_rate_model.yearly_reward as u128) * EXCHANGE_PRICES_PRECISION
        / (total_assets as u128);
    if rate > MAX_REWARDS_RATE {
        return Ok(
            RewardsRate {
                rate: MAX_REWARDS_RATE,
                rewards_ended: false,
                rewards_start_time: rewards_rate_model.start_time,
            },
        );
    }
    Ok(RewardsRate { rate, rewards_ended: false, rewards_start_time: rewards_rate_model.start_time })
}

/// Computes the new f-token exchange price at `current_timestamp`.
/// Fails with `MathOverflow` exactly when the model cannot be evaluated:
/// the clock reads earlier than the last update, a price gain has no
/// liquidity price to divide by, or an intermediate product overflows.
pub fn get_new_exchange_price(
    supply_exchange_price: u64,
    total_supply_ctoken: u64,
    lending: &Lending,
    rewards_rate_model: &LendingRewardsRateModel,
    current_timestamp: u64,
) -> (r: Result<u128, AggregatorError>)
    ensures
        new_exchange_price_ok(
            supply_exchange_price,
            total_supply_ctoken,
            *lending,
            *rewards_rate_model,
            current_timestamp,
        ) ==> (r matches Ok(p) && p == new_exchange_price_spec(
            supply_exchange_price,
            total_supply_ctoken,
            *lending,
            *rewards_rate_model,
            current_timestamp,
        )),
        !new_exchange_price_ok(
            supply_exchange_price,
            total_supply_ctoken,
            *lending,
            *rewards_rate_model,
            current_timestamp,
        ) ==> (r matches Err(e) && e == AggregatorError::MathOverflow),
{
    let old_token_exchange_price = lending.token_exchange_price as u128;
    let old_liquidity_exchange_price = lending.liquidity_exchange_price as u128;

    proof {
        lemma_mul_upper_bound(
            old_token_exchange_price as int,
            u64::MAX as int,
            total_supply_ctoken as int,
            u64::MAX as int,
        );
    }
    let total_assets_wide = old_token_exchange_price * (total_supply_ctoken as u128)
        / EXCHANGE_PRICES_PRECISION;
    let total_assets = (total_assets_wide % 0x1_0000_0000_0000_0000) as u64;
    proof {
        assert(total_assets_wide == total_assets_spec(
            lending.token_exchange_price,
            total_supply_ctoken,
        ));
        assert(total_assets as int == truncate_u64_spec(total_assets_wide as int));
    }

    let rewards_rate = match get_rewards_rate(total_assets, rewards_rate_model) {
        Ok(rr) => rr,
        Err(e) => {
            return Err(e);
        },
    };
    let rate = if rewards_rate.rate > MAX_REWARDS_RATE {
        0u128
    } else {
        rewards_rate.rate
    };
    proof {
        assert(rate == current_rate_spec(total_supply_ctoken, *lending, *rewards_rate_model));
        assert(rate <= MAX_REWARDS_RATE);
    }

    let mut last_update_time = lending.last_update_timestamp;
    if last_update_time < rewards_rate.rewards_start_time {
        last_update_time = rewards_rate.rewards_start_time;
    }
    if current_timestamp < last_update_time {
        return Err(AggregatorError::MathOverflow);
    }
    let elapsed = (current_timestamp - last_update_time) as u128;

    proof {
        lemma_mul_upper_bound(rate as int, MAX_REWARDS_RATE as int, elapsed as int, u64::MAX as int);
    }
    let base_return = rate * elapsed / SECONDS_PER_YEAR;
    proof {
        lemma_div_basics_5(rate as int * elapsed as int, SECONDS_PER_YEAR as int);
    }

    let total_return_percent: u128;
    if supply_exchange_price as u128 >= old_liquidity_exchange_price {
        if old_liquidity_exchange_price == 0 {
            return Err(AggregatorError::MathOverflow);
        }
        let delta = supply_exchange_price as u128 - old_liquidity_exchange_price;
        proof {
            lemma_mul_upper_bound(delta as int, u64::MAX as int, PERCENT_PRECISION as int, PERCENT_PRECISION as int);
        }
        let delta_percent = delta * PERCENT_PRECISION / old_liquidity_exchange_price;
        proof {
            lemma_div_basics_5(delta as int * PERCENT_PRECISION as int, old_liquidity_exchange_price as int);
        }
        total_return_percent = base_return + delta_percent;
    } else {
        let delta = old_liquidity_exchange_price - supply_exchange_price as u128;
        proof {
            lemma_mul_upper_bound(delta as int, u64::MAX as int, PERCENT_PRECISION as int, PERCENT_PRECISION as int);
        }
        let delta_percent = delta * PERCENT_PRECISION / old_liquidity_exchange_price;
        if base_return >= delta_percent {
            total_return_percent = base_return - delta_percent;
        } else {
            total_return_percent = 0;
        }
    }

    let scaled = match old_token_exchange_price.checked_mul(total_return_percent) {
        Some(v) => v,
        None => {
            return Err(AggregatorError::MathOverflow);
        },
    };
    let gain = scaled / PERCENT_PRECISION;
    proof {
        lemma_div_is_ordered(scaled as int, u128::MAX as int, PERCENT_PRECISION as int);
        assert(u128::MAX as int / PERCENT_PRECISION as int + u64::MAX < u128::MAX);
    }
    Ok(old_token_exchange_price + gain)
}

/// When converting an f-token amount succeeds: the price model evaluates
/// and the balance-times-price product fits in 128 bits.
pub open spec fn convert_to_asset_ok(fusdc_amount: u64, supply_price: u64, lending: Lending, model: LendingRewardsRateModel, now: u64) -> bool {
    &&& new_exchange_price_ok(supply_price, fusdc_amount, lending, model, now)
    &&& fusdc_amount * new_exchange_price_spec(supply_price, fusdc_amount, lending, model, now)
        <= u128::MAX
}

/// The asset value of `fusdc_amount` f-tokens at the updated price,
/// truncated to 64 bits as the executable cast does.
pub open spec fn convert_to_asset_spec(fusdc_amount: u64, supply_price: u64, lending: Lending, model: LendingRewardsRateModel, now: u64) -> int {
    truncate_u64_spec(
        fusdc_amount * new_exchange_price_spec(supply_price, fusdc_amount, lending, model, now)
            / (EXCHANGE_PRICES_PRECISION as int),
    )
}

/// Converts the vault's f-token balance into an underlying-asset amount at
/// the freshly updated exchange price.
pub fn convert_to_asset(
    fusdc_amount: u64,
    supply_exchange_price: u64,
    lending: &Lending,
    rewards_rate_model: &LendingRewardsRateModel,
    current_timestamp: u64,
) -> (r: Result<u64, AggregatorError>)
    ensures
        convert_to_asset_ok(
            fusdc_amount,
            supply_exchange_price,
            *lending,
            *rewards_rate_model,
            current_timestamp,
        ) ==> (r matches Ok(v) && v == convert_to_asset_spec(
            fusdc_amount,
            supply_exchange_price,
            *lending,
            *rewards_rate_model,
            current_timestamp,
        )),
        !convert_to_asset_ok(
            fusdc_amount,
            supply_exchange_price,
            *lending,
            *rewards_rate_model,
            current_timestamp,
        ) ==> (r matches Err(e) && e == AggregatorError::MathOverflow),
{
    let new_exchange_price = match get_new_exchange_price(
        supply_exchange_price,
        fusdc_amount,
        lending,
        rewards_rate_model,
        current_timestamp,
    ) {
        Ok(p) => p,
        Err(e) => {
            return Err(e);
        },
    };
    let product = match (fusdc_amount as u128).checked_mul(new_exchange_price) {
        Some(v) => v,
        None => {
            return Err(AggregatorError::MathOverflow);
        },
    };
    let usdc_assets = ((product / EXCHANGE_PRICES_PRECISION) % 0x1_0000_0000_0000_0000) as u64;
    Ok(usdc_assets)
}

/// Values the vault's whole JupLend position from the raw token-reserve
/// bytes, the two venue records, and the vault's f-token balance.
/// A reserve buffer shorter than its packed layout is rejected as invalid
/// account data.
pub fn get_juplend_balance(
    token_reserve_data: &[u8],
    lending: &Lending,
    rewards_rate_model: &LendingRewardsRateModel,
    fusdc_amount: u64,
    current_timestamp: u64,
) -> (r: Result<u64, AggregatorError>)
    ensures
        token_reserve_data@.len() < TOKEN_RESERVE_LEN ==> (r matches Err(e) && e
            == AggregatorError::InvalidAccountData),
        token_reserve_data@.len() >= TOKEN_RESERVE_LEN ==> ({
            let supply_price = le_u64(token_reserve_data@, SUPPLY_EXCHANGE_PRICE_OFFSET as int) as u64;
            &&& convert_to_asset_ok(fusdc_amount, supply_price, *lending, *rewards_rate_model, current_timestamp)
                ==> (r matches Ok(v) && v == convert_to_asset_spec(
                fusdc_amount,
                supply_price,
                *lending,
                *rewards_rate_model,
                current_timestamp,
            ))
            &&& !convert_to_asset_ok(fusdc_amount, supply_price, *lending, *rewards_rate_model, current_timestamp)
                ==> (r matches Err(e) && e == AggregatorError::MathOverflow)
        }),
{
    if token_reserve_data.len() < TOKEN_RESERVE_LEN {
        return Err(AggregatorError::InvalidAccountData);
    }
    let supply_exchange_price = get_supply_exchange_price(token_reserve_data);
    convert_to_asset(
        fusdc_amount,
        supply_exchange_price,
        lending,
        rewards_rate_model,
        current_timestamp,
    )
}

} // verus!

use vstd::arithmetic::div_mod::{lemma_div_pos_is_pos, lemma_mod_division_less_than_divisor};

verus! {

/// Accrual never goes backward: with a non-decreasing venue liquidity
/// price, the projected f-token exchange price is monotonically
/// non-decreasing in the reading time. (The reward rate is non-negative by
/// construction, so this covers every positive-rate reading.)
pub proof fn lemma_new_exchange_price_monotone(
    supply_price: u64,
    supply: u64,
    lending: Lending,
    model: LendingRewardsRateModel,
    now1: u64,
    now2: u64,
)
    requires
        now1 <= now2,
        supply_price >= lending.liquidity_exchange_price,
        lending.liquidity_exchange_price > 0,
        now1 >= effective_last_update_spec(lending.last_update_timestamp, model.start_time),
    ensures
        new_exchange_price_spec(supply_price, supply, lending, model, now1)
            <= new_exchange_price_spec(supply_price, supply, lending, model, now2),
{
    let rate = current_rate_spec(supply, lending, model);
    let lue = effective_last_update_spec(lending.last_update_timestamp, model.start_time);
    let e1 = now1 - lue;
    let e2 = now2 - lue;
    let otep = lending.token_exchange_price as int;
    assert(rate >= 0) by {
        let ta = truncate_u64_spec(total_assets_spec(lending.token_exchange_price, supply));
        assert(ta >= 0) by {
            lemma_mod_division_less_than_divisor(
                total_assets_spec(lending.token_exchange_price, supply),
                0x1_0000_0000_0000_0000,
            );
        }
        if !(ta > model.start_tvl || ta == 0) {
            lemma_mul_upper_bound(
                model.yearly_reward as int,
                u64::MAX as int,
                EXCHANGE_PRICES_PRECISION as int,
                EXCHANGE_PRICES_PRECISION as int,
            );
            lemma_div_pos_is_pos(
                model.yearly_reward * EXCHANGE_PRICES_PRECISION,
                ta,
            );
        }
    }
    assert(rate * e1 <= rate * e2) by {
        lemma_mul_inequality(e1, e2, rate);
        vstd::arithmetic::mul::lemma_mul_is_commutative(e1, rate);
        vstd::arithmetic::mul::lemma_mul_is_commutative(e2, rate);
    }
    lemma_div_is_ordered(rate * e1, rate * e2, SECONDS_PER_YEAR as int);
    let trp1 = return_percent_at_spec(supply_price, supply, lending, model, now1);
    let trp2 = return_percent_at_spec(supply_price, supply, lending, model, now2);
    assert(trp1 <= trp2);
    assert(trp1 >= 0) by {
        assert(base_return_spec(rate, e1) >= 0) by {
            vstd::arithmetic::mul::lemma_mul_nonnegative(rate, e1);
            lemma_div_pos_is_pos(rate * e1, SECONDS_PER_YEAR as int);
        }
        assert((supply_price - lending.liquidity_exchange_price) * PERCENT_PRECISION >= 0) by {
            vstd::arithmetic::mul::lemma_mul_nonnegative(
                supply_price - lending.liquidity_exchange_price,
                PERCENT_PRECISION as int,
            );
        }
        lemma_div_pos_is_pos(
            (supply_price - lending.liquidity_exchange_price) * PERCENT_PRECISION,
            lending.liquidity_exchange_price as int,
        );
    }
    assert(otep * trp1 <= otep * trp2) by {
        if otep > 0 {
            vstd::arithmetic::mul::lemma_mul_left_inequality(otep, trp1, trp2);
        } else {
            vstd::arithmetic::mul::lemma_mul_by_zero_is_zero(trp1);
            vstd::arithmetic::mul::lemma_mul_by_zero_is_zero(trp2);
        }
    }
    lemma_div_is_ordered(otep * trp1, otep * trp2, PERCENT_PRECISION as int);
}

} // verus!
