//! Kamino balance valuation: collateral exchange rates with optional
//! forward-projected interest, the invested-reserve sum, and the vault's
//! user-level balance.
//!
//! Every intermediate value is a 68.60 `Fraction`; all contracts speak of
//! its raw storage. `None` in a spec-level value means the corresponding
//! checked step fails, which the executable code reports as
//! `MathOverflow`.

use vstd::prelude::*;
use crate::constants::{SLOTS_PER_YEAR, SCALE_FACTOR_BASE};
use crate::errors::AggregatorError;
use crate::fraction::{Fraction, FRACTION_ONE_BITS};
use crate::kamino_layout::ReserveFields;

verus! {

/// One whole unit of fixed-point storage, as a mathematical integer.
pub open spec fn one_bits() -> int {
    FRACTION_ONE_BITS as int
}

/// Checked addition of fixed-point storage values.
pub open spec fn oadd(a: Option<int>, b: Option<int>) -> Option<int> {
    match (a, b) {
        (Some(x), Some(y)) => if x + y <= u128::MAX {
            Some(x + y)
        } else {
            None
        },
        _ => None,
    }
}

/// Checked subtraction of fixed-point storage values.
pub open spec fn osub(a: Option<int>, b: Option<int>) -> Option<int> {
    match (a, b) {
        (Some(x), Some(y)) => if y <= x {
            Some(x - y)
        } else {
            None
        },
        _ => None,
    }
}

/// Checked fixed-point multiplication of storage values.
pub open spec fn omul(a: Option<int>, b: Option<int>) -> Option<int> {
    match (a, b) {
        (Some(x), Some(y)) => if x * y / one_bits() <= u128::MAX {
            Some(x * y / one_bits())
        } else {
            None
        },
        _ => None,
    }
}

/// Checked fixed-point division of storage values; fails on a zero
/// divisor.
pub open spec fn odiv(a: Option<int>, b: Option<int>) -> Option<int> {
    match (a, b) {
        (Some(x), Some(y)) => if y == 0 {
            None
        } else if x * one_bits() / y <= u128::MAX {
            Some(x * one_bits() / y)
        } else {
            None
        },
        _ => None,
    }
}

/// `(1 + rate/slots_per_year)^elapsed_slots`, exactly for up to four
/// slots and by the three-term Taylor approximation beyond, on raw
/// fixed-point storage.
pub open spec fn approx_compounded_interest_spec(rate: int, elapsed_slots: u64) -> Option<int> {
    let base = odiv(Some(rate), Some(SLOTS_PER_YEAR * one_bits()));
    if elapsed_slots == 0 {
        Some(one_bits())
    } else if elapsed_slots == 1 {
        oadd(Some(one_bits()), base)
    } else if elapsed_slots == 2 {
        let opb = oadd(Some(one_bits()), base);
        omul(opb, opb)
    } else if elapsed_slots == 3 {
        let opb = oadd(Some(one_bits()), base);
        omul(omul(opb, opb), opb)
    } else if elapsed_slots == 4 {
        let opb = oadd(Some(one_bits()), base);
        let pow_two = omul(opb, opb);
        omul(pow_two, pow_two)
    } else {
        let exp = elapsed_slots as int;
        let b2 = omul(base, base);
        let b3 = omul(b2, base);
        let first = omul(base, Some(exp * one_bits()));
        let second = odiv(
            omul(omul(b2, Some(exp * one_bits())), Some((exp - 1) * one_bits())),
            Some(2 * one_bits()),
        );
        let third = odiv(
            omul(
                omul(omul(b3, Some(exp * one_bits())), Some((exp - 1) * one_bits())),
                Some((exp - 2) * one_bits()),
            ),
            Some(6 * one_bits()),
        );
        oadd(oadd(oadd(Some(one_bits()), first), second), third)
    }
}

/// Approximates compounded interest over `elapsed_slots` at `rate`.
/// Fails with `MathOverflow` exactly when a checked step overflows.
pub fn approximate_compounded_interest(rate: Fraction, elapsed_slots: u64) -> (r: Result<
    Fraction,
    AggregatorError,
>)
    ensures
        match approx_compounded_interest_spec(rate.bits as int, elapsed_slots) {
            Some(v) => r matches Ok(f) && f.bits == v,
            None => r matches Err(e) && e == AggregatorError::MathOverflow,
        },
{
    proof {
        // Dividing by a whole number of slots can never overflow: the
        // quotient is at most the dividend.
        let x = rate.bits as int * one_bits();
        vstd::arithmetic::mul::lemma_mul_nonnegative(rate.bits as int, one_bits());
        vstd::arithmetic::div_mod::lemma_div_by_multiple(rate.bits as int, one_bits());
        vstd::arithmetic::div_mod::lemma_div_is_ordered_by_denominator(
            x,
            one_bits(),
            SLOTS_PER_YEAR * one_bits(),
        );
    }
    let base = match rate.checked_div(Fraction::from_u64(SLOTS_PER_YEAR)) {
        Some(b) => b,
        None => {
            return Err(AggregatorError::MathOverflow);
        },
    };
    if elapsed_slots == 0 {
        return Ok(Fraction::one());
    }
    if elapsed_slots == 1 {
        return match Fraction::one().checked_add(base) {
            Some(f) => Ok(f),
            None => Err(AggregatorError::MathOverflow),
        };
    }
    if elapsed_slots == 2 {
        let one_plus_base = match Fraction::one().checked_add(base) {
            Some(f) => f,
            None => {
                return Err(AggregatorError::MathOverflow);
            },
        };
        return match one_plus_base.checked_mul(one_plus_base) {
            Some(f) => Ok(f),
            None => Err(AggregatorError::MathOverflow),
        };
    }
    if elapsed_slots == 3 {
        let one_plus_base = match Fraction::one().checked_add(base) {
            Some(f) => f,
            None => {
                return Err(AggregatorError::MathOverflow);
            },
        };
        let sq = match one_plus_base.checked_mul(one_plus_base) {
            Some(f) => f,
            None => {
                return Err(AggregatorError::MathOverflow);
            },
        };
        return match sq.checked_mul(one_plus_base) {
            Some(f) => Ok(f),
            None => Err(AggregatorError::MathOverflow),
        };
    }
    if elapsed_slots == 4 {
        let one_plus_base = match Fraction::one().checked_add(base) {
            Some(f) => f,
            None => {
                return Err(AggregatorError::MathOverflow);
            },
        };
        let pow_two = match one_plus_base.checked_mul(one_plus_base) {
            Some(f) => f,
            None => {
                return Err(AggregatorError::MathOverflow);
            },
        };
        return match pow_two.checked_mul(pow_two) {
            Some(f) => Ok(f),
            None => Err(AggregatorError::MathOverflow),
        };
    }

    let exp = elapsed_slots;
    let exp_minus_one = exp - 1;
    let exp_minus_two = exp - 2;

    let base_power_two = match base.checked_mul(base) {
        Some(f) => f,
        None => {
            return Err(AggregatorError::MathOverflow);
        },
    };
    let base_power_three = match base_power_two.checked_mul(base) {
        Some(f) => f,
        None => {
            return Err(AggregatorError::MathOverflow);
        },
    };

    let first_term = match base.checked_mul(Fraction::from_u64(exp)) {
        Some(f) => f,
        None => {
            return Err(AggregatorError::MathOverflow);
        },
    };

    let second_num = match base_power_two.checked_mul(Fraction::from_u64(exp)) {
        Some(f) => f,
        None => {
            return Err(AggregatorError::MathOverflow);
        },
    };
    let second_num = match second_num.checked_mul(Fraction::from_u64(exp_minus_one)) {
        Some(f) => f,
        None => {
            return Err(AggregatorError::MathOverflow);
        },
    };
    let second_term = match second_num.checked_div(Fraction::from_u64(2)) {
        Some(f) => f,
        None => {
            return Err(AggregatorError::MathOverflow);
        },
    };

    let third_num = match base_power_three.checked_mul(Fraction::from_u64(exp)) {
        Some(f) => f,
        None => {
            return Err(AggregatorError::MathOverflow);
        },
    };
    let third_num = match third_num.checked_mul(Fraction::from_u64(exp_minus_one)) {
        Some(f) => f,
        None => {
            return Err(AggregatorError::MathOverflow);
        },
    };
    let third_num = match third_num.checked_mul(Fraction::from_u64(exp_minus_two)) {
        Some(f) => f,
        None => {
            return Err(AggregatorError::MathOverflow);
        },
    };
    let third_term = match third_num.checked_div(Fraction::from_u64(6)) {
        Some(f) => f,
        None => {
            return Err(AggregatorError::MathOverflow);
        },
    };

    let acc = match Fraction::one().checked_add(first_term) {
        Some(f) => f,
        None => {
            return Err(AggregatorError::MathOverflow);
        },
    };
    let acc = match acc.checked_add(second_term) {
        Some(f) => f,
        None => {
            return Err(AggregatorError::MathOverflow);
        },
    };
    match acc.checked_add(third_term) {
        Some(f) => Ok(f),
        None => Err(AggregatorError::MathOverflow),
    }
}

} // verus!

verus! {

/// The reserve's protocol take rate, converted from whole percent.
pub open spec fn take_rate_bits(f: ReserveFields) -> int {
    f.protocol_take_rate_pct * one_bits() / 100
}

/// The reserve's fixed host interest rate, converted from basis points.
pub open spec fn fixed_rate_bits(f: ReserveFields) -> int {
    f.host_fixed_interest_rate_bps * one_bits() / 10000
}

/// The placeholder variable borrow rate of 500 basis points that stands in
/// for the reserve's real borrow-rate curve.
pub open spec fn placeholder_borrow_rate_bits() -> int {
    500 * one_bits() / 10000
}

/// Compounded combined (variable + fixed) rate over the elapsed slots.
pub open spec fn compounded_interest_rate_spec(f: ReserveFields, slots: u64) -> Option<int> {
    match oadd(Some(placeholder_borrow_rate_bits()), Some(fixed_rate_bits(f))) {
        Some(s) => approx_compounded_interest_spec(s, slots),
        None => None,
    }
}

/// Compounded fixed rate alone over the elapsed slots.
pub open spec fn compounded_fixed_rate_spec(f: ReserveFields, slots: u64) -> Option<int> {
    approx_compounded_interest_spec(fixed_rate_bits(f), slots)
}

/// The reserve's debt after compounding.
pub open spec fn new_debt_spec(f: ReserveFields, slots: u64) -> Option<int> {
    omul(Some(f.borrowed_amount_sf as int), compounded_interest_rate_spec(f, slots))
}

/// The host's fixed-rate share of the new interest.
pub open spec fn fixed_host_fee_spec(f: ReserveFields, slots: u64) -> Option<int> {
    osub(
        omul(Some(f.borrowed_amount_sf as int), compounded_fixed_rate_spec(f, slots)),
        Some(f.borrowed_amount_sf as int),
    )
}

/// New variable debt net of the fixed host fee.
pub open spec fn net_new_variable_debt_spec(f: ReserveFields, slots: u64) -> Option<int> {
    osub(
        osub(new_debt_spec(f, slots), Some(f.borrowed_amount_sf as int)),
        fixed_host_fee_spec(f, slots),
    )
}

/// The protocol's take of the new variable debt.
pub open spec fn variable_protocol_fee_spec(f: ReserveFields, slots: u64) -> Option<int> {
    omul(net_new_variable_debt_spec(f, slots), Some(take_rate_bits(f)))
}

/// Accumulated protocol fees after compounding; referral fees are assumed
/// zero for this projection.
pub open spec fn new_acc_protocol_fees_spec(f: ReserveFields, slots: u64) -> Option<int> {
    osub(
        oadd(
            oadd(Some(f.accumulated_protocol_fees_sf as int), fixed_host_fee_spec(f, slots)),
            variable_protocol_fee_spec(f, slots),
        ),
        Some(0),
    )
}

/// Pending referral fees after compounding (unchanged: the assumed new
/// referral fees are zero).
pub open spec fn pending_referral_fees_spec(f: ReserveFields) -> Option<int> {
    oadd(Some(f.pending_referrer_fees_sf as int), Some(0))
}

/// Compounds interest over `slots_elapsed` to estimate the reserve's new
/// debt and fee totals. Fails with `MathOverflow` exactly when a checked
/// step overflows.
pub fn compound_interest(reserve: &ReserveFields, slots_elapsed: u64) -> (r: Result<
    (Fraction, Fraction, Fraction),
    AggregatorError,
>)
    ensures
        match (
            new_debt_spec(*reserve, slots_elapsed),
            new_acc_protocol_fees_spec(*reserve, slots_elapsed),
            pending_referral_fees_spec(*reserve),
        ) {
            (Some(nd), Some(na), Some(p)) => r matches Ok(t) && t.0.bits == nd && t.1.bits == na
                && t.2.bits == p,
            _ => r matches Err(e) && e == AggregatorError::MathOverflow,
        },
{
    let previous_debt = Fraction::from_bits(reserve.borrowed_amount_sf);
    let protocol_take_rate = Fraction::from_percent(reserve.protocol_take_rate_pct as u64);
    let fixed_host_interest_rate = Fraction::from_bps(reserve.host_fixed_interest_rate_bps as u64);

    // A placeholder variable borrow rate stands in for the reserve's real
    // borrow-rate curve, which is deliberately not implemented.
    let approximate_borrow_rate = Fraction::from_bps(500);

    let combined_rate = match approximate_borrow_rate.checked_add(fixed_host_interest_rate) {
        Some(f) => f,
        None => {
            return Err(AggregatorError::MathOverflow);
        },
    };
    let compounded_interest_rate = match approximate_compounded_interest(
        combined_rate,
        slots_elapsed,
    ) {
        Ok(f) => f,
        Err(e) => {
            return Err(e);
        },
    };
    let compounded_fixed_rate = match approximate_compounded_interest(
        fixed_host_interest_rate,
        slots_elapsed,
    ) {
        Ok(f) => f,
        Err(e) => {
            return Err(e);
        },
    };

    let new_debt = match previous_debt.checked_mul(compounded_interest_rate) {
        Some(f) => f,
        None => {
            return Err(AggregatorError::MathOverflow);
        },
    };

    let fixed_debt = match previous_debt.checked_mul(compounded_fixed_rate) {
        Some(f) => f,
        None => {
            return Err(AggregatorError::MathOverflow);
        },
    };
    let fixed_host_fee = match fixed_debt.checked_sub(previous_debt) {
        Some(f) => f,
        None => {
            return Err(AggregatorError::MathOverflow);
        },
    };

    let net_growth = match new_debt.checked_sub(previous_debt) {
        Some(f) => f,
        None => {
            return Err(AggregatorError::MathOverflow);
        },
    };
    let net_new_variable_debt = match net_growth.checked_sub(fixed_host_fee) {
        Some(f) => f,
        None => {
            return Err(AggregatorError::MathOverflow);
        },
    };

    let variable_protocol_fee = match net_new_variable_debt.checked_mul(protocol_take_rate) {
        Some(f) => f,
        None => {
            return Err(AggregatorError::MathOverflow);
        },
    };

    let max_referral_fees = Fraction::zero();

    let acc_protocol_fees = Fraction::from_bits(reserve.accumulated_protocol_fees_sf);
    let with_fixed = match acc_protocol_fees.checked_add(fixed_host_fee) {
        Some(f) => f,
        None => {
            return Err(AggregatorError::MathOverflow);
        },
    };
    let with_variable = match with_fixed.checked_add(variable_protocol_fee) {
        Some(f) => f,
        None => {
            return Err(AggregatorError::MathOverflow);
        },
    };
    let new_acc_protocol_fees = match with_variable.checked_sub(max_referral_fees) {
        Some(f) => f,
        None => {
            return Err(AggregatorError::MathOverflow);
        },
    };

    let pending_referrer_fees = Fraction::from_bits(reserve.pending_referrer_fees_sf);
    let pending_referral_fees = match pending_referrer_fees.checked_add(max_referral_fees) {
        Some(f) => f,
        None => {
            return Err(AggregatorError::MathOverflow);
        },
    };

    Ok((new_debt, new_acc_protocol_fees, pending_referral_fees))
}

/// Stale total supply, from the reserve's last persisted state:
/// available + borrowed − accumulated protocol fees − accumulated referrer
/// fees − pending referrer fees.
pub open spec fn total_supply_spec(f: ReserveFields) -> Option<int> {
    osub(
        osub(
            osub(
                oadd(
                    Some(f.available_amount * one_bits()),
                    Some(f.borrowed_amount_sf as int),
                ),
                Some(f.accumulated_protocol_fees_sf as int),
            ),
            Some(f.accumulated_referrer_fees_sf as int),
        ),
        Some(f.pending_referrer_fees_sf as int),
    )
}

/// Slots elapsed since the reserve's last update, saturating at zero.
pub open spec fn slots_elapsed_spec(f: ReserveFields, current_slot: u64) -> u64 {
    if current_slot >= f.last_update_slot {
        (current_slot - f.last_update_slot) as u64
    } else {
        0
    }
}

/// Projected total supply at `current_slot`: identical to the stale value
/// when no slots have elapsed, otherwise recomputed from the compounded
/// debt and fees.
pub open spec fn estimated_total_supply_spec(f: ReserveFields, current_slot: u64) -> Option<int> {
    let slots = slots_elapsed_spec(f, current_slot);
    if slots == 0 {
        total_supply_spec(f)
    } else {
        osub(
            osub(
                osub(
                    oadd(Some(f.available_amount * one_bits()), new_debt_spec(f, slots)),
                    new_acc_protocol_fees_spec(f, slots),
                ),
                Some(f.accumulated_referrer_fees_sf as int),
            ),
            pending_referral_fees_spec(f),
        )
    }
}

/// Computes the stale total supply. Fails with `MathOverflow` exactly when
/// a checked step overflows (in particular when fees exceed the assets).
pub fn calculate_total_supply(reserve: &ReserveFields) -> (r: Result<Fraction, AggregatorError>)
    ensures
        match total_supply_spec(*reserve) {
            Some(v) => r matches Ok(f) && f.bits == v,
            None => r matches Err(e) && e == AggregatorError::MathOverflow,
        },
{
    let available_amount = Fraction::from_u64(reserve.available_amount);
    let borrowed_amount = Fraction::from_bits(reserve.borrowed_amount_sf);
    let accumulated_protocol_fees = Fraction::from_bits(reserve.accumulated_protocol_fees_sf);
    let accumulated_referrer_fees = Fraction::from_bits(reserve.accumulated_referrer_fees_sf);
    let pending_referrer_fees = Fraction::from_bits(reserve.pending_referrer_fees_sf);

    let with_borrowed = match available_amount.checked_add(borrowed_amount) {
        Some(f) => f,
        None => {
            return Err(AggregatorError::MathOverflow);
        },
    };
    let less_protocol = match with_borrowed.checked_sub(accumulated_protocol_fees) {
        Some(f) => f,
        None => {
            return Err(AggregatorError::MathOverflow);
        },
    };
    let less_referrer = match less_protocol.checked_sub(accumulated_referrer_fees) {
        Some(f) => f,
        None => {
            return Err(AggregatorError::MathOverflow);
        },
    };
    match less_referrer.checked_sub(pending_referrer_fees) {
        Some(f) => Ok(f),
        None => Err(AggregatorError::MathOverflow),
    }
}

/// Computes the projected total supply at `current_slot`. Fails with
/// `MathOverflow` exactly when a checked step overflows.
pub fn calculate_estimated_total_supply(reserve: &ReserveFields, current_slot: u64) -> (r: Result<
    Fraction,
    AggregatorError,
>)
    ensures
        match estimated_total_supply_spec(*reserve, current_slot) {
            Some(v) => r matches Ok(f) && f.bits == v,
            None => r matches Err(e) && e == AggregatorError::MathOverflow,
        },
{
    let slots_elapsed = if current_slot >= reserve.last_update_slot {
        current_slot - reserve.last_update_slot
    } else {
        0
    };

    if slots_elapsed == 0 {
        return calculate_total_supply(reserve);
    }

    let (new_debt, new_acc_protocol_fees, pending_referral_fees) = match compound_interest(
        reserve,
        slots_elapsed,
    ) {
        Ok(t) => t,
        Err(e) => {
            return Err(e);
        },
    };

    let available_amount = Fraction::from_u64(reserve.available_amount);
    let accumulated_referrer_fees = Fraction::from_bits(reserve.accumulated_referrer_fees_sf);

    let with_debt = match available_amount.checked_add(new_debt) {
        Some(f) => f,
        None => {
            return Err(AggregatorError::MathOverflow);
        },
    };
    let less_protocol = match with_debt.checked_sub(new_acc_protocol_fees) {
        Some(f) => f,
        None => {
            return Err(AggregatorError::MathOverflow);
        },
    };
    let less_referrer = match less_protocol.checked_sub(accumulated_referrer_fees) {
        Some(f) => f,
        None => {
            return Err(AggregatorError::MathOverflow);
        },
    };
    match less_referrer.checked_sub(pending_referral_fees) {
        Some(f) => Ok(f),
        None => Err(AggregatorError::MathOverflow),
    }
}

} // verus!

use crate::bytes::{le_u16, le_u64, le_u128, keys_equal, key_is_zero, is_zero_key, read_tag};
use crate::kamino_layout::{
    read_reserve_fields,
    read_vault_allocation,
    read_vault_state_fields,
    vault_state_discriminator,
    vault_state_discriminator_spec,
    allocation_base,
    allocation_needed_len,
    RESERVE_MIN_LEN,
    VAULT_STATE_MIN_LEN,
    MAX_RESERVES,
    ALLOCATION_CTOKEN_ALLOCATION,
    RESERVE_LAST_UPDATE_SLOT,
    RESERVE_AVAILABLE_AMOUNT,
    RESERVE_BORROWED_AMOUNT_SF,
    RESERVE_ACCUMULATED_PROTOCOL_FEES_SF,
    RESERVE_ACCUMULATED_REFERRER_FEES_SF,
    RESERVE_PENDING_REFERRER_FEES_SF,
    RESERVE_MINT_TOTAL_SUPPLY,
    RESERVE_PROTOCOL_TAKE_RATE_PCT,
    RESERVE_HOST_FIXED_INTEREST_RATE_BPS,
    VAULT_TOKEN_AVAILABLE,
    VAULT_SHARES_ISSUED,
    VAULT_PENDING_FEES_SF,
};

verus! {

/// One caller-supplied lending-reserve account: its address and its raw
/// bytes.
pub struct ReserveAccount {
    pub key: Vec<u8>,
    pub data: Vec<u8>,
}

/// Outcome of a valuation step that can fail two ways: arithmetic
/// overflow, or account bytes that are missing or too short.
pub enum RateOutcome {
    Val(int),
    Overflow,
    BadData,
}

/// The reserve fields as read from a (long enough) byte buffer.
pub open spec fn reserve_fields_spec(s: Seq<u8>) -> ReserveFields {
    ReserveFields {
        last_update_slot: le_u64(s, 8 + RESERVE_LAST_UPDATE_SLOT) as u64,
        available_amount: le_u64(s, 8 + RESERVE_AVAILABLE_AMOUNT) as u64,
        borrowed_amount_sf: le_u128(s, 8 + RESERVE_BORROWED_AMOUNT_SF) as u128,
        accumulated_protocol_fees_sf: le_u128(s, 8 + RESERVE_ACCUMULATED_PROTOCOL_FEES_SF) as u128,
        accumulated_referrer_fees_sf: le_u128(s, 8 + RESERVE_ACCUMULATED_REFERRER_FEES_SF) as u128,
        pending_referrer_fees_sf: le_u128(s, 8 + RESERVE_PENDING_REFERRER_FEES_SF) as u128,
        mint_total_supply: le_u64(s, 8 + RESERVE_MINT_TOTAL_SUPPLY) as u64,
        protocol_take_rate_pct: s[8 + RESERVE_PROTOCOL_TAKE_RATE_PCT],
        host_fixed_interest_rate_bps: le_u16(s, 8 + RESERVE_HOST_FIXED_INTEREST_RATE_BPS) as u16,
    }
}

/// The collateral exchange rate computed from reserve fields: stale or
/// projected total supply, 1.0 when either side is zero, otherwise
/// `mint_total_supply * 10^18-as-bits / total_supply`.
pub open spec fn exchange_rate_spec(f: ReserveFields, current_slot: Option<u64>) -> Option<int> {
    let ts = match current_slot {
        Some(s) => estimated_total_supply_spec(f, s),
        None => total_supply_spec(f),
    };
    match ts {
        Some(t) => if f.mint_total_supply == 0 || t == 0 {
            Some(one_bits())
        } else {
            odiv(
                omul(Some(f.mint_total_supply * one_bits()), Some(SCALE_FACTOR_BASE as int)),
                Some(t),
            )
        },
        None => None,
    }
}

/// The exchange rate owed for one reserve account's raw bytes: 1.0 for an
/// implausibly short buffer, invalid data for one that cannot hold every
/// field, and the computed rate otherwise.
pub open spec fn collateral_rate_spec(data: Seq<u8>, current_slot: Option<u64>) -> RateOutcome {
    if data.len() < 100 {
        RateOutcome::Val(one_bits())
    } else if data.len() < RESERVE_MIN_LEN {
        RateOutcome::BadData
    } else {
        match exchange_rate_spec(reserve_fields_spec(data), current_slot) {
            Some(v) => RateOutcome::Val(v),
            None => RateOutcome::Overflow,
        }
    }
}

/// Computes one reserve's collateral exchange rate from its raw bytes,
/// projecting interest to `current_slot` when one is supplied.
pub fn calculate_collateral_exchange_rate(reserve_data: &[u8], current_slot: Option<u64>) -> (r:
    Result<Fraction, AggregatorError>)
    ensures
        match collateral_rate_spec(reserve_data@, current_slot) {
            RateOutcome::Val(v) => r matches Ok(f) && f.bits == v,
            RateOutcome::Overflow => r matches Err(e) && e == AggregatorError::MathOverflow,
            RateOutcome::BadData => r matches Err(e) && e == AggregatorError::InvalidAccountData,
        },
{
    if reserve_data.len() < 100 {
        return Ok(Fraction::one());
    }
    let reserve = match read_reserve_fields(reserve_data) {
        Ok(f) => f,
        Err(e) => {
            return Err(e);
        },
    };
    proof {
        assert(reserve == reserve_fields_spec(reserve_data@));
    }

    let mint_total_supply = Fraction::from_u64(reserve.mint_total_supply);

    let total_supply = match current_slot {
        Some(slot) => {
            match calculate_estimated_total_supply(&reserve, slot) {
                Ok(f) => f,
                Err(e) => {
                    return Err(e);
                },
            }
        },
        None => {
            match calculate_total_supply(&reserve) {
                Ok(f) => f,
                Err(e) => {
                    return Err(e);
                },
            }
        },
    };

    if mint_total_supply.is_zero() || total_supply.is_zero() {
        return Ok(Fraction::one());
    }

    let scaled = match mint_total_supply.checked_mul(Fraction::from_bits(SCALE_FACTOR_BASE)) {
        Some(f) => f,
        None => {
            return Err(AggregatorError::MathOverflow);
        },
    };
    match scaled.checked_div(total_supply) {
        Some(f) => Ok(f),
        None => Err(AggregatorError::MathOverflow),
    }
}

} // verus!

verus! {

/// Index of the first supplied reserve account whose address is `key`.
pub open spec fn find_reserve_spec(reserves: Seq<ReserveAccount>, key: Seq<u8>) -> Option<int>
    decreases reserves.len(),
{
    if reserves.len() == 0 {
        None
    } else if reserves[0].key@ == key {
        Some(0int)
    } else {
        match find_reserve_spec(reserves.skip(1), key) {
            Some(i) => Some(i + 1),
            None => None,
        }
    }
}

proof fn lemma_find_reserve_found(reserves: Seq<ReserveAccount>, key: Seq<u8>, i: int)
    requires
        0 <= i < reserves.len(),
        reserves[i].key@ == key,
        forall|j: int| 0 <= j < i ==> reserves[j].key@ != key,
    ensures
        find_reserve_spec(reserves, key) == Some(i),
    decreases i,
{
    if i == 0 {
    } else {
        assert(reserves[0].key@ != key);
        assert(reserves.skip(1)[i - 1] == reserves[i]);
        assert(forall|j: int| 0 <= j < i - 1 ==> reserves.skip(1)[j] == reserves[j + 1]);
        lemma_find_reserve_found(reserves.skip(1), key, i - 1);
    }
}

proof fn lemma_find_reserve_absent(reserves: Seq<ReserveAccount>, key: Seq<u8>)
    requires
        forall|j: int| 0 <= j < reserves.len() ==> reserves[j].key@ != key,
    ensures
        find_reserve_spec(reserves, key) is None,
    decreases reserves.len(),
{
    if reserves.len() > 0 {
        assert(forall|j: int| 0 <= j < reserves.len() - 1 ==> reserves.skip(1)[j]
            == reserves[j + 1]);
        lemma_find_reserve_absent(reserves.skip(1), key);
    }
}

/// Finds the first supplied reserve account with address `key`.
pub fn find_reserve(reserves: &Vec<ReserveAccount>, key: &[u8]) -> (r: Option<usize>)
    ensures
        match r {
            Some(i) => i < reserves@.len() && find_reserve_spec(reserves@, key@) == Some(i as int),
            None => find_reserve_spec(reserves@, key@) is None,
        },
{
    let n = reserves.len();
    let mut i: usize = 0;
    while i < n
        invariant
            i <= n,
            n == reserves@.len(),
            forall|j: int| 0 <= j < i ==> reserves@[j].key@ != key@,
        decreases n - i,
    {
        if keys_equal(reserves[i].key.as_slice(), key) {
            proof {
                lemma_find_reserve_found(reserves@, key@, i as int);
            }
            return Some(i);
        }
        i = i + 1;
    }
    proof {
        lemma_find_reserve_absent(reserves@, key@);
    }
    None
}

/// What allocation slot `i` adds to the invested total: nothing for an
/// inert slot (default reserve address or zero invested amount); otherwise
/// the invested c-token amount divided by the slot's exchange rate — 1.0
/// exactly when the slot's reserve account was not supplied.
pub open spec fn slot_contribution_spec(
    vault: Seq<u8>,
    reserves: Seq<ReserveAccount>,
    current_slot: Option<u64>,
    i: int,
) -> RateOutcome {
    if vault.len() < allocation_needed_len(i) {
        RateOutcome::BadData
    } else {
        let key = vault.subrange(8 + allocation_base(i), 8 + allocation_base(i) + 32);
        let ctoken = le_u64(vault, 8 + allocation_base(i) + ALLOCATION_CTOKEN_ALLOCATION);
        if is_zero_key(key) {
            RateOutcome::Val(0)
        } else if ctoken == 0 {
            RateOutcome::Val(0)
        } else {
            let rate = match find_reserve_spec(reserves, key) {
                Some(ri) => collateral_rate_spec(reserves[ri].data@, current_slot),
                None => RateOutcome::Val(one_bits()),
            };
            match rate {
                RateOutcome::Val(rv) => match odiv(
                    omul(Some(ctoken * one_bits()), Some(SCALE_FACTOR_BASE as int)),
                    Some(rv),
                ) {
                    Some(v) => RateOutcome::Val(v),
                    None => RateOutcome::Overflow,
                },
                e => e,
            }
        }
    }
}

/// The invested total over the first `n` allocation slots.
pub open spec fn total_invested_spec(
    vault: Seq<u8>,
    reserves: Seq<ReserveAccount>,
    current_slot: Option<u64>,
    n: int,
) -> RateOutcome
    decreases n,
{
    if n <= 0 {
        RateOutcome::Val(0)
    } else {
        match total_invested_spec(vault, reserves, current_slot, n - 1) {
            RateOutcome::Val(acc) => match slot_contribution_spec(
                vault,
                reserves,
                current_slot,
                n - 1,
            ) {
                RateOutcome::Val(c) => if acc + c <= u128::MAX {
                    RateOutcome::Val(acc + c)
                } else {
                    RateOutcome::Overflow
                },
                e => e,
            },
            e => e,
        }
    }
}

proof fn lemma_total_invested_error_sticks(
    vault: Seq<u8>,
    reserves: Seq<ReserveAccount>,
    current_slot: Option<u64>,
    m: int,
    n: int,
)
    requires
        0 <= m <= n,
        !(total_invested_spec(vault, reserves, current_slot, m) matches RateOutcome::Val(_)),
    ensures
        total_invested_spec(vault, reserves, current_slot, n) == total_invested_spec(
            vault,
            reserves,
            current_slot,
            m,
        ),
    decreases n - m,
{
    if m < n {
        lemma_total_invested_error_sticks(vault, reserves, current_slot, m, n - 1);
    }
}

/// Sums the invested amount across every allocation slot, applying each
/// reserve's exchange rate.
#[verifier::rlimit(100)]
#[verifier::spinoff_prover]
pub fn calculate_total_invested_with_exchange_rate(
    vault_data: &[u8],
    reserve_accounts: &Vec<ReserveAccount>,
    current_slot: Option<u64>,
) -> (r: Result<Fraction, AggregatorError>)
    ensures
        match total_invested_spec(vault_data@, reserve_accounts@, current_slot, MAX_RESERVES as int) {
            RateOutcome::Val(v) => r matches Ok(f) && f.bits == v,
            RateOutcome::Overflow => r matches Err(e) && e == AggregatorError::MathOverflow,
            RateOutcome::BadData => r matches Err(e) && e == AggregatorError::InvalidAccountData,
        },
{
    let mut total_invested = Fraction::zero();
    let mut i: usize = 0;
    while i < MAX_RESERVES
        invariant
            i <= MAX_RESERVES,
            total_invested_spec(vault_data@, reserve_accounts@, current_slot, i as int)
                == RateOutcome::Val(total_invested.bits as int),
        decreases MAX_RESERVES - i,
    {
        let ghost pre = total_invested_spec(vault_data@, reserve_accounts@, current_slot, i as int);
        let allocation = match read_vault_allocation(vault_data, i) {
            Ok(a) => a,
            Err(e) => {
                proof {
                    lemma_total_invested_error_sticks(
                        vault_data@,
                        reserve_accounts@,
                        current_slot,
                        i + 1,
                        MAX_RESERVES as int,
                    );
                }
                return Err(e);
            },
        };

        if key_is_zero(allocation.reserve.as_slice()) {
            i = i + 1;
            continue;
        }
        if allocation.ctoken_allocation == 0 {
            i = i + 1;
            continue;
        }

        let exchange_rate = match find_reserve(reserve_accounts, allocation.reserve.as_slice()) {
            Some(ri) => {
                match calculate_collateral_exchange_rate(
                    reserve_accounts[ri].data.as_slice(),
                    current_slot,
                ) {
                    Ok(f) => f,
                    Err(e) => {
                        proof {
                            lemma_total_invested_error_sticks(
                                vault_data@,
                                reserve_accounts@,
                                current_slot,
                                i + 1,
                                MAX_RESERVES as int,
                            );
                        }
                        return Err(e);
                    },
                }
            },
            None => Fraction::one(),
        };

        let ctoken_allocation_f = Fraction::from_u64(allocation.ctoken_allocation);
        let scaled = match ctoken_allocation_f.checked_mul(Fraction::from_bits(SCALE_FACTOR_BASE)) {
            Some(f) => f,
            None => {
                proof {
                    lemma_total_invested_error_sticks(
                        vault_data@,
                        reserve_accounts@,
                        current_slot,
                        i + 1,
                        MAX_RESERVES as int,
                    );
                }
                return Err(AggregatorError::MathOverflow);
            },
        };
        let invested_amount = match scaled.checked_div(exchange_rate) {
            Some(f) => f,
            None => {
                proof {
                    lemma_total_invested_error_sticks(
                        vault_data@,
                        reserve_accounts@,
                        current_slot,
                        i + 1,
                        MAX_RESERVES as int,
                    );
                }
                return Err(AggregatorError::MathOverflow);
            },
        };

        total_invested = match total_invested.checked_add(invested_amount) {
            Some(f) => f,
            None => {
                proof {
                    lemma_total_invested_error_sticks(
                        vault_data@,
                        reserve_accounts@,
                        current_slot,
                        i + 1,
                        MAX_RESERVES as int,
                    );
                }
                return Err(AggregatorError::MathOverflow);
            },
        };
        i = i + 1;
    }
    Ok(total_invested)
}

} // verus!

verus! {

/// Whether the vault-state buffer carries the expected leading type tag.
pub open spec fn vault_tag_ok(vault: Seq<u8>) -> bool {
    vault.len() >= 8 && vault.subrange(0, 8) == vault_state_discriminator_spec()
}

/// The vault's share supply as stored in the buffer.
pub open spec fn vault_shares_issued(vault: Seq<u8>) -> int {
    le_u64(vault, 8 + VAULT_SHARES_ISSUED)
}

/// The user-level balance math, once the buffer is known to be tagged and
/// long enough and the share supply nonzero: net AUM is available plus
/// invested minus pending fees, and the user's cut is their share of it,
/// floored to a whole token amount.
pub open spec fn kamino_balance_math_spec(
    vault: Seq<u8>,
    reserves: Seq<ReserveAccount>,
    current_slot: Option<u64>,
    user_shares: u64,
) -> RateOutcome {
    match total_invested_spec(vault, reserves, current_slot, MAX_RESERVES as int) {
        RateOutcome::Val(ti) => {
            let aum = oadd(Some(le_u64(vault, 8 + VAULT_TOKEN_AVAILABLE) * one_bits()), Some(ti));
            let net = osub(aum, Some(le_u128(vault, 8 + VAULT_PENDING_FEES_SF)));
            let ub = odiv(
                omul(Some(user_shares * one_bits()), net),
                Some(vault_shares_issued(vault) * one_bits()),
            );
            match ub {
                Some(b) => if b / one_bits() <= u64::MAX {
                    RateOutcome::Val(b / one_bits())
                } else {
                    RateOutcome::Overflow
                },
                None => RateOutcome::Overflow,
            }
        },
        e => e,
    }
}

/// Values the vault's Kamino position: `user_shares` of the venue's
/// share supply, against available plus invested assets net of pending
/// fees. Zero shares outstanding means zero value, whatever else the
/// buffer holds.
pub fn get_kamino_balance(
    vault_data: &[u8],
    user_shares: u64,
    reserve_accounts: &Vec<ReserveAccount>,
    current_slot: Option<u64>,
) -> (r: Result<u64, AggregatorError>)
    ensures
        !vault_tag_ok(vault_data@) ==> (r matches Err(e) && e
            == AggregatorError::InvalidAccountData),
        vault_tag_ok(vault_data@) && vault_data@.len() < VAULT_STATE_MIN_LEN ==> (r matches Err(e)
            && e == AggregatorError::InvalidAccountData),
        vault_tag_ok(vault_data@) && vault_data@.len() >= VAULT_STATE_MIN_LEN
            && vault_shares_issued(vault_data@) == 0 ==> (r matches Ok(v) && v == 0),
        vault_tag_ok(vault_data@) && vault_data@.len() >= VAULT_STATE_MIN_LEN
            && vault_shares_issued(vault_data@) != 0 ==> match kamino_balance_math_spec(
            vault_data@,
            reserve_accounts@,
            current_slot,
            user_shares,
        ) {
            RateOutcome::Val(v) => r matches Ok(b) && b == v,
            RateOutcome::Overflow => r matches Err(e) && e == AggregatorError::MathOverflow,
            RateOutcome::BadData => r matches Err(e) && e == AggregatorError::InvalidAccountData,
        },
{
    if vault_data.len() < 8 {
        return Err(AggregatorError::InvalidAccountData);
    }
    let tag = read_tag(vault_data);
    let expected = vault_state_discriminator();
    if !keys_equal(tag.as_slice(), expected.as_slice()) {
        return Err(AggregatorError::InvalidAccountData);
    }

    let vault_fields = match read_vault_state_fields(vault_data) {
        Ok(f) => f,
        Err(e) => {
            return Err(e);
        },
    };

    if vault_fields.shares_issued == 0 {
        return Ok(0);
    }

    let total_invested = match calculate_total_invested_with_exchange_rate(
        vault_data,
        reserve_accounts,
        current_slot,
    ) {
        Ok(f) => f,
        Err(e) => {
            return Err(e);
        },
    };

    let pending_fees = Fraction::from_bits(vault_fields.pending_fees_sf);

    let total_aum = match Fraction::from_u64(vault_fields.token_available).checked_add(
        total_invested,
    ) {
        Some(f) => f,
        None => {
            return Err(AggregatorError::MathOverflow);
        },
    };

    let net_aum = match total_aum.checked_sub(pending_fees) {
        Some(f) => f,
        None => {
            return Err(AggregatorError::MathOverflow);
        },
    };

    let scaled_shares = match Fraction::from_u64(user_shares).checked_mul(net_aum) {
        Some(f) => f,
        None => {
            return Err(AggregatorError::MathOverflow);
        },
    };
    let user_balance = match scaled_shares.checked_div(
        Fraction::from_u64(vault_fields.shares_issued),
    ) {
        Some(f) => f,
        None => {
            return Err(AggregatorError::MathOverflow);
        },
    };

    match user_balance.try_to_floor_u64() {
        Some(v) => Ok(v),
        None => Err(AggregatorError::MathOverflow),
    }
}

/// The share amount whose value is `usdc_amount`, given the user's share
/// count and current balance: `user_shares * usdc_amount / balance`,
/// floored to a whole share count.
pub open spec fn shares_from_usdc_math_spec(user_shares: u64, usdc_amount: u64, balance: u64) -> Option<int> {
    match odiv(
        omul(Some(user_shares * one_bits()), Some(usdc_amount * one_bits())),
        Some(balance * one_bits()),
    ) {
        Some(b) => if b / one_bits() <= u64::MAX {
            Some(b / one_bits())
        } else {
            None
        },
        None => None,
    }
}

/// The inverse valuation: how many venue shares must be redeemed to
/// withdraw `usdc_amount` of the underlying asset. Zero when the current
/// balance is zero.
pub fn get_kamino_shares_amount_from_usdc(
    usdc_amount: u64,
    vault_data: &[u8],
    user_shares: u64,
    reserve_accounts: &Vec<ReserveAccount>,
    current_slot: Option<u64>,
) -> (r: Result<u64, AggregatorError>)
    ensures
        !vault_tag_ok(vault_data@) ==> (r matches Err(e) && e
            == AggregatorError::InvalidAccountData),
        vault_tag_ok(vault_data@) && vault_data@.len() < VAULT_STATE_MIN_LEN ==> (r matches Err(e)
            && e == AggregatorError::InvalidAccountData),
        vault_tag_ok(vault_data@) && vault_data@.len() >= VAULT_STATE_MIN_LEN
            && vault_shares_issued(vault_data@) == 0 ==> (r matches Ok(v) && v == 0),
        vault_tag_ok(vault_data@) && vault_data@.len() >= VAULT_STATE_MIN_LEN
            && vault_shares_issued(vault_data@) != 0 ==> match kamino_balance_math_spec(
            vault_data@,
            reserve_accounts@,
            current_slot,
            user_shares,
        ) {
            RateOutcome::Val(b) => if b == 0 {
                r matches Ok(v) && v == 0
            } else {
                match shares_from_usdc_math_spec(user_shares, usdc_amount, b as u64) {
                    Some(v) => r matches Ok(s) && s == v,
                    None => r matches Err(e) && e == AggregatorError::MathOverflow,
                }
            },
            RateOutcome::Overflow => r matches Err(e) && e == AggregatorError::MathOverflow,
            RateOutcome::BadData => r matches Err(e) && e == AggregatorError::InvalidAccountData,
        },
{
    let kamino_balance = match get_kamino_balance(
        vault_data,
        user_shares,
        reserve_accounts,
        current_slot,
    ) {
        Ok(b) => b,
        Err(e) => {
            return Err(e);
        },
    };

    if kamino_balance == 0 {
        return Ok(0);
    }

    let scaled = match Fraction::from_u64(user_shares).checked_mul(
        Fraction::from_u64(usdc_amount),
    ) {
        Some(f) => f,
        None => {
            return Err(AggregatorError::MathOverflow);
        },
    };
    let shares_amount = match scaled.checked_div(Fraction::from_u64(kamino_balance)) {
        Some(f) => f,
        None => {
            return Err(AggregatorError::MathOverflow);
        },
    };

    match shares_amount.try_to_floor_u64() {
        Some(v) => Ok(v),
        None => Err(AggregatorError::MathOverflow),
    }
}

} // verus!

verus! {

/// An allocation slot whose reserve account was not supplied among the
/// caller's reserve accounts is valued at an exchange rate of exactly 1.0
/// — a deliberate fallback, not an error: the slot still contributes its
/// unadjusted c-token amount (under the raw 10^18 scale factor) to the
/// invested total.
pub proof fn lemma_missing_reserve_uses_unit_rate(
    vault: Seq<u8>,
    reserves: Seq<ReserveAccount>,
    current_slot: Option<u64>,
    i: int,
)
    requires
        vault.len() >= allocation_needed_len(i),
        !is_zero_key(vault.subrange(8 + allocation_base(i), 8 + allocation_base(i) + 32)),
        le_u64(vault, 8 + allocation_base(i) + ALLOCATION_CTOKEN_ALLOCATION) != 0,
        find_reserve_spec(
            reserves,
            vault.subrange(8 + allocation_base(i), 8 + allocation_base(i) + 32),
        ) is None,
    ensures
        slot_contribution_spec(vault, reserves, current_slot, i) == (match odiv(
            omul(
                Some(
                    le_u64(vault, 8 + allocation_base(i) + ALLOCATION_CTOKEN_ALLOCATION)
                        * one_bits(),
                ),
                Some(SCALE_FACTOR_BASE as int),
            ),
            Some(one_bits()),
        ) {
            Some(v) => RateOutcome::Val(v),
            None => RateOutcome::Overflow,
        }),
{
}

} // verus!

use crate::farm_balance::{get_kamino_farm_active_balance, user_state_tag_ok, staked_shares_spec};
use crate::user_state::USER_STATE_MIN_LEN;

verus! {

/// The farm-inclusive share count for a withdrawal: unstaked shares plus
/// the staked count from the farm user-state bytes.
pub open spec fn farm_active_shares_outcome(unstaked: u64, user_state: Seq<u8>) -> Result<
    int,
    AggregatorError,
> {
    if !user_state_tag_ok(user_state) {
        Ok(unstaked as int)
    } else if user_state.len() < USER_STATE_MIN_LEN {
        Err(AggregatorError::InvalidAccountData)
    } else if unstaked + staked_shares_spec(user_state) > u64::MAX {
        Err(AggregatorError::MathOverflow)
    } else {
        Ok(unstaked + staked_shares_spec(user_state))
    }
}

/// The computational core of a withdraw-by-asset-amount: counts the
/// vault's farm-inclusive active shares, then converts the requested
/// asset amount into the venue share amount to redeem.
pub fn kamino_withdraw_shares_for_usdc(
    usdc_to_withdraw: u64,
    vault_data: &[u8],
    unstaked_shares: u64,
    user_state_data: &[u8],
    reserve_accounts: &Vec<ReserveAccount>,
    current_slot: u64,
) -> (r: Result<u64, AggregatorError>)
    ensures
        match farm_active_shares_outcome(unstaked_shares, user_state_data@) {
            Err(e) => r matches Err(e2) && e2 == e,
            Ok(fa) => {
                &&& !vault_tag_ok(vault_data@) ==> (r matches Err(e) && e
                    == AggregatorError::InvalidAccountData)
                &&& vault_tag_ok(vault_data@) && vault_data@.len() < VAULT_STATE_MIN_LEN ==> (
                r matches Err(e) && e == AggregatorError::InvalidAccountData)
                &&& vault_tag_ok(vault_data@) && vault_data@.len() >= VAULT_STATE_MIN_LEN
                    && vault_shares_issued(vault_data@) == 0 ==> (r matches Ok(v) && v == 0)
                &&& vault_tag_ok(vault_data@) && vault_data@.len() >= VAULT_STATE_MIN_LEN
                    && vault_shares_issued(vault_data@) != 0 ==> match kamino_balance_math_spec(
                    vault_data@,
                    reserve_accounts@,
                    Some(current_slot),
                    fa as u64,
                ) {
                    RateOutcome::Val(b) => if b == 0 {
                        r matches Ok(v) && v == 0
                    } else {
                        match shares_from_usdc_math_spec(fa as u64, usdc_to_withdraw, b as u64) {
                            Some(v) => r matches Ok(s) && s == v,
                            None => r matches Err(e) && e == AggregatorError::MathOverflow,
                        }
                    },
                    RateOutcome::Overflow => r matches Err(e) && e
                        == AggregatorError::MathOverflow,
                    RateOutcome::BadData => r matches Err(e) && e
                        == AggregatorError::InvalidAccountData,
                }
            },
        },
{
    let kamino_farm_active_balance = match get_kamino_farm_active_balance(
        unstaked_shares,
        user_state_data,
    ) {
        Ok(v) => v,
        Err(e) => {
            return Err(e);
        },
    };
    get_kamino_shares_amount_from_usdc(
        usdc_to_withdraw,
        vault_data,
        kamino_farm_active_balance,
        reserve_accounts,
        Some(current_slot),
    )
}

} // verus!

verus! {

/// A holder of zero venue shares is owed nothing: whenever the balance
/// math succeeds for zero `user_shares`, its value is zero.
pub proof fn lemma_zero_shares_value_nothing(
    vault: Seq<u8>,
    reserves: Seq<ReserveAccount>,
    current_slot: Option<u64>,
)
    ensures
        match kamino_balance_math_spec(vault, reserves, current_slot, 0) {
            RateOutcome::Val(v) => v == 0,
            _ => true,
        },
{
    match total_invested_spec(vault, reserves, current_slot, MAX_RESERVES as int) {
        RateOutcome::Val(ti) => {
            let aum = oadd(Some(le_u64(vault, 8 + VAULT_TOKEN_AVAILABLE) * one_bits()), Some(ti));
            let net = osub(aum, Some(le_u128(vault, 8 + VAULT_PENDING_FEES_SF)));
            match net {
                Some(n) => {
                    // The numerator is zero shares times anything, so every
                    // later quotient is zero as well.
                    assert(0 * one_bits() == 0) by (nonlinear_arith);
                    assert(0 * n == 0) by (nonlinear_arith);
                    vstd::arithmetic::div_mod::lemma_div_basics_1(one_bits());
                    let d = vault_shares_issued(vault) * one_bits();
                    if d != 0 {
                        vstd::arithmetic::div_mod::lemma_div_basics_1(d);
                    }
                },
                None => {},
            }
        },
        _ => {},
    }
}

} // verus!
