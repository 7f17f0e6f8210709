//! The sale: tiered prices, currency conversion, the round clock and the
//! ledger that authorises and accounts for purchases.

use vstd::prelude::*;
use crate::error::ErrorCode;
use crate::events::{
    PurchaseEvent, TokenPurchasedWithEurc, TokenPurchasedWithSol, TokenPurchasedWithUsdc,
};
use crate::state::{
    pubkey_eq, AllRoundsInfo, Config, Pubkey, Round, RoundDetails, RoundInfo, BASE_PRICE_TIER_1, BASE_PRICE_TIER_2, BASE_PRICE_TIER_3,
    BASE_PRICE_TIER_4, BASE_PRICE_TIER_5, ROUND_DURATION, TOKENS_PER_ROUND,
};

verus! {

/// The address of the oracle's EUR/USD price account.
pub const PYTH_EUR_USD_MAINNET: Pubkey = [
    0x45, 0x5f, 0x8d, 0x18, 0x19, 0x3a, 0x9c, 0x1a,
    0x6b, 0x0e, 0x3c, 0x7a, 0x7f, 0x8d, 0x1f, 0x8a,
    0x2c, 0x9c, 0x8e, 0x8f, 0x1a, 0x3c, 0x7a, 0x7f,
    0x8d, 0x1f, 0x8a, 0x2c, 0x9c, 0x8e, 0x8f, 0x1a,
];

/// The address of the oracle's SOL/USD price account.
pub const PYTH_SOL_USD_MAINNET: Pubkey = [
    0xef, 0x0d, 0x8b, 0x6f, 0x87, 0xda, 0x2b, 0x0e,
    0x6f, 0x9a, 0x1c, 0x8d, 0x8f, 0x8e, 0x8a, 0x2c,
    0x9c, 0x8e, 0x8f, 0x1a, 0x3c, 0x7a, 0x7f, 0x8d,
    0x1f, 0x8a, 0x2c, 0x9c, 0x8e, 0x8f, 0x1a, 0x3c,
];

/// Fixed exchange rates, in millionths of a US dollar.
pub const MOCK_EUR_USD_RATE: u64 = 1_080_000;

pub const MOCK_SOL_USD_RATE: u64 = 140_000_000;

pub const MOCK_USDC_USD_RATE: u64 = 1_000_000;

/// The scale of an exchange rate: a rate of 1 is written as 1,000,000.
pub const RATE_SCALE: u64 = 1_000_000;

/// The number of smallest units of the native asset in one native coin.
pub const NATIVE_SCALE: u64 = 1_000_000_000;

/// The rate that the fixed table gives for a price account.
pub open spec fn mock_price(price_account: Pubkey) -> u64 {
    if price_account == PYTH_EUR_USD_MAINNET {
        MOCK_EUR_USD_RATE
    } else if price_account == PYTH_SOL_USD_MAINNET {
        MOCK_SOL_USD_RATE
    } else {
        MOCK_USDC_USD_RATE
    }
}

/// Looks up the fixed rate for a price account: EUR/USD and SOL/USD for their
/// two addresses, parity for any other. It never fails.
pub fn get_mock_price(price_account: &Pubkey) -> (rate: Result<u64, ErrorCode>)
    ensures
        rate == Ok::<u64, ErrorCode>(mock_price(*price_account)),
{
    if pubkey_eq(price_account, &PYTH_EUR_USD_MAINNET) {
        Ok(MOCK_EUR_USD_RATE)
    } else if pubkey_eq(price_account, &PYTH_SOL_USD_MAINNET) {
        Ok(MOCK_SOL_USD_RATE)
    } else {
        Ok(MOCK_USDC_USD_RATE)
    }
}

/// The live oracle is not consulted: every lookup reports that no price is
/// available.
pub fn _get_validated_price(_price_account: &Pubkey) -> (rate: Result<u64, ErrorCode>)
    ensures
        rate == Err::<u64, ErrorCode>(ErrorCode::PriceNotAvailable),
{
    Err(ErrorCode::PriceNotAvailable)
}

/// The unit price of the tier that `amount` falls into, before any discount.
pub open spec fn tier_base_price(amount: u64) -> u64 {
    if amount < 1000 {
        BASE_PRICE_TIER_1
    } else if amount < 5000 {
        BASE_PRICE_TIER_2
    } else if amount < 10000 {
        BASE_PRICE_TIER_3
    } else if amount < 25000 {
        BASE_PRICE_TIER_4
    } else {
        BASE_PRICE_TIER_5
    }
}

/// The unit price in the reference currency for an order of `amount` tokens
/// in `round`: the tier's base price times the round's share, rounded down.
pub open spec fn price_per_token(amount: u64, round: Round) -> u64 {
    (tier_base_price(amount) * round.spec_discount_multiplier() / 100) as u64
}

/// The unit price in the reference currency for an order of `amount` tokens
/// in `round`.
pub fn get_stablecoin_price_per_token(amount: u64, round: Round) -> (price: u64)
    ensures
        price == price_per_token(amount, round),
{
    let base_price: u64 = if amount < 1000 {
        BASE_PRICE_TIER_1
    } else if amount < 5000 {
        BASE_PRICE_TIER_2
    } else if amount < 10000 {
        BASE_PRICE_TIER_3
    } else if amount < 25000 {
        BASE_PRICE_TIER_4
    } else {
        BASE_PRICE_TIER_5
    };
    base_price * round.get_discount_multiplier() / 100
}

/// The discounted unit price of each tier in each round, written out.
pub open spec fn price_table(amount: u64, round: Round) -> u64 {
    match round {
        Round::First => if amount < 1000 {
            261_000
        } else if amount < 5000 {
            252_000
        } else if amount < 10000 {
            243_000
        } else if amount < 25000 {
            216_000
        } else {
            162_000
        },
        Round::Second => if amount < 1000 {
            275_500
        } else if amount < 5000 {
            266_000
        } else if amount < 10000 {
            256_500
        } else if amount < 25000 {
            228_000
        } else {
            171_000
        },
        Round::Third => tier_base_price(amount),
    }
}

/// The price formula gives exactly the fifteen prices of the table.
pub proof fn lemma_price_table(amount: u64, round: Round)
    ensures
        price_per_token(amount, round) == price_table(amount, round),
{
    let base = tier_base_price(amount);
    let percent = round.spec_discount_multiplier();
    assert(base == 290_000 || base == 280_000 || base == 270_000 || base == 240_000 || base
        == 180_000);
    assert(percent == 90 || percent == 95 || percent == 100);
    if percent == 90 {
        assert(base * percent == base * 90);
    } else if percent == 95 {
        assert(base * percent == base * 95);
    } else {
        assert(base * percent == base * 100);
    }
}

/// A larger order never pays a higher unit price than a smaller one in the
/// same round.
pub proof fn lemma_price_falls_with_quantity(smaller: u64, larger: u64, round: Round)
    requires
        smaller <= larger,
    ensures
        price_per_token(larger, round) <= price_per_token(smaller, round),
{
    lemma_price_table(smaller, round);
    lemma_price_table(larger, round);
}

/// For a fixed quantity the first round is never dearer than the second, nor
/// the second dearer than the third, which charges the tier's base price.
pub proof fn lemma_price_falls_with_earlier_round(amount: u64)
    ensures
        price_per_token(amount, Round::First) <= price_per_token(amount, Round::Second),
        price_per_token(amount, Round::Second) <= price_per_token(amount, Round::Third),
        price_per_token(amount, Round::Third) == tier_base_price(amount),
{
    lemma_price_table(amount, Round::First);
    lemma_price_table(amount, Round::Second);
    lemma_price_table(amount, Round::Third);
}

/// A reference-currency price in US dollar stablecoin: `price * rate /
/// 1_000_000`, or `None` where the product does not fit in 64 bits.
pub open spec fn to_usdc(eurc_price: u64, eur_usd_rate: u64) -> Option<u64> {
    if eurc_price * eur_usd_rate > u64::MAX {
        None
    } else {
        Some((eurc_price * eur_usd_rate / 1_000_000) as u64)
    }
}

/// A reference-currency price in the native asset: the dollar price scaled to
/// nine decimals and divided by the native asset's dollar rate. `None` where a
/// product does not fit in 64 bits or the rate is zero.
pub open spec fn to_native(eurc_price: u64, eur_usd_rate: u64, sol_usd_rate: u64) -> Option<u64> {
    match to_usdc(eurc_price, eur_usd_rate) {
        None => None,
        Some(usd_price) => if usd_price * 1_000_000_000 > u64::MAX || sol_usd_rate == 0 {
            None
        } else {
            Some((usd_price * 1_000_000_000 / (sol_usd_rate as int)) as u64)
        },
    }
}

/// Converts a reference-currency price to US dollar stablecoin. Fails with
/// `Overflow` exactly where the product leaves 64 bits.
pub fn convert_eurc_price_to_usdc(eurc_price: u64, eur_usd_rate: u64) -> (price: Result<
    u64,
    ErrorCode,
>)
    ensures
        price == match to_usdc(eurc_price, eur_usd_rate) {
            Some(p) => Ok::<u64, ErrorCode>(p),
            None => Err::<u64, ErrorCode>(ErrorCode::Overflow),
        },
{
    match eurc_price.checked_mul(eur_usd_rate) {
        None => Err(ErrorCode::Overflow),
        Some(product) => Ok(product / RATE_SCALE),
    }
}

/// Converts a reference-currency price to the native asset. Fails with
/// `Overflow` exactly where a product leaves 64 bits or the native rate is
/// zero.
pub fn convert_eurc_price_to_sol(eurc_price: u64, eur_usd_rate: u64, sol_usd_rate: u64) -> (price:
    Result<u64, ErrorCode>)
    ensures
        price == match to_native(eurc_price, eur_usd_rate, sol_usd_rate) {
            Some(p) => Ok::<u64, ErrorCode>(p),
            None => Err::<u64, ErrorCode>(ErrorCode::Overflow),
        },
{
    let usd_price: u64 = match eurc_price.checked_mul(eur_usd_rate) {
        None => {
            return Err(ErrorCode::Overflow);
        },
        Some(product) => product / RATE_SCALE,
    };
    match usd_price.checked_mul(NATIVE_SCALE) {
        None => Err(ErrorCode::Overflow),
        Some(scaled) => match scaled.checked_div(sol_usd_rate) {
            None => Err(ErrorCode::Overflow),
            Some(price) => Ok(price),
        },
    }
}

/// The label of the tier that `amount` falls into.
pub open spec fn tier_name(amount: u64) -> Seq<char> {
    if amount < 1000 {
        "Tier 1 (<1K)"@
    } else if amount < 5000 {
        "Tier 2 (1K-5K)"@
    } else if amount < 10000 {
        "Tier 3 (5K-10K)"@
    } else if amount < 25000 {
        "Tier 4 (10K-25K)"@
    } else {
        "Tier 5 (25K+)"@
    }
}

/// The label of the tier that `amount` falls into.
pub fn get_tier_name(amount: u64) -> (name: String)
    ensures
        name@ == tier_name(amount),
{
    if amount < 1000 {
        "Tier 1 (<1K)".to_owned()
    } else if amount < 5000 {
        "Tier 2 (1K-5K)".to_owned()
    } else if amount < 10000 {
        "Tier 3 (5K-10K)".to_owned()
    } else if amount < 25000 {
        "Tier 4 (10K-25K)".to_owned()
    } else {
        "Tier 5 (25K+)".to_owned()
    }
}

/// The round that runs at `now` for a sale started at `sale_start_time`:
/// 30 days each, and none once 90 days have passed.
pub open spec fn round_at(sale_start_time: i64, now: i64) -> Option<Round> {
    let elapsed = now - sale_start_time;
    if elapsed < ROUND_DURATION {
        Some(Round::First)
    } else if elapsed < 2 * ROUND_DURATION {
        Some(Round::Second)
    } else if elapsed < 3 * ROUND_DURATION {
        Some(Round::Third)
    } else {
        None
    }
}

/// Resolves the running round from the record's start time and the current
/// time. Fails with `SaleEnded` exactly where 90 days or more have passed.
pub fn get_current_round(config: &Config, current_time: i64) -> (round: Result<Round, ErrorCode>)
    ensures
        round == match round_at(config.sale_start_time, current_time) {
            Some(r) => Ok::<Round, ErrorCode>(r),
            None => Err::<Round, ErrorCode>(ErrorCode::SaleEnded),
        },
{
    let elapsed_time: i128 = current_time as i128 - config.sale_start_time as i128;
    let round_duration: i128 = ROUND_DURATION as i128;
    if elapsed_time < round_duration {
        Ok(Round::First)
    } else if elapsed_time < round_duration * 2 {
        Ok(Round::Second)
    } else if elapsed_time < round_duration * 3 {
        Ok(Round::Third)
    } else {
        Err(ErrorCode::SaleEnded)
    }
}

/// Whether `amount` more tokens fit under the cap of the round that runs at
/// `now`: the round if they do, and else the failure.
pub open spec fn round_for_purchase(config: Config, amount: u64, now: i64) -> Result<
    Round,
    ErrorCode,
> {
    match round_at(config.sale_start_time, now) {
        None => Err(ErrorCode::SaleEnded),
        Some(round) => if config.sold(round) > TOKENS_PER_ROUND {
            Err(ErrorCode::Overflow)
        } else if amount > TOKENS_PER_ROUND - config.sold(round) {
            Err(ErrorCode::RoundLimitExceeded)
        } else {
            Ok(round)
        },
    }
}

/// Checks that `amount` more tokens fit under the cap of the running round.
/// Fails with `SaleEnded` once 90 days have passed, with `Overflow` where the
/// round's counter is already above the cap, and with `RoundLimitExceeded`
/// where `amount` is more than the round has left.
pub fn check_round_limit(config: &Config, amount: u64, current_time: i64) -> (verdict: Result<
    (),
    ErrorCode,
>)
    ensures
        verdict == match round_for_purchase(*config, amount, current_time) {
            Ok(_) => Ok::<(), ErrorCode>(()),
            Err(e) => Err::<(), ErrorCode>(e),
        },
{
    let current_round = match get_current_round(config, current_time) {
        Ok(round) => round,
        Err(e) => {
            return Err(e);
        },
    };
    let round_tokens_sold = get_round_tokens_sold(config, current_round);
    let remaining_tokens: u64 = match TOKENS_PER_ROUND.checked_sub(round_tokens_sold) {
        Some(remaining) => remaining,
        None => {
            return Err(ErrorCode::Overflow);
        },
    };
    if amount > remaining_tokens {
        return Err(ErrorCode::RoundLimitExceeded);
    }
    Ok(())
}

/// The number of tokens that `round` has sold.
pub fn get_round_tokens_sold(config: &Config, round: Round) -> (sold: u64)
    ensures
        sold == config.sold(round),
{
    match round {
        Round::First => config.round1_tokens_sold,
        Round::Second => config.round2_tokens_sold,
        Round::Third => config.round3_tokens_sold,
    }
}

/// Adds `amount` to the counter of `round`. Fails with `Overflow`, and changes
/// nothing, exactly where the sum leaves 64 bits. The cap is not looked at
/// here: `check_round_limit` does that before a purchase is accepted.
pub fn update_round_tokens_sold(config: &mut Config, round: Round, amount: u64) -> (done: Result<
    (),
    ErrorCode,
>)
    ensures
        old(config).sold(round) + amount <= u64::MAX ==> done == Ok::<(), ErrorCode>(())
            && *final(config) == old(config).with_sold(
            round,
            (old(config).sold(round) + amount) as u64,
        ),
        old(config).sold(round) + amount > u64::MAX ==> done == Err::<(), ErrorCode>(
            ErrorCode::Overflow,
        ) && *final(config) == *old(config),
{
    match round {
        Round::First => {
            match config.round1_tokens_sold.checked_add(amount) {
                Some(sold) => {
                    config.round1_tokens_sold = sold;
                },
                None => {
                    return Err(ErrorCode::Overflow);
                },
            }
        },
        Round::Second => {
            match config.round2_tokens_sold.checked_add(amount) {
                Some(sold) => {
                    config.round2_tokens_sold = sold;
                },
                None => {
                    return Err(ErrorCode::Overflow);
                },
            }
        },
        Round::Third => {
            match config.round3_tokens_sold.checked_add(amount) {
                Some(sold) => {
                    config.round3_tokens_sold = sold;
                },
                None => {
                    return Err(ErrorCode::Overflow);
                },
            }
        },
    }
    Ok(())
}

/// Ten to the power `n`.
pub open spec fn pow10(n: nat) -> nat
    decreases n,
{
    if n == 0 {
        1
    } else {
        10 * pow10((n - 1) as nat)
    }
}

/// Powers of ten grow with the exponent.
pub proof fn lemma_pow10_grows(smaller: nat, larger: nat)
    requires
        smaller <= larger,
    ensures
        1 <= pow10(smaller) <= pow10(larger),
    decreases larger,
{
    if smaller < larger {
        lemma_pow10_grows(smaller, (larger - 1) as nat);
    } else if smaller > 0 {
        lemma_pow10_grows((smaller - 1) as nat, (larger - 1) as nat);
    }
}

/// `amount` whole tokens in the token's smallest units, for a token with
/// `decimals` decimal places; `None` where the scale or the product does not
/// fit in 64 bits.
pub open spec fn base_units(amount: u64, decimals: u8) -> Option<u64> {
    if pow10(decimals as nat) > u64::MAX || amount * pow10(decimals as nat) > u64::MAX {
        None
    } else {
        Some((amount * pow10(decimals as nat)) as u64)
    }
}

/// Scales `amount` whole tokens to the token's smallest units. Fails with
/// `Overflow` exactly where ten to the power `decimals`, or its product with
/// `amount`, leaves 64 bits.
pub fn to_base_units(amount: u64, decimals: u8) -> (units: Result<u64, ErrorCode>)
    ensures
        units == match base_units(amount, decimals) {
            Some(u) => Ok::<u64, ErrorCode>(u),
            None => Err::<u64, ErrorCode>(ErrorCode::Overflow),
        },
{
    let mut factor: u64 = 1;
    let mut i: u8 = 0;
    while i < decimals
        invariant
            i <= decimals,
            factor == pow10(i as nat),
        decreases decimals - i,
    {
        match factor.checked_mul(10) {
            Some(next) => {
                factor = next;
            },
            None => {
                proof {
                    lemma_pow10_grows((i + 1) as nat, decimals as nat);
                }
                return Err(ErrorCode::Overflow);
            },
        }
        i += 1;
    }
    match amount.checked_mul(factor) {
        Some(units) => Ok(units),
        None => Err(ErrorCode::Overflow),
    }
}

/// The currency that a buyer pays in, with the exchange rates that turn the
/// reference price into it.
#[derive(Clone, Copy, Debug, PartialEq, Eq)]
pub enum Payment {
    Sol { eur_usd_rate: u64, sol_usd_rate: u64 },
    Eurc,
    Usdc { eur_usd_rate: u64 },
}

/// The reference-currency price in the currency of `payment`; `None` where
/// the conversion overflows.
pub open spec fn settlement_price(eurc_price: u64, payment: Payment) -> Option<u64> {
    match payment {
        Payment::Sol { eur_usd_rate, sol_usd_rate } => to_native(
            eurc_price,
            eur_usd_rate,
            sol_usd_rate,
        ),
        Payment::Eurc => Some(eurc_price),
        Payment::Usdc { eur_usd_rate } => to_usdc(eurc_price, eur_usd_rate),
    }
}

/// An accepted purchase: what the custodian is to transfer and to mint, and
/// what the event will record once both are done.
#[derive(Clone, Copy, Debug, PartialEq, Eq)]
pub struct Purchase {
    pub buyer: Pubkey,
    /// Whole tokens bought.
    pub token_amount: u64,
    pub round: Round,
    pub payment: Payment,
    /// The unit price in the reference currency.
    pub eurc_per_token: u64,
    /// The unit price in the settlement currency.
    pub price_per_token: u64,
    /// What the buyer pays the treasury, in the settlement currency.
    pub total_price: u64,
    /// What is minted to the buyer, in the token's smallest units.
    pub base_units: u64,
    pub timestamp: i64,
}

/// The verdict on a purchase request, by the ordered checks of the sale: the
/// record is initialized, the sale is not paused, the quantity is not zero, a
/// round is running, the quantity fits under the round's cap, and the price,
/// the total and the minted units all fit in 64 bits. The first check that
/// fails decides the error.
pub open spec fn authorize(
    config: Config,
    buyer: Pubkey,
    amount: u64,
    mint_decimals: u8,
    now: i64,
    payment: Payment,
) -> Result<Purchase, ErrorCode> {
    if !config.initialized {
        Err(ErrorCode::NotInitialized)
    } else if config.paused {
        Err(ErrorCode::SalePaused)
    } else if amount == 0 {
        Err(ErrorCode::InvalidAmount)
    } else {
        match round_for_purchase(config, amount, now) {
            Err(e) => Err(e),
            Ok(round) => {
                let eurc_per_token = price_per_token(amount, round);
                match settlement_price(eurc_per_token, payment) {
                    None => Err(ErrorCode::Overflow),
                    Some(unit) => if amount * unit > u64::MAX {
                        Err(ErrorCode::Overflow)
                    } else {
                        match base_units(amount, mint_decimals) {
                            None => Err(ErrorCode::Overflow),
                            Some(units) => Ok(
                                Purchase {
                                    buyer,
                                    token_amount: amount,
                                    round,
                                    payment,
                                    eurc_per_token,
                                    price_per_token: unit,
                                    total_price: (amount * unit) as u64,
                                    base_units: units,
                                    timestamp: now,
                                },
                            ),
                        }
                    },
                }
            },
        }
    }
}

/// Runs the ordered checks of a purchase and prices it. The record is only
/// read: nothing is charged, minted or counted here.
fn authorize_purchase(
    config: &Config,
    buyer: Pubkey,
    amount: u64,
    mint_decimals: u8,
    current_time: i64,
    payment: Payment,
) -> (verdict: Result<Purchase, ErrorCode>)
    ensures
        verdict == authorize(*config, buyer, amount, mint_decimals, current_time, payment),
{
    if !config.initialized {
        return Err(ErrorCode::NotInitialized);
    }
    if config.paused {
        return Err(ErrorCode::SalePaused);
    }
    if amount == 0 {
        return Err(ErrorCode::InvalidAmount);
    }
    let current_round = match get_current_round(config, current_time) {
        Ok(round) => round,
        Err(e) => {
            return Err(e);
        },
    };
    match check_round_limit(config, amount, current_time) {
        Ok(_) => {},
        Err(e) => {
            return Err(e);
        },
    }
    let eurc_per_token = get_stablecoin_price_per_token(amount, current_round);
    let converted = match payment {
        Payment::Sol { eur_usd_rate, sol_usd_rate } => convert_eurc_price_to_sol(
            eurc_per_token,
            eur_usd_rate,
            sol_usd_rate,
        ),
        Payment::Eurc => Ok(eurc_per_token),
        Payment::Usdc { eur_usd_rate } => convert_eurc_price_to_usdc(eurc_per_token, eur_usd_rate),
    };
    let price_per_token = match converted {
        Ok(price) => price,
        Err(e) => {
            return Err(e);
        },
    };
    let total_price = match amount.checked_mul(price_per_token) {
        Some(total) => total,
        None => {
            return Err(ErrorCode::Overflow);
        },
    };
    let base_units = match to_base_units(amount, mint_decimals) {
        Ok(units) => units,
        Err(e) => {
            return Err(e);
        },
    };
    Ok(
        Purchase {
            buyer,
            token_amount: amount,
            round: current_round,
            payment,
            eurc_per_token,
            price_per_token,
            total_price,
            base_units,
            timestamp: current_time,
        },
    )
}

/// Accepts or rejects a purchase paid in the native asset, priced with the
/// rates of the two price accounts. On acceptance the custodian is to move
/// `total_price` from the buyer to the treasury and then mint `base_units` to
/// the buyer; `settle_purchase` takes its report.
pub fn buy(
    config: &Config,
    buyer: Pubkey,
    amount: u64,
    mint_decimals: u8,
    current_time: i64,
    pyth_eur_usd_account: &Pubkey,
    pyth_sol_usd_account: &Pubkey,
) -> (verdict: Result<Purchase, ErrorCode>)
    ensures
        verdict == authorize(
            *config,
            buyer,
            amount,
            mint_decimals,
            current_time,
            (Payment::Sol {
                eur_usd_rate: mock_price(*pyth_eur_usd_account),
                sol_usd_rate: mock_price(*pyth_sol_usd_account),
            }),
        ),
{
    let eur_usd_rate = match get_mock_price(pyth_eur_usd_account) {
        Ok(rate) => rate,
        Err(e) => {
            return Err(e);
        },
    };
    let sol_usd_rate = match get_mock_price(pyth_sol_usd_account) {
        Ok(rate) => rate,
        Err(e) => {
            return Err(e);
        },
    };
    authorize_purchase(
        config,
        buyer,
        amount,
        mint_decimals,
        current_time,
        Payment::Sol { eur_usd_rate, sol_usd_rate },
    )
}

/// Accepts or rejects a purchase paid in the reference currency, which needs
/// no conversion.
pub fn buy_with_eurc(
    config: &Config,
    buyer: Pubkey,
    amount: u64,
    mint_decimals: u8,
    current_time: i64,
) -> (verdict: Result<Purchase, ErrorCode>)
    ensures
        verdict == authorize(*config, buyer, amount, mint_decimals, current_time, Payment::Eurc),
{
    authorize_purchase(config, buyer, amount, mint_decimals, current_time, Payment::Eurc)
}

/// Accepts or rejects a purchase paid in US dollar stablecoin, priced with
/// the rate of the EUR/USD price account.
pub fn buy_with_usdc(
    config: &Config,
    buyer: Pubkey,
    amount: u64,
    mint_decimals: u8,
    current_time: i64,
    pyth_eur_usd_account: &Pubkey,
) -> (verdict: Result<Purchase, ErrorCode>)
    ensures
        verdict == authorize(
            *config,
            buyer,
            amount,
            mint_decimals,
            current_time,
            (Payment::Usdc { eur_usd_rate: mock_price(*pyth_eur_usd_account) }),
        ),
{
    let eur_usd_rate = match get_mock_price(pyth_eur_usd_account) {
        Ok(rate) => rate,
        Err(e) => {
            return Err(e);
        },
    };
    authorize_purchase(
        config,
        buyer,
        amount,
        mint_decimals,
        current_time,
        Payment::Usdc { eur_usd_rate },
    )
}

/// What the custodian reports after it was asked to carry out an accepted
/// purchase: the transfer first, and the mint only after the transfer.
#[derive(Clone, Copy, Debug, PartialEq, Eq, Structural)]
pub enum CustodianReport {
    /// The payment was transferred and the tokens were minted.
    Completed,
    /// The payment transfer failed; no mint was asked for.
    TransferFailed,
    /// The payment was transferred and the mint failed.
    MintFailed,
}

/// Whether a purchase can be committed to the record: both effects are done
/// and the quantity still fits under the round's cap.
pub open spec fn settlement(config: Config, purchase: Purchase, report: CustodianReport) -> Result<
    (),
    ErrorCode,
> {
    match report {
        CustodianReport::TransferFailed => Err(ErrorCode::TransferFailed),
        CustodianReport::MintFailed => Err(ErrorCode::MintFailed),
        CustodianReport::Completed => if config.sold(purchase.round) > TOKENS_PER_ROUND {
            Err(ErrorCode::Overflow)
        } else if purchase.token_amount > TOKENS_PER_ROUND - config.sold(purchase.round) {
            Err(ErrorCode::RoundLimitExceeded)
        } else {
            Ok(())
        },
    }
}

/// The record after the custodian's report on a purchase: the round's counter
/// grown by the quantity where the purchase can be committed, and the record
/// as it was where it cannot.
pub open spec fn settled(config: Config, purchase: Purchase, report: CustodianReport) -> Config {
    if settlement(config, purchase, report).is_ok() {
        config.with_sold(
            purchase.round,
            (config.sold(purchase.round) + purchase.token_amount) as u64,
        )
    } else {
        config
    }
}

/// The record after a run of purchases, each with the custodian's report on
/// it, settled one after the other.
pub open spec fn settled_all(config: Config, run: Seq<(Purchase, CustodianReport)>) -> Config
    decreases run.len(),
{
    if run.len() == 0 {
        config
    } else {
        settled(settled_all(config, run.drop_last()), run.last().0, run.last().1)
    }
}

/// Whether `event` is the record of `purchase`: the event of its currency,
/// with the purchase's numbers, the currency's name and the tier's label.
pub open spec fn event_records(event: PurchaseEvent, purchase: Purchase) -> bool {
    match purchase.payment {
        Payment::Sol { eur_usd_rate, sol_usd_rate } => match event {
            PurchaseEvent::Sol(e) => {
                &&& e.buyer == purchase.buyer
                &&& e.token_amount == purchase.token_amount
                &&& e.sol_amount == purchase.total_price
                &&& e.sol_per_token == purchase.price_per_token
                &&& e.eur_usd_rate == eur_usd_rate
                &&& e.sol_usd_rate == sol_usd_rate
                &&& e.equivalent_eurc_price == purchase.eurc_per_token
                &&& e.timestamp == purchase.timestamp
                &&& e.payment_method@ == "SOL"@
                &&& e.tier@ == tier_name(purchase.token_amount)
                &&& e.round == purchase.round.spec_number()
            },
            _ => false,
        },
        Payment::Eurc => match event {
            PurchaseEvent::Eurc(e) => {
                &&& e.buyer == purchase.buyer
                &&& e.token_amount == purchase.token_amount
                &&& e.eurc_amount == purchase.total_price
                &&& e.eurc_per_token == purchase.price_per_token
                &&& e.timestamp == purchase.timestamp
                &&& e.payment_method@ == "EURC"@
                &&& e.tier@ == tier_name(purchase.token_amount)
                &&& e.round == purchase.round.spec_number()
            },
            _ => false,
        },
        Payment::Usdc { eur_usd_rate } => match event {
            PurchaseEvent::Usdc(e) => {
                &&& e.buyer == purchase.buyer
                &&& e.token_amount == purchase.token_amount
                &&& e.usdc_amount == purchase.total_price
                &&& e.usdc_per_token == purchase.price_per_token
                &&& e.eur_usd_rate == eur_usd_rate
                &&& e.equivalent_eurc_price == purchase.eurc_per_token
                &&& e.timestamp == purchase.timestamp
                &&& e.payment_method@ == "USDC"@
                &&& e.tier@ == tier_name(purchase.token_amount)
                &&& e.round == purchase.round.spec_number()
            },
            _ => false,
        },
    }
}

/// Writes the event of a purchase.
fn purchase_event(purchase: &Purchase) -> (event: PurchaseEvent)
    ensures
        event_records(event, *purchase),
{
    let tier = get_tier_name(purchase.token_amount);
    let round = purchase.round.number();
    match purchase.payment {
        Payment::Sol { eur_usd_rate, sol_usd_rate } => PurchaseEvent::Sol(
            TokenPurchasedWithSol {
                buyer: purchase.buyer,
                token_amount: purchase.token_amount,
                sol_amount: purchase.total_price,
                sol_per_token: purchase.price_per_token,
                eur_usd_rate,
                sol_usd_rate,
                equivalent_eurc_price: purchase.eurc_per_token,
                timestamp: purchase.timestamp,
                payment_method: "SOL".to_owned(),
                tier,
                round,
            },
        ),
        Payment::Eurc => PurchaseEvent::Eurc(
            TokenPurchasedWithEurc {
                buyer: purchase.buyer,
                token_amount: purchase.token_amount,
                eurc_amount: purchase.total_price,
                eurc_per_token: purchase.price_per_token,
                timestamp: purchase.timestamp,
                payment_method: "EURC".to_owned(),
                tier,
                round,
            },
        ),
        Payment::Usdc { eur_usd_rate } => PurchaseEvent::Usdc(
            TokenPurchasedWithUsdc {
                buyer: purchase.buyer,
                token_amount: purchase.token_amount,
                usdc_amount: purchase.total_price,
                usdc_per_token: purchase.price_per_token,
                eur_usd_rate,
                equivalent_eurc_price: purchase.eurc_per_token,
                timestamp: purchase.timestamp,
                payment_method: "USDC".to_owned(),
                tier,
                round,
            },
        ),
    }
}

/// Commits an accepted purchase once the custodian has reported. Where the
/// transfer or the mint failed, or the quantity no longer fits under the
/// round's cap, the record is left as it was and the failure is returned.
/// Otherwise the round's counter grows by the quantity and the purchase's
/// event is returned.
pub fn settle_purchase(config: &mut Config, purchase: &Purchase, report: CustodianReport) -> (event:
    Result<PurchaseEvent, ErrorCode>)
    ensures
        *final(config) == settled(*old(config), *purchase, report),
        match settlement(*old(config), *purchase, report) {
            Err(e) => event == Err::<PurchaseEvent, ErrorCode>(e),
            Ok(_) => event.is_ok() && event_records(event.unwrap(), *purchase),
        },
        old(config).well_formed() ==> final(config).well_formed(),
{
    match report {
        CustodianReport::TransferFailed => {
            return Err(ErrorCode::TransferFailed);
        },
        CustodianReport::MintFailed => {
            return Err(ErrorCode::MintFailed);
        },
        CustodianReport::Completed => {},
    }
    let sold = get_round_tokens_sold(config, purchase.round);
    if sold > TOKENS_PER_ROUND {
        return Err(ErrorCode::Overflow);
    }
    if purchase.token_amount > TOKENS_PER_ROUND - sold {
        return Err(ErrorCode::RoundLimitExceeded);
    }
    match update_round_tokens_sold(config, purchase.round, purchase.token_amount) {
        Ok(_) => {},
        Err(e) => {
            return Err(e);
        },
    }
    Ok(purchase_event(purchase))
}

/// A purchase that was accepted against a record can be committed to that
/// record once the custodian reports that it is done.
pub proof fn lemma_accepted_purchase_settles(
    config: Config,
    buyer: Pubkey,
    amount: u64,
    mint_decimals: u8,
    now: i64,
    payment: Payment,
)
    requires
        authorize(config, buyer, amount, mint_decimals, now, payment).is_ok(),
    ensures
        settlement(
            config,
            authorize(config, buyer, amount, mint_decimals, now, payment).unwrap(),
            CustodianReport::Completed,
        ).is_ok(),
        settled(
            config,
            authorize(config, buyer, amount, mint_decimals, now, payment).unwrap(),
            CustodianReport::Completed,
        ) == config.with_sold(
            round_at(config.sale_start_time, now).unwrap(),
            (config.sold(round_at(config.sale_start_time, now).unwrap()) + amount) as u64,
        ),
{
}

/// No round's counter ever passes the cap: whatever purchases are settled,
/// in whatever order and with whatever reports, a record that respects the
/// cap still respects it afterwards.
pub proof fn lemma_cap_is_never_passed(config: Config, run: Seq<(Purchase, CustodianReport)>)
    requires
        config.well_formed(),
    ensures
        settled_all(config, run).well_formed(),
    decreases run.len(),
{
    if run.len() > 0 {
        lemma_cap_is_never_passed(config, run.drop_last());
    }
}

/// Counters only grow: settling a run of purchases lowers no round's counter.
pub proof fn lemma_counters_never_fall(
    config: Config,
    run: Seq<(Purchase, CustodianReport)>,
    round: Round,
)
    ensures
        config.sold(round) <= settled_all(config, run).sold(round),
    decreases run.len(),
{
    if run.len() > 0 {
        lemma_counters_never_fall(config, run.drop_last(), round);
    }
}

/// A request for more tokens than the running round has left is refused with
/// `RoundLimitExceeded`, in every currency, provided that it comes that far:
/// the record is initialized, the sale is not paused and a round is running.
/// Accepting only reads the record, and settling such a quantity in that
/// round, whatever the custodian reports, leaves every counter as it was.
pub proof fn lemma_over_cap_is_refused(
    config: Config,
    buyer: Pubkey,
    amount: u64,
    mint_decimals: u8,
    now: i64,
    payment: Payment,
    forged: Purchase,
    report: CustodianReport,
)
    requires
        config.well_formed(),
        config.initialized,
        !config.paused,
        round_at(config.sale_start_time, now).is_some(),
        amount > TOKENS_PER_ROUND - config.sold(round_at(config.sale_start_time, now).unwrap()),
        forged.token_amount == amount,
        forged.round == round_at(config.sale_start_time, now).unwrap(),
    ensures
        authorize(config, buyer, amount, mint_decimals, now, payment) == Err::<
            Purchase,
            ErrorCode,
        >(ErrorCode::RoundLimitExceeded),
        settled(config, forged, report) == config,
        report == CustodianReport::Completed ==> settlement(config, forged, report) == Err::<
            (),
            ErrorCode,
        >(ErrorCode::RoundLimitExceeded),
{
}

/// Once 90 days have passed every request on an initialized, unpaused sale
/// for a quantity above zero is refused with `SaleEnded`, whatever the rounds
/// have left.
pub proof fn lemma_ended_sale_refuses(
    config: Config,
    buyer: Pubkey,
    amount: u64,
    mint_decimals: u8,
    now: i64,
    payment: Payment,
)
    requires
        config.initialized,
        !config.paused,
        amount > 0,
        now - config.sale_start_time >= 3 * ROUND_DURATION,
    ensures
        authorize(config, buyer, amount, mint_decimals, now, payment) == Err::<
            Purchase,
            ErrorCode,
        >(ErrorCode::SaleEnded),
{
}

/// What a round with `sold` tokens sold has left; nothing where the counter
/// is above the cap.
pub open spec fn remaining_of(sold: u64) -> u64 {
    if sold <= TOKENS_PER_ROUND {
        (TOKENS_PER_ROUND - sold) as u64
    } else {
        0
    }
}

/// The view of the round that runs at `now`: its number, its window, and what
/// it has sold and has left. There is none once the sale has ended, nor where
/// the end of the round's window is past the last second that 64 bits hold.
pub open spec fn round_info_at(config: Config, now: i64) -> Result<RoundInfo, ErrorCode> {
    match round_at(config.sale_start_time, now) {
        None => Err(ErrorCode::SaleEnded),
        Some(round) => {
            let round_start = config.sale_start_time + (round.spec_number() - 1) * ROUND_DURATION;
            if round_start + ROUND_DURATION > i64::MAX {
                Err(ErrorCode::Overflow)
            } else {
                Ok(
                    RoundInfo {
                        current_round: round.spec_number(),
                        round_start_time: round_start as i64,
                        round_end_time: (round_start + ROUND_DURATION) as i64,
                        sale_start_time: config.sale_start_time,
                        total_duration: (3 * ROUND_DURATION) as i64,
                        round_tokens_sold: config.sold(round),
                        remaining_tokens: remaining_of(config.sold(round)),
                        tokens_per_round: TOKENS_PER_ROUND,
                    },
                )
            }
        },
    }
}

/// Reports on the running round. Fails with `SaleEnded` once 90 days have
/// passed, and with `Overflow` where the round's end cannot be written as a
/// timestamp.
pub fn get_round_info(config: &Config, current_time: i64) -> (info: Result<RoundInfo, ErrorCode>)
    ensures
        info == round_info_at(*config, current_time),
{
    let current_round = match get_current_round(config, current_time) {
        Ok(round) => round,
        Err(e) => {
            return Err(e);
        },
    };
    let offset: i64 = match current_round {
        Round::First => 0,
        Round::Second => ROUND_DURATION,
        Round::Third => 2 * ROUND_DURATION,
    };
    let round_start = match config.sale_start_time.checked_add(offset) {
        Some(start) => start,
        None => {
            return Err(ErrorCode::Overflow);
        },
    };
    let round_end = match round_start.checked_add(ROUND_DURATION) {
        Some(end) => end,
        None => {
            return Err(ErrorCode::Overflow);
        },
    };
    let round_tokens_sold = get_round_tokens_sold(config, current_round);
    let remaining_tokens = TOKENS_PER_ROUND.saturating_sub(round_tokens_sold);
    Ok(
        RoundInfo {
            current_round: current_round.number(),
            round_start_time: round_start,
            round_end_time: round_end,
            sale_start_time: config.sale_start_time,
            total_duration: ROUND_DURATION * 3,
            round_tokens_sold,
            remaining_tokens,
            tokens_per_round: TOKENS_PER_ROUND,
        },
    )
}

/// What one round has sold and has left, of its cap.
pub open spec fn round_details(sold: u64) -> RoundDetails {
    RoundDetails { tokens_sold: sold, remaining: remaining_of(sold), total: TOKENS_PER_ROUND }
}

/// The view of all three rounds. The grand total sold is the sum of the three
/// counters, and 0 where that sum does not fit in 64 bits.
pub open spec fn all_rounds_info(config: Config) -> AllRoundsInfo {
    let sum = config.round1_tokens_sold + config.round2_tokens_sold + config.round3_tokens_sold;
    AllRoundsInfo {
        round1: round_details(config.round1_tokens_sold),
        round2: round_details(config.round2_tokens_sold),
        round3: round_details(config.round3_tokens_sold),
        total_tokens_sold: if sum <= u64::MAX {
            sum as u64
        } else {
            0
        },
        total_tokens: (3 * TOKENS_PER_ROUND) as u64,
    }
}

/// Reports on all three rounds and the totals over them. It never fails.
pub fn get_all_rounds_info(config: &Config) -> (info: Result<AllRoundsInfo, ErrorCode>)
    ensures
        info == Ok::<AllRoundsInfo, ErrorCode>(all_rounds_info(*config)),
{
    let total_tokens_sold: u64 = match config.round1_tokens_sold.checked_add(
        config.round2_tokens_sold,
    ) {
        None => 0,
        Some(sum) => match sum.checked_add(config.round3_tokens_sold) {
            None => 0,
            Some(total) => total,
        },
    };
    Ok(
        AllRoundsInfo {
            round1: RoundDetails {
                tokens_sold: config.round1_tokens_sold,
                remaining: TOKENS_PER_ROUND.saturating_sub(config.round1_tokens_sold),
                total: TOKENS_PER_ROUND,
            },
            round2: RoundDetails {
                tokens_sold: config.round2_tokens_sold,
                remaining: TOKENS_PER_ROUND.saturating_sub(config.round2_tokens_sold),
                total: TOKENS_PER_ROUND,
            },
            round3: RoundDetails {
                tokens_sold: config.round3_tokens_sold,
                remaining: TOKENS_PER_ROUND.saturating_sub(config.round3_tokens_sold),
                total: TOKENS_PER_ROUND,
            },
            total_tokens_sold,
            total_tokens: TOKENS_PER_ROUND * 3,
        },
    )
}

} // verus!
