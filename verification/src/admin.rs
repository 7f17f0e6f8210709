//! The owner's commands on the sale's record.

use vstd::prelude::*;
use crate::error::ErrorCode;
use crate::state::{pubkey_eq, Config, Pubkey};

verus! {

/// The record of a sale that `payer` starts at `now`: unpaused, with nothing
/// sold in any round.
pub open spec fn initialized_config(
    payer: Pubkey,
    treasury: Pubkey,
    mint: Pubkey,
    bump: u8,
    now: i64,
) -> Config {
    Config {
        initialized: true,
        owner: payer,
        treasury,
        mint,
        paused: false,
        bump,
        sale_start_time: now,
        round1_tokens_sold: 0,
        round2_tokens_sold: 0,
        round3_tokens_sold: 0,
    }
}

/// Sets the sale up: `payer` becomes its owner, the first round starts at
/// `current_time`, and every counter is zero. It never fails.
pub fn initialize(
    config: &mut Config,
    payer: Pubkey,
    treasury: Pubkey,
    mint: Pubkey,
    bump: u8,
    current_time: i64,
) -> (done: Result<(), ErrorCode>)
    ensures
        done == Ok::<(), ErrorCode>(()),
        *final(config) == initialized_config(payer, treasury, mint, bump, current_time),
        final(config).well_formed(),
{
    config.owner = payer;
    config.treasury = treasury;
    config.mint = mint;
    config.paused = false;
    config.initialized = true;
    config.bump = bump;
    config.sale_start_time = current_time;
    config.round1_tokens_sold = 0;
    config.round2_tokens_sold = 0;
    config.round3_tokens_sold = 0;
    Ok(())
}

/// Pauses or resumes the sale. Fails with `Unauthorized`, and changes
/// nothing, exactly where `caller` is not the owner.
pub fn set_paused(config: &mut Config, caller: &Pubkey, paused: bool) -> (done: Result<
    (),
    ErrorCode,
>)
    ensures
        *caller == old(config).owner ==> done == Ok::<(), ErrorCode>(()) && *final(config) == (
        Config { paused, ..*old(config) }),
        *caller != old(config).owner ==> done == Err::<(), ErrorCode>(ErrorCode::Unauthorized)
            && *final(config) == *old(config),
{
    if !pubkey_eq(caller, &config.owner) {
        return Err(ErrorCode::Unauthorized);
    }
    config.paused = paused;
    Ok(())
}

/// Names another token as the one on sale. Fails with `Unauthorized`, and
/// changes nothing, exactly where `caller` is not the owner.
pub fn update_mint(config: &mut Config, caller: &Pubkey, new_mint: Pubkey) -> (done: Result<
    (),
    ErrorCode,
>)
    ensures
        *caller == old(config).owner ==> done == Ok::<(), ErrorCode>(()) && *final(config) == (
        Config { mint: new_mint, ..*old(config) }),
        *caller != old(config).owner ==> done == Err::<(), ErrorCode>(ErrorCode::Unauthorized)
            && *final(config) == *old(config),
{
    if !pubkey_eq(caller, &config.owner) {
        return Err(ErrorCode::Unauthorized);
    }
    config.mint = new_mint;
    Ok(())
}

/// Restarts the sale at `current_time`: the first round begins again and all
/// three counters go back to zero. Fails with `Unauthorized`, and changes
/// nothing, exactly where `caller` is not the owner.
pub fn update_sale_start_time(config: &mut Config, caller: &Pubkey, current_time: i64) -> (done:
    Result<(), ErrorCode>)
    ensures
        *caller == old(config).owner ==> done == Ok::<(), ErrorCode>(()) && *final(config) == (
        Config {
            sale_start_time: current_time,
            round1_tokens_sold: 0,
            round2_tokens_sold: 0,
            round3_tokens_sold: 0,
            ..*old(config)
        }) && final(config).well_formed(),
        *caller != old(config).owner ==> done == Err::<(), ErrorCode>(ErrorCode::Unauthorized)
            && *final(config) == *old(config),
{
    if !pubkey_eq(caller, &config.owner) {
        return Err(ErrorCode::Unauthorized);
    }
    config.sale_start_time = current_time;
    config.round1_tokens_sold = 0;
    config.round2_tokens_sold = 0;
    config.round3_tokens_sold = 0;
    Ok(())
}

} // verus!
