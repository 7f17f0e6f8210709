//! The facts that a completed purchase or claim leaves behind.

use vstd::prelude::*;
use crate::state::Pubkey;

verus! {

/// A purchase paid in the native asset.
#[derive(Clone, Debug, PartialEq, Eq)]
pub struct TokenPurchasedWithSol {
    pub buyer: Pubkey,
    pub token_amount: u64,
    pub sol_amount: u64,
    pub sol_per_token: u64,
    pub eur_usd_rate: u64,
    pub sol_usd_rate: u64,
    pub equivalent_eurc_price: u64,
    pub timestamp: i64,
    pub payment_method: String,
    pub tier: String,
    pub round: u8,
}

/// A purchase paid in the reference currency.
#[derive(Clone, Debug, PartialEq, Eq)]
pub struct TokenPurchasedWithEurc {
    pub buyer: Pubkey,
    pub token_amount: u64,
    pub eurc_amount: u64,
    pub eurc_per_token: u64,
    pub timestamp: i64,
    pub payment_method: String,
    pub tier: String,
    pub round: u8,
}

/// A purchase paid in US dollar stablecoin.
#[derive(Clone, Debug, PartialEq, Eq)]
pub struct TokenPurchasedWithUsdc {
    pub buyer: Pubkey,
    pub token_amount: u64,
    pub usdc_amount: u64,
    pub usdc_per_token: u64,
    pub eur_usd_rate: u64,
    pub equivalent_eurc_price: u64,
    pub timestamp: i64,
    pub payment_method: String,
    pub tier: String,
    pub round: u8,
}

/// The event of a completed purchase, by settlement currency.
#[derive(Clone, Debug, PartialEq, Eq)]
pub enum PurchaseEvent {
    Sol(TokenPurchasedWithSol),
    Eurc(TokenPurchasedWithEurc),
    Usdc(TokenPurchasedWithUsdc),
}

/// A completed airdrop claim. `amount` is the allocation that was claimed, in
/// whole tokens.
#[derive(Clone, Copy, Debug, PartialEq, Eq)]
pub struct ClaimEvent {
    pub claimer: Pubkey,
    pub amount: u64,
    pub timestamp: i64,
    pub merkle_root: [u8; 32],
}

} // verus!
