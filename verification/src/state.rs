//! The sale's record, its rounds and the read-only views of both.

use vstd::prelude::*;

verus! {

/// A 32-byte account address.
pub type Pubkey = [u8; 32];

/// Whether two addresses, or two digests, hold the same bytes.
pub fn pubkey_eq(a: &Pubkey, b: &Pubkey) -> (same: bool)
    ensures
        same == (*a == *b),
{
    let mut i: usize = 0;
    while i < 32
        invariant
            i <= 32,
            forall|j: int| 0 <= j < i ==> a[j] == b[j],
        decreases 32 - i,
    {
        if a[i] != b[i] {
            return false;
        }
        i += 1;
    }
    assert(*a =~= *b);
    true
}

/// Unit prices of the five quantity tiers in the last round, in millionths of
/// the reference currency.
pub const BASE_PRICE_TIER_1: u64 = 290_000;

pub const BASE_PRICE_TIER_2: u64 = 280_000;

pub const BASE_PRICE_TIER_3: u64 = 270_000;

pub const BASE_PRICE_TIER_4: u64 = 240_000;

pub const BASE_PRICE_TIER_5: u64 = 180_000;

/// The number of tokens that one round may sell.
pub const TOKENS_PER_ROUND: u64 = 1_000_000;

/// The length of one round in seconds: 30 days.
pub const ROUND_DURATION: i64 = 2_592_000;

pub const USDC_MINT: &'static str = "4zMMC9srt5Ri5X14GAgXhaHii3GnPAEERYPJgZJDncDU";

pub const EURC_MINT: &'static str = "HzwqbKZw8HxMN6bF2yFZNrht3c2iXXzpKcFu7uBEDKtr";

/// One of the three pricing phases of the sale.
#[derive(Clone, Copy, Debug, PartialEq, Eq, Structural)]
pub enum Round {
    First,
    Second,
    Third,
}

impl Round {
    /// The round's position in the sale, counted from 1.
    pub open spec fn spec_number(self) -> u8 {
        match self {
            Round::First => 1,
            Round::Second => 2,
            Round::Third => 3,
        }
    }

    /// The round's position in the sale, counted from 1.
    #[verifier::when_used_as_spec(spec_number)]
    pub fn number(self) -> (n: u8)
        ensures
            n == self.spec_number(),
    {
        match self {
            Round::First => 1,
            Round::Second => 2,
            Round::Third => 3,
        }
    }

    /// The share of the base price that this round charges, in percent.
    pub open spec fn spec_discount_multiplier(&self) -> u64 {
        match *self {
            Round::First => 90,
            Round::Second => 95,
            Round::Third => 100,
        }
    }

    /// The share of the base price that this round charges, in percent: 90 in
    /// the first round, 95 in the second, 100 in the third.
    #[verifier::when_used_as_spec(spec_discount_multiplier)]
    pub fn get_discount_multiplier(&self) -> (percent: u64)
        ensures
            percent == self.spec_discount_multiplier(),
    {
        match self {
            Round::First => 90,
            Round::Second => 95,
            Round::Third => 100,
        }
    }
}

/// The sale's record: who administers it, where payments go, and how many
/// tokens each round has sold.
#[derive(Clone, Copy, Debug, PartialEq, Eq)]
pub struct Config {
    pub initialized: bool,
    pub owner: Pubkey,
    pub treasury: Pubkey,
    pub mint: Pubkey,
    pub paused: bool,
    pub bump: u8,
    pub sale_start_time: i64,
    pub round1_tokens_sold: u64,
    pub round2_tokens_sold: u64,
    pub round3_tokens_sold: u64,
}

impl Config {
    /// The bytes that a stored record takes.
    pub const SIZE: usize = 139;

    /// The number of tokens that `round` has sold.
    pub open spec fn sold(self, round: Round) -> u64 {
        match round {
            Round::First => self.round1_tokens_sold,
            Round::Second => self.round2_tokens_sold,
            Round::Third => self.round3_tokens_sold,
        }
    }

    /// No round has sold more than its cap.
    pub open spec fn well_formed(self) -> bool {
        &&& self.round1_tokens_sold <= TOKENS_PER_ROUND
        &&& self.round2_tokens_sold <= TOKENS_PER_ROUND
        &&& self.round3_tokens_sold <= TOKENS_PER_ROUND
    }

    /// This record with the counter of `round` set to `sold`.
    pub open spec fn with_sold(self, round: Round, sold: u64) -> Config {
        match round {
            Round::First => Config { round1_tokens_sold: sold, ..self },
            Round::Second => Config { round2_tokens_sold: sold, ..self },
            Round::Third => Config { round3_tokens_sold: sold, ..self },
        }
    }
}

/// The running round: its window and what it has sold.
#[derive(Clone, Copy, Debug, PartialEq, Eq)]
pub struct RoundInfo {
    pub current_round: u8,
    pub round_start_time: i64,
    pub round_end_time: i64,
    pub sale_start_time: i64,
    pub total_duration: i64,
    pub round_tokens_sold: u64,
    pub remaining_tokens: u64,
    pub tokens_per_round: u64,
}

/// What one round has sold and what it has left.
#[derive(Clone, Copy, Debug, PartialEq, Eq)]
pub struct RoundDetails {
    pub tokens_sold: u64,
    pub remaining: u64,
    pub total: u64,
}

/// All three rounds and the totals over them.
#[derive(Clone, Copy, Debug, PartialEq, Eq)]
pub struct AllRoundsInfo {
    pub round1: RoundDetails,
    pub round2: RoundDetails,
    pub round3: RoundDetails,
    pub total_tokens_sold: u64,
    pub total_tokens: u64,
}

} // verus!
