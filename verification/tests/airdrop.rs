use sha2::{Digest, Sha256};
use token_sale::airdrop::{
    claim_handler, has_claimed, set_merkle_root_handler, settle_claim, AirdropConfig,
    AirdropInfo, MintAuthorization, MAX_CLAIMED,
};
use token_sale::error::ErrorCode;
use token_sale::events::ClaimEvent;
use token_sale::state::Config;

const OWNER: [u8; 32] = [21u8; 32];
const START: i64 = 1_000;
const END: i64 = 2_000;

fn sale() -> Config {
    Config {
        initialized: true,
        owner: OWNER,
        treasury: [22u8; 32],
        mint: [23u8; 32],
        paused: false,
        bump: 250,
        sale_start_time: 0,
        round1_tokens_sold: 0,
        round2_tokens_sold: 0,
        round3_tokens_sold: 0,
    }
}

fn unset() -> AirdropConfig {
    AirdropConfig {
        merkle_root: [0u8; 32],
        airdrop_amount: 0,
        total_claimed: 0,
        max_claims: 0,
        claimed: Vec::new(),
        airdrop_start_time: 0,
        airdrop_end_time: 0,
        bump: 0,
    }
}

fn leaf_of(claimer: &[u8; 32], amount: u64) -> [u8; 32] {
    let mut hasher = Sha256::new();
    hasher.update(claimer);
    hasher.update(amount.to_le_bytes());
    hasher.finalize().into()
}

fn parent_of(a: &[u8; 32], b: &[u8; 32]) -> [u8; 32] {
    let mut hasher = Sha256::new();
    if a < b {
        hasher.update(a);
        hasher.update(b);
    } else {
        hasher.update(b);
        hasher.update(a);
    }
    hasher.finalize().into()
}

const ALICE: [u8; 32] = [31u8; 32];
const BOB: [u8; 32] = [32u8; 32];
const CAROL: [u8; 32] = [33u8; 32];
const DAVE: [u8; 32] = [34u8; 32];

fn allocation(who: &[u8; 32]) -> u64 {
    100 + who[0] as u64
}

/// The root over the four recipients, and the proof of the one asked for.
fn committed(who: &[u8; 32]) -> ([u8; 32], Vec<[u8; 32]>) {
    let people = [ALICE, BOB, CAROL, DAVE];
    let leaves: Vec<[u8; 32]> = people.iter().map(|p| leaf_of(p, allocation(p))).collect();
    let left = parent_of(&leaves[0], &leaves[1]);
    let right = parent_of(&leaves[2], &leaves[3]);
    let root = parent_of(&left, &right);
    let index = people.iter().position(|p| p == who).unwrap();
    let sibling = leaves[index ^ 1];
    let uncle = if index < 2 { right } else { left };
    (root, vec![sibling, uncle])
}

fn airdrop_with_limit(max_claims: u64) -> AirdropConfig {
    let (root, _) = committed(&ALICE);
    let mut config = unset();
    set_merkle_root_handler(&mut config, &sale(), &OWNER, root, 5_000, max_claims, START, END, 249)
        .unwrap();
    config
}

fn claim_and_settle(config: &mut AirdropConfig, who: &[u8; 32], now: i64) -> Result<ClaimEvent, ErrorCode> {
    let (_, proof) = committed(who);
    let grant = claim_handler(config, who, allocation(who), &proof, 9, now)?;
    settle_claim(config, &grant, true)
}

#[test]
fn first_configuration_starts_an_empty_list() {
    let (root, _) = committed(&ALICE);
    let mut config = unset();
    config.total_claimed = 9;
    config.claimed = vec![[1u8; 32]];
    config.bump = 3;
    let done =
        set_merkle_root_handler(&mut config, &sale(), &OWNER, root, 5_000, 10, START, END, 249);
    assert_eq!(done, Ok(()));
    assert_eq!(
        config,
        AirdropConfig {
            merkle_root: root,
            airdrop_amount: 5_000,
            total_claimed: 0,
            max_claims: 10,
            claimed: Vec::new(),
            airdrop_start_time: START,
            airdrop_end_time: END,
            bump: 249,
        }
    );
}

#[test]
fn reconfiguration_keeps_the_claims() {
    let mut config = airdrop_with_limit(10);
    claim_and_settle(&mut config, &ALICE, START).unwrap();
    claim_and_settle(&mut config, &BOB, START).unwrap();
    let new_root = [0xabu8; 32];
    let done =
        set_merkle_root_handler(&mut config, &sale(), &OWNER, new_root, 6_000, 2, 3_000, 4_000, 1);
    assert_eq!(done, Ok(()));
    assert_eq!(
        config,
        AirdropConfig {
            merkle_root: new_root,
            airdrop_amount: 6_000,
            total_claimed: 2,
            max_claims: 2,
            claimed: vec![ALICE, BOB],
            airdrop_start_time: 3_000,
            airdrop_end_time: 4_000,
            bump: 249,
        }
    );
}

#[test]
fn configuration_is_for_the_owner_only() {
    let mut config = unset();
    let before = config.clone();
    let done = set_merkle_root_handler(
        &mut config,
        &sale(),
        &[77u8; 32],
        [1u8; 32],
        5_000,
        10,
        START,
        END,
        249,
    );
    assert_eq!(done, Err(ErrorCode::Unauthorized));
    assert_eq!(config, before);
}

#[test]
fn oversized_claim_set_is_rejected_at_setup() {
    assert_eq!(MAX_CLAIMED, 50);
    let mut config = unset();
    let before = config.clone();
    let done = set_merkle_root_handler(
        &mut config, &sale(), &OWNER, [1u8; 32], 5_000, 51, START, END, 249,
    );
    assert_eq!(done, Err(ErrorCode::InvalidConfig));
    assert_eq!(config, before);
    let done = set_merkle_root_handler(
        &mut config, &sale(), &OWNER, [1u8; 32], 5_000, 50, START, END, 249,
    );
    assert_eq!(done, Ok(()));
    assert_eq!(config.max_claims, 50);
}

#[test]
fn limit_below_what_was_granted_is_rejected() {
    let mut config = airdrop_with_limit(10);
    claim_and_settle(&mut config, &ALICE, START).unwrap();
    claim_and_settle(&mut config, &BOB, START).unwrap();
    let before = config.clone();
    let done = set_merkle_root_handler(
        &mut config, &sale(), &OWNER, [1u8; 32], 5_000, 1, START, END, 249,
    );
    assert_eq!(done, Err(ErrorCode::InvalidConfig));
    assert_eq!(config, before);
}

#[test]
fn valid_claim_is_authorized_and_settled() {
    let mut config = airdrop_with_limit(10);
    let (root, proof) = committed(&CAROL);
    let grant = claim_handler(&config, &CAROL, 133, &proof, 9, 1_500).unwrap();
    assert_eq!(
        grant,
        MintAuthorization {
            claimer: CAROL,
            amount: 133,
            base_units: 133_000_000_000,
            timestamp: 1_500,
        }
    );
    assert_eq!(config.total_claimed, 0);
    assert!(config.claimed.is_empty());
    let event = settle_claim(&mut config, &grant, true).unwrap();
    assert_eq!(
        event,
        ClaimEvent { claimer: CAROL, amount: 133, timestamp: 1_500, merkle_root: root }
    );
    assert_eq!(config.total_claimed, 1);
    assert_eq!(config.claimed, vec![CAROL]);
    assert!(has_claimed(&config.claimed, &CAROL));
    assert!(!has_claimed(&config.claimed, &ALICE));
}

#[test]
fn third_claim_fails_with_capacity_error_when_limit_is_two() {
    let mut config = airdrop_with_limit(2);
    assert!(claim_and_settle(&mut config, &ALICE, 1_100).is_ok());
    assert!(claim_and_settle(&mut config, &BOB, 1_200).is_ok());
    assert_eq!(config.total_claimed, 2);
    let before = config.clone();
    let (_, proof) = committed(&CAROL);
    assert!(!has_claimed(&config.claimed, &CAROL));
    assert_eq!(
        claim_handler(&config, &CAROL, allocation(&CAROL), &proof, 9, 1_300),
        Err(ErrorCode::RoundLimitExceeded)
    );
    assert!(!config.can_claim(&CAROL, allocation(&CAROL), &proof, 1_300));
    assert_eq!(config, before);
    assert_eq!(config.get_remaining_claims(), 0);
}

#[test]
fn second_claim_of_a_recipient_is_refused_whatever_the_proof() {
    let mut config = airdrop_with_limit(10);
    assert!(claim_and_settle(&mut config, &ALICE, 1_100).is_ok());
    let (_, proof) = committed(&ALICE);
    assert_eq!(
        claim_handler(&config, &ALICE, allocation(&ALICE), &proof, 9, 1_200),
        Err(ErrorCode::Unauthorized)
    );
    assert_eq!(
        claim_handler(&config, &ALICE, allocation(&ALICE), &Vec::new(), 9, 1_200),
        Err(ErrorCode::Unauthorized)
    );
    assert_eq!(
        claim_handler(&config, &ALICE, 1, &proof, 9, 1_999),
        Err(ErrorCode::Unauthorized)
    );
    assert!(!config.can_claim(&ALICE, allocation(&ALICE), &proof, 1_200));
    let grant = MintAuthorization { claimer: ALICE, amount: 1, base_units: 1, timestamp: 1_200 };
    let before = config.clone();
    assert_eq!(settle_claim(&mut config, &grant, true), Err(ErrorCode::Unauthorized));
    assert_eq!(config, before);
    assert_eq!(config.claimed, vec![ALICE]);
    assert!(claim_and_settle(&mut config, &BOB, 1_300).is_ok());
    assert_eq!(claim_and_settle(&mut config, &ALICE, 1_400), Err(ErrorCode::Unauthorized));
    assert_eq!(config.claimed, vec![ALICE, BOB]);
    assert_eq!(config.total_claimed, 2);
}

#[test]
fn claim_window_includes_both_ends() {
    let config = airdrop_with_limit(10);
    let (_, proof) = committed(&DAVE);
    let amount = allocation(&DAVE);
    assert_eq!(claim_handler(&config, &DAVE, amount, &proof, 9, START - 1), Err(ErrorCode::SaleEnded));
    assert!(claim_handler(&config, &DAVE, amount, &proof, 9, START).is_ok());
    assert!(claim_handler(&config, &DAVE, amount, &proof, 9, END).is_ok());
    assert_eq!(claim_handler(&config, &DAVE, amount, &proof, 9, END + 1), Err(ErrorCode::SaleEnded));
    assert!(!config.can_claim(&DAVE, amount, &proof, START - 1));
    assert!(config.can_claim(&DAVE, amount, &proof, START));
    assert!(config.can_claim(&DAVE, amount, &proof, END));
    assert!(!config.can_claim(&DAVE, amount, &proof, END + 1));
}

#[test]
fn claim_checks_fail_in_their_order() {
    let mut config = airdrop_with_limit(1);
    assert!(claim_and_settle(&mut config, &ALICE, START).is_ok());
    let bad_proof = vec![[0u8; 32]];
    assert_eq!(
        claim_handler(&config, &ALICE, 1, &bad_proof, 30, END + 1),
        Err(ErrorCode::SaleEnded)
    );
    assert_eq!(
        claim_handler(&config, &ALICE, 1, &bad_proof, 30, END),
        Err(ErrorCode::RoundLimitExceeded)
    );
    let mut roomy = airdrop_with_limit(5);
    assert!(claim_and_settle(&mut roomy, &ALICE, START).is_ok());
    assert_eq!(
        claim_handler(&roomy, &BOB, 1, &bad_proof, 30, END),
        Err(ErrorCode::Unauthorized)
    );
    let (_, proof) = committed(&BOB);
    assert_eq!(
        claim_handler(&roomy, &BOB, allocation(&BOB), &proof, 30, END),
        Err(ErrorCode::Overflow)
    );
    assert!(claim_handler(&roomy, &BOB, allocation(&BOB), &proof, 9, END).is_ok());
}

#[test]
fn tampered_claim_is_unauthorized() {
    let config = airdrop_with_limit(10);
    let (_, proof) = committed(&BOB);
    let amount = allocation(&BOB);
    assert!(claim_handler(&config, &BOB, amount, &proof, 9, START).is_ok());
    assert_eq!(
        claim_handler(&config, &BOB, amount + 1, &proof, 9, START),
        Err(ErrorCode::Unauthorized)
    );
    let mut tampered = proof.clone();
    tampered[1][0] ^= 0x10;
    assert_eq!(
        claim_handler(&config, &BOB, amount, &tampered, 9, START),
        Err(ErrorCode::Unauthorized)
    );
    assert_eq!(
        claim_handler(&config, &[35u8; 32], amount, &proof, 9, START),
        Err(ErrorCode::Unauthorized)
    );
    assert!(!config.can_claim(&BOB, amount + 1, &proof, START));
}

#[test]
fn failed_mint_leaves_the_recipient_free_to_retry() {
    let mut config = airdrop_with_limit(10);
    let (_, proof) = committed(&ALICE);
    let grant = claim_handler(&config, &ALICE, allocation(&ALICE), &proof, 9, START).unwrap();
    let before = config.clone();
    assert_eq!(settle_claim(&mut config, &grant, false), Err(ErrorCode::MintFailed));
    assert_eq!(config, before);
    assert!(config.can_claim(&ALICE, allocation(&ALICE), &proof, START));
    assert!(settle_claim(&mut config, &grant, true).is_ok());
    assert_eq!(config.total_claimed, 1);
}

#[test]
fn settlement_respects_the_limit() {
    let mut config = airdrop_with_limit(1);
    assert!(claim_and_settle(&mut config, &ALICE, START).is_ok());
    let grant = MintAuthorization { claimer: BOB, amount: 1, base_units: 1, timestamp: START };
    let before = config.clone();
    assert_eq!(settle_claim(&mut config, &grant, true), Err(ErrorCode::RoundLimitExceeded));
    assert_eq!(config, before);
}

#[test]
fn remaining_claims_and_info() {
    let mut config = airdrop_with_limit(3);
    assert_eq!(config.get_remaining_claims(), 3);
    assert!(claim_and_settle(&mut config, &ALICE, START).is_ok());
    assert_eq!(config.get_remaining_claims(), 2);
    let (root, _) = committed(&ALICE);
    assert_eq!(
        config.get_airdrop_info(),
        AirdropInfo {
            merkle_root: root,
            airdrop_amount: 5_000,
            total_claimed: 1,
            max_claims: 3,
            airdrop_start_time: START,
            airdrop_end_time: END,
            remaining_claims: 2,
        }
    );
    config.total_claimed = 7;
    assert_eq!(config.get_remaining_claims(), 0);
    assert_eq!(config.get_airdrop_info().remaining_claims, 0);
}

#[test]
fn zero_limit_takes_no_claim() {
    let config = airdrop_with_limit(0);
    let (_, proof) = committed(&ALICE);
    assert_eq!(
        claim_handler(&config, &ALICE, allocation(&ALICE), &proof, 9, START),
        Err(ErrorCode::RoundLimitExceeded)
    );
}

#[test]
fn claim_event_carries_the_claimed_amount_not_the_minted_units() {
    let mut config = airdrop_with_limit(10);
    let (root, proof) = committed(&DAVE);
    let grant = claim_handler(&config, &DAVE, allocation(&DAVE), &proof, 6, 1_700).unwrap();
    assert_eq!(grant.amount, 134);
    assert_eq!(grant.base_units, 134_000_000);
    let event = settle_claim(&mut config, &grant, true).unwrap();
    assert_eq!(event.amount, 134);
    assert_eq!(event.claimer, DAVE);
    assert_eq!(event.timestamp, 1_700);
    assert_eq!(event.merkle_root, root);
}
