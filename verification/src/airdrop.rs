//! The airdrop: a one-time allocation for each recipient of a committed set.

use vstd::prelude::*;
use crate::error::ErrorCode;
use crate::events::ClaimEvent;
use crate::merkle::{merkle_root, verify_merkle_proof};
use crate::sale::{base_units, to_base_units};
use crate::state::{pubkey_eq, Config, Pubkey};

verus! {

/// The most recipients that one airdrop record has room for.
pub const MAX_CLAIMED: u64 = 50;

/// The airdrop's record: the committed root, the claim window, and who has
/// claimed so far.
#[derive(Clone, Debug, PartialEq, Eq)]
pub struct AirdropConfig {
    pub merkle_root: [u8; 32],
    pub airdrop_amount: u64,
    pub total_claimed: u64,
    pub max_claims: u64,
    pub claimed: Vec<Pubkey>,
    pub airdrop_start_time: i64,
    pub airdrop_end_time: i64,
    pub bump: u8,
}

/// The airdrop's record as a value of mathematics: the recipients that have
/// claimed, in the order in which they did.
pub struct AirdropState {
    pub merkle_root: [u8; 32],
    pub airdrop_amount: u64,
    pub total_claimed: u64,
    pub max_claims: u64,
    pub claimed: Seq<Pubkey>,
    pub airdrop_start_time: i64,
    pub airdrop_end_time: i64,
    pub bump: u8,
}

impl View for AirdropConfig {
    type V = AirdropState;

    open spec fn view(&self) -> AirdropState {
        AirdropState {
            merkle_root: self.merkle_root,
            airdrop_amount: self.airdrop_amount,
            total_claimed: self.total_claimed,
            max_claims: self.max_claims,
            claimed: self.claimed@,
            airdrop_start_time: self.airdrop_start_time,
            airdrop_end_time: self.airdrop_end_time,
            bump: self.bump,
        }
    }
}

impl AirdropState {
    /// Nobody is listed twice, the counter counts the list, and the list is
    /// within the limit, which is within the record's room.
    pub open spec fn well_formed(self) -> bool {
        &&& self.claimed.no_duplicates()
        &&& self.total_claimed == self.claimed.len()
        &&& self.total_claimed <= self.max_claims
        &&& self.max_claims <= MAX_CLAIMED
    }

    /// Whether `now` lies in the claim window, both ends included.
    pub open spec fn is_open(self, now: i64) -> bool {
        self.airdrop_start_time <= now <= self.airdrop_end_time
    }

    /// Whether a claim may be minted, leaving the minted units aside: the
    /// window is open, a claim is left, the proof leads to the root, and the
    /// recipient has not claimed.
    pub open spec fn admits(self, claimer: Pubkey, amount: u64, path: Seq<[u8; 32]>, now: i64) -> bool {
        &&& self.is_open(now)
        &&& !self.claimed.contains(claimer)
        &&& self.total_claimed < self.max_claims
        &&& merkle_root(claimer, amount, path) == self.merkle_root@
    }
}

/// The all-zero root, which marks a record that was never configured.
pub open spec fn is_unset(root: [u8; 32]) -> bool {
    forall|i: int| 0 <= i < 32 ==> root[i] == 0
}

/// Whether the root is all zeros.
fn root_is_unset(root: &[u8; 32]) -> (unset: bool)
    ensures
        unset == is_unset(*root),
{
    let mut i: usize = 0;
    while i < 32
        invariant
            i <= 32,
            forall|j: int| 0 <= j < i ==> root[j] == 0,
        decreases 32 - i,
    {
        if root[i] != 0 {
            return false;
        }
        i += 1;
    }
    true
}

/// Whether a request to configure the airdrop is accepted: it comes from the
/// sale's owner, the limit is within the record's room, and a record that is
/// already in use has not passed the new limit.
pub open spec fn configuration(
    airdrop: AirdropState,
    sale_config: Config,
    authority: Pubkey,
    max_claims: u64,
) -> Result<(), ErrorCode> {
    if authority != sale_config.owner {
        Err(ErrorCode::Unauthorized)
    } else if max_claims > MAX_CLAIMED {
        Err(ErrorCode::InvalidConfig)
    } else if !is_unset(airdrop.merkle_root) && airdrop.total_claimed > max_claims {
        Err(ErrorCode::InvalidConfig)
    } else {
        Ok(())
    }
}

/// The record after an accepted configuration. A record whose root was unset
/// starts with nobody listed; one in use keeps its list, its counter and its
/// bump.
pub open spec fn configured(
    airdrop: AirdropState,
    root: [u8; 32],
    airdrop_amount: u64,
    max_claims: u64,
    start_time: i64,
    end_time: i64,
    bump: u8,
) -> AirdropState {
    if is_unset(airdrop.merkle_root) {
        AirdropState {
            merkle_root: root,
            airdrop_amount,
            total_claimed: 0,
            max_claims,
            claimed: Seq::empty(),
            airdrop_start_time: start_time,
            airdrop_end_time: end_time,
            bump,
        }
    } else {
        AirdropState {
            merkle_root: root,
            airdrop_amount,
            max_claims,
            airdrop_start_time: start_time,
            airdrop_end_time: end_time,
            ..airdrop
        }
    }
}

/// Configures the airdrop, or changes its parameters. Fails, and changes
/// nothing, with `Unauthorized` where `authority` is not the sale's owner,
/// and with `InvalidConfig` where `max_claims` is more than the record has
/// room for, or less than a record in use has already granted.
pub fn set_merkle_root_handler(
    config: &mut AirdropConfig,
    sale_config: &Config,
    authority: &Pubkey,
    root: [u8; 32],
    airdrop_amount: u64,
    max_claims: u64,
    start_time: i64,
    end_time: i64,
    bump: u8,
) -> (done: Result<(), ErrorCode>)
    ensures
        match configuration(old(config)@, *sale_config, *authority, max_claims) {
            Err(e) => done == Err::<(), ErrorCode>(e) && final(config)@ == old(config)@,
            Ok(_) => done == Ok::<(), ErrorCode>(()) && final(config)@ == configured(
                old(config)@,
                root,
                airdrop_amount,
                max_claims,
                start_time,
                end_time,
                bump,
            ),
        },
        old(config)@.well_formed() ==> final(config)@.well_formed(),
{
    if !pubkey_eq(authority, &sale_config.owner) {
        return Err(ErrorCode::Unauthorized);
    }
    if max_claims > MAX_CLAIMED {
        return Err(ErrorCode::InvalidConfig);
    }
    let is_new_config = root_is_unset(&config.merkle_root);
    if !is_new_config && config.total_claimed > max_claims {
        return Err(ErrorCode::InvalidConfig);
    }
    config.merkle_root = root;
    config.airdrop_amount = airdrop_amount;
    config.max_claims = max_claims;
    config.airdrop_start_time = start_time;
    config.airdrop_end_time = end_time;
    if is_new_config {
        config.total_claimed = 0;
        config.claimed = Vec::new();
        config.bump = bump;
    }
    Ok(())
}

/// An accepted claim: what the custodian is to mint, and to whom.
#[derive(Clone, Copy, Debug, PartialEq, Eq)]
pub struct MintAuthorization {
    pub claimer: Pubkey,
    /// Whole tokens allocated to the recipient.
    pub amount: u64,
    /// What is minted, in the token's smallest units.
    pub base_units: u64,
    pub timestamp: i64,
}

/// The verdict on a claim, by its ordered checks: the window is open
/// (`SaleEnded`), a claim is left (`RoundLimitExceeded`), the proof leads to
/// the root (`Unauthorized`), the recipient has not claimed (`Unauthorized`),
/// and the minted units fit in 64 bits (`Overflow`).
pub open spec fn claim_verdict(
    airdrop: AirdropState,
    claimer: Pubkey,
    amount: u64,
    path: Seq<[u8; 32]>,
    mint_decimals: u8,
    now: i64,
) -> Result<MintAuthorization, ErrorCode> {
    if !airdrop.is_open(now) {
        Err(ErrorCode::SaleEnded)
    } else if airdrop.total_claimed >= airdrop.max_claims {
        Err(ErrorCode::RoundLimitExceeded)
    } else if merkle_root(claimer, amount, path) != airdrop.merkle_root@ {
        Err(ErrorCode::Unauthorized)
    } else if airdrop.claimed.contains(claimer) {
        Err(ErrorCode::Unauthorized)
    } else {
        match base_units(amount, mint_decimals) {
            None => Err(ErrorCode::Overflow),
            Some(units) => Ok(
                MintAuthorization { claimer, amount, base_units: units, timestamp: now },
            ),
        }
    }
}

/// Whether `claimer` is on the list.
pub fn has_claimed(claimed: &Vec<Pubkey>, claimer: &Pubkey) -> (found: bool)
    ensures
        found == claimed@.contains(*claimer),
{
    let mut i: usize = 0;
    while i < claimed.len()
        invariant
            i <= claimed.len(),
            forall|j: int| 0 <= j < i ==> claimed@[j] != *claimer,
        decreases claimed.len() - i,
    {
        if pubkey_eq(&claimed[i], claimer) {
            return true;
        }
        i += 1;
    }
    false
}

/// Accepts or rejects a claim. The record is only read: on acceptance the
/// custodian is to mint `base_units` to the recipient, and `settle_claim`
/// takes its report.
pub fn claim_handler(
    airdrop_config: &AirdropConfig,
    claimer: &Pubkey,
    amount: u64,
    proof: &Vec<[u8; 32]>,
    mint_decimals: u8,
    current_time: i64,
) -> (verdict: Result<MintAuthorization, ErrorCode>)
    ensures
        verdict == claim_verdict(
            airdrop_config@,
            *claimer,
            amount,
            proof@,
            mint_decimals,
            current_time,
        ),
{
    if !(current_time >= airdrop_config.airdrop_start_time && current_time
        <= airdrop_config.airdrop_end_time) {
        return Err(ErrorCode::SaleEnded);
    }
    if !(airdrop_config.total_claimed < airdrop_config.max_claims) {
        return Err(ErrorCode::RoundLimitExceeded);
    }
    if !verify_merkle_proof(&airdrop_config.merkle_root, claimer, amount, proof) {
        return Err(ErrorCode::Unauthorized);
    }
    if has_claimed(&airdrop_config.claimed, claimer) {
        return Err(ErrorCode::Unauthorized);
    }
    let base_units = match to_base_units(amount, mint_decimals) {
        Ok(units) => units,
        Err(e) => {
            return Err(e);
        },
    };
    Ok(MintAuthorization { claimer: *claimer, amount, base_units, timestamp: current_time })
}

/// Whether an accepted claim can be committed to the record: the mint is
/// done, a claim is still left, and the recipient is still not listed.
pub open spec fn claim_settlement(
    airdrop: AirdropState,
    grant: MintAuthorization,
    minted: bool,
) -> Result<(), ErrorCode> {
    if !minted {
        Err(ErrorCode::MintFailed)
    } else if airdrop.total_claimed >= airdrop.max_claims {
        Err(ErrorCode::RoundLimitExceeded)
    } else if airdrop.claimed.contains(grant.claimer) {
        Err(ErrorCode::Unauthorized)
    } else {
        Ok(())
    }
}

/// The record after `claimer` has claimed: one more on the list, and the
/// counter one higher.
pub open spec fn with_claim(airdrop: AirdropState, claimer: Pubkey) -> AirdropState {
    AirdropState {
        claimed: airdrop.claimed.push(claimer),
        total_claimed: (airdrop.total_claimed + 1) as u64,
        ..airdrop
    }
}

/// The record after the custodian's report on a claim: the recipient listed
/// where the claim can be committed, and the record as it was where it
/// cannot.
pub open spec fn claim_settled(
    airdrop: AirdropState,
    grant: MintAuthorization,
    minted: bool,
) -> AirdropState {
    if claim_settlement(airdrop, grant, minted).is_ok() {
        with_claim(airdrop, grant.claimer)
    } else {
        airdrop
    }
}

/// The record after a run of claims, each with the custodian's report on it,
/// settled one after the other.
pub open spec fn claims_settled(airdrop: AirdropState, run: Seq<(MintAuthorization, bool)>) -> AirdropState
    decreases run.len(),
{
    if run.len() == 0 {
        airdrop
    } else {
        claim_settled(claims_settled(airdrop, run.drop_last()), run.last().0, run.last().1)
    }
}

/// Commits an accepted claim once the custodian has reported. Where the mint
/// failed, no claim is left or the recipient is already listed, the record
/// is left as it was and the failure is returned. Otherwise the recipient
/// is added to the list, the counter grows by one, and the claim's event is
/// returned.
pub fn settle_claim(airdrop_config: &mut AirdropConfig, grant: &MintAuthorization, minted: bool) -> (event:
    Result<ClaimEvent, ErrorCode>)
    ensures
        final(airdrop_config)@ == claim_settled(old(airdrop_config)@, *grant, minted),
        event == match claim_settlement(old(airdrop_config)@, *grant, minted) {
            Err(e) => Err::<ClaimEvent, ErrorCode>(e),
            Ok(_) => Ok::<ClaimEvent, ErrorCode>(
                (ClaimEvent {
                    claimer: grant.claimer,
                    amount: grant.amount,
                    timestamp: grant.timestamp,
                    merkle_root: old(airdrop_config).merkle_root,
                }),
            ),
        },
        old(airdrop_config)@.well_formed() ==> final(airdrop_config)@.well_formed(),
{
    if !minted {
        return Err(ErrorCode::MintFailed);
    }
    if airdrop_config.total_claimed >= airdrop_config.max_claims {
        return Err(ErrorCode::RoundLimitExceeded);
    }
    if has_claimed(&airdrop_config.claimed, &grant.claimer) {
        return Err(ErrorCode::Unauthorized);
    }
    airdrop_config.claimed.push(grant.claimer);
    airdrop_config.total_claimed = airdrop_config.total_claimed + 1;
    Ok(
        ClaimEvent {
            claimer: grant.claimer,
            amount: grant.amount,
            timestamp: grant.timestamp,
            merkle_root: airdrop_config.merkle_root,
        },
    )
}

/// A recipient on the list is refused whatever it presents: no amount, proof
/// or time gets it a second authorization, and no settlement lists it twice.
pub proof fn lemma_claimed_recipient_is_refused(
    airdrop: AirdropState,
    claimer: Pubkey,
    amount: u64,
    path: Seq<[u8; 32]>,
    mint_decimals: u8,
    now: i64,
    grant: MintAuthorization,
    minted: bool,
)
    requires
        airdrop.claimed.contains(claimer),
        grant.claimer == claimer,
    ensures
        claim_verdict(airdrop, claimer, amount, path, mint_decimals, now).is_err(),
        !airdrop.admits(claimer, amount, path, now),
        claim_settlement(airdrop, grant, minted).is_err(),
        claim_settled(airdrop, grant, minted) == airdrop,
{
}

/// A committed claim is final: the recipient is on the list afterwards, and
/// so is everyone who was on it before.
pub proof fn lemma_claim_stays_listed(airdrop: AirdropState, claimer: Pubkey, earlier: Pubkey)
    ensures
        with_claim(airdrop, claimer).claimed.contains(claimer),
        airdrop.claimed.contains(earlier) ==> with_claim(airdrop, claimer).claimed.contains(
            earlier,
        ),
{
    let after = with_claim(airdrop, claimer).claimed;
    assert(after[airdrop.claimed.len() as int] == claimer);
    if airdrop.claimed.contains(earlier) {
        let i = choose|i: int| 0 <= i < airdrop.claimed.len() && airdrop.claimed[i] == earlier;
        assert(after[i] == earlier);
    }
}

/// Once listed, always refused: whatever claims are settled afterwards, the
/// recipient is still on the list, and every further claim of it fails.
pub proof fn lemma_claimed_recipient_stays_refused(
    airdrop: AirdropState,
    run: Seq<(MintAuthorization, bool)>,
    claimer: Pubkey,
    amount: u64,
    path: Seq<[u8; 32]>,
    mint_decimals: u8,
    now: i64,
)
    requires
        airdrop.claimed.contains(claimer),
    ensures
        claims_settled(airdrop, run).claimed.contains(claimer),
        claim_verdict(claims_settled(airdrop, run), claimer, amount, path, mint_decimals, now).is_err(),
    decreases run.len(),
{
    if run.len() > 0 {
        let before = claims_settled(airdrop, run.drop_last());
        lemma_claimed_recipient_stays_refused(
            airdrop,
            run.drop_last(),
            claimer,
            amount,
            path,
            mint_decimals,
            now,
        );
        lemma_claim_stays_listed(before, run.last().0.claimer, claimer);
    }
}

/// The list never breaks its rules: whatever claims are settled, in whatever
/// order and with whatever reports, nobody is listed twice, the counter
/// counts the list, and the list stays within the limit.
pub proof fn lemma_claims_keep_the_record_well_formed(
    airdrop: AirdropState,
    run: Seq<(MintAuthorization, bool)>,
)
    requires
        airdrop.well_formed(),
    ensures
        claims_settled(airdrop, run).well_formed(),
    decreases run.len(),
{
    if run.len() > 0 {
        lemma_claims_keep_the_record_well_formed(airdrop, run.drop_last());
    }
}

/// Once the limit is reached, every claim inside the window is refused with
/// `RoundLimitExceeded`, also one of a recipient that has not claimed and
/// holds a valid proof.
pub proof fn lemma_full_airdrop_refuses(
    airdrop: AirdropState,
    claimer: Pubkey,
    amount: u64,
    path: Seq<[u8; 32]>,
    mint_decimals: u8,
    now: i64,
)
    requires
        airdrop.is_open(now),
        airdrop.total_claimed >= airdrop.max_claims,
    ensures
        claim_verdict(airdrop, claimer, amount, path, mint_decimals, now) == Err::<
            MintAuthorization,
            ErrorCode,
        >(ErrorCode::RoundLimitExceeded),
{
}

/// An accepted claim can be committed to the record that accepted it once
/// the custodian reports the mint.
pub proof fn lemma_accepted_claim_settles(
    airdrop: AirdropState,
    claimer: Pubkey,
    amount: u64,
    path: Seq<[u8; 32]>,
    mint_decimals: u8,
    now: i64,
)
    requires
        claim_verdict(airdrop, claimer, amount, path, mint_decimals, now).is_ok(),
    ensures
        claim_settlement(
            airdrop,
            claim_verdict(airdrop, claimer, amount, path, mint_decimals, now).unwrap(),
            true,
        ).is_ok(),
{
}

/// A claim is authorized exactly where the record admits it and the minted
/// units fit in 64 bits.
pub proof fn lemma_verdict_follows_admission(
    airdrop: AirdropState,
    claimer: Pubkey,
    amount: u64,
    path: Seq<[u8; 32]>,
    mint_decimals: u8,
    now: i64,
)
    ensures
        claim_verdict(airdrop, claimer, amount, path, mint_decimals, now).is_ok() <==> (
        airdrop.admits(claimer, amount, path, now) && base_units(amount, mint_decimals).is_some()),
{
}

/// A summary of the airdrop for display.
#[derive(Clone, Copy, Debug, PartialEq, Eq)]
pub struct AirdropInfo {
    pub merkle_root: [u8; 32],
    pub airdrop_amount: u64,
    pub total_claimed: u64,
    pub max_claims: u64,
    pub airdrop_start_time: i64,
    pub airdrop_end_time: i64,
    pub remaining_claims: u64,
}

impl AirdropConfig {
    /// The claims that are left; none where the counter has passed the limit.
    pub open spec fn spec_remaining_claims(&self) -> u64 {
        if self.total_claimed <= self.max_claims {
            (self.max_claims - self.total_claimed) as u64
        } else {
            0
        }
    }

    /// Whether a claim of `amount` by `claimer` with `proof` would be taken
    /// at `current_time`: the window is open, the recipient has not claimed,
    /// a claim is left, and the proof leads to the root.
    pub fn can_claim(
        &self,
        claimer: &Pubkey,
        amount: u64,
        proof: &Vec<[u8; 32]>,
        current_time: i64,
    ) -> (admitted: bool)
        ensures
            admitted == self@.admits(*claimer, amount, proof@, current_time),
    {
        current_time >= self.airdrop_start_time && current_time <= self.airdrop_end_time
            && !has_claimed(&self.claimed, claimer) && self.total_claimed < self.max_claims
            && verify_merkle_proof(&self.merkle_root, claimer, amount, proof)
    }

    /// The claims that are left.
    #[verifier::when_used_as_spec(spec_remaining_claims)]
    pub fn get_remaining_claims(&self) -> (remaining: u64)
        ensures
            remaining == self.spec_remaining_claims(),
    {
        self.max_claims.saturating_sub(self.total_claimed)
    }

    /// The record's parameters and the claims that are left.
    pub fn get_airdrop_info(&self) -> (info: AirdropInfo)
        ensures
            info == (AirdropInfo {
                merkle_root: self.merkle_root,
                airdrop_amount: self.airdrop_amount,
                total_claimed: self.total_claimed,
                max_claims: self.max_claims,
                airdrop_start_time: self.airdrop_start_time,
                airdrop_end_time: self.airdrop_end_time,
                remaining_claims: self.spec_remaining_claims(),
            }),
    {
        AirdropInfo {
            merkle_root: self.merkle_root,
            airdrop_amount: self.airdrop_amount,
            total_claimed: self.total_claimed,
            max_claims: self.max_claims,
            airdrop_start_time: self.airdrop_start_time,
            airdrop_end_time: self.airdrop_end_time,
            remaining_claims: self.get_remaining_claims(),
        }
    }
}

} // verus!
