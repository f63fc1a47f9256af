//! The publisher ledger: identity, staked collateral, reputation and earnings
//! of each publisher, with revenue distribution and slashing.
//!
//! Every operation works on the records that its context names. It checks, in
//! this order, that the records it needs exist and the slot it fills is
//! vacant, that the caller is the one the records name, and then its own
//! conditions. A failed operation leaves every record as it was.

use crate::arith::{bps_share, checked_bps_share, BPS_DENOMINATOR};
use crate::custody::{Authority, Transfer, VaultKind, VaultOpening};
use crate::error::ErrorKind;
use crate::identity::Identity;
use crate::slot::Slot;
use crate::text::{byte_len, byte_length};
use vstd::prelude::*;

verus! {

/// The longest display name, in bytes.
pub const MAX_NAME_LEN: usize = 64;

/// The longest metadata locator, in bytes.
pub const MAX_URI_LEN: usize = 200;

/// The reputation that a publisher starts with.
pub const INITIAL_REPUTATION: u16 = 500;

/// The highest reputation.
pub const MAX_REPUTATION: u16 = 1000;

/// What an accepted alert adds to the reputation.
pub const ACCEPTANCE_REWARD: u16 = 10;

/// What a rejected alert takes from the reputation: twice the reward.
pub const REJECTION_PENALTY: u16 = 20;

/// The reputation that follows `score` after one submission: the reward is
/// capped at `MAX_REPUTATION`, the penalty stops at zero.
pub open spec fn adjusted_reputation(score: u16, accepted: bool) -> u16 {
    if accepted {
        if score + ACCEPTANCE_REWARD >= MAX_REPUTATION {
            MAX_REPUTATION
        } else {
            (score + ACCEPTANCE_REWARD) as u16
        }
    } else {
        if score <= REJECTION_PENALTY {
            0
        } else {
            (score - REJECTION_PENALTY) as u16
        }
    }
}

/// Computes `adjusted_reputation`.
pub fn adjust_reputation(score: u16, accepted: bool) -> (r: u16)
    ensures
        r == adjusted_reputation(score, accepted),
{
    if accepted {
        let raised = score.saturating_add(ACCEPTANCE_REWARD);
        if raised > MAX_REPUTATION {
            MAX_REPUTATION
        } else {
            raised
        }
    } else {
        score.saturating_sub(REJECTION_PENALTY)
    }
}

/// Why a publisher-ledger operation failed.
#[derive(Clone, Copy, Debug, PartialEq, Eq, Structural)]
pub enum ErrorCode {
    /// The display name is longer than `MAX_NAME_LEN` bytes.
    NameTooLong,
    /// The metadata locator is longer than `MAX_URI_LEN` bytes.
    UriTooLong,
    /// The publisher is not active.
    PublisherInactive,
    /// The publisher has been slashed.
    PublisherSlashed,
    /// The slash asks for more than the publisher has staked.
    InsufficientStake,
    /// A counter or amount has no representable result.
    Overflow,
    /// The caller is not the owner or authority that the record names.
    Unauthorized,
    /// The registry has been created before.
    AlreadyInitialized,
    /// The owner is registered already.
    Duplicate,
    /// A record that the operation needs does not exist.
    NotFound,
}

impl ErrorCode {
    /// The failure kind that this code belongs to.
    pub open spec fn kind_of(self) -> ErrorKind {
        match self {
            ErrorCode::NameTooLong | ErrorCode::UriTooLong => ErrorKind::Validation,
            ErrorCode::PublisherInactive
            | ErrorCode::PublisherSlashed
            | ErrorCode::AlreadyInitialized
            | ErrorCode::Duplicate => ErrorKind::State,
            ErrorCode::InsufficientStake => ErrorKind::InsufficientFunds,
            ErrorCode::Overflow => ErrorKind::Overflow,
            ErrorCode::Unauthorized => ErrorKind::Authorization,
            ErrorCode::NotFound => ErrorKind::NotFound,
        }
    }

    /// The failure kind that this code belongs to.
    pub fn kind(&self) -> (k: ErrorKind)
        ensures
            k == self.kind_of(),
    {
        match self {
            ErrorCode::NameTooLong | ErrorCode::UriTooLong => ErrorKind::Validation,
            ErrorCode::PublisherInactive
            | ErrorCode::PublisherSlashed
            | ErrorCode::AlreadyInitialized
            | ErrorCode::Duplicate => ErrorKind::State,
            ErrorCode::InsufficientStake => ErrorKind::InsufficientFunds,
            ErrorCode::Overflow => ErrorKind::Overflow,
            ErrorCode::Unauthorized => ErrorKind::Authorization,
            ErrorCode::NotFound => ErrorKind::NotFound,
        }
    }
}

/// The singleton configuration and running totals of the publisher ledger.
#[derive(Clone, Debug, PartialEq, Eq)]
pub struct PublisherRegistry {
    /// The only identity that may slash publishers.
    pub authority: Identity,
    /// The mint of the token that stakes and payouts are held in.
    pub usdc_mint: Identity,
    /// The stake that every publisher puts up at registration.
    pub min_stake: u64,
    /// The publishers' share of distributed revenue, in basis points.
    pub publisher_share_bps: u16,
    pub total_publishers: u64,
    pub total_payouts: u64,
    pub bump: u8,
}

/// One publisher.
#[derive(Clone, Debug, PartialEq, Eq)]
pub struct Publisher {
    pub owner: Identity,
    pub name: String,
    pub metadata_uri: String,
    pub stake: u64,
    pub reputation_score: u16,
    pub alerts_submitted: u64,
    pub alerts_accepted: u64,
    pub total_earnings: u64,
    pub registered_at: i64,
    pub active: bool,
    pub slashed: bool,
    pub bump: u8,
}

impl Publisher {
    /// What holds of every publisher that the ledger's operations produce.
    pub open spec fn wf(self) -> bool {
        &&& byte_len(self.name@) <= MAX_NAME_LEN
        &&& byte_len(self.metadata_uri@) <= MAX_URI_LEN
        &&& self.reputation_score <= MAX_REPUTATION
        &&& self.alerts_accepted <= self.alerts_submitted
        &&& self.slashed ==> !self.active
    }

    /// The publisher as registration creates it.
    pub open spec fn registered(
        owner: Identity,
        name: String,
        metadata_uri: String,
        stake: u64,
        now: i64,
        bump: u8,
    ) -> Publisher {
        Publisher {
            owner,
            name,
            metadata_uri,
            stake,
            reputation_score: INITIAL_REPUTATION,
            alerts_submitted: 0,
            alerts_accepted: 0,
            total_earnings: 0,
            registered_at: now,
            active: true,
            slashed: false,
            bump,
        }
    }

    /// The publisher after one more submission, accepted or rejected.
    pub open spec fn after_submission(self, accepted: bool) -> Publisher {
        Publisher {
            alerts_submitted: (self.alerts_submitted + 1) as u64,
            alerts_accepted: if accepted {
                (self.alerts_accepted + 1) as u64
            } else {
                self.alerts_accepted
            },
            reputation_score: adjusted_reputation(self.reputation_score, accepted),
            ..self
        }
    }

    /// The publisher after `share` has been paid out to it.
    pub open spec fn after_payout(self, share: u64) -> Publisher {
        Publisher { total_earnings: (self.total_earnings + share) as u64, ..self }
    }

    /// The publisher after `amount` of its stake has been slashed: the
    /// reputation is gone, and with the last of the stake the publisher is
    /// marked slashed and retired.
    pub open spec fn after_slash(self, amount: u64) -> Publisher {
        let stake = (self.stake - amount) as u64;
        Publisher {
            stake,
            reputation_score: 0,
            slashed: self.slashed || stake == 0,
            active: self.active && stake != 0,
            ..self
        }
    }

    /// The publisher after it has withdrawn its whole stake.
    pub open spec fn after_withdrawal(self) -> Publisher {
        Publisher { stake: 0, active: false, ..self }
    }
}

/// Whether the publisher in `slot`, if there is one, is well formed.
pub open spec fn publisher_wf(slot: Slot<Publisher>) -> bool {
    slot.record matches Some(publisher) ==> publisher.wf()
}

/// The records and accounts of `distribute_revenue`.
#[derive(Clone, Debug, PartialEq, Eq)]
pub struct DistributeRevenue {
    pub registry: Slot<PublisherRegistry>,
    pub publisher: Slot<Publisher>,
    /// The protocol's revenue pool, the source of the payout.
    pub revenue_pool: Identity,
    /// The publisher's payout destination.
    pub publisher_token_account: Identity,
    /// The protocol identity that invoked the operation.
    pub authority: Identity,
    pub revenue_pool_bump: u8,
}

/// The first reason for which `distribute_revenue` fails, if there is one.
pub open spec fn distribute_revenue_error(ctx: DistributeRevenue, amount: u64) -> Option<
    ErrorCode,
> {
    match (ctx.registry.record, ctx.publisher.record) {
        (Some(registry), Some(publisher)) => {
            let share = bps_share(amount, registry.publisher_share_bps);
            if !publisher.active {
                Some(ErrorCode::PublisherInactive)
            } else if publisher.slashed {
                Some(ErrorCode::PublisherSlashed)
            } else if share > u64::MAX || publisher.total_earnings + share > u64::MAX
                || registry.total_payouts + share > u64::MAX {
                Some(ErrorCode::Overflow)
            } else {
                None
            }
        },
        _ => Some(ErrorCode::NotFound),
    }
}

/// The payout that a successful `distribute_revenue` orders: the publishers'
/// share of `amount`, from the revenue pool, signed by the protocol.
pub open spec fn revenue_payout(ctx: DistributeRevenue, amount: u64) -> Transfer {
    Transfer {
        from: ctx.revenue_pool,
        to: ctx.publisher_token_account,
        authority: Authority::Vault {
            kind: VaultKind::RevenuePool,
            seed: ctx.registry.key,
            bump: ctx.revenue_pool_bump,
        },
        amount: bps_share(amount, ctx.registry.record->Some_0.publisher_share_bps) as u64,
    }
}

/// The records after a successful `distribute_revenue`.
pub open spec fn distribute_revenue_effect(ctx: DistributeRevenue, amount: u64) -> DistributeRevenue {
    let registry = ctx.registry.record->Some_0;
    let publisher = ctx.publisher.record->Some_0;
    let share = revenue_payout(ctx, amount).amount;
    DistributeRevenue {
        registry: Slot {
            record: Some(
                PublisherRegistry {
                    total_payouts: (registry.total_payouts + share) as u64,
                    ..registry
                },
            ),
            ..ctx.registry
        },
        publisher: Slot { record: Some(publisher.after_payout(share)), ..ctx.publisher },
        ..ctx
    }
}

/// Pays the publisher its share of `amount`, the revenue of a delivered alert.
///
/// The share is `amount * publisher_share_bps / 10000`, rounded down. It is
/// added to the publisher's earnings and to the registry's payout total, and
/// the order to pay it out of the revenue pool is returned.
pub fn distribute_revenue(ctx: &mut DistributeRevenue, amount: u64) -> (r: Result<
    Transfer,
    ErrorCode,
>)
    ensures
        match distribute_revenue_error(*old(ctx), amount) {
            Some(e) => r == Err::<Transfer, ErrorCode>(e) && *final(ctx) == *old(ctx),
            None => r == Ok::<Transfer, ErrorCode>(revenue_payout(*old(ctx), amount))
                && *final(ctx) == distribute_revenue_effect(*old(ctx), amount),
        },
        r matches Ok(payout) ==> {
            let share_bps = old(ctx).registry.record->Some_0.publisher_share_bps;
            &&& payout.amount == bps_share(amount, share_bps)
            &&& share_bps <= BPS_DENOMINATOR ==> payout.amount <= amount
        },
        publisher_wf(old(ctx).publisher) ==> publisher_wf(final(ctx).publisher),
{
    let (share_bps, total_payouts) = match &ctx.registry.record {
        Some(registry) => (registry.publisher_share_bps, registry.total_payouts),
        None => return Err(ErrorCode::NotFound),
    };
    let (active, slashed, total_earnings) = match &ctx.publisher.record {
        Some(publisher) => (publisher.active, publisher.slashed, publisher.total_earnings),
        None => return Err(ErrorCode::NotFound),
    };
    if !active {
        return Err(ErrorCode::PublisherInactive);
    }
    if slashed {
        return Err(ErrorCode::PublisherSlashed);
    }
    let share = match checked_bps_share(amount, share_bps) {
        Some(share) => share,
        None => return Err(ErrorCode::Overflow),
    };
    let new_earnings = match total_earnings.checked_add(share) {
        Some(sum) => sum,
        None => return Err(ErrorCode::Overflow),
    };
    let new_payouts = match total_payouts.checked_add(share) {
        Some(sum) => sum,
        None => return Err(ErrorCode::Overflow),
    };
    proof {
        crate::arith::lemma_share_within_amount(amount, share_bps);
    }
    match &mut ctx.publisher.record {
        Some(publisher) => {
            publisher.total_earnings = new_earnings;
        },
        None => {},
    }
    match &mut ctx.registry.record {
        Some(registry) => {
            registry.total_payouts = new_payouts;
        },
        None => {},
    }
    Ok(
        Transfer {
            from: ctx.revenue_pool,
            to: ctx.publisher_token_account,
            authority: Authority::Vault {
                kind: VaultKind::RevenuePool,
                seed: ctx.registry.key,
                bump: ctx.revenue_pool_bump,
            },
            amount: share,
        },
    )
}

/// The records and accounts of `register_publisher`.
#[derive(Clone, Debug, PartialEq, Eq)]
pub struct RegisterPublisher {
    pub registry: Slot<PublisherRegistry>,
    /// The slot that belongs to `owner`; vacant until the owner registers.
    pub publisher: Slot<Publisher>,
    /// The vault that will hold the stake.
    pub stake_vault: Identity,
    /// The owner's token account, the source of the stake.
    pub publisher_token_account: Identity,
    pub usdc_mint: Identity,
    /// The identity that registers, and signs the stake transfer.
    pub owner: Identity,
    pub publisher_bump: u8,
}

/// The first reason for which `register_publisher` fails, if there is one.
pub open spec fn register_publisher_error(
    ctx: RegisterPublisher,
    name: Seq<char>,
    metadata_uri: Seq<char>,
) -> Option<ErrorCode> {
    match ctx.registry.record {
        None => Some(ErrorCode::NotFound),
        Some(registry) => {
            if ctx.publisher.record is Some {
                Some(ErrorCode::Duplicate)
            } else if byte_len(name) > MAX_NAME_LEN {
                Some(ErrorCode::NameTooLong)
            } else if byte_len(metadata_uri) > MAX_URI_LEN {
                Some(ErrorCode::UriTooLong)
            } else if registry.total_publishers + 1 > u64::MAX {
                Some(ErrorCode::Overflow)
            } else {
                None
            }
        },
    }
}

/// The stake vault that a successful `register_publisher` has opened: it
/// holds the registry's token and is its own authority.
pub open spec fn stake_vault_opening(ctx: RegisterPublisher) -> VaultOpening {
    VaultOpening { vault: ctx.stake_vault, mint: ctx.usdc_mint, authority: ctx.stake_vault }
}

/// The stake that a successful `register_publisher` collects: exactly the
/// registry's minimum stake, from the owner into the stake vault.
pub open spec fn stake_deposit(ctx: RegisterPublisher) -> Transfer {
    Transfer {
        from: ctx.publisher_token_account,
        to: ctx.stake_vault,
        authority: Authority::Owner(ctx.owner),
        amount: ctx.registry.record->Some_0.min_stake,
    }
}

/// The records after a successful `register_publisher`.
pub open spec fn register_publisher_effect(
    ctx: RegisterPublisher,
    name: String,
    metadata_uri: String,
    now: i64,
) -> RegisterPublisher {
    let registry = ctx.registry.record->Some_0;
    RegisterPublisher {
        registry: Slot {
            record: Some(
                PublisherRegistry {
                    total_publishers: (registry.total_publishers + 1) as u64,
                    ..registry
                },
            ),
            ..ctx.registry
        },
        publisher: Slot {
            record: Some(
                Publisher::registered(
                    ctx.owner,
                    name,
                    metadata_uri,
                    registry.min_stake,
                    now,
                    ctx.publisher_bump,
                ),
            ),
            ..ctx.publisher
        },
        ..ctx
    }
}

/// Registers `ctx.owner` as a publisher, at time `now`.
///
/// The new publisher stakes the registry's minimum stake, starts with
/// `INITIAL_REPUTATION`, no submissions and no earnings, and is active. The
/// orders to open the stake vault and to move the stake into it are returned;
/// if the custody service refuses either, the registration does not stand.
pub fn register_publisher(
    ctx: &mut RegisterPublisher,
    name: String,
    metadata_uri: String,
    now: i64,
) -> (r: Result<(VaultOpening, Transfer), ErrorCode>)
    ensures
        match register_publisher_error(*old(ctx), name@, metadata_uri@) {
            Some(e) => r == Err::<(VaultOpening, Transfer), ErrorCode>(e) && *final(ctx) == *old(
                ctx,
            ),
            None => r == Ok::<(VaultOpening, Transfer), ErrorCode>(
                (stake_vault_opening(*old(ctx)), stake_deposit(*old(ctx))),
            ) && *final(ctx) == register_publisher_effect(*old(ctx), name, metadata_uri, now),
        },
        r is Ok ==> publisher_wf(final(ctx).publisher),
{
    let (min_stake, total_publishers) = match &ctx.registry.record {
        Some(registry) => (registry.min_stake, registry.total_publishers),
        None => return Err(ErrorCode::NotFound),
    };
    if ctx.publisher.record.is_some() {
        return Err(ErrorCode::Duplicate);
    }
    if byte_length(&name) > MAX_NAME_LEN {
        return Err(ErrorCode::NameTooLong);
    }
    if byte_length(&metadata_uri) > MAX_URI_LEN {
        return Err(ErrorCode::UriTooLong);
    }
    let new_total = match total_publishers.checked_add(1) {
        Some(sum) => sum,
        None => return Err(ErrorCode::Overflow),
    };
    ctx.publisher.record = Some(
        Publisher {
            owner: ctx.owner,
            name,
            metadata_uri,
            stake: min_stake,
            reputation_score: INITIAL_REPUTATION,
            alerts_submitted: 0,
            alerts_accepted: 0,
            total_earnings: 0,
            registered_at: now,
            active: true,
            slashed: false,
            bump: ctx.publisher_bump,
        },
    );
    match &mut ctx.registry.record {
        Some(registry) => {
            registry.total_publishers = new_total;
        },
        None => {},
    }
    Ok(
        (
            VaultOpening { vault: ctx.stake_vault, mint: ctx.usdc_mint, authority: ctx.stake_vault },
            Transfer {
                from: ctx.publisher_token_account,
                to: ctx.stake_vault,
                authority: Authority::Owner(ctx.owner),
                amount: min_stake,
            },
        ),
    )
}

/// The records and accounts of `slash_publisher`.
#[derive(Clone, Debug, PartialEq, Eq)]
pub struct SlashPublisher {
    pub registry: Slot<PublisherRegistry>,
    pub publisher: Slot<Publisher>,
    /// The publisher's stake vault, the source of the slashed amount.
    pub stake_vault: Identity,
    /// The treasury's token account, which receives the slashed amount.
    pub treasury: Identity,
    /// The identity that signed the slash.
    pub authority: Identity,
    pub stake_vault_bump: u8,
}

/// The first reason for which `slash_publisher` fails, if there is one.
pub open spec fn slash_publisher_error(ctx: SlashPublisher, slash_amount: u64) -> Option<
    ErrorCode,
> {
    match (ctx.registry.record, ctx.publisher.record) {
        (Some(registry), Some(publisher)) => {
            if registry.authority != ctx.authority {
                Some(ErrorCode::Unauthorized)
            } else if slash_amount > publisher.stake {
                Some(ErrorCode::InsufficientStake)
            } else {
                None
            }
        },
        _ => Some(ErrorCode::NotFound),
    }
}

/// The transfer that a successful `slash_publisher` orders: the slashed
/// amount, from the publisher's stake vault to the treasury, signed by the
/// protocol.
pub open spec fn slash_transfer(ctx: SlashPublisher, slash_amount: u64) -> Transfer {
    Transfer {
        from: ctx.stake_vault,
        to: ctx.treasury,
        authority: Authority::Vault {
            kind: VaultKind::StakeVault,
            seed: ctx.publisher.record->Some_0.owner,
            bump: ctx.stake_vault_bump,
        },
        amount: slash_amount,
    }
}

/// The records after a successful `slash_publisher`.
pub open spec fn slash_publisher_effect(ctx: SlashPublisher, slash_amount: u64) -> SlashPublisher {
    SlashPublisher {
        publisher: Slot {
            record: Some(ctx.publisher.record->Some_0.after_slash(slash_amount)),
            ..ctx.publisher
        },
        ..ctx
    }
}

/// Takes `slash_amount` from the publisher's stake, as a penalty.
///
/// Only the registry's authority may slash. The publisher's reputation drops
/// to zero whatever the amount; a publisher left without stake is marked
/// slashed and is no longer active. The `reason` is the caller's to record:
/// the ledger keeps no copy of it.
pub fn slash_publisher(ctx: &mut SlashPublisher, slash_amount: u64, reason: String) -> (r: Result<
    Transfer,
    ErrorCode,
>)
    ensures
        match slash_publisher_error(*old(ctx), slash_amount) {
            Some(e) => r == Err::<Transfer, ErrorCode>(e) && *final(ctx) == *old(ctx),
            None => r == Ok::<Transfer, ErrorCode>(slash_transfer(*old(ctx), slash_amount))
                && *final(ctx) == slash_publisher_effect(*old(ctx), slash_amount),
        },
        r is Ok ==> {
            let before = old(ctx).publisher.record->Some_0;
            let after = final(ctx).publisher.record->Some_0;
            &&& after.stake == before.stake - slash_amount
            &&& after.reputation_score == 0
            &&& after.stake == 0 ==> after.slashed && !after.active
        },
        publisher_wf(old(ctx).publisher) ==> publisher_wf(final(ctx).publisher),
{
    let authority = match &ctx.registry.record {
        Some(registry) => registry.authority,
        None => return Err(ErrorCode::NotFound),
    };
    let (owner, stake) = match &ctx.publisher.record {
        Some(publisher) => (publisher.owner, publisher.stake),
        None => return Err(ErrorCode::NotFound),
    };
    if authority != ctx.authority {
        return Err(ErrorCode::Unauthorized);
    }
    let remaining = match stake.checked_sub(slash_amount) {
        Some(rest) => rest,
        None => return Err(ErrorCode::InsufficientStake),
    };
    match &mut ctx.publisher.record {
        Some(publisher) => {
            publisher.stake = remaining;
            publisher.reputation_score = 0;
            if remaining == 0 {
                publisher.slashed = true;
                publisher.active = false;
            }
        },
        None => {},
    }
    Ok(
        Transfer {
            from: ctx.stake_vault,
            to: ctx.treasury,
            authority: Authority::Vault {
                kind: VaultKind::StakeVault,
                seed: owner,
                bump: ctx.stake_vault_bump,
            },
            amount: slash_amount,
        },
    )
}

/// The records and accounts of `withdraw_stake`.
#[derive(Clone, Debug, PartialEq, Eq)]
pub struct WithdrawStake {
    pub publisher: Slot<Publisher>,
    /// The publisher's stake vault, the source of the withdrawal.
    pub stake_vault: Identity,
    /// The owner's token account, which receives the stake.
    pub publisher_token_account: Identity,
    /// The identity that signed the withdrawal.
    pub owner: Identity,
    pub stake_vault_bump: u8,
}

/// The first reason for which `withdraw_stake` fails, if there is one.
pub open spec fn withdraw_stake_error(ctx: WithdrawStake) -> Option<ErrorCode> {
    match ctx.publisher.record {
        None => Some(ErrorCode::NotFound),
        Some(publisher) => {
            if publisher.owner != ctx.owner {
                Some(ErrorCode::Unauthorized)
            } else if publisher.slashed {
                Some(ErrorCode::PublisherSlashed)
            } else {
                None
            }
        },
    }
}

/// The transfer that a successful `withdraw_stake` orders: the whole stake,
/// from the stake vault back to the owner, signed by the protocol.
pub open spec fn stake_refund(ctx: WithdrawStake) -> Transfer {
    Transfer {
        from: ctx.stake_vault,
        to: ctx.publisher_token_account,
        authority: Authority::Vault {
            kind: VaultKind::StakeVault,
            seed: ctx.owner,
            bump: ctx.stake_vault_bump,
        },
        amount: ctx.publisher.record->Some_0.stake,
    }
}

/// The records after a successful `withdraw_stake`.
pub open spec fn withdraw_stake_effect(ctx: WithdrawStake) -> WithdrawStake {
    WithdrawStake {
        publisher: Slot {
            record: Some(ctx.publisher.record->Some_0.after_withdrawal()),
            ..ctx.publisher
        },
        ..ctx
    }
}

/// Returns the publisher's whole stake to its owner and retires the
/// publisher. A slashed publisher has forfeited the right to withdraw.
pub fn withdraw_stake(ctx: &mut WithdrawStake) -> (r: Result<Transfer, ErrorCode>)
    ensures
        match withdraw_stake_error(*old(ctx)) {
            Some(e) => r == Err::<Transfer, ErrorCode>(e) && *final(ctx) == *old(ctx),
            None => r == Ok::<Transfer, ErrorCode>(stake_refund(*old(ctx))) && *final(ctx)
                == withdraw_stake_effect(*old(ctx)),
        },
        r is Ok ==> {
            let after = final(ctx).publisher.record->Some_0;
            after.stake == 0 && !after.active
        },
        publisher_wf(old(ctx).publisher) ==> publisher_wf(final(ctx).publisher),
{
    let (owner, slashed, stake) = match &ctx.publisher.record {
        Some(publisher) => (publisher.owner, publisher.slashed, publisher.stake),
        None => return Err(ErrorCode::NotFound),
    };
    if owner != ctx.owner {
        return Err(ErrorCode::Unauthorized);
    }
    if slashed {
        return Err(ErrorCode::PublisherSlashed);
    }
    match &mut ctx.publisher.record {
        Some(publisher) => {
            publisher.stake = 0;
            publisher.active = false;
        },
        None => {},
    }
    Ok(
        Transfer {
            from: ctx.stake_vault,
            to: ctx.publisher_token_account,
            authority: Authority::Vault {
                kind: VaultKind::StakeVault,
                seed: ctx.owner,
                bump: ctx.stake_vault_bump,
            },
            amount: stake,
        },
    )
}

/// The records of `record_alert_submission`.
#[derive(Clone, Debug, PartialEq, Eq)]
pub struct RecordSubmission {
    pub publisher: Slot<Publisher>,
    /// The protocol identity that invoked the operation.
    pub authority: Identity,
}

/// The first reason for which `record_alert_submission` fails, if there is
/// one.
pub open spec fn record_alert_submission_error(ctx: RecordSubmission, accepted: bool) -> Option<
    ErrorCode,
> {
    match ctx.publisher.record {
        None => Some(ErrorCode::NotFound),
        Some(publisher) => {
            if publisher.alerts_submitted + 1 > u64::MAX || (accepted && publisher.alerts_accepted
                + 1 > u64::MAX) {
                Some(ErrorCode::Overflow)
            } else {
                None
            }
        },
    }
}

/// The records after a successful `record_alert_submission`.
pub open spec fn record_alert_submission_effect(
    ctx: RecordSubmission,
    accepted: bool,
) -> RecordSubmission {
    RecordSubmission {
        publisher: Slot {
            record: Some(ctx.publisher.record->Some_0.after_submission(accepted)),
            ..ctx.publisher
        },
        ..ctx
    }
}

/// Counts one submitted alert and adjusts the publisher's reputation.
///
/// An accepted alert is counted as accepted too and earns
/// `ACCEPTANCE_REWARD`, up to `MAX_REPUTATION`; a rejected one costs
/// `REJECTION_PENALTY`, down to zero.
pub fn record_alert_submission(ctx: &mut RecordSubmission, accepted: bool) -> (r: Result<
    (),
    ErrorCode,
>)
    ensures
        match record_alert_submission_error(*old(ctx), accepted) {
            Some(e) => r == Err::<(), ErrorCode>(e) && *final(ctx) == *old(ctx),
            None => r is Ok && *final(ctx) == record_alert_submission_effect(*old(ctx), accepted),
        },
        r is Ok ==> {
            let before = old(ctx).publisher.record->Some_0;
            let after = final(ctx).publisher.record->Some_0;
            &&& after.reputation_score == adjusted_reputation(before.reputation_score, accepted)
            &&& accepted || before.reputation_score <= MAX_REPUTATION ==> after.reputation_score
                <= MAX_REPUTATION
        },
        publisher_wf(old(ctx).publisher) ==> publisher_wf(final(ctx).publisher),
{
    let (submitted, accepted_so_far, score) = match &ctx.publisher.record {
        Some(publisher) => (
            publisher.alerts_submitted,
            publisher.alerts_accepted,
            publisher.reputation_score,
        ),
        None => return Err(ErrorCode::NotFound),
    };
    let new_submitted = match submitted.checked_add(1) {
        Some(sum) => sum,
        None => return Err(ErrorCode::Overflow),
    };
    let new_accepted = if accepted {
        match accepted_so_far.checked_add(1) {
            Some(sum) => sum,
            None => return Err(ErrorCode::Overflow),
        }
    } else {
        accepted_so_far
    };
    let new_score = adjust_reputation(score, accepted);
    match &mut ctx.publisher.record {
        Some(publisher) => {
            publisher.alerts_submitted = new_submitted;
            publisher.alerts_accepted = new_accepted;
            publisher.reputation_score = new_score;
        },
        None => {},
    }
    Ok(())
}

/// The records and accounts of `initialize`.
#[derive(Clone, Debug, PartialEq, Eq)]
pub struct Initialize {
    /// The registry's slot; vacant until the ledger is initialized.
    pub registry: Slot<PublisherRegistry>,
    pub usdc_mint: Identity,
    /// The identity that initializes the ledger and becomes its authority.
    pub authority: Identity,
    pub registry_bump: u8,
}

/// The registry that `initialize` creates.
pub open spec fn initial_registry(
    ctx: Initialize,
    min_stake: u64,
    publisher_share_bps: u16,
) -> PublisherRegistry {
    PublisherRegistry {
        authority: ctx.authority,
        usdc_mint: ctx.usdc_mint,
        min_stake,
        publisher_share_bps,
        total_publishers: 0,
        total_payouts: 0,
        bump: ctx.registry_bump,
    }
}

/// Creates the publisher registry, once. The share is taken as given: a
/// share above `BPS_DENOMINATOR` is not refused here.
pub fn initialize(ctx: &mut Initialize, min_stake: u64, publisher_share_bps: u16) -> (r: Result<
    (),
    ErrorCode,
>)
    ensures
        old(ctx).registry.record is Some ==> r == Err::<(), ErrorCode>(
            ErrorCode::AlreadyInitialized,
        ) && *final(ctx) == *old(ctx),
        old(ctx).registry.record is None ==> r is Ok && *final(ctx) == (Initialize {
            registry: Slot {
                record: Some(initial_registry(*old(ctx), min_stake, publisher_share_bps)),
                ..old(ctx).registry
            },
            ..*old(ctx)
        }),
{
    if ctx.registry.record.is_some() {
        return Err(ErrorCode::AlreadyInitialized);
    }
    ctx.registry.record = Some(
        PublisherRegistry {
            authority: ctx.authority,
            usdc_mint: ctx.usdc_mint,
            min_stake,
            publisher_share_bps,
            total_publishers: 0,
            total_payouts: 0,
            bump: ctx.registry_bump,
        },
    );
    Ok(())
}

/// The records after a run of `record_alert_submission` calls, one for each
/// outcome in order; a call that fails changes nothing.
pub open spec fn after_submissions(ctx: RecordSubmission, outcomes: Seq<bool>) -> RecordSubmission
    decreases outcomes.len(),
{
    if outcomes.len() == 0 {
        ctx
    } else {
        let before = after_submissions(ctx, outcomes.drop_last());
        if record_alert_submission_error(before, outcomes.last()) is None {
            record_alert_submission_effect(before, outcomes.last())
        } else {
            before
        }
    }
}

/// No run of submissions takes the reputation out of its range: it never
/// exceeds `MAX_REPUTATION`, rejections alone leave a reputation of zero at
/// zero, and acceptances alone leave the highest reputation where it is.
pub proof fn lemma_reputation_clamped(ctx: RecordSubmission, outcomes: Seq<bool>)
    requires
        ctx.publisher.record is Some,
        ctx.publisher.record->Some_0.reputation_score <= MAX_REPUTATION,
    ensures
        after_submissions(ctx, outcomes).publisher.record is Some,
        after_submissions(ctx, outcomes).publisher.record->Some_0.reputation_score
            <= MAX_REPUTATION,
        ctx.publisher.record->Some_0.reputation_score == 0 && (forall|i: int|
            0 <= i < outcomes.len() ==> !outcomes[i]) ==> after_submissions(
            ctx,
            outcomes,
        ).publisher.record->Some_0.reputation_score == 0,
        ctx.publisher.record->Some_0.reputation_score == MAX_REPUTATION && (forall|i: int|
            0 <= i < outcomes.len() ==> outcomes[i]) ==> after_submissions(
            ctx,
            outcomes,
        ).publisher.record->Some_0.reputation_score == MAX_REPUTATION,
    decreases outcomes.len(),
{
    if outcomes.len() > 0 {
        lemma_reputation_clamped(ctx, outcomes.drop_last());
    }
}

/// A slash that takes the last of the stake retires the publisher for good:
/// it is marked slashed and inactive, and when its owner then asks for the
/// stake, `withdraw_stake` fails with `PublisherSlashed`.
pub proof fn lemma_full_slash_forfeits_withdrawal(
    slash: SlashPublisher,
    slash_amount: u64,
    withdrawal: WithdrawStake,
)
    requires
        slash_publisher_error(slash, slash_amount) is None,
        slash_publisher_effect(slash, slash_amount).publisher.record->Some_0.stake == 0,
        withdrawal.publisher == slash_publisher_effect(slash, slash_amount).publisher,
        withdrawal.owner == withdrawal.publisher.record->Some_0.owner,
    ensures
        !withdrawal.publisher.record->Some_0.active,
        withdrawal.publisher.record->Some_0.slashed,
        withdraw_stake_error(withdrawal) == Some(ErrorCode::PublisherSlashed),
{
}

/// No operation brings a retired publisher back: one that is inactive stays
/// inactive, and one that is slashed stays slashed, through every change that
/// the ledger makes to a publisher.
pub proof fn lemma_retirement_is_final(
    publisher: Publisher,
    accepted: bool,
    share: u64,
    slash_amount: u64,
)
    ensures
        !publisher.active ==> {
            &&& !publisher.after_submission(accepted).active
            &&& !publisher.after_payout(share).active
            &&& !publisher.after_slash(slash_amount).active
            &&& !publisher.after_withdrawal().active
        },
        publisher.slashed ==> {
            &&& publisher.after_submission(accepted).slashed
            &&& publisher.after_payout(share).slashed
            &&& publisher.after_slash(slash_amount).slashed
            &&& publisher.after_withdrawal().slashed
        },
{
}

} // verus!
