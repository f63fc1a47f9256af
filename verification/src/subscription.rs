//! The subscription ledger: the prepaid balance and channel subscriptions of
//! each subscriber, and the charge for every delivered alert.
//!
//! Every operation works on the records that its context names. It checks, in
//! this order, that the records it needs exist and the slot it fills is
//! vacant, that the caller and the accounts are the ones the records name, and
//! then its own conditions. A failed operation leaves every record as it was.

use crate::arith::{bps_share, checked_bps_share};
use crate::custody::{Authority, Transfer, VaultKind, VaultOpening};
use crate::error::ErrorKind;
use crate::identity::Identity;
use crate::slot::Slot;
use vstd::prelude::*;

verus! {

/// The most bytes that a channel bitmap may have.
pub const MAX_CHANNEL_BYTES: usize = 4;

/// Why a subscription-ledger operation failed.
#[derive(Clone, Copy, Debug, PartialEq, Eq, Structural)]
pub enum ErrorCode {
    /// A deposit of nothing.
    InvalidAmount,
    /// The balance does not cover the withdrawal or the charge.
    InsufficientBalance,
    /// The channel bitmap has more than `MAX_CHANNEL_BYTES` bytes.
    TooManyChannels,
    /// The subscriber is not active.
    SubscriberInactive,
    /// A counter or amount has no representable result.
    Overflow,
    /// The caller is not the owner that the record names.
    Unauthorized,
    /// The mint is not the one that the configuration names.
    InvalidMint,
    /// The configuration has been created before.
    AlreadyInitialized,
    /// The slot to fill holds a record already.
    Duplicate,
    /// A record that the operation needs does not exist.
    NotFound,
}

impl ErrorCode {
    /// The failure kind that this code belongs to.
    pub open spec fn kind_of(self) -> ErrorKind {
        match self {
            ErrorCode::InvalidAmount | ErrorCode::TooManyChannels | ErrorCode::InvalidMint =>
                ErrorKind::Validation,
            ErrorCode::SubscriberInactive | ErrorCode::AlreadyInitialized | ErrorCode::Duplicate =>
                ErrorKind::State,
            ErrorCode::InsufficientBalance => ErrorKind::InsufficientFunds,
            ErrorCode::Overflow => ErrorKind::Overflow,
            ErrorCode::Unauthorized => ErrorKind::Authorization,
            ErrorCode::NotFound => ErrorKind::NotFound,
        }
    }

    /// The failure kind that this code belongs to.
    pub fn kind(&self) -> (k: ErrorKind)
        ensures
            k == self.kind_of(),
    {
        match self {
            ErrorCode::InvalidAmount | ErrorCode::TooManyChannels | ErrorCode::InvalidMint =>
                ErrorKind::Validation,
            ErrorCode::SubscriberInactive | ErrorCode::AlreadyInitialized | ErrorCode::Duplicate =>
                ErrorKind::State,
            ErrorCode::InsufficientBalance => ErrorKind::InsufficientFunds,
            ErrorCode::Overflow => ErrorKind::Overflow,
            ErrorCode::Unauthorized => ErrorKind::Authorization,
            ErrorCode::NotFound => ErrorKind::NotFound,
        }
    }
}

/// The weight of byte `i` of a channel bitmap: 256 to the power of `i`.
pub open spec fn byte_weight(i: nat) -> nat
    decreases i,
{
    if i == 0 {
        1
    } else {
        256 * byte_weight((i - 1) as nat)
    }
}

/// The bitmap that `bytes` pack, lowest byte first: byte `i` counts
/// `byte_weight(i)` times its value.
pub open spec fn packed_channels(bytes: Seq<u8>) -> nat
    decreases bytes.len(),
{
    if bytes.len() == 0 {
        0
    } else {
        packed_channels(bytes.drop_last()) + (bytes.last() as nat) * byte_weight(
            (bytes.len() - 1) as nat,
        )
    }
}

/// The weights of the four bytes of a bitmap.
pub proof fn lemma_byte_weights()
    ensures
        byte_weight(0) == 1,
        byte_weight(1) == 0x100,
        byte_weight(2) == 0x1_0000,
        byte_weight(3) == 0x100_0000,
        byte_weight(4) == 0x1_0000_0000,
{
    reveal_with_fuel(byte_weight, 5);
}

/// What one more byte adds to a bitmap.
pub proof fn lemma_packed_channels_push(bytes: Seq<u8>, byte: u8)
    ensures
        packed_channels(bytes.push(byte)) == packed_channels(bytes) + byte * byte_weight(
            bytes.len(),
        ),
{
    assert(bytes.push(byte).drop_last() =~= bytes);
}

/// At most four bytes pack into 32 bits.
pub proof fn lemma_packed_channels_bound(bytes: Seq<u8>)
    requires
        bytes.len() <= MAX_CHANNEL_BYTES,
    ensures
        packed_channels(bytes) < byte_weight(bytes.len()),
        byte_weight(bytes.len()) <= 0x1_0000_0000,
    decreases bytes.len(),
{
    lemma_byte_weights();
    if bytes.len() > 0 {
        lemma_packed_channels_bound(bytes.drop_last());
        let weight = byte_weight((bytes.len() - 1) as nat);
        let last = bytes.last() as nat;
        assert(last * weight <= 255 * weight) by (nonlinear_arith)
            requires
                last <= 255,
        ;
    }
}

/// Packs a channel bitmap of at most four bytes into one word.
pub fn channels_to_u32(channels: &[u8]) -> (word: u32)
    requires
        channels@.len() <= MAX_CHANNEL_BYTES,
    ensures
        word == packed_channels(channels@),
{
    let mut result: u32 = 0;
    let mut i: usize = 0;
    while i < channels.len()
        invariant
            i <= channels@.len() <= MAX_CHANNEL_BYTES,
            result == packed_channels(channels@.take(i as int)),
        decreases channels@.len() - i,
    {
        let byte: u32 = channels[i] as u32;
        let shift: u32 = (i * 8) as u32;
        let ghost before = result;
        result = result | (byte << shift);
        proof {
            let seen = channels@.take(i as int);
            lemma_byte_weights();
            lemma_packed_channels_bound(seen);
            lemma_packed_channels_push(seen, channels@[i as int]);
            assert(seen.push(channels@[i as int]) =~= channels@.take(i as int + 1));
            if i == 0 {
                assert(byte <= 255 && before < 1 && shift == 0 ==> (before | (byte << shift))
                    == before + byte) by (bit_vector);
                assert(byte * byte_weight(0) == byte);
            } else if i == 1 {
                assert(byte <= 255 && before < 0x100 && shift == 8 ==> (before | (byte << shift))
                    == before + byte * 0x100) by (bit_vector);
                assert(byte * byte_weight(1) == byte * 0x100);
            } else if i == 2 {
                assert(byte <= 255 && before < 0x1_0000 && shift == 16 ==> (before | (byte
                    << shift)) == before + byte * 0x1_0000) by (bit_vector);
                assert(byte * byte_weight(2) == byte * 0x1_0000);
            } else {
                assert(byte <= 255 && before < 0x100_0000 && shift == 24 ==> (before | (byte
                    << shift)) == before + byte * 0x100_0000) by (bit_vector);
                assert(byte * byte_weight(3) == byte * 0x100_0000);
            }
        }
        i += 1;
    }
    assert(channels@.take(i as int) =~= channels@);
    result
}

/// The singleton configuration and running totals of the subscription ledger.
#[derive(Clone, Debug, PartialEq, Eq)]
pub struct ProtocolConfig {
    pub authority: Identity,
    /// The mint of the token that balances are held in.
    pub usdc_mint: Identity,
    /// The treasury's token account.
    pub treasury: Identity,
    /// What one delivered alert costs a subscriber.
    pub price_per_alert: u64,
    /// The treasury's part of every charge, in basis points.
    pub treasury_fee_bps: u16,
    pub total_subscribers: u64,
    pub total_alerts_delivered: u64,
    pub total_revenue: u64,
    pub bump: u8,
}

/// One subscriber.
#[derive(Clone, Debug, PartialEq, Eq)]
pub struct Subscriber {
    pub owner: Identity,
    /// The subscribed channels: bit `n` stands for channel `n`.
    pub channels: u32,
    pub balance: u64,
    pub alerts_received: u64,
    pub created_at: i64,
    pub active: bool,
    pub bump: u8,
    pub vault_bump: u8,
}

impl Subscriber {
    /// The subscriber as `create_subscriber` creates it.
    pub open spec fn created(
        owner: Identity,
        channels: u32,
        now: i64,
        bump: u8,
        vault_bump: u8,
    ) -> Subscriber {
        Subscriber {
            owner,
            channels,
            balance: 0,
            alerts_received: 0,
            created_at: now,
            active: true,
            bump,
            vault_bump,
        }
    }

    /// The subscriber after a deposit of `amount`.
    pub open spec fn after_deposit(self, amount: u64) -> Subscriber {
        Subscriber { balance: (self.balance + amount) as u64, ..self }
    }

    /// The subscriber after a withdrawal of `amount`.
    pub open spec fn after_withdrawal(self, amount: u64) -> Subscriber {
        Subscriber { balance: (self.balance - amount) as u64, ..self }
    }

    /// The subscriber with its channel bitmap replaced.
    pub open spec fn with_channels(self, channels: u32) -> Subscriber {
        Subscriber { channels, ..self }
    }

    /// The subscriber with its activation set.
    pub open spec fn with_active(self, active: bool) -> Subscriber {
        Subscriber { active, ..self }
    }

    /// The subscriber after it has paid `price` for one delivered alert.
    pub open spec fn after_charge(self, price: u64) -> Subscriber {
        Subscriber {
            balance: (self.balance - price) as u64,
            alerts_received: (self.alerts_received + 1) as u64,
            ..self
        }
    }
}

/// The proof that a subscriber was charged for an alert.
#[derive(Clone, Debug, PartialEq, Eq)]
pub struct DeliveryReceipt {
    /// The address of the subscriber's record.
    pub subscriber: Identity,
    pub alert_hash: [u8; 32],
    pub amount_charged: u64,
    pub timestamp: i64,
    pub bump: u8,
}

/// How one charge is divided.
#[derive(Clone, Copy, Debug, PartialEq, Eq, Structural)]
pub struct FeeSplit {
    /// The treasury's part.
    pub treasury_fee: u64,
    /// What is left for the publisher side.
    pub publisher_amount: u64,
}

/// The division of `price` under a treasury fee of `fee_bps` basis points:
/// the fee is rounded down, and the publisher side gets the rest.
pub open spec fn fee_split(price: u64, fee_bps: u16) -> FeeSplit {
    FeeSplit {
        treasury_fee: bps_share(price, fee_bps) as u64,
        publisher_amount: (price - bps_share(price, fee_bps)) as u64,
    }
}

/// Divides `price` between the treasury and the publisher side; `None` when
/// the fee would exceed the price.
pub fn split_fee(price: u64, fee_bps: u16) -> (r: Option<FeeSplit>)
    ensures
        bps_share(price, fee_bps) <= price ==> r == Some(fee_split(price, fee_bps)),
        bps_share(price, fee_bps) > price ==> r.is_none(),
        r matches Some(split) ==> split.treasury_fee + split.publisher_amount == price,
{
    let treasury_fee = match checked_bps_share(price, fee_bps) {
        Some(fee) => fee,
        None => return None,
    };
    match price.checked_sub(treasury_fee) {
        Some(publisher_amount) => Some(FeeSplit { treasury_fee, publisher_amount }),
        None => None,
    }
}

/// The records and accounts of `charge_for_alert`.
#[derive(Clone, Debug, PartialEq, Eq)]
pub struct ChargeForAlert {
    pub config: Slot<ProtocolConfig>,
    pub subscriber: Slot<Subscriber>,
    /// The slot for the receipt of this delivery; vacant before the charge.
    pub delivery_receipt: Slot<DeliveryReceipt>,
    /// The protocol identity that invoked the operation.
    pub distributor: Identity,
    pub delivery_receipt_bump: u8,
}

/// The first reason for which `charge_for_alert` fails, if there is one.
pub open spec fn charge_for_alert_error(ctx: ChargeForAlert) -> Option<ErrorCode> {
    match (ctx.config.record, ctx.subscriber.record) {
        (Some(config), Some(subscriber)) => {
            let price = config.price_per_alert;
            if ctx.delivery_receipt.record is Some {
                Some(ErrorCode::Duplicate)
            } else if !subscriber.active {
                Some(ErrorCode::SubscriberInactive)
            } else if subscriber.balance < price {
                Some(ErrorCode::InsufficientBalance)
            } else if bps_share(price, config.treasury_fee_bps) > price
                || subscriber.alerts_received + 1 > u64::MAX || config.total_alerts_delivered + 1
                > u64::MAX || config.total_revenue + price > u64::MAX {
                Some(ErrorCode::Overflow)
            } else {
                None
            }
        },
        _ => Some(ErrorCode::NotFound),
    }
}

/// The records after a successful `charge_for_alert`.
pub open spec fn charge_for_alert_effect(
    ctx: ChargeForAlert,
    alert_hash: [u8; 32],
    now: i64,
) -> ChargeForAlert {
    let config = ctx.config.record->Some_0;
    let subscriber = ctx.subscriber.record->Some_0;
    let price = config.price_per_alert;
    ChargeForAlert {
        config: Slot {
            record: Some(
                ProtocolConfig {
                    total_alerts_delivered: (config.total_alerts_delivered + 1) as u64,
                    total_revenue: (config.total_revenue + price) as u64,
                    ..config
                },
            ),
            ..ctx.config
        },
        subscriber: Slot { record: Some(subscriber.after_charge(price)), ..ctx.subscriber },
        delivery_receipt: Slot {
            record: Some(
                DeliveryReceipt {
                    subscriber: ctx.subscriber.key,
                    alert_hash,
                    amount_charged: price,
                    timestamp: now,
                    bump: ctx.delivery_receipt_bump,
                },
            ),
            ..ctx.delivery_receipt
        },
        ..ctx
    }
}

/// Charges the subscriber the configured price for one delivered alert, at
/// time `now`.
///
/// The whole price leaves the subscriber's balance; a receipt is written and
/// the subscriber's and the ledger's counters move on. The returned split
/// says how the price divides between the treasury and the publisher side. No
/// token moves here: paying the publisher is the publisher ledger's part.
pub fn charge_for_alert(ctx: &mut ChargeForAlert, alert_hash: [u8; 32], now: i64) -> (r: Result<
    FeeSplit,
    ErrorCode,
>)
    ensures
        match charge_for_alert_error(*old(ctx)) {
            Some(e) => r == Err::<FeeSplit, ErrorCode>(e) && *final(ctx) == *old(ctx),
            None => {
                let config = old(ctx).config.record->Some_0;
                &&& r == Ok::<FeeSplit, ErrorCode>(
                    fee_split(config.price_per_alert, config.treasury_fee_bps),
                )
                &&& *final(ctx) == charge_for_alert_effect(*old(ctx), alert_hash, now)
            },
        },
        r matches Ok(split) ==> {
            let price = old(ctx).config.record->Some_0.price_per_alert;
            &&& split.treasury_fee + split.publisher_amount == price
            &&& final(ctx).subscriber.record->Some_0.balance == old(
                ctx,
            ).subscriber.record->Some_0.balance - price
        },
{
    let (price, fee_bps, delivered, revenue) = match &ctx.config.record {
        Some(config) => (
            config.price_per_alert,
            config.treasury_fee_bps,
            config.total_alerts_delivered,
            config.total_revenue,
        ),
        None => return Err(ErrorCode::NotFound),
    };
    let (active, balance, received) = match &ctx.subscriber.record {
        Some(subscriber) => (subscriber.active, subscriber.balance, subscriber.alerts_received),
        None => return Err(ErrorCode::NotFound),
    };
    if ctx.delivery_receipt.record.is_some() {
        return Err(ErrorCode::Duplicate);
    }
    if !active {
        return Err(ErrorCode::SubscriberInactive);
    }
    let new_balance = match balance.checked_sub(price) {
        Some(rest) => rest,
        None => return Err(ErrorCode::InsufficientBalance),
    };
    let split = match split_fee(price, fee_bps) {
        Some(split) => split,
        None => return Err(ErrorCode::Overflow),
    };
    let new_received = match received.checked_add(1) {
        Some(sum) => sum,
        None => return Err(ErrorCode::Overflow),
    };
    let new_delivered = match delivered.checked_add(1) {
        Some(sum) => sum,
        None => return Err(ErrorCode::Overflow),
    };
    let new_revenue = match revenue.checked_add(price) {
        Some(sum) => sum,
        None => return Err(ErrorCode::Overflow),
    };
    match &mut ctx.subscriber.record {
        Some(subscriber) => {
            subscriber.balance = new_balance;
            subscriber.alerts_received = new_received;
        },
        None => {},
    }
    ctx.delivery_receipt.record = Some(
        DeliveryReceipt {
            subscriber: ctx.subscriber.key,
            alert_hash,
            amount_charged: price,
            timestamp: now,
            bump: ctx.delivery_receipt_bump,
        },
    );
    match &mut ctx.config.record {
        Some(config) => {
            config.total_alerts_delivered = new_delivered;
            config.total_revenue = new_revenue;
        },
        None => {},
    }
    Ok(split)
}

/// The records and accounts of `create_subscriber`.
#[derive(Clone, Debug, PartialEq, Eq)]
pub struct CreateSubscriber {
    pub config: Slot<ProtocolConfig>,
    /// The slot that belongs to `owner`; vacant until the subscriber exists.
    pub subscriber: Slot<Subscriber>,
    /// The vault that will hold the subscriber's balance.
    pub subscriber_vault: Identity,
    /// The mint of the vault's token.
    pub usdc_mint: Identity,
    /// The identity that subscribes.
    pub owner: Identity,
    pub subscriber_bump: u8,
    pub subscriber_vault_bump: u8,
}

/// The first reason for which `create_subscriber` fails, if there is one.
pub open spec fn create_subscriber_error(ctx: CreateSubscriber, channels: Seq<u8>) -> Option<
    ErrorCode,
> {
    match ctx.config.record {
        None => Some(ErrorCode::NotFound),
        Some(config) => {
            if ctx.subscriber.record is Some {
                Some(ErrorCode::Duplicate)
            } else if ctx.usdc_mint != config.usdc_mint {
                Some(ErrorCode::InvalidMint)
            } else if channels.len() > MAX_CHANNEL_BYTES {
                Some(ErrorCode::TooManyChannels)
            } else if config.total_subscribers + 1 > u64::MAX {
                Some(ErrorCode::Overflow)
            } else {
                None
            }
        },
    }
}

/// The vault that a successful `create_subscriber` has opened: it holds the
/// configured token and is its own authority.
pub open spec fn subscriber_vault_opening(ctx: CreateSubscriber) -> VaultOpening {
    VaultOpening {
        vault: ctx.subscriber_vault,
        mint: ctx.usdc_mint,
        authority: ctx.subscriber_vault,
    }
}

/// The records after a successful `create_subscriber`.
pub open spec fn create_subscriber_effect(
    ctx: CreateSubscriber,
    channels: Seq<u8>,
    now: i64,
) -> CreateSubscriber {
    let config = ctx.config.record->Some_0;
    CreateSubscriber {
        config: Slot {
            record: Some(
                ProtocolConfig {
                    total_subscribers: (config.total_subscribers + 1) as u64,
                    ..config
                },
            ),
            ..ctx.config
        },
        subscriber: Slot {
            record: Some(
                Subscriber::created(
                    ctx.owner,
                    packed_channels(channels) as u32,
                    now,
                    ctx.subscriber_bump,
                    ctx.subscriber_vault_bump,
                ),
            ),
            ..ctx.subscriber
        },
        ..ctx
    }
}

/// Creates the subscriber record of `ctx.owner`, at time `now`, with an empty
/// balance and the given channel bitmap, and returns the order to open the
/// subscriber's vault.
pub fn create_subscriber(ctx: &mut CreateSubscriber, channels: Vec<u8>, now: i64) -> (r: Result<
    VaultOpening,
    ErrorCode,
>)
    ensures
        match create_subscriber_error(*old(ctx), channels@) {
            Some(e) => r == Err::<VaultOpening, ErrorCode>(e) && *final(ctx) == *old(ctx),
            None => r == Ok::<VaultOpening, ErrorCode>(subscriber_vault_opening(*old(ctx)))
                && *final(ctx) == create_subscriber_effect(*old(ctx), channels@, now),
        },
        r is Ok ==> {
            let created = final(ctx).subscriber.record->Some_0;
            created.balance == 0 && created.active && created.owner == old(ctx).owner
        },
{
    let (mint, total_subscribers) = match &ctx.config.record {
        Some(config) => (config.usdc_mint, config.total_subscribers),
        None => return Err(ErrorCode::NotFound),
    };
    if ctx.subscriber.record.is_some() {
        return Err(ErrorCode::Duplicate);
    }
    if ctx.usdc_mint != mint {
        return Err(ErrorCode::InvalidMint);
    }
    if channels.len() > MAX_CHANNEL_BYTES {
        return Err(ErrorCode::TooManyChannels);
    }
    let new_total = match total_subscribers.checked_add(1) {
        Some(sum) => sum,
        None => return Err(ErrorCode::Overflow),
    };
    ctx.subscriber.record = Some(
        Subscriber {
            owner: ctx.owner,
            channels: channels_to_u32(channels.as_slice()),
            balance: 0,
            alerts_received: 0,
            created_at: now,
            active: true,
            bump: ctx.subscriber_bump,
            vault_bump: ctx.subscriber_vault_bump,
        },
    );
    match &mut ctx.config.record {
        Some(config) => {
            config.total_subscribers = new_total;
        },
        None => {},
    }
    Ok(
        VaultOpening {
            vault: ctx.subscriber_vault,
            mint: ctx.usdc_mint,
            authority: ctx.subscriber_vault,
        },
    )
}

/// The records and accounts of `withdraw`.
#[derive(Clone, Debug, PartialEq, Eq)]
pub struct Withdraw {
    pub subscriber: Slot<Subscriber>,
    /// The subscriber's vault, the source of the withdrawal.
    pub subscriber_vault: Identity,
    /// The owner's token account, which receives the withdrawal.
    pub user_token_account: Identity,
    /// The identity that signed the withdrawal.
    pub owner: Identity,
    pub subscriber_vault_bump: u8,
}

/// The first reason for which `withdraw` fails, if there is one.
pub open spec fn withdraw_error(ctx: Withdraw, amount: u64) -> Option<ErrorCode> {
    match ctx.subscriber.record {
        None => Some(ErrorCode::NotFound),
        Some(subscriber) => {
            if subscriber.owner != ctx.owner {
                Some(ErrorCode::Unauthorized)
            } else if subscriber.balance < amount {
                Some(ErrorCode::InsufficientBalance)
            } else {
                None
            }
        },
    }
}

/// The transfer that a successful `withdraw` orders: `amount`, from the
/// subscriber's vault to the owner, signed by the protocol.
pub open spec fn withdrawal_transfer(ctx: Withdraw, amount: u64) -> Transfer {
    Transfer {
        from: ctx.subscriber_vault,
        to: ctx.user_token_account,
        authority: Authority::Vault {
            kind: VaultKind::SubscriberVault,
            seed: ctx.owner,
            bump: ctx.subscriber_vault_bump,
        },
        amount,
    }
}

/// The records after a successful `withdraw`.
pub open spec fn withdraw_effect(ctx: Withdraw, amount: u64) -> Withdraw {
    Withdraw {
        subscriber: Slot {
            record: Some(ctx.subscriber.record->Some_0.after_withdrawal(amount)),
            ..ctx.subscriber
        },
        ..ctx
    }
}

/// Takes `amount` out of the subscriber's balance and returns the order to
/// pay it out of the subscriber's vault.
pub fn withdraw(ctx: &mut Withdraw, amount: u64) -> (r: Result<Transfer, ErrorCode>)
    ensures
        match withdraw_error(*old(ctx), amount) {
            Some(e) => r == Err::<Transfer, ErrorCode>(e) && *final(ctx) == *old(ctx),
            None => r == Ok::<Transfer, ErrorCode>(withdrawal_transfer(*old(ctx), amount))
                && *final(ctx) == withdraw_effect(*old(ctx), amount),
        },
        r is Ok ==> final(ctx).subscriber.record->Some_0.balance == old(
            ctx,
        ).subscriber.record->Some_0.balance - amount,
{
    let (owner, balance) = match &ctx.subscriber.record {
        Some(subscriber) => (subscriber.owner, subscriber.balance),
        None => return Err(ErrorCode::NotFound),
    };
    if owner != ctx.owner {
        return Err(ErrorCode::Unauthorized);
    }
    let new_balance = match balance.checked_sub(amount) {
        Some(rest) => rest,
        None => return Err(ErrorCode::InsufficientBalance),
    };
    match &mut ctx.subscriber.record {
        Some(subscriber) => {
            subscriber.balance = new_balance;
        },
        None => {},
    }
    Ok(
        Transfer {
            from: ctx.subscriber_vault,
            to: ctx.user_token_account,
            authority: Authority::Vault {
                kind: VaultKind::SubscriberVault,
                seed: ctx.owner,
                bump: ctx.subscriber_vault_bump,
            },
            amount,
        },
    )
}

/// The records and accounts of `deposit`.
#[derive(Clone, Debug, PartialEq, Eq)]
pub struct Deposit {
    pub subscriber: Slot<Subscriber>,
    /// The subscriber's vault, which receives the deposit.
    pub subscriber_vault: Identity,
    /// The owner's token account, the source of the deposit.
    pub user_token_account: Identity,
    /// The identity that signed the deposit.
    pub owner: Identity,
}

/// The first reason for which `deposit` fails, if there is one.
pub open spec fn deposit_error(ctx: Deposit, amount: u64) -> Option<ErrorCode> {
    match ctx.subscriber.record {
        None => Some(ErrorCode::NotFound),
        Some(subscriber) => {
            if subscriber.owner != ctx.owner {
                Some(ErrorCode::Unauthorized)
            } else if amount == 0 {
                Some(ErrorCode::InvalidAmount)
            } else if subscriber.balance + amount > u64::MAX {
                Some(ErrorCode::Overflow)
            } else {
                None
            }
        },
    }
}

/// The transfer that a successful `deposit` orders: `amount`, from the owner
/// into the subscriber's vault, signed by the owner.
pub open spec fn deposit_transfer(ctx: Deposit, amount: u64) -> Transfer {
    Transfer {
        from: ctx.user_token_account,
        to: ctx.subscriber_vault,
        authority: Authority::Owner(ctx.owner),
        amount,
    }
}

/// The records after a successful `deposit`.
pub open spec fn deposit_effect(ctx: Deposit, amount: u64) -> Deposit {
    Deposit {
        subscriber: Slot {
            record: Some(ctx.subscriber.record->Some_0.after_deposit(amount)),
            ..ctx.subscriber
        },
        ..ctx
    }
}

/// Adds `amount` to the subscriber's balance and returns the order to move
/// it into the subscriber's vault.
pub fn deposit(ctx: &mut Deposit, amount: u64) -> (r: Result<Transfer, ErrorCode>)
    ensures
        match deposit_error(*old(ctx), amount) {
            Some(e) => r == Err::<Transfer, ErrorCode>(e) && *final(ctx) == *old(ctx),
            None => r == Ok::<Transfer, ErrorCode>(deposit_transfer(*old(ctx), amount))
                && *final(ctx) == deposit_effect(*old(ctx), amount),
        },
        r is Ok ==> final(ctx).subscriber.record->Some_0.balance == old(
            ctx,
        ).subscriber.record->Some_0.balance + amount,
{
    let (owner, balance) = match &ctx.subscriber.record {
        Some(subscriber) => (subscriber.owner, subscriber.balance),
        None => return Err(ErrorCode::NotFound),
    };
    if owner != ctx.owner {
        return Err(ErrorCode::Unauthorized);
    }
    if amount == 0 {
        return Err(ErrorCode::InvalidAmount);
    }
    let new_balance = match balance.checked_add(amount) {
        Some(sum) => sum,
        None => return Err(ErrorCode::Overflow),
    };
    match &mut ctx.subscriber.record {
        Some(subscriber) => {
            subscriber.balance = new_balance;
        },
        None => {},
    }
    Ok(
        Transfer {
            from: ctx.user_token_account,
            to: ctx.subscriber_vault,
            authority: Authority::Owner(ctx.owner),
            amount,
        },
    )
}

/// The records and accounts of `initialize`.
#[derive(Clone, Debug, PartialEq, Eq)]
pub struct Initialize {
    /// The configuration's slot; vacant until the ledger is initialized.
    pub config: Slot<ProtocolConfig>,
    pub usdc_mint: Identity,
    pub treasury: Identity,
    /// The identity that initializes the ledger and becomes its authority.
    pub authority: Identity,
    pub config_bump: u8,
}

/// The configuration that `initialize` creates.
pub open spec fn initial_config(
    ctx: Initialize,
    price_per_alert: u64,
    treasury_fee_bps: u16,
) -> ProtocolConfig {
    ProtocolConfig {
        authority: ctx.authority,
        usdc_mint: ctx.usdc_mint,
        treasury: ctx.treasury,
        price_per_alert,
        treasury_fee_bps,
        total_subscribers: 0,
        total_alerts_delivered: 0,
        total_revenue: 0,
        bump: ctx.config_bump,
    }
}

/// Creates the protocol configuration, once. The fee is taken as given: a
/// fee above one hundred percent is not refused here, and makes a later
/// charge fail with `Overflow` where the fee comes to more than the price.
pub fn initialize(ctx: &mut Initialize, price_per_alert: u64, treasury_fee_bps: u16) -> (r: Result<
    (),
    ErrorCode,
>)
    ensures
        old(ctx).config.record is Some ==> r == Err::<(), ErrorCode>(
            ErrorCode::AlreadyInitialized,
        ) && *final(ctx) == *old(ctx),
        old(ctx).config.record is None ==> r is Ok && *final(ctx) == (Initialize {
            config: Slot {
                record: Some(initial_config(*old(ctx), price_per_alert, treasury_fee_bps)),
                ..old(ctx).config
            },
            ..*old(ctx)
        }),
{
    if ctx.config.record.is_some() {
        return Err(ErrorCode::AlreadyInitialized);
    }
    ctx.config.record = Some(
        ProtocolConfig {
            authority: ctx.authority,
            usdc_mint: ctx.usdc_mint,
            treasury: ctx.treasury,
            price_per_alert,
            treasury_fee_bps,
            total_subscribers: 0,
            total_alerts_delivered: 0,
            total_revenue: 0,
            bump: ctx.config_bump,
        },
    );
    Ok(())
}

/// The records of `update_channels`.
#[derive(Clone, Debug, PartialEq, Eq)]
pub struct UpdateChannels {
    pub subscriber: Slot<Subscriber>,
    /// The identity that signed the update.
    pub owner: Identity,
}

/// The first reason for which `update_channels` fails, if there is one.
pub open spec fn update_channels_error(ctx: UpdateChannels, channels: Seq<u8>) -> Option<
    ErrorCode,
> {
    match ctx.subscriber.record {
        None => Some(ErrorCode::NotFound),
        Some(subscriber) => {
            if subscriber.owner != ctx.owner {
                Some(ErrorCode::Unauthorized)
            } else if channels.len() > MAX_CHANNEL_BYTES {
                Some(ErrorCode::TooManyChannels)
            } else {
                None
            }
        },
    }
}

/// Replaces the subscriber's channel bitmap.
pub fn update_channels(ctx: &mut UpdateChannels, channels: Vec<u8>) -> (r: Result<(), ErrorCode>)
    ensures
        match update_channels_error(*old(ctx), channels@) {
            Some(e) => r == Err::<(), ErrorCode>(e) && *final(ctx) == *old(ctx),
            None => r is Ok && *final(ctx) == (UpdateChannels {
                subscriber: Slot {
                    record: Some(
                        old(ctx).subscriber.record->Some_0.with_channels(
                            packed_channels(channels@) as u32,
                        ),
                    ),
                    ..old(ctx).subscriber
                },
                ..*old(ctx)
            }),
        },
{
    let owner = match &ctx.subscriber.record {
        Some(subscriber) => subscriber.owner,
        None => return Err(ErrorCode::NotFound),
    };
    if owner != ctx.owner {
        return Err(ErrorCode::Unauthorized);
    }
    if channels.len() > MAX_CHANNEL_BYTES {
        return Err(ErrorCode::TooManyChannels);
    }
    let word = channels_to_u32(channels.as_slice());
    match &mut ctx.subscriber.record {
        Some(subscriber) => {
            subscriber.channels = word;
        },
        None => {},
    }
    Ok(())
}

/// The first reason for which an operation that only the owner of an
/// existing subscriber may invoke fails, if there is one.
pub open spec fn owner_error(subscriber: Slot<Subscriber>, owner: Identity) -> Option<ErrorCode> {
    match subscriber.record {
        None => Some(ErrorCode::NotFound),
        Some(record) => if record.owner != owner {
            Some(ErrorCode::Unauthorized)
        } else {
            None
        },
    }
}

/// The records of `deactivate`.
#[derive(Clone, Debug, PartialEq, Eq)]
pub struct Deactivate {
    pub subscriber: Slot<Subscriber>,
    /// The identity that signed.
    pub owner: Identity,
}

/// Suspends the subscription, whatever its balance; nothing else changes.
pub fn deactivate(ctx: &mut Deactivate) -> (r: Result<(), ErrorCode>)
    ensures
        match owner_error(old(ctx).subscriber, old(ctx).owner) {
            Some(e) => r == Err::<(), ErrorCode>(e) && *final(ctx) == *old(ctx),
            None => r is Ok && *final(ctx) == (Deactivate {
                subscriber: Slot {
                    record: Some(old(ctx).subscriber.record->Some_0.with_active(false)),
                    ..old(ctx).subscriber
                },
                ..*old(ctx)
            }),
        },
{
    let owner = match &ctx.subscriber.record {
        Some(subscriber) => subscriber.owner,
        None => return Err(ErrorCode::NotFound),
    };
    if owner != ctx.owner {
        return Err(ErrorCode::Unauthorized);
    }
    match &mut ctx.subscriber.record {
        Some(subscriber) => {
            subscriber.active = false;
        },
        None => {},
    }
    Ok(())
}

/// The records of `reactivate`.
#[derive(Clone, Debug, PartialEq, Eq)]
pub struct Reactivate {
    pub subscriber: Slot<Subscriber>,
    /// The identity that signed.
    pub owner: Identity,
}

/// Resumes the subscription, whatever its balance; nothing else changes.
pub fn reactivate(ctx: &mut Reactivate) -> (r: Result<(), ErrorCode>)
    ensures
        match owner_error(old(ctx).subscriber, old(ctx).owner) {
            Some(e) => r == Err::<(), ErrorCode>(e) && *final(ctx) == *old(ctx),
            None => r is Ok && *final(ctx) == (Reactivate {
                subscriber: Slot {
                    record: Some(old(ctx).subscriber.record->Some_0.with_active(true)),
                    ..old(ctx).subscriber
                },
                ..*old(ctx)
            }),
        },
{
    let owner = match &ctx.subscriber.record {
        Some(subscriber) => subscriber.owner,
        None => return Err(ErrorCode::NotFound),
    };
    if owner != ctx.owner {
        return Err(ErrorCode::Unauthorized);
    }
    match &mut ctx.subscriber.record {
        Some(subscriber) => {
            subscriber.active = true;
        },
        None => {},
    }
    Ok(())
}

/// A deposit followed by a withdrawal of the same amount, with no charge in
/// between, succeeds and gives the subscriber back exactly as it was.
pub proof fn lemma_deposit_withdraw_round_trip(deposit: Deposit, amount: u64, withdrawal: Withdraw)
    requires
        deposit_error(deposit, amount) is None,
        withdrawal.subscriber == deposit_effect(deposit, amount).subscriber,
        withdrawal.owner == deposit.owner,
    ensures
        withdraw_error(withdrawal, amount) is None,
        withdraw_effect(withdrawal, amount).subscriber == deposit.subscriber,
        withdraw_effect(withdrawal, amount).subscriber.record->Some_0.balance
            == deposit.subscriber.record->Some_0.balance,
{
}

/// One call in a run of `charge_for_alert` calls: the receipt slot that the
/// call is given, and its arguments.
pub struct ChargeRequest {
    pub delivery_receipt: Slot<DeliveryReceipt>,
    pub delivery_receipt_bump: u8,
    pub alert_hash: [u8; 32],
    pub now: i64,
}

/// The context of the call that serves `request` on the configuration and
/// the subscriber of `ctx`.
pub open spec fn charge_call(ctx: ChargeForAlert, request: ChargeRequest) -> ChargeForAlert {
    ChargeForAlert {
        delivery_receipt: request.delivery_receipt,
        delivery_receipt_bump: request.delivery_receipt_bump,
        ..ctx
    }
}

/// The records after a run of `charge_for_alert` calls on one subscriber, one
/// for each request in order; a call that fails changes nothing.
pub open spec fn after_charges(ctx: ChargeForAlert, requests: Seq<ChargeRequest>) -> ChargeForAlert
    decreases requests.len(),
{
    if requests.len() == 0 {
        ctx
    } else {
        let call = charge_call(after_charges(ctx, requests.drop_last()), requests.last());
        if charge_for_alert_error(call) is None {
            charge_for_alert_effect(call, requests.last().alert_hash, requests.last().now)
        } else {
            call
        }
    }
}

/// The sum of what the successful calls of a run have charged.
pub open spec fn charged_in(ctx: ChargeForAlert, requests: Seq<ChargeRequest>) -> nat
    decreases requests.len(),
{
    if requests.len() == 0 {
        0
    } else {
        let call = charge_call(after_charges(ctx, requests.drop_last()), requests.last());
        charged_in(ctx, requests.drop_last()) + if charge_for_alert_error(call) is None {
            call.config.record->Some_0.price_per_alert as nat
        } else {
            0
        }
    }
}

/// Through any run of charges the balance never goes below zero: the charges
/// that succeeded add up to no more than the balance at the start, and the
/// balance at the end is the balance at the start less their sum.
pub proof fn lemma_charges_conserve_balance(ctx: ChargeForAlert, requests: Seq<ChargeRequest>)
    requires
        ctx.subscriber.record is Some,
    ensures
        after_charges(ctx, requests).subscriber.record is Some,
        charged_in(ctx, requests) <= ctx.subscriber.record->Some_0.balance,
        after_charges(ctx, requests).subscriber.record->Some_0.balance
            == ctx.subscriber.record->Some_0.balance - charged_in(ctx, requests),
    decreases requests.len(),
{
    if requests.len() > 0 {
        lemma_charges_conserve_balance(ctx, requests.drop_last());
    }
}

} // verus!
