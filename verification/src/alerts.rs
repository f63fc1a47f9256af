//! The alert ledger: proof that an alert existed at a time, with the
//! fingerprint of its content, and a log of its deliveries.
//!
//! Every operation works on the records that its context names. It checks
//! first that the records it needs exist and the slot it fills is vacant, and
//! then its own conditions. A failed operation leaves every record as it was.

use crate::error::ErrorKind;
use crate::identity::{digest_eq, Identity};
use crate::slot::Slot;
use crate::text::{byte_len, byte_length};
use vstd::prelude::*;

verus! {

/// The longest alert identifier, in bytes.
pub const MAX_ALERT_ID_LEN: usize = 64;

/// The longest channel name, in bytes.
pub const MAX_CHANNEL_LEN: usize = 32;

/// The highest priority: 0 is low, 1 medium, 2 high, 3 critical.
pub const MAX_PRIORITY: u8 = 3;

/// The highest impact score.
pub const MAX_IMPACT_SCORE: u8 = 10;

/// Why an alert-ledger operation failed.
#[derive(Clone, Copy, Debug, PartialEq, Eq, Structural)]
pub enum ErrorCode {
    /// The identifier is longer than `MAX_ALERT_ID_LEN` bytes.
    AlertIdTooLong,
    /// The channel name is longer than `MAX_CHANNEL_LEN` bytes.
    ChannelNameTooLong,
    /// The priority is above `MAX_PRIORITY`.
    InvalidPriority,
    /// The impact score is above `MAX_IMPACT_SCORE`.
    InvalidImpactScore,
    /// The caller may not publish. No operation of the ledger reports this:
    /// who may publish is decided before the ledger is asked.
    UnauthorizedPublisher,
    /// The registry has been created before.
    AlreadyInitialized,
    /// The slot to fill holds a record already.
    Duplicate,
    /// A record that the operation needs does not exist.
    NotFound,
    /// A counter has no representable successor.
    Overflow,
}

impl ErrorCode {
    /// The failure kind that this code belongs to.
    pub open spec fn kind_of(self) -> ErrorKind {
        match self {
            ErrorCode::AlertIdTooLong
            | ErrorCode::ChannelNameTooLong
            | ErrorCode::InvalidPriority
            | ErrorCode::InvalidImpactScore => ErrorKind::Validation,
            ErrorCode::UnauthorizedPublisher => ErrorKind::Authorization,
            ErrorCode::AlreadyInitialized | ErrorCode::Duplicate => ErrorKind::State,
            ErrorCode::NotFound => ErrorKind::NotFound,
            ErrorCode::Overflow => ErrorKind::Overflow,
        }
    }

    /// The failure kind that this code belongs to.
    pub fn kind(&self) -> (k: ErrorKind)
        ensures
            k == self.kind_of(),
    {
        match self {
            ErrorCode::AlertIdTooLong
            | ErrorCode::ChannelNameTooLong
            | ErrorCode::InvalidPriority
            | ErrorCode::InvalidImpactScore => ErrorKind::Validation,
            ErrorCode::UnauthorizedPublisher => ErrorKind::Authorization,
            ErrorCode::AlreadyInitialized | ErrorCode::Duplicate => ErrorKind::State,
            ErrorCode::NotFound => ErrorKind::NotFound,
            ErrorCode::Overflow => ErrorKind::Overflow,
        }
    }
}

/// The singleton configuration and running total of the alert ledger.
#[derive(Clone, Debug, PartialEq, Eq)]
pub struct AlertRegistry {
    pub authority: Identity,
    pub total_alerts: u64,
    pub bump: u8,
}

/// One published alert.
#[derive(Clone, Debug, PartialEq, Eq)]
pub struct Alert {
    pub alert_id: String,
    pub channel: String,
    /// The fingerprint of the content; it never changes.
    pub content_hash: [u8; 32],
    pub publisher: Identity,
    pub timestamp: i64,
    pub priority: u8,
    pub impact_score: u8,
    /// How often the alert has been delivered; it never goes down.
    pub delivery_count: u64,
    pub bump: u8,
}

impl Alert {
    /// What holds of every alert that the ledger's operations produce.
    pub open spec fn wf(self) -> bool {
        &&& byte_len(self.alert_id@) <= MAX_ALERT_ID_LEN
        &&& byte_len(self.channel@) <= MAX_CHANNEL_LEN
        &&& self.priority <= MAX_PRIORITY
        &&& self.impact_score <= MAX_IMPACT_SCORE
    }

    /// The alert after one more delivery.
    pub open spec fn after_delivery(self) -> Alert {
        Alert { delivery_count: (self.delivery_count + 1) as u64, ..self }
    }
}

/// Whether the alert in `slot`, if there is one, is well formed.
pub open spec fn alert_wf(slot: Slot<Alert>) -> bool {
    slot.record matches Some(alert) ==> alert.wf()
}

/// The record of one delivery of an alert.
#[derive(Clone, Debug, PartialEq, Eq)]
pub struct AlertDelivery {
    /// The address of the alert's record.
    pub alert: Identity,
    pub subscriber: Identity,
    pub timestamp: i64,
    pub bump: u8,
}

/// The records and accounts of `register_alert`.
#[derive(Clone, Debug, PartialEq, Eq)]
pub struct RegisterAlert {
    pub registry: Slot<AlertRegistry>,
    /// The slot that belongs to the alert's identifier; vacant until the
    /// alert is registered.
    pub alert: Slot<Alert>,
    /// The identity that publishes the alert.
    pub publisher: Identity,
    pub alert_bump: u8,
}

/// The first reason for which `register_alert` fails, if there is one.
pub open spec fn register_alert_error(
    ctx: RegisterAlert,
    alert_id: Seq<char>,
    channel: Seq<char>,
    priority: u8,
    impact_score: u8,
) -> Option<ErrorCode> {
    match ctx.registry.record {
        None => Some(ErrorCode::NotFound),
        Some(registry) => {
            if ctx.alert.record is Some {
                Some(ErrorCode::Duplicate)
            } else if byte_len(alert_id) > MAX_ALERT_ID_LEN {
                Some(ErrorCode::AlertIdTooLong)
            } else if byte_len(channel) > MAX_CHANNEL_LEN {
                Some(ErrorCode::ChannelNameTooLong)
            } else if priority > MAX_PRIORITY {
                Some(ErrorCode::InvalidPriority)
            } else if impact_score > MAX_IMPACT_SCORE {
                Some(ErrorCode::InvalidImpactScore)
            } else if registry.total_alerts + 1 > u64::MAX {
                Some(ErrorCode::Overflow)
            } else {
                None
            }
        },
    }
}

/// The records after a successful `register_alert`.
pub open spec fn register_alert_effect(
    ctx: RegisterAlert,
    alert_id: String,
    channel: String,
    content_hash: [u8; 32],
    priority: u8,
    impact_score: u8,
    now: i64,
) -> RegisterAlert {
    let registry = ctx.registry.record->Some_0;
    RegisterAlert {
        registry: Slot {
            record: Some(
                AlertRegistry { total_alerts: (registry.total_alerts + 1) as u64, ..registry },
            ),
            ..ctx.registry
        },
        alert: Slot {
            record: Some(
                Alert {
                    alert_id,
                    channel,
                    content_hash,
                    publisher: ctx.publisher,
                    timestamp: now,
                    priority,
                    impact_score,
                    delivery_count: 0,
                    bump: ctx.alert_bump,
                },
            ),
            ..ctx.alert
        },
        ..ctx
    }
}

/// Registers a new alert, published by `ctx.publisher` at time `now`.
///
/// The alert keeps the fingerprint it is registered with, and starts with no
/// deliveries. An identifier that is registered already is refused, and the
/// alert that holds it stays as it is.
pub fn register_alert(
    ctx: &mut RegisterAlert,
    alert_id: String,
    channel: String,
    content_hash: [u8; 32],
    priority: u8,
    impact_score: u8,
    now: i64,
) -> (r: Result<(), ErrorCode>)
    ensures
        match register_alert_error(*old(ctx), alert_id@, channel@, priority, impact_score) {
            Some(e) => r == Err::<(), ErrorCode>(e) && *final(ctx) == *old(ctx),
            None => r is Ok && *final(ctx) == register_alert_effect(
                *old(ctx),
                alert_id,
                channel,
                content_hash,
                priority,
                impact_score,
                now,
            ),
        },
        r is Ok ==> alert_wf(final(ctx).alert),
{
    let total_alerts = match &ctx.registry.record {
        Some(registry) => registry.total_alerts,
        None => return Err(ErrorCode::NotFound),
    };
    if ctx.alert.record.is_some() {
        return Err(ErrorCode::Duplicate);
    }
    if byte_length(&alert_id) > MAX_ALERT_ID_LEN {
        return Err(ErrorCode::AlertIdTooLong);
    }
    if byte_length(&channel) > MAX_CHANNEL_LEN {
        return Err(ErrorCode::ChannelNameTooLong);
    }
    if priority > MAX_PRIORITY {
        return Err(ErrorCode::InvalidPriority);
    }
    if impact_score > MAX_IMPACT_SCORE {
        return Err(ErrorCode::InvalidImpactScore);
    }
    let new_total = match total_alerts.checked_add(1) {
        Some(sum) => sum,
        None => return Err(ErrorCode::Overflow),
    };
    ctx.alert.record = Some(
        Alert {
            alert_id,
            channel,
            content_hash,
            publisher: ctx.publisher,
            timestamp: now,
            priority,
            impact_score,
            delivery_count: 0,
            bump: ctx.alert_bump,
        },
    );
    match &mut ctx.registry.record {
        Some(registry) => {
            registry.total_alerts = new_total;
        },
        None => {},
    }
    Ok(())
}

/// The records and accounts of `initialize`.
#[derive(Clone, Debug, PartialEq, Eq)]
pub struct Initialize {
    /// The registry's slot; vacant until the ledger is initialized.
    pub registry: Slot<AlertRegistry>,
    /// The identity that initializes the ledger and becomes its authority.
    pub authority: Identity,
    pub registry_bump: u8,
}

/// Creates the alert registry, once.
pub fn initialize(ctx: &mut Initialize) -> (r: Result<(), ErrorCode>)
    ensures
        old(ctx).registry.record is Some ==> r == Err::<(), ErrorCode>(
            ErrorCode::AlreadyInitialized,
        ) && *final(ctx) == *old(ctx),
        old(ctx).registry.record is None ==> r is Ok && *final(ctx) == (Initialize {
            registry: Slot {
                record: Some(
                    AlertRegistry {
                        authority: old(ctx).authority,
                        total_alerts: 0,
                        bump: old(ctx).registry_bump,
                    },
                ),
                ..old(ctx).registry
            },
            ..*old(ctx)
        }),
{
    if ctx.registry.record.is_some() {
        return Err(ErrorCode::AlreadyInitialized);
    }
    ctx.registry.record = Some(
        AlertRegistry { authority: ctx.authority, total_alerts: 0, bump: ctx.registry_bump },
    );
    Ok(())
}

/// The records and accounts of `record_delivery`.
#[derive(Clone, Debug, PartialEq, Eq)]
pub struct RecordDelivery {
    pub alert: Slot<Alert>,
    /// The slot for the record of this delivery; vacant before it.
    pub delivery: Slot<AlertDelivery>,
    /// The identity that invoked the operation.
    pub distributor: Identity,
    pub delivery_bump: u8,
}

/// The first reason for which `record_delivery` fails, if there is one.
pub open spec fn record_delivery_error(ctx: RecordDelivery) -> Option<ErrorCode> {
    match ctx.alert.record {
        None => Some(ErrorCode::NotFound),
        Some(alert) => {
            if ctx.delivery.record is Some {
                Some(ErrorCode::Duplicate)
            } else if alert.delivery_count + 1 > u64::MAX {
                Some(ErrorCode::Overflow)
            } else {
                None
            }
        },
    }
}

/// The records after a successful `record_delivery`.
pub open spec fn record_delivery_effect(
    ctx: RecordDelivery,
    subscriber: Identity,
    now: i64,
) -> RecordDelivery {
    RecordDelivery {
        alert: Slot { record: Some(ctx.alert.record->Some_0.after_delivery()), ..ctx.alert },
        delivery: Slot {
            record: Some(
                AlertDelivery {
                    alert: ctx.alert.key,
                    subscriber,
                    timestamp: now,
                    bump: ctx.delivery_bump,
                },
            ),
            ..ctx.delivery
        },
        ..ctx
    }
}

/// Logs that the alert was delivered to `subscriber` at time `now`.
///
/// The alert's delivery counter goes up by one and a delivery record is
/// written. Whether the subscriber paid is not looked at here.
pub fn record_delivery(ctx: &mut RecordDelivery, subscriber: Identity, now: i64) -> (r: Result<
    (),
    ErrorCode,
>)
    ensures
        match record_delivery_error(*old(ctx)) {
            Some(e) => r == Err::<(), ErrorCode>(e) && *final(ctx) == *old(ctx),
            None => r is Ok && *final(ctx) == record_delivery_effect(*old(ctx), subscriber, now),
        },
        old(ctx).alert.record is Some ==> {
            let before = old(ctx).alert.record->Some_0;
            let after = final(ctx).alert.record->Some_0;
            &&& final(ctx).alert.record is Some
            &&& after.content_hash == before.content_hash
            &&& after.delivery_count >= before.delivery_count
        },
        alert_wf(old(ctx).alert) ==> alert_wf(final(ctx).alert),
{
    let delivery_count = match &ctx.alert.record {
        Some(alert) => alert.delivery_count,
        None => return Err(ErrorCode::NotFound),
    };
    if ctx.delivery.record.is_some() {
        return Err(ErrorCode::Duplicate);
    }
    let new_count = match delivery_count.checked_add(1) {
        Some(sum) => sum,
        None => return Err(ErrorCode::Overflow),
    };
    match &mut ctx.alert.record {
        Some(alert) => {
            alert.delivery_count = new_count;
        },
        None => {},
    }
    ctx.delivery.record = Some(
        AlertDelivery {
            alert: ctx.alert.key,
            subscriber,
            timestamp: now,
            bump: ctx.delivery_bump,
        },
    );
    Ok(())
}

/// The record of `verify_alert`.
#[derive(Clone, Debug, PartialEq, Eq)]
pub struct VerifyAlert {
    pub alert: Slot<Alert>,
}

/// Whether the alert's fingerprint is `expected_hash`. Nothing is changed;
/// the only failure is an alert that does not exist.
pub fn verify_alert(ctx: &VerifyAlert, expected_hash: [u8; 32]) -> (r: Result<bool, ErrorCode>)
    ensures
        ctx.alert.record is None ==> r == Err::<bool, ErrorCode>(ErrorCode::NotFound),
        ctx.alert.record matches Some(alert) ==> r == Ok::<bool, ErrorCode>(
            alert.content_hash == expected_hash,
        ),
{
    match &ctx.alert.record {
        Some(alert) => Ok(digest_eq(&alert.content_hash, &expected_hash)),
        None => Err(ErrorCode::NotFound),
    }
}

/// The fingerprint that an alert is registered with is the one that
/// `verify_alert` confirms, before and after any number of deliveries: a
/// delivery leaves the fingerprint alone.
pub proof fn lemma_fingerprint_is_kept(
    registration: RegisterAlert,
    alert_id: String,
    channel: String,
    content_hash: [u8; 32],
    priority: u8,
    impact_score: u8,
    now: i64,
    delivery: RecordDelivery,
    subscriber: Identity,
    later: i64,
)
    requires
        register_alert_error(registration, alert_id@, channel@, priority, impact_score) is None,
        delivery.alert == register_alert_effect(
            registration,
            alert_id,
            channel,
            content_hash,
            priority,
            impact_score,
            now,
        ).alert,
    ensures
        delivery.alert.record->Some_0.content_hash == content_hash,
        record_delivery_error(delivery) is None ==> record_delivery_effect(
            delivery,
            subscriber,
            later,
        ).alert.record->Some_0.content_hash == content_hash,
{
}

} // verus!
