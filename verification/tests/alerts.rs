use newswire::alerts::{
    initialize, record_delivery, register_alert, verify_alert, Alert, AlertDelivery,
    AlertRegistry, ErrorCode, Initialize, RecordDelivery, RegisterAlert, VerifyAlert,
    MAX_ALERT_ID_LEN, MAX_CHANNEL_LEN, MAX_IMPACT_SCORE, MAX_PRIORITY,
};
use newswire::error::ErrorKind;
use newswire::identity::Identity;
use newswire::slot::Slot;

fn alert_party(n: u8) -> Identity {
    Identity { bytes: [n; 32] }
}

fn alert_registry(total_alerts: u64) -> Slot<AlertRegistry> {
    Slot::occupied(
        alert_party(1),
        AlertRegistry { authority: alert_party(2), total_alerts, bump: 255 },
    )
}

fn registration(total_alerts: u64) -> RegisterAlert {
    RegisterAlert {
        registry: alert_registry(total_alerts),
        alert: Slot::vacant(alert_party(10)),
        publisher: alert_party(3),
        alert_bump: 254,
    }
}

fn register_simple(ctx: &mut RegisterAlert, id: &str) -> Result<(), ErrorCode> {
    register_alert(ctx, String::from(id), String::from("markets"), [0xab; 32], 2, 7, 1_700_000_000)
}

fn stored_alert(delivery_count: u64) -> Alert {
    Alert {
        alert_id: String::from("alert-1"),
        channel: String::from("markets"),
        content_hash: [0xab; 32],
        publisher: alert_party(3),
        timestamp: 1_700_000_000,
        priority: 2,
        impact_score: 7,
        delivery_count,
        bump: 254,
    }
}

#[test]
fn alert_limits_are_the_documented_ones() {
    assert_eq!(MAX_ALERT_ID_LEN, 64);
    assert_eq!(MAX_CHANNEL_LEN, 32);
    assert_eq!(MAX_PRIORITY, 3);
    assert_eq!(MAX_IMPACT_SCORE, 10);
}

#[test]
fn alert_registry_is_created_once() {
    let mut ctx = Initialize {
        registry: Slot::vacant(alert_party(1)),
        authority: alert_party(2),
        registry_bump: 255,
    };
    assert_eq!(initialize(&mut ctx), Ok(()));
    assert_eq!(
        ctx.registry.record,
        Some(AlertRegistry { authority: alert_party(2), total_alerts: 0, bump: 255 })
    );
    assert_eq!(ctx.registry.key, alert_party(1));

    let before = ctx.clone();
    ctx.authority = alert_party(9);
    let attempt = ctx.clone();
    assert_eq!(initialize(&mut ctx), Err(ErrorCode::AlreadyInitialized));
    assert_eq!(ctx, attempt);
    assert_eq!(ctx.registry, before.registry);
}

#[test]
fn register_alert_stamps_and_counts() {
    let mut ctx = registration(41);
    assert_eq!(register_simple(&mut ctx, "alert-1"), Ok(()));
    assert_eq!(ctx.alert.record, Some(stored_alert(0)));
    assert_eq!(ctx.alert.key, alert_party(10));
    assert_eq!(
        ctx.registry.record,
        Some(AlertRegistry { authority: alert_party(2), total_alerts: 42, bump: 255 })
    );
    assert_eq!(ctx.publisher, alert_party(3));
}

#[test]
fn register_alert_twice_with_same_id_is_duplicate() {
    let mut ctx = registration(0);
    assert_eq!(register_simple(&mut ctx, "alert-1"), Ok(()));
    let first = ctx.clone();

    let second = register_alert(
        &mut ctx,
        String::from("alert-1"),
        String::from("other"),
        [0xcd; 32],
        0,
        0,
        1_800_000_000,
    );
    assert_eq!(second, Err(ErrorCode::Duplicate));
    assert_eq!(ctx, first);
    assert_eq!(ctx.alert.record, Some(stored_alert(0)));
    assert_eq!(ctx.registry.record.as_ref().unwrap().total_alerts, 1);
}

#[test]
fn register_alert_needs_the_registry() {
    let mut ctx = registration(0);
    ctx.registry = Slot::vacant(alert_party(1));
    let before = ctx.clone();
    assert_eq!(register_simple(&mut ctx, "alert-1"), Err(ErrorCode::NotFound));
    assert_eq!(ctx, before);
}

#[test]
fn register_alert_bounds_the_id_in_bytes() {
    let mut ctx = registration(0);
    let longest = "a".repeat(64);
    assert_eq!(register_simple(&mut ctx, &longest), Ok(()));

    let mut ctx = registration(0);
    let before = ctx.clone();
    let too_long = "a".repeat(65);
    assert_eq!(register_simple(&mut ctx, &too_long), Err(ErrorCode::AlertIdTooLong));
    assert_eq!(ctx, before);

    // 33 characters, 66 bytes.
    let accented = "\u{e9}".repeat(33);
    assert_eq!(register_simple(&mut ctx, &accented), Err(ErrorCode::AlertIdTooLong));
    // 32 characters, 64 bytes.
    let accented = "\u{e9}".repeat(32);
    assert_eq!(register_simple(&mut ctx, &accented), Ok(()));
}

#[test]
fn register_alert_bounds_the_channel_in_bytes() {
    let mut ctx = registration(0);
    let before = ctx.clone();
    let r = register_alert(
        &mut ctx,
        String::from("alert-1"),
        "c".repeat(33),
        [0; 32],
        0,
        0,
        0,
    );
    assert_eq!(r, Err(ErrorCode::ChannelNameTooLong));
    assert_eq!(ctx, before);
    let r = register_alert(
        &mut ctx,
        String::from("alert-1"),
        "c".repeat(32),
        [0; 32],
        0,
        0,
        0,
    );
    assert_eq!(r, Ok(()));
}

#[test]
fn register_alert_bounds_priority_and_impact() {
    let mut ctx = registration(0);
    let before = ctx.clone();
    let r = register_alert(&mut ctx, String::from("a"), String::from("c"), [0; 32], 4, 0, 0);
    assert_eq!(r, Err(ErrorCode::InvalidPriority));
    let r = register_alert(&mut ctx, String::from("a"), String::from("c"), [0; 32], 3, 11, 0);
    assert_eq!(r, Err(ErrorCode::InvalidImpactScore));
    let r = register_alert(&mut ctx, String::from("a"), String::from("c"), [0; 32], 255, 255, 0);
    assert_eq!(r, Err(ErrorCode::InvalidPriority));
    assert_eq!(ctx, before);
    let r = register_alert(&mut ctx, String::from("a"), String::from("c"), [0; 32], 3, 10, 0);
    assert_eq!(r, Ok(()));
    let alert = ctx.alert.record.unwrap();
    assert_eq!((alert.priority, alert.impact_score), (3, 10));
}

#[test]
fn register_alert_reports_the_first_failing_check() {
    // The identifier is checked before the channel, the channel before the
    // priority.
    let mut ctx = registration(0);
    let r = register_alert(&mut ctx, "a".repeat(65), "c".repeat(33), [0; 32], 9, 99, 0);
    assert_eq!(r, Err(ErrorCode::AlertIdTooLong));
    let r = register_alert(&mut ctx, String::from("a"), "c".repeat(33), [0; 32], 9, 99, 0);
    assert_eq!(r, Err(ErrorCode::ChannelNameTooLong));
    // An occupied slot is reported before any argument.
    ctx.alert = Slot::occupied(alert_party(10), stored_alert(0));
    let r = register_alert(&mut ctx, "a".repeat(65), String::from("c"), [0; 32], 0, 0, 0);
    assert_eq!(r, Err(ErrorCode::Duplicate));
}

#[test]
fn register_alert_does_not_wrap_the_counter() {
    let mut ctx = registration(u64::MAX);
    let before = ctx.clone();
    assert_eq!(register_simple(&mut ctx, "alert-1"), Err(ErrorCode::Overflow));
    assert_eq!(ctx, before);

    let mut ctx = registration(u64::MAX - 1);
    assert_eq!(register_simple(&mut ctx, "alert-1"), Ok(()));
    assert_eq!(ctx.registry.record.unwrap().total_alerts, u64::MAX);
}

fn delivery_of(delivery_count: u64) -> RecordDelivery {
    RecordDelivery {
        alert: Slot::occupied(alert_party(10), stored_alert(delivery_count)),
        delivery: Slot::vacant(alert_party(20)),
        distributor: alert_party(4),
        delivery_bump: 253,
    }
}

#[test]
fn record_delivery_counts_and_logs() {
    let mut ctx = delivery_of(5);
    assert_eq!(record_delivery(&mut ctx, alert_party(30), 1_700_000_100), Ok(()));
    assert_eq!(ctx.alert.record, Some(stored_alert(6)));
    assert_eq!(
        ctx.delivery.record,
        Some(AlertDelivery {
            alert: alert_party(10),
            subscriber: alert_party(30),
            timestamp: 1_700_000_100,
            bump: 253,
        })
    );
    assert_eq!(ctx.delivery.key, alert_party(20));
}

#[test]
fn record_delivery_refuses_an_occupied_slot() {
    let mut ctx = delivery_of(0);
    assert_eq!(record_delivery(&mut ctx, alert_party(30), 100), Ok(()));
    let before = ctx.clone();
    assert_eq!(record_delivery(&mut ctx, alert_party(31), 100), Err(ErrorCode::Duplicate));
    assert_eq!(ctx, before);
}

#[test]
fn record_delivery_needs_the_alert() {
    let mut ctx = delivery_of(0);
    ctx.alert = Slot::vacant(alert_party(10));
    let before = ctx.clone();
    assert_eq!(record_delivery(&mut ctx, alert_party(30), 100), Err(ErrorCode::NotFound));
    assert_eq!(ctx, before);
}

#[test]
fn record_delivery_does_not_wrap_the_counter() {
    let mut ctx = delivery_of(u64::MAX);
    let before = ctx.clone();
    assert_eq!(record_delivery(&mut ctx, alert_party(30), 100), Err(ErrorCode::Overflow));
    assert_eq!(ctx, before);
}

#[test]
fn deliveries_keep_the_fingerprint() {
    let mut registration = registration(0);
    assert_eq!(register_simple(&mut registration, "alert-1"), Ok(()));
    let mut alert = registration.alert;
    for n in 0..5u8 {
        let mut ctx = RecordDelivery {
            alert,
            delivery: Slot::vacant(alert_party(100 + n)),
            distributor: alert_party(4),
            delivery_bump: n,
        };
        assert_eq!(record_delivery(&mut ctx, alert_party(30 + n), 100 + n as i64), Ok(()));
        alert = ctx.alert;
        assert_eq!(alert.record.as_ref().unwrap().delivery_count, n as u64 + 1);
    }
    let check = VerifyAlert { alert };
    assert_eq!(verify_alert(&check, [0xab; 32]), Ok(true));
}

#[test]
fn verify_alert_compares_fingerprints() {
    let ctx = VerifyAlert { alert: Slot::occupied(alert_party(10), stored_alert(0)) };
    assert_eq!(verify_alert(&ctx, [0xab; 32]), Ok(true));
    assert_eq!(verify_alert(&ctx, [0xac; 32]), Ok(false));
    let mut nearly = [0xab; 32];
    nearly[31] = 0;
    assert_eq!(verify_alert(&ctx, nearly), Ok(false));
    assert_eq!(ctx.alert.record, Some(stored_alert(0)));
}

#[test]
fn verify_alert_needs_the_alert() {
    let ctx = VerifyAlert { alert: Slot::vacant(alert_party(10)) };
    assert_eq!(verify_alert(&ctx, [0xab; 32]), Err(ErrorCode::NotFound));
}

#[test]
fn alert_errors_have_their_kinds() {
    assert_eq!(ErrorCode::AlertIdTooLong.kind(), ErrorKind::Validation);
    assert_eq!(ErrorCode::ChannelNameTooLong.kind(), ErrorKind::Validation);
    assert_eq!(ErrorCode::InvalidPriority.kind(), ErrorKind::Validation);
    assert_eq!(ErrorCode::InvalidImpactScore.kind(), ErrorKind::Validation);
    assert_eq!(ErrorCode::UnauthorizedPublisher.kind(), ErrorKind::Authorization);
    assert_eq!(ErrorCode::AlreadyInitialized.kind(), ErrorKind::State);
    assert_eq!(ErrorCode::Duplicate.kind(), ErrorKind::State);
    assert_eq!(ErrorCode::NotFound.kind(), ErrorKind::NotFound);
    assert_eq!(ErrorCode::Overflow.kind(), ErrorKind::Overflow);
}
