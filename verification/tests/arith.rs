use newswire::arith::{checked_bps_share, BPS_DENOMINATOR};
use newswire::custody::{Authority, VaultKind};
use newswire::identity::{digest_eq, Identity};
use newswire::slot::Slot;
use newswire::text::byte_length;

#[test]
fn share_is_rounded_down() {
    assert_eq!(checked_bps_share(7, 5000), Some(3));
    assert_eq!(checked_bps_share(10, 3000), Some(3));
    assert_eq!(checked_bps_share(9999, 1), Some(0));
    assert_eq!(checked_bps_share(10000, 1), Some(1));
    assert_eq!(checked_bps_share(19999, 1), Some(1));
}

#[test]
fn share_of_nothing_is_nothing() {
    assert_eq!(checked_bps_share(0, 0), Some(0));
    assert_eq!(checked_bps_share(0, u16::MAX), Some(0));
    assert_eq!(checked_bps_share(u64::MAX, 0), Some(0));
}

#[test]
fn full_share_is_the_amount() {
    assert_eq!(BPS_DENOMINATOR, 10000);
    assert_eq!(checked_bps_share(1, 10000), Some(1));
    assert_eq!(checked_bps_share(u64::MAX, 10000), Some(u64::MAX));
}

#[test]
fn share_needs_the_wide_intermediate() {
    // u64::MAX * 5000 does not fit in 64 bits; the share does.
    assert_eq!(checked_bps_share(u64::MAX, 5000), Some(u64::MAX / 2));
    assert_eq!(checked_bps_share(u64::MAX, 9999), Some(18444899399302180659));
}

#[test]
fn share_that_does_not_fit_is_refused() {
    assert_eq!(checked_bps_share(u64::MAX, 10001), None);
    assert_eq!(checked_bps_share(u64::MAX, u16::MAX), None);
    // The largest amount whose share at the highest rate still fits.
    let edge: u64 = ((u64::MAX as u128 * 10000 + 9999) / 65535) as u64;
    assert_eq!(checked_bps_share(edge, u16::MAX), Some(u64::MAX));
    assert_eq!(checked_bps_share(edge + 1, u16::MAX), None);
}

#[test]
fn share_above_one_hundred_percent_exceeds_the_amount() {
    assert_eq!(checked_bps_share(1, 20000), Some(2));
    assert_eq!(checked_bps_share(100, 12500), Some(125));
}

#[test]
fn share_never_exceeds_amount_up_to_one_hundred_percent() {
    let amounts = [0u64, 1, 2, 3, 7, 9999, 10000, 10001, 123456789, u64::MAX - 1, u64::MAX];
    let rates = [0u16, 1, 2, 3000, 4999, 5000, 5001, 9999, 10000];
    for amount in amounts {
        for bps in rates {
            let share = checked_bps_share(amount, bps).unwrap();
            assert!(share <= amount);
            assert_eq!(share as u128, amount as u128 * bps as u128 / 10000);
        }
    }
}

#[test]
fn complementary_shares_lose_at_most_one_unit() {
    for amount in [0u64, 1, 7, 10, 9999, 10000, 12345, u64::MAX] {
        for fee in [0u16, 1, 3000, 5000, 9999, 10000] {
            let first = checked_bps_share(amount, fee).unwrap();
            let second = checked_bps_share(amount, 10000 - fee).unwrap();
            let whole = (amount as u128 * fee as u128) % 10000 == 0;
            if whole {
                assert_eq!(first as u128 + second as u128, amount as u128);
            } else {
                assert_eq!(first as u128 + second as u128 + 1, amount as u128);
            }
        }
    }
}

#[test]
fn digests_compare_byte_by_byte() {
    let a = [7u8; 32];
    let mut b = [7u8; 32];
    assert!(digest_eq(&a, &b));
    b[31] = 8;
    assert!(!digest_eq(&a, &b));
    b[31] = 7;
    b[0] = 0;
    assert!(!digest_eq(&a, &b));
}

#[test]
fn identities_are_equal_when_their_bytes_are() {
    let a = Identity { bytes: [1; 32] };
    let b = Identity { bytes: [1; 32] };
    let mut bytes = [1u8; 32];
    bytes[16] = 2;
    let c = Identity { bytes };
    assert!(a == b);
    assert!(a != c);
    assert_eq!(a, b);
    assert_ne!(a, c);
}

#[test]
fn text_length_counts_bytes() {
    assert_eq!(byte_length(&String::new()), 0);
    assert_eq!(byte_length(&String::from("alert")), 5);
    assert_eq!(byte_length(&String::from("\u{e9}")), 2);
    assert_eq!(byte_length(&String::from("\u{65e5}\u{672c}\u{8a9e}")), 9);
    assert_eq!(byte_length(&String::from("\u{1f6a8}")), 4);
}

#[test]
fn slots_are_vacant_or_occupied() {
    let key = Identity { bytes: [9; 32] };
    let empty: Slot<u64> = Slot::vacant(key);
    assert_eq!(empty.key, key);
    assert_eq!(empty.record, None);
    assert!(!empty.is_occupied());
    let full = Slot::occupied(key, 5u64);
    assert_eq!(full.key, key);
    assert_eq!(full.record, Some(5));
    assert!(full.is_occupied());
}

#[test]
fn vault_labels_are_their_names() {
    assert_eq!(VaultKind::RevenuePool.label_bytes(), b"revenue_pool".to_vec());
    assert_eq!(VaultKind::StakeVault.label_bytes(), b"stake_vault".to_vec());
    assert_eq!(VaultKind::SubscriberVault.label_bytes(), b"subscriber_vault".to_vec());
}

#[test]
fn owner_signs_without_seeds() {
    let owner = Identity { bytes: [3; 32] };
    assert!(Authority::Owner(owner).signer_seeds().is_empty());
}

#[test]
fn vault_seeds_are_label_key_and_bump() {
    let mut bytes = [0u8; 32];
    for i in 0..32 {
        bytes[i] = i as u8;
    }
    let seed = Identity { bytes };
    let authority = Authority::Vault { kind: VaultKind::StakeVault, seed, bump: 254 };
    let seeds = authority.signer_seeds();
    assert_eq!(seeds.len(), 3);
    assert_eq!(seeds[0], b"stake_vault".to_vec());
    assert_eq!(seeds[1], bytes.to_vec());
    assert_eq!(seeds[2], vec![254u8]);

    let pool = Authority::Vault { kind: VaultKind::RevenuePool, seed, bump: 0 };
    assert_eq!(pool.signer_seeds()[0], b"revenue_pool".to_vec());
    let vault = Authority::Vault { kind: VaultKind::SubscriberVault, seed, bump: 1 };
    assert_eq!(vault.signer_seeds()[0], b"subscriber_vault".to_vec());
    assert_eq!(vault.signer_seeds()[2], vec![1u8]);
}
