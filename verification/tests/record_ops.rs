//! Record-level operations: registration, revocation, posting and read
//! receipts applied to individual records.

use cipherchat::{
    mark_message_read, post_message, register_messaging_key, revoke_key, CipherChatError,
    Identity, MessageMetadata, UserMessagingKey,
};

fn id(n: u8) -> Identity {
    Identity::new([n; 32])
}

fn claimed_key(owner: u8, key: u8, at: i64) -> UserMessagingKey {
    let mut rec = UserMessagingKey::unclaimed();
    let r = register_messaging_key(&mut rec, id(owner), [key; 32], at);
    assert!(r.is_ok());
    rec
}

fn message(sender: u8, recipient: u8, sequence: u64, at: i64) -> MessageMetadata {
    let key_rec = claimed_key(recipient, 9, 0);
    let r = post_message(
        &key_rec,
        id(sender),
        id(recipient),
        String::from("cid123"),
        [4; 32],
        3600,
        sequence,
        at,
    );
    r.unwrap().0
}

#[test]
fn register_first_time_sets_all_fields() {
    let mut rec = UserMessagingKey::unclaimed();
    let r = register_messaging_key(&mut rec, id(1), [7; 32], 1000);
    let ev = r.unwrap();
    assert_eq!(rec.owner.bytes, [1; 32]);
    assert_eq!(rec.msg_pubkey, [7; 32]);
    assert!(!rec.is_revoked);
    assert_eq!(rec.created_at, 1000);
    assert_eq!(rec.updated_at, 1000);
    assert_eq!(ev.owner.bytes, [1; 32]);
    assert_eq!(ev.msg_pubkey, [7; 32]);
    assert_eq!(ev.timestamp, 1000);
}

#[test]
fn register_update_keeps_created_at() {
    let mut rec = claimed_key(1, 7, 1000);
    let r = register_messaging_key(&mut rec, id(1), [8; 32], 2000);
    let ev = r.unwrap();
    assert_eq!(rec.msg_pubkey, [8; 32]);
    assert_eq!(rec.created_at, 1000);
    assert_eq!(rec.updated_at, 2000);
    assert_eq!(ev.timestamp, 2000);
}

#[test]
fn locator_length_counts_characters_not_bytes() {
    let key_rec = claimed_key(2, 9, 0);
    // 100 two-byte characters: 200 bytes, but within the 100-character cap
    let wide = "\u{e9}".repeat(100);
    assert_eq!(wide.len(), 200);
    let r = post_message(&key_rec, id(1), id(2), wide, [4; 32], 3600, 5, 2000);
    assert!(r.is_ok());
    let wide_long = "\u{e9}".repeat(101);
    let r = post_message(&key_rec, id(1), id(2), wide_long, [4; 32], 3600, 5, 2000);
    assert_eq!(r.unwrap_err(), CipherChatError::CidTooLong);
}

#[test]
fn register_by_other_identity_fails() {
    let mut rec = claimed_key(1, 7, 1000);
    let before = rec;
    let r = register_messaging_key(&mut rec, id(2), [8; 32], 2000);
    assert_eq!(r.unwrap_err(), CipherChatError::UnauthorizedKeyUpdate);
    assert_eq!(rec.owner.bytes, before.owner.bytes);
    assert_eq!(rec.msg_pubkey, before.msg_pubkey);
    assert_eq!(rec.updated_at, before.updated_at);
}

#[test]
fn register_by_other_identity_fails_even_when_revoked() {
    let mut rec = claimed_key(1, 7, 1000);
    revoke_key(&mut rec, id(1), 1500).unwrap();
    let r = register_messaging_key(&mut rec, id(2), [8; 32], 2000);
    assert_eq!(r.unwrap_err(), CipherChatError::UnauthorizedKeyUpdate);
    assert!(rec.is_revoked);
}

#[test]
fn revoke_flips_flag_and_updates_timestamp() {
    let mut rec = claimed_key(1, 7, 1000);
    let ev = revoke_key(&mut rec, id(1), 1500).unwrap();
    assert!(rec.is_revoked);
    assert_eq!(rec.created_at, 1000);
    assert_eq!(rec.updated_at, 1500);
    assert_eq!(rec.msg_pubkey, [7; 32]);
    assert_eq!(ev.owner.bytes, [1; 32]);
    assert_eq!(ev.timestamp, 1500);
}

#[test]
fn revoke_by_other_identity_fails() {
    let mut rec = claimed_key(1, 7, 1000);
    let r = revoke_key(&mut rec, id(2), 1500);
    assert_eq!(r.unwrap_err(), CipherChatError::UnauthorizedKeyRevoke);
    assert!(!rec.is_revoked);
}

#[test]
fn revoke_twice_fails_second_time() {
    let mut rec = claimed_key(1, 7, 1000);
    revoke_key(&mut rec, id(1), 1500).unwrap();
    let r = revoke_key(&mut rec, id(1), 1600);
    assert_eq!(r.unwrap_err(), CipherChatError::KeyAlreadyRevoked);
    assert_eq!(rec.updated_at, 1500);
}

#[test]
fn reregistration_clears_revocation() {
    let mut rec = claimed_key(1, 7, 1000);
    revoke_key(&mut rec, id(1), 1500).unwrap();
    let r = register_messaging_key(&mut rec, id(1), [8; 32], 2000);
    assert!(r.is_ok());
    assert!(!rec.is_revoked);
    assert_eq!(rec.msg_pubkey, [8; 32]);
    assert_eq!(rec.created_at, 1000);
    assert_eq!(rec.updated_at, 2000);
}

#[test]
fn post_fills_every_field() {
    let key_rec = claimed_key(2, 9, 0);
    let r = post_message(
        &key_rec,
        id(1),
        id(2),
        String::from("cid123"),
        [4; 32],
        3600,
        5,
        2000,
    );
    let (m, ev) = r.unwrap();
    assert_eq!(m.sender.bytes, [1; 32]);
    assert_eq!(m.recipient.bytes, [2; 32]);
    assert_eq!(m.cid, "cid123");
    assert_eq!(m.ephemeral_pub, [4; 32]);
    assert_eq!(m.timestamp, 2000);
    assert_eq!(m.ttl, 3600);
    assert_eq!(m.sequence, 5);
    assert!(!m.is_read);
    assert_eq!(ev.sender.bytes, [1; 32]);
    assert_eq!(ev.recipient.bytes, [2; 32]);
    assert_eq!(ev.cid, "cid123");
    assert_eq!(ev.sequence, 5);
    assert_eq!(ev.timestamp, 2000);
}

#[test]
fn post_cid_length_boundary() {
    let key_rec = claimed_key(2, 9, 0);
    let long = "a".repeat(101);
    let r = post_message(&key_rec, id(1), id(2), long, [4; 32], 3600, 5, 2000);
    assert_eq!(r.unwrap_err(), CipherChatError::CidTooLong);
    let exact = "a".repeat(100);
    let r = post_message(&key_rec, id(1), id(2), exact, [4; 32], 3600, 5, 2000);
    assert!(r.is_ok());
}

#[test]
fn post_ttl_boundaries() {
    let key_rec = claimed_key(2, 9, 0);
    for (ttl, ok) in [(0i64, false), (2_592_001, false), (-5, false), (1, true), (2_592_000, true)] {
        let r = post_message(
            &key_rec,
            id(1),
            id(2),
            String::from("cid"),
            [4; 32],
            ttl,
            5,
            2000,
        );
        if ok {
            assert!(r.is_ok(), "ttl {} should pass", ttl);
        } else {
            assert_eq!(r.unwrap_err(), CipherChatError::InvalidTTL, "ttl {}", ttl);
        }
    }
}

#[test]
fn post_to_unbound_key_record_fails() {
    let key_rec = claimed_key(3, 9, 0);
    let r = post_message(&key_rec, id(1), id(2), String::from("cid"), [4; 32], 3600, 5, 2000);
    assert_eq!(r.unwrap_err(), CipherChatError::InvalidRecipient);
}

#[test]
fn post_to_revoked_key_fails() {
    let mut key_rec = claimed_key(2, 9, 0);
    revoke_key(&mut key_rec, id(2), 100).unwrap();
    let r = post_message(&key_rec, id(1), id(2), String::from("cid"), [4; 32], 3600, 5, 2000);
    assert_eq!(r.unwrap_err(), CipherChatError::RecipientKeyRevoked);
}

#[test]
fn cid_checked_before_ttl_and_recipient() {
    let mut key_rec = claimed_key(3, 9, 0);
    revoke_key(&mut key_rec, id(3), 100).unwrap();
    let long = "a".repeat(101);
    let r = post_message(&key_rec, id(1), id(2), long, [4; 32], 0, 5, 2000);
    assert_eq!(r.unwrap_err(), CipherChatError::CidTooLong);
    let r = post_message(&key_rec, id(1), id(2), String::from("cid"), [4; 32], 0, 5, 2000);
    assert_eq!(r.unwrap_err(), CipherChatError::InvalidTTL);
    let r = post_message(&key_rec, id(1), id(2), String::from("cid"), [4; 32], 1, 5, 2000);
    assert_eq!(r.unwrap_err(), CipherChatError::InvalidRecipient);
}

#[test]
fn mark_read_by_recipient_succeeds_and_is_idempotent() {
    let mut m = message(1, 2, 5, 2000);
    assert!(!m.is_read);
    mark_message_read(&mut m, id(2)).unwrap();
    assert!(m.is_read);
    mark_message_read(&mut m, id(2)).unwrap();
    assert!(m.is_read);
}

#[test]
fn mark_read_by_other_identity_fails() {
    let mut m = message(1, 2, 5, 2000);
    let r = mark_message_read(&mut m, id(1));
    assert_eq!(r.unwrap_err(), CipherChatError::UnauthorizedMessageAccess);
    assert!(!m.is_read);
}
