//! Seed-byte derivation: the salts, the layouts, and that different
//! logical keys never share a seed.

use cipherchat::{derive_seed, Identity, RecordAddress};

fn id(n: u8) -> Identity {
    Identity::new([n; 32])
}

#[test]
fn msgkey_seed_layout() {
    let seed = derive_seed(&RecordAddress::MsgKey { owner: id(1) });
    assert_eq!(seed.len(), 38);
    assert_eq!(&seed[..6], b"msgkey");
    assert_eq!(&seed[6..], &[1u8; 32]);
}

#[test]
fn inbox_seed_layout() {
    let seed = derive_seed(&RecordAddress::Inbox { recipient: id(2), sequence: 0x0102030405060708 });
    assert_eq!(seed.len(), 45);
    assert_eq!(&seed[..5], b"inbox");
    assert_eq!(&seed[5..37], &[2u8; 32]);
    assert_eq!(&seed[37..], &[0x08, 0x07, 0x06, 0x05, 0x04, 0x03, 0x02, 0x01]);
}

#[test]
fn salts_keep_record_kinds_apart() {
    let key_seed = derive_seed(&RecordAddress::MsgKey { owner: id(1) });
    let inbox_seed = derive_seed(&RecordAddress::Inbox { recipient: id(1), sequence: 0 });
    assert_ne!(key_seed, inbox_seed);
}

#[test]
fn distinct_owners_distinct_seeds() {
    let s1 = derive_seed(&RecordAddress::MsgKey { owner: id(1) });
    let s2 = derive_seed(&RecordAddress::MsgKey { owner: id(2) });
    assert_ne!(s1, s2);
}

#[test]
fn distinct_sequences_distinct_seeds() {
    let s1 = derive_seed(&RecordAddress::Inbox { recipient: id(1), sequence: 5 });
    let s2 = derive_seed(&RecordAddress::Inbox { recipient: id(1), sequence: 6 });
    assert_ne!(s1, s2);
}

#[test]
fn identity_helpers() {
    let zero = Identity::new([0; 32]);
    assert!(zero.is_default());
    assert!(!id(1).is_default());
    assert!(id(1).same_as(&id(1)));
    assert!(!id(1).same_as(&id(2)));
    let d = Identity::default_id();
    assert!(d.is_default());
    assert_eq!(d.bytes, [0; 32]);
}
