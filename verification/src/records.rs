//! The two durable record kinds. External readers parse the stored fields
//! directly, so the layouts are exactly these fields, in this order.

use vstd::prelude::*;
use crate::identity::{Identity, is_default_id};

verus! {

/// A user's encryption-key record: one per identity, located at the
/// address derived from the owner. Never deleted; revocation only flips
/// a flag and is reversible by re-registration.
#[derive(Clone, Copy, Debug)]
pub struct UserMessagingKey {
    /// The identity this record is bound to. The all-zero sentinel means
    /// the record slot has never been claimed.
    pub owner: Identity,
    /// X25519 public key material for message encryption.
    pub msg_pubkey: [u8; 32],
    /// Whether this key has been revoked.
    pub is_revoked: bool,
    /// When the record was first created (host wall clock, seconds).
    pub created_at: i64,
    /// When the record was last updated (host wall clock, seconds).
    pub updated_at: i64,
}

impl UserMessagingKey {
    /// A key record slot that has never been claimed: every field at its
    /// zero value, the owner still the sentinel.
    pub fn unclaimed() -> (r: UserMessagingKey)
        ensures
            is_default_id(r.owner@),
            r.msg_pubkey@ == Seq::new(32, |k: int| 0u8),
            !r.is_revoked,
            r.created_at == 0,
            r.updated_at == 0,
    {
        let r = UserMessagingKey {
            owner: Identity::default_id(),
            msg_pubkey: [0u8; 32],
            is_revoked: false,
            created_at: 0,
            updated_at: 0,
        };
        proof {
            assert(r.msg_pubkey@ =~= Seq::new(32, |k: int| 0u8));
        }
        r
    }
}

/// A message-pointer record: one per (recipient, sequence) pair, located
/// at the address derived from the two. Carries no content, only a
/// locator for content held elsewhere. Created at most once and never
/// deleted; the recipient may flip `is_read`.
#[derive(Debug)]
pub struct MessageMetadata {
    /// The identity that posted the message.
    pub sender: Identity,
    /// The identity the message is addressed to.
    pub recipient: Identity,
    /// Locator of the externally stored encrypted content, at most 100
    /// characters.
    pub cid: String,
    /// Ephemeral X25519 public key for this one message.
    pub ephemeral_pub: [u8; 32],
    /// When the message was posted (host wall clock, seconds).
    pub timestamp: i64,
    /// Advisory time-to-live in seconds, in (0, 2_592_000]. Never
    /// enforced or acted upon by this core.
    pub ttl: i64,
    /// Sequence number chosen by the sender, scoped per recipient.
    pub sequence: u64,
    /// Whether the recipient has marked the message read.
    pub is_read: bool,
}

impl MessageMetadata {
    /// A field-for-field copy of the record.
    pub fn duplicate(&self) -> (r: MessageMetadata)
        ensures
            r == *self,
    {
        MessageMetadata {
            sender: self.sender,
            recipient: self.recipient,
            cid: self.cid.clone(),
            ephemeral_pub: self.ephemeral_pub,
            timestamp: self.timestamp,
            ttl: self.ttl,
            sequence: self.sequence,
            is_read: self.is_read,
        }
    }
}

} // verus!
