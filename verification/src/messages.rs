//! Message-record operations: posting a message pointer and marking one
//! read. Posting validates the request against the recipient's current
//! key record; marking read checks only that the signer is the stored
//! recipient.

use vstd::prelude::*;
use vstd::string::StrSliceExecFns;
use crate::errors::CipherChatError;
use crate::events::MessagePosted;
use crate::identity::Identity;
use crate::records::{MessageMetadata, UserMessagingKey};

verus! {

/// Longest locator accepted, in characters.
pub const MAX_CID_LEN: usize = 100;

/// Largest advisory time-to-live accepted, in seconds (30 days).
pub const MAX_TTL: i64 = 2_592_000;

/// What posting produces: on success the freshly created record and its
/// event, otherwise the first violated precondition, checked in this
/// order: locator length, time-to-live range, recipient binding,
/// recipient key revocation.
pub open spec fn spec_post_message(
    recipient_key: UserMessagingKey,
    sender: Identity,
    recipient: Identity,
    cid: String,
    ephemeral_pub: [u8; 32],
    ttl: i64,
    sequence: u64,
    now: i64,
) -> Result<(MessageMetadata, MessagePosted), CipherChatError> {
    if cid@.len() > MAX_CID_LEN {
        Err(CipherChatError::CidTooLong)
    } else if !(0 < ttl <= MAX_TTL) {
        Err(CipherChatError::InvalidTTL)
    } else if recipient_key.owner@ != recipient@ {
        Err(CipherChatError::InvalidRecipient)
    } else if recipient_key.is_revoked {
        Err(CipherChatError::RecipientKeyRevoked)
    } else {
        let m = MessageMetadata {
            sender,
            recipient,
            cid,
            ephemeral_pub,
            timestamp: now,
            ttl,
            sequence,
            is_read: false,
        };
        let ev = MessagePosted { sender, recipient, cid, sequence, timestamp: now };
        Ok((m, ev))
    }
}

/// Build the message record for a post request, after validating it
/// against the recipient's current key record. `sender` is the verified
/// signer; `recipient_key` is the key record loaded from the address
/// derived from `recipient`; `now` is the host wall clock. The caller
/// owns the creation-only guarantee: the returned record must only be
/// stored at a still-uninitialized address.
pub fn post_message(
    recipient_key: &UserMessagingKey,
    sender: Identity,
    recipient: Identity,
    cid: String,
    ephemeral_pub: [u8; 32],
    ttl: i64,
    sequence: u64,
    now: i64,
) -> (r: Result<(MessageMetadata, MessagePosted), CipherChatError>)
    ensures
        r == spec_post_message(*recipient_key, sender, recipient, cid, ephemeral_pub, ttl, sequence, now),
{
    if cid.as_str().unicode_len() > MAX_CID_LEN {
        return Err(CipherChatError::CidTooLong);
    }
    if !(0 < ttl && ttl <= MAX_TTL) {
        return Err(CipherChatError::InvalidTTL);
    }
    if !recipient_key.owner.same_as(&recipient) {
        return Err(CipherChatError::InvalidRecipient);
    }
    if recipient_key.is_revoked {
        return Err(CipherChatError::RecipientKeyRevoked);
    }
    let ev_cid = cid.clone();
    let m = MessageMetadata {
        sender,
        recipient,
        cid,
        ephemeral_pub,
        timestamp: now,
        ttl,
        sequence,
        is_read: false,
    };
    let ev = MessagePosted { sender, recipient, cid: ev_cid, sequence, timestamp: now };
    Ok((m, ev))
}

/// What marking a message read does: the record after the call and the
/// result. Only the stored recipient may mark; the flip is idempotent.
pub open spec fn spec_mark_message_read(
    msg: MessageMetadata,
    signer: Identity,
) -> (MessageMetadata, Result<(), CipherChatError>) {
    if msg.recipient@ != signer@ {
        (msg, Err(CipherChatError::UnauthorizedMessageAccess))
    } else {
        let msg2 = MessageMetadata {
            sender: msg.sender,
            recipient: msg.recipient,
            cid: msg.cid,
            ephemeral_pub: msg.ephemeral_pub,
            timestamp: msg.timestamp,
            ttl: msg.ttl,
            sequence: msg.sequence,
            is_read: true,
        };
        (msg2, Ok(()))
    }
}

/// Mark the message `message` read. `signer` is the verified signer and
/// must be the stored recipient. Succeeds again on an already-read
/// message, leaving it unchanged. No event is emitted for this
/// operation, unlike the three other mutations.
pub fn mark_message_read(
    message: &mut MessageMetadata,
    signer: Identity,
) -> (r: Result<(), CipherChatError>)
    ensures
        (*final(message), r) == spec_mark_message_read(*old(message), signer),
{
    if !message.recipient.same_as(&signer) {
        return Err(CipherChatError::UnauthorizedMessageAccess);
    }
    message.is_read = true;
    Ok(())
}

/// Posting to a recipient whose key record is revoked always fails with
/// `RecipientKeyRevoked`, however valid the locator and time-to-live.
pub proof fn law_post_revoked_recipient(
    recipient_key: UserMessagingKey,
    sender: Identity,
    recipient: Identity,
    cid: String,
    ephemeral_pub: [u8; 32],
    ttl: i64,
    sequence: u64,
    now: i64,
)
    requires
        cid@.len() <= MAX_CID_LEN,
        0 < ttl <= MAX_TTL,
        recipient_key.owner@ == recipient@,
        recipient_key.is_revoked,
    ensures
        spec_post_message(recipient_key, sender, recipient, cid, ephemeral_pub, ttl, sequence, now)
            == Err::<(MessageMetadata, MessagePosted), CipherChatError>(CipherChatError::RecipientKeyRevoked),
{
}

/// Marking read is idempotent: a second call by the same recipient also
/// succeeds and leaves the record exactly as the first call left it.
pub proof fn law_mark_read_idempotent(msg: MessageMetadata, signer: Identity)
    requires
        msg.recipient@ == signer@,
    ensures
        ({
            let (m1, r1) = spec_mark_message_read(msg, signer);
            let (m2, r2) = spec_mark_message_read(m1, signer);
            &&& r1 is Ok
            &&& m1.is_read
            &&& r2 is Ok
            &&& m2 == m1
        }),
{
}

} // verus!
