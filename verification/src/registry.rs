//! Key-record operations: registering (or re-registering) an encryption
//! key and revoking one. Each operation first checks its preconditions
//! against the loaded record and the verified signer; on any failure the
//! record is left untouched.

use vstd::prelude::*;
use crate::errors::CipherChatError;
use crate::events::{MessagingKeyRegistered, MessagingKeyRevoked};
use crate::identity::{Identity, is_default_id};
use crate::records::UserMessagingKey;

verus! {

/// Whether `authority` may write the key record `rec`: the slot is still
/// unclaimed, or it is already bound to `authority`.
pub open spec fn register_allowed(rec: UserMessagingKey, authority: Identity) -> bool {
    is_default_id(rec.owner@) || rec.owner@ == authority@
}

/// What registering does to a key record: the record after the call and
/// the result. On success the key material is replaced, any earlier
/// revocation is cleared, and `created_at` is set only on first creation.
pub open spec fn spec_register_messaging_key(
    rec: UserMessagingKey,
    authority: Identity,
    msg_pubkey: [u8; 32],
    now: i64,
) -> (UserMessagingKey, Result<MessagingKeyRegistered, CipherChatError>) {
    if !register_allowed(rec, authority) {
        (rec, Err(CipherChatError::UnauthorizedKeyUpdate))
    } else {
        let rec2 = UserMessagingKey {
            owner: authority,
            msg_pubkey,
            is_revoked: false,
            created_at: if is_default_id(rec.owner@) { now } else { rec.created_at },
            updated_at: now,
        };
        let ev = MessagingKeyRegistered { owner: authority, msg_pubkey, timestamp: now };
        (rec2, Ok(ev))
    }
}

/// Register an encryption key for `authority`, or update the one already
/// registered. `user_key` is the record loaded from the address derived
/// from the owner identity; `authority` is the verified signer; `now` is
/// the host wall clock.
pub fn register_messaging_key(
    user_key: &mut UserMessagingKey,
    authority: Identity,
    msg_pubkey: [u8; 32],
    now: i64,
) -> (r: Result<MessagingKeyRegistered, CipherChatError>)
    ensures
        (*final(user_key), r) == spec_register_messaging_key(*old(user_key), authority, msg_pubkey, now),
{
    let unclaimed = user_key.owner.is_default();
    if !unclaimed && !user_key.owner.same_as(&authority) {
        return Err(CipherChatError::UnauthorizedKeyUpdate);
    }
    let created_at = if unclaimed { now } else { user_key.created_at };
    *user_key = UserMessagingKey {
        owner: authority,
        msg_pubkey,
        is_revoked: false,
        created_at,
        updated_at: now,
    };
    Ok(MessagingKeyRegistered { owner: authority, msg_pubkey, timestamp: now })
}

/// What revoking does to a key record: the record after the call and the
/// result. On success only the revocation flag and `updated_at` change.
pub open spec fn spec_revoke_key(
    rec: UserMessagingKey,
    authority: Identity,
    now: i64,
) -> (UserMessagingKey, Result<MessagingKeyRevoked, CipherChatError>) {
    if rec.owner@ != authority@ {
        (rec, Err(CipherChatError::UnauthorizedKeyRevoke))
    } else if rec.is_revoked {
        (rec, Err(CipherChatError::KeyAlreadyRevoked))
    } else {
        let rec2 = UserMessagingKey {
            owner: rec.owner,
            msg_pubkey: rec.msg_pubkey,
            is_revoked: true,
            created_at: rec.created_at,
            updated_at: now,
        };
        (rec2, Ok(MessagingKeyRevoked { owner: authority, timestamp: now }))
    }
}

/// Revoke the key record `user_key`. `authority` is the verified signer
/// and must be the record's owner; a record may be revoked only once
/// (until a re-registration clears the flag).
pub fn revoke_key(
    user_key: &mut UserMessagingKey,
    authority: Identity,
    now: i64,
) -> (r: Result<MessagingKeyRevoked, CipherChatError>)
    ensures
        (*final(user_key), r) == spec_revoke_key(*old(user_key), authority, now),
{
    if !user_key.owner.same_as(&authority) {
        return Err(CipherChatError::UnauthorizedKeyRevoke);
    }
    if user_key.is_revoked {
        return Err(CipherChatError::KeyAlreadyRevoked);
    }
    user_key.is_revoked = true;
    user_key.updated_at = now;
    Ok(MessagingKeyRevoked { owner: authority, timestamp: now })
}

/// Re-registering a claimed record under a different identity than its
/// owner always fails with `UnauthorizedKeyUpdate` and changes nothing,
/// whatever the revocation state of the record.
pub proof fn law_register_wrong_identity(
    rec: UserMessagingKey,
    authority: Identity,
    msg_pubkey: [u8; 32],
    now: i64,
)
    requires
        !is_default_id(rec.owner@),
        rec.owner@ != authority@,
    ensures
        spec_register_messaging_key(rec, authority, msg_pubkey, now)
            == (rec, Err::<MessagingKeyRegistered, CipherChatError>(CipherChatError::UnauthorizedKeyUpdate)),
{
}

/// Revoking twice in a row fails the second time with `KeyAlreadyRevoked`
/// and leaves the record as the first revocation left it.
pub proof fn law_revoke_twice(rec: UserMessagingKey, authority: Identity, t1: i64, t2: i64)
    requires
        spec_revoke_key(rec, authority, t1).1 is Ok,
    ensures
        spec_revoke_key(spec_revoke_key(rec, authority, t1).0, authority, t2)
            == (spec_revoke_key(rec, authority, t1).0,
                Err::<MessagingKeyRevoked, CipherChatError>(CipherChatError::KeyAlreadyRevoked)),
{
}

/// Registering, revoking, then re-registering: the revocation is cleared,
/// the key material is replaced, `created_at` keeps its original value
/// and `updated_at` follows each call.
pub proof fn law_resurrection(
    authority: Identity,
    k1: [u8; 32],
    k2: [u8; 32],
    rec0: UserMessagingKey,
    t0: i64,
    t1: i64,
    t2: i64,
)
    requires
        is_default_id(rec0.owner@),
        !is_default_id(authority@),
    ensures
        ({
            let (r1, e1) = spec_register_messaging_key(rec0, authority, k1, t0);
            let (r2, e2) = spec_revoke_key(r1, authority, t1);
            let (r3, e3) = spec_register_messaging_key(r2, authority, k2, t2);
            &&& e1 is Ok
            &&& !r1.is_revoked && r1.created_at == t0 && r1.updated_at == t0
            &&& e2 is Ok
            &&& r2.is_revoked && r2.updated_at == t1 && r2.created_at == t0
            &&& e3 is Ok
            &&& !r3.is_revoked && r3.msg_pubkey == k2 && r3.created_at == t0 && r3.updated_at == t2
        }),
{
}

} // verus!
