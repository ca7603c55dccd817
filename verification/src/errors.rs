//! The closed set of failures. Every failure is a deterministic rejection
//! of one violated precondition; nothing is ever partially applied.

use vstd::prelude::*;

verus! {

/// A business-rule rejection: the signer is not the identity the record is
/// bound to, or a field of the request is out of range.
#[derive(Clone, Copy, Debug, PartialEq, Eq, Structural)]
pub enum CipherChatError {
    /// A key record already exists and its owner is not the signer.
    UnauthorizedKeyUpdate,
    /// The key record's owner is not the signer of the revocation.
    UnauthorizedKeyRevoke,
    /// The locator is longer than 100 characters.
    CidTooLong,
    /// The time-to-live is zero, negative, or above 30 days.
    InvalidTTL,
    /// The recipient's key record has been revoked.
    RecipientKeyRevoked,
    /// The key record is already revoked.
    KeyAlreadyRevoked,
    /// The supplied key record does not belong to the named recipient.
    InvalidRecipient,
    /// The signer of a read receipt is not the message's recipient.
    UnauthorizedMessageAccess,
}

/// A failure of a whole request against the record store. Business-rule
/// rejections are wrapped; the two other variants are store-level: a load
/// of an address that was never initialized, and a creation at an address
/// that already holds a record.
#[derive(Clone, Copy, Debug, PartialEq, Eq, Structural)]
pub enum LedgerError {
    /// A business rule rejected the request.
    Rule(CipherChatError),
    /// No record exists at the derived address.
    RecordMissing,
    /// A record already exists at the derived address; records are
    /// created at most once and never overwritten.
    AddressInUse,
}

} // verus!
