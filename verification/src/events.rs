//! Transition records appended alongside each committed mutation, for
//! off-chain consumers. A successful request returns its event; a failed
//! request returns none. Marking a message read emits no event.

use vstd::prelude::*;
use crate::identity::Identity;

verus! {

/// Emitted when a key record is created or updated.
#[derive(Clone, Copy, Debug)]
pub struct MessagingKeyRegistered {
    pub owner: Identity,
    pub msg_pubkey: [u8; 32],
    pub timestamp: i64,
}

/// Emitted when a message record is created.
#[derive(Debug)]
pub struct MessagePosted {
    pub sender: Identity,
    pub recipient: Identity,
    pub cid: String,
    pub sequence: u64,
    pub timestamp: i64,
}

/// Emitted when a key record is revoked.
#[derive(Clone, Copy, Debug)]
pub struct MessagingKeyRevoked {
    pub owner: Identity,
    pub timestamp: i64,
}

} // verus!
