//! A minimal encrypted-messaging metadata ledger.
//!
//! The library keeps per-owner encryption-key records and per-recipient
//! message-pointer records, and enforces who may create, update, or read
//! each record. Message content itself never enters the system: a record
//! only carries a locator pointing at content held elsewhere, together
//! with the cryptographic material needed to decrypt it.

mod address;
mod errors;
mod events;
mod identity;
mod ledger;
mod messages;
mod records;
mod registry;
mod seq_map;

pub use address::{
    derive_seed, inbox_salt, law_address_uniqueness, lemma_seed_of_injective, msgkey_salt,
    seed_of, RecordAddress,
};
pub use errors::{CipherChatError, LedgerError};
pub use events::{MessagePosted, MessagingKeyRegistered, MessagingKeyRevoked};
pub use identity::{is_default_id, Identity};
pub use ledger::{
    key_owner, law_mark_read_idempotent_store, law_one_key_record_per_owner,
    law_one_message_per_slot, law_post_no_overwrite, message_slot, spec_mark_read, spec_post,
    spec_register_or_update, spec_revoke, Ledger, LedgerView, MarkMessageRead, PostMessage,
    RegisterMessagingKey, RevokeKey,
};
pub use messages::{
    law_mark_read_idempotent, law_post_revoked_recipient, mark_message_read, post_message,
    spec_mark_message_read, spec_post_message, MAX_CID_LEN, MAX_TTL,
};
pub use records::{MessageMetadata, UserMessagingKey};
pub use registry::{
    law_register_wrong_identity, law_resurrection, law_revoke_twice, register_allowed,
    register_messaging_key, revoke_key, spec_register_messaging_key, spec_revoke_key,
};
pub use seq_map::{
    distinct_keys, lemma_distinct_keys_push, lemma_distinct_keys_update, lemma_map_of_contains,
    lemma_map_of_index, lemma_map_of_push, lemma_map_of_update, map_of,
};
