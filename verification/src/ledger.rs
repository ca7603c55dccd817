//! The record store and its four request kinds. Records live in two
//! stores — one key record per owner, one message record per (recipient,
//! sequence) pair — mirroring the address derivation, which maps each
//! owner and each inbox slot to exactly one address (see `address`).
//! Each request is one atomic unit: either every precondition holds and
//! the whole effect applies, or nothing is mutated.

use vstd::prelude::*;
use vstd::string::StrSliceExecFns;
use crate::errors::{CipherChatError, LedgerError};
use crate::events::{MessagePosted, MessagingKeyRegistered, MessagingKeyRevoked};
use crate::identity::{is_default_id, Identity};
use crate::messages::{
    spec_mark_message_read, spec_post_message, mark_message_read, post_message, MAX_CID_LEN,
    MAX_TTL,
};
use crate::records::{MessageMetadata, UserMessagingKey};
use crate::registry::{spec_register_messaging_key, register_messaging_key, revoke_key, spec_revoke_key};
use crate::seq_map::{
    distinct_keys, lemma_distinct_keys_push, lemma_distinct_keys_update, lemma_map_of_contains,
    lemma_map_of_index, lemma_map_of_push, lemma_map_of_update, map_of,
};

verus! {

/// A request to register, or re-register, an encryption key. `owner`
/// names the record address; `authority` is the verified signer.
#[derive(Clone, Copy, Debug)]
pub struct RegisterMessagingKey {
    pub owner: Identity,
    pub authority: Identity,
    pub msg_pubkey: [u8; 32],
}

/// A request to revoke a key record. `owner` names the record address;
/// `authority` is the verified signer.
#[derive(Clone, Copy, Debug)]
pub struct RevokeKey {
    pub owner: Identity,
    pub authority: Identity,
}

/// A request to post a message pointer into `recipient`'s inbox at
/// `sequence`. `sender` is the verified signer.
#[derive(Debug)]
pub struct PostMessage {
    pub sender: Identity,
    pub recipient: Identity,
    pub cid: String,
    pub ephemeral_pub: [u8; 32],
    pub ttl: i64,
    pub sequence: u64,
}

/// A request to mark the message at (`recipient`, `sequence`) read.
/// `signer` is the verified signer.
#[derive(Clone, Copy, Debug)]
pub struct MarkMessageRead {
    pub recipient: Identity,
    pub sequence: u64,
    pub signer: Identity,
}

/// The key a key record is stored under: its owner's identity bytes.
pub open spec fn key_owner() -> spec_fn(UserMessagingKey) -> Seq<u8> {
    |r: UserMessagingKey| r.owner@
}

/// The key a message record is stored under: the recipient's identity
/// bytes and the sequence number.
pub open spec fn message_slot() -> spec_fn(MessageMetadata) -> (Seq<u8>, u64) {
    |m: MessageMetadata| (m.recipient@, m.sequence)
}

/// What a ledger denotes: the mapping each store implements, from a
/// derived-address key to the record stored there.
pub struct LedgerView {
    pub keys: Map<Seq<u8>, UserMessagingKey>,
    pub messages: Map<(Seq<u8>, u64), MessageMetadata>,
}

/// The record store.
pub struct Ledger {
    pub keys: Vec<UserMessagingKey>,
    pub messages: Vec<MessageMetadata>,
}

impl View for Ledger {
    type V = LedgerView;

    open spec fn view(&self) -> LedgerView {
        LedgerView {
            keys: map_of(self.keys@, key_owner()),
            messages: map_of(self.messages@, message_slot()),
        }
    }
}

impl Ledger {
    /// Well-formedness, established at creation and preserved by every
    /// operation: each owner holds at most one key record and no stored
    /// owner is the sentinel; each inbox slot holds at most one message
    /// and every stored message has a valid locator and time-to-live.
    pub open spec fn wf(self) -> bool {
        &&& distinct_keys(self.keys@, key_owner())
        &&& (forall|i: int|
            0 <= i < self.keys@.len() ==> !is_default_id(#[trigger] self.keys@[i].owner@))
        &&& distinct_keys(self.messages@, message_slot())
        &&& (forall|i: int|
            0 <= i < self.messages@.len() ==> {
                &&& (#[trigger] self.messages@[i]).cid@.len() <= MAX_CID_LEN
                &&& 0 < self.messages@[i].ttl <= MAX_TTL
            })
    }

    /// An empty store.
    pub fn new() -> (r: Ledger)
        ensures
            r.wf(),
            r@.keys == Map::<Seq<u8>, UserMessagingKey>::empty(),
            r@.messages == Map::<(Seq<u8>, u64), MessageMetadata>::empty(),
            r.keys@ == Seq::<UserMessagingKey>::empty(),
            r.messages@ == Seq::<MessageMetadata>::empty(),
    {
        Ledger { keys: Vec::new(), messages: Vec::new() }
    }

    /// The index of the key record bound to `owner`, if one exists.
    fn find_key_index(&self, owner: &Identity) -> (r: Option<usize>)
        ensures
            match r {
                Some(i) => i < self.keys@.len() && self.keys@[i as int].owner@ == owner@,
                None => forall|j: int|
                    0 <= j < self.keys@.len() ==> (#[trigger] self.keys@[j]).owner@ != owner@,
            },
    {
        let mut i: usize = 0;
        while i < self.keys.len()
            invariant
                i <= self.keys@.len(),
                forall|j: int| 0 <= j < i ==> (#[trigger] self.keys@[j]).owner@ != owner@,
            decreases self.keys@.len() - i,
        {
            if self.keys[i].owner.same_as(owner) {
                return Some(i);
            }
            i += 1;
        }
        None
    }

    /// The index of the message record at (`recipient`, `sequence`), if
    /// one exists.
    fn find_message_index(&self, recipient: &Identity, sequence: u64) -> (r: Option<usize>)
        ensures
            match r {
                Some(i) => i < self.messages@.len() && self.messages@[i as int].recipient@
                    == recipient@ && self.messages@[i as int].sequence == sequence,
                None => forall|j: int|
                    0 <= j < self.messages@.len() ==> !((#[trigger] self.messages@[j]).recipient@
                        == recipient@ && self.messages@[j].sequence == sequence),
            },
    {
        let mut i: usize = 0;
        while i < self.messages.len()
            invariant
                i <= self.messages@.len(),
                forall|j: int|
                    0 <= j < i ==> !((#[trigger] self.messages@[j]).recipient@ == recipient@
                        && self.messages@[j].sequence == sequence),
            decreases self.messages@.len() - i,
        {
            let m = &self.messages[i];
            if m.recipient.same_as(recipient) && m.sequence == sequence {
                return Some(i);
            }
            i += 1;
        }
        None
    }

    /// The key record bound to `owner`, if one exists.
    pub fn get_key(&self, owner: &Identity) -> (r: Option<&UserMessagingKey>)
        requires
            self.wf(),
        ensures
            match r {
                Some(rec) => self@.keys.contains_key(owner@) && *rec == self@.keys[owner@],
                None => !self@.keys.contains_key(owner@),
            },
    {
        proof {
            lemma_map_of_contains(self.keys@, key_owner(), owner@);
        }
        match self.find_key_index(owner) {
            Some(i) => {
                proof {
                    assert(key_owner()(self.keys@[i as int]) == owner@);
                    lemma_map_of_index(self.keys@, key_owner(), i as int);
                }
                Some(&self.keys[i])
            },
            None => {
                proof {
                    assert forall|j: int| 0 <= j < self.keys@.len() implies key_owner()(
                        #[trigger] self.keys@[j],
                    ) != owner@ by {}
                }
                None
            },
        }
    }

    /// The message record at (`recipient`, `sequence`), if one exists.
    pub fn get_message(&self, recipient: &Identity, sequence: u64) -> (r: Option<&MessageMetadata>)
        requires
            self.wf(),
        ensures
            match r {
                Some(m) => self@.messages.contains_key((recipient@, sequence)) && *m
                    == self@.messages[(recipient@, sequence)],
                None => !self@.messages.contains_key((recipient@, sequence)),
            },
    {
        proof {
            lemma_map_of_contains(self.messages@, message_slot(), (recipient@, sequence));
        }
        match self.find_message_index(recipient, sequence) {
            Some(i) => {
                proof {
                    assert(message_slot()(self.messages@[i as int]) == (recipient@, sequence));
                    lemma_map_of_index(self.messages@, message_slot(), i as int);
                }
                Some(&self.messages[i])
            },
            None => {
                proof {
                    assert forall|j: int| 0 <= j < self.messages@.len() implies message_slot()(
                        #[trigger] self.messages@[j],
                    ) != (recipient@, sequence) by {}
                }
                None
            },
        }
    }
}

/// What a register request does to the store. A request for an existing
/// record defers to the record-level rule (the stored owner must be the
/// signer); a request for a fresh record requires the signer to be the
/// named owner — the host only derives the target address from a
/// verified signer — and never a sentinel.
pub open spec fn spec_register_or_update(lv: LedgerView, req: RegisterMessagingKey, now: i64) -> (
    LedgerView,
    Result<MessagingKeyRegistered, LedgerError>,
) {
    let k = req.owner@;
    if lv.keys.contains_key(k) {
        let (rec2, res) = spec_register_messaging_key(lv.keys[k], req.authority, req.msg_pubkey, now);
        match res {
            Ok(ev) => (LedgerView { keys: lv.keys.insert(k, rec2), messages: lv.messages }, Ok(ev)),
            Err(e) => (lv, Err(LedgerError::Rule(e))),
        }
    } else if req.authority@ != req.owner@ || is_default_id(req.authority@) {
        (lv, Err(LedgerError::Rule(CipherChatError::UnauthorizedKeyUpdate)))
    } else {
        let rec = UserMessagingKey {
            owner: req.authority,
            msg_pubkey: req.msg_pubkey,
            is_revoked: false,
            created_at: now,
            updated_at: now,
        };
        let ev = MessagingKeyRegistered {
            owner: req.authority,
            msg_pubkey: req.msg_pubkey,
            timestamp: now,
        };
        (LedgerView { keys: lv.keys.insert(k, rec), messages: lv.messages }, Ok(ev))
    }
}

/// What a revoke request does to the store: load the record — failing if
/// none was ever created — then apply the record-level rules.
pub open spec fn spec_revoke(lv: LedgerView, req: RevokeKey, now: i64) -> (
    LedgerView,
    Result<MessagingKeyRevoked, LedgerError>,
) {
    let k = req.owner@;
    if !lv.keys.contains_key(k) {
        (lv, Err(LedgerError::RecordMissing))
    } else {
        let (rec2, res) = spec_revoke_key(lv.keys[k], req.authority, now);
        match res {
            Ok(ev) => (LedgerView { keys: lv.keys.insert(k, rec2), messages: lv.messages }, Ok(ev)),
            Err(e) => (lv, Err(LedgerError::Rule(e))),
        }
    }
}

/// What a post request does to the store, checking in order: locator
/// length, time-to-live range, the recipient's key record (which must
/// exist, be bound to the recipient, and not be revoked), and finally
/// that the inbox slot was never initialized — records are created at
/// most once, whatever the new payload.
pub open spec fn spec_post(lv: LedgerView, req: PostMessage, now: i64) -> (
    LedgerView,
    Result<MessagePosted, LedgerError>,
) {
    if req.cid@.len() > MAX_CID_LEN {
        (lv, Err(LedgerError::Rule(CipherChatError::CidTooLong)))
    } else if !(0 < req.ttl <= MAX_TTL) {
        (lv, Err(LedgerError::Rule(CipherChatError::InvalidTTL)))
    } else if !lv.keys.contains_key(req.recipient@) {
        (lv, Err(LedgerError::RecordMissing))
    } else {
        match spec_post_message(
            lv.keys[req.recipient@],
            req.sender,
            req.recipient,
            req.cid,
            req.ephemeral_pub,
            req.ttl,
            req.sequence,
            now,
        ) {
            Err(e) => (lv, Err(LedgerError::Rule(e))),
            Ok((m, ev)) => {
                if lv.messages.contains_key((req.recipient@, req.sequence)) {
                    (lv, Err(LedgerError::AddressInUse))
                } else {
                    (
                        LedgerView {
                            keys: lv.keys,
                            messages: lv.messages.insert((req.recipient@, req.sequence), m),
                        },
                        Ok(ev),
                    )
                }
            },
        }
    }
}

/// What a mark-read request does to the store: load the record at the
/// named slot — failing if none exists — then apply the record-level
/// rule (only the stored recipient may mark, idempotently).
pub open spec fn spec_mark_read(lv: LedgerView, req: MarkMessageRead) -> (
    LedgerView,
    Result<(), LedgerError>,
) {
    let k = (req.recipient@, req.sequence);
    if !lv.messages.contains_key(k) {
        (lv, Err(LedgerError::RecordMissing))
    } else {
        let (m2, res) = spec_mark_message_read(lv.messages[k], req.signer);
        match res {
            Ok(u) => (LedgerView { keys: lv.keys, messages: lv.messages.insert(k, m2) }, Ok(())),
            Err(e) => (lv, Err(LedgerError::Rule(e))),
        }
    }
}

impl Ledger {
    /// Execute a register request: create the owner's key record, or
    /// update it in place if the signer owns it. `now` is the host wall
    /// clock.
    pub fn register_or_update(&mut self, req: &RegisterMessagingKey, now: i64) -> (r: Result<
        MessagingKeyRegistered,
        LedgerError,
    >)
        requires
            old(self).wf(),
        ensures
            final(self).wf(),
            (final(self)@, r) == spec_register_or_update(old(self)@, *req, now),
    {
        proof {
            lemma_map_of_contains(self.keys@, key_owner(), req.owner@);
        }
        match self.find_key_index(&req.owner) {
            Some(i) => {
                proof {
                    assert(key_owner()(self.keys@[i as int]) == req.owner@);
                    lemma_map_of_index(self.keys@, key_owner(), i as int);
                }
                let mut rec = self.keys[i];
                let res = register_messaging_key(&mut rec, req.authority, req.msg_pubkey, now);
                match res {
                    Ok(ev) => {
                        proof {
                            assert(!is_default_id(self.keys@[i as int].owner@));
                            assert(rec.owner@ == self.keys@[i as int].owner@);
                            lemma_distinct_keys_update(self.keys@, key_owner(), i as int, rec);
                            lemma_map_of_update(self.keys@, key_owner(), i as int, rec);
                        }
                        self.keys.set(i, rec);
                        Ok(ev)
                    },
                    Err(e) => Err(LedgerError::Rule(e)),
                }
            },
            None => {
                proof {
                    assert forall|j: int| 0 <= j < self.keys@.len() implies key_owner()(
                        #[trigger] self.keys@[j],
                    ) != req.owner@ by {}
                    assert(!old(self)@.keys.contains_key(req.owner@));
                }
                if !req.authority.same_as(&req.owner) || req.authority.is_default() {
                    return Err(LedgerError::Rule(CipherChatError::UnauthorizedKeyUpdate));
                }
                let rec = UserMessagingKey {
                    owner: req.authority,
                    msg_pubkey: req.msg_pubkey,
                    is_revoked: false,
                    created_at: now,
                    updated_at: now,
                };
                proof {
                    lemma_distinct_keys_push(self.keys@, key_owner(), rec);
                    lemma_map_of_push(self.keys@, key_owner(), rec);
                }
                self.keys.push(rec);
                Ok(MessagingKeyRegistered {
                    owner: req.authority,
                    msg_pubkey: req.msg_pubkey,
                    timestamp: now,
                })
            },
        }
    }

    /// Execute a revoke request: mark the owner's key record revoked.
    /// `now` is the host wall clock.
    pub fn revoke(&mut self, req: &RevokeKey, now: i64) -> (r: Result<
        MessagingKeyRevoked,
        LedgerError,
    >)
        requires
            old(self).wf(),
        ensures
            final(self).wf(),
            (final(self)@, r) == spec_revoke(old(self)@, *req, now),
    {
        proof {
            lemma_map_of_contains(self.keys@, key_owner(), req.owner@);
        }
        match self.find_key_index(&req.owner) {
            None => {
                proof {
                    assert forall|j: int| 0 <= j < self.keys@.len() implies key_owner()(
                        #[trigger] self.keys@[j],
                    ) != req.owner@ by {}
                }
                Err(LedgerError::RecordMissing)
            },
            Some(i) => {
                proof {
                    assert(key_owner()(self.keys@[i as int]) == req.owner@);
                    lemma_map_of_index(self.keys@, key_owner(), i as int);
                }
                let mut rec = self.keys[i];
                let res = revoke_key(&mut rec, req.authority, now);
                match res {
                    Ok(ev) => {
                        proof {
                            assert(rec.owner@ == self.keys@[i as int].owner@);
                            lemma_distinct_keys_update(self.keys@, key_owner(), i as int, rec);
                            lemma_map_of_update(self.keys@, key_owner(), i as int, rec);
                        }
                        self.keys.set(i, rec);
                        Ok(ev)
                    },
                    Err(e) => Err(LedgerError::Rule(e)),
                }
            },
        }
    }

    /// Execute a post request: create the message record at the named
    /// inbox slot. `now` is the host wall clock.
    pub fn post(&mut self, req: &PostMessage, now: i64) -> (r: Result<MessagePosted, LedgerError>)
        requires
            old(self).wf(),
        ensures
            final(self).wf(),
            (final(self)@, r) == spec_post(old(self)@, *req, now),
    {
        if req.cid.as_str().unicode_len() > MAX_CID_LEN {
            return Err(LedgerError::Rule(CipherChatError::CidTooLong));
        }
        if !(0 < req.ttl && req.ttl <= MAX_TTL) {
            return Err(LedgerError::Rule(CipherChatError::InvalidTTL));
        }
        proof {
            lemma_map_of_contains(self.keys@, key_owner(), req.recipient@);
        }
        match self.find_key_index(&req.recipient) {
            None => {
                proof {
                    assert forall|j: int| 0 <= j < self.keys@.len() implies key_owner()(
                        #[trigger] self.keys@[j],
                    ) != req.recipient@ by {}
                }
                Err(LedgerError::RecordMissing)
            },
            Some(i) => {
                proof {
                    assert(key_owner()(self.keys@[i as int]) == req.recipient@);
                    lemma_map_of_index(self.keys@, key_owner(), i as int);
                }
                let rkey = self.keys[i];
                match post_message(
                    &rkey,
                    req.sender,
                    req.recipient,
                    req.cid.clone(),
                    req.ephemeral_pub,
                    req.ttl,
                    req.sequence,
                    now,
                ) {
                    Err(e) => Err(LedgerError::Rule(e)),
                    Ok((m, ev)) => {
                        proof {
                            lemma_map_of_contains(
                                self.messages@,
                                message_slot(),
                                (req.recipient@, req.sequence),
                            );
                        }
                        match self.find_message_index(&req.recipient, req.sequence) {
                            Some(j) => {
                                proof {
                                    assert(message_slot()(self.messages@[j as int])
                                        == (req.recipient@, req.sequence));
                                }
                                Err(LedgerError::AddressInUse)
                            },
                            None => {
                                proof {
                                    assert forall|j: int|
                                        0 <= j < self.messages@.len() implies message_slot()(
                                        #[trigger] self.messages@[j],
                                    ) != (req.recipient@, req.sequence) by {}
                                    assert(message_slot()(m) == (req.recipient@, req.sequence));
                                    lemma_distinct_keys_push(self.messages@, message_slot(), m);
                                    lemma_map_of_push(self.messages@, message_slot(), m);
                                }
                                self.messages.push(m);
                                Ok(ev)
                            },
                        }
                    },
                }
            },
        }
    }

    /// Execute a mark-read request: flip `is_read` on the message at the
    /// named inbox slot, if the signer is its recipient.
    pub fn mark_read(&mut self, req: &MarkMessageRead) -> (r: Result<(), LedgerError>)
        requires
            old(self).wf(),
        ensures
            final(self).wf(),
            (final(self)@, r) == spec_mark_read(old(self)@, *req),
    {
        proof {
            lemma_map_of_contains(self.messages@, message_slot(), (req.recipient@, req.sequence));
        }
        match self.find_message_index(&req.recipient, req.sequence) {
            None => {
                proof {
                    assert forall|j: int| 0 <= j < self.messages@.len() implies message_slot()(
                        #[trigger] self.messages@[j],
                    ) != (req.recipient@, req.sequence) by {}
                }
                Err(LedgerError::RecordMissing)
            },
            Some(i) => {
                proof {
                    assert(message_slot()(self.messages@[i as int])
                        == (req.recipient@, req.sequence));
                    lemma_map_of_index(self.messages@, message_slot(), i as int);
                }
                let m_ref: &MessageMetadata = &self.messages[i];
                let mut m = m_ref.duplicate();
                let res = mark_message_read(&mut m, req.signer);
                match res {
                    Ok(u) => {
                        proof {
                            assert(message_slot()(m) == message_slot()(self.messages@[i as int]));
                            lemma_distinct_keys_update(self.messages@, message_slot(), i as int, m);
                            lemma_map_of_update(self.messages@, message_slot(), i as int, m);
                        }
                        self.messages.set(i, m);
                        Ok(())
                    },
                    Err(e) => Err(LedgerError::Rule(e)),
                }
            },
        }
    }
}

/// At most one key record exists per owner at any time: two stored key
/// records with the same owner are the same record. Together with the
/// injective address derivation (see `address`), each owner has exactly
/// one possible record address.
pub proof fn law_one_key_record_per_owner(l: Ledger, i: int, j: int)
    requires
        l.wf(),
        0 <= i < l.keys@.len(),
        0 <= j < l.keys@.len(),
        l.keys@[i].owner@ == l.keys@[j].owner@,
    ensures
        i == j,
{
    assert(key_owner()(l.keys@[i]) == l.keys@[i].owner@);
    assert(key_owner()(l.keys@[j]) == l.keys@[j].owner@);
}

/// At most one message record exists per (recipient, sequence) pair.
pub proof fn law_one_message_per_slot(l: Ledger, i: int, j: int)
    requires
        l.wf(),
        0 <= i < l.messages@.len(),
        0 <= j < l.messages@.len(),
        l.messages@[i].recipient@ == l.messages@[j].recipient@,
        l.messages@[i].sequence == l.messages@[j].sequence,
    ensures
        i == j,
{
    assert(message_slot()(l.messages@[i]) == (l.messages@[i].recipient@, l.messages@[i].sequence));
    assert(message_slot()(l.messages@[j]) == (l.messages@[j].recipient@, l.messages@[j].sequence));
}

/// Posting twice to the same (recipient, sequence) slot: once the first
/// post has succeeded, a second post to that slot fails — whatever its
/// payload, sender, or timestamp — and leaves the store exactly as the
/// first post left it. No record is ever overwritten.
pub proof fn law_post_no_overwrite(
    lv: LedgerView,
    req1: PostMessage,
    req2: PostMessage,
    t1: i64,
    t2: i64,
)
    requires
        req1.recipient@ == req2.recipient@,
        req1.sequence == req2.sequence,
        spec_post(lv, req1, t1).1 is Ok,
    ensures
        spec_post(spec_post(lv, req1, t1).0, req2, t2).0 == spec_post(lv, req1, t1).0,
        spec_post(spec_post(lv, req1, t1).0, req2, t2).1 is Err,
{
    let lv1 = spec_post(lv, req1, t1).0;
    assert(lv1.messages.contains_key((req2.recipient@, req2.sequence)));
}

/// Marking read is idempotent at the store too: after a successful
/// mark-read, the same request succeeds again and changes nothing.
pub proof fn law_mark_read_idempotent_store(lv: LedgerView, req: MarkMessageRead)
    requires
        spec_mark_read(lv, req).1 is Ok,
    ensures
        spec_mark_read(spec_mark_read(lv, req).0, req).1 is Ok,
        spec_mark_read(spec_mark_read(lv, req).0, req).0 == spec_mark_read(lv, req).0,
{
    let k = (req.recipient@, req.sequence);
    let lv1 = spec_mark_read(lv, req).0;
    let m1 = lv1.messages[k];
    let (m2, res2) = spec_mark_message_read(m1, req.signer);
    assert(m2 == m1);
    assert(lv1.messages.insert(k, m2) =~= lv1.messages);
    assert(spec_mark_read(lv1, req).0.keys =~= lv1.keys);
}

} // verus!
