//! Address derivation. Every record lives at an address computed from a
//! fixed salt plus the identities that scope it, so any external reader
//! can locate a record without a scan or secondary index. This module
//! builds the seed bytes handed to the host's deterministic-address
//! function and proves that the encoding is injective: two different
//! logical keys never produce the same seed, so key records and message
//! records can never collide in address space, even for one identity.

use vstd::prelude::*;
use vstd::bytes::{lemma_auto_spec_u64_to_from_le_bytes, spec_u64_to_le_bytes, u64_to_le_bytes};
use crate::identity::Identity;

verus! {

/// The two logical keys of the address space: one key record per owner,
/// one message record per (recipient, sequence) pair.
#[derive(Clone, Copy, Debug)]
pub enum RecordAddress {
    /// The single key record of `owner`.
    MsgKey { owner: Identity },
    /// The message record of `recipient`'s inbox at `sequence`.
    Inbox { recipient: Identity, sequence: u64 },
}

/// The salt of key-record addresses: the bytes of "msgkey".
pub open spec fn msgkey_salt() -> Seq<u8> {
    seq![109u8, 115u8, 103u8, 107u8, 101u8, 121u8]
}

/// The salt of message-record addresses: the bytes of "inbox".
pub open spec fn inbox_salt() -> Seq<u8> {
    seq![105u8, 110u8, 98u8, 111u8, 120u8]
}

/// The seed bytes of an address: the salt, the raw identity bytes and,
/// for messages, the sequence number as 8 little-endian bytes.
pub open spec fn seed_of(a: RecordAddress) -> Seq<u8> {
    match a {
        RecordAddress::MsgKey { owner } => msgkey_salt() + owner@,
        RecordAddress::Inbox { recipient, sequence } => inbox_salt() + recipient@
            + spec_u64_to_le_bytes(sequence),
    }
}

/// Build the seed bytes of `a`, to be passed through the host's standard
/// deterministic-address function.
pub fn derive_seed(a: &RecordAddress) -> (v: Vec<u8>)
    ensures
        v@ == seed_of(*a),
{
    let mut v: Vec<u8> = Vec::new();
    match a {
        RecordAddress::MsgKey { owner } => {
            v.push(109);
            v.push(115);
            v.push(103);
            v.push(107);
            v.push(101);
            v.push(121);
            proof {
                assert(v@ =~= msgkey_salt());
            }
            let mut k: usize = 0;
            while k < 32
                invariant
                    k <= 32,
                    v@ == msgkey_salt() + owner@.subrange(0, k as int),
                decreases 32 - k,
            {
                v.push(owner.bytes[k]);
                proof {
                    assert(v@ =~= msgkey_salt() + owner@.subrange(0, k + 1 as int));
                }
                k += 1;
            }
            proof {
                assert(owner@.subrange(0, 32) =~= owner@);
            }
        },
        RecordAddress::Inbox { recipient, sequence } => {
            v.push(105);
            v.push(110);
            v.push(98);
            v.push(111);
            v.push(120);
            proof {
                assert(v@ =~= inbox_salt());
            }
            let mut k: usize = 0;
            while k < 32
                invariant
                    k <= 32,
                    v@ == inbox_salt() + recipient@.subrange(0, k as int),
                decreases 32 - k,
            {
                v.push(recipient.bytes[k]);
                proof {
                    assert(v@ =~= inbox_salt() + recipient@.subrange(0, k + 1 as int));
                }
                k += 1;
            }
            proof {
                assert(recipient@.subrange(0, 32) =~= recipient@);
            }
            let mut tail = u64_to_le_bytes(*sequence);
            v.append(&mut tail);
        },
    }
    v
}

/// The seed encoding is injective: equal seeds come only from the same
/// logical key. In particular the two salts keep key records and message
/// records apart in address space, and within each kind the identity
/// (and sequence) is fully determined. Record uniqueness per owner and
/// per (recipient, sequence) pair rests on this.
/// Address uniqueness by construction: two different logical keys —
/// different owners, different inbox slots, or a key record against a
/// message record (even of the same identity) — always get different
/// seeds, hence different derived addresses.
pub proof fn law_address_uniqueness(a1: RecordAddress, a2: RecordAddress)
    requires
        match (a1, a2) {
            (RecordAddress::MsgKey { owner: o1 }, RecordAddress::MsgKey { owner: o2 }) => o1@
                != o2@,
            (
                RecordAddress::Inbox { recipient: r1, sequence: s1 },
                RecordAddress::Inbox { recipient: r2, sequence: s2 },
            ) => r1@ != r2@ || s1 != s2,
            _ => true,
        },
    ensures
        seed_of(a1) != seed_of(a2),
{
    if seed_of(a1) == seed_of(a2) {
        lemma_seed_of_injective(a1, a2);
    }
}

pub proof fn lemma_seed_of_injective(a1: RecordAddress, a2: RecordAddress)
    requires
        seed_of(a1) == seed_of(a2),
    ensures
        match (a1, a2) {
            (RecordAddress::MsgKey { owner: o1 }, RecordAddress::MsgKey { owner: o2 }) => o1@
                == o2@,
            (
                RecordAddress::Inbox { recipient: r1, sequence: s1 },
                RecordAddress::Inbox { recipient: r2, sequence: s2 },
            ) => r1@ == r2@ && s1 == s2,
            _ => false,
        },
{
    lemma_auto_spec_u64_to_from_le_bytes();
    match (a1, a2) {
        (RecordAddress::MsgKey { owner: o1 }, RecordAddress::MsgKey { owner: o2 }) => {
            assert(o1@ =~= seed_of(a1).subrange(6, 38));
            assert(o2@ =~= seed_of(a2).subrange(6, 38));
        },
        (
            RecordAddress::Inbox { recipient: r1, sequence: s1 },
            RecordAddress::Inbox { recipient: r2, sequence: s2 },
        ) => {
            assert(spec_u64_to_le_bytes(s1).len() == 8);
            assert(spec_u64_to_le_bytes(s2).len() == 8);
            assert(r1@ =~= seed_of(a1).subrange(5, 37));
            assert(r2@ =~= seed_of(a2).subrange(5, 37));
            assert(spec_u64_to_le_bytes(s1) =~= seed_of(a1).subrange(37, 45));
            assert(spec_u64_to_le_bytes(s2) =~= seed_of(a2).subrange(37, 45));
            assert(vstd::bytes::spec_u64_from_le_bytes(spec_u64_to_le_bytes(s1)) == s1);
            assert(vstd::bytes::spec_u64_from_le_bytes(spec_u64_to_le_bytes(s2)) == s2);
        },
        (RecordAddress::MsgKey { owner: o1 }, RecordAddress::Inbox { recipient: r2, sequence: s2 }) => {
            assert(seed_of(a1).len() == 38);
            assert(seed_of(a2).len() == 45);
        },
        (RecordAddress::Inbox { recipient: r1, sequence: s1 }, RecordAddress::MsgKey { owner: o2 }) => {
            assert(seed_of(a1).len() == 45);
            assert(seed_of(a2).len() == 38);
        },
    }
}

} // verus!
