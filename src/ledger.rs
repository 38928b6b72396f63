//! The pool setup ledger: pending pool creations and the completion records
//! that the device-event path publishes for them.
//!
//! A creation request inserts its pool's entry with no record, waits while
//! [`PoolSetupLedger::still_pending`] holds, and then finalizes the entry with
//! [`PoolSetupLedger::finish_wait`]. The device-event path stores a record with
//! [`PoolSetupLedger::publish`]. The lock and the wake-up signal around these
//! steps belong to the caller.
use vstd::prelude::*;
use vstd::string::StringExecFns;
use std::collections::HashMap;
use crate::error::{classify, ok_reply, is_ok_reply, ERROR_CODE, Reply, StratisError};
use crate::pool_uuid::{hyphenated_text, PoolUuid};

verus! {

broadcast use vstd::std_specs::hash::group_hash_axioms;

/// What a pool creation replies with: whether a pool was created, its object
/// path and the object paths of its block devices.
pub type CreatePayload = (bool, (String, Vec<String>));

/// The payload of a creation that made nothing: the root path and no devices.
pub open spec fn is_default_create_payload(p: CreatePayload) -> bool {
    !p.0 && p.1.0@ == seq!['/'] && p.1.1@.len() == 0
}

/// The default payload of a pool creation reply.
pub fn default_create_payload() -> (r: CreatePayload)
    ensures
        is_default_create_payload(r),
{
    proof {
        reveal_strlit("/");
        assert("/"@ =~= seq!['/']);
    }
    (false, (String::from_str("/"), Vec::new()))
}

/// The completion record of a pool's device setup: the pool's object path
/// and the object paths of its block devices.
pub struct SetupRecord {
    pub pool_path: String,
    pub blockdev_paths: Vec<String>,
}

/// Whether a creation request for `u` must go on waiting: its entry is there
/// and holds no record yet.
pub open spec fn pending(l: Map<u128, Option<SetupRecord>>, u: u128) -> bool {
    l.contains_key(u) && l[u] is None
}

/// The ledger after the device-event path reports the record of `u`: only an
/// entry that is there gets it.
pub open spec fn published(
    l: Map<u128, Option<SetupRecord>>,
    u: u128,
    rec: SetupRecord,
) -> Map<u128, Option<SetupRecord>> {
    if l.contains_key(u) {
        l.insert(u, Some(rec))
    } else {
        l
    }
}

/// The record that finalizing the wait for `u` yields, if any.
pub open spec fn completion(l: Map<u128, Option<SetupRecord>>, u: u128) -> Option<SetupRecord> {
    if l.contains_key(u) {
        l[u]
    } else {
        None
    }
}

/// Message of a pool whose setup record never came.
pub open spec fn not_found_text(u: u128) -> Seq<char> {
    seq!['P', 'o', 'o', 'l', ' ', 'w', 'i', 't', 'h', ' ', 'U', 'U', 'I', 'D', ' ']
        + hyphenated_text(u) + seq![
        ' ', 'w', 'a', 's', ' ', 'n', 'o', 't', ' ', 'f', 'o', 'u', 'n', 'd', ' ', 'a', 'f', 't',
        'e', 'r', ' ', 'c', 'r', 'e', 'a', 't', 'i', 'o', 'n', ' ', 'w', 'a', 's', ' ', 'r', 'e',
        'q', 'u', 'e', 's', 't', 'e', 'd',
    ]
}

/// The reply that finalizing the wait for `u` owes when `l` is the ledger:
/// the record, if one came, else a not-found error with the default payload.
pub open spec fn is_finish_reply(l: Map<u128, Option<SetupRecord>>, u: u128, r: Reply<CreatePayload>) -> bool {
    match completion(l, u) {
        Some(rec) => is_ok_reply(r, (true, (rec.pool_path, rec.blockdev_paths))),
        None => r.code == ERROR_CODE && r.message@ == not_found_text(u)
            && is_default_create_payload(r.payload),
    }
}

/// Pending pool creations, each with the record of its setup once that has
/// completed.
pub struct PoolSetupLedger {
    entries: HashMap<u128, Option<SetupRecord>>,
}

impl View for PoolSetupLedger {
    type V = Map<u128, Option<SetupRecord>>;

    closed spec fn view(&self) -> Map<u128, Option<SetupRecord>> {
        self.entries@
    }
}

impl PoolSetupLedger {
    /// An empty ledger.
    pub fn new() -> (r: PoolSetupLedger)
        ensures
            r@ == Map::<u128, Option<SetupRecord>>::empty(),
    {
        PoolSetupLedger { entries: HashMap::new() }
    }

    /// Registers `u` as awaiting its setup record.
    pub fn begin_wait(&mut self, u: PoolUuid)
        ensures
            final(self)@ == old(self)@.insert(u.bits, None),
    {
        self.entries.insert(u.bits, None);
    }

    /// Stores the setup record of `u`, if `u` is awaited; says whether it was.
    pub fn publish(&mut self, u: PoolUuid, rec: SetupRecord) -> (r: bool)
        ensures
            r == old(self)@.contains_key(u.bits),
            final(self)@ == published(old(self)@, u.bits, rec),
    {
        if self.entries.contains_key(&u.bits) {
            self.entries.insert(u.bits, Some(rec));
            true
        } else {
            false
        }
    }

    /// Whether the request for `u` must go on waiting.
    pub fn still_pending(&self, u: PoolUuid) -> (r: bool)
        ensures
            r == pending(self@, u.bits),
    {
        match self.entries.get(&u.bits) {
            Some(v) => v.is_none(),
            None => false,
        }
    }

    /// Ends the wait for `u`: removes its entry and replies with its record,
    /// or with a not-found error when no record came.
    pub fn finish_wait(&mut self, u: PoolUuid) -> (r: Reply<CreatePayload>)
        ensures
            final(self)@ == old(self)@.remove(u.bits),
            is_finish_reply(old(self)@, u.bits, r),
    {
        match self.entries.remove(&u.bits) {
            Some(Some(rec)) => ok_reply((true, (rec.pool_path, rec.blockdev_paths))),
            _ => {
                let mut m = String::from_str("Pool with UUID ");
                let h = u.hyphenated_string();
                m.append(h.as_str());
                m.append(" was not found after creation was requested");
                proof {
                    reveal_strlit("Pool with UUID ");
                    reveal_strlit(" was not found after creation was requested");
                    assert(m@ =~= not_found_text(u.bits));
                }
                let e = StratisError::Msg(m);
                let (code, message) = classify(&e);
                Reply { payload: default_create_payload(), code, message }
            },
        }
    }
}

/// A wait for a pool that has no entry in the ledger does not begin, and
/// finalizing it gives the not-found error, leaving the ledger as it was.
pub proof fn absent_pool_wait_ends(l: Map<u128, Option<SetupRecord>>, u: u128, r: Reply<CreatePayload>)
    requires
        !l.contains_key(u),
        is_finish_reply(l, u, r),
    ensures
        !pending(l, u),
        r.code == ERROR_CODE,
        r.message@ == not_found_text(u),
        is_default_create_payload(r.payload),
        l.remove(u) == l,
{
    assert(l.remove(u) =~= l);
}

/// A record published right after the entry is inserted, before the waiter
/// has begun to wait, is not lost: the waiter does not wait, and finalizing
/// yields that record.
pub proof fn early_publish_is_seen(l: Map<u128, Option<SetupRecord>>, u: u128, rec: SetupRecord)
    ensures
        !pending(published(l.insert(u, None), u, rec), u),
        completion(published(l.insert(u, None), u, rec), u) == Some(rec),
{
}

/// Finalizing a wait consumes the entry: no record is handed out twice, and
/// the request no longer waits.
pub proof fn finished_entry_is_gone(l: Map<u128, Option<SetupRecord>>, u: u128)
    ensures
        completion(l.remove(u), u) is None,
        !pending(l.remove(u), u),
{
}

} // verus!
