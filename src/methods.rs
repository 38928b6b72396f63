//! The request handlers. A handler takes the request's arguments and the
//! engine operation as a closure: it validates the arguments, calls the engine
//! only for a request that passes, and turns the engine's outcome into the
//! reply. The validation (`*_request`) and the reading of an outcome
//! (`*_reply`, `create_pool_step`) are also offered on their own.
use vstd::prelude::*;
use vstd::string::StringExecFns;
use crate::action::{
    mapping_create_flags, mapping_create_payload, mapping_delete_flag, mapping_delete_payload,
    CreateAction, DeleteAction, MappingCreateAction, MappingDeleteAction,
};
use crate::encryption::{
    encryption_params, json_parse, semicolon_error, valid_key_description,
    EncryptionInfo, KeyDescription, UnlockMethod, keyring_text, clevis_text,
    unlock_method_error,
};
use crate::error::{
    error_reply, error_text, is_ok_reply, ok_reply, ok_text,
    serde_prefix, uuid_prefix, cause_separator, Reply, StratisError, ERROR_CODE, OK_CODE,
};
use crate::ledger::{default_create_payload, is_default_create_payload, CreatePayload};
use crate::pool_uuid::{simple_text, uuid_parse, PoolUuid};
use crate::text::decimal;

verus! {

/// A reply that succeeded: code zero and the success message.
pub open spec fn ok_with<T>(r: Reply<T>) -> bool {
    r.code == OK_CODE && r.message@ == ok_text()
}

/// A reply that failed with the full text of `e`.
pub open spec fn failed_with<T>(r: Reply<T>, e: StratisError) -> bool {
    r.code == ERROR_CODE && r.message@ == error_text(e)
}

// ---- destroy pool ----

/// Reply to a destroy request. `outcome` is `None` when the handle named no
/// known pool, in which case the engine is not called and nothing needs
/// destroying. Whenever the payload reports a deletion, the pool's object is
/// to be announced as removed.
pub fn destroy_pool(outcome: Option<Result<DeleteAction<PoolUuid>, StratisError>>) -> (r: Reply<(bool, String)>)
    ensures
        match outcome {
            Some(Ok(DeleteAction::Deleted(u))) => ok_with(r) && r.payload.0 && r.payload.1@
                == simple_text(u.bits),
            Some(Err(e)) => failed_with(r, e) && !r.payload.0 && r.payload.1@ == simple_text(0),
            _ => ok_with(r) && !r.payload.0 && r.payload.1@ == simple_text(0),
        },
{
    let nil = PoolUuid::nil().simple_string();
    match outcome {
        Some(Ok(DeleteAction::Deleted(u))) => ok_reply((true, u.simple_string())),
        Some(Ok(DeleteAction::Identity)) => ok_reply((false, nil)),
        Some(Err(e)) => error_reply(&e, (false, nil)),
        None => ok_reply((false, nil)),
    }
}

// ---- keys ----

/// Validates a key description before a key operation; a refused one gives
/// the error reply with the operation's default payload.
pub fn key_request<T>(desc: String, default_return: T) -> (r: Result<KeyDescription, Reply<T>>)
    ensures
        match r {
            Ok(kd) => valid_key_description(desc@) && kd@ == desc@,
            Err(rep) => !valid_key_description(desc@) && rep.code == ERROR_CODE
                && rep.message@ == semicolon_error(desc@) && rep.payload == default_return,
        },
{
    match KeyDescription::try_from(desc) {
        Ok(kd) => Ok(kd),
        Err(e) => Err(error_reply(&e, default_return)),
    }
}

/// Whether `r` is the reply owed for an unset-key outcome.
pub open spec fn unset_reply_ok(outcome: Result<MappingDeleteAction<KeyDescription>, StratisError>, r: Reply<bool>) -> bool {
    match outcome {
        Ok(a) => ok_with(r) && r.payload == mapping_delete_flag(a),
        Err(e) => failed_with(r, e) && !r.payload,
    }
}

/// Unsetting a key that is not registered succeeds without deleting
/// anything, and doing so again gives the same reply.
pub proof fn unset_missing_key_is_noop(r1: Reply<bool>, r2: Reply<bool>)
    requires
        unset_reply_ok(Ok(MappingDeleteAction::Identity), r1),
        unset_reply_ok(Ok(MappingDeleteAction::Identity), r2),
    ensures
        r1.code == OK_CODE && !r1.payload,
        r2.code == r1.code && r2.payload == r1.payload && r2.message@ == r1.message@,
{
}

/// Handles an unset-key request: validates the key description and, only if
/// it is acceptable, removes the key through `engine`, whose outcome gives
/// the reply. A refused description is replied to without the call.
pub fn unset_key<F>(desc: String, engine: F) -> (r: Reply<bool>)
    where
        F: FnOnce(KeyDescription) -> Result<MappingDeleteAction<KeyDescription>, StratisError>,
    requires
        forall|kd: KeyDescription| engine.requires((kd,)),
    ensures
        !valid_key_description(desc@) ==> r.code == ERROR_CODE && r.message@ == semicolon_error(
            desc@,
        ) && !r.payload,
        valid_key_description(desc@) ==> exists|
            kd: KeyDescription,
            o: Result<MappingDeleteAction<KeyDescription>, StratisError>,
        | #[trigger] engine.ensures((kd,), o) && kd@ == desc@ && unset_reply_ok(o, r),
{
    match key_request(desc, false) {
        Err(rep) => rep,
        Ok(kd) => {
            let ghost k = kd;
            let o = engine(kd);
            let r = unset_key_reply(o);
            assert(engine.ensures((k,), o) && unset_reply_ok(o, r));
            r
        },
    }
}

/// Reply to an unset-key request: whether a key was removed. Removing a key
/// that is not there is no error.
pub fn unset_key_reply(outcome: Result<MappingDeleteAction<KeyDescription>, StratisError>) -> (r: Reply<bool>)
    ensures
        unset_reply_ok(outcome, r),
{
    match outcome {
        Ok(a) => ok_reply(mapping_delete_payload(&a)),
        Err(e) => error_reply(&e, false),
    }
}

/// Handles a set-key request: validates the key description and, only if it
/// is acceptable, registers the passphrase through `engine`, whose outcome
/// gives the reply. A refused description is replied to without the call.
pub fn set_key<F>(desc: String, engine: F) -> (r: Reply<(bool, bool)>)
    where
        F: FnOnce(KeyDescription) -> Result<MappingCreateAction<KeyDescription>, StratisError>,
    requires
        forall|kd: KeyDescription| engine.requires((kd,)),
    ensures
        !valid_key_description(desc@) ==> r.code == ERROR_CODE && r.message@ == semicolon_error(
            desc@,
        ) && r.payload == (false, false),
        valid_key_description(desc@) ==> exists|
            kd: KeyDescription,
            o: Result<MappingCreateAction<KeyDescription>, StratisError>,
        | #[trigger] engine.ensures((kd,), o) && kd@ == desc@ && set_reply_ok(o, r),
{
    match key_request(desc, (false, false)) {
        Err(rep) => rep,
        Ok(kd) => {
            let ghost k = kd;
            let o = engine(kd);
            let r = set_key_reply(o);
            assert(engine.ensures((k,), o) && set_reply_ok(o, r));
            r
        },
    }
}

/// Whether `r` is the reply owed for a set-key outcome.
pub open spec fn set_reply_ok(outcome: Result<MappingCreateAction<KeyDescription>, StratisError>, r: Reply<(bool, bool)>) -> bool {
    match outcome {
        Ok(a) => ok_with(r) && r.payload == mapping_create_flags(a),
        Err(e) => failed_with(r, e) && r.payload == (false, false),
    }
}

/// Reply to a set-key request: `(set, changed)` as the mapping-create outcome
/// gives it.
pub fn set_key_reply(outcome: Result<MappingCreateAction<KeyDescription>, StratisError>) -> (r: Reply<(bool, bool)>)
    ensures
        set_reply_ok(outcome, r),
{
    match outcome {
        Ok(a) => ok_reply(mapping_create_payload(&a)),
        Err(e) => error_reply(&e, (false, false)),
    }
}

/// Reply to a list-keys request: every registered key description.
pub fn list_keys(outcome: Result<Vec<KeyDescription>, StratisError>) -> (r: Reply<Vec<String>>)
    ensures
        match outcome {
            Ok(keys) => ok_with(r) && r.payload@.len() == keys@.len() && forall|i: int|
                0 <= i < keys@.len() ==> #[trigger] r.payload@[i]@ == keys@[i]@,
            Err(e) => failed_with(r, e) && r.payload@.len() == 0,
        },
{
    match outcome {
        Ok(keys) => {
            let mut out: Vec<String> = Vec::new();
            let mut i: usize = 0;
            while i < keys.len()
                invariant
                    i <= keys@.len(),
                    out@.len() == i,
                    forall|j: int| 0 <= j < i ==> #[trigger] out@[j]@ == keys@[j]@,
                decreases keys@.len() - i,
            {
                out.push(String::from_str(keys[i].as_application_str()));
                i = i + 1;
            }
            ok_reply(out)
        },
        Err(e) => error_reply(&e, Vec::new()),
    }
}

// ---- unlock pool ----

/// The context message of a malformed UUID in an unlock request.
pub open spec fn malformed_uuid_text() -> Seq<char> {
    seq![
        'M', 'a', 'l', 'f', 'o', 'r', 'm', 'e', 'd', ' ', 'U', 'U', 'I', 'D', ' ', 'p', 'a', 's',
        's', 'e', 'd', ' ', 't', 'o', ' ', 'U', 'n', 'l', 'o', 'c', 'k', 'P', 'o', 'o', 'l',
    ]
}

/// Whether `r` is what an unlock request owes, given what parsing its UUID
/// text gave and its unlock method token.
pub open spec fn unlock_args_ok(
    parsed: Result<u128, Seq<char>>,
    method: Seq<char>,
    r: Result<(PoolUuid, UnlockMethod), Reply<(bool, Vec<String>)>>,
) -> bool {
    match parsed {
        Err(m) => r is Err && r->Err_0.code == ERROR_CODE && r->Err_0.message@
            == malformed_uuid_text() + cause_separator() + uuid_prefix() + m && !r->Err_0.payload.0
            && r->Err_0.payload.1@.len() == 0,
        Ok(v) => if method == keyring_text() {
            r == Ok::<(PoolUuid, UnlockMethod), Reply<(bool, Vec<String>)>>(
                (PoolUuid { bits: v }, UnlockMethod::Keyring),
            )
        } else if method == clevis_text() {
            r == Ok::<(PoolUuid, UnlockMethod), Reply<(bool, Vec<String>)>>(
                (PoolUuid { bits: v }, UnlockMethod::Clevis),
            )
        } else {
            r is Err && r->Err_0.code == ERROR_CODE && r->Err_0.message@ == unlock_method_error(
                method,
            ) && !r->Err_0.payload.0 && r->Err_0.payload.1@.len() == 0
        },
    }
}

/// Validates an unlock request from the result of parsing its UUID text and
/// its unlock method token.
pub fn unlock_pool_args(parsed: Result<PoolUuid, String>, method: &str) -> (r: Result<(PoolUuid, UnlockMethod), Reply<(bool, Vec<String>)>>)
    ensures
        unlock_args_ok(
            match parsed {
                Ok(u) => Ok::<u128, Seq<char>>(u.bits),
                Err(m) => Err::<u128, Seq<char>>(m@),
            },
            method@,
            r,
        ),
{
    let uuid = match parsed {
        Ok(u) => u,
        Err(m) => {
            proof {
                reveal_strlit("Malformed UUID passed to UnlockPool");
            }
            let ghost mv = m@;
            let ctx = String::from_str("Malformed UUID passed to UnlockPool");
            assert(ctx@ =~= malformed_uuid_text());
            let e = StratisError::Chained(ctx, Box::new(StratisError::Uuid(m)));
            let rep = error_reply(&e, (false, Vec::new()));
            assert(error_text(*e->Chained_1) == uuid_prefix() + mv);
            assert(rep.message@ =~= malformed_uuid_text() + cause_separator() + uuid_prefix()
                + mv);
            return Err(rep);
        },
    };
    match UnlockMethod::try_from(method) {
        Ok(um) => Ok((uuid, um)),
        Err(e) => Err(error_reply(&e, (false, Vec::new()))),
    }
}

/// Validates an unlock request: its UUID text and unlock method token.
pub fn unlock_pool_request(uuid_str: &str, method: &str) -> (r: Result<(PoolUuid, UnlockMethod), Reply<(bool, Vec<String>)>>)
    ensures
        unlock_args_ok(uuid_parse(uuid_str@), method@, r),
{
    unlock_pool_args(PoolUuid::parse_str(uuid_str), method)
}

/// Whether `r` is the reply owed for the engine's unlock outcome.
pub open spec fn unlock_reply_ok(outcome: Result<Vec<PoolUuid>, StratisError>, r: Reply<(bool, Vec<String>)>) -> bool {
    match outcome {
        Ok(us) => ok_with(r) && r.payload.0 == (us@.len() > 0) && r.payload.1@.len() == us@.len()
            && forall|i: int|
            0 <= i < us@.len() ==> #[trigger] r.payload.1@[i]@ == simple_text(us@[i].bits),
        Err(e) => failed_with(r, e) && !r.payload.0 && r.payload.1@.len() == 0,
    }
}

/// Whether an unlock request's UUID text and method token are acceptable.
pub open spec fn unlock_args_valid(uuid_text: Seq<char>, method: Seq<char>) -> bool {
    uuid_parse(uuid_text) is Ok && (method == keyring_text() || method == clevis_text())
}

/// Handles an unlock request: validates the UUID text and the unlock method
/// token and, only if both are acceptable, unlocks through `engine`, whose
/// list of unlocked pools gives the reply. A refused request is replied to
/// without the call.
pub fn unlock_pool<F>(uuid_str: &str, method: &str, engine: F) -> (r: Reply<(bool, Vec<String>)>)
    where
        F: FnOnce(PoolUuid, UnlockMethod) -> Result<Vec<PoolUuid>, StratisError>,
    requires
        forall|u: PoolUuid, m: UnlockMethod| engine.requires((u, m)),
    ensures
        !unlock_args_valid(uuid_str@, method@) ==> unlock_args_ok(
            uuid_parse(uuid_str@),
            method@,
            Err::<(PoolUuid, UnlockMethod), Reply<(bool, Vec<String>)>>(r),
        ),
        unlock_args_valid(uuid_str@, method@) ==> exists|
            u: PoolUuid,
            m: UnlockMethod,
            o: Result<Vec<PoolUuid>, StratisError>,
        | #[trigger] engine.ensures((u, m), o) && unlock_args_ok(
            uuid_parse(uuid_str@),
            method@,
            Ok::<(PoolUuid, UnlockMethod), Reply<(bool, Vec<String>)>>((u, m)),
        ) && unlock_reply_ok(o, r),
{
    match unlock_pool_request(uuid_str, method) {
        Err(rep) => rep,
        Ok((u, m)) => {
            let o = engine(u, m);
            let r = unlock_pool_reply(o);
            assert(engine.ensures((u, m), o) && unlock_reply_ok(o, r));
            r
        },
    }
}

/// Reply to an unlock request, from the identifiers of the pools that the
/// engine unlocked: `true` with their texts when there are any.
pub fn unlock_pool_reply(outcome: Result<Vec<PoolUuid>, StratisError>) -> (r: Reply<(bool, Vec<String>)>)
    ensures
        unlock_reply_ok(outcome, r),
{
    match outcome {
        Ok(us) => {
            let mut out: Vec<String> = Vec::new();
            let mut i: usize = 0;
            while i < us.len()
                invariant
                    i <= us@.len(),
                    out@.len() == i,
                    forall|j: int| 0 <= j < i ==> #[trigger] out@[j]@ == simple_text(us@[j].bits),
                decreases us@.len() - i,
            {
                out.push(us[i].simple_string());
                i = i + 1;
            }
            let changed = us.len() > 0;
            ok_reply((changed, out))
        },
        Err(e) => error_reply(&e, (false, Vec::new())),
    }
}

// ---- engine state report ----

/// What `serde_json::to_string` makes of a JSON value: its text, or the text
/// of the serialization error.
pub uninterp spec fn json_text_of(v: serde_json::Value) -> Result<Seq<char>, Seq<char>>;

/// Relies on serde_json::to_string of a `serde_json::Value`, and on the
/// `Display` of its error. The text depends on the value alone; a value's
/// map keys are strings and the output goes to memory, so it does not fail.
#[verifier::external_body]
fn json_text(v: &serde_json::Value) -> (r: Result<String, String>)
    ensures
        r is Ok,
        match r {
            Ok(t) => json_text_of(*v) == Ok::<Seq<char>, Seq<char>>(t@),
            Err(m) => json_text_of(*v) == Err::<Seq<char>, Seq<char>>(m@),
        },
{
    serde_json::to_string(v).map_err(|e| e.to_string())
}

/// Reply to a state report request, from the outcome of serializing the
/// engine's report: its text, or the serialization error.
pub fn state_report_reply(serialized: Result<String, String>) -> (r: Reply<String>)
    ensures
        match serialized {
            Ok(t) => ok_with(r) && r.payload == t,
            Err(m) => r.code == ERROR_CODE && r.message@ == serde_prefix() + m@ && r.payload@.len()
                == 0,
        },
{
    match serialized {
        Ok(t) => ok_reply(t),
        Err(m) => error_reply(&StratisError::Serde(m), String::new()),
    }
}

/// Reply to a state report request: the engine's report as JSON text.
pub fn engine_state_report(report: &serde_json::Value) -> (r: Reply<String>)
    ensures
        match json_text_of(*report) {
            Ok(t) => ok_with(r) && r.payload@ == t,
            Err(m) => r.code == ERROR_CODE && r.message@ == serde_prefix() + m && r.payload@.len()
                == 0,
        },
{
    state_report_reply(json_text(report))
}

// ---- create pool ----

/// Message of a redundancy code that names no redundancy.
pub open spec fn redundancy_error(n: u16) -> Seq<char> {
    seq!['c', 'o', 'd', 'e', ' '] + decimal(n as nat) + seq![
        ' ', 'd', 'o', 'e', 's', ' ', 'n', 'o', 't', ' ', 'c', 'o', 'r', 'r', 'e', 's', 'p', 'o',
        'n', 'd', ' ', 't', 'o', ' ', 'a', 'n', 'y', ' ', 'r', 'e', 'd', 'u', 'n', 'd', 'a', 'n',
        'c', 'y',
    ]
}

/// Whether a redundancy argument, `(present, code)`, is refused: only an
/// absent code or code zero is supported.
pub open spec fn bad_redundancy(redundancy: (bool, u16)) -> bool {
    redundancy.0 && redundancy.1 != 0
}

/// An argument that the wire marks present or absent, as an `Option`.
pub fn tuple_to_option<T>(t: (bool, T)) -> (r: Option<T>)
    ensures
        r == (if t.0 { Some(t.1) } else { None::<T> }),
{
    if t.0 {
        Some(t.1)
    } else {
        None
    }
}

/// Whether `r` is what validating a create-pool request owes.
pub open spec fn create_request_ok(
    redundancy: (bool, u16),
    key_desc: (bool, String),
    clevis: (bool, (String, String)),
    r: Result<Option<EncryptionInfo>, Reply<CreatePayload>>,
) -> bool {
    let bad_key = key_desc.0 && !valid_key_description(key_desc.1@);
    let bad_policy = clevis.0 && json_parse(clevis.1.1@) is Err;
    match r {
        Err(rep) => rep.code == ERROR_CODE && is_default_create_payload(rep.payload) && if bad_redundancy(
            redundancy,
        ) {
            rep.message@ == redundancy_error(redundancy.1)
        } else if bad_key {
            rep.message@ == semicolon_error(key_desc.1@)
        } else {
            bad_policy && rep.message@ == serde_prefix() + json_parse(clevis.1.1@)->Err_0
        },
        Ok(None) => !bad_redundancy(redundancy) && !bad_key && !bad_policy && !key_desc.0
            && !clevis.0,
        Ok(Some(info)) => {
            &&& !bad_redundancy(redundancy) && !bad_key && !bad_policy
            &&& key_desc.0 || clevis.0
            &&& info.key_description is Some <==> key_desc.0
            &&& key_desc.0 ==> info.key_description->Some_0@ == key_desc.1@
            &&& info.clevis_info is Some <==> clevis.0
            &&& clevis.0 ==> info.clevis_info->Some_0.0@ == clevis.1.0@ && json_parse(clevis.1.1@)
                == Ok::<serde_json::Value, Seq<char>>(info.clevis_info->Some_0.1)
        },
    }
}

/// Validates a create-pool request before the engine is called: the
/// redundancy code first, then the key description, then the Clevis policy.
/// `Ok` holds the encryption settings to create the pool with (`None`: no
/// encryption); `Err` holds the reply owed without any engine call.
pub fn create_pool_request(
    redundancy: (bool, u16),
    key_desc: (bool, String),
    clevis: (bool, (String, String)),
) -> (r: Result<Option<EncryptionInfo>, Reply<CreatePayload>>)
    ensures
        create_request_ok(redundancy, key_desc, clevis, r),
{
    match tuple_to_option(redundancy) {
        None => {},
        Some(n) => {
            if n != 0 {
                let mut m = String::from_str("code ");
                let d = crate::text::decimal_string(n as u64);
                m.append(d.as_str());
                m.append(" does not correspond to any redundancy");
                proof {
                    reveal_strlit("code ");
                    reveal_strlit(" does not correspond to any redundancy");
                    assert(m@ =~= redundancy_error(n));
                }
                return Err(Reply { payload: default_create_payload(), code: ERROR_CODE, message: m });
            }
        },
    }
    match encryption_params(tuple_to_option(key_desc), tuple_to_option(clevis)) {
        Ok(info) => Ok(info),
        Err(e) => {
            let rep = error_reply(&e, default_create_payload());
            Err(rep)
        },
    }
}

/// What a create-pool request does once the engine has answered.
pub enum CreateStep {
    /// Reply at once.
    Reply(Reply<CreatePayload>),
    /// The engine works in memory: the new pool exists already; publish its
    /// objects and reply with [`sim_pool_created`].
    PublishSim(PoolUuid),
    /// The pool's devices are still being set up: register the pool in the
    /// setup ledger, wait for its record, and reply with what finalizing the
    /// wait gives.
    AwaitSetup(PoolUuid),
}

/// Whether `s` is the step owed for the engine's `outcome`.
pub open spec fn create_step_ok(
    outcome: Result<CreateAction<PoolUuid>, StratisError>,
    is_sim: bool,
    s: CreateStep,
) -> bool {
    match outcome {
        Ok(CreateAction::Created(u)) => if is_sim {
            s == CreateStep::PublishSim(u)
        } else {
            s == CreateStep::AwaitSetup(u)
        },
        Ok(CreateAction::Identity) => s is Reply && ok_with(s->Reply_0) && is_default_create_payload(
            s->Reply_0.payload,
        ),
        Err(e) => s is Reply && failed_with(s->Reply_0, e) && is_default_create_payload(
            s->Reply_0.payload,
        ),
    }
}

/// The step that follows the engine's answer to a create-pool request;
/// `is_sim` says whether the engine works in memory.
pub fn create_pool_step(outcome: Result<CreateAction<PoolUuid>, StratisError>, is_sim: bool) -> (r: CreateStep)
    ensures
        create_step_ok(outcome, is_sim, r),
{
    match outcome {
        Ok(CreateAction::Created(u)) => if is_sim {
            CreateStep::PublishSim(u)
        } else {
            CreateStep::AwaitSetup(u)
        },
        Ok(CreateAction::Identity) => CreateStep::Reply(ok_reply(default_create_payload())),
        Err(e) => CreateStep::Reply(error_reply(&e, default_create_payload())),
    }
}

/// Reply to a create-pool request whose pool the in-memory engine made at
/// once: the pool's object path and those of its block devices.
pub fn sim_pool_created(pool_path: String, blockdev_paths: Vec<String>) -> (r: Reply<CreatePayload>)
    ensures
        is_ok_reply(r, (true, (pool_path, blockdev_paths))),
{
    ok_reply((true, (pool_path, blockdev_paths)))
}

/// Whether a create-pool request's key description is refused.
pub open spec fn bad_create_key(key_desc: (bool, String)) -> bool {
    key_desc.0 && !valid_key_description(key_desc.1@)
}

/// Whether a create-pool request's Clevis policy is refused.
pub open spec fn bad_create_policy(clevis: (bool, (String, String))) -> bool {
    clevis.0 && json_parse(clevis.1.1@) is Err
}

/// Handles a create-pool request. The redundancy code, then the key
/// description, then the Clevis policy are checked; a refused request is
/// replied to at once, without calling `engine`. Otherwise `engine` creates
/// the pool with the validated encryption settings, and its outcome gives the
/// next step; `is_sim` says whether the engine works in memory.
pub fn create_pool<F>(
    redundancy: (bool, u16),
    key_desc: (bool, String),
    clevis: (bool, (String, String)),
    is_sim: bool,
    engine: F,
) -> (r: CreateStep)
    where
        F: FnOnce(Option<EncryptionInfo>) -> Result<CreateAction<PoolUuid>, StratisError>,
    requires
        forall|info: Option<EncryptionInfo>| engine.requires((info,)),
    ensures
        (bad_redundancy(redundancy) || bad_create_key(key_desc) || bad_create_policy(clevis))
            ==> r is Reply && create_request_ok(
            redundancy,
            key_desc,
            clevis,
            Err::<Option<EncryptionInfo>, Reply<CreatePayload>>(r->Reply_0),
        ),
        !(bad_redundancy(redundancy) || bad_create_key(key_desc) || bad_create_policy(clevis))
            ==> exists|info: Option<EncryptionInfo>, o: Result<CreateAction<PoolUuid>, StratisError>|
            #[trigger] engine.ensures((info,), o) && create_request_ok(
            redundancy,
            key_desc,
            clevis,
            Ok::<Option<EncryptionInfo>, Reply<CreatePayload>>(info),
        ) && create_step_ok(o, is_sim, r),
{
    match create_pool_request(redundancy, key_desc, clevis) {
        Err(rep) => CreateStep::Reply(rep),
        Ok(info) => {
            let ghost i = info;
            let o = engine(info);
            let r = create_pool_step(o, is_sim);
            assert(engine.ensures((i,), o) && create_step_ok(o, is_sim, r));
            r
        },
    }
}

/// A pool that the in-memory engine created is replied to at once, with no
/// wait in the setup ledger.
pub proof fn sim_creation_needs_no_wait(u: PoolUuid, s: CreateStep)
    requires
        create_step_ok(Ok(CreateAction::Created(u)), true, s),
    ensures
        !(s is AwaitSetup),
        s == CreateStep::PublishSim(u),
{
}

/// A refused redundancy code is replied to by the create-pool handler at
/// once, naming the code, whatever the key description and policy hold; no
/// engine call is made for it.
pub proof fn bad_redundancy_is_refused(
    redundancy: (bool, u16),
    key_desc: (bool, String),
    clevis: (bool, (String, String)),
    r: CreateStep,
)
    requires
        bad_redundancy(redundancy),
        r is Reply,
        create_request_ok(
            redundancy,
            key_desc,
            clevis,
            Err::<Option<EncryptionInfo>, Reply<CreatePayload>>(r->Reply_0),
        ),
    ensures
        r->Reply_0.code == ERROR_CODE,
        r->Reply_0.message@ == redundancy_error(redundancy.1),
        is_default_create_payload(r->Reply_0.payload),
{
}

} // verus!
