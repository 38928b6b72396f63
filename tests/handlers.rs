use stratis_manager::action::{CreateAction, DeleteAction, MappingCreateAction, MappingDeleteAction};
use stratis_manager::encryption::KeyDescription;
use stratis_manager::error::StratisError;
use stratis_manager::encryption::{EncryptionInfo, UnlockMethod};
use stratis_manager::methods::{
    create_pool, create_pool_request, create_pool_step, destroy_pool, engine_state_report,
    list_keys, set_key, set_key_reply, sim_pool_created, state_report_reply, unlock_pool,
    unlock_pool_reply, unlock_pool_request, unset_key, unset_key_reply, CreateStep,
};
use stratis_manager::pool_uuid::PoolUuid;

fn key(s: &str) -> KeyDescription {
    KeyDescription::try_from(s.to_string()).ok().unwrap()
}

#[test]
fn unset_missing_key_twice_is_success() {
    for _ in 0..2 {
        let r = unset_key_reply(Ok(MappingDeleteAction::Identity));
        assert!(!r.payload);
        assert_eq!(r.code, 0);
        assert_eq!(r.message, "Ok");
    }
}

#[test]
fn unset_existing_key_reports_deleted() {
    let r = unset_key_reply(Ok(MappingDeleteAction::Deleted(key("k1"))));
    assert!(r.payload);
    assert_eq!(r.code, 0);
}

#[test]
fn unset_key_engine_error() {
    let r = unset_key_reply(Err(StratisError::Msg("keyring unavailable".to_string())));
    assert!(!r.payload);
    assert_eq!(r.code, 1);
    assert_eq!(r.message, "keyring unavailable");
}

#[test]
fn set_key_mapping() {
    assert_eq!(set_key_reply(Ok(MappingCreateAction::Created(key("k")))).payload, (true, false));
    assert_eq!(set_key_reply(Ok(MappingCreateAction::ValueChanged(key("k")))).payload, (true, true));
    let again = set_key_reply(Ok(MappingCreateAction::Identity));
    assert_eq!(again.payload, (false, false));
    assert_eq!(again.code, 0);
    let failed = set_key_reply(Err(StratisError::Msg("no".to_string())));
    assert_eq!(failed.payload, (false, false));
    assert_eq!(failed.code, 1);
}

#[test]
fn destroy_unknown_pool_is_success() {
    let r = destroy_pool(None);
    assert!(!r.payload.0);
    assert_eq!(r.payload.1, "00000000000000000000000000000000");
    assert_eq!(r.code, 0);
    assert_eq!(r.message, "Ok");
}

#[test]
fn destroy_pool_outcomes() {
    let u = PoolUuid { bits: 0x550e8400e29b41d4a716446655440000 };
    let r = destroy_pool(Some(Ok(DeleteAction::Deleted(u))));
    assert!(r.payload.0);
    assert_eq!(r.payload.1, "550e8400e29b41d4a716446655440000");
    assert_eq!(r.code, 0);
    let r = destroy_pool(Some(Ok(DeleteAction::Identity)));
    assert!(!r.payload.0);
    assert_eq!(r.code, 0);
    let r = destroy_pool(Some(Err(StratisError::Msg("busy".to_string()))));
    assert!(!r.payload.0);
    assert_eq!(r.code, 1);
    assert_eq!(r.message, "busy");
}

#[test]
fn create_pool_rejects_redundancy_seven() {
    let r = create_pool_request(
        (true, 7),
        (false, String::new()),
        (false, (String::new(), String::new())),
    );
    match r {
        Err(rep) => {
            assert_eq!(rep.code, 1);
            assert_eq!(rep.message, "code 7 does not correspond to any redundancy");
            assert!(rep.message.contains('7'));
            assert!(!rep.payload.0);
            assert_eq!(rep.payload.1 .0, "/");
            assert!(rep.payload.1 .1.is_empty());
        }
        Ok(_) => panic!("redundancy 7 accepted"),
    }
}

#[test]
fn create_pool_redundancy_checked_before_encryption() {
    let r = create_pool_request(
        (true, 300),
        (true, "bad;key".to_string()),
        (true, ("tang".to_string(), "{".to_string())),
    );
    match r {
        Err(rep) => assert_eq!(rep.message, "code 300 does not correspond to any redundancy"),
        Ok(_) => panic!("accepted"),
    }
}

#[test]
fn create_pool_default_redundancy_without_encryption() {
    assert!(matches!(
        create_pool_request((false, 9), (false, String::new()), (false, (String::new(), String::new()))),
        Ok(None)
    ));
    assert!(matches!(
        create_pool_request((true, 0), (false, String::new()), (false, (String::new(), String::new()))),
        Ok(None)
    ));
}

#[test]
fn create_pool_with_key_and_clevis() {
    let r = create_pool_request(
        (false, 0),
        (true, "mykey".to_string()),
        (true, ("tang".to_string(), "{\"url\": \"http://tang\", \"stratis:tang:trust_url\": true}".to_string())),
    );
    match r {
        Ok(Some(info)) => {
            assert_eq!(info.key_description.unwrap().as_application_str(), "mykey");
            let (pin, policy) = info.clevis_info.unwrap();
            assert_eq!(pin, "tang");
            assert_eq!(policy["url"], serde_json::Value::String("http://tang".to_string()));
        }
        _ => panic!("valid encryption refused"),
    }
}

#[test]
fn create_pool_bad_key_description() {
    let r = create_pool_request((false, 0), (true, "a;b".to_string()), (false, (String::new(), String::new())));
    match r {
        Err(rep) => {
            assert_eq!(rep.code, 1);
            assert_eq!(rep.message, "Key description a;b contains a semicolon which is not allowed");
        }
        Ok(_) => panic!("accepted"),
    }
}

#[test]
fn create_pool_bad_clevis_policy() {
    let r = create_pool_request((false, 0), (false, String::new()), (true, ("tang".to_string(), "{not json".to_string())));
    match r {
        Err(rep) => {
            assert_eq!(rep.code, 1);
            assert!(rep.message.starts_with("JSON error: "));
            assert!(rep.message.len() > "JSON error: ".len());
            assert!(!rep.message.contains("{not json"));
        }
        Ok(_) => panic!("accepted"),
    }
}

#[test]
fn create_pool_sim_path_replies_at_once() {
    let u = PoolUuid { bits: 42 };
    match create_pool_step(Ok(CreateAction::Created(u)), true) {
        CreateStep::PublishSim(v) => assert!(v == u),
        _ => panic!("sim creation must not wait"),
    }
    let r = sim_pool_created(
        "/org/storage/pool/1".to_string(),
        vec!["/org/storage/dev/1".to_string(), "/org/storage/dev/2".to_string()],
    );
    assert!(r.payload.0);
    assert_eq!(r.payload.1 .0, "/org/storage/pool/1");
    assert_eq!(r.payload.1 .1.len(), 2);
    assert_eq!(r.code, 0);
}

#[test]
fn create_pool_real_engine_waits() {
    let u = PoolUuid { bits: 7 };
    assert!(matches!(create_pool_step(Ok(CreateAction::Created(u)), false), CreateStep::AwaitSetup(v) if v == u));
}

#[test]
fn create_pool_identity_and_error() {
    match create_pool_step(Ok(CreateAction::Identity), false) {
        CreateStep::Reply(r) => {
            assert!(!r.payload.0);
            assert_eq!(r.code, 0);
        }
        _ => panic!("identity must reply"),
    }
    match create_pool_step(Err(StratisError::Msg("no devices".to_string())), true) {
        CreateStep::Reply(r) => {
            assert_eq!(r.code, 1);
            assert_eq!(r.message, "no devices");
            assert_eq!(r.payload.1 .0, "/");
        }
        _ => panic!("error must reply"),
    }
}

#[test]
fn unlock_request_parses() {
    match unlock_pool_request("550e8400-e29b-41d4-a716-446655440000", "keyring") {
        Ok((u, m)) => {
            assert!(u.bits == 0x550e8400e29b41d4a716446655440000);
            assert!(m == stratis_manager::encryption::UnlockMethod::Keyring);
        }
        Err(_) => panic!("refused"),
    }
    assert!(matches!(
        unlock_pool_request("550e8400e29b41d4a716446655440000", "clevis"),
        Ok((_, stratis_manager::encryption::UnlockMethod::Clevis))
    ));
}

#[test]
fn unlock_request_malformed_uuid() {
    match unlock_pool_request("not-a-uuid", "keyring") {
        Err(rep) => {
            assert_eq!(rep.code, 1);
            assert!(rep.message.starts_with("Malformed UUID passed to UnlockPool; caused by: UUID error: "));
            assert!(rep.message.len() > "Malformed UUID passed to UnlockPool; caused by: UUID error: ".len());
            assert!(!rep.payload.0);
        }
        Ok(_) => panic!("accepted"),
    }
}

#[test]
fn unlock_request_bad_method() {
    match unlock_pool_request("550e8400-e29b-41d4-a716-446655440000", "tpm") {
        Err(rep) => {
            assert_eq!(rep.code, 1);
            assert_eq!(rep.message, "tpm is an invalid unlock method");
        }
        Ok(_) => panic!("accepted"),
    }
}

#[test]
fn unlock_pool_reports_changed() {
    let r = unlock_pool_reply(Ok(vec![PoolUuid { bits: 1 }, PoolUuid { bits: 0xff }]));
    assert!(r.payload.0);
    assert_eq!(
        r.payload.1,
        vec!["00000000000000000000000000000001".to_string(), "000000000000000000000000000000ff".to_string()]
    );
    let r = unlock_pool_reply(Ok(vec![]));
    assert!(!r.payload.0);
    assert!(r.payload.1.is_empty());
    assert_eq!(r.code, 0);
    let r = unlock_pool_reply(Err(StratisError::Msg("locked".to_string())));
    assert_eq!(r.code, 1);
}

#[test]
fn list_keys_texts() {
    let r = list_keys(Ok(vec![key("a"), key("b")]));
    assert_eq!(r.payload, vec!["a".to_string(), "b".to_string()]);
    assert_eq!(r.code, 0);
    let r = list_keys(Err(StratisError::Msg("x".to_string())));
    assert!(r.payload.is_empty());
    assert_eq!(r.code, 1);
}

#[test]
fn state_report_serializes() {
    let mut m = serde_json::Map::new();
    m.insert("pools".to_string(), serde_json::Value::Array(vec![]));
    let r = engine_state_report(&serde_json::Value::Object(m));
    assert_eq!(r.code, 0);
    assert_eq!(r.payload, "{\"pools\":[]}");
    let r = state_report_reply(Err("bad".to_string()));
    assert_eq!(r.code, 1);
    assert_eq!(r.message, "JSON error: bad");
    assert!(r.payload.is_empty());
}

fn no_create_engine(_: Option<EncryptionInfo>) -> Result<CreateAction<PoolUuid>, StratisError> {
    panic!("the engine must not be called")
}

fn no_key_engine(_: KeyDescription) -> Result<MappingCreateAction<KeyDescription>, StratisError> {
    panic!("the engine must not be called")
}

fn no_unset_engine(_: KeyDescription) -> Result<MappingDeleteAction<KeyDescription>, StratisError> {
    panic!("the engine must not be called")
}

fn no_unlock_engine(_: PoolUuid, _: UnlockMethod) -> Result<Vec<PoolUuid>, StratisError> {
    panic!("the engine must not be called")
}

#[test]
fn create_pool_redundancy_seven_never_calls_engine() {
    let step = create_pool(
        (true, 7),
        (false, String::new()),
        (false, (String::new(), String::new())),
        false,
        no_create_engine,
    );
    match step {
        CreateStep::Reply(rep) => {
            assert_eq!(rep.code, 1);
            assert_eq!(rep.message, "code 7 does not correspond to any redundancy");
            assert!(!rep.payload.0);
        }
        _ => panic!("refused request must reply at once"),
    }
}

#[test]
fn create_pool_bad_key_never_calls_engine() {
    let step = create_pool((false, 0), (true, "x;y".to_string()), (true, ("tang".to_string(), "{".to_string())), true, no_create_engine);
    match step {
        CreateStep::Reply(rep) => {
            assert_eq!(rep.code, 1);
            assert_eq!(rep.message, "Key description x;y contains a semicolon which is not allowed");
        }
        _ => panic!("refused request must reply at once"),
    }
}

#[test]
fn create_pool_bad_policy_never_calls_engine() {
    let step = create_pool((false, 0), (false, String::new()), (true, ("tang".to_string(), "[1,".to_string())), true, no_create_engine);
    match step {
        CreateStep::Reply(rep) => {
            assert_eq!(rep.code, 1);
            assert!(rep.message.starts_with("JSON error: "));
        }
        _ => panic!("refused request must reply at once"),
    }
}

#[test]
fn create_pool_passes_encryption_to_engine() {
    let u = PoolUuid { bits: 5 };
    let step = create_pool(
        (true, 0),
        (true, "k1".to_string()),
        (false, (String::new(), String::new())),
        false,
        |info: Option<EncryptionInfo>| {
            let info = info.unwrap();
            assert_eq!(info.key_description.unwrap().as_application_str(), "k1");
            assert!(info.clevis_info.is_none());
            Ok(CreateAction::Created(PoolUuid { bits: 5 }))
        },
    );
    assert!(matches!(step, CreateStep::AwaitSetup(v) if v == u));
    let step = create_pool(
        (false, 0),
        (false, String::new()),
        (false, (String::new(), String::new())),
        true,
        |info: Option<EncryptionInfo>| {
            assert!(info.is_none());
            Ok(CreateAction::Created(PoolUuid { bits: 6 }))
        },
    );
    assert!(matches!(step, CreateStep::PublishSim(v) if v.bits == 6));
}

#[test]
fn set_key_handler() {
    let r = set_key("a;b".to_string(), no_key_engine);
    assert_eq!(r.code, 1);
    assert_eq!(r.payload, (false, false));
    assert_eq!(r.message, "Key description a;b contains a semicolon which is not allowed");
    let r = set_key("k".to_string(), |kd: KeyDescription| Ok(MappingCreateAction::ValueChanged(kd)));
    assert_eq!(r.payload, (true, true));
    assert_eq!(r.code, 0);
}

#[test]
fn unset_key_handler() {
    let r = unset_key("a;b".to_string(), no_unset_engine);
    assert_eq!(r.code, 1);
    assert!(!r.payload);
    for _ in 0..2 {
        let r = unset_key("never-set".to_string(), |_: KeyDescription| Ok(MappingDeleteAction::Identity));
        assert_eq!(r.code, 0);
        assert!(!r.payload);
    }
}

#[test]
fn unlock_pool_handler() {
    let r = unlock_pool("bogus", "keyring", no_unlock_engine);
    assert_eq!(r.code, 1);
    assert!(r.message.starts_with("Malformed UUID passed to UnlockPool; caused by: UUID error: "));
    let r = unlock_pool("550e8400-e29b-41d4-a716-446655440000", "tpm", no_unlock_engine);
    assert_eq!(r.code, 1);
    assert_eq!(r.message, "tpm is an invalid unlock method");
    let r = unlock_pool("550e8400-e29b-41d4-a716-446655440000", "clevis", |u: PoolUuid, m: UnlockMethod| {
        assert!(m == UnlockMethod::Clevis);
        Ok(vec![u])
    });
    assert_eq!(r.code, 0);
    assert!(r.payload.0);
    assert_eq!(r.payload.1, vec!["550e8400e29b41d4a716446655440000".to_string()]);
}
