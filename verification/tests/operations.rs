use memcache_session_store::codec::{decode_record, encode_record};
use memcache_session_store::command::{CacheEntry, Lookup, Mutation};
use memcache_session_store::error::{BackendError, BackendErrorKind, StoreError};
use memcache_session_store::instant::{UtcInstant, MAX_UNIX_NANOS, MIN_UNIX_NANOS, NANOS_PER_SECOND};
use memcache_session_store::record::{SessionId, SessionRecord};
use memcache_session_store::store::{
    cache_entry, convert_record, convert_record_at, create, delete, load, load_result, save,
    write_result,
};
use serde_json::Value;
use std::collections::HashMap;

fn at(unix_nanos: i128) -> UtcInstant {
    UtcInstant::from_unix_nanos(unix_nanos).expect("instant in range")
}

fn record(id: i128, expiry_unix_nanos: i128) -> SessionRecord {
    let mut data = HashMap::new();
    data.insert("user".to_string(), Value::from("ferris"));
    data.insert("visits".to_string(), Value::from(3));
    SessionRecord { id: SessionId(id), data, expiry_date: at(expiry_unix_nanos) }
}

fn failure(kind: BackendErrorKind, message: &str) -> BackendError {
    BackendError { kind, message: message.to_string() }
}

#[test]
fn entry_has_key_value_and_ttl() {
    let r = record(1, 1_700_000_090 * NANOS_PER_SECOND + 5);
    let entry = convert_record_at(&r, at(1_700_000_000 * NANOS_PER_SECOND + 6)).unwrap();
    assert_eq!(entry.key, "AQAAAAAAAAAAAAAAAAAAAA");
    assert_eq!(entry.ttl_seconds, 89);
    assert_eq!(decode_record(&entry.value), Ok(r));
}

#[test]
fn entry_of_an_expired_record_has_ttl_zero() {
    let r = record(1, 1_600_000_000 * NANOS_PER_SECOND);
    let entry = convert_record_at(&r, at(1_700_000_000 * NANOS_PER_SECOND)).unwrap();
    assert_eq!(entry.ttl_seconds, 0);
    assert_eq!(entry.key, "AQAAAAAAAAAAAAAAAAAAAA");
    assert_eq!(decode_record(&entry.value), Ok(r));
}

#[test]
fn entry_is_built_from_the_encoding_it_is_given() {
    let r = record(0, 10 * NANOS_PER_SECOND);
    let entry = cache_entry(&r, Ok(vec![1, 2, 3]), at(0));
    assert_eq!(
        entry,
        Ok(CacheEntry { key: "AAAAAAAAAAAAAAAAAAAAAA".to_string(), value: vec![1, 2, 3], ttl_seconds: 10 })
    );
}

#[test]
fn entry_passes_a_failed_encoding_on() {
    let r = record(0, 10 * NANOS_PER_SECOND);
    let entry = cache_entry(&r, Err(StoreError::Encode("depth limit exceeded".to_string())), at(0));
    assert_eq!(entry, Err(StoreError::Encode("depth limit exceeded".to_string())));
}

#[test]
fn entry_written_now_lives_until_the_expiry_date() {
    let now = time::OffsetDateTime::now_utc().unix_timestamp_nanos();
    let r = record(7, now + 3600 * NANOS_PER_SECOND);
    let entry = convert_record(&r).unwrap();
    assert!(entry.ttl_seconds <= 3600);
    assert!(entry.ttl_seconds >= 3590);
    assert_eq!(entry.key, "BwAAAAAAAAAAAAAAAAAAAA");
    assert_eq!(decode_record(&entry.value), Ok(r));
}

#[test]
fn entry_written_now_of_an_expired_record_has_ttl_zero() {
    assert_eq!(convert_record(&record(7, 0)).unwrap().ttl_seconds, 0);
    assert_eq!(convert_record(&record(7, MIN_UNIX_NANOS)).unwrap().ttl_seconds, 0);
}

#[test]
fn entry_written_now_of_the_last_instant() {
    let now = time::OffsetDateTime::now_utc().unix_timestamp();
    let entry = convert_record(&record(7, MAX_UNIX_NANOS)).unwrap();
    let expected = (253_402_300_799 - now) as u64;
    assert!(entry.ttl_seconds <= expected);
    assert!(entry.ttl_seconds + 10 >= expected);
    assert!(entry.ttl_seconds > u32::MAX as u64);
}

#[test]
fn create_adds() {
    let now = time::OffsetDateTime::now_utc().unix_timestamp_nanos();
    let r = record(2, now + 60 * NANOS_PER_SECOND);
    match create(&r) {
        Ok(Mutation::Add(entry)) => {
            assert_eq!(entry.key, "AgAAAAAAAAAAAAAAAAAAAA");
            assert!(entry.ttl_seconds == 59 || entry.ttl_seconds == 60);
            assert_eq!(decode_record(&entry.value), Ok(r));
        }
        other => panic!("{:?}", other),
    }
}

#[test]
fn save_stores() {
    let now = time::OffsetDateTime::now_utc().unix_timestamp_nanos();
    let r = record(2, now + 60 * NANOS_PER_SECOND);
    match save(&r) {
        Ok(Mutation::Store(entry)) => {
            assert_eq!(entry.key, "AgAAAAAAAAAAAAAAAAAAAA");
            assert!(entry.ttl_seconds == 59 || entry.ttl_seconds == 60);
            assert_eq!(decode_record(&entry.value), Ok(r));
        }
        other => panic!("{:?}", other),
    }
}

#[test]
fn load_looks_the_key_up() {
    assert_eq!(load(SessionId(2)), Lookup { key: "AgAAAAAAAAAAAAAAAAAAAA".to_string() });
}

#[test]
fn delete_removes_the_key() {
    assert_eq!(delete(SessionId(2)), Mutation::Delete("AgAAAAAAAAAAAAAAAAAAAA".to_string()));
}

#[test]
fn write_succeeds_when_the_command_did() {
    assert_eq!(write_result(Ok(())), Ok(()));
}

#[test]
fn write_fails_as_backend_failure() {
    assert_eq!(
        write_result(Err(failure(BackendErrorKind::AlreadyExists, "entity already exists"))),
        Err(StoreError::Backend("entity already exists".to_string()))
    );
    assert_eq!(
        write_result(Err(failure(BackendErrorKind::NotFound, "entity not found"))),
        Err(StoreError::Backend("entity not found".to_string()))
    );
    assert_eq!(
        write_result(Err(failure(BackendErrorKind::Other, "broken pipe"))),
        Err(StoreError::Backend("broken pipe".to_string()))
    );
}

#[test]
fn load_gives_the_record_that_the_bytes_hold() {
    let r = record(11, 1_700_000_000 * NANOS_PER_SECOND);
    let bytes = encode_record(&r).unwrap();
    assert_eq!(load_result(Ok(bytes)), Ok(Some(r)));
}

#[test]
fn load_of_a_miss_gives_none() {
    assert_eq!(load_result(Err(failure(BackendErrorKind::NotFound, "entity not found"))), Ok(None));
    assert_eq!(load_result(Err(failure(BackendErrorKind::NotFound, ""))), Ok(None));
}

#[test]
fn load_fails_as_backend_failure() {
    assert_eq!(
        load_result(Err(failure(BackendErrorKind::Other, "SERVER_ERROR out of memory"))),
        Err(StoreError::Backend("SERVER_ERROR out of memory".to_string()))
    );
    assert_eq!(
        load_result(Err(failure(BackendErrorKind::AlreadyExists, "entity already exists"))),
        Err(StoreError::Backend("entity already exists".to_string()))
    );
}

#[test]
fn load_of_damaged_bytes_is_a_decoding_failure() {
    let bytes = encode_record(&record(11, 1_700_000_000 * NANOS_PER_SECOND)).unwrap();
    assert!(matches!(load_result(Ok(Vec::new())), Err(StoreError::Decode(_))));
    assert!(matches!(load_result(Ok(bytes[..bytes.len() - 1].to_vec())), Err(StoreError::Decode(_))));
    assert!(matches!(load_result(Ok(bytes[..1].to_vec())), Err(StoreError::Decode(_))));
    assert!(matches!(load_result(Ok(vec![0xc1; 8])), Err(StoreError::Decode(_))));
    assert!(matches!(load_result(Ok(vec![0xc0])), Err(StoreError::Decode(_))));
}

#[test]
fn expiration_is_the_ttl_where_it_fits() {
    let entry = |ttl_seconds: u64| CacheEntry { key: String::new(), value: Vec::new(), ttl_seconds };
    assert_eq!(entry(0).expiration(), 0);
    assert_eq!(entry(90).expiration(), 90);
    assert_eq!(entry(4_294_967_295).expiration(), u32::MAX);
}

#[test]
fn expiration_of_a_longer_ttl_is_the_longest_that_fits() {
    let entry = |ttl_seconds: u64| CacheEntry { key: String::new(), value: Vec::new(), ttl_seconds };
    assert_eq!(entry(4_294_967_296).expiration(), u32::MAX);
    assert_eq!(entry(4_294_967_301).expiration(), u32::MAX);
    assert_eq!(entry(631_107_417_599).expiration(), u32::MAX);
    assert_eq!(entry(u64::MAX).expiration(), u32::MAX);
}

#[test]
fn expiration_never_shrinks_as_the_ttl_grows() {
    let entry = |ttl_seconds: u64| CacheEntry { key: String::new(), value: Vec::new(), ttl_seconds };
    let mut last = 0;
    for ttl in [0, 1, 4_294_967_294, 4_294_967_295, 4_294_967_296, 8_589_934_591, u64::MAX] {
        let expiration = entry(ttl).expiration();
        assert!(expiration >= last);
        last = expiration;
    }
}

#[test]
fn entries_of_one_record_differ_in_the_ttl_alone() {
    let r = record(21, 1_700_000_100 * NANOS_PER_SECOND);
    let early = convert_record_at(&r, at(1_700_000_000 * NANOS_PER_SECOND)).unwrap();
    let late = convert_record_at(&r, at(1_700_000_040 * NANOS_PER_SECOND)).unwrap();
    assert_eq!(early.key, late.key);
    assert_eq!(early.ttl_seconds, 100);
    assert_eq!(late.ttl_seconds, 60);
    assert_eq!(decode_record(&early.value), Ok(r.clone()));
    assert_eq!(decode_record(&late.value), Ok(r));
}

#[test]
fn create_and_save_send_the_same_record_under_the_same_key() {
    let now = time::OffsetDateTime::now_utc().unix_timestamp_nanos();
    let r = record(22, now + 600 * NANOS_PER_SECOND);
    match (create(&r), save(&r)) {
        (Ok(Mutation::Add(added)), Ok(Mutation::Store(stored))) => {
            assert_eq!(added.key, stored.key);
            assert_eq!(decode_record(&added.value), decode_record(&stored.value));
            assert_eq!(decode_record(&added.value), Ok(r));
            assert!(added.ttl_seconds >= stored.ttl_seconds);
            assert!(added.ttl_seconds <= stored.ttl_seconds + 1);
        }
        other => panic!("{:?}", other),
    }
}
