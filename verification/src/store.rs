//! The four operations of the session store, each as a command to send and a
//! reply to read.

use crate::codec::{decode_record, encode_record, is_decoding_failure, stored_record};
use crate::command::{CacheEntry, EntryView, Lookup, Mutation};
use crate::error::{BackendError, BackendErrorKind, StoreError};
use crate::instant::{is_valid_unix_nanos, remaining_seconds, ttl_seconds, UtcInstant};
use crate::key::{is_session_key, session_key};
use crate::record::{RecordView, SessionId, SessionRecord};
use vstd::prelude::*;

verus! {

/// Whether `entry` stands where the entry of `record` stands when it is
/// written at `now`: it has the key of the session, and lives for the whole
/// seconds that are left until the record expires.
pub open spec fn has_key_and_ttl_of(entry: EntryView, record: RecordView, now: int) -> bool {
    &&& is_session_key(entry.key, SessionId(record.id))
    &&& entry.ttl_seconds == remaining_seconds(record.expiry_date, now)
}

/// Whether `entry` is the cache entry of `record` when it is written at
/// `now`: it has the key and the time to live of the record, and its value
/// holds the record.
pub open spec fn is_entry_of(entry: EntryView, record: RecordView, now: int) -> bool {
    &&& has_key_and_ttl_of(entry, record, now)
    &&& stored_record(entry.value) == Some(record)
}

/// Whether `entry` is the cache entry of `record` when it is written at some
/// instant that the clock can show.
pub open spec fn is_entry_of_at_some_instant(entry: EntryView, record: RecordView) -> bool {
    exists|now: int| is_valid_unix_nanos(now) && #[trigger] is_entry_of(entry, record, now)
}

/// The cache entry of a record, given the outcome of its encoding and the
/// instant of writing. A failed encoding is passed on; otherwise the entry
/// holds the given bytes under the key of the session.
pub fn cache_entry(
    record: &SessionRecord,
    encoded: Result<Vec<u8>, StoreError>,
    now: UtcInstant,
) -> (entry: Result<CacheEntry, StoreError>)
    ensures
        match encoded {
            Ok(bytes) => {
                &&& entry matches Ok(e)
                &&& e.value@ == bytes@
                &&& has_key_and_ttl_of(e@, record@, now@)
            },
            Err(failure) => entry == Err::<CacheEntry, StoreError>(failure),
        },
{
    match encoded {
        Ok(value) => Ok(
            CacheEntry {
                key: session_key(record.id),
                value,
                ttl_seconds: ttl_seconds(record.expiry_date, now),
            },
        ),
        Err(failure) => Err(failure),
    }
}

/// The cache entry of a record that is written at `now`. It fails only as an
/// encoding failure.
pub fn convert_record_at(record: &SessionRecord, now: UtcInstant) -> (entry: Result<
    CacheEntry,
    StoreError,
>)
    ensures
        match entry {
            Ok(e) => is_entry_of(e@, record@, now@),
            Err(failure) => failure is Encode,
        },
{
    cache_entry(record, encode_record(record), now)
}

/// The cache entry of a record that is written now, by the system clock. It
/// fails only as an encoding failure.
pub fn convert_record(record: &SessionRecord) -> (entry: Result<CacheEntry, StoreError>)
    ensures
        match entry {
            Ok(e) => is_entry_of_at_some_instant(e@, record@),
            Err(failure) => failure is Encode,
        },
{
    let now = UtcInstant::now();
    let entry = convert_record_at(record, now);
    proof {
        if let Ok(e) = &entry {
            assert(is_valid_unix_nanos(now@) && is_entry_of(e@, record@, now@));
        }
    }
    entry
}

/// Create: the command that writes the record unless the cache holds an
/// entry for its session already. It fails only as an encoding failure.
pub fn create(record: &SessionRecord) -> (command: Result<Mutation, StoreError>)
    ensures
        match command {
            Ok(mutation) => {
                &&& mutation matches Mutation::Add(e)
                &&& is_entry_of_at_some_instant(e@, record@)
            },
            Err(failure) => failure is Encode,
        },
{
    match convert_record(record) {
        Ok(entry) => Ok(Mutation::Add(entry)),
        Err(failure) => Err(failure),
    }
}

/// Save: the command that writes the record, whether or not the cache holds
/// an entry for its session. It fails only as an encoding failure.
pub fn save(record: &SessionRecord) -> (command: Result<Mutation, StoreError>)
    ensures
        match command {
            Ok(mutation) => {
                &&& mutation matches Mutation::Store(e)
                &&& is_entry_of_at_some_instant(e@, record@)
            },
            Err(failure) => failure is Encode,
        },
{
    match convert_record(record) {
        Ok(entry) => Ok(Mutation::Store(entry)),
        Err(failure) => Err(failure),
    }
}

/// Load: the command that reads the entry of a session.
pub fn load(session_id: SessionId) -> (command: Lookup)
    ensures
        is_session_key(command.key@, session_id),
{
    Lookup { key: session_key(session_id) }
}

/// Delete: the command that removes the entry of a session.
pub fn delete(session_id: SessionId) -> (command: Mutation)
    ensures
        command matches Mutation::Delete(key) && is_session_key(key@, session_id),
{
    Mutation::Delete(session_key(session_id))
}

/// Whether `result` is what create, save and delete make of `reply`: success
/// stays success, and a failure of whatever kind becomes a backend failure
/// with the same message.
pub open spec fn is_write_result(
    reply: Result<(), BackendError>,
    result: Result<(), StoreError>,
) -> bool {
    match reply {
        Ok(_) => result is Ok,
        Err(failure) => {
            &&& result matches Err(StoreError::Backend(message))
            &&& message@ == failure.message@
        },
    }
}

/// Whether `result` is what load makes of `reply`: bytes give the record that
/// they hold, or a decoding failure where they hold none; that there is no
/// entry gives `None`; any other failure becomes a backend failure with the
/// same message.
pub open spec fn is_load_result(
    reply: Result<Vec<u8>, BackendError>,
    result: Result<Option<SessionRecord>, StoreError>,
) -> bool {
    match reply {
        Ok(bytes) => match stored_record(bytes@) {
            Some(record) => result matches Ok(Some(r)) && r@ == record,
            None => result matches Err(failure) && is_decoding_failure(bytes@, failure),
        },
        Err(failure) => if failure.kind is NotFound {
            result matches Ok(None)
        } else {
            &&& result matches Err(StoreError::Backend(message))
            &&& message@ == failure.message@
        },
    }
}

/// The result of create, save or delete, given the reply to its command. A
/// create that finds an entry in its way is not told apart from a broken
/// connection: both are backend failures.
pub fn write_result(reply: Result<(), BackendError>) -> (result: Result<(), StoreError>)
    ensures
        is_write_result(reply, result),
{
    match reply {
        Ok(_) => Ok(()),
        Err(failure) => Err(StoreError::Backend(failure.message)),
    }
}

/// The result of load, given the reply to its command. That there is no
/// entry is no error: the result is then `None`.
pub fn load_result(reply: Result<Vec<u8>, BackendError>) -> (result: Result<
    Option<SessionRecord>,
    StoreError,
>)
    ensures
        is_load_result(reply, result),
{
    match reply {
        Ok(bytes) => match decode_record(bytes.as_slice()) {
            Ok(record) => Ok(Some(record)),
            Err(failure) => Err(failure),
        },
        Err(failure) => match failure.kind {
            BackendErrorKind::NotFound => Ok(None),
            _ => Err(StoreError::Backend(failure.message)),
        },
    }
}

} // verus!
