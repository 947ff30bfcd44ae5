//! What holds over the life of a session: how the results of successive
//! operations hang together when the backend is a cache that keeps what it
//! is given.

use crate::codec::stored_record;
use crate::command::{EntryView, MutationView};
use crate::error::{BackendError, StoreError};
use crate::key::{is_session_key, keys_of_different_sessions_differ};
use crate::memory::{accepts, after, is_lookup_reply, is_mutation_reply, CacheModel};
use crate::record::{RecordView, SessionId, SessionRecord};
use crate::store::{is_entry_of, is_entry_of_at_some_instant, is_load_result, is_write_result};
use vstd::prelude::*;

verus! {

/// A create for a session that was created before fails, and it fails as a
/// backend failure: whatever the cache held at first, whatever the two
/// records hold and whenever they were written, once the first create has
/// been answered the entry of the session stands in the way of the second.
pub proof fn second_create_is_a_backend_failure(
    cache: CacheModel,
    first: RecordView,
    first_entry: EntryView,
    second: RecordView,
    second_entry: EntryView,
    reply: Result<(), BackendError>,
    result: Result<(), StoreError>,
)
    requires
        first.id == second.id,
        is_entry_of_at_some_instant(first_entry, first),
        is_entry_of_at_some_instant(second_entry, second),
        is_mutation_reply(
            after(cache, MutationView::Add(first_entry)),
            MutationView::Add(second_entry),
            reply,
        ),
        is_write_result(reply, result),
    ensures
        result matches Err(failure) && failure is Backend,
        after(after(cache, MutationView::Add(first_entry)), MutationView::Add(second_entry))
            == after(cache, MutationView::Add(first_entry)),
{
}

/// A save always succeeds at the cache, and after two saves for one session
/// the cache holds under the key of the session the bytes of the second, so
/// that a lookup is answered with them.
pub proof fn second_save_replaces_the_first(
    cache: CacheModel,
    first: RecordView,
    first_entry: EntryView,
    second: RecordView,
    second_entry: EntryView,
    save_reply: Result<(), BackendError>,
    save_result: Result<(), StoreError>,
    lookup_reply: Result<Vec<u8>, BackendError>,
)
    requires
        first.id == second.id,
        is_entry_of_at_some_instant(first_entry, first),
        is_entry_of_at_some_instant(second_entry, second),
        is_mutation_reply(
            after(cache, MutationView::Store(first_entry)),
            MutationView::Store(second_entry),
            save_reply,
        ),
        is_write_result(save_reply, save_result),
        is_lookup_reply(
            after(after(cache, MutationView::Store(first_entry)), MutationView::Store(second_entry)),
            second_entry.key,
            lookup_reply,
        ),
    ensures
        save_result is Ok,
        first_entry.key == second_entry.key,
        after(after(cache, MutationView::Store(first_entry)), MutationView::Store(second_entry))[second_entry.key]
            == second_entry.value,
        lookup_reply matches Ok(bytes) && bytes@ == second_entry.value,
{
}

/// A load after a save gives the saved record back.
pub proof fn load_after_save_gives_the_record_back(
    cache: CacheModel,
    record: RecordView,
    entry: EntryView,
    lookup_reply: Result<Vec<u8>, BackendError>,
    result: Result<Option<SessionRecord>, StoreError>,
)
    requires
        is_entry_of_at_some_instant(entry, record),
        is_lookup_reply(after(cache, MutationView::Store(entry)), entry.key, lookup_reply),
        is_load_result(lookup_reply, result),
    ensures
        lookup_reply matches Ok(bytes) && bytes@ == entry.value,
        result matches Ok(Some(loaded)) && loaded@ == record,
{
}

/// A load after a create that the cache accepted gives the created record
/// back.
pub proof fn load_after_create_gives_the_record_back(
    cache: CacheModel,
    record: RecordView,
    entry: EntryView,
    lookup_reply: Result<Vec<u8>, BackendError>,
    result: Result<Option<SessionRecord>, StoreError>,
)
    requires
        is_entry_of_at_some_instant(entry, record),
        accepts(cache, MutationView::Add(entry)),
        is_lookup_reply(after(cache, MutationView::Add(entry)), entry.key, lookup_reply),
        is_load_result(lookup_reply, result),
    ensures
        lookup_reply matches Ok(bytes) && bytes@ == entry.value,
        result matches Ok(Some(loaded)) && loaded@ == record,
{
}

/// Two entries of one record, whenever they were written, have the same key
/// and hold the same record. Written at the same instant they also have the
/// same time to live.
pub proof fn entries_of_one_record_agree(
    record: RecordView,
    first_entry: EntryView,
    first_now: int,
    second_entry: EntryView,
    second_now: int,
)
    requires
        is_entry_of(first_entry, record, first_now),
        is_entry_of(second_entry, record, second_now),
    ensures
        first_entry.key == second_entry.key,
        first_now == second_now ==> first_entry.ttl_seconds == second_entry.ttl_seconds,
        stored_record(first_entry.value) == stored_record(second_entry.value),
{
}

/// A load for a session of which the cache holds no entry gives `None`, and
/// no error.
pub proof fn load_of_absent_session_finds_nothing(
    cache: CacheModel,
    session_id: SessionId,
    key: Seq<char>,
    reply: Result<Vec<u8>, BackendError>,
    result: Result<Option<SessionRecord>, StoreError>,
)
    requires
        is_session_key(key, session_id),
        !cache.dom().contains(key),
        is_lookup_reply(cache, key, reply),
        is_load_result(reply, result),
    ensures
        result matches Ok(None),
{
}

/// A delete always succeeds at the cache, whether or not there was an entry,
/// and a load that follows it gives `None`.
pub proof fn load_after_delete_finds_nothing(
    cache: CacheModel,
    session_id: SessionId,
    key: Seq<char>,
    delete_reply: Result<(), BackendError>,
    delete_result: Result<(), StoreError>,
    lookup_reply: Result<Vec<u8>, BackendError>,
    load_result: Result<Option<SessionRecord>, StoreError>,
)
    requires
        is_session_key(key, session_id),
        is_mutation_reply(cache, MutationView::Delete(key), delete_reply),
        is_write_result(delete_reply, delete_result),
        is_lookup_reply(after(cache, MutationView::Delete(key)), key, lookup_reply),
        is_load_result(lookup_reply, load_result),
    ensures
        delete_result is Ok,
        load_result matches Ok(None),
{
}

/// What is done for one session leaves every other session as it was: after
/// a create, save or delete for the first, a lookup for the second is
/// answered as it was before.
pub proof fn sessions_do_not_touch_each_other(
    cache: CacheModel,
    first: SessionId,
    command: MutationView,
    second: SessionId,
    second_key: Seq<char>,
    reply: Result<Vec<u8>, BackendError>,
)
    requires
        first != second,
        match command {
            MutationView::Add(entry) => is_session_key(entry.key, first),
            MutationView::Store(entry) => is_session_key(entry.key, first),
            MutationView::Delete(key) => is_session_key(key, first),
        },
        is_session_key(second_key, second),
        is_lookup_reply(after(cache, command), second_key, reply),
    ensures
        is_lookup_reply(cache, second_key, reply),
{
    let first_key = match command {
        MutationView::Add(entry) => entry.key,
        MutationView::Store(entry) => entry.key,
        MutationView::Delete(key) => key,
    };
    keys_of_different_sessions_differ(first_key, first, second_key, second);
}

} // verus!
