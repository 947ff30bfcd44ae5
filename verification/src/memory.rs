//! A cache that lives in memory and answers the commands as a cache server
//! that never drops an entry would. It stands in for the backend where there
//! is none.

use crate::command::{Lookup, Mutation, MutationView};
use crate::error::{BackendError, BackendErrorKind};
use vstd::prelude::*;

verus! {

/// What a cache holds: the bytes under each key.
pub type CacheModel = Map<Seq<char>, Seq<u8>>;

/// Whether a cache that holds `cache` accepts the command. Only an add can be
/// refused, and it is where there is an entry under its key.
pub open spec fn accepts(cache: CacheModel, command: MutationView) -> bool {
    match command {
        MutationView::Add(entry) => !cache.dom().contains(entry.key),
        MutationView::Store(_) => true,
        MutationView::Delete(_) => true,
    }
}

/// What a cache that held `cache` holds after the command. A refused command
/// changes nothing.
pub open spec fn after(cache: CacheModel, command: MutationView) -> CacheModel {
    match command {
        MutationView::Add(entry) => if cache.dom().contains(entry.key) {
            cache
        } else {
            cache.insert(entry.key, entry.value)
        },
        MutationView::Store(entry) => cache.insert(entry.key, entry.value),
        MutationView::Delete(key) => cache.remove(key),
    }
}

/// The message of the failure of an add that found an entry in its way.
pub open spec fn already_exists_message() -> Seq<char> {
    "entity already exists"@
}

/// The message of the failure of a lookup that found no entry.
pub open spec fn not_found_message() -> Seq<char> {
    "entity not found"@
}

/// Whether `reply` is the answer of a cache that holds `cache` to the command.
pub open spec fn is_mutation_reply(
    cache: CacheModel,
    command: MutationView,
    reply: Result<(), BackendError>,
) -> bool {
    if accepts(cache, command) {
        reply is Ok
    } else {
        &&& reply matches Err(failure)
        &&& failure.kind is AlreadyExists
        &&& failure.message@ == already_exists_message()
    }
}

/// Whether `reply` is the answer of a cache that holds `cache` to a lookup
/// of `key`.
pub open spec fn is_lookup_reply(
    cache: CacheModel,
    key: Seq<char>,
    reply: Result<Vec<u8>, BackendError>,
) -> bool {
    if cache.dom().contains(key) {
        reply matches Ok(bytes) && bytes@ == cache[key]
    } else {
        &&& reply matches Err(failure)
        &&& failure.kind is NotFound
        &&& failure.message@ == not_found_message()
    }
}

/// Whether no two of the entries have the same key.
spec fn distinct_keys(entries: Seq<(String, Vec<u8>)>) -> bool {
    forall|i: int, j: int| 0 <= i < j < entries.len() ==> entries[i].0@ != entries[j].0@
}

/// Whether one of the entries has the key.
spec fn holds_key(entries: Seq<(String, Vec<u8>)>, key: Seq<char>) -> bool {
    exists|i: int| 0 <= i < entries.len() && #[trigger] entries[i].0@ == key
}

/// Where the entry with the key stands, if one of the entries has it.
spec fn index_of_key(entries: Seq<(String, Vec<u8>)>, key: Seq<char>) -> int {
    choose|i: int| 0 <= i < entries.len() && #[trigger] entries[i].0@ == key
}

/// What a cache with these entries holds.
spec fn model_of(entries: Seq<(String, Vec<u8>)>) -> CacheModel {
    Map::new(
        |key: Seq<char>| holds_key(entries, key),
        |key: Seq<char>| entries[index_of_key(entries, key)].1@,
    )
}

/// With distinct keys, each entry is what the cache holds under its key.
proof fn lemma_model_at(entries: Seq<(String, Vec<u8>)>, i: int)
    requires
        distinct_keys(entries),
        0 <= i < entries.len(),
    ensures
        model_of(entries).dom().contains(entries[i].0@),
        model_of(entries)[entries[i].0@] == entries[i].1@,
{
    let key = entries[i].0@;
    assert(holds_key(entries, key));
    let j = index_of_key(entries, key);
    assert(0 <= j < entries.len() && entries[j].0@ == key);
    assert(i == j);
}

/// An entry with a new key, put at the end, is an insertion into the cache.
proof fn lemma_model_push(entries: Seq<(String, Vec<u8>)>, key: String, value: Vec<u8>)
    requires
        distinct_keys(entries),
        !holds_key(entries, key@),
    ensures
        distinct_keys(entries.push((key, value))),
        model_of(entries.push((key, value))) == model_of(entries).insert(key@, value@),
{
    let longer = entries.push((key, value));
    assert forall|i: int, j: int| 0 <= i < j < longer.len() implies longer[i].0@
        != longer[j].0@ by {
        if j == entries.len() {
            assert(entries[i].0@ == longer[i].0@);
        }
    }
    assert forall|k: Seq<char>| holds_key(longer, k) <==> (holds_key(entries, k) || k == key@) by {
        if holds_key(longer, k) {
            let i = index_of_key(longer, k);
            if i < entries.len() {
                assert(entries[i].0@ == k);
            }
        }
        if holds_key(entries, k) {
            let i = index_of_key(entries, k);
            assert(longer[i].0@ == k);
        }
        if k == key@ {
            assert(longer[entries.len() as int].0@ == k);
        }
    }
    assert forall|k: Seq<char>| holds_key(longer, k) implies #[trigger] model_of(longer)[k]
        == model_of(entries).insert(key@, value@)[k] by {
        let i = index_of_key(longer, k);
        lemma_model_at(longer, i);
        if i < entries.len() {
            lemma_model_at(entries, i);
        }
    }
    assert(model_of(longer) =~= model_of(entries).insert(key@, value@));
}

/// A new value in the place of an entry is an insertion under its key.
proof fn lemma_model_update(entries: Seq<(String, Vec<u8>)>, i: int, key: String, value: Vec<u8>)
    requires
        distinct_keys(entries),
        0 <= i < entries.len(),
        entries[i].0@ == key@,
    ensures
        distinct_keys(entries.update(i, (key, value))),
        model_of(entries.update(i, (key, value))) == model_of(entries).insert(key@, value@),
{
    let changed = entries.update(i, (key, value));
    assert forall|a: int, b: int| 0 <= a < b < changed.len() implies changed[a].0@
        != changed[b].0@ by {
        assert(changed[a].0@ == entries[a].0@);
        assert(changed[b].0@ == entries[b].0@);
    }
    assert forall|k: Seq<char>| holds_key(changed, k) <==> holds_key(entries, k) by {
        if holds_key(changed, k) {
            let a = index_of_key(changed, k);
            assert(entries[a].0@ == k);
        }
        if holds_key(entries, k) {
            let a = index_of_key(entries, k);
            assert(changed[a].0@ == k);
        }
    }
    assert(holds_key(entries, key@));
    assert forall|k: Seq<char>| holds_key(changed, k) implies #[trigger] model_of(changed)[k]
        == model_of(entries).insert(key@, value@)[k] by {
        let a = index_of_key(changed, k);
        lemma_model_at(changed, a);
        lemma_model_at(entries, a);
    }
    assert(model_of(changed) =~= model_of(entries).insert(key@, value@));
}

/// Taking an entry out is the removal of its key from the cache.
proof fn lemma_model_remove(entries: Seq<(String, Vec<u8>)>, i: int)
    requires
        distinct_keys(entries),
        0 <= i < entries.len(),
    ensures
        distinct_keys(entries.remove(i)),
        model_of(entries.remove(i)) == model_of(entries).remove(entries[i].0@),
{
    let shorter = entries.remove(i);
    let key = entries[i].0@;
    assert forall|a: int, b: int| 0 <= a < b < shorter.len() implies shorter[a].0@
        != shorter[b].0@ by {
        let a0 = if a < i { a } else { a + 1 };
        let b0 = if b < i { b } else { b + 1 };
        assert(shorter[a] == entries[a0]);
        assert(shorter[b] == entries[b0]);
    }
    assert forall|k: Seq<char>| holds_key(shorter, k) <==> (holds_key(entries, k) && k != key) by {
        if holds_key(shorter, k) {
            let a = index_of_key(shorter, k);
            let a0 = if a < i { a } else { a + 1 };
            assert(shorter[a] == entries[a0]);
            assert(entries[a0].0@ == k);
        }
        if holds_key(entries, k) && k != key {
            let a0 = index_of_key(entries, k);
            let a = if a0 < i { a0 } else { a0 - 1 };
            assert(shorter[a] == entries[a0]);
            assert(shorter[a].0@ == k);
        }
    }
    assert forall|k: Seq<char>| holds_key(shorter, k) implies #[trigger] model_of(shorter)[k]
        == model_of(entries).remove(key)[k] by {
        let a = index_of_key(shorter, k);
        let a0 = if a < i { a } else { a + 1 };
        assert(shorter[a] == entries[a0]);
        lemma_model_at(shorter, a);
        lemma_model_at(entries, a0);
    }
    assert(model_of(shorter) =~= model_of(entries).remove(key));
}

/// Where the entry under `key` stands among `entries`, if there is one.
fn position(entries: &Vec<(String, Vec<u8>)>, key: &String) -> (position: Option<usize>)
    ensures
        match position {
            Some(i) => i < entries@.len() && entries@[i as int].0@ == key@,
            None => !holds_key(entries@, key@),
        },
{
    let mut i: usize = 0;
    while i < entries.len()
        invariant
            i <= entries@.len(),
            forall|j: int| 0 <= j < i ==> entries@[j].0@ != key@,
        decreases entries@.len() - i,
    {
        if entries[i].0 == *key {
            return Some(i);
        }
        i = i + 1;
    }
    None
}

/// Carries out a command on the entries of a cache.
fn apply_to(entries: &mut Vec<(String, Vec<u8>)>, command: &Mutation) -> (reply: Result<
    (),
    BackendError,
>)
    requires
        distinct_keys(old(entries)@),
    ensures
        distinct_keys(final(entries)@),
        model_of(final(entries)@) == after(model_of(old(entries)@), command@),
        is_mutation_reply(model_of(old(entries)@), command@, reply),
{
    match command {
        Mutation::Add(entry) => match position(entries, &entry.key) {
            Some(i) => {
                proof {
                    lemma_model_at(entries@, i as int);
                }
                Err(
                    BackendError {
                        kind: BackendErrorKind::AlreadyExists,
                        message: "entity already exists".to_owned(),
                    },
                )
            },
            None => {
                let key = entry.key.clone();
                let value = entry.value.clone();
                proof {
                    lemma_model_push(entries@, key, value);
                }
                entries.push((key, value));
                Ok(())
            },
        },
        Mutation::Store(entry) => {
            let key = entry.key.clone();
            let value = entry.value.clone();
            match position(entries, &entry.key) {
                Some(i) => {
                    proof {
                        lemma_model_update(entries@, i as int, key, value);
                    }
                    entries.set(i, (key, value));
                },
                None => {
                    proof {
                        lemma_model_push(entries@, key, value);
                    }
                    entries.push((key, value));
                },
            }
            Ok(())
        },
        Mutation::Delete(key) => {
            match position(entries, key) {
                Some(i) => {
                    proof {
                        lemma_model_remove(entries@, i as int);
                    }
                    entries.remove(i);
                },
                None => {
                    assert(model_of(entries@).remove(key@) =~= model_of(entries@));
                },
            }
            Ok(())
        },
    }
}

/// An in-memory cache. Its view is what it holds.
pub struct MemoryCache {
    entries: Vec<(String, Vec<u8>)>,
}

impl View for MemoryCache {
    type V = CacheModel;

    closed spec fn view(&self) -> CacheModel {
        model_of(self.entries@)
    }
}

impl MemoryCache {
    #[verifier::type_invariant]
    spec fn well_formed(self) -> bool {
        distinct_keys(self.entries@)
    }

    /// A cache that holds nothing.
    pub fn new() -> (cache: MemoryCache)
        ensures
            cache@ == Map::<Seq<char>, Seq<u8>>::empty(),
    {
        let cache = MemoryCache { entries: Vec::new() };
        assert(cache@ =~= Map::<Seq<char>, Seq<u8>>::empty());
        cache
    }

    /// Answers a command that changes the cache.
    pub fn apply(&mut self, command: &Mutation) -> (reply: Result<(), BackendError>)
        ensures
            final(self)@ == after(old(self)@, command@),
            is_mutation_reply(old(self)@, command@, reply),
    {
        proof {
            use_type_invariant(&*self);
        }
        let mut entries: Vec<(String, Vec<u8>)> = Vec::new();
        std::mem::swap(&mut self.entries, &mut entries);
        let reply = apply_to(&mut entries, command);
        self.entries = entries;
        reply
    }

    /// Answers a lookup.
    pub fn fetch(&self, command: &Lookup) -> (reply: Result<Vec<u8>, BackendError>)
        ensures
            is_lookup_reply(self@, command.key@, reply),
    {
        proof {
            use_type_invariant(self);
        }
        match position(&self.entries, &command.key) {
            Some(i) => {
                proof {
                    lemma_model_at(self.entries@, i as int);
                }
                Ok(self.entries[i].1.clone())
            },
            None => Err(
                BackendError {
                    kind: BackendErrorKind::NotFound,
                    message: "entity not found".to_owned(),
                },
            ),
        }
    }
}

} // verus!
