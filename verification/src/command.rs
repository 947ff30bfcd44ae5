//! What goes over the connection: the commands of the cache protocol that the
//! session store uses.

use vstd::prelude::*;

verus! {

/// One entry of the cache, as it is written.
#[derive(Debug, PartialEq, Eq)]
pub struct CacheEntry {
    /// The text of the session identifier.
    pub key: String,
    /// The encoded record.
    pub value: Vec<u8>,
    /// The seconds after which the backend drops the entry.
    pub ttl_seconds: u64,
}

/// A cache entry as contracts speak of it.
pub ghost struct EntryView {
    pub key: Seq<char>,
    pub value: Seq<u8>,
    pub ttl_seconds: u64,
}

impl View for CacheEntry {
    type V = EntryView;

    open spec fn view(&self) -> EntryView {
        EntryView { key: self.key@, value: self.value@, ttl_seconds: self.ttl_seconds }
    }
}

impl CacheEntry {
    /// The time to live as the cache protocol carries it, in a field of 32
    /// bits. A time to live that fits, which is any of up to some 136 years,
    /// is carried as it is; a longer one is carried as the longest that
    /// fits.
    pub fn expiration(&self) -> (expiration: u32)
        ensures
            expiration == if self.ttl_seconds <= u32::MAX {
                self.ttl_seconds
            } else {
                u32::MAX as u64
            },
    {
        if self.ttl_seconds <= 0xffff_ffff {
            self.ttl_seconds as u32
        } else {
            0xffff_ffff
        }
    }
}

/// A command that changes the cache. The backend answers it with success or
/// with a failure, and with nothing else.
#[derive(Debug, PartialEq, Eq)]
pub enum Mutation {
    /// Write the entry if there is none under its key, fail otherwise.
    Add(CacheEntry),
    /// Write the entry, whether or not there is one under its key.
    Store(CacheEntry),
    /// Remove the entry under the key, if there is one.
    Delete(String),
}

/// A mutation as contracts speak of it.
pub ghost enum MutationView {
    Add(EntryView),
    Store(EntryView),
    Delete(Seq<char>),
}

impl View for Mutation {
    type V = MutationView;

    open spec fn view(&self) -> MutationView {
        match self {
            Mutation::Add(entry) => MutationView::Add(entry@),
            Mutation::Store(entry) => MutationView::Store(entry@),
            Mutation::Delete(key) => MutationView::Delete(key@),
        }
    }
}

/// The command that reads the cache. The backend answers it with the bytes
/// under the key or with a failure; that there is no entry is a failure of
/// the kind `NotFound`.
#[derive(Debug, PartialEq, Eq)]
pub struct Lookup {
    pub key: String,
}

} // verus!
