//! Session persistence for a memory-cache backend.
//!
//! A session record is turned into one cache entry: a key that is the text of
//! the session identifier, a value that is the MessagePack encoding of the
//! whole record, and a time to live in whole seconds. The four operations of a
//! session store (create, save, load, delete) are steps: each one yields the
//! single command to put on the connection, and a second function turns the
//! reply of the backend into the result for the caller. Performing the
//! command, and keeping one command in flight at a time, is left to the
//! caller that owns the connection.
//!
//! - `record`: session records and identifiers.
//! - `instant`: points in time, and the time to live of a record.
//! - `key`: the key of a session.
//! - `codec`: records as bytes.
//! - `command`: the commands that go to the backend.
//! - `error`: the failures of the store and of the backend.
//! - `store`: the four operations.
//! - `memory`: a cache in memory, for where there is no backend.
//! - `lifecycle`: what holds of successive operations on one cache.

pub mod codec;
pub mod command;
pub mod error;
pub mod instant;
pub mod key;
pub mod lifecycle;
pub mod memory;
pub mod record;
pub mod store;
