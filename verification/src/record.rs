//! Session records.

use crate::instant::UtcInstant;
use std::collections::HashMap;
use vstd::prelude::*;

verus! {

/// A JSON value of the payload. The library carries such values from the
/// caller to the encoder and back and never looks inside one.
#[verifier::external_type_specification]
#[verifier::external_body]
pub struct ExValue(serde_json::Value);

/// The identifier of a session: 128 bits that the session layer chose.
#[derive(Clone, Copy, Debug, PartialEq, Eq, Hash, Structural)]
pub struct SessionId(pub i128);

/// The unit of persisted state: who the session is, what it holds, and when
/// it ends.
#[derive(Debug, PartialEq)]
pub struct SessionRecord {
    pub id: SessionId,
    pub data: HashMap<String, serde_json::Value>,
    pub expiry_date: UtcInstant,
}

/// A record as contracts speak of it: the identifier as a number, the payload
/// as a map, the expiry date in nanoseconds since the Unix epoch.
pub ghost struct RecordView {
    pub id: i128,
    pub data: Map<String, serde_json::Value>,
    pub expiry_date: int,
}

impl View for SessionRecord {
    type V = RecordView;

    open spec fn view(&self) -> RecordView {
        RecordView { id: self.id.0, data: self.data@, expiry_date: self.expiry_date@ }
    }
}

impl Clone for SessionRecord {
    /// A second record with the same identifier, payload and expiry date.
    fn clone(&self) -> (copy: SessionRecord)
        ensures
            copy@ == self@,
    {
        SessionRecord { id: self.id, data: self.data.clone(), expiry_date: self.expiry_date }
    }
}

} // verus!
