//! Records as bytes: the MessagePack encoding of a record, and back.

use crate::error::StoreError;
use crate::instant::{is_valid_unix_nanos, UtcInstant};
use crate::record::{RecordView, SessionId, SessionRecord};
use std::collections::HashMap;
use vstd::prelude::*;

verus! {

/// The error of the MessagePack encoder.
#[verifier::external_type_specification]
#[verifier::external_body]
pub struct ExEncodeError(rmp_serde::encode::Error);

/// The error of the MessagePack decoder.
#[verifier::external_type_specification]
#[verifier::external_body]
pub struct ExDecodeError(rmp_serde::decode::Error);

/// The three fields of a record as the decoder found them, the expiry date
/// still a bare count of nanoseconds since the Unix epoch.
#[derive(Debug, PartialEq)]
pub struct RecordFields {
    pub id: i128,
    pub data: HashMap<String, serde_json::Value>,
    pub expiry_unix_nanos: i128,
}

impl View for RecordFields {
    type V = RecordView;

    open spec fn view(&self) -> RecordView {
        RecordView { id: self.id, data: self.data@, expiry_date: self.expiry_unix_nanos as int }
    }
}

/// What the decoder makes of `bytes`: the fields of the record that they
/// hold, or `None` where they hold none.
pub uninterp spec fn decoded_fields(bytes: Seq<u8>) -> Option<RecordView>;

/// The record that `bytes` hold: what the decoder finds in them, where its
/// expiry date is an instant that a record can have.
pub open spec fn stored_record(bytes: Seq<u8>) -> Option<RecordView> {
    match decoded_fields(bytes) {
        Some(fields) => if is_valid_unix_nanos(fields.expiry_date) {
            Some(fields)
        } else {
            None
        },
        None => None,
    }
}

/// The message of the failure to decode a record whose expiry date lies
/// outside the years -9999 to 9999.
pub open spec fn expiry_out_of_range_message() -> Seq<char> {
    "expiry date out of range"@
}

/// Encodes a record with `rmp_serde::to_vec`, as a
/// `tower_sessions_core::session::Record` made of the three fields.
///
/// Trusted: for an expiry date in the range of `UtcInstant` the call returns,
/// and where `rmp_serde::from_slice` finds a record in the bytes, it finds
/// these three fields. The encoder writes the identifier as sixteen bytes,
/// every number, text, list and map of the payload in the MessagePack form
/// that the decoder reads back as the same value, and the expiry date by its
/// calendar components in UTC. Nothing is claimed of which bytes they are:
/// the encoder walks the payload in the order of its hash map, so two
/// encodings of one record may differ. Nor is it claimed that the decoder
/// finds a record: it gives up on a payload nested deeper than it allows,
/// which the encoder does not.
#[verifier::external_body]
fn to_msgpack(
    id: i128,
    data: &HashMap<String, serde_json::Value>,
    expiry_unix_nanos: i128,
) -> (encoded: Result<Vec<u8>, rmp_serde::encode::Error>)
    requires
        is_valid_unix_nanos(expiry_unix_nanos as int),
    ensures
        encoded matches Ok(bytes) ==> (decoded_fields(bytes@) matches Some(fields) ==> fields == (
            RecordView { id, data: data@, expiry_date: expiry_unix_nanos as int }
        )),
{
    let expiry_date = time::OffsetDateTime::from_unix_timestamp_nanos(expiry_unix_nanos).unwrap();
    let id = tower_sessions_core::session::Id(id);
    rmp_serde::to_vec(&tower_sessions_core::session::Record { id, data: data.clone(), expiry_date })
}

/// Decodes a `tower_sessions_core::session::Record` with
/// `rmp_serde::from_slice` and hands out its three fields.
///
/// Trusted: whether the bytes decode, and to which fields, depends on the
/// bytes alone.
#[verifier::external_body]
fn from_msgpack(bytes: &[u8]) -> (decoded: Result<RecordFields, rmp_serde::decode::Error>)
    ensures
        match decoded {
            Ok(fields) => decoded_fields(bytes@) == Some(fields@),
            Err(_) => decoded_fields(bytes@) is None,
        },
{
    let record: tower_sessions_core::session::Record = rmp_serde::from_slice(bytes)?;
    Ok(
        RecordFields {
            id: record.id.0,
            data: record.data,
            expiry_unix_nanos: record.expiry_date.unix_timestamp_nanos(),
        },
    )
}

/// What becomes of the outcome of the encoder: bytes stay as they are, and a
/// failure becomes an encoding failure with the message that the error
/// prints.
pub fn bytes_from_encoding(encoded: Result<Vec<u8>, rmp_serde::encode::Error>) -> (bytes: Result<
    Vec<u8>,
    StoreError,
>)
    ensures
        match encoded {
            Ok(value) => bytes == Ok::<Vec<u8>, StoreError>(value),
            Err(error) => {
                &&& bytes matches Err(StoreError::Encode(message))
                &&& vstd::string::to_string_from_display_ensures(&error, message)
            },
        },
{
    match encoded {
        Ok(value) => Ok(value),
        Err(error) => Err(StoreError::Encode(error.to_string())),
    }
}

/// What becomes of the outcome of the decoder. Fields whose expiry date is an
/// instant that a record can have make a record. Fields whose expiry date is
/// not give a decoding failure with the message
/// `expiry_out_of_range_message()`. A failure of the decoder becomes a
/// decoding failure with the message that the error prints.
pub fn record_from_decoding(decoded: Result<RecordFields, rmp_serde::decode::Error>) -> (record:
    Result<SessionRecord, StoreError>)
    ensures
        match decoded {
            Ok(fields) => if is_valid_unix_nanos(fields@.expiry_date) {
                record matches Ok(r) && r@ == fields@
            } else {
                &&& record matches Err(StoreError::Decode(message))
                &&& message@ == expiry_out_of_range_message()
            },
            Err(error) => {
                &&& record matches Err(StoreError::Decode(message))
                &&& vstd::string::to_string_from_display_ensures(&error, message)
            },
        },
{
    match decoded {
        Ok(fields) => match UtcInstant::from_unix_nanos(fields.expiry_unix_nanos) {
            Some(expiry_date) => Ok(
                SessionRecord { id: SessionId(fields.id), data: fields.data, expiry_date },
            ),
            None => Err(StoreError::Decode("expiry date out of range".to_owned())),
        },
        Err(error) => Err(StoreError::Decode(error.to_string())),
    }
}

/// What becomes of encoded bytes once the decoder has been asked to read
/// them back: bytes in which it finds a record stay as they are, and bytes in
/// which it finds none are given up, as an encoding failure with the message
/// that the decoder's error prints.
pub fn bytes_read_back(
    bytes: Vec<u8>,
    read_back: Result<RecordFields, rmp_serde::decode::Error>,
) -> (checked: Result<Vec<u8>, StoreError>)
    ensures
        match read_back {
            Ok(_) => checked == Ok::<Vec<u8>, StoreError>(bytes),
            Err(error) => {
                &&& checked matches Err(StoreError::Encode(message))
                &&& vstd::string::to_string_from_display_ensures(&error, message)
            },
        },
{
    match read_back {
        Ok(_) => Ok(bytes),
        Err(error) => Err(StoreError::Encode(error.to_string())),
    }
}

/// The bytes under which a record is stored: bytes that hold this record.
/// The record is encoded and the bytes are read back before they are handed
/// out, so that nothing is stored that cannot be loaded again. A failure of
/// the encoder is an encoding failure, and so is an encoding that the decoder
/// cannot read, which is that of a payload nested deeper than the decoder
/// allows.
pub fn encode_record(record: &SessionRecord) -> (encoded: Result<Vec<u8>, StoreError>)
    ensures
        match encoded {
            Ok(bytes) => stored_record(bytes@) == Some(record@),
            Err(failure) => failure is Encode,
        },
{
    let expiry_unix_nanos: i128 = record.expiry_date.unix_nanos();
    match bytes_from_encoding(to_msgpack(record.id.0, &record.data, expiry_unix_nanos)) {
        Ok(bytes) => {
            let read_back = from_msgpack(bytes.as_slice());
            bytes_read_back(bytes, read_back)
        },
        Err(failure) => Err(failure),
    }
}

/// Whether `failure` is the failure to read a record from `bytes`: they hold
/// none, and the failure is a decoding failure. Where the decoder found the
/// fields and only the expiry date is out of range, the message says so;
/// otherwise the message is the decoder's.
pub open spec fn is_decoding_failure(bytes: Seq<u8>, failure: StoreError) -> bool {
    &&& stored_record(bytes) is None
    &&& failure matches StoreError::Decode(message)
    &&& decoded_fields(bytes) is Some ==> message@ == expiry_out_of_range_message()
}

/// Decoding what was encoded gives the record back: where `bytes` are what
/// `encode_record` made of `record`, and `decoded` is what `decode_record`
/// makes of those bytes, `decoded` is that record, with the same identifier,
/// payload and expiry date.
pub proof fn decoding_an_encoding_gives_the_record_back(
    bytes: Seq<u8>,
    record: RecordView,
    decoded: Result<SessionRecord, StoreError>,
)
    requires
        stored_record(bytes) == Some(record),
        match decoded {
            Ok(found) => stored_record(bytes) == Some(found@),
            Err(failure) => is_decoding_failure(bytes, failure),
        },
    ensures
        decoded matches Ok(found) && found@ == record,
{
}

/// The record that stored bytes hold. Bytes that hold no record, be they
/// empty, cut short or damaged, give a decoding failure.
pub fn decode_record(bytes: &[u8]) -> (decoded: Result<SessionRecord, StoreError>)
    ensures
        match decoded {
            Ok(record) => stored_record(bytes@) == Some(record@),
            Err(failure) => is_decoding_failure(bytes@, failure),
        },
{
    record_from_decoding(from_msgpack(bytes))
}

} // verus!
