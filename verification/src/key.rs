//! The key under which a session is kept in the cache.

use crate::record::SessionId;
use vstd::prelude::*;

verus! {

/// The number of characters of every key.
pub const KEY_LENGTH: usize = 22;

/// The text of a session identifier: its sixteen bytes, lowest first, in the
/// URL-safe base64 alphabet without padding.
pub uninterp spec fn session_key_text(id: i128) -> Seq<char>;

/// Whether `key` is the key of the session `id`, and of that session alone.
pub open spec fn is_session_key(key: Seq<char>, id: SessionId) -> bool {
    &&& key == session_key_text(id.0)
    &&& key.len() == KEY_LENGTH
    &&& forall|other: i128| #[trigger] session_key_text(other) == key ==> other == id.0
}

/// Formats an identifier with the `Display` of `tower_sessions_core::session::Id`.
///
/// Trusted: the text depends on the identifier alone; it has 22 characters,
/// which is what base64 without padding makes of sixteen bytes; and no other
/// identifier has the same text, since base64 can be decoded again.
#[verifier::external_body]
fn id_text(id: i128) -> (key: String)
    ensures
        key@ == session_key_text(id),
        key@.len() == KEY_LENGTH,
        forall|other: i128| #[trigger] session_key_text(other) == key@ ==> other == id,
{
    tower_sessions_core::session::Id(id).to_string()
}

/// The key of a session: the canonical text of its identifier. The same
/// identifier always gives the same key, and two identifiers never share one.
pub fn session_key(id: SessionId) -> (key: String)
    ensures
        is_session_key(key@, id),
{
    id_text(id.0)
}

/// Two sessions never share a key.
pub proof fn keys_of_different_sessions_differ(
    first_key: Seq<char>,
    first: SessionId,
    second_key: Seq<char>,
    second: SessionId,
)
    requires
        is_session_key(first_key, first),
        is_session_key(second_key, second),
        first != second,
    ensures
        first_key != second_key,
{
    if first_key == second_key {
        assert(session_key_text(first.0) == second_key);
    }
}

} // verus!
