use memcache_session_store::key::{session_key, KEY_LENGTH};
use memcache_session_store::record::SessionId;
use std::str::FromStr;

#[test]
fn key_of_zero() {
    assert_eq!(session_key(SessionId(0)), "AAAAAAAAAAAAAAAAAAAAAA");
}

#[test]
fn key_of_one_starts_with_the_lowest_byte() {
    assert_eq!(session_key(SessionId(1)), "AQAAAAAAAAAAAAAAAAAAAA");
}

#[test]
fn key_of_minus_one() {
    assert_eq!(session_key(SessionId(-1)), "_____________________w");
}

#[test]
fn key_uses_the_url_safe_alphabet() {
    assert_eq!(session_key(SessionId(0xfb)), "-wAAAAAAAAAAAAAAAAAAAA");
    assert_eq!(session_key(SessionId(0xff)), "_wAAAAAAAAAAAAAAAAAAAA");
}

#[test]
fn key_has_twenty_two_characters() {
    for id in [0, 1, -1, 42, i128::MAX, i128::MIN, 0x0123_4567_89ab_cdef] {
        assert_eq!(session_key(SessionId(id)).chars().count(), KEY_LENGTH);
    }
}

#[test]
fn key_is_the_same_each_time() {
    assert_eq!(session_key(SessionId(77)), session_key(SessionId(77)));
}

#[test]
fn keys_of_different_sessions_differ() {
    let ids = [0, 1, 2, 255, 256, -1, -2, i128::MAX, i128::MIN, 1 << 64, 1 << 120];
    for a in ids {
        for b in ids {
            if a != b {
                assert_ne!(session_key(SessionId(a)), session_key(SessionId(b)));
            }
        }
    }
}

#[test]
fn key_is_the_text_of_the_session_layer() {
    for id in [0, 1, -1, 42, i128::MAX, i128::MIN, 0x0123_4567_89ab_cdef] {
        let key = session_key(SessionId(id));
        assert_eq!(key, tower_sessions_core::session::Id(id).to_string());
        assert_eq!(tower_sessions_core::session::Id::from_str(&key).unwrap().0, id);
    }
}
