use user_registration::activation::issue_token;
use user_registration::ident::{fresh_id, id_text};
use user_registration::{index, rocket, Method};

const VERSION_AND_VARIANT: u128 = 0x0000_0000_0000_f000_c000_0000_0000_0000;
const RANDOM_UUID: u128 = 0x0000_0000_0000_4000_8000_0000_0000_0000;

#[test]
fn health_check_greets() {
    assert_eq!(index(), "Hello, world!");
}

#[test]
fn root_mounts_the_health_check() {
    let routes = rocket();
    assert_eq!(routes.len(), 1);
    assert_eq!(routes[0].method, Method::Get);
    assert_eq!(routes[0].path, "/healthcheck");
}

#[test]
fn fresh_ids_are_random_uuids() {
    for _ in 0..32 {
        assert_eq!(fresh_id() & VERSION_AND_VARIANT, RANDOM_UUID);
    }
}

#[test]
fn fresh_ids_differ() {
    assert_ne!(fresh_id(), fresh_id());
}

#[test]
fn tokens_are_random_uuids_and_differ() {
    let a = issue_token();
    let b = issue_token();
    assert_eq!(a & VERSION_AND_VARIANT, RANDOM_UUID);
    assert_eq!(b & VERSION_AND_VARIANT, RANDOM_UUID);
    assert_ne!(a, b);
}

#[test]
fn id_text_is_hyphenated_lower_hex() {
    assert_eq!(
        id_text(0xa1a2a3a4b1b2c1c2d1d2d3d4d5d6d7d8),
        "a1a2a3a4-b1b2-c1c2-d1d2-d3d4d5d6d7d8"
    );
    assert_eq!(id_text(0), "00000000-0000-0000-0000-000000000000");
    assert_eq!(id_text(u128::MAX), "ffffffff-ffff-ffff-ffff-ffffffffffff");
    assert_eq!(id_text(0x0123456789abcdef0123456789abcdef), "01234567-89ab-cdef-0123-456789abcdef");
}

#[test]
fn id_text_agrees_with_uuid() {
    let id = fresh_id();
    let text = id_text(id);
    assert_eq!(text.len(), 36);
    assert_eq!(uuid::Uuid::parse_str(&text).unwrap().as_u128(), id);
    assert_eq!(text.as_bytes()[14], b'4');
    assert!(matches!(text.as_bytes()[19], b'8' | b'9' | b'a' | b'b'));
}
