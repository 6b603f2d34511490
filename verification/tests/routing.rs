use geoclue_fake::digits::parse_u32_dec;
use geoclue_fake::paths::{
    bytes_eq, client_path_bytes, location_path_bytes, manager_path_bytes, parse_path,
    root_path_bytes, Target,
};

#[test]
fn manager_path_is_fixed() {
    assert_eq!(manager_path_bytes(), b"/org/freedesktop/GeoClue2/Manager".to_vec());
    assert_eq!(root_path_bytes(), b"/".to_vec());
}

#[test]
fn client_and_location_paths_embed_the_id() {
    assert_eq!(client_path_bytes(0), b"/org/freedesktop/GeoClue2/Client/0".to_vec());
    assert_eq!(client_path_bytes(17), b"/org/freedesktop/GeoClue2/Client/17".to_vec());
    assert_eq!(
        client_path_bytes(u32::MAX),
        b"/org/freedesktop/GeoClue2/Client/4294967295".to_vec()
    );
    assert_eq!(
        location_path_bytes(3),
        b"/org/freedesktop/GeoClue2/Client/3/Location/0".to_vec()
    );
}

#[test]
fn parse_path_resolves_minted_paths() {
    assert_eq!(parse_path(&manager_path_bytes()), Some(Target::Manager));
    assert_eq!(parse_path(&client_path_bytes(0)), Some(Target::Client { id: 0 }));
    assert_eq!(parse_path(&client_path_bytes(421)), Some(Target::Client { id: 421 }));
    assert_eq!(parse_path(&location_path_bytes(421)), Some(Target::Location { id: 421 }));
}

#[test]
fn parse_path_rejects_malformed_paths() {
    assert_eq!(parse_path(b""), None);
    assert_eq!(parse_path(b"/"), None);
    assert_eq!(parse_path(b"/org/freedesktop/GeoClue2"), None);
    assert_eq!(parse_path(b"/org/freedesktop/GeoClue2/Client/"), None);
    assert_eq!(parse_path(b"/org/freedesktop/GeoClue2/Client/abc"), None);
    assert_eq!(parse_path(b"/org/freedesktop/GeoClue2/Client/1x"), None);
    assert_eq!(parse_path(b"/org/freedesktop/GeoClue2/Client/1/Location"), None);
    assert_eq!(parse_path(b"/org/freedesktop/GeoClue2/Client/1/Location/1"), None);
    assert_eq!(parse_path(b"/org/freedesktop/GeoClue2/Client//Location/0"), None);
    // an identity beyond the 32-bit space is malformed, not wrapped
    assert_eq!(parse_path(b"/org/freedesktop/GeoClue2/Client/4294967296"), None);
    assert_eq!(parse_path(b"/org/freedesktop/GeoClue2/Client/4294967296/Location/0"), None);
}

#[test]
fn parse_u32_dec_handles_bounds() {
    assert_eq!(parse_u32_dec(b""), None);
    assert_eq!(parse_u32_dec(b"0"), Some(0));
    assert_eq!(parse_u32_dec(b"007"), Some(7));
    assert_eq!(parse_u32_dec(b"4294967295"), Some(u32::MAX));
    assert_eq!(parse_u32_dec(b"4294967296"), None);
    assert_eq!(parse_u32_dec(b"99999999999999999999"), None);
    assert_eq!(parse_u32_dec(b"12a"), None);
    assert_eq!(parse_u32_dec(b"-1"), None);
}

#[test]
fn bytes_eq_compares_contents() {
    assert!(bytes_eq(b"abc", b"abc"));
    assert!(!bytes_eq(b"abc", b"abd"));
    assert!(!bytes_eq(b"abc", b"ab"));
    assert!(bytes_eq(b"", b""));
}
