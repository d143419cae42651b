use nvim_oxi::{FromObjectError, NvimString};

#[test]
fn partial_eq() {
    let lhs = NvimString::from_str("foo bar baz");
    let rhs = NvimString::from_str("foo bar baz");
    assert_eq!(lhs, rhs);

    let lhs = NvimString::from_str("foo bar baz");
    let rhs = NvimString::from_str("bar foo baz");
    assert_ne!(lhs, rhs);

    let lhs = NvimString::from_str("€");
    let rhs = "€";
    assert_eq!(lhs, rhs);
}

#[test]
fn clone() {
    let lhs = NvimString::from_str("abc");
    let rhs = lhs.clone();

    assert_eq!(lhs, rhs);
}

#[test]
fn from_string() {
    let foo = String::from("foo bar baz");

    let lhs = NvimString::from_str(foo.as_str());
    let rhs = NvimString::from_string(foo);

    assert_eq!(lhs, rhs);
}

#[test]
fn to_bytes() {
    let s = NvimString::from_str("hello");
    let bytes = s.into_bytes();
    assert_eq!(&[104, 101, 108, 108, 111][..], &bytes[..]);
}

#[test]
fn bytes_round_trip_plain() {
    let v: Vec<u8> = vec![1, 2, 3, 4, 5];
    assert_eq!(NvimString::from_bytes(v.clone()).into_bytes(), v);
}

#[test]
fn bytes_round_trip_embedded_zeros() {
    let v: Vec<u8> = vec![0, 102, 0, 0, 111, 0];
    assert_eq!(NvimString::from_bytes(v.clone()).into_bytes(), v);
}

#[test]
fn bytes_round_trip_invalid_utf8() {
    let v: Vec<u8> = vec![0xff, 0xfe, 0x80, 0xc0];
    assert_eq!(NvimString::from_bytes(v.clone()).into_bytes(), v);
}

#[test]
fn bytes_round_trip_empty() {
    let v: Vec<u8> = Vec::new();
    assert_eq!(NvimString::from_bytes(v.clone()).into_bytes(), v);
}

#[test]
fn len_excludes_terminator() {
    let s = NvimString::from_str("hello");
    assert_eq!(s.len(), 5);
    assert!(!s.is_empty());
    assert!(NvimString::from_str("").is_empty());
}

#[test]
fn as_bytes_views_content() {
    let s = NvimString::from_bytes(vec![104, 0, 105]);
    assert_eq!(s.as_bytes(), &[104, 0, 105][..]);
}

#[test]
fn into_string_strict_accepts_valid_utf8() {
    let s = NvimString::from_str("héllo");
    assert_eq!(s.into_string().unwrap(), "héllo");
}

#[test]
fn into_string_strict_rejects_invalid_utf8() {
    let s = NvimString::from_bytes(vec![0xff, 0xfe]);
    let err = s.into_string().unwrap_err();
    assert!(matches!(err, FromObjectError::Secondary { .. }));
}

#[test]
fn to_string_lossy_substitutes_replacement_character() {
    let s = NvimString::from_bytes(vec![0xff, 0xfe]);
    assert_eq!(s.to_string_lossy(), "\u{FFFD}\u{FFFD}");

    let t = NvimString::from_str("plain");
    assert_eq!(t.to_string_lossy(), "plain");
}

#[test]
fn as_str_borrows_valid_utf8_only() {
    let s = NvimString::from_str("héllo");
    assert_eq!(s.as_str(), Some("héllo"));

    let bad = NvimString::from_bytes(vec![0xff, 0xfe]);
    assert_eq!(bad.as_str(), None);
}

#[test]
fn default_is_empty() {
    let s = NvimString::default();
    assert!(s.is_empty());
    assert_eq!(s.into_bytes(), Vec::<u8>::new());
}

#[test]
fn non_owning_view_reads_same_bytes() {
    let s = NvimString::from_str("abc");
    let view = s.non_owning();
    assert_eq!(view.borrowed().as_bytes(), s.as_bytes());
}
