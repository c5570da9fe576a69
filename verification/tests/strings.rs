use wasihost::string_representation::{CBytes, OsBytes, StringRepresentation};

#[test]
fn text_must_be_valid_utf8() {
    let text = <String as StringRepresentation>::from_bytes(b"hello".to_vec());
    assert_eq!(text, Ok("hello".to_string()));
    let text = <String as StringRepresentation>::from_bytes("grüße".as_bytes().to_vec());
    assert_eq!(text, Ok("grüße".to_string()));
    assert_eq!(<String as StringRepresentation>::from_bytes(vec![0xff, 0xfe]), Err(()));
    assert_eq!(<String as StringRepresentation>::from_bytes(vec![0xc3]), Err(()));
    assert_eq!(<String as StringRepresentation>::from_bytes(vec![0xed, 0xa0, 0x80]), Err(()));
    assert_eq!(<String as StringRepresentation>::from_bytes(vec![]), Ok(String::new()));
    let text = "a\u{20ac}b".to_string();
    assert_eq!(StringRepresentation::as_bytes(&text), &[0x61, 0xe2, 0x82, 0xac, 0x62]);
}

#[test]
fn raw_bytes_never_fail() {
    let bytes = <Vec<u8> as StringRepresentation>::from_bytes(vec![0xff, 0, 0x80]);
    assert_eq!(bytes, Ok(vec![0xff, 0, 0x80]));
    assert_eq!(StringRepresentation::as_bytes(&vec![1u8, 2, 3]), &[1, 2, 3]);
}

#[test]
fn os_strings_never_fail() {
    let path = OsBytes::from_bytes(vec![b'/', 0xff, b'x']);
    assert_eq!(path, Ok(OsBytes { bytes: vec![b'/', 0xff, b'x'] }));
    assert_eq!(path.unwrap().as_bytes(), &[b'/', 0xff, b'x']);
}

#[test]
fn c_strings_hold_no_nul() {
    let string = CBytes::from_bytes(b"path/to".to_vec()).unwrap();
    assert_eq!(string.as_bytes(), b"path/to");
    assert_eq!(string.to_bytes(), b"path/to");
    assert_eq!(string.clone(), string);
    assert!(CBytes::from_bytes(vec![b'a', 0, b'b']).is_err());
    assert!(CBytes::from_bytes(vec![0]).is_err());
    assert!(CBytes::from_bytes(vec![b'a', 0]).is_err());
    assert!(CBytes::new(vec![0, b'a']).is_none());
    assert!(CBytes::from_bytes(vec![]).is_ok());
    assert!(CBytes::from_bytes(vec![0xff, 0x01]).is_ok());
}
