use openfx_driver::OfxStr;

#[test]
fn from_str_with_null() {
    let s = OfxStr::from_str("test\0");
    // Note that trailing NULL is omitted from result
    assert_eq!(s.as_str(), "test");
}

#[test]
fn from_ptr() {}

#[test]
fn from_str_keeps_nul_for_c() {
    let s = OfxStr::from_str("OfxPropName\0");
    assert_eq!(s.as_str_with_nul(), "OfxPropName\0");
    assert_eq!(s.as_str(), "OfxPropName");
}

#[test]
fn from_bytes_with_nul_valid() {
    let data: [u8; 5] = [b'a', b'b', b'c', b'd', 0];
    let s = OfxStr::from_bytes_with_nul(&data).unwrap();
    assert_eq!(s.as_str(), "abcd");
}

#[test]
fn from_bytes_with_nul_not_utf8() {
    let data: [u8; 3] = [0xc3, 0x28, 0x0];
    assert!(OfxStr::from_bytes_with_nul(&data).is_none());
}

#[test]
fn text_and_byte_equality() {
    assert!(openfx_driver::strings::text_eq("OfxPropName", "OfxPropName"));
    assert!(!openfx_driver::strings::text_eq("OfxPropName", "OfxPropLabel"));
    assert!(!openfx_driver::strings::text_eq("abc", "abcd"));
    assert!(openfx_driver::strings::bytes_eq(&[1, 2, 3], &[1, 2, 3]));
    assert!(!openfx_driver::strings::bytes_eq(&[1, 2, 3], &[1, 2, 4]));
}
