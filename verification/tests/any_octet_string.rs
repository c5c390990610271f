use rusmpp::decode::{DecodeErrorKind, DecodeWithLength};
use rusmpp::encode::Encode;
use rusmpp::types::any_octet_string::AnyOctetString;

#[test]
fn any_octet_string_encode_decode() {
    for instance in [
        AnyOctetString::empty(),
        AnyOctetString::from_slice(b"h"),
        AnyOctetString::from_slice(b"Hello\0World!\0"),
    ] {
        let mut buf: Vec<u8> = Vec::new();
        instance.encode(&mut buf);
        assert_eq!(instance.length(), buf.len());
        let (decoded, size) =
            <AnyOctetString as DecodeWithLength>::decode(&buf, buf.len()).unwrap();
        assert_eq!(size, buf.len());
        assert_eq!(decoded.into_vec(), instance.into_vec());
    }
}

#[test]
fn any_octet_string_ok() {
    let bytes = b"Hello\0World!\0";
    let octet_string = AnyOctetString::new(bytes);
    assert_eq!(octet_string.into_vec(), bytes.to_vec());
}

#[test]
fn any_octet_string_ok_len() {
    let bytes = b"Hello\0World!\0";
    let octet_string = AnyOctetString::new(bytes);
    assert_eq!(octet_string.len(), 13);
    assert_eq!(octet_string.length(), 13);
}

#[test]
fn any_octet_string_unexpected_eof_empty() {
    let bytes: &[u8] = b"";
    let error = <AnyOctetString as DecodeWithLength>::decode(bytes, 5).unwrap_err();
    assert!(matches!(error.kind(), DecodeErrorKind::UnexpectedEof));
}

#[test]
fn any_octet_string_ok_all() {
    let bytes = b"Hello";
    let (string, size) = <AnyOctetString as DecodeWithLength>::decode(bytes, 5).unwrap();
    assert_eq!(string.length(), 5);
    assert_eq!(size, 5);
    assert_eq!(string.into_vec(), b"Hello".to_vec());
    assert_eq!(&bytes[size..], b"");
}

#[test]
fn any_octet_string_ok_partial() {
    let bytes = b"Hello";
    let (string, size) = <AnyOctetString as DecodeWithLength>::decode(bytes, 3).unwrap();
    assert_eq!(string.length(), 3);
    assert_eq!(size, 3);
    assert_eq!(string.into_vec(), b"Hel".to_vec());
    assert_eq!(&bytes[size..], b"lo");
}
