use rusmpp::decode::{COctetStringDecodeError, Decode, DecodeErrorKind};
use rusmpp::encode::Encode;
use rusmpp::types::c_octet_string::{COctetString, Error};

fn round_trip<const MIN: usize, const MAX: usize>(s: &COctetString<MIN, MAX>) {
    let mut buf: Vec<u8> = Vec::new();
    s.encode(&mut buf);
    assert_eq!(s.length(), buf.len());
    let (decoded, size) = <COctetString<MIN, MAX> as Decode>::decode(&buf).unwrap();
    assert_eq!(size, buf.len());
    assert_eq!(decoded.into_vec(), s.clone().into_vec());
}

fn filled(content: usize) -> Vec<u8> {
    let mut v = vec![b'1'; content];
    v.push(0);
    v
}

#[test]
fn c_octet_string_encode_decode() {
    round_trip(&COctetString::<1, 5>::empty());
    round_trip(&COctetString::<1, 5>::from_vec(filled(0)).unwrap());
    round_trip(&COctetString::<1, 5>::from_vec(filled(2)).unwrap());
    round_trip(&COctetString::<1, 5>::from_vec(filled(4)).unwrap());
    round_trip(&COctetString::<2, 5>::empty());
    round_trip(&COctetString::<2, 5>::from_vec(filled(1)).unwrap());
    round_trip(&COctetString::<2, 5>::from_vec(filled(2)).unwrap());
    round_trip(&COctetString::<2, 5>::from_vec(filled(4)).unwrap());
    round_trip(&COctetString::<3, 5>::empty());
    round_trip(&COctetString::<3, 5>::from_vec(filled(2)).unwrap());
    round_trip(&COctetString::<3, 5>::from_vec(filled(3)).unwrap());
    round_trip(&COctetString::<3, 5>::from_vec(filled(4)).unwrap());
}

#[test]
fn c_octet_string_empty_too_few_bytes() {
    let bytes = b"";
    let error = COctetString::<1, 5>::from_slice(bytes).unwrap_err();
    assert!(matches!(error, Error::TooFewBytes { actual: 0, min: 1 }));
}

#[test]
fn c_octet_string_too_many_bytes() {
    let bytes = b"Hello\0";
    let error = COctetString::<1, 5>::from_slice(bytes).unwrap_err();
    assert!(matches!(error, Error::TooManyBytes { actual: 6, max: 5 }));
    let string = String::from("Hello");
    let error = COctetString::<1, 5>::from_string(string).unwrap_err();
    assert!(matches!(error, Error::TooManyBytes { actual: 6, .. }));
    let bytes = b"Hello\0";
    let error = <COctetString<1, 5> as Decode>::decode(bytes).unwrap_err();
    assert!(matches!(
        error.kind(),
        DecodeErrorKind::COctetStringDecodeError(COctetStringDecodeError::NotNullTerminated)
    ));
}

#[test]
fn c_octet_string_too_few_bytes() {
    let bytes = b"Hello\0";
    let error = COctetString::<10, 20>::from_slice(bytes).unwrap_err();
    assert!(matches!(error, Error::TooFewBytes { actual: 6, min: 10 }));
    let string = String::from("Hello");
    let error = COctetString::<10, 20>::from_string(string).unwrap_err();
    assert!(matches!(error, Error::TooFewBytes { actual: 6, .. }));
    let bytes = b"Hello\0";
    let error = <COctetString<10, 20> as Decode>::decode(bytes).unwrap_err();
    assert!(matches!(
        error.kind(),
        DecodeErrorKind::COctetStringDecodeError(COctetStringDecodeError::TooFewBytes {
            actual: 6,
            min: 10,
        })
    ));
}

#[test]
fn c_octet_string_not_null_terminated() {
    let bytes = b"Hello";
    let error = COctetString::<1, 5>::from_slice(bytes).unwrap_err();
    assert!(matches!(error, Error::NotNullTerminated));
    let bytes = b"hi";
    let error = <COctetString<1, 6> as Decode>::decode(bytes).unwrap_err();
    assert!(matches!(
        error.kind(),
        DecodeErrorKind::COctetStringDecodeError(COctetStringDecodeError::NotNullTerminated)
    ));
}

#[test]
fn c_octet_string_not_ascii() {
    let bytes = b"Hell\xF0\0";
    let error = COctetString::<1, 6>::from_slice(bytes).unwrap_err();
    assert!(matches!(error, Error::NotAscii));
    let bytes = b"Hell\xF0\0";
    let error = <COctetString<1, 6> as Decode>::decode(bytes).unwrap_err();
    assert!(matches!(
        error.kind(),
        DecodeErrorKind::COctetStringDecodeError(COctetStringDecodeError::NotAscii)
    ));
}

#[test]
fn c_octet_string_null_byte_found() {
    let bytes = b"Hel\0o\0";
    let error = COctetString::<1, 6>::from_slice(bytes).unwrap_err();
    assert!(matches!(error, Error::NullByteFound));
    let string = String::from("Hel\0o");
    let error = COctetString::<1, 6>::from_string(string).unwrap_err();
    assert!(matches!(error, Error::NullByteFound));
}

#[test]
fn null_null_byte_found() {
    let string = String::from("\0");
    let error = COctetString::<1, 5>::from_string(string).unwrap_err();
    assert!(matches!(error, Error::NullByteFound));
}

#[test]
fn null_byte_found_at_the_end() {
    let string = String::from("Hell\0");
    let error = COctetString::<1, 6>::from_string(string).unwrap_err();
    assert!(matches!(error, Error::NullByteFound));
}

#[test]
fn c_octet_string_ok_min() {
    let bytes = b"\0";
    let string = COctetString::<1, 6>::from_slice(bytes).unwrap();
    assert_eq!(string.into_vec(), bytes.to_vec());
    let string = COctetString::<1, 6>::from_string(String::from("")).unwrap();
    assert_eq!(string.into_vec(), b"\0".to_vec());
}

#[test]
fn c_octet_string_ok_max() {
    let bytes = b"Hello\0";
    let string = COctetString::<1, 6>::from_slice(bytes).unwrap();
    assert_eq!(string.into_vec(), bytes.to_vec());
    let string = COctetString::<1, 6>::from_string(String::from("Hello")).unwrap();
    assert_eq!(string.into_vec(), b"Hello\0".to_vec());
    let (string, size) = <COctetString<1, 6> as Decode>::decode(b"Hello\0").unwrap();
    assert_eq!(string.length(), 6);
    assert_eq!(size, 6);
    assert_eq!(string.into_vec(), b"Hello\0".to_vec());
}

#[test]
fn c_octet_string_ok_between_min_max() {
    let bytes = b"Hel\0";
    let string = COctetString::<1, 6>::from_slice(bytes).unwrap();
    assert_eq!(string.into_vec(), bytes.to_vec());
    let string = COctetString::<1, 6>::from_string(String::from("Hel")).unwrap();
    assert_eq!(string.into_vec(), b"Hel\0".to_vec());
}

#[test]
fn c_octet_string_ok_len() {
    let bytes = b"Hello\0";
    let string = COctetString::<1, 6>::from_slice(bytes).unwrap();
    assert_eq!(string.len(), 6);
    assert_eq!(string.length(), 6);
    let string = COctetString::<1, 6>::from_string(String::from("Hello")).unwrap();
    assert_eq!(string.len(), 6);
    assert_eq!(string.length(), 6);
}

#[test]
fn c_octet_string_ok_empty() {
    let bytes = b"\0";
    let string = COctetString::<1, 6>::from_slice(bytes).unwrap();
    assert_eq!(string.into_vec(), bytes.to_vec());
    let string = COctetString::<1, 6>::from_string(String::from("")).unwrap();
    assert_eq!(string.into_vec(), b"\0".to_vec());
}

#[test]
fn c_octet_string_ok_empty_len() {
    let bytes = b"\0";
    let string = COctetString::<1, 6>::from_slice(bytes).unwrap();
    assert_eq!(string.len(), 1);
    assert_eq!(string.length(), 1);
    let string = COctetString::<1, 6>::from_string(String::from("")).unwrap();
    assert_eq!(string.len(), 1);
    assert_eq!(string.length(), 1);
}

#[test]
fn c_octet_string_ok() {
    let bytes = b"Hello\0";
    let string = COctetString::<1, 6>::from_slice(bytes).unwrap();
    assert_eq!(string.as_str(), "Hello");
    assert_eq!(string.as_str().to_string(), "Hello");
}

#[test]
fn c_octet_string_unexpected_eof_empty() {
    let bytes = b"";
    let error = <COctetString<1, 6> as Decode>::decode(bytes).unwrap_err();
    assert!(matches!(
        error.kind(),
        DecodeErrorKind::COctetStringDecodeError(COctetStringDecodeError::TooFewBytes {
            actual: 0,
            min: 1,
        })
    ));
}

#[test]
fn ok_not_max() {
    let bytes = b"Hello\0";
    let (string, size) = <COctetString<1, 25> as Decode>::decode(bytes).unwrap();
    assert_eq!(string.length(), 6);
    assert_eq!(size, 6);
    assert_eq!(string.into_vec(), b"Hello\0".to_vec());
}

#[test]
fn ok_empty_max() {
    let bytes = b"\0";
    let (string, size) = <COctetString<1, 1> as Decode>::decode(bytes).unwrap();
    assert_eq!(string.length(), 1);
    assert_eq!(size, 1);
    assert_eq!(string.into_vec(), b"\0".to_vec());
}

#[test]
fn ok_empty_not_max() {
    let bytes = b"\0";
    let (string, size) = <COctetString<1, 25> as Decode>::decode(bytes).unwrap();
    assert_eq!(string.length(), 1);
    assert_eq!(size, 1);
    assert_eq!(string.into_vec(), b"\0".to_vec());
}

#[test]
fn ok_remaining() {
    let bytes = b"Hello\0World!";
    let (string, size) = <COctetString<1, 10> as Decode>::decode(bytes).unwrap();
    assert_eq!(string.length(), 6);
    assert_eq!(size, 6);
    assert_eq!(string.into_vec(), b"Hello\0".to_vec());
    assert_eq!(&bytes[size..], b"World!");
}

#[test]
fn decode_null_yields_empty() {
    let bytes = b"\0";
    let (string, size) = <COctetString<1, 6> as Decode>::decode(bytes).unwrap();
    assert!(string.is_empty());
    assert_eq!(size, 1);
}

#[test]
fn decode_leaves_following_bytes() {
    let bytes = b"Hello\0World";
    let (string, size) = <COctetString<1, 6> as Decode>::decode(bytes).unwrap();
    assert_eq!(string.into_vec(), b"Hello\0".to_vec());
    assert_eq!(size, 6);
    assert_eq!(&bytes[size..], b"World");
}
