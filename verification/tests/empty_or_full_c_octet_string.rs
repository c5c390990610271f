use rusmpp::decode::{COctetStringDecodeError, Decode, DecodeErrorKind};
use rusmpp::encode::Encode;
use rusmpp::types::empty_or_full_c_octet_string::{EmptyOrFullCOctetString, Error};

fn round_trip<const N: usize>(s: &EmptyOrFullCOctetString<N>) {
    let mut buf: Vec<u8> = Vec::new();
    s.encode(&mut buf);
    assert_eq!(s.length(), buf.len());
    let (decoded, size) = <EmptyOrFullCOctetString<N> as Decode>::decode(&buf).unwrap();
    assert_eq!(size, buf.len());
    assert_eq!(decoded.into_vec(), s.clone().into_vec());
}

fn full(n: usize) -> Vec<u8> {
    let mut v = vec![b'1'; n - 1];
    v.push(0);
    v
}

#[test]
fn empty_or_full_c_octet_string_encode_decode() {
    round_trip(&EmptyOrFullCOctetString::<1>::empty());
    round_trip(&EmptyOrFullCOctetString::<1>::from_vec(full(1)).unwrap());
    round_trip(&EmptyOrFullCOctetString::<2>::empty());
    round_trip(&EmptyOrFullCOctetString::<2>::from_vec(full(2)).unwrap());
    round_trip(&EmptyOrFullCOctetString::<3>::empty());
    round_trip(&EmptyOrFullCOctetString::<3>::from_vec(full(3)).unwrap());
}

#[test]
fn empty_or_full_c_octet_string_empty_too_few_bytes() {
    let bytes = b"";
    let error = EmptyOrFullCOctetString::<5>::from_slice(bytes).unwrap_err();
    assert!(matches!(error, Error::TooFewBytes { actual: 0 }));
}

#[test]
fn empty_or_full_c_octet_string_too_many_bytes() {
    let bytes = b"Hello\0";
    let error = EmptyOrFullCOctetString::<5>::from_slice(bytes).unwrap_err();
    assert!(matches!(error, Error::TooManyBytes { actual: 6, max: 5 }));
    let error = EmptyOrFullCOctetString::<5>::from_string(String::from("Hello")).unwrap_err();
    assert!(matches!(error, Error::TooManyBytes { actual: 6, .. }));
    let bytes = b"Hello\0";
    let error = <EmptyOrFullCOctetString<5> as Decode>::decode(bytes).unwrap_err();
    assert!(matches!(
        error.kind(),
        DecodeErrorKind::COctetStringDecodeError(COctetStringDecodeError::NotNullTerminated)
    ));
}

#[test]
fn empty_or_full_c_octet_string_too_few_bytes() {
    let bytes = b"Hel\0";
    let error = EmptyOrFullCOctetString::<5>::from_slice(bytes).unwrap_err();
    assert!(matches!(error, Error::TooFewBytes { actual: 4 }));
    let error = EmptyOrFullCOctetString::<5>::from_string(String::from("Hel")).unwrap_err();
    assert!(matches!(error, Error::TooFewBytes { actual: 4 }));
    let bytes = b"Hel\0";
    let error = <EmptyOrFullCOctetString<5> as Decode>::decode(bytes).unwrap_err();
    assert!(matches!(
        error.kind(),
        DecodeErrorKind::COctetStringDecodeError(COctetStringDecodeError::TooFewBytes {
            actual: 4,
            min: 5,
        })
    ));
}

#[test]
fn empty_or_full_c_octet_string_not_null_terminated() {
    let bytes = b"Hello";
    let error = EmptyOrFullCOctetString::<5>::from_slice(bytes).unwrap_err();
    assert!(matches!(error, Error::NotNullTerminated));
    let bytes = b"Hi";
    let error = <EmptyOrFullCOctetString<2> as Decode>::decode(bytes).unwrap_err();
    assert!(matches!(
        error.kind(),
        DecodeErrorKind::COctetStringDecodeError(COctetStringDecodeError::NotNullTerminated)
    ));
}

#[test]
fn empty_or_full_c_octet_string_not_ascii() {
    let bytes = b"Hell\xF0\0";
    let error = EmptyOrFullCOctetString::<6>::from_slice(bytes).unwrap_err();
    assert!(matches!(error, Error::NotAscii));
    let error = EmptyOrFullCOctetString::<7>::from_string(String::from("Hell\u{f6}")).unwrap_err();
    assert!(matches!(error, Error::NotAscii));
    let bytes = b"Hell\xF0\0";
    let error = <EmptyOrFullCOctetString<6> as Decode>::decode(bytes).unwrap_err();
    assert!(matches!(
        error.kind(),
        DecodeErrorKind::COctetStringDecodeError(COctetStringDecodeError::NotAscii)
    ));
}

#[test]
fn empty_or_full_c_octet_string_null_byte_found() {
    let bytes = b"Hel\0lo\0";
    let error = EmptyOrFullCOctetString::<7>::from_slice(bytes).unwrap_err();
    assert!(matches!(error, Error::NullByteFound));
    let error = EmptyOrFullCOctetString::<7>::from_string(String::from("Hel\0lo")).unwrap_err();
    assert!(matches!(error, Error::NullByteFound));
}

#[test]
fn empty_or_full_c_octet_string_ok() {
    let bytes = b"Hello\0";
    let string = EmptyOrFullCOctetString::<6>::from_slice(bytes).unwrap();
    assert_eq!(string.clone().into_vec(), bytes.to_vec());
    assert_eq!(string.as_str(), "Hello");
    let string = EmptyOrFullCOctetString::<6>::from_string(String::from("Hello")).unwrap();
    assert_eq!(string.into_vec(), b"Hello\0".to_vec());
    let bytes = b"Hello\0World!";
    let (string, size) = <EmptyOrFullCOctetString<6> as Decode>::decode(bytes).unwrap();
    assert_eq!(string.length(), 6);
    assert_eq!(size, 6);
    assert_eq!(string.into_vec(), b"Hello\0".to_vec());
    assert_eq!(&bytes[size..], b"World!");
}

#[test]
fn empty_or_full_c_octet_string_ok_len() {
    let bytes = b"Hello\0";
    let string = EmptyOrFullCOctetString::<6>::from_slice(bytes).unwrap();
    assert_eq!(string.len(), 6);
    assert_eq!(string.length(), 6);
    let string = EmptyOrFullCOctetString::<6>::from_string(String::from("Hello")).unwrap();
    assert_eq!(string.len(), 6);
    assert_eq!(string.length(), 6);
}

#[test]
fn empty_or_full_c_octet_string_ok_empty() {
    let bytes = b"\0";
    let string = EmptyOrFullCOctetString::<6>::from_slice(bytes).unwrap();
    assert_eq!(string.clone().into_vec(), bytes.to_vec());
    assert_eq!(string.len(), 1);
    assert_eq!(string.length(), 1);
    let string = EmptyOrFullCOctetString::<6>::from_string(String::from("")).unwrap();
    assert_eq!(string.into_vec(), b"\0".to_vec());
    let bytes = b"\0World!";
    let (string, size) = <EmptyOrFullCOctetString<6> as Decode>::decode(bytes).unwrap();
    assert_eq!(string.length(), 1);
    assert_eq!(size, 1);
    assert_eq!(string.into_vec(), b"\0".to_vec());
    assert_eq!(&bytes[size..], b"World!");
}

#[test]
fn empty_or_full_c_octet_string_ok_empty_len() {
    let string = EmptyOrFullCOctetString::<6>::from_string(String::from("")).unwrap();
    assert_eq!(string.len(), 1);
    assert_eq!(string.length(), 1);
}

#[test]
fn empty_ok() {
    let bytes = b"\0";
    let string = EmptyOrFullCOctetString::<6>::from_slice(bytes).unwrap();
    assert!(string.as_str().is_empty());
    assert!(string.as_str().to_string().is_empty());
}

#[test]
fn empty_or_full_c_octet_string_unexpected_eof_empty() {
    let bytes = b"";
    let error = <EmptyOrFullCOctetString<6> as Decode>::decode(bytes).unwrap_err();
    assert!(matches!(error.kind(), DecodeErrorKind::UnexpectedEof));
}
