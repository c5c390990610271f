use rusmpp::decode::{DecodeErrorKind, DecodeWithLength, OctetStringDecodeError};
use rusmpp::encode::Encode;
use rusmpp::types::octet_string::{Error, OctetString};

fn round_trip<const MIN: usize, const MAX: usize>(s: &OctetString<MIN, MAX>) {
    let mut buf: Vec<u8> = Vec::new();
    s.encode(&mut buf);
    assert_eq!(s.length(), buf.len());
    let (decoded, size) =
        <OctetString<MIN, MAX> as DecodeWithLength>::decode(&buf, buf.len()).unwrap();
    assert_eq!(size, buf.len());
    assert_eq!(decoded.into_vec(), s.clone().into_vec());
}

#[test]
fn octet_string_encode_decode() {
    round_trip(&OctetString::<0, 5>::empty());
    round_trip(&OctetString::<0, 5>::from_vec(vec![b'1'; 0]).unwrap());
    round_trip(&OctetString::<0, 5>::from_vec(vec![b'1'; 2]).unwrap());
    round_trip(&OctetString::<0, 5>::from_vec(vec![b'1'; 5]).unwrap());
    round_trip(&OctetString::<1, 5>::empty());
    round_trip(&OctetString::<1, 5>::from_vec(vec![b'1'; 1]).unwrap());
    round_trip(&OctetString::<1, 5>::from_vec(vec![b'1'; 2]).unwrap());
    round_trip(&OctetString::<1, 5>::from_vec(vec![b'1'; 5]).unwrap());
    round_trip(&OctetString::<2, 5>::empty());
    round_trip(&OctetString::<2, 5>::from_vec(vec![b'1'; 2]).unwrap());
    round_trip(&OctetString::<2, 5>::from_vec(vec![b'1'; 5]).unwrap());
}

#[test]
fn octet_string_too_many_bytes() {
    let bytes = b"Hello\0World!\0";
    let error = OctetString::<0, 5>::from_slice(bytes).unwrap_err();
    assert!(matches!(error, Error::TooManyBytes { actual: 13, .. }));
    let buf = b"Hello";
    let error = <OctetString<0, 5> as DecodeWithLength>::decode(buf, 15).unwrap_err();
    assert!(matches!(
        error.kind(),
        DecodeErrorKind::OctetStringDecodeError(OctetStringDecodeError::TooManyBytes {
            actual: 15,
            max: 5,
        })
    ));
}

#[test]
fn octet_string_too_few_bytes() {
    let bytes = b"Hello World!";
    let error = OctetString::<15, 20>::from_slice(bytes).unwrap_err();
    assert!(matches!(error, Error::TooFewBytes { actual: 12, .. }));
    let buf = b"Hello";
    let error = <OctetString<6, 10> as DecodeWithLength>::decode(buf, 5).unwrap_err();
    assert!(matches!(
        error.kind(),
        DecodeErrorKind::OctetStringDecodeError(OctetStringDecodeError::TooFewBytes {
            actual: 5,
            min: 6,
        })
    ));
}

#[test]
fn octet_string_ok_min() {
    let bytes = b"H";
    let octet_string = OctetString::<1, 13>::from_slice(bytes).unwrap();
    assert_eq!(octet_string.into_vec(), bytes.to_vec());
}

#[test]
fn octet_string_ok_max() {
    let bytes = b"Hello\0World!\0";
    let octet_string = OctetString::<1, 13>::from_slice(bytes).unwrap();
    assert_eq!(octet_string.into_vec(), bytes.to_vec());
}

#[test]
fn octet_string_ok_between_min_max() {
    let bytes = b"Hello\0";
    let octet_string = OctetString::<1, 13>::from_slice(bytes).unwrap();
    assert_eq!(octet_string.into_vec(), bytes.to_vec());
}

#[test]
fn octet_string_ok_len() {
    let bytes = b"Hello\0World!\0";
    let octet_string = OctetString::<0, 13>::from_slice(bytes).unwrap();
    assert_eq!(octet_string.len(), 13);
    assert_eq!(octet_string.length(), 13);
}

#[test]
fn octet_string_ok() {
    let bytes = b"Hello\0World!\0";
    let octet_string = OctetString::<0, 13>::from_slice(bytes).unwrap();
    assert_eq!(octet_string.to_str().unwrap(), "Hello\0World!\0");
}

#[test]
fn octet_string_unexpected_eof_empty() {
    let buf: &[u8] = b"";
    let error = <OctetString<0, 6> as DecodeWithLength>::decode(buf, 5).unwrap_err();
    assert!(matches!(error.kind(), DecodeErrorKind::UnexpectedEof));
}

#[test]
fn octet_string_ok_all() {
    let buf = b"Hello";
    let (string, size) = <OctetString<0, 5> as DecodeWithLength>::decode(buf, 5).unwrap();
    assert_eq!(string.length(), 5);
    assert_eq!(size, 5);
    assert_eq!(string.into_vec(), b"Hello".to_vec());
    assert!(buf[size..].is_empty());
}

#[test]
fn octet_string_ok_partial() {
    let buf = b"Hello";
    let (string, size) = <OctetString<0, 5> as DecodeWithLength>::decode(buf, 3).unwrap();
    assert_eq!(string.length(), 3);
    assert_eq!(size, 3);
    assert_eq!(string.into_vec(), b"Hel".to_vec());
    assert_eq!(&buf[size..], b"lo");
}
