use rusmpp::decode::{COctetStringDecodeError, DecodeErrorKind, DecodeExt, DecodeWithLength};
use rusmpp::types::c_octet_string::COctetString;
use rusmpp::types::empty_or_full_c_octet_string::EmptyOrFullCOctetString;

#[test]
fn counted() {
    // Count is 0
    let buf: &[u8] = &[0, 1, 2];
    let (values, size) = u8::counted(buf, 0).unwrap();
    assert_eq!(size, 0);
    assert_eq!(values.len(), 0);
    assert_eq!(&buf[size..], &[0, 1, 2]);
    assert_eq!(values, Vec::<u8>::new());

    // Count is more than the buffer
    let buf: &[u8] = &[0, 1, 2];
    let error = u8::counted(buf, 5).unwrap_err();
    assert!(matches!(error.kind(), DecodeErrorKind::UnexpectedEof));

    // Count is within the buffer
    let buf: &[u8] = &[0, 1, 2, 3, 4, 5, 6, 7, 8, 9];
    let (values, size) = u8::counted(buf, 10).unwrap();
    assert_eq!(size, 10);
    assert_eq!(values.len(), 10);
    assert!(buf[size..].is_empty());
    assert_eq!(values, vec![0, 1, 2, 3, 4, 5, 6, 7, 8, 9]);

    let buf: &[u8] = &[0, 0, 0, 1, 0, 2, 0, 3, 0, 4, 0, 5, 0, 6, 0, 7, 0, 8, 0, 9];
    let (values, size) = u16::counted(buf, 10).unwrap();
    assert_eq!(size, 20);
    assert_eq!(values.len(), 10);
    assert!(buf[size..].is_empty());
    assert_eq!(values, vec![0, 1, 2, 3, 4, 5, 6, 7, 8, 9]);

    let buf: &[u8] = &[
        0, 0, 0, 0, 0, 0, 0, 1, 0, 0, 0, 2, 0, 0, 0, 3, 0, 0, 0, 4, 0, 0, 0, 5, 0, 0, 0, 6, 0, 0,
        0, 7, 0, 0, 0, 8, 0, 0, 0, 9,
    ];
    // Actually 10 values, 12 will break
    let error = u32::counted(buf, 12).unwrap_err();
    assert!(matches!(error.kind(), DecodeErrorKind::UnexpectedEof));

    let buf: &[u8] = b"Hello\0World\0";
    let (values, size) = COctetString::<1, 6>::counted_move(buf, 2, 0).unwrap();
    assert_eq!(size, 12);
    assert!(buf[size..].is_empty());
    assert_eq!(values.len(), 2);
    assert_eq!(values[0].clone().into_vec(), b"Hello\0".to_vec());
    assert_eq!(values[1].clone().into_vec(), b"World\0".to_vec());

    let buf: &[u8] = b"Hello\0World\0";
    let (values, size) = EmptyOrFullCOctetString::<6>::counted_move(buf, 2, 0).unwrap();
    assert_eq!(size, 12);
    assert!(buf[size..].is_empty());
    assert_eq!(values.len(), 2);
    assert_eq!(values[0].clone().into_vec(), b"Hello\0".to_vec());
    assert_eq!(values[1].clone().into_vec(), b"World\0".to_vec());

    let buf: &[u8] = b"Hello\0World\0Hi";
    let error = COctetString::<1, 6>::counted_move(buf, 3, 0).unwrap_err();
    assert!(matches!(
        error.kind(),
        DecodeErrorKind::COctetStringDecodeError(COctetStringDecodeError::NotNullTerminated)
    ));

    // Remaining bytes
    let buf: &[u8] = &[0, 1, 2, 3, 4, 5, 6, 7, 8, 9];
    let (values, size) = u8::counted_move(buf, 5, 0).unwrap();
    assert_eq!(size, 5);
    assert_eq!(&buf[size..], &[5, 6, 7, 8, 9]);
    assert_eq!(values, vec![0, 1, 2, 3, 4]);

    let buf: &[u8] = &[0, 0, 0, 1, 0, 2, 0, 3, 0, 4, 0, 5, 0, 6, 0, 7, 0, 8, 0, 9];
    let (values, size) = u16::counted_move(buf, 5, 0).unwrap();
    assert_eq!(size, 10);
    assert_eq!(&buf[size..], &[0, 5, 0, 6, 0, 7, 0, 8, 0, 9]);
    assert_eq!(values, vec![0, 1, 2, 3, 4]);
}

#[test]
fn decode_with_length_vec() {
    // Length is 0
    let buf: &[u8] = &[0, 1, 2];
    let (values, size) = <Vec<u8> as DecodeWithLength>::decode(buf, 0).unwrap();
    assert_eq!(size, 0);
    assert_eq!(&buf[size..], &[0, 1, 2]);
    assert_eq!(values, Vec::<u8>::new());

    // Length is bigger than the buffer
    let buf: &[u8] = &[0, 1, 2];
    let error = <Vec<u8> as DecodeWithLength>::decode(buf, 5).unwrap_err();
    assert!(matches!(error.kind(), DecodeErrorKind::UnexpectedEof));

    // Length is within the buffer
    let buf: &[u8] = &[0, 1, 2, 3, 4, 5, 6, 7, 8, 9];
    let (values, size) = <Vec<u8> as DecodeWithLength>::decode(buf, 10).unwrap();
    assert_eq!(size, 10);
    assert!(buf[size..].is_empty());
    assert_eq!(values, vec![0, 1, 2, 3, 4, 5, 6, 7, 8, 9]);

    let buf: &[u8] = &[0, 0, 0, 1, 0, 2, 0, 3, 0, 4, 0, 5, 0, 6, 0, 7, 0, 8, 0, 9];
    let (values, size) = <Vec<u16> as DecodeWithLength>::decode(buf, 20).unwrap();
    assert_eq!(size, 20);
    assert!(buf[size..].is_empty());
    assert_eq!(values, vec![0, 1, 2, 3, 4, 5, 6, 7, 8, 9]);

    let buf: &[u8] = &[
        0, 0, 0, 0, 0, 0, 0, 1, 0, 0, 0, 2, 0, 0, 0, 3, 0, 0, 0, 4, 0, 0, 0, 5, 0, 0, 0, 6, 0, 0,
        0, 7, 0, 0, 0, 8, 0, 0, 0, 9,
    ];
    // Actually 40 bytes, 50 will break
    let error = <Vec<u32> as DecodeWithLength>::decode(buf, 50).unwrap_err();
    assert!(matches!(error.kind(), DecodeErrorKind::UnexpectedEof));

    let buf: &[u8] = b"Hello\0World\0";
    let (values, size) = <Vec<COctetString<1, 6>> as DecodeWithLength>::decode(buf, 12).unwrap();
    assert_eq!(size, 12);
    assert!(buf[size..].is_empty());
    assert_eq!(values.len(), 2);
    assert_eq!(values[0].clone().into_vec(), b"Hello\0".to_vec());
    assert_eq!(values[1].clone().into_vec(), b"World\0".to_vec());

    let buf: &[u8] = b"Hello\0World\0";
    let (values, size) =
        <Vec<EmptyOrFullCOctetString<6>> as DecodeWithLength>::decode(buf, 12).unwrap();
    assert_eq!(size, 12);
    assert!(buf[size..].is_empty());
    assert_eq!(values.len(), 2);
    assert_eq!(values[0].clone().into_vec(), b"Hello\0".to_vec());
    assert_eq!(values[1].clone().into_vec(), b"World\0".to_vec());

    let buf: &[u8] = b"Hello\0World\0Hi";
    // This will try to decode 11 bytes
    let error = <Vec<COctetString<1, 6>> as DecodeWithLength>::decode(buf, 11).unwrap_err();
    assert!(matches!(
        error.kind(),
        DecodeErrorKind::COctetStringDecodeError(COctetStringDecodeError::NotNullTerminated)
    ));

    // Remaining bytes
    let buf: &[u8] = &[0, 1, 2, 3, 4, 5, 6, 7, 8, 9];
    let (values, size) = <Vec<u8> as DecodeWithLength>::decode(buf, 5).unwrap();
    assert_eq!(size, 5);
    assert_eq!(&buf[size..], &[5, 6, 7, 8, 9]);
    assert_eq!(values, vec![0, 1, 2, 3, 4]);

    let buf: &[u8] = &[0, 0, 0, 1, 0, 2, 0, 3, 0, 4, 0, 5, 0, 6, 0, 7, 0, 8, 0, 9];
    let (values, size) = <Vec<u16> as DecodeWithLength>::decode(buf, 10).unwrap();
    assert_eq!(size, 10);
    assert_eq!(&buf[size..], &[0, 5, 0, 6, 0, 7, 0, 8, 0, 9]);
    assert_eq!(values, vec![0, 1, 2, 3, 4]);
}
