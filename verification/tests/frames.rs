use robotrs::frames::BinaryMessageError;
use robotrs::nt::{BinaryData, BinaryMessage};

fn message(id: i64, timestamp: u64, tag: u64, value: impl FnOnce(&mut Vec<u8>)) -> Vec<u8> {
    let mut buf = Vec::new();
    rmp::encode::write_array_len(&mut buf, 4).unwrap();
    rmp::encode::write_sint(&mut buf, id).unwrap();
    rmp::encode::write_uint(&mut buf, timestamp).unwrap();
    rmp::encode::write_uint(&mut buf, tag).unwrap();
    value(&mut buf);
    buf
}

fn read(bytes: &[u8]) -> Result<(BinaryMessage, usize), BinaryMessageError> {
    BinaryMessage::from_reader(bytes, 0)
}

#[test]
fn reads_scalar_values() {
    let bytes = message(-1, 123_456, 2, |b| {
        rmp::encode::write_sint(b, -42).unwrap();
    });
    let (m, next) = read(&bytes).unwrap();
    assert_eq!(next, bytes.len());
    assert_eq!(m.id, -1);
    assert_eq!(m.timestamp, 123_456);
    assert_eq!(m.data, BinaryData::Int(-42));

    let bytes = message(7, 0, 0, |b| rmp::encode::write_bool(b, true).unwrap());
    assert_eq!(read(&bytes).unwrap().0.data, BinaryData::Boolean(true));

    let bytes = message(7, 0, 1, |b| rmp::encode::write_f64(b, 1.5).unwrap());
    assert_eq!(read(&bytes).unwrap().0.data, BinaryData::Double(1.5f64.to_bits()));

    let bytes = message(7, 0, 3, |b| rmp::encode::write_f32(b, -2.25).unwrap());
    assert_eq!(read(&bytes).unwrap().0.data, BinaryData::Float((-2.25f32).to_bits()));
}

#[test]
fn reads_strings_and_bytes() {
    let bytes = message(3, 9, 4, |b| rmp::encode::write_str(b, "hello").unwrap());
    assert_eq!(read(&bytes).unwrap().0.data, BinaryData::Str("hello".to_string()));

    let bytes = message(3, 9, 5, |b| rmp::encode::write_bin(b, &[1, 2, 3]).unwrap());
    assert_eq!(read(&bytes).unwrap().0.data, BinaryData::Bin(vec![1, 2, 3]));
}

#[test]
fn reads_arrays() {
    let bytes = message(1, 2, 16, |b| {
        rmp::encode::write_array_len(b, 2).unwrap();
        rmp::encode::write_bool(b, false).unwrap();
        rmp::encode::write_bool(b, true).unwrap();
    });
    assert_eq!(read(&bytes).unwrap().0.data, BinaryData::BoolArray(vec![false, true]));

    let bytes = message(1, 2, 18, |b| {
        rmp::encode::write_array_len(b, 3).unwrap();
        for v in [0i64, 300, -70000] {
            rmp::encode::write_sint(b, v).unwrap();
        }
    });
    assert_eq!(read(&bytes).unwrap().0.data, BinaryData::IntArray(vec![0, 300, -70000]));

    let bytes = message(1, 2, 20, |b| {
        rmp::encode::write_array_len(b, 2).unwrap();
        rmp::encode::write_str(b, "a").unwrap();
        rmp::encode::write_str(b, "bc").unwrap();
    });
    assert_eq!(
        read(&bytes).unwrap().0.data,
        BinaryData::StringArray(vec!["a".to_string(), "bc".to_string()])
    );

    let bytes = message(1, 2, 17, |b| {
        rmp::encode::write_array_len(b, 1).unwrap();
        rmp::encode::write_f64(b, 0.5).unwrap();
    });
    assert_eq!(read(&bytes).unwrap().0.data, BinaryData::DoubleArray(vec![0.5f64.to_bits()]));

    let bytes = message(1, 2, 19, |b| {
        rmp::encode::write_array_len(b, 0).unwrap();
    });
    assert_eq!(read(&bytes).unwrap().0.data, BinaryData::FloatArray(vec![]));
}

#[test]
fn consecutive_messages_in_one_frame() {
    let mut frame = message(1, 10, 2, |b| {
        rmp::encode::write_sint(b, 5).unwrap();
    });
    let first_len = frame.len();
    frame.extend(message(2, 20, 0, |b| rmp::encode::write_bool(b, false).unwrap()));
    let (first, next) = BinaryMessage::from_reader(&frame, 0).unwrap();
    assert_eq!(next, first_len);
    assert_eq!(first.data, BinaryData::Int(5));
    let (second, end) = BinaryMessage::from_reader(&frame, next).unwrap();
    assert_eq!(end, frame.len());
    assert_eq!(second.id, 2);
    assert_eq!(BinaryData::from_reader(&frame, first_len - 2), Ok((BinaryData::Int(5), first_len)));
}

#[test]
fn malformed_messages() {
    let mut bytes = Vec::new();
    rmp::encode::write_array_len(&mut bytes, 3).unwrap();
    assert_eq!(read(&bytes).unwrap_err(), BinaryMessageError::MessageLen(3));

    assert_eq!(read(&[]).unwrap_err(), BinaryMessageError::ValueReadError);

    let bytes = message(1, 1, 6, |_| {});
    assert_eq!(read(&bytes).unwrap_err(), BinaryMessageError::UnknownDataType(6));

    let bytes = message(1, 1, 300, |_| {});
    assert_eq!(read(&bytes).unwrap_err(), BinaryMessageError::IntError);

    let bytes = message(1, 1, 0, |b| {
        rmp::encode::write_sint(b, 1).unwrap();
    });
    assert_eq!(read(&bytes).unwrap_err(), BinaryMessageError::ValueReadError);

    let mut bytes = message(1, 1, 4, |b| rmp::encode::write_str(b, "hello").unwrap());
    bytes.truncate(bytes.len() - 1);
    assert_eq!(read(&bytes).unwrap_err(), BinaryMessageError::IoError);

    let bytes = message(1, 1, 4, |b| {
        rmp::encode::write_str_len(b, 2).unwrap();
        b.extend_from_slice(&[0xff, 0xfe]);
    });
    assert_eq!(read(&bytes).unwrap_err(), BinaryMessageError::InvalidUTF8);
}

#[test]
fn wide_integers_fit_their_fields() {
    let bytes = message(i64::MIN, u64::MAX, 2, |b| {
        rmp::encode::write_sint(b, i64::MAX).unwrap();
    });
    let (m, _) = read(&bytes).unwrap();
    assert_eq!(m.id, i64::MIN);
    assert_eq!(m.timestamp, u64::MAX);
    assert_eq!(m.data, BinaryData::Int(i64::MAX));
    // A negative timestamp does not fit a u64.
    let mut bytes = Vec::new();
    rmp::encode::write_array_len(&mut bytes, 4).unwrap();
    rmp::encode::write_sint(&mut bytes, 1).unwrap();
    rmp::encode::write_sint(&mut bytes, -5).unwrap();
    assert_eq!(read(&bytes).unwrap_err(), BinaryMessageError::IntError);
    // An integer value above i64::MAX does not fit an Int value.
    let bytes = message(1, 1, 2, |b| {
        rmp::encode::write_uint(b, u64::MAX).unwrap();
    });
    assert_eq!(read(&bytes).unwrap_err(), BinaryMessageError::IntError);
}

#[test]
fn read_frame_reads_every_message() {
    let mut bytes = message(3, 10, 2, |b| { rmp::encode::write_sint(b, 5).unwrap(); });
    bytes.extend(message(4, 11, 0, |b| rmp::encode::write_bool(b, false).unwrap()));
    let (messages, end) = robotrs::frames::read_frame(&bytes);
    assert!(end.is_ok());
    assert_eq!(messages.len(), 2);
    assert_eq!(messages[0].id, 3);
    assert_eq!(messages[0].data, BinaryData::Int(5));
    assert_eq!(messages[1].timestamp, 11);
    assert_eq!(messages[1].data, BinaryData::Boolean(false));
}

#[test]
fn read_frame_stops_at_a_malformed_message() {
    let mut bytes = message(3, 10, 2, |b| { rmp::encode::write_sint(b, 5).unwrap(); });
    bytes.extend([0x93, 1, 2, 3]);
    let (messages, end) = robotrs::frames::read_frame(&bytes);
    assert_eq!(messages.len(), 1);
    assert!(matches!(end, Err(BinaryMessageError::MessageLen(3))));
    let (none, ok) = robotrs::frames::read_frame(&[]);
    assert!(none.is_empty() && ok.is_ok());
}
