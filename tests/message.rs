use tws_codec::message::EMessage;

#[test]
fn new_message_is_empty() {
    let msg = EMessage::new();
    assert!(msg.get_raw_data().is_empty());
    assert!(msg.as_slice().is_empty());
}

#[test]
fn append_accumulates() {
    let mut msg = EMessage::new();
    msg.append(&[1, 2]);
    msg.append(&[]);
    msg.append(&[3]);
    assert_eq!(msg.get_raw_data(), vec![1, 2, 3]);
    assert_eq!(msg.as_slice(), &[1, 2, 3]);
    assert_eq!(msg.get_stream().as_bytes(), &[1, 2, 3]);
    assert_eq!(msg.into_bytes(), vec![1, 2, 3]);
}

#[test]
fn from_bytes_holds_them() {
    let mut msg = EMessage::from_bytes(b"abc");
    assert_eq!(msg.get_raw_data(), b"abc".to_vec());
    msg.append(b"d");
    assert_eq!(msg.into_bytes(), b"abcd".to_vec());
}
