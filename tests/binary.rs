use week_one::binary::{CodecError, User};

fn alice() -> User {
    User { name: String::from("Alice"), age: 30, pub_key: vec![1, 2, 3, 4, 5] }
}

#[test]
fn encodes_fields_in_order() {
    let bytes = alice().to_bytes().unwrap();
    assert_eq!(
        bytes,
        vec![5, 0, 0, 0, b'A', b'l', b'i', b'c', b'e', 30, 0, 0, 0, 5, 0, 0, 0, 1, 2, 3, 4, 5]
    );
}

#[test]
fn round_trip_keeps_every_field() {
    let u = alice();
    let back = User::from_bytes(&u.to_bytes().unwrap()).unwrap();
    assert_eq!(back.name, u.name);
    assert_eq!(back.age, u.age);
    assert_eq!(back.pub_key, u.pub_key);
}

#[test]
fn round_trip_empty_and_wide_fields() {
    let u = User { name: String::from("Ünïcödé ✓"), age: u32::MAX, pub_key: vec![] };
    let bytes = u.to_bytes().unwrap();
    assert_eq!(bytes.len(), 4 + u.name.len() + 4 + 4);
    let back = User::from_bytes(&bytes).unwrap();
    assert_eq!(back.name, u.name);
    assert_eq!(back.age, u32::MAX);
    assert!(back.pub_key.is_empty());
}

#[test]
fn rejects_trailing_bytes() {
    let mut bytes = alice().to_bytes().unwrap();
    bytes.push(0);
    assert_eq!(User::from_bytes(&bytes).unwrap_err(), CodecError::Malformed);
}

#[test]
fn rejects_short_input() {
    let bytes = alice().to_bytes().unwrap();
    assert_eq!(User::from_bytes(&bytes[..bytes.len() - 1]).unwrap_err(), CodecError::Malformed);
    assert_eq!(User::from_bytes(&[]).unwrap_err(), CodecError::Malformed);
}

#[test]
fn rejects_name_that_is_not_utf8() {
    let bytes = vec![1, 0, 0, 0, 0xff, 30, 0, 0, 0, 0, 0, 0, 0];
    assert_eq!(User::from_bytes(&bytes).unwrap_err(), CodecError::Malformed);
}
