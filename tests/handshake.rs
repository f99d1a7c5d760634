use dinojam::handshake::{
    name_bytes_from_user_data, name_from_user_data, user_data_for_name, NAME_CAPACITY,
    USER_DATA_BYTES,
};

#[test]
fn name_round_trips_through_user_data() {
    let data = user_data_for_name("Alice").unwrap();
    assert_eq!(data.len(), USER_DATA_BYTES);
    assert_eq!(&data[0..8], &[5, 0, 0, 0, 0, 0, 0, 0]);
    assert_eq!(&data[8..13], b"Alice");
    assert!(data[13..].iter().all(|b| *b == 0));
    assert_eq!(name_from_user_data(&data), Some("Alice".to_string()));
}

#[test]
fn multibyte_name_round_trips() {
    let data = user_data_for_name("Élodie").unwrap();
    assert_eq!(data[0], 7);
    assert_eq!(name_from_user_data(&data), Some("Élodie".to_string()));
}

#[test]
fn too_long_name_does_not_fit() {
    let long = "x".repeat(NAME_CAPACITY + 1);
    assert_eq!(user_data_for_name(&long), None);
    let full = "y".repeat(NAME_CAPACITY);
    let data = user_data_for_name(&full).unwrap();
    assert_eq!(name_from_user_data(&data), Some(full));
}

#[test]
fn declared_length_is_capped() {
    let mut data = [b'z'; USER_DATA_BYTES];
    data[0..8].copy_from_slice(&(10_000u64).to_le_bytes());
    assert_eq!(name_bytes_from_user_data(&data).len(), NAME_CAPACITY);
    let mut small = [0u8; USER_DATA_BYTES];
    small[0..8].copy_from_slice(&(3u64).to_le_bytes());
    small[8..11].copy_from_slice(b"abc");
    assert_eq!(name_bytes_from_user_data(&small), b"abc".to_vec());
}

#[test]
fn invalid_utf8_name_is_refused() {
    let mut data = [0u8; USER_DATA_BYTES];
    data[0] = 2;
    data[8] = 0xff;
    data[9] = 0xfe;
    assert_eq!(name_from_user_data(&data), None);
}
