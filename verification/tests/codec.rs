use cygnus::common::data::{checksum, crc, ror};

#[test]
fn ror_golden_vector() {
    let out = ror(&[0xAA, 0xAA, 0xAA, 0xAA], &[0x01, 0x02, 0x03, 0x04]);
    assert_eq!(out, vec![0x5D, 0x45, 0x4D, 0x75]);
}

#[test]
fn ror_is_not_its_own_inverse() {
    let material = [0xAA, 0xAA, 0xAA, 0xAA];
    let password = [0x01, 0x02, 0x03, 0x04];
    let once = ror(&material, &password);
    let twice = ror(&material, &once);
    assert_eq!(twice, vec![0xBF, 0x7F, 0x3F, 0xFE]);
    assert_ne!(twice, password.to_vec());
}

#[test]
fn ror_output_length_equals_password_length() {
    let material = [0x5A; 16];
    for len in 0..=16usize {
        let pwd: Vec<u8> = (0..len as u8).collect();
        assert_eq!(ror(&material, &pwd).len(), len);
    }
}

#[test]
fn checksum_exact_values() {
    assert_eq!(checksum(&[1, 2, 3, 4]), vec![0xBF, 0x77, 0x2E, 0xC0]);
    // a trailing partial group is zero-padded on the right
    assert_eq!(checksum(&[1, 2, 3, 4, 5]), vec![0xCF, 0x77, 0x2E, 0xC0]);
    // the exact input the login packet uses: fixed seed plus the MAC
    let seed_and_mac = [0x01, 0x26, 0x07, 0x11, 0x00, 0x00, 0, 1, 2, 3, 4, 5];
    assert_eq!(checksum(&seed_and_mac), vec![0x2C, 0x87, 0xB1, 0x70]);
}

#[test]
fn checksum_is_deterministic() {
    let data = [9, 8, 7, 6, 5, 4, 3, 2, 1];
    assert_eq!(checksum(&data), checksum(&data));
}

#[test]
fn crc_exact_values() {
    assert_eq!(crc(&[1, 2, 3, 4, 5]), vec![0x02, 0x06, 0x00, 0x00]);
    assert_eq!(crc(&[0x12, 0x34, 0x56, 0x78]), vec![0x44, 0x4C, 0x00, 0x00]);
}

#[test]
fn crc_ignores_odd_trailing_byte() {
    assert_eq!(crc(&[1, 2, 3]), crc(&[1, 2]));
}

#[test]
fn crc_changes_when_a_consumed_byte_changes() {
    assert_ne!(crc(&[1, 2, 3, 4]), crc(&[1, 2, 3, 5]));
    assert_ne!(crc(&[1, 2, 3, 4]), crc(&[0, 2, 3, 4]));
}

#[test]
fn crc_is_deterministic() {
    let data = [0xDE, 0xAD, 0xBE, 0xEF];
    assert_eq!(crc(&data), crc(&data));
}
