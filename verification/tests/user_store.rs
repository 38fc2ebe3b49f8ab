use cygnus::context::password::{PasswordStore, PasswordStoreConfig, PasswordStoreError};
use cygnus::user::cipher::UserCipher;
use cygnus::user::data::User;
use cygnus::user::error::UserError;

#[test]
fn test_encrypt_decrypt() {
    let user = User::new(b"user".to_vec(), b"password".to_vec(), vec![0; 6]);
    let buffer = UserCipher::encrypt(&user);
    let decrypted_user = UserCipher::decrypt(&buffer).unwrap();
    assert_eq!(user, decrypted_user);
}

#[test]
fn user_file_layout() {
    let user = User::new(b"alice".to_vec(), b"hunter2".to_vec(), vec![1, 2, 3, 4, 5, 6]);
    let data = UserCipher::encrypt(&user);
    // ciphertext is the password plus the 16-byte tag
    let clen: usize = 7 + 16;
    assert_eq!(data.len(), 32 + 12 + 8 + clen + 8 + 5 + 6);
    let mut be_clen = [0u8; 8];
    be_clen[7] = clen as u8;
    assert_eq!(&data[44..52], &be_clen);
    let ubase: usize = 52 + clen;
    let mut be_ulen = [0u8; 8];
    be_ulen[7] = 5;
    assert_eq!(&data[ubase..ubase + 8], &be_ulen);
    assert_eq!(&data[ubase + 8..ubase + 13], b"alice");
    assert_eq!(&data[ubase + 13..ubase + 19], &[1, 2, 3, 4, 5, 6]);
}

#[test]
fn decrypt_rejects_truncated_image() {
    let user = User::new(b"u".to_vec(), b"p".to_vec(), vec![0; 6]);
    let data = UserCipher::encrypt(&user);
    let truncated = data[..40].to_vec();
    assert_eq!(UserCipher::decrypt(&truncated), Err(UserError::Io));
    let cut_mac = data[..data.len() - 1].to_vec();
    assert_eq!(UserCipher::decrypt(&cut_mac), Err(UserError::Io));
}

#[test]
fn decrypt_rejects_tampered_ciphertext() {
    let user = User::new(b"user".to_vec(), b"password".to_vec(), vec![0; 6]);
    let mut data = UserCipher::encrypt(&user);
    data[52] ^= 0x01;  // flip one ciphertext bit
    assert_eq!(UserCipher::decrypt(&data), Err(UserError::Aead));
}

#[test]
fn test_save_and_load_password() {
    let config = PasswordStoreConfig {
        store_path: "jlud.passwd".to_string(),
        save_password: true,
    };
    let store = PasswordStore::new(config);
    let image = store.seal_password(&b"password".to_vec());
    assert!(image.is_some());
    assert_eq!(store.open_password(&image.unwrap()).unwrap(), b"password".to_vec());
}

#[test]
fn password_store_disabled_seals_nothing() {
    let config = PasswordStoreConfig {
        store_path: "jlud.passwd".to_string(),
        save_password: false,
    };
    let store = PasswordStore::new(config);
    assert!(store.seal_password(&b"password".to_vec()).is_none());
    assert!(!store.saves());
    assert_eq!(store.store_path(), "jlud.passwd");
}

#[test]
fn password_store_error_kinds() {
    let config = PasswordStoreConfig {
        store_path: "jlud.passwd".to_string(),
        save_password: true,
    };
    let store = PasswordStore::new(config);
    assert_eq!(
        store.open_password(&vec![0u8; 10]),
        Err(PasswordStoreError::IoError)
    );
    let mut image = store.seal_password(&b"password".to_vec()).unwrap();
    let last: usize = image.len() - 1;
    image[last] ^= 0xFF;
    assert_eq!(store.open_password(&image), Err(PasswordStoreError::CryptoError));
}

#[test]
fn transform_mac_parses_colon_separated_hex() {
    assert_eq!(
        User::transform_mac("00:11:22:aa:bb:cc").unwrap(),
        vec![0x00, 0x11, 0x22, 0xAA, 0xBB, 0xCC]
    );
    assert_eq!(
        User::transform_mac("AA:0f").unwrap(),
        vec![0xAA, 0x0F, 0, 0, 0, 0]
    );
    assert_eq!(User::transform_mac("7").unwrap(), vec![7, 0, 0, 0, 0, 0]);
}

#[test]
fn transform_mac_rejects_bad_input() {
    assert_eq!(User::transform_mac(""), Err(UserError::Mac));
    assert_eq!(User::transform_mac("xx"), Err(UserError::Mac));
    assert_eq!(User::transform_mac("1ff"), Err(UserError::Mac));
    assert_eq!(User::transform_mac("aa::bb"), Err(UserError::Mac));
    assert_eq!(
        User::transform_mac("11:22:33:44:55:66:77"),
        Err(UserError::Mac)
    );
}
