//! An at-rest password store: the password sealed under a fresh key and nonce,
//! framed as nonce, key, then ciphertext. Reading and writing the store file
//! happens outside the library.
use crate::user::cipher::{aes256gcm_open, aes256gcm_seal, aes_open, generate_key,
    generate_nonce};
use vstd::prelude::*;

verus! {

/// Errors of the password store.
#[derive(Debug, Clone, PartialEq, Eq, Structural)]
pub enum PasswordStoreError {
    /// Authenticated encryption or decryption failed.
    CryptoError,
    /// An OS-level read or write failure, or a store image too short to parse.
    IoError,
    /// Stored bytes were not valid UTF-8.
    Utf8Error,
}

/// Where the store lives and whether saving is enabled at all.
#[derive(Debug, Default, PartialEq, Eq)]
pub struct PasswordStoreConfig {
    pub store_path: String,
    pub save_password: bool,
}

/// Seals passwords into store images and opens them again.
#[derive(Debug, Default)]
pub struct PasswordStore {
    config: PasswordStoreConfig,
}

impl PasswordStore {
    /// The configuration the store was created with.
    pub closed spec fn spec_config(self) -> PasswordStoreConfig {
        self.config
    }

    pub fn new(config: PasswordStoreConfig) -> (s: PasswordStore)
        ensures
            s.spec_config() == config,
    {
        PasswordStore { config }
    }

    /// Whether this store saves passwords at all.
    pub fn saves(&self) -> (b: bool)
        ensures
            b == self.spec_config().save_password,
    {
        self.config.save_password
    }

    /// The path of the store file, for the caller that writes or reads it.
    pub fn store_path(&self) -> (p: &String)
        ensures
            p == self.spec_config().store_path,
    {
        &self.config.store_path
    }

    /// Seals the password into a store image under a fresh key and nonce:
    /// 12-byte nonce, 32-byte key, then the ciphertext. Returns nothing
    /// exactly when saving is disabled, in which case no store file is
    /// written. The image's ciphertext opens back to the password under the
    /// image's own key and nonce.
    pub fn seal_password(&self, password: &Vec<u8>) -> (r: Option<Vec<u8>>)
        requires
            password@.len() <= 0x1000000000,
        ensures
            (r is None) == !self.spec_config().save_password,
            r matches Some(data) ==> {
                &&& data@.len() >= 44
                &&& aes_open(
                    data@.subrange(12, 44),
                    data@.subrange(0, 12),
                    data@.subrange(44, data@.len() as int),
                ) == Some(password@)
            },
    {
        if !self.config.save_password {
            return None;
        }
        let key = generate_key();
        let nonce = generate_nonce();
        let ciphertext = aes256gcm_seal(&key, &nonce, password);
        let mut data: Vec<u8> = Vec::new();
        crate::auth::packet::push_vec(&mut data, &nonce);
        crate::auth::packet::push_vec(&mut data, &key);
        crate::auth::packet::push_vec(&mut data, &ciphertext);
        proof {
            assert(data@.subrange(0, 12) =~= nonce@);
            assert(data@.subrange(12, 44) =~= key@);
            assert(data@.subrange(44, data@.len() as int) =~= ciphertext@);
        }
        Some(data)
    }

    /// Opens a store image back into the password: the first 12 bytes are the
    /// nonce, the next 32 the key, the rest the ciphertext. An image too short
    /// for nonce and key gives `IoError` (as a reader hitting end of file
    /// would report); a ciphertext that fails to authenticate gives
    /// `CryptoError`.
    pub fn open_password(&self, data: &Vec<u8>) -> (r: Result<Vec<u8>, PasswordStoreError>)
        ensures
            data@.len() < 44 ==> r == Err::<Vec<u8>, PasswordStoreError>(
                PasswordStoreError::IoError,
            ),
            data@.len() >= 44 ==> match aes_open(
                data@.subrange(12, 44),
                data@.subrange(0, 12),
                data@.subrange(44, data@.len() as int),
            ) {
                Some(pw) => r matches Ok(p) && p@ == pw,
                None => r == Err::<Vec<u8>, PasswordStoreError>(PasswordStoreError::CryptoError),
            },
    {
        if data.len() < 44 {
            return Err(PasswordStoreError::IoError);
        }
        let nonce = crate::auth::packet::copy_range(data, 0, 12);
        let key = crate::auth::packet::copy_range(data, 12, 44);
        let ciphertext = crate::auth::packet::copy_range(data, 44, data.len());
        match aes256gcm_open(&key, &nonce, &ciphertext) {
            Some(password) => Ok(password),
            None => Err(PasswordStoreError::CryptoError),
        }
    }
}

} // verus!
