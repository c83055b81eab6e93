use keynest_vault::error::{FormatError, VaultError};
use keynest_vault::session::{init_vault, unlock_vault, CryptoState};

const EMPTY: &[u8] = b"{\"version\":1,\"entries\":[]}";
const ONE_ENTRY: &[u8] = b"{\"version\":1,\"entries\":[{\"id\":\"a1\",\"title\":\"Mail\",\"username\":\"me\",\"password\":\"pw\",\"totpSecret\":null,\"totpIssuer\":null,\"totpAccount\":null,\"tags\":[\"x\",\"x\"],\"notes\":\"n\",\"updatedAt\":1700000000000}]}";

/// Creates a vault with the empty plaintext and returns the file and an unlocked session.
fn fresh(password: &[u8]) -> (Vec<u8>, CryptoState) {
    let (file, keys) = init_vault(false, password, EMPTY).unwrap();
    let mut state = CryptoState::new();
    state.begin(keys);
    (file, state)
}

#[test]
fn init_then_load_gives_empty_vault() {
    let (file, state) = fresh(b"correct horse");
    assert!(state.is_unlocked());
    assert_eq!(file.len(), 49 + EMPTY.len() + 16);
    assert_eq!(&file[0..8], b"KEYNEST\0");
    let loaded = state.load_vault(Some(&file)).unwrap().unwrap();
    assert_eq!(loaded, EMPTY.to_vec());
}

#[test]
fn init_on_existing_vault_fails() {
    let r = init_vault(true, b"correct horse", EMPTY);
    assert_eq!(r.err(), Some(VaultError::AlreadyExists));
}

#[test]
fn save_lock_unlock_keeps_entry() {
    let (_, mut state) = fresh(b"correct horse");
    let file = state.save_vault(ONE_ENTRY).unwrap();
    assert_eq!(file.len(), 49 + ONE_ENTRY.len() + 16);
    assert_eq!(&file[0..8], b"KEYNEST\0");
    state.lock_vault();
    assert!(!state.is_unlocked());
    let (plaintext, keys) = unlock_vault(Some(&file), b"correct horse").unwrap();
    assert_eq!(plaintext, ONE_ENTRY.to_vec());
    state.begin(keys);
    assert_eq!(state.load_vault(Some(&file)).unwrap().unwrap(), ONE_ENTRY.to_vec());
}

#[test]
fn wrong_password_fails_as_crypto() {
    let (file, _) = fresh(b"correct horse");
    let r = unlock_vault(Some(&file), b"correct horsf");
    assert_eq!(r.err(), Some(VaultError::Crypto));
}

#[test]
fn corrupted_salt_fails_as_crypto() {
    let (mut file, _) = fresh(b"correct horse");
    for b in &mut file[9..25] {
        *b ^= 0xA5;
    }
    let r = unlock_vault(Some(&file), b"correct horse");
    assert_eq!(r.err(), Some(VaultError::Crypto));
}

#[test]
fn tampered_ciphertext_fails_to_load_as_crypto() {
    let (file, state) = fresh(b"correct horse");
    for i in 49..file.len() {
        for bit in [0u8, 3, 7] {
            let mut bad = file.clone();
            bad[i] ^= 1 << bit;
            assert_eq!(state.load_vault(Some(&bad)).err(), Some(VaultError::Crypto));
        }
    }
    let mut bad = file.clone();
    bad[30] ^= 0x10;
    assert_eq!(state.load_vault(Some(&bad)).err(), Some(VaultError::Crypto));
}

#[test]
fn tampered_ciphertext_fails_to_unlock_as_crypto() {
    let (mut file, _) = fresh(b"correct horse");
    let last = file.len() - 1;
    file[last] ^= 0x01;
    let r = unlock_vault(Some(&file), b"correct horse");
    assert_eq!(r.err(), Some(VaultError::Crypto));
}

#[test]
fn unknown_version_fails_as_format_error() {
    let (mut file, _) = fresh(b"correct horse");
    file[8] = 2;
    let r = unlock_vault(Some(&file), b"correct horse");
    assert_eq!(r.err(), Some(VaultError::Format(FormatError::UnsupportedVersion(2))));
    let short = b"KEYNEST\0\x09rest".to_vec();
    let r = unlock_vault(Some(&short), b"whatever");
    assert_eq!(r.err(), Some(VaultError::Format(FormatError::TooSmall)));
}

#[test]
fn unlock_without_file_fails_not_found() {
    let r = unlock_vault(None, b"correct horse");
    assert_eq!(r.err(), Some(VaultError::NotFound));
}

#[test]
fn unlock_rejects_bad_magic_as_format_error() {
    let mut file = vec![0u8; 80];
    file[8] = 1;
    let r = unlock_vault(Some(&file), b"pw");
    assert_eq!(r.err(), Some(VaultError::Format(FormatError::BadMagic)));
}

#[test]
fn lock_refuses_load_and_save() {
    let (file, mut state) = fresh(b"correct horse");
    state.lock_vault();
    assert_eq!(state.load_vault(Some(&file)).err(), Some(VaultError::Locked));
    assert_eq!(state.load_vault(None).err(), Some(VaultError::Locked));
    assert_eq!(state.save_vault(EMPTY).err(), Some(VaultError::Locked));
    state.lock_vault();
    assert!(!state.is_unlocked());
}

#[test]
fn new_session_is_locked() {
    let state = CryptoState::new();
    assert!(!state.is_unlocked());
    assert_eq!(state.save_vault(EMPTY).err(), Some(VaultError::Locked));
    assert_eq!(state.load_vault(None).err(), Some(VaultError::Locked));
}

#[test]
fn load_without_file_returns_none() {
    let (_, state) = fresh(b"correct horse");
    assert_eq!(state.load_vault(None).unwrap(), None);
}

#[test]
fn load_detects_salt_mismatch() {
    let (_, state) = fresh(b"correct horse");
    let (other, _) = init_vault(false, b"correct horse", EMPTY).unwrap();
    assert_eq!(state.load_vault(Some(&other)).err(), Some(VaultError::SaltMismatch));
}

#[test]
fn save_draws_fresh_nonce_and_keeps_salt() {
    let (file, state) = fresh(b"correct horse");
    let a = state.save_vault(EMPTY).unwrap();
    let b = state.save_vault(EMPTY).unwrap();
    assert_eq!(&a[9..25], &file[9..25]);
    assert_eq!(&b[9..25], &file[9..25]);
    assert_ne!(&a[25..49], &b[25..49]);
    assert_eq!(state.load_vault(Some(&a)).unwrap().unwrap(), EMPTY.to_vec());
}

#[test]
fn two_inits_draw_different_salts() {
    let (a, _) = init_vault(false, b"pw", EMPTY).unwrap();
    let (b, _) = init_vault(false, b"pw", EMPTY).unwrap();
    assert_ne!(&a[9..25], &b[9..25]);
}
