use keynest_vault::envelope::{encode_envelope, parse_envelope, HEADER_LEN};
use keynest_vault::error::FormatError;

const MAGIC: &[u8] = b"KEYNEST\0";

fn sample_file(ciphertext: &[u8]) -> Vec<u8> {
    let salt = [7u8; 16];
    let nonce = [9u8; 24];
    encode_envelope(&salt, &nonce, ciphertext)
}

#[test]
fn encoded_file_has_fixed_header_layout() {
    let ct: Vec<u8> = (0u8..40).collect();
    let file = sample_file(&ct);
    assert_eq!(file.len(), 49 + ct.len());
    assert_eq!(HEADER_LEN, 49);
    assert_eq!(&file[0..8], MAGIC);
    assert_eq!(file[8], 1);
    assert_eq!(&file[9..25], &[7u8; 16][..]);
    assert_eq!(&file[25..49], &[9u8; 24][..]);
    assert_eq!(&file[49..], &ct[..]);
}

#[test]
fn parse_returns_encoded_parts() {
    let ct = vec![1u8, 2, 3, 4, 5];
    let file = sample_file(&ct);
    let env = parse_envelope(&file).unwrap();
    assert_eq!(env.salt, vec![7u8; 16]);
    assert_eq!(env.nonce, vec![9u8; 24]);
    assert_eq!(env.ciphertext, ct);
}

#[test]
fn parse_accepts_empty_ciphertext() {
    let file = sample_file(&[]);
    assert_eq!(file.len(), 49);
    let env = parse_envelope(&file).unwrap();
    assert!(env.ciphertext.is_empty());
}

#[test]
fn parse_rejects_short_file() {
    let file = sample_file(&[]);
    assert_eq!(parse_envelope(&file[..48]).err(), Some(FormatError::TooSmall));
    assert_eq!(parse_envelope(&[]).err(), Some(FormatError::TooSmall));
}

#[test]
fn parse_rejects_bad_magic() {
    let mut file = sample_file(&[1, 2, 3]);
    file[3] ^= 0x01;
    assert_eq!(parse_envelope(&file).err(), Some(FormatError::BadMagic));
}

#[test]
fn parse_rejects_unknown_version() {
    for v in [0u8, 2, 7, 255] {
        let mut file = sample_file(&[1, 2, 3]);
        file[8] = v;
        assert_eq!(parse_envelope(&file).err(), Some(FormatError::UnsupportedVersion(v)));
    }
}

#[test]
fn short_file_is_checked_for_length_before_magic() {
    let file = b"NOTAVAULT".to_vec();
    assert_eq!(parse_envelope(&file).err(), Some(FormatError::TooSmall));
}
