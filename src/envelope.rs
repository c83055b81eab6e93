//! The on-disk container: magic tag, format version, salt, nonce, then the
//! ciphertext with its authentication tag.
use vstd::prelude::*;
use crate::error::FormatError;

verus! {

pub const MAGIC_LEN: usize = 8;
pub const FILE_VERSION: u8 = 1;
pub const SALT_LEN: usize = 16;
pub const NONCE_LEN: usize = 24;
/// Offset of the version byte.
pub const VERSION_AT: usize = 8;
/// Offset of the salt.
pub const SALT_AT: usize = 9;
/// Offset of the nonce.
pub const NONCE_AT: usize = 25;
/// Length of the fixed header, and offset of the ciphertext.
pub const HEADER_LEN: usize = 49;

/// The fixed tag that opens every vault file: `KEYNEST` and a zero byte.
pub open spec fn magic() -> Seq<u8> {
    seq![0x4Bu8, 0x45u8, 0x59u8, 0x4Eu8, 0x45u8, 0x53u8, 0x54u8, 0x00u8]
}

/// The complete file for the given salt, nonce and ciphertext.
pub open spec fn envelope_bytes(salt: Seq<u8>, nonce: Seq<u8>, ciphertext: Seq<u8>) -> Seq<u8> {
    magic() + seq![FILE_VERSION] + salt + nonce + ciphertext
}

pub open spec fn salt_of(file: Seq<u8>) -> Seq<u8> {
    file.subrange(SALT_AT as int, NONCE_AT as int)
}

pub open spec fn nonce_of(file: Seq<u8>) -> Seq<u8> {
    file.subrange(NONCE_AT as int, HEADER_LEN as int)
}

pub open spec fn ciphertext_of(file: Seq<u8>) -> Seq<u8> {
    file.subrange(HEADER_LEN as int, file.len() as int)
}

/// What reading a file yields: its salt, nonce and ciphertext, or why it is
/// not a valid envelope. The checks run in this order: length, magic, version.
pub open spec fn parse_spec(file: Seq<u8>) -> Result<(Seq<u8>, Seq<u8>, Seq<u8>), FormatError> {
    if file.len() < HEADER_LEN {
        Err(FormatError::TooSmall)
    } else if file.subrange(0, MAGIC_LEN as int) != magic() {
        Err(FormatError::BadMagic)
    } else if file[VERSION_AT as int] != FILE_VERSION {
        Err(FormatError::UnsupportedVersion(file[VERSION_AT as int]))
    } else {
        Ok((salt_of(file), nonce_of(file), ciphertext_of(file)))
    }
}

/// The parts of a valid envelope.
pub struct Envelope {
    pub salt: Vec<u8>,
    pub nonce: Vec<u8>,
    pub ciphertext: Vec<u8>,
}

impl View for Envelope {
    type V = (Seq<u8>, Seq<u8>, Seq<u8>);

    open spec fn view(&self) -> (Seq<u8>, Seq<u8>, Seq<u8>) {
        (self.salt@, self.nonce@, self.ciphertext@)
    }
}

/// The magic tag as bytes.
pub fn magic_bytes() -> (r: Vec<u8>)
    ensures
        r@ == magic(),
{
    let mut r: Vec<u8> = Vec::new();
    r.push(0x4B);
    r.push(0x45);
    r.push(0x59);
    r.push(0x4E);
    r.push(0x45);
    r.push(0x53);
    r.push(0x54);
    r.push(0x00);
    assert(r@ =~= magic());
    r
}

/// Appends `src` to `dst`.
fn append_bytes(dst: &mut Vec<u8>, src: &[u8])
    ensures
        final(dst)@ == old(dst)@ + src@,
{
    let ghost start = dst@;
    let mut i: usize = 0;
    while i < src.len()
        invariant
            i <= src@.len(),
            dst@ == start + src@.subrange(0, i as int),
        decreases src@.len() - i,
    {
        dst.push(src[i]);
        i = i + 1;
        assert(dst@ =~= start + src@.subrange(0, i as int));
    }
    assert(src@.subrange(0, i as int) =~= src@);
}

/// Copies `src[lo..hi]` into a new vector.
fn copy_range(src: &[u8], lo: usize, hi: usize) -> (r: Vec<u8>)
    requires
        lo <= hi <= src@.len(),
    ensures
        r@ == src@.subrange(lo as int, hi as int),
{
    let mut r: Vec<u8> = Vec::new();
    let mut i: usize = lo;
    while i < hi
        invariant
            lo <= i <= hi,
            hi <= src@.len(),
            r@ == src@.subrange(lo as int, i as int),
        decreases hi - i,
    {
        r.push(src[i]);
        i = i + 1;
        assert(r@ =~= src@.subrange(lo as int, i as int));
    }
    r
}

/// Builds the complete file for a salt, a nonce and a ciphertext. The caller
/// persists it by writing a sibling file and renaming it over the vault.
pub fn encode_envelope(salt: &[u8], nonce: &[u8], ciphertext: &[u8]) -> (r: Vec<u8>)
    requires
        salt@.len() == SALT_LEN,
        nonce@.len() == NONCE_LEN,
    ensures
        r@ == envelope_bytes(salt@, nonce@, ciphertext@),
        r@.len() == HEADER_LEN + ciphertext@.len(),
{
    let mut r = magic_bytes();
    r.push(FILE_VERSION);
    append_bytes(&mut r, salt);
    append_bytes(&mut r, nonce);
    append_bytes(&mut r, ciphertext);
    assert(r@ =~= envelope_bytes(salt@, nonce@, ciphertext@));
    r
}

/// Checks the header of a vault file and splits it into salt, nonce and
/// ciphertext.
pub fn parse_envelope(file: &[u8]) -> (r: Result<Envelope, FormatError>)
    ensures
        match r {
            Ok(e) => parse_spec(file@) == Ok::<_, FormatError>(e@),
            Err(err) => parse_spec(file@) == Err::<(Seq<u8>, Seq<u8>, Seq<u8>), _>(err),
        },
{
    if file.len() < HEADER_LEN {
        return Err(FormatError::TooSmall);
    }
    let tag = magic_bytes();
    let mut i: usize = 0;
    while i < MAGIC_LEN
        invariant
            i <= MAGIC_LEN,
            file@.len() >= HEADER_LEN,
            tag@ == magic(),
            forall|j: int| 0 <= j < i ==> file@[j] == magic()[j],
        decreases MAGIC_LEN - i,
    {
        if file[i] != tag[i] {
            assert(file@.subrange(0, MAGIC_LEN as int)[i as int] != magic()[i as int]);
            return Err(FormatError::BadMagic);
        }
        i = i + 1;
    }
    assert(file@.subrange(0, MAGIC_LEN as int) =~= magic());
    let version = file[VERSION_AT];
    if version != FILE_VERSION {
        return Err(FormatError::UnsupportedVersion(version));
    }
    let salt = copy_range(file, SALT_AT, NONCE_AT);
    let nonce = copy_range(file, NONCE_AT, HEADER_LEN);
    let ciphertext = copy_range(file, HEADER_LEN, file.len());
    Ok(Envelope { salt, nonce, ciphertext })
}

/// Reading back an encoded envelope yields the salt, nonce and ciphertext it
/// was built from.
pub proof fn lemma_parse_encode(salt: Seq<u8>, nonce: Seq<u8>, ciphertext: Seq<u8>)
    requires
        salt.len() == SALT_LEN,
        nonce.len() == NONCE_LEN,
    ensures
        parse_spec(envelope_bytes(salt, nonce, ciphertext)) == Ok::<_, FormatError>((salt, nonce, ciphertext)),
{
    let f = envelope_bytes(salt, nonce, ciphertext);
    assert(f.subrange(0, MAGIC_LEN as int) =~= magic());
    assert(salt_of(f) =~= salt);
    assert(nonce_of(f) =~= nonce);
    assert(ciphertext_of(f) =~= ciphertext);
}

/// Every encoded envelope is exactly the header plus the ciphertext long, and
/// begins with the magic tag.
pub proof fn lemma_header_layout(salt: Seq<u8>, nonce: Seq<u8>, ciphertext: Seq<u8>)
    requires
        salt.len() == SALT_LEN,
        nonce.len() == NONCE_LEN,
    ensures
        envelope_bytes(salt, nonce, ciphertext).len() == HEADER_LEN + ciphertext.len(),
        envelope_bytes(salt, nonce, ciphertext).subrange(0, MAGIC_LEN as int) == magic(),
{
    assert(envelope_bytes(salt, nonce, ciphertext).subrange(0, MAGIC_LEN as int) =~= magic());
}

/// A file that carries the magic tag but another version byte is refused as
/// a format error, whatever the other bytes are.
pub proof fn lemma_version_gate(file: Seq<u8>)
    requires
        file.len() > VERSION_AT,
        file.subrange(0, MAGIC_LEN as int) == magic(),
        file[VERSION_AT as int] != FILE_VERSION,
    ensures
        parse_spec(file) is Err,
        file.len() >= HEADER_LEN ==> parse_spec(file) == Err::<(Seq<u8>, Seq<u8>, Seq<u8>), _>(
            FormatError::UnsupportedVersion(file[VERSION_AT as int]),
        ),
{
}

} // verus!
