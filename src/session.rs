//! The session: which key and salt are resident, and the vault operations
//! that the session gates.
//!
//! The operations do no I/O. `init_vault` and `save_vault` return the bytes
//! of the file to persist; `unlock_vault` and `load_vault` take the bytes
//! read from disk, or `None` where there is no file. `init_vault` and
//! `unlock_vault` hand back the new session keys, which the caller installs
//! with `begin` once the file is written or the plaintext decoded.
use vstd::prelude::*;
use crate::error::{FormatError, VaultError};
use crate::envelope::{
    ciphertext_of, encode_envelope, envelope_bytes, magic, nonce_of, parse_envelope, parse_spec,
    salt_of, HEADER_LEN, MAGIC_LEN, SALT_LEN, VERSION_AT, FILE_VERSION,
};
use crate::envelope::{lemma_header_layout, lemma_parse_encode};
use crate::cipher::{
    decrypt_vault, derive_key, derived_key, encrypt_vault, password_accepted, random_bytes,
    sealable, xchacha_open, xchacha_seal, KEY_LEN, TAG_LEN,
};

verus! {

/// Relies on zeroize's `Zeroize` for `Vec<u8>`: overwrites every element and
/// the spare capacity with zeroes, then clears the vector.
#[verifier::external_body]
fn zeroize_bytes(buf: &mut Vec<u8>)
    ensures
        final(buf)@ == Seq::<u8>::empty(),
{
    zeroize::Zeroize::zeroize(buf)
}

/// The contents of a vault file, or `None` where there is none.
pub open spec fn file_view(file: Option<&[u8]>) -> Option<Seq<u8>> {
    match file {
        Some(f) => Some(f@),
        None => None,
    }
}

/// `file` holds `plaintext` sealed under `key`, with `salt` in its header and
/// the nonce it carries.
pub open spec fn seals(key: Seq<u8>, salt: Seq<u8>, plaintext: Seq<u8>, file: Seq<u8>) -> bool {
    &&& file.len() >= HEADER_LEN
    &&& file == envelope_bytes(salt, nonce_of(file), ciphertext_of(file))
    &&& ciphertext_of(file) == xchacha_seal(key, nonce_of(file), plaintext)
    &&& ciphertext_of(file).len() == plaintext.len() + TAG_LEN
    &&& xchacha_open(key, nonce_of(file), ciphertext_of(file)) == Some(plaintext)
}

/// The outcome of unlocking: the plaintext with the session key and salt, or
/// the error.
pub open spec fn unlock_spec(file: Option<Seq<u8>>, password: Seq<u8>) -> Result<
    (Seq<u8>, Seq<u8>, Seq<u8>),
    VaultError,
> {
    match file {
        None => Err(VaultError::NotFound),
        Some(f) => match parse_spec(f) {
            Err(e) => Err(VaultError::Format(e)),
            Ok((salt, nonce, ciphertext)) => if !password_accepted(password) {
                Err(VaultError::Crypto)
            } else {
                match xchacha_open(derived_key(password, salt), nonce, ciphertext) {
                    Some(p) => Ok((p, derived_key(password, salt), salt)),
                    None => Err(VaultError::Crypto),
                }
            },
        },
    }
}

/// The outcome of loading in a session holding `state` (key and salt).
pub open spec fn load_spec(state: Option<(Seq<u8>, Seq<u8>)>, file: Option<Seq<u8>>) -> Result<
    Option<Seq<u8>>,
    VaultError,
> {
    match state {
        None => Err(VaultError::Locked),
        Some((key, cached_salt)) => match file {
            None => Ok(None),
            Some(f) => match parse_spec(f) {
                Err(e) => Err(VaultError::Format(e)),
                Ok((salt, nonce, ciphertext)) => if salt != cached_salt {
                    Err(VaultError::SaltMismatch)
                } else {
                    match xchacha_open(key, nonce, ciphertext) {
                        Some(p) => Ok(Some(p)),
                        None => Err(VaultError::Crypto),
                    }
                },
            },
        },
    }
}

/// The key and salt of one unlocked session.
pub struct SessionKeys {
    key: Vec<u8>,
    salt: Vec<u8>,
}

impl SessionKeys {
    #[verifier::type_invariant]
    closed spec fn inv(&self) -> bool {
        self.key@.len() == KEY_LEN && self.salt@.len() == SALT_LEN
    }

    pub closed spec fn key(&self) -> Seq<u8> {
        self.key@
    }

    pub closed spec fn salt(&self) -> Seq<u8> {
        self.salt@
    }

    /// Overwrites the key and the salt with zeroes and releases them; for
    /// keys that are not to be installed after all.
    pub fn wipe(self) {
        let SessionKeys { mut key, mut salt } = self;
        zeroize_bytes(&mut key);
        zeroize_bytes(&mut salt);
    }
}

/// The session state: locked (nothing resident) or unlocked (one key and
/// its salt resident).
pub struct CryptoState {
    keys: Option<SessionKeys>,
}

impl View for CryptoState {
    type V = Option<(Seq<u8>, Seq<u8>)>;

    closed spec fn view(&self) -> Option<(Seq<u8>, Seq<u8>)> {
        match self.keys {
            Some(k) => Some((k.key(), k.salt())),
            None => None,
        }
    }
}

impl CryptoState {
    /// A locked session.
    pub fn new() -> (s: Self)
        ensures
            s@ is None,
    {
        CryptoState { keys: None }
    }

    pub fn is_unlocked(&self) -> (r: bool)
        ensures
            r == self@ is Some,
    {
        self.keys.is_some()
    }

    /// Installs the keys of a session opened by `init_vault` or
    /// `unlock_vault`; keys resident before are wiped.
    pub fn begin(&mut self, keys: SessionKeys)
        ensures
            final(self)@ == Some((keys.key(), keys.salt())),
    {
        let previous = self.keys.take();
        if let Some(k) = previous {
            k.wipe();
        }
        self.keys = Some(keys);
    }

    /// Overwrites the resident key and salt with zeroes and releases them.
    /// Always succeeds; locking a locked session changes nothing.
    pub fn lock_vault(&mut self)
        ensures
            final(self)@ is None,
    {
        let previous = self.keys.take();
        if let Some(k) = previous {
            k.wipe();
        }
    }

    /// Decrypts the vault file read from disk with the session key, after
    /// checking that its salt is the one this session was opened with.
    /// `file` is `None` where the file no longer exists.
    pub fn load_vault(&self, file: Option<&[u8]>) -> (r: Result<Option<Vec<u8>>, VaultError>)
        ensures
            match load_spec(self@, file_view(file)) {
                Ok(Some(p)) => r matches Ok(Some(q)) && q@ == p,
                Ok(None) => r matches Ok(None),
                Err(e) => r == Err::<Option<Vec<u8>>, _>(e),
            },
    {
        let keys = match &self.keys {
            Some(k) => k,
            None => return Err(VaultError::Locked),
        };
        proof {
            use_type_invariant(keys);
        }
        let bytes = match file {
            Some(b) => b,
            None => return Ok(None),
        };
        let env = match parse_envelope(bytes) {
            Ok(e) => e,
            Err(e) => return Err(VaultError::Format(e)),
        };
        if !bytes_equal(&env.salt, &keys.salt) {
            return Err(VaultError::SaltMismatch);
        }
        let plaintext = decrypt_vault(&keys.key, &env.nonce, &env.ciphertext)?;
        Ok(Some(plaintext))
    }

    /// Seals `plaintext` under the session key with a fresh random nonce and
    /// returns the complete file to persist, which carries the session salt.
    pub fn save_vault(&self, plaintext: &[u8]) -> (r: Result<Vec<u8>, VaultError>)
        ensures
            self@ is None ==> r == Err::<Vec<u8>, _>(VaultError::Locked),
            r matches Ok(f) ==> (self@ matches Some((key, salt)) && seals(key, salt, plaintext@, f@)),
            self@ is Some && !sealable(plaintext@) ==> r is Err,
            r matches Err(e) ==> e == VaultError::Locked && self@ is None || e == VaultError::Random
                || e == VaultError::Crypto && !sealable(plaintext@),
    {
        let keys = match &self.keys {
            Some(k) => k,
            None => return Err(VaultError::Locked),
        };
        proof {
            use_type_invariant(keys);
        }
        let (nonce, ciphertext) = encrypt_vault(&keys.key, plaintext)?;
        let file = encode_envelope(&keys.salt, &nonce, &ciphertext);
        proof {
            lemma_parse_encode(keys.salt@, nonce@, ciphertext@);
        }
        Ok(file)
    }
}

/// Whether two byte strings are equal.
fn bytes_equal(a: &Vec<u8>, b: &Vec<u8>) -> (r: bool)
    ensures
        r == (a@ == b@),
{
    if a.len() != b.len() {
        return false;
    }
    let mut i: usize = 0;
    while i < a.len()
        invariant
            i <= a@.len(),
            a@.len() == b@.len(),
            forall|j: int| 0 <= j < i ==> a@[j] == b@[j],
        decreases a@.len() - i,
    {
        if a[i] != b[i] {
            return false;
        }
        i = i + 1;
    }
    assert(a@ =~= b@);
    true
}

/// Creates a vault: draws a fresh random salt, derives the key from the
/// password, seals `plaintext` (the encoded empty vault) and returns the file
/// to persist with the keys of the new session. Refused where a vault file
/// already exists.
pub fn init_vault(file_exists: bool, password: &[u8], plaintext: &[u8]) -> (r: Result<
    (Vec<u8>, SessionKeys),
    VaultError,
>)
    ensures
        file_exists ==> r == Err::<(Vec<u8>, SessionKeys), _>(VaultError::AlreadyExists),
        r matches Ok((f, keys)) ==> keys.key() == derived_key(password@, keys.salt())
            && keys.salt() == salt_of(f@) && seals(keys.key(), keys.salt(), plaintext@, f@),
        !password_accepted(password@) || !sealable(plaintext@) ==> r is Err,
        r matches Err(e) ==> e == VaultError::AlreadyExists && file_exists || e == VaultError::Random
            || e == VaultError::Crypto && (!password_accepted(password@) || !sealable(plaintext@)),
{
    if file_exists {
        return Err(VaultError::AlreadyExists);
    }
    let salt = random_bytes(SALT_LEN)?;
    let mut key = derive_key(password, &salt)?;
    let (nonce, ciphertext) = match encrypt_vault(&key, plaintext) {
        Ok(sealed) => sealed,
        Err(e) => {
            zeroize_bytes(&mut key);
            return Err(e);
        },
    };
    let file = encode_envelope(&salt, &nonce, &ciphertext);
    proof {
        lemma_parse_encode(salt@, nonce@, ciphertext@);
    }
    Ok((file, SessionKeys { key, salt }))
}

/// Opens an existing vault: reads the salt from the file, derives the key
/// from the password and decrypts. Returns the plaintext and the keys of the
/// new session; nothing is retained on failure.
pub fn unlock_vault(file: Option<&[u8]>, password: &[u8]) -> (r: Result<(Vec<u8>, SessionKeys), VaultError>)
    ensures
        match unlock_spec(file_view(file), password@) {
            Ok((p, key, salt)) => r matches Ok((q, keys)) && q@ == p && keys.key() == key
                && keys.salt() == salt,
            Err(e) => r matches Err(e2) && e2 == e,
        },
{
    let bytes = match file {
        Some(b) => b,
        None => return Err(VaultError::NotFound),
    };
    let env = match parse_envelope(bytes) {
        Ok(e) => e,
        Err(e) => return Err(VaultError::Format(e)),
    };
    let mut key = derive_key(password, &env.salt)?;
    let plaintext = match decrypt_vault(&key, &env.nonce, &env.ciphertext) {
        Ok(p) => p,
        Err(e) => {
            zeroize_bytes(&mut key);
            return Err(e);
        },
    };
    Ok((plaintext, SessionKeys { key, salt: env.salt }))
}

/// Round trip: a file sealed with the key that a password derives from the
/// file's salt unlocks with that password to the sealed plaintext, and loads
/// to it in a session holding that key and salt.
pub proof fn lemma_round_trip(password: Seq<u8>, salt: Seq<u8>, plaintext: Seq<u8>, file: Seq<u8>)
    requires
        salt.len() == SALT_LEN,
        password_accepted(password),
        seals(derived_key(password, salt), salt, plaintext, file),
    ensures
        unlock_spec(Some(file), password) == Ok::<_, VaultError>(
            (plaintext, derived_key(password, salt), salt),
        ),
        load_spec(Some((derived_key(password, salt), salt)), Some(file)) == Ok::<_, VaultError>(
            Some(plaintext),
        ),
{
    lemma_parse_encode(salt, nonce_of(file), ciphertext_of(file));
}

/// Unlocking a file that was written by this engine, with any password,
/// either succeeds or fails with the crypto error: never with a format or a
/// state error.
pub proof fn lemma_sealed_file_fails_only_as_crypto(
    key: Seq<u8>,
    salt: Seq<u8>,
    plaintext: Seq<u8>,
    file: Seq<u8>,
    password: Seq<u8>,
)
    requires
        salt.len() == SALT_LEN,
        seals(key, salt, plaintext, file),
    ensures
        unlock_spec(Some(file), password) is Ok || unlock_spec(Some(file), password) == Err::<
            (Seq<u8>, Seq<u8>, Seq<u8>),
            _,
        >(VaultError::Crypto),
{
    lemma_parse_encode(salt, nonce_of(file), ciphertext_of(file));
}

/// Changing any byte after the header of a valid envelope leaves the header
/// valid: unlocking the changed file either succeeds or fails with the crypto
/// error, never with a format error.
pub proof fn lemma_ciphertext_change_fails_only_as_crypto(
    file: Seq<u8>,
    i: int,
    byte: u8,
    password: Seq<u8>,
)
    requires
        parse_spec(file) is Ok,
        HEADER_LEN <= i < file.len(),
    ensures
        parse_spec(file.update(i, byte)) is Ok,
        unlock_spec(Some(file.update(i, byte)), password) is Ok || unlock_spec(
            Some(file.update(i, byte)),
            password,
        ) == Err::<(Seq<u8>, Seq<u8>, Seq<u8>), _>(VaultError::Crypto),
{
    let g = file.update(i, byte);
    assert(g.subrange(0, MAGIC_LEN as int) =~= file.subrange(0, MAGIC_LEN as int));
}

/// A file with the magic tag and another version byte is refused with a
/// format error, which is not the crypto error, whatever its other bytes
/// and whatever the password.
pub proof fn lemma_unlock_version_gate(file: Seq<u8>, password: Seq<u8>)
    requires
        file.len() > VERSION_AT,
        file.subrange(0, MAGIC_LEN as int) == magic(),
        file[VERSION_AT as int] != FILE_VERSION,
    ensures
        unlock_spec(Some(file), password) matches Err(VaultError::Format(_)),
        unlock_spec(Some(file), password) != Err::<(Seq<u8>, Seq<u8>, Seq<u8>), _>(VaultError::Crypto),
        file.len() >= HEADER_LEN ==> unlock_spec(Some(file), password) == Err::<
            (Seq<u8>, Seq<u8>, Seq<u8>),
            _,
        >(VaultError::Format(FormatError::UnsupportedVersion(file[VERSION_AT as int]))),
{
}

/// Every file that `init_vault` or `save_vault` writes is the header plus the
/// ciphertext long, begins with the magic tag, and its ciphertext is the
/// plaintext plus the tag long.
pub proof fn lemma_written_file_layout(key: Seq<u8>, salt: Seq<u8>, plaintext: Seq<u8>, file: Seq<u8>)
    requires
        salt.len() == SALT_LEN,
        seals(key, salt, plaintext, file),
    ensures
        file.len() == HEADER_LEN + ciphertext_of(file).len(),
        file.len() == HEADER_LEN + plaintext.len() + TAG_LEN,
        file.subrange(0, MAGIC_LEN as int) == magic(),
        salt_of(file) == salt,
{
    lemma_header_layout(salt, nonce_of(file), ciphertext_of(file));
    lemma_parse_encode(salt, nonce_of(file), ciphertext_of(file));
}

/// A locked session refuses to load, whatever the file holds.
pub proof fn lemma_locked_refuses_load(file: Option<Seq<u8>>)
    ensures
        load_spec(None, file) == Err::<Option<Seq<u8>>, _>(VaultError::Locked),
{
}

} // verus!
