use vstd::prelude::*;

verus! {

/// Why the bytes of a vault file are not a valid envelope.
#[derive(Debug, Clone, Copy, PartialEq, Eq, Structural)]
pub enum FormatError {
    /// Shorter than the fixed header.
    TooSmall,
    /// The leading tag is not the vault magic.
    BadMagic,
    /// The format version byte is not one this engine reads.
    UnsupportedVersion(u8),
}

/// The kinds of failure the engine reports to its caller.
#[derive(Debug, Clone, Copy, PartialEq, Eq, Structural)]
pub enum VaultError {
    /// `init` on a path where a vault file already exists.
    AlreadyExists,
    /// `unlock` on a path where no vault file exists.
    NotFound,
    /// An operation that needs the key was called while locked.
    Locked,
    /// The salt on disk differs from the one cached at unlock.
    SaltMismatch,
    /// The file is not a valid envelope of a supported version.
    Format(FormatError),
    /// Wrong password or corrupted vault; key derivation or encryption failed.
    Crypto,
    /// The secure random source failed.
    Random,
}

} // verus!
