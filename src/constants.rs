use vstd::prelude::*;

verus! {

/// Shortest accepted prefix, in characters.
pub const MIN_PREFIX_LEN: usize = 3;

/// Longest accepted prefix, in characters.
pub const MAX_PREFIX_LEN: usize = 12;

/// Longest accepted metadata URI, in bytes.
pub const MAX_URI_LEN: usize = 255;

/// Most authority keys a prefix record may carry.
pub const MAX_AUTH_KEYS: usize = 10;

/// Most principals the verifier directory may hold.
pub const MAX_VERIFIERS: usize = 256;

/// How long a submission may wait for approval: fourteen days, in seconds.
pub const MAX_EXPIRY_DURATION: u64 = 1209600;

// Sizes of the fields of a stored account, in bytes.

/// Type tag written before every stored account.
pub const DISCRIMINATOR_SIZE: usize = 8;

pub const PUBKEY_SIZE: usize = 32;

pub const BOOL_SIZE: usize = 1;

pub const U8_SIZE: usize = 1;

pub const U64_SIZE: usize = 8;

pub const I64_SIZE: usize = 8;

/// Length prefix written before a stored vector.
pub const VEC_PREFIX_SIZE: usize = 4;

/// Length prefix written before a stored string.
pub const STRING_PREFIX_SIZE: usize = 4;

} // verus!
