use vstd::prelude::*;
use vstd::string::*;

use crate::constants::{MAX_PREFIX_LEN, MAX_URI_LEN, MIN_PREFIX_LEN};
use crate::errors::ErrorCode;
use crate::state::{lemma_key_view_eq, Instruction, Pubkey};

verus! {

broadcast use vstd::array::group_array_axioms;

// ---------------------------------------------------------------------------
// Prefix format
// ---------------------------------------------------------------------------

/// `c` is an ASCII digit or letter.
pub open spec fn is_ascii_alnum(c: char) -> bool {
    ('0' <= c && c <= '9') || ('A' <= c && c <= 'Z') || ('a' <= c && c <= 'z')
}

/// `c` with an ASCII lower-case letter mapped to its upper-case letter.
pub open spec fn ascii_upper(c: char) -> char {
    if 'a' <= c && c <= 'z' {
        ((c as u32) - 32) as char
    } else {
        c
    }
}

/// `s` with every ASCII lower-case letter mapped to upper case.
pub open spec fn ascii_upper_seq(s: Seq<char>) -> Seq<char> {
    s.map_values(|c: char| ascii_upper(c))
}

/// `s` is an acceptable prefix before normalisation: 3 to 12 ASCII digits or letters.
pub open spec fn is_valid_prefix_input(s: Seq<char>) -> bool {
    &&& MIN_PREFIX_LEN <= s.len() <= MAX_PREFIX_LEN
    &&& forall|i: int| 0 <= i < s.len() ==> is_ascii_alnum(#[trigger] s[i])
}

/// `s` is a normalised prefix: valid, and with no lower-case letter.
pub open spec fn is_normalized_prefix(s: Seq<char>) -> bool {
    is_valid_prefix_input(s) && ascii_upper_seq(s) == s
}

/// Relies on `str::to_ascii_uppercase`: a copy of the string in which each
/// ASCII letter `a`..`z` becomes `A`..`Z` and every other character is kept.
#[verifier::external_body]
fn to_ascii_uppercase(s: &str) -> (r: String)
    ensures
        r@ == ascii_upper_seq(s@),
{
    s.to_ascii_uppercase()
}

fn char_is_ascii_alnum(c: char) -> (r: bool)
    ensures
        r == is_ascii_alnum(c),
{
    ('0' <= c && c <= '9') || ('A' <= c && c <= 'Z') || ('a' <= c && c <= 'z')
}

proof fn lemma_upper_keeps_alnum(c: char)
    ensures
        is_ascii_alnum(ascii_upper(c)) == is_ascii_alnum(c),
        is_ascii_alnum(c) ==> '\0' <= ascii_upper(c) <= '\u{7f}',
{
}

/// Upper-cases `input` and checks that it is 3 to 12 ASCII digits or letters.
pub fn normalize_prefix(input: &str) -> (r: Result<String, ErrorCode>)
    ensures
        match r {
            Ok(s) => is_valid_prefix_input(input@) && s@ == ascii_upper_seq(input@),
            Err(e) => !is_valid_prefix_input(input@) && e == ErrorCode::InvalidPrefixFormat,
        },
{
    broadcast use vstd::string::is_ascii_spec_bytes;

    let upper = to_ascii_uppercase(input);
    let up: &str = upper.as_str();
    let ghost s = input@;
    proof {
        assert(up@ == ascii_upper_seq(s));
        assert forall|i: int| 0 <= i < s.len() implies #[trigger] up@[i] == ascii_upper(s[i]) by {}
        if is_valid_prefix_input(s) {
            assert forall|i: int| 0 <= i < up@.len() implies '\0' <= #[trigger] up@[i] <= '\u{7f}' by {
                lemma_upper_keeps_alnum(s[i]);
            }
            assert(vstd::utf8::is_ascii_chars(up@));
            assert(is_ascii(up));
            assert(up.spec_bytes().len() == up@.len());
        }
    }
    let n = up.len();
    if n < MIN_PREFIX_LEN || n > MAX_PREFIX_LEN {
        return Err(ErrorCode::InvalidPrefixFormat);
    }
    let count = up.unicode_len();
    let mut i: usize = 0;
    while i < count
        invariant
            s == input@,
            count == up@.len(),
            up@ == ascii_upper_seq(s),
            0 <= i <= count,
            forall|j: int| 0 <= j < i ==> is_ascii_alnum(#[trigger] s[j]),
        decreases count - i,
    {
        let c = up.get_char(i);
        proof {
            lemma_upper_keeps_alnum(s[i as int]);
        }
        if !char_is_ascii_alnum(c) {
            assert(!is_ascii_alnum(s[i as int]));
            assert(up@.len() == s.len());
            return Err(ErrorCode::InvalidPrefixFormat);
        }
        i = i + 1;
    }
    proof {
        assert(up.spec_bytes().len() == up@.len()) by {
            assert forall|k: int| 0 <= k < up@.len() implies '\0' <= #[trigger] up@[k] <= '\u{7f}' by {
                lemma_upper_keeps_alnum(s[k]);
            }
            assert(vstd::utf8::is_ascii_chars(up@));
            assert(is_ascii(up));
        }
    }
    Ok(upper)
}

// ---------------------------------------------------------------------------
// Metadata
// ---------------------------------------------------------------------------

/// `p` is the beginning of `s`.
pub open spec fn seq_starts_with(s: Seq<char>, p: Seq<char>) -> bool {
    p.len() <= s.len() && s.subrange(0, p.len() as int) == p
}

/// The two URI schemes that metadata may use.
pub open spec fn https_scheme() -> Seq<char> {
    seq!['h', 't', 't', 'p', 's', ':', '/', '/']
}

pub open spec fn ipfs_scheme() -> Seq<char> {
    seq!['i', 'p', 'f', 's', ':', '/', '/']
}

/// `uri` begins with `https://` or `ipfs://`.
pub open spec fn has_allowed_scheme(uri: Seq<char>) -> bool {
    seq_starts_with(uri, https_scheme()) || seq_starts_with(uri, ipfs_scheme())
}

/// The outcome of validating a metadata URI (given as characters and as its
/// UTF-8 bytes) and a metadata hash length.
pub open spec fn metadata_check(uri: Seq<char>, uri_bytes: nat, hash_len: nat) -> Result<(), ErrorCode> {
    if hash_len != 32 {
        Err(ErrorCode::InvalidMetadataHashLength)
    } else if uri_bytes > MAX_URI_LEN {
        Err(ErrorCode::InvalidMetadataUri)
    } else if !has_allowed_scheme(uri) {
        Err(ErrorCode::InvalidMetadataUri)
    } else {
        Ok(())
    }
}

/// Number of bytes in the UTF-8 encoding of `s`.
pub open spec fn utf8_len(s: Seq<char>) -> nat {
    vstd::utf8::encode_utf8(s).len()
}

fn starts_with(s: &str, p: &str) -> (r: bool)
    ensures
        r == seq_starts_with(s@, p@),
{
    let n = p.unicode_len();
    let m = s.unicode_len();
    if n > m {
        return false;
    }
    let mut i: usize = 0;
    while i < n
        invariant
            n == p@.len(),
            m == s@.len(),
            n <= m,
            0 <= i <= n,
            forall|j: int| 0 <= j < i ==> s@[j] == p@[j],
        decreases n - i,
    {
        if s.get_char(i) != p.get_char(i) {
            assert(s@.subrange(0, n as int)[i as int] != p@[i as int]);
            return false;
        }
        i = i + 1;
    }
    assert(s@.subrange(0, n as int) =~= p@);
    true
}

/// Checks that the hash is 32 bytes and the URI at most 255 bytes, beginning
/// with `https://` or `ipfs://`.
pub fn validate_metadata(metadata_uri: &str, metadata_hash: &[u8]) -> (r: Result<(), ErrorCode>)
    ensures
        r == metadata_check(metadata_uri@, utf8_len(metadata_uri@), metadata_hash@.len()),
{
    if metadata_hash.len() != 32 {
        return Err(ErrorCode::InvalidMetadataHashLength);
    }
    if metadata_uri.as_bytes().len() > MAX_URI_LEN {
        return Err(ErrorCode::InvalidMetadataUri);
    }
    let https = "https://";
    let ipfs = "ipfs://";
    proof {
        reveal_strlit("https://");
        reveal_strlit("ipfs://");
        assert(https@ =~= https_scheme());
        assert(ipfs@ =~= ipfs_scheme());
    }
    let allowed = starts_with(metadata_uri, https) || starts_with(metadata_uri, ipfs);
    if !allowed {
        return Err(ErrorCode::InvalidMetadataUri);
    }
    Ok(())
}

/// Checks that an account is owned by the given program.
pub fn assert_program_owned(account_owner: &Pubkey, program_id: &Pubkey) -> (r: Result<(), ErrorCode>)
    ensures
        r == (if *account_owner == *program_id {
            Ok(())
        } else {
            Err(ErrorCode::InvalidTreasuryAccount)
        }),
{
    if account_owner == program_id {
        Ok(())
    } else {
        Err(ErrorCode::InvalidTreasuryAccount)
    }
}

// ---------------------------------------------------------------------------
// Signature attestation
// ---------------------------------------------------------------------------

/// `w` occurs in `data` as a contiguous run of bytes.
pub open spec fn contains_window(data: Seq<u8>, w: Seq<u8>) -> bool {
    exists|i: int| 0 <= i && i + w.len() <= data.len() && #[trigger] data.subrange(i, i + w.len()) == w
}

/// The bytes of the address of the native Ed25519 signature-verification program.
pub open spec fn ed25519_program_bytes() -> Seq<u8> {
    seq![
        3u8, 125u8, 70u8, 214u8, 124u8, 147u8, 251u8, 190u8,
        18u8, 249u8, 66u8, 143u8, 131u8, 141u8, 64u8, 255u8,
        5u8, 112u8, 116u8, 73u8, 39u8, 244u8, 138u8, 100u8,
        252u8, 202u8, 112u8, 68u8, 128u8, 0u8, 0u8, 0u8,
    ]
}

/// `ix` is a call of the Ed25519 program whose payload names both `signer`
/// and `digest`.
pub open spec fn attests(ix: Instruction, signer: Seq<u8>, digest: Seq<u8>) -> bool {
    &&& ix.program_id@ == ed25519_program_bytes()
    &&& contains_window(ix.data@, signer)
    &&& contains_window(ix.data@, digest)
}

/// Some operation of the batch attests that `signer` signed `digest`.
pub open spec fn batch_attests(batch: Seq<Instruction>, signer: Seq<u8>, digest: Seq<u8>) -> bool {
    exists|i: int| 0 <= i < batch.len() && attests(#[trigger] batch[i], signer, digest)
}

/// Relies on `anchor_lang::solana_program::ed25519_program::ID`, declared from
/// "Ed25519SigVerify111111111111111111111111111": these are its 32 bytes.
#[verifier::external_body]
fn ed25519_program_id() -> (r: Pubkey)
    ensures
        r@ == ed25519_program_bytes(),
{
    Pubkey { bytes: anchor_lang::solana_program::ed25519_program::ID.to_bytes() }
}

/// Whether the 32 bytes of `w` occur contiguously in `data`.
pub fn contains_subslice(data: &[u8], w: &[u8; 32]) -> (r: bool)
    ensures
        r == contains_window(data@, w@),
{
    let len = data.len();
    if len < 32 {
        return false;
    }
    let mut start: usize = 0;
    while start <= len - 32
        invariant
            len == data@.len(),
            32 <= len,
            w@.len() == 32,
            0 <= start <= len - 31,
            forall|k: int| 0 <= k < start ==> #[trigger] data@.subrange(k, k + 32) != w@,
        decreases len - start,
    {
        let mut j: usize = 0;
        let mut same = true;
        while j < 32
            invariant
                len == data@.len(),
                start + 32 <= len,
                0 <= j <= 32,
                same == (forall|t: int| 0 <= t < j ==> data@[start + t] == w@[t]),
            decreases 32 - j,
        {
            if data[start + j] != w[j] {
                same = false;
            }
            j = j + 1;
        }
        if same {
            assert(data@.subrange(start as int, start + 32) =~= w@);
            return true;
        }
        proof {
            let t = choose|t: int| 0 <= t < 32 && data@[start + t] != w@[t];
            assert(data@.subrange(start as int, start + 32)[t] != w@[t]);
        }
        start = start + 1;
    }
    proof {
        if contains_window(data@, w@) {
            let k = choose|k: int| 0 <= k && k + w@.len() <= data@.len() && #[trigger] data@.subrange(k, k + w@.len()) == w@;
            assert(data@.subrange(k, k + 32) == w@);
        }
    }
    false
}

/// Looks through the batch, in order, for an operation of the Ed25519 program
/// whose payload holds both the signer's 32 bytes and the 32-byte digest.
pub fn verify_ed25519_signature(
    instructions: &Vec<Instruction>,
    owner_pubkey: &Pubkey,
    metadata_hash: &[u8; 32],
) -> (r: Result<(), ErrorCode>)
    ensures
        r == (if batch_attests(instructions@, owner_pubkey@, metadata_hash@) {
            Ok(())
        } else {
            Err(ErrorCode::InvalidEd25519Signature)
        }),
{
    let ed25519 = ed25519_program_id();
    let mut i: usize = 0;
    while i < instructions.len()
        invariant
            ed25519@ == ed25519_program_bytes(),
            0 <= i <= instructions@.len(),
            forall|k: int| 0 <= k < i ==> !attests(#[trigger] instructions@[k], owner_pubkey@, metadata_hash@),
        decreases instructions@.len() - i,
    {
        let ix = &instructions[i];
        if ix.program_id == ed25519 {
            proof {
                lemma_key_view_eq(ix.program_id, ed25519);
            }
            let data = ix.data.as_slice();
            if contains_subslice(data, &owner_pubkey.bytes) && contains_subslice(data, metadata_hash) {
                assert(attests(instructions@[i as int], owner_pubkey@, metadata_hash@));
                return Ok(());
            }
        } else {
            proof {
                lemma_key_view_eq(ix.program_id, ed25519);
            }
        }
        i = i + 1;
    }
    Err(ErrorCode::InvalidEd25519Signature)
}

} // verus!
