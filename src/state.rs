use vstd::prelude::*;

use crate::constants::{
    BOOL_SIZE, DISCRIMINATOR_SIZE, I64_SIZE, MAX_VERIFIERS, PUBKEY_SIZE, STRING_PREFIX_SIZE, U64_SIZE,
    U8_SIZE, VEC_PREFIX_SIZE,
};

verus! {

broadcast use vstd::array::group_array_axioms;

/// A 32-byte account address.
#[derive(Clone, Copy, Debug)]
pub struct Pubkey {
    pub bytes: [u8; 32],
}

impl View for Pubkey {
    type V = Seq<u8>;

    open spec fn view(&self) -> Seq<u8> {
        self.bytes@
    }
}

/// Two addresses are the same exactly when their bytes are.
pub proof fn lemma_key_view_eq(a: Pubkey, b: Pubkey)
    ensures
        (a@ == b@) <==> (a == b),
{
    if a@ == b@ {
        assert(a.bytes =~= b.bytes) by {
            assert forall|i: int| 0 <= i < 32 implies a.bytes[i] == b.bytes[i] by {
                assert(a.bytes[i] == a@[i]);
                assert(b.bytes[i] == b@[i]);
            }
        }
    }
}

impl PartialEq for Pubkey {
    fn eq(&self, other: &Pubkey) -> (r: bool) {
        let mut i: usize = 0;
        while i < 32
            invariant
                0 <= i <= 32,
                forall|j: int| 0 <= j < i ==> self.bytes[j] == other.bytes[j],
            decreases 32 - i,
        {
            if self.bytes[i] != other.bytes[i] {
                proof {
                    lemma_key_view_eq(*self, *other);
                }
                return false;
            }
            i = i + 1;
        }
        proof {
            assert(self.bytes =~= other.bytes);
        }
        true
    }
}

impl vstd::std_specs::cmp::PartialEqSpecImpl for Pubkey {
    open spec fn obeys_eq_spec() -> bool {
        true
    }

    open spec fn eq_spec(&self, other: &Pubkey) -> bool {
        *self == *other
    }
}

impl Eq for Pubkey {
}

} // verus!

verus! {

/// One operation of the batch that an instruction runs in: the program it
/// targets and its payload.
#[derive(Debug)]
pub struct Instruction {
    pub program_id: Pubkey,
    pub data: Vec<u8>,
}

} // verus!

verus! {

/// Where a prefix record stands in its lifecycle.
#[derive(Clone, Copy, Debug, PartialEq, Eq, Structural)]
pub enum PrefixStatus {
    Pending,
    Active,
    Rejected,
    Inactive,
}

/// The registry's configuration: its admin, the fee in effect and the pause flag.
#[derive(Clone, Copy, Debug)]
pub struct FeeRegistry {
    pub admin: Pubkey,
    pub current_fee: u64,
    pub pause: bool,
    pub bump: u8,
    pub created_at: i64,
    pub updated_at: i64,
}

impl FeeRegistry {
    /// Bytes reserved for a stored fee registry.
    pub fn space() -> (r: usize)
        ensures
            r == DISCRIMINATOR_SIZE + PUBKEY_SIZE + U64_SIZE + BOOL_SIZE + U8_SIZE + I64_SIZE + I64_SIZE,
    {
        DISCRIMINATOR_SIZE + PUBKEY_SIZE + U64_SIZE + BOOL_SIZE + U8_SIZE + I64_SIZE + I64_SIZE
    }
}

/// No principal occurs twice in `s`.
pub open spec fn no_duplicates(s: Seq<Pubkey>) -> bool {
    forall|i: int, j: int| 0 <= i < s.len() && 0 <= j < s.len() && i != j ==> s[i] != s[j]
}

/// The principals allowed to approve or reject submissions.
#[derive(Debug)]
pub struct VerifiersList {
    pub admin: Pubkey,
    pub verifiers: Vec<Pubkey>,
    pub bump: u8,
    pub created_at: i64,
    pub updated_at: i64,
}

impl VerifiersList {
    /// At most 256 verifiers, none of them twice.
    pub open spec fn wf(&self) -> bool {
        self.verifiers@.len() <= MAX_VERIFIERS && no_duplicates(self.verifiers@)
    }

    /// `k` may approve and reject.
    pub open spec fn is_verifier(&self, k: Pubkey) -> bool {
        self.verifiers@.contains(k)
    }

    /// Bytes reserved for a stored list of at most `max_verifiers` verifiers.
    pub fn space(max_verifiers: usize) -> (r: usize)
        requires
            DISCRIMINATOR_SIZE + PUBKEY_SIZE + VEC_PREFIX_SIZE + max_verifiers * PUBKEY_SIZE + U8_SIZE
                + I64_SIZE + I64_SIZE <= usize::MAX,
        ensures
            r == DISCRIMINATOR_SIZE + PUBKEY_SIZE + VEC_PREFIX_SIZE + max_verifiers * PUBKEY_SIZE + U8_SIZE
                + I64_SIZE + I64_SIZE,
    {
        DISCRIMINATOR_SIZE + PUBKEY_SIZE + VEC_PREFIX_SIZE + max_verifiers * PUBKEY_SIZE + U8_SIZE
            + I64_SIZE + I64_SIZE
    }

    /// Whether `k` is in the list.
    pub fn contains(&self, k: &Pubkey) -> (r: bool)
        ensures
            r == self.is_verifier(*k),
    {
        match self.position(k) {
            Some(_) => true,
            None => false,
        }
    }

    /// Index of the first occurrence of `k` in the list.
    pub fn position(&self, k: &Pubkey) -> (r: Option<usize>)
        ensures
            match r {
                Some(i) => i < self.verifiers@.len() && self.verifiers@[i as int] == *k
                    && forall|j: int| 0 <= j < i ==> self.verifiers@[j] != *k,
                None => !self.is_verifier(*k),
            },
    {
        let mut i: usize = 0;
        while i < self.verifiers.len()
            invariant
                0 <= i <= self.verifiers@.len(),
                forall|j: int| 0 <= j < i ==> self.verifiers@[j] != *k,
            decreases self.verifiers@.len() - i,
        {
            if self.verifiers[i] == *k {
                return Some(i);
            }
            i = i + 1;
        }
        None
    }
}

/// One registered prefix and everything recorded about it.
#[derive(Debug)]
pub struct PrefixAccount {
    pub owner: Pubkey,
    pub prefix: String,
    pub metadata_uri: String,
    pub metadata_hash: [u8; 32],
    pub ref_hash: [u8; 32],
    pub status: PrefixStatus,
    pub authority_keys: Vec<Pubkey>,
    pub fee_paid: u64,
    pub expiry_at: i64,
    pub created_at: i64,
    pub updated_at: i64,
    pub bump: u8,
}

impl PrefixAccount {
    /// Bytes reserved for a stored record with room for the given prefix
    /// length, URI length and number of authority keys.
    pub fn space(max_prefix_len: usize, max_uri_len: usize, max_auth_keys: usize) -> (r: usize)
        requires
            DISCRIMINATOR_SIZE + PUBKEY_SIZE + STRING_PREFIX_SIZE + max_prefix_len + STRING_PREFIX_SIZE
                + max_uri_len + 32 + 32 + 1 + VEC_PREFIX_SIZE + max_auth_keys * PUBKEY_SIZE + U64_SIZE
                + 1 + I64_SIZE + I64_SIZE + I64_SIZE + U8_SIZE <= usize::MAX,
        ensures
            r == DISCRIMINATOR_SIZE + PUBKEY_SIZE + STRING_PREFIX_SIZE + max_prefix_len + STRING_PREFIX_SIZE
                + max_uri_len + 32 + 32 + 1 + VEC_PREFIX_SIZE + max_auth_keys * PUBKEY_SIZE + U64_SIZE
                + 1 + I64_SIZE + I64_SIZE + I64_SIZE + U8_SIZE,
    {
        DISCRIMINATOR_SIZE + PUBKEY_SIZE + STRING_PREFIX_SIZE + max_prefix_len + STRING_PREFIX_SIZE
            + max_uri_len + 32 + 32 + 1 + VEC_PREFIX_SIZE + max_auth_keys * PUBKEY_SIZE + U64_SIZE + 1
            + I64_SIZE + I64_SIZE + I64_SIZE + U8_SIZE
    }
}

/// The 32 zero bytes that stand for "no reference hash".
pub open spec fn zero_hash() -> Seq<u8> {
    Seq::new(32, |_i: int| 0u8)
}

} // verus!
