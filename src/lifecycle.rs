//! The transitions of a prefix record: submission, approval, rejection,
//! refund, metadata and authority updates, deactivation, reactivation and
//! owner recovery.
use vstd::prelude::*;

use crate::constants::{MAX_AUTH_KEYS, MAX_EXPIRY_DURATION};
use crate::errors::ErrorCode;
use crate::state::{zero_hash, FeeRegistry, Instruction, PrefixAccount, PrefixStatus, Pubkey, VerifiersList};
use crate::utils::{
    batch_attests, is_normalized_prefix, metadata_check, normalize_prefix, utf8_len, validate_metadata,
    verify_ed25519_signature,
};

verus! {

broadcast use vstd::array::group_array_axioms;

// ---------------------------------------------------------------------------
// Submission
// ---------------------------------------------------------------------------

/// The outcome of a submission, decided by the guards in the order they are
/// checked.
pub open spec fn submit_check(
    fee_registry: FeeRegistry,
    owner: Pubkey,
    owner_lamports: u64,
    prefix: Seq<char>,
    metadata_uri: Seq<char>,
    metadata_hash: Seq<u8>,
    n_keys: nat,
    batch: Seq<Instruction>,
) -> Result<(), ErrorCode> {
    if fee_registry.pause {
        Err(ErrorCode::FeeOperationsPaused)
    } else if !is_normalized_prefix(prefix) {
        Err(ErrorCode::InvalidPrefixFormat)
    } else if metadata_check(metadata_uri, utf8_len(metadata_uri), metadata_hash.len()) is Err {
        metadata_check(metadata_uri, utf8_len(metadata_uri), metadata_hash.len())
    } else if n_keys > MAX_AUTH_KEYS {
        Err(ErrorCode::AuthorityKeysTooMany)
    } else if !batch_attests(batch, owner@, metadata_hash) {
        Err(ErrorCode::InvalidEd25519Signature)
    } else if fee_registry.current_fee == 0 || owner_lamports < fee_registry.current_fee {
        Err(ErrorCode::InsufficientFee)
    } else {
        Ok(())
    }
}

/// `rec` is the record that a successful submission creates.
pub open spec fn is_new_record(
    rec: PrefixAccount,
    owner: Pubkey,
    prefix: Seq<char>,
    metadata_uri: Seq<char>,
    metadata_hash: Seq<u8>,
    authority_keys: Seq<Pubkey>,
    fee: u64,
    bump: u8,
    now: i64,
) -> bool {
    &&& rec.owner == owner
    &&& rec.prefix@ == prefix
    &&& rec.metadata_uri@ == metadata_uri
    &&& rec.metadata_hash@ == metadata_hash
    &&& rec.ref_hash@ == zero_hash()
    &&& rec.status == PrefixStatus::Pending
    &&& rec.authority_keys@ == authority_keys
    &&& rec.fee_paid == fee
    &&& rec.expiry_at == now + MAX_EXPIRY_DURATION
    &&& rec.created_at == now
    &&& rec.updated_at == now
    &&& rec.bump == bump
}

/// Submits a prefix for approval: the fee moves from the owner to the treasury
/// and a Pending record, expiring fourteen days from `now`, is returned.
/// On any error nothing moves.
pub fn submit_prefix_with_fee_handler(
    fee_registry: &FeeRegistry,
    owner: &Pubkey,
    owner_lamports: &mut u64,
    treasury_lamports: &mut u64,
    prefix: String,
    metadata_uri: String,
    metadata_hash: [u8; 32],
    authority_keys: Vec<Pubkey>,
    instructions: &Vec<Instruction>,
    bump: u8,
    now: i64,
) -> (r: Result<PrefixAccount, ErrorCode>)
    requires
        *old(owner_lamports) + *old(treasury_lamports) <= u64::MAX,
        now <= i64::MAX - MAX_EXPIRY_DURATION,
    ensures
        match r {
            Ok(rec) => {
                &&& submit_check(*fee_registry, *owner, *old(owner_lamports), prefix@, metadata_uri@,
                    metadata_hash@, authority_keys@.len(), instructions@) == Ok::<(), ErrorCode>(())
                &&& is_new_record(rec, *owner, prefix@, metadata_uri@, metadata_hash@, authority_keys@,
                    fee_registry.current_fee, bump, now)
                &&& *final(treasury_lamports) == *old(treasury_lamports) + fee_registry.current_fee
                &&& *final(owner_lamports) == *old(owner_lamports) - fee_registry.current_fee
            },
            Err(e) => {
                &&& submit_check(*fee_registry, *owner, *old(owner_lamports), prefix@, metadata_uri@,
                    metadata_hash@, authority_keys@.len(), instructions@) == Err::<(), ErrorCode>(e)
                &&& *final(treasury_lamports) == *old(treasury_lamports)
                &&& *final(owner_lamports) == *old(owner_lamports)
            },
        },
{
    if fee_registry.pause {
        return Err(ErrorCode::FeeOperationsPaused);
    }
    let normalized = match normalize_prefix(prefix.as_str()) {
        Ok(n) => n,
        Err(e) => {
            return Err(e);
        },
    };
    if prefix != normalized {
        return Err(ErrorCode::InvalidPrefixFormat);
    }
    let hash_slice: &[u8] = metadata_hash.as_slice();
    match validate_metadata(metadata_uri.as_str(), hash_slice) {
        Ok(()) => {},
        Err(e) => {
            return Err(e);
        },
    }
    if authority_keys.len() > MAX_AUTH_KEYS {
        return Err(ErrorCode::AuthorityKeysTooMany);
    }
    match verify_ed25519_signature(instructions, owner, &metadata_hash) {
        Ok(()) => {},
        Err(e) => {
            return Err(e);
        },
    }
    let fee = fee_registry.current_fee;
    if fee == 0 || *owner_lamports < fee {
        return Err(ErrorCode::InsufficientFee);
    }
    *owner_lamports = *owner_lamports - fee;
    *treasury_lamports = *treasury_lamports + fee;
    let rec = PrefixAccount {
        owner: *owner,
        prefix: normalized,
        metadata_uri,
        metadata_hash,
        ref_hash: [0u8; 32],
        status: PrefixStatus::Pending,
        authority_keys,
        fee_paid: fee,
        expiry_at: now + MAX_EXPIRY_DURATION as i64,
        created_at: now,
        updated_at: now,
        bump,
    };
    assert(rec.ref_hash@ =~= zero_hash());
    Ok(rec)
}

// ---------------------------------------------------------------------------
// Approval and rejection by a verifier
// ---------------------------------------------------------------------------

/// The outcome of an approval.
pub open spec fn approve_check(
    fee_registry: FeeRegistry,
    verifiers: VerifiersList,
    verifier: Pubkey,
    acct: PrefixAccount,
    now: i64,
) -> Result<(), ErrorCode> {
    if fee_registry.pause {
        Err(ErrorCode::FeeOperationsPaused)
    } else if !verifiers.is_verifier(verifier) {
        Err(ErrorCode::UnauthorizedVerifier)
    } else if acct.status != PrefixStatus::Pending {
        Err(ErrorCode::InvalidPrefixStatus)
    } else if now > acct.expiry_at {
        Err(ErrorCode::PrefixExpired)
    } else {
        Ok(())
    }
}

/// The record once approved: Active, carrying the verifier's reference hash.
pub open spec fn approved(acct: PrefixAccount, ref_hash: [u8; 32], now: i64) -> PrefixAccount {
    PrefixAccount { status: PrefixStatus::Active, ref_hash: ref_hash, updated_at: now, ..acct }
}

/// A verifier approves a Pending, unexpired record.
pub fn approve_prefix_handler(
    fee_registry: &FeeRegistry,
    verifiers: &VerifiersList,
    verifier: &Pubkey,
    prefix_account: &mut PrefixAccount,
    ref_hash: [u8; 32],
    now: i64,
) -> (r: Result<(), ErrorCode>)
    ensures
        r == approve_check(*fee_registry, *verifiers, *verifier, *old(prefix_account), now),
        r is Ok ==> *final(prefix_account) == approved(*old(prefix_account), ref_hash, now),
        r is Err ==> *final(prefix_account) == *old(prefix_account),
{
    if fee_registry.pause {
        return Err(ErrorCode::FeeOperationsPaused);
    }
    if !verifiers.contains(verifier) {
        return Err(ErrorCode::UnauthorizedVerifier);
    }
    if prefix_account.status != PrefixStatus::Pending {
        return Err(ErrorCode::InvalidPrefixStatus);
    }
    if now > prefix_account.expiry_at {
        return Err(ErrorCode::PrefixExpired);
    }
    prefix_account.status = PrefixStatus::Active;
    prefix_account.ref_hash = ref_hash;
    prefix_account.updated_at = now;
    Ok(())
}

/// The outcome of a rejection.
pub open spec fn reject_check(
    fee_registry: FeeRegistry,
    verifiers: VerifiersList,
    verifier: Pubkey,
    acct: PrefixAccount,
) -> Result<(), ErrorCode> {
    if fee_registry.pause {
        Err(ErrorCode::FeeOperationsPaused)
    } else if !verifiers.is_verifier(verifier) {
        Err(ErrorCode::UnauthorizedVerifier)
    } else if acct.status != PrefixStatus::Pending {
        Err(ErrorCode::InvalidPrefixStatus)
    } else {
        Ok(())
    }
}

/// The record once rejected. The reason is not kept.
pub open spec fn rejected(acct: PrefixAccount, now: i64) -> PrefixAccount {
    PrefixAccount { status: PrefixStatus::Rejected, updated_at: now, ..acct }
}

/// A verifier rejects a Pending record.
pub fn reject_prefix_handler(
    fee_registry: &FeeRegistry,
    verifiers: &VerifiersList,
    verifier: &Pubkey,
    prefix_account: &mut PrefixAccount,
    now: i64,
) -> (r: Result<(), ErrorCode>)
    ensures
        r == reject_check(*fee_registry, *verifiers, *verifier, *old(prefix_account)),
        r is Ok ==> *final(prefix_account) == rejected(*old(prefix_account), now),
        r is Err ==> *final(prefix_account) == *old(prefix_account),
{
    if fee_registry.pause {
        return Err(ErrorCode::FeeOperationsPaused);
    }
    if !verifiers.contains(verifier) {
        return Err(ErrorCode::UnauthorizedVerifier);
    }
    if prefix_account.status != PrefixStatus::Pending {
        return Err(ErrorCode::InvalidPrefixStatus);
    }
    prefix_account.status = PrefixStatus::Rejected;
    prefix_account.updated_at = now;
    Ok(())
}

// ---------------------------------------------------------------------------
// Refund
// ---------------------------------------------------------------------------

/// A refund is open to a Rejected record and to a Pending one past its expiry.
pub open spec fn refundable(acct: PrefixAccount, now: i64) -> bool {
    acct.status == PrefixStatus::Rejected || (acct.status == PrefixStatus::Pending && now > acct.expiry_at)
}

/// The outcome of a refund.
pub open spec fn refund_check(
    fee_registry: FeeRegistry,
    owner: Pubkey,
    acct: PrefixAccount,
    treasury_lamports: u64,
    now: i64,
) -> Result<(), ErrorCode> {
    if fee_registry.pause {
        Err(ErrorCode::FeeOperationsPaused)
    } else if !refundable(acct, now) {
        Err(ErrorCode::RefundNotAllowed)
    } else if owner != acct.owner {
        Err(ErrorCode::UnauthorizedOwnerAction)
    } else if acct.fee_paid == 0 {
        Err(ErrorCode::RefundNotAllowed)
    } else if treasury_lamports < acct.fee_paid {
        Err(ErrorCode::InsufficientTreasuryBalance)
    } else {
        Ok(())
    }
}

/// Pays the fee of a refundable record back from the treasury to its owner.
/// On success the record is to be destroyed by the caller.
pub fn refund_prefix_fee_handler(
    fee_registry: &FeeRegistry,
    owner: &Pubkey,
    owner_lamports: &mut u64,
    treasury_lamports: &mut u64,
    prefix_account: &PrefixAccount,
    now: i64,
) -> (r: Result<(), ErrorCode>)
    requires
        *old(owner_lamports) + *old(treasury_lamports) <= u64::MAX,
    ensures
        r == refund_check(*fee_registry, *owner, *prefix_account, *old(treasury_lamports), now),
        r is Ok ==> *final(treasury_lamports) == *old(treasury_lamports) - prefix_account.fee_paid
            && *final(owner_lamports) == *old(owner_lamports) + prefix_account.fee_paid,
        r is Err ==> *final(treasury_lamports) == *old(treasury_lamports) && *final(owner_lamports)
            == *old(owner_lamports),
{
    if fee_registry.pause {
        return Err(ErrorCode::FeeOperationsPaused);
    }
    let is_rejected = prefix_account.status == PrefixStatus::Rejected;
    let is_expired = prefix_account.status == PrefixStatus::Pending && now > prefix_account.expiry_at;
    if !(is_rejected || is_expired) {
        return Err(ErrorCode::RefundNotAllowed);
    }
    if *owner != prefix_account.owner {
        return Err(ErrorCode::UnauthorizedOwnerAction);
    }
    let amount = prefix_account.fee_paid;
    if amount == 0 {
        return Err(ErrorCode::RefundNotAllowed);
    }
    if *treasury_lamports < amount {
        return Err(ErrorCode::InsufficientTreasuryBalance);
    }
    *treasury_lamports = *treasury_lamports - amount;
    *owner_lamports = *owner_lamports + amount;
    Ok(())
}

// ---------------------------------------------------------------------------
// Owner updates
// ---------------------------------------------------------------------------

/// The outcome of a metadata update.
pub open spec fn update_metadata_check(
    owner: Pubkey,
    acct: PrefixAccount,
    new_uri: Seq<char>,
    new_hash: Seq<u8>,
    batch: Seq<Instruction>,
) -> Result<(), ErrorCode> {
    if owner != acct.owner {
        Err(ErrorCode::UnauthorizedOwnerAction)
    } else if acct.status == PrefixStatus::Rejected {
        Err(ErrorCode::InvalidPrefixStatus)
    } else if metadata_check(new_uri, utf8_len(new_uri), new_hash.len()) is Err {
        metadata_check(new_uri, utf8_len(new_uri), new_hash.len())
    } else if !batch_attests(batch, owner@, new_hash) {
        Err(ErrorCode::InvalidEd25519Signature)
    } else {
        Ok(())
    }
}

/// `new` is `old` with its metadata replaced; an Active record goes back to
/// Pending and loses its reference hash, any other keeps its status.
pub open spec fn metadata_updated(
    old: PrefixAccount,
    new: PrefixAccount,
    new_uri: String,
    new_hash: [u8; 32],
    now: i64,
) -> bool {
    &&& new == PrefixAccount {
        metadata_uri: new_uri,
        metadata_hash: new_hash,
        status: if old.status == PrefixStatus::Active { PrefixStatus::Pending } else { old.status },
        ref_hash: new.ref_hash,
        updated_at: now,
        ..old
    }
    &&& new.ref_hash@ == (if old.status == PrefixStatus::Active { zero_hash() } else { old.ref_hash@ })
}

/// The owner replaces the record's metadata, proving with an attestation in
/// the batch that they signed the new hash.
pub fn update_prefix_metadata_handler(
    owner: &Pubkey,
    prefix_account: &mut PrefixAccount,
    new_uri: String,
    new_hash: [u8; 32],
    instructions: &Vec<Instruction>,
    now: i64,
) -> (r: Result<(), ErrorCode>)
    ensures
        r == update_metadata_check(*owner, *old(prefix_account), new_uri@, new_hash@, instructions@),
        r is Ok ==> metadata_updated(*old(prefix_account), *final(prefix_account), new_uri, new_hash, now),
        r is Err ==> *final(prefix_account) == *old(prefix_account),
{
    if *owner != prefix_account.owner {
        return Err(ErrorCode::UnauthorizedOwnerAction);
    }
    if prefix_account.status == PrefixStatus::Rejected {
        return Err(ErrorCode::InvalidPrefixStatus);
    }
    match validate_metadata(new_uri.as_str(), new_hash.as_slice()) {
        Ok(()) => {},
        Err(e) => {
            return Err(e);
        },
    }
    match verify_ed25519_signature(instructions, owner, &new_hash) {
        Ok(()) => {},
        Err(e) => {
            return Err(e);
        },
    }
    prefix_account.metadata_uri = new_uri;
    prefix_account.metadata_hash = new_hash;
    if prefix_account.status == PrefixStatus::Active {
        prefix_account.status = PrefixStatus::Pending;
        prefix_account.ref_hash = [0u8; 32];
        assert(prefix_account.ref_hash@ =~= zero_hash());
    }
    prefix_account.updated_at = now;
    Ok(())
}

/// The outcome of an authority-key update.
pub open spec fn update_authority_check(owner: Pubkey, acct: PrefixAccount, n_keys: nat) -> Result<(), ErrorCode> {
    if n_keys > MAX_AUTH_KEYS {
        Err(ErrorCode::AuthorityKeysTooMany)
    } else if owner != acct.owner {
        Err(ErrorCode::UnauthorizedOwnerAction)
    } else if acct.status == PrefixStatus::Rejected {
        Err(ErrorCode::InvalidPrefixStatus)
    } else {
        Ok(())
    }
}

/// The record with its authority keys replaced; its status is kept.
pub open spec fn authority_updated(acct: PrefixAccount, keys: Vec<Pubkey>, now: i64) -> PrefixAccount {
    PrefixAccount { authority_keys: keys, updated_at: now, ..acct }
}

/// The owner replaces the record's authority keys.
pub fn update_prefix_authority_handler(
    owner: &Pubkey,
    prefix_account: &mut PrefixAccount,
    authority_keys: Vec<Pubkey>,
    now: i64,
) -> (r: Result<(), ErrorCode>)
    ensures
        r == update_authority_check(*owner, *old(prefix_account), authority_keys@.len()),
        r is Ok ==> *final(prefix_account) == authority_updated(*old(prefix_account), authority_keys, now),
        r is Err ==> *final(prefix_account) == *old(prefix_account),
{
    if authority_keys.len() > MAX_AUTH_KEYS {
        return Err(ErrorCode::AuthorityKeysTooMany);
    }
    if *owner != prefix_account.owner {
        return Err(ErrorCode::UnauthorizedOwnerAction);
    }
    if prefix_account.status == PrefixStatus::Rejected {
        return Err(ErrorCode::InvalidPrefixStatus);
    }
    prefix_account.authority_keys = authority_keys;
    prefix_account.updated_at = now;
    Ok(())
}

// ---------------------------------------------------------------------------
// Admin transitions
// ---------------------------------------------------------------------------

/// The outcome of an admin moving a record from status `from`.
pub open spec fn admin_transition_check(
    fee_registry: FeeRegistry,
    admin: Pubkey,
    acct: PrefixAccount,
    from: PrefixStatus,
) -> Result<(), ErrorCode> {
    if admin != fee_registry.admin {
        Err(ErrorCode::UnauthorizedAdmin)
    } else if acct.status != from {
        Err(ErrorCode::InvalidPrefixStatus)
    } else {
        Ok(())
    }
}

/// The record with a new status; everything else but the time is kept.
pub open spec fn with_status(acct: PrefixAccount, status: PrefixStatus, now: i64) -> PrefixAccount {
    PrefixAccount { status: status, updated_at: now, ..acct }
}

/// The admin takes an Active record out of service.
pub fn deactivate_prefix_handler(
    fee_registry: &FeeRegistry,
    admin: &Pubkey,
    prefix_account: &mut PrefixAccount,
    now: i64,
) -> (r: Result<(), ErrorCode>)
    ensures
        r == admin_transition_check(*fee_registry, *admin, *old(prefix_account), PrefixStatus::Active),
        r is Ok ==> *final(prefix_account) == with_status(*old(prefix_account), PrefixStatus::Inactive, now),
        r is Err ==> *final(prefix_account) == *old(prefix_account),
{
    if *admin != fee_registry.admin {
        return Err(ErrorCode::UnauthorizedAdmin);
    }
    if prefix_account.status != PrefixStatus::Active {
        return Err(ErrorCode::InvalidPrefixStatus);
    }
    prefix_account.status = PrefixStatus::Inactive;
    prefix_account.updated_at = now;
    Ok(())
}

/// The admin puts an Inactive record back in service.
pub fn reactivate_prefix_handler(
    fee_registry: &FeeRegistry,
    admin: &Pubkey,
    prefix_account: &mut PrefixAccount,
    now: i64,
) -> (r: Result<(), ErrorCode>)
    ensures
        r == admin_transition_check(*fee_registry, *admin, *old(prefix_account), PrefixStatus::Inactive),
        r is Ok ==> *final(prefix_account) == with_status(*old(prefix_account), PrefixStatus::Active, now),
        r is Err ==> *final(prefix_account) == *old(prefix_account),
{
    if *admin != fee_registry.admin {
        return Err(ErrorCode::UnauthorizedAdmin);
    }
    if prefix_account.status != PrefixStatus::Inactive {
        return Err(ErrorCode::InvalidPrefixStatus);
    }
    prefix_account.status = PrefixStatus::Active;
    prefix_account.updated_at = now;
    Ok(())
}

/// The outcome of an owner recovery, where `signer` is the principal that
/// signs as the new owner and pays the fee.
pub open spec fn recover_check(
    fee_registry: FeeRegistry,
    admin: Pubkey,
    signer: Pubkey,
    signer_lamports: u64,
    new_owner: Pubkey,
) -> Result<(), ErrorCode> {
    if admin != fee_registry.admin {
        Err(ErrorCode::UnauthorizedAdmin)
    } else if fee_registry.pause {
        Err(ErrorCode::FeeOperationsPaused)
    } else if signer != new_owner {
        Err(ErrorCode::UnauthorizedOwnerAction)
    } else if fee_registry.current_fee == 0 || signer_lamports < fee_registry.current_fee {
        Err(ErrorCode::InsufficientFee)
    } else {
        Ok(())
    }
}

/// The record with a new owner; status and metadata are kept.
pub open spec fn owner_recovered(acct: PrefixAccount, new_owner: Pubkey, now: i64) -> PrefixAccount {
    PrefixAccount { owner: new_owner, updated_at: now, ..acct }
}

/// The admin and the new owner together move a record to the new owner, who
/// pays the current fee into the treasury.
pub fn recover_prefix_owner_with_fee_handler(
    fee_registry: &FeeRegistry,
    admin: &Pubkey,
    signer: &Pubkey,
    signer_lamports: &mut u64,
    treasury_lamports: &mut u64,
    prefix_account: &mut PrefixAccount,
    new_owner: Pubkey,
    now: i64,
) -> (r: Result<(), ErrorCode>)
    requires
        *old(signer_lamports) + *old(treasury_lamports) <= u64::MAX,
    ensures
        r == recover_check(*fee_registry, *admin, *signer, *old(signer_lamports), new_owner),
        r is Ok ==> {
            &&& *final(prefix_account) == owner_recovered(*old(prefix_account), new_owner, now)
            &&& *final(treasury_lamports) == *old(treasury_lamports) + fee_registry.current_fee
            &&& *final(signer_lamports) == *old(signer_lamports) - fee_registry.current_fee
        },
        r is Err ==> {
            &&& *final(prefix_account) == *old(prefix_account)
            &&& *final(treasury_lamports) == *old(treasury_lamports)
            &&& *final(signer_lamports) == *old(signer_lamports)
        },
{
    if *admin != fee_registry.admin {
        return Err(ErrorCode::UnauthorizedAdmin);
    }
    if fee_registry.pause {
        return Err(ErrorCode::FeeOperationsPaused);
    }
    if *signer != new_owner {
        return Err(ErrorCode::UnauthorizedOwnerAction);
    }
    let fee = fee_registry.current_fee;
    if fee == 0 || *signer_lamports < fee {
        return Err(ErrorCode::InsufficientFee);
    }
    *signer_lamports = *signer_lamports - fee;
    *treasury_lamports = *treasury_lamports + fee;
    prefix_account.owner = new_owner;
    prefix_account.updated_at = now;
    Ok(())
}

} // verus!
