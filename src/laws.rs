//! Properties of the lifecycle that hold across operations, proved over the
//! outcomes and effects that the operations' contracts are stated in.
use vstd::prelude::*;

use crate::admin::{admin_check, withdraw_check};
use crate::errors::ErrorCode;
use crate::lifecycle::{
    approve_check, approved, metadata_updated, recover_check, refund_check, refundable, reject_check, rejected,
    submit_check, update_metadata_check,
};
use crate::state::{zero_hash, FeeRegistry, Instruction, PrefixAccount, PrefixStatus, Pubkey, VerifiersList};

verus! {

/// Approval and rejection are open only to a Pending record: for a running
/// registry and a listed verifier, both fail with `InvalidPrefixStatus` on a
/// record in any other status.
pub proof fn lemma_decisions_only_from_pending(
    fee_registry: FeeRegistry,
    verifiers: VerifiersList,
    verifier: Pubkey,
    acct: PrefixAccount,
    now: i64,
)
    requires
        !fee_registry.pause,
        verifiers.is_verifier(verifier),
        acct.status != PrefixStatus::Pending,
    ensures
        approve_check(fee_registry, verifiers, verifier, acct, now) == Err::<(), ErrorCode>(
            ErrorCode::InvalidPrefixStatus,
        ),
        reject_check(fee_registry, verifiers, verifier, acct) == Err::<(), ErrorCode>(
            ErrorCode::InvalidPrefixStatus,
        ),
{
}

/// Approval and rejection exclude each other: once a record has been approved
/// it can be neither approved nor rejected, and once rejected, neither either.
pub proof fn lemma_decisions_exclusive(
    fee_registry: FeeRegistry,
    verifiers: VerifiersList,
    verifier: Pubkey,
    other: Pubkey,
    acct: PrefixAccount,
    ref_hash: [u8; 32],
    now: i64,
    later: i64,
)
    requires
        !fee_registry.pause,
        verifiers.is_verifier(other),
    ensures
        approve_check(fee_registry, verifiers, verifier, acct, now) is Ok ==> {
            &&& approve_check(fee_registry, verifiers, other, approved(acct, ref_hash, now), later)
                == Err::<(), ErrorCode>(ErrorCode::InvalidPrefixStatus)
            &&& reject_check(fee_registry, verifiers, other, approved(acct, ref_hash, now)) == Err::<
                (),
                ErrorCode,
            >(ErrorCode::InvalidPrefixStatus)
        },
        reject_check(fee_registry, verifiers, verifier, acct) is Ok ==> {
            &&& approve_check(fee_registry, verifiers, other, rejected(acct, now), later) == Err::<
                (),
                ErrorCode,
            >(ErrorCode::InvalidPrefixStatus)
            &&& reject_check(fee_registry, verifiers, other, rejected(acct, now)) == Err::<(), ErrorCode>(
                ErrorCode::InvalidPrefixStatus,
            )
        },
{
}

/// Approving the same record twice succeeds once: the second attempt, by the
/// same verifier under the same configuration, fails with
/// `InvalidPrefixStatus`.
pub proof fn lemma_approve_twice_fails(
    fee_registry: FeeRegistry,
    verifiers: VerifiersList,
    verifier: Pubkey,
    acct: PrefixAccount,
    ref_hash: [u8; 32],
    now: i64,
    later: i64,
)
    requires
        approve_check(fee_registry, verifiers, verifier, acct, now) is Ok,
    ensures
        approve_check(fee_registry, verifiers, verifier, approved(acct, ref_hash, now), later) == Err::<
            (),
            ErrorCode,
        >(ErrorCode::InvalidPrefixStatus),
{
}

/// A refund goes through exactly on a Rejected record or a Pending one past
/// its expiry (for its owner, with a fee paid and the treasury able to pay it),
/// and fails with `RefundNotAllowed` on an Active, Inactive or unexpired
/// Pending record.
pub proof fn lemma_refund_only_when_allowed(
    fee_registry: FeeRegistry,
    owner: Pubkey,
    acct: PrefixAccount,
    treasury_lamports: u64,
    now: i64,
)
    requires
        !fee_registry.pause,
    ensures
        refundable(acct, now) && owner == acct.owner && acct.fee_paid > 0 && treasury_lamports
            >= acct.fee_paid ==> refund_check(fee_registry, owner, acct, treasury_lamports, now) is Ok,
        (acct.status == PrefixStatus::Active || acct.status == PrefixStatus::Inactive || (acct.status
            == PrefixStatus::Pending && now <= acct.expiry_at)) ==> refund_check(
            fee_registry,
            owner,
            acct,
            treasury_lamports,
            now,
        ) == Err::<(), ErrorCode>(ErrorCode::RefundNotAllowed),
{
}

/// A metadata update sends an Active record back to Pending with a zeroed
/// reference hash, leaves a Pending or Inactive record's status as it was,
/// and is refused on a Rejected record with `InvalidPrefixStatus`.
pub proof fn lemma_metadata_update_status(
    owner: Pubkey,
    old_acct: PrefixAccount,
    new_acct: PrefixAccount,
    new_uri: String,
    new_hash: [u8; 32],
    batch: Seq<Instruction>,
    now: i64,
)
    ensures
        metadata_updated(old_acct, new_acct, new_uri, new_hash, now) ==> {
            &&& old_acct.status == PrefixStatus::Active ==> new_acct.status == PrefixStatus::Pending
                && new_acct.ref_hash@ == zero_hash()
            &&& old_acct.status == PrefixStatus::Pending ==> new_acct.status == PrefixStatus::Pending
            &&& old_acct.status == PrefixStatus::Inactive ==> new_acct.status == PrefixStatus::Inactive
            &&& new_acct.metadata_uri == new_uri
            &&& new_acct.metadata_hash == new_hash
        },
        owner == old_acct.owner && old_acct.status == PrefixStatus::Rejected ==> update_metadata_check(
            owner,
            old_acct,
            new_uri@,
            new_hash@,
            batch,
        ) == Err::<(), ErrorCode>(ErrorCode::InvalidPrefixStatus),
{
}

/// A paused registry refuses every fee-bearing operation with
/// `FeeOperationsPaused` (withdrawal and recovery when asked by the admin),
/// while the admin can still set the fee and the pause flag.
pub proof fn lemma_pause_blocks_fee_operations(
    fee_registry: FeeRegistry,
    verifiers: VerifiersList,
    caller: Pubkey,
    caller_lamports: u64,
    acct: PrefixAccount,
    prefix: Seq<char>,
    metadata_uri: Seq<char>,
    metadata_hash: Seq<u8>,
    n_keys: nat,
    batch: Seq<Instruction>,
    treasury_lamports: u64,
    to_account: Pubkey,
    amount: u64,
    to: Pubkey,
    signer: Pubkey,
    new_owner: Pubkey,
    now: i64,
)
    requires
        fee_registry.pause,
    ensures
        submit_check(fee_registry, caller, caller_lamports, prefix, metadata_uri, metadata_hash, n_keys, batch)
            == Err::<(), ErrorCode>(ErrorCode::FeeOperationsPaused),
        approve_check(fee_registry, verifiers, caller, acct, now) == Err::<(), ErrorCode>(
            ErrorCode::FeeOperationsPaused,
        ),
        reject_check(fee_registry, verifiers, caller, acct) == Err::<(), ErrorCode>(
            ErrorCode::FeeOperationsPaused,
        ),
        refund_check(fee_registry, caller, acct, treasury_lamports, now) == Err::<(), ErrorCode>(
            ErrorCode::FeeOperationsPaused,
        ),
        fee_registry.admin == caller ==> withdraw_check(fee_registry, caller, treasury_lamports, to_account, amount, to)
            == Err::<(), ErrorCode>(ErrorCode::FeeOperationsPaused),
        fee_registry.admin == caller ==> recover_check(fee_registry, caller, signer, caller_lamports, new_owner)
            == Err::<(), ErrorCode>(ErrorCode::FeeOperationsPaused),
        fee_registry.admin == caller ==> admin_check(fee_registry, caller) is Ok,
{
}

} // verus!
