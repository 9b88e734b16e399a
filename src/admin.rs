//! Bootstrap and the admin's control plane: fee, pause, verifier directory
//! and treasury withdrawal.
use vstd::prelude::*;

use crate::constants::MAX_VERIFIERS;
use crate::errors::ErrorCode;
use crate::state::{FeeRegistry, Pubkey, VerifiersList};

verus! {

/// Creates the configuration and an empty verifier directory, both
/// administered by `admin_pubkey`, with the registry running.
pub fn initialize_handler(
    admin_pubkey: Pubkey,
    initial_fee: u64,
    fee_registry_bump: u8,
    verifiers_bump: u8,
    now: i64,
) -> (r: (FeeRegistry, VerifiersList))
    ensures
        r.0 == (FeeRegistry {
            admin: admin_pubkey,
            current_fee: initial_fee,
            pause: false,
            bump: fee_registry_bump,
            created_at: now,
            updated_at: now,
        }),
        r.1.admin == admin_pubkey,
        r.1.verifiers@ == Seq::<Pubkey>::empty(),
        r.1.bump == verifiers_bump,
        r.1.created_at == now,
        r.1.updated_at == now,
        r.1.wf(),
{
    let fee_registry = FeeRegistry {
        admin: admin_pubkey,
        current_fee: initial_fee,
        pause: false,
        bump: fee_registry_bump,
        created_at: now,
        updated_at: now,
    };
    let verifiers = VerifiersList {
        admin: admin_pubkey,
        verifiers: Vec::new(),
        bump: verifiers_bump,
        created_at: now,
        updated_at: now,
    };
    (fee_registry, verifiers)
}

/// The outcome of an operation that only the admin may perform.
pub open spec fn admin_check(fee_registry: FeeRegistry, admin: Pubkey) -> Result<(), ErrorCode> {
    if admin != fee_registry.admin {
        Err(ErrorCode::UnauthorizedAdmin)
    } else {
        Ok(())
    }
}

/// The admin sets the fee. This is allowed while the registry is paused.
pub fn update_fee_handler(
    admin: &Pubkey,
    fee_registry: &mut FeeRegistry,
    new_fee: u64,
    now: i64,
) -> (r: Result<(), ErrorCode>)
    ensures
        r == admin_check(*old(fee_registry), *admin),
        r is Ok ==> *final(fee_registry) == (FeeRegistry {
            current_fee: new_fee,
            updated_at: now,
            ..*old(fee_registry)
        }),
        r is Err ==> *final(fee_registry) == *old(fee_registry),
{
    if *admin != fee_registry.admin {
        return Err(ErrorCode::UnauthorizedAdmin);
    }
    fee_registry.current_fee = new_fee;
    fee_registry.updated_at = now;
    Ok(())
}

/// The admin pauses or resumes the fee-bearing operations.
pub fn set_pause_handler(
    admin: &Pubkey,
    fee_registry: &mut FeeRegistry,
    pause: bool,
    now: i64,
) -> (r: Result<(), ErrorCode>)
    ensures
        r == admin_check(*old(fee_registry), *admin),
        r is Ok ==> *final(fee_registry) == (FeeRegistry { pause: pause, updated_at: now, ..*old(fee_registry) }),
        r is Err ==> *final(fee_registry) == *old(fee_registry),
{
    if *admin != fee_registry.admin {
        return Err(ErrorCode::UnauthorizedAdmin);
    }
    fee_registry.pause = pause;
    fee_registry.updated_at = now;
    Ok(())
}

/// The outcome of adding a verifier. A principal already listed, or a full
/// directory, is refused with the directory's generic error.
pub open spec fn add_verifier_check(
    fee_registry: FeeRegistry,
    admin: Pubkey,
    verifiers: VerifiersList,
    verifier: Pubkey,
) -> Result<(), ErrorCode> {
    if admin != fee_registry.admin {
        Err(ErrorCode::UnauthorizedAdmin)
    } else if verifiers.is_verifier(verifier) {
        Err(ErrorCode::InvalidPrefixStatus)
    } else if verifiers.verifiers@.len() >= MAX_VERIFIERS {
        Err(ErrorCode::InvalidPrefixStatus)
    } else {
        Ok(())
    }
}

/// The admin adds a verifier at the end of the directory.
pub fn add_verifier_handler(
    admin: &Pubkey,
    fee_registry: &FeeRegistry,
    verifiers: &mut VerifiersList,
    verifier: Pubkey,
    now: i64,
) -> (r: Result<(), ErrorCode>)
    requires
        old(verifiers).wf(),
    ensures
        final(verifiers).wf(),
        r == add_verifier_check(*fee_registry, *admin, *old(verifiers), verifier),
        r is Ok ==> {
            &&& final(verifiers).verifiers@ == old(verifiers).verifiers@.push(verifier)
            &&& final(verifiers).updated_at == now
            &&& final(verifiers).admin == old(verifiers).admin
            &&& final(verifiers).bump == old(verifiers).bump
            &&& final(verifiers).created_at == old(verifiers).created_at
        },
        r is Err ==> *final(verifiers) == *old(verifiers),
{
    if *admin != fee_registry.admin {
        return Err(ErrorCode::UnauthorizedAdmin);
    }
    if verifiers.contains(&verifier) {
        return Err(ErrorCode::InvalidPrefixStatus);
    }
    if verifiers.verifiers.len() >= MAX_VERIFIERS {
        return Err(ErrorCode::InvalidPrefixStatus);
    }
    verifiers.verifiers.push(verifier);
    verifiers.updated_at = now;
    Ok(())
}

/// The outcome of removing a verifier. An absent principal is refused with
/// `UnauthorizedVerifier`.
pub open spec fn remove_verifier_check(
    fee_registry: FeeRegistry,
    admin: Pubkey,
    verifiers: VerifiersList,
    verifier: Pubkey,
) -> Result<(), ErrorCode> {
    if admin != fee_registry.admin {
        Err(ErrorCode::UnauthorizedAdmin)
    } else if !verifiers.is_verifier(verifier) {
        Err(ErrorCode::UnauthorizedVerifier)
    } else {
        Ok(())
    }
}

/// The admin removes a verifier; the others keep their order.
pub fn remove_verifier_handler(
    admin: &Pubkey,
    fee_registry: &FeeRegistry,
    verifiers: &mut VerifiersList,
    verifier: Pubkey,
    now: i64,
) -> (r: Result<(), ErrorCode>)
    requires
        old(verifiers).wf(),
    ensures
        final(verifiers).wf(),
        r == remove_verifier_check(*fee_registry, *admin, *old(verifiers), verifier),
        r is Ok ==> {
            &&& exists|i: int|
                0 <= i < old(verifiers).verifiers@.len() && old(verifiers).verifiers@[i] == verifier
                    && #[trigger] old(verifiers).verifiers@.remove(i) == final(verifiers).verifiers@
            &&& !final(verifiers).is_verifier(verifier)
            &&& final(verifiers).updated_at == now
            &&& final(verifiers).admin == old(verifiers).admin
            &&& final(verifiers).bump == old(verifiers).bump
            &&& final(verifiers).created_at == old(verifiers).created_at
        },
        r is Err ==> *final(verifiers) == *old(verifiers),
{
    if *admin != fee_registry.admin {
        return Err(ErrorCode::UnauthorizedAdmin);
    }
    let pos = match verifiers.position(&verifier) {
        Some(p) => p,
        None => {
            return Err(ErrorCode::UnauthorizedVerifier);
        },
    };
    let ghost before = verifiers.verifiers@;
    verifiers.verifiers.remove(pos);
    verifiers.updated_at = now;
    proof {
        assert(before.remove(pos as int) == verifiers.verifiers@);
        assert forall|a: int, b: int|
            0 <= a < verifiers.verifiers@.len() && 0 <= b < verifiers.verifiers@.len() && a != b
            implies verifiers.verifiers@[a] != verifiers.verifiers@[b] by {
            let a0 = if a < pos { a } else { a + 1 };
            let b0 = if b < pos { b } else { b + 1 };
            assert(verifiers.verifiers@[a] == before[a0]);
            assert(verifiers.verifiers@[b] == before[b0]);
        }
        if verifiers.verifiers@.contains(verifier) {
            let k = choose|k: int| 0 <= k < verifiers.verifiers@.len() && verifiers.verifiers@[k] == verifier;
            let k0 = if k < pos { k } else { k + 1 };
            assert(before[k0] == verifier);
        }
    }
    Ok(())
}

/// The outcome of a withdrawal of `amount` to `to`, where `to_account` is the
/// account that is to receive it.
pub open spec fn withdraw_check(
    fee_registry: FeeRegistry,
    admin: Pubkey,
    treasury_lamports: u64,
    to_account: Pubkey,
    amount: u64,
    to: Pubkey,
) -> Result<(), ErrorCode> {
    if admin != fee_registry.admin {
        Err(ErrorCode::UnauthorizedAdmin)
    } else if fee_registry.pause {
        Err(ErrorCode::FeeOperationsPaused)
    } else if treasury_lamports < amount {
        Err(ErrorCode::InsufficientTreasuryBalance)
    } else if to_account != to {
        Err(ErrorCode::InvalidTreasuryAccount)
    } else {
        Ok(())
    }
}

/// The admin moves `amount` out of the treasury to `to`.
pub fn withdraw_treasury_handler(
    admin: &Pubkey,
    fee_registry: &FeeRegistry,
    treasury_lamports: &mut u64,
    to_account: &Pubkey,
    to_lamports: &mut u64,
    amount: u64,
    to: Pubkey,
) -> (r: Result<(), ErrorCode>)
    requires
        *old(treasury_lamports) + *old(to_lamports) <= u64::MAX,
    ensures
        r == withdraw_check(*fee_registry, *admin, *old(treasury_lamports), *to_account, amount, to),
        r is Ok ==> *final(treasury_lamports) == *old(treasury_lamports) - amount && *final(to_lamports)
            == *old(to_lamports) + amount,
        r is Err ==> *final(treasury_lamports) == *old(treasury_lamports) && *final(to_lamports)
            == *old(to_lamports),
{
    if *admin != fee_registry.admin {
        return Err(ErrorCode::UnauthorizedAdmin);
    }
    if fee_registry.pause {
        return Err(ErrorCode::FeeOperationsPaused);
    }
    if *treasury_lamports < amount {
        return Err(ErrorCode::InsufficientTreasuryBalance);
    }
    if *to_account != to {
        return Err(ErrorCode::InvalidTreasuryAccount);
    }
    *treasury_lamports = *treasury_lamports - amount;
    *to_lamports = *to_lamports + amount;
    Ok(())
}

} // verus!
