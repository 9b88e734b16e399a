use prefix_registry::admin::{
    add_verifier_handler, initialize_handler, remove_verifier_handler, set_pause_handler, update_fee_handler,
    withdraw_treasury_handler,
};
use prefix_registry::errors::ErrorCode;
use prefix_registry::lifecycle::{
    approve_prefix_handler, submit_prefix_with_fee_handler, update_prefix_authority_handler,
};
use prefix_registry::registry::Registry;
use prefix_registry::state::{FeeRegistry, Instruction, PrefixAccount, PrefixStatus, Pubkey, VerifiersList};

const NOW: i64 = 1_700_000_000;
const EXPIRY: i64 = 1_209_600;

fn key(n: u8) -> Pubkey {
    Pubkey { bytes: [n; 32] }
}

fn ed25519_id() -> Pubkey {
    Pubkey { bytes: anchor_lang::solana_program::ed25519_program::ID.to_bytes() }
}

fn hash(n: u8) -> [u8; 32] {
    [n; 32]
}

/// An Ed25519 verification instruction laid out as the standard helper does:
/// a header of offsets, then the public key, the signature and the message.
fn attestation(signer: &Pubkey, digest: &[u8; 32]) -> Instruction {
    let mut data = vec![1u8, 0u8];
    data.extend_from_slice(&[0u8; 14]);
    data.extend_from_slice(&signer.bytes);
    data.extend_from_slice(&[9u8; 64]);
    data.extend_from_slice(digest);
    Instruction { program_id: ed25519_id(), data }
}

const ADMIN: u8 = 1;
const OWNER: u8 = 2;
const VERIFIER: u8 = 3;

fn registry_with_fee(fee: u64) -> Registry {
    let mut reg = Registry::initialize(key(ADMIN), fee, NOW);
    reg.add_verifier(key(ADMIN), key(VERIFIER), NOW).unwrap();
    reg
}

fn submit(reg: &mut Registry, owner: u8, lamports: &mut u64, prefix: &str, h: u8) -> Result<(), ErrorCode> {
    let batch = vec![attestation(&key(owner), &hash(h))];
    reg.submit_prefix_with_fee(
        key(owner),
        lamports,
        prefix.to_string(),
        "https://example.com/meta.json".to_string(),
        hash(h),
        vec![key(7)],
        &batch,
        NOW,
    )
}

fn record<'a>(reg: &'a Registry, prefix: &str) -> Option<&'a PrefixAccount> {
    reg.get(&prefix.to_string())
}

// ---------------------------------------------------------------------------
// Whole scenarios
// ---------------------------------------------------------------------------

#[test]
fn fee_approval_refusal_and_reactivation_scenario() {
    let mut reg = registry_with_fee(5);
    reg.update_fee(key(ADMIN), 1_000_000, NOW).unwrap();
    let mut owner_lamports: u64 = 10_000_000;
    submit(&mut reg, OWNER, &mut owner_lamports, "ABC", 0xAA).unwrap();
    assert_eq!(reg.treasury, 1_000_000);
    assert_eq!(owner_lamports, 9_000_000);

    let r = hash(0x55);
    reg.approve_prefix(key(VERIFIER), &"ABC".to_string(), r, NOW + 10).unwrap();
    assert_eq!(record(&reg, "ABC").unwrap().status, PrefixStatus::Active);
    assert_eq!(reg.treasury, 1_000_000);

    let mut other_lamports: u64 = 5_000_000;
    submit(&mut reg, 4, &mut other_lamports, "XYZ", 0xBB).unwrap();
    let treasury_before = reg.treasury;
    assert_eq!(
        reg.approve_prefix(key(9), &"XYZ".to_string(), hash(1), NOW + 10),
        Err(ErrorCode::UnauthorizedVerifier)
    );
    let xyz = record(&reg, "XYZ").unwrap();
    assert_eq!(xyz.status, PrefixStatus::Pending);
    assert_eq!(xyz.ref_hash, [0u8; 32]);
    assert_eq!(reg.treasury, treasury_before);

    assert_eq!(
        reg.refund_prefix_fee(key(OWNER), &mut owner_lamports, &"ABC".to_string(), NOW + 20),
        Err(ErrorCode::RefundNotAllowed)
    );

    reg.deactivate_prefix(key(ADMIN), &"ABC".to_string(), NOW + 30).unwrap();
    assert_eq!(record(&reg, "ABC").unwrap().status, PrefixStatus::Inactive);
    reg.reactivate_prefix(key(ADMIN), &"ABC".to_string(), NOW + 40).unwrap();
    let abc = record(&reg, "ABC").unwrap();
    assert_eq!(abc.status, PrefixStatus::Active);
    assert_eq!(abc.ref_hash, r);
}

#[test]
fn pause_scenario() {
    let mut reg = registry_with_fee(100);
    let mut owner_lamports: u64 = 1_000;
    submit(&mut reg, OWNER, &mut owner_lamports, "PEND", 1).unwrap();
    submit(&mut reg, OWNER, &mut owner_lamports, "REJ", 2).unwrap();
    reg.reject_prefix(key(VERIFIER), &"REJ".to_string(), NOW).unwrap();

    reg.set_pause(key(ADMIN), true, NOW).unwrap();
    assert!(reg.fee_registry.pause);

    assert_eq!(submit(&mut reg, OWNER, &mut owner_lamports, "NEW", 3), Err(ErrorCode::FeeOperationsPaused));
    assert_eq!(
        reg.approve_prefix(key(VERIFIER), &"PEND".to_string(), hash(4), NOW),
        Err(ErrorCode::FeeOperationsPaused)
    );
    assert_eq!(reg.reject_prefix(key(VERIFIER), &"PEND".to_string(), NOW), Err(ErrorCode::FeeOperationsPaused));
    assert_eq!(
        reg.refund_prefix_fee(key(OWNER), &mut owner_lamports, &"REJ".to_string(), NOW),
        Err(ErrorCode::FeeOperationsPaused)
    );
    let mut to_lamports: u64 = 0;
    assert_eq!(
        reg.withdraw_treasury(key(ADMIN), &mut to_lamports, 10, key(8)),
        Err(ErrorCode::FeeOperationsPaused)
    );
    let mut signer_lamports: u64 = 1_000;
    assert_eq!(
        reg.recover_prefix_owner_with_fee(key(ADMIN), key(5), &mut signer_lamports, &"PEND".to_string(), key(5), NOW),
        Err(ErrorCode::FeeOperationsPaused)
    );
    assert_eq!(reg.treasury, 200);
    assert_eq!(owner_lamports, 800);

    reg.update_fee(key(ADMIN), 7, NOW + 1).unwrap();
    assert_eq!(reg.fee_registry.current_fee, 7);
    reg.set_pause(key(ADMIN), false, NOW + 2).unwrap();
    assert!(!reg.fee_registry.pause);
    reg.approve_prefix(key(VERIFIER), &"PEND".to_string(), hash(4), NOW + 3).unwrap();
}

// ---------------------------------------------------------------------------
// Submission
// ---------------------------------------------------------------------------

#[test]
fn submission_creates_one_pending_record() {
    let mut reg = registry_with_fee(250);
    let mut lamports: u64 = 1_000;
    submit(&mut reg, OWNER, &mut lamports, "ACME42", 0x11).unwrap();
    assert_eq!(reg.prefixes.len(), 1);
    assert_eq!(reg.prefixes.iter().filter(|p| p.prefix == "ACME42").count(), 1);
    let rec = record(&reg, "ACME42").unwrap();
    assert_eq!(rec.status, PrefixStatus::Pending);
    assert_eq!(rec.expiry_at, NOW + 1_209_600);
    assert_eq!(rec.created_at, NOW);
    assert_eq!(rec.fee_paid, 250);
    assert_eq!(rec.owner, key(OWNER));
    assert_eq!(rec.metadata_hash, hash(0x11));
    assert_eq!(rec.ref_hash, [0u8; 32]);
    assert_eq!(rec.authority_keys, vec![key(7)]);
    assert_eq!(reg.treasury, 250);
    assert_eq!(lamports, 750);
}

#[test]
fn submission_of_existing_prefix_is_refused() {
    let mut reg = registry_with_fee(10);
    let mut lamports: u64 = 100;
    submit(&mut reg, OWNER, &mut lamports, "DUP", 1).unwrap();
    assert_eq!(submit(&mut reg, 4, &mut lamports, "DUP", 1), Err(ErrorCode::PrefixAlreadyExists));
    assert_eq!(reg.prefixes.len(), 1);
    assert_eq!(reg.treasury, 10);
}

#[test]
fn submission_rejects_unnormalized_prefix() {
    let mut reg = registry_with_fee(10);
    let mut lamports: u64 = 100;
    assert_eq!(submit(&mut reg, OWNER, &mut lamports, "abc", 1), Err(ErrorCode::InvalidPrefixFormat));
    assert_eq!(submit(&mut reg, OWNER, &mut lamports, "AB", 1), Err(ErrorCode::InvalidPrefixFormat));
    assert_eq!(submit(&mut reg, OWNER, &mut lamports, "A_B", 1), Err(ErrorCode::InvalidPrefixFormat));
    assert_eq!(reg.prefixes.len(), 0);
    assert_eq!(lamports, 100);
}

#[test]
fn submission_requires_fee_and_funds() {
    let mut reg = registry_with_fee(0);
    let mut lamports: u64 = 100;
    assert_eq!(submit(&mut reg, OWNER, &mut lamports, "FREE", 1), Err(ErrorCode::InsufficientFee));
    reg.update_fee(key(ADMIN), 101, NOW).unwrap();
    assert_eq!(submit(&mut reg, OWNER, &mut lamports, "POOR", 1), Err(ErrorCode::InsufficientFee));
    reg.update_fee(key(ADMIN), 100, NOW).unwrap();
    submit(&mut reg, OWNER, &mut lamports, "EXACT", 1).unwrap();
    assert_eq!(lamports, 0);
}

#[test]
fn submission_requires_attestation_by_owner_over_hash() {
    let mut reg = registry_with_fee(10);
    let mut lamports: u64 = 100;
    let uri = "ipfs://bafy".to_string();
    let wrong_signer = vec![attestation(&key(9), &hash(1))];
    let r = reg.submit_prefix_with_fee(key(OWNER), &mut lamports, "SIG".to_string(), uri.clone(), hash(1), vec![], &wrong_signer, NOW);
    assert_eq!(r, Err(ErrorCode::InvalidEd25519Signature));
    let wrong_digest = vec![attestation(&key(OWNER), &hash(2))];
    let r = reg.submit_prefix_with_fee(key(OWNER), &mut lamports, "SIG".to_string(), uri.clone(), hash(1), vec![], &wrong_digest, NOW);
    assert_eq!(r, Err(ErrorCode::InvalidEd25519Signature));
    let mut other_program = attestation(&key(OWNER), &hash(1));
    other_program.program_id = key(0);
    let r = reg.submit_prefix_with_fee(key(OWNER), &mut lamports, "SIG".to_string(), uri.clone(), hash(1), vec![], &vec![other_program], NOW);
    assert_eq!(r, Err(ErrorCode::InvalidEd25519Signature));
    assert_eq!(reg.prefixes.len(), 0);
    let good = vec![attestation(&key(9), &hash(3)), attestation(&key(OWNER), &hash(1))];
    reg.submit_prefix_with_fee(key(OWNER), &mut lamports, "SIG".to_string(), uri, hash(1), vec![], &good, NOW).unwrap();
    assert_eq!(reg.prefixes.len(), 1);
}

#[test]
fn submission_validates_metadata_and_keys() {
    let mut reg = registry_with_fee(10);
    let mut lamports: u64 = 100;
    let batch = vec![attestation(&key(OWNER), &hash(1))];
    let r = reg.submit_prefix_with_fee(key(OWNER), &mut lamports, "META".to_string(), "http://x".to_string(), hash(1), vec![], &batch, NOW);
    assert_eq!(r, Err(ErrorCode::InvalidMetadataUri));
    let long = format!("https://{}", "a".repeat(248));
    assert_eq!(long.len(), 256);
    let r = reg.submit_prefix_with_fee(key(OWNER), &mut lamports, "META".to_string(), long, hash(1), vec![], &batch, NOW);
    assert_eq!(r, Err(ErrorCode::InvalidMetadataUri));
    let keys: Vec<Pubkey> = (0..11u8).map(key).collect();
    let r = reg.submit_prefix_with_fee(key(OWNER), &mut lamports, "META".to_string(), "https://x".to_string(), hash(1), keys, &batch, NOW);
    assert_eq!(r, Err(ErrorCode::AuthorityKeysTooMany));
    let keys: Vec<Pubkey> = (0..10u8).map(key).collect();
    let edge = format!("https://{}", "a".repeat(247));
    reg.submit_prefix_with_fee(key(OWNER), &mut lamports, "META".to_string(), edge, hash(1), keys, &batch, NOW).unwrap();
}

#[test]
fn submit_handler_returns_new_record() {
    let (fee_registry, _verifiers) = initialize_handler(key(ADMIN), 40, 254, 253, NOW);
    let mut owner_lamports: u64 = 100;
    let mut treasury: u64 = 7;
    let batch = vec![attestation(&key(OWNER), &hash(3))];
    let rec = submit_prefix_with_fee_handler(
        &fee_registry,
        &key(OWNER),
        &mut owner_lamports,
        &mut treasury,
        "ZED9".to_string(),
        "ipfs://cid".to_string(),
        hash(3),
        vec![],
        &batch,
        200,
        NOW,
    )
    .unwrap();
    assert_eq!(rec.prefix, "ZED9");
    assert_eq!(rec.bump, 200);
    assert_eq!(rec.expiry_at, NOW + EXPIRY);
    assert_eq!(treasury, 47);
    assert_eq!(owner_lamports, 60);
}

// ---------------------------------------------------------------------------
// Approval and rejection
// ---------------------------------------------------------------------------

#[test]
fn approve_twice_succeeds_once() {
    let mut reg = registry_with_fee(10);
    let mut lamports: u64 = 100;
    submit(&mut reg, OWNER, &mut lamports, "TWICE", 1).unwrap();
    reg.approve_prefix(key(VERIFIER), &"TWICE".to_string(), hash(5), NOW).unwrap();
    assert_eq!(
        reg.approve_prefix(key(VERIFIER), &"TWICE".to_string(), hash(6), NOW),
        Err(ErrorCode::InvalidPrefixStatus)
    );
    assert_eq!(record(&reg, "TWICE").unwrap().ref_hash, hash(5));
}

#[test]
fn decisions_only_from_pending() {
    let mut reg = registry_with_fee(10);
    let mut lamports: u64 = 1_000;
    submit(&mut reg, OWNER, &mut lamports, "ACT", 1).unwrap();
    submit(&mut reg, OWNER, &mut lamports, "INA", 1).unwrap();
    submit(&mut reg, OWNER, &mut lamports, "REJ", 1).unwrap();
    reg.approve_prefix(key(VERIFIER), &"ACT".to_string(), hash(2), NOW).unwrap();
    reg.approve_prefix(key(VERIFIER), &"INA".to_string(), hash(2), NOW).unwrap();
    reg.deactivate_prefix(key(ADMIN), &"INA".to_string(), NOW).unwrap();
    reg.reject_prefix(key(VERIFIER), &"REJ".to_string(), NOW).unwrap();
    for p in ["ACT", "INA", "REJ"] {
        let before = record(&reg, p).unwrap().status;
        assert_eq!(
            reg.approve_prefix(key(VERIFIER), &p.to_string(), hash(3), NOW),
            Err(ErrorCode::InvalidPrefixStatus)
        );
        assert_eq!(reg.reject_prefix(key(VERIFIER), &p.to_string(), NOW), Err(ErrorCode::InvalidPrefixStatus));
        assert_eq!(record(&reg, p).unwrap().status, before);
    }
    assert_eq!(
        reg.approve_prefix(key(VERIFIER), &"NONE".to_string(), hash(3), NOW),
        Err(ErrorCode::InvalidPrefixStatus)
    );
}

#[test]
fn approval_after_expiry_fails() {
    let mut reg = registry_with_fee(10);
    let mut lamports: u64 = 100;
    submit(&mut reg, OWNER, &mut lamports, "LATE", 1).unwrap();
    assert_eq!(
        reg.approve_prefix(key(VERIFIER), &"LATE".to_string(), hash(2), NOW + EXPIRY + 1),
        Err(ErrorCode::PrefixExpired)
    );
    reg.approve_prefix(key(VERIFIER), &"LATE".to_string(), hash(2), NOW + EXPIRY).unwrap();
}

#[test]
fn approve_handler_by_unlisted_verifier_fails() {
    let (fee_registry, verifiers) = initialize_handler(key(ADMIN), 40, 0, 0, NOW);
    let mut acct = PrefixAccount {
        owner: key(OWNER),
        prefix: "HND".to_string(),
        metadata_uri: "https://h".to_string(),
        metadata_hash: hash(1),
        ref_hash: [0u8; 32],
        status: PrefixStatus::Pending,
        authority_keys: vec![],
        fee_paid: 40,
        expiry_at: NOW + EXPIRY,
        created_at: NOW,
        updated_at: NOW,
        bump: 0,
    };
    assert_eq!(
        approve_prefix_handler(&fee_registry, &verifiers, &key(VERIFIER), &mut acct, hash(2), NOW),
        Err(ErrorCode::UnauthorizedVerifier)
    );
    assert_eq!(acct.status, PrefixStatus::Pending);
}

// ---------------------------------------------------------------------------
// Refund
// ---------------------------------------------------------------------------

#[test]
fn refund_of_rejected_record_returns_fee_and_frees_prefix() {
    let mut reg = registry_with_fee(30);
    let mut lamports: u64 = 100;
    submit(&mut reg, OWNER, &mut lamports, "GONE", 1).unwrap();
    reg.reject_prefix(key(VERIFIER), &"GONE".to_string(), NOW).unwrap();
    assert_eq!(reg.treasury, 30);
    assert_eq!(lamports, 70);
    reg.refund_prefix_fee(key(OWNER), &mut lamports, &"GONE".to_string(), NOW).unwrap();
    assert_eq!(reg.treasury, 0);
    assert_eq!(lamports, 100);
    assert!(record(&reg, "GONE").is_none());
    submit(&mut reg, 4, &mut lamports, "GONE", 2).unwrap();
    let fresh = record(&reg, "GONE").unwrap();
    assert_eq!(fresh.status, PrefixStatus::Pending);
    assert_eq!(fresh.owner, key(4));
}

#[test]
fn refund_of_expired_pending_record() {
    let mut reg = registry_with_fee(30);
    let mut lamports: u64 = 100;
    submit(&mut reg, OWNER, &mut lamports, "OLD", 1).unwrap();
    assert_eq!(
        reg.refund_prefix_fee(key(OWNER), &mut lamports, &"OLD".to_string(), NOW + EXPIRY),
        Err(ErrorCode::RefundNotAllowed)
    );
    reg.refund_prefix_fee(key(OWNER), &mut lamports, &"OLD".to_string(), NOW + EXPIRY + 1).unwrap();
    assert_eq!(lamports, 100);
    assert_eq!(reg.treasury, 0);
    assert_eq!(reg.prefixes.len(), 0);
}

#[test]
fn refund_refused_for_active_and_inactive() {
    let mut reg = registry_with_fee(30);
    let mut lamports: u64 = 100;
    submit(&mut reg, OWNER, &mut lamports, "LIVE", 1).unwrap();
    reg.approve_prefix(key(VERIFIER), &"LIVE".to_string(), hash(2), NOW).unwrap();
    let late = NOW + 10 * EXPIRY;
    assert_eq!(
        reg.refund_prefix_fee(key(OWNER), &mut lamports, &"LIVE".to_string(), late),
        Err(ErrorCode::RefundNotAllowed)
    );
    reg.deactivate_prefix(key(ADMIN), &"LIVE".to_string(), NOW).unwrap();
    assert_eq!(
        reg.refund_prefix_fee(key(OWNER), &mut lamports, &"LIVE".to_string(), late),
        Err(ErrorCode::RefundNotAllowed)
    );
    assert_eq!(reg.treasury, 30);
    assert_eq!(lamports, 70);
}

#[test]
fn refund_only_to_owner_and_within_treasury() {
    let mut reg = registry_with_fee(30);
    let mut lamports: u64 = 100;
    submit(&mut reg, OWNER, &mut lamports, "MINE", 1).unwrap();
    reg.reject_prefix(key(VERIFIER), &"MINE".to_string(), NOW).unwrap();
    let mut thief: u64 = 0;
    assert_eq!(
        reg.refund_prefix_fee(key(9), &mut thief, &"MINE".to_string(), NOW),
        Err(ErrorCode::UnauthorizedOwnerAction)
    );
    let mut to: u64 = 0;
    reg.withdraw_treasury(key(ADMIN), &mut to, 20, key(8)).unwrap();
    assert_eq!(
        reg.refund_prefix_fee(key(OWNER), &mut lamports, &"MINE".to_string(), NOW),
        Err(ErrorCode::InsufficientTreasuryBalance)
    );
    assert_eq!(thief, 0);
    assert_eq!(lamports, 70);
}

// ---------------------------------------------------------------------------
// Owner updates and recovery
// ---------------------------------------------------------------------------

fn update_meta(reg: &mut Registry, prefix: &str, h: u8) -> Result<(), ErrorCode> {
    let batch = vec![attestation(&key(OWNER), &hash(h))];
    reg.update_prefix_metadata(key(OWNER), &prefix.to_string(), "ipfs://new".to_string(), hash(h), &batch, NOW + 5)
}

#[test]
fn metadata_update_resets_active_to_pending() {
    let mut reg = registry_with_fee(10);
    let mut lamports: u64 = 1_000;
    for p in ["ACT", "PEN", "INA", "REJ"] {
        submit(&mut reg, OWNER, &mut lamports, p, 1).unwrap();
    }
    reg.approve_prefix(key(VERIFIER), &"ACT".to_string(), hash(2), NOW).unwrap();
    reg.approve_prefix(key(VERIFIER), &"INA".to_string(), hash(2), NOW).unwrap();
    reg.deactivate_prefix(key(ADMIN), &"INA".to_string(), NOW).unwrap();
    reg.reject_prefix(key(VERIFIER), &"REJ".to_string(), NOW).unwrap();

    update_meta(&mut reg, "ACT", 9).unwrap();
    let act = record(&reg, "ACT").unwrap();
    assert_eq!(act.status, PrefixStatus::Pending);
    assert_eq!(act.ref_hash, [0u8; 32]);
    assert_eq!(act.metadata_uri, "ipfs://new");
    assert_eq!(act.metadata_hash, hash(9));

    update_meta(&mut reg, "PEN", 9).unwrap();
    assert_eq!(record(&reg, "PEN").unwrap().status, PrefixStatus::Pending);
    update_meta(&mut reg, "INA", 9).unwrap();
    let ina = record(&reg, "INA").unwrap();
    assert_eq!(ina.status, PrefixStatus::Inactive);
    assert_eq!(ina.ref_hash, hash(2));
    assert_eq!(update_meta(&mut reg, "REJ", 9), Err(ErrorCode::InvalidPrefixStatus));
    assert_eq!(record(&reg, "REJ").unwrap().metadata_hash, hash(1));
}

#[test]
fn metadata_update_only_by_owner_with_attestation() {
    let mut reg = registry_with_fee(10);
    let mut lamports: u64 = 100;
    submit(&mut reg, OWNER, &mut lamports, "OWN", 1).unwrap();
    let batch = vec![attestation(&key(9), &hash(4))];
    assert_eq!(
        reg.update_prefix_metadata(key(9), &"OWN".to_string(), "https://x".to_string(), hash(4), &batch, NOW),
        Err(ErrorCode::UnauthorizedOwnerAction)
    );
    assert_eq!(
        reg.update_prefix_metadata(key(OWNER), &"OWN".to_string(), "https://x".to_string(), hash(4), &batch, NOW),
        Err(ErrorCode::InvalidEd25519Signature)
    );
    assert_eq!(
        reg.update_prefix_metadata(key(OWNER), &"OWN".to_string(), "ftp://x".to_string(), hash(4), &batch, NOW),
        Err(ErrorCode::InvalidMetadataUri)
    );
}

#[test]
fn authority_update_keeps_status() {
    let mut reg = registry_with_fee(10);
    let mut lamports: u64 = 100;
    submit(&mut reg, OWNER, &mut lamports, "AUTH", 1).unwrap();
    reg.approve_prefix(key(VERIFIER), &"AUTH".to_string(), hash(2), NOW).unwrap();
    reg.update_prefix_authority(key(OWNER), &"AUTH".to_string(), vec![key(20), key(21)], NOW + 1).unwrap();
    let rec = record(&reg, "AUTH").unwrap();
    assert_eq!(rec.status, PrefixStatus::Active);
    assert_eq!(rec.authority_keys, vec![key(20), key(21)]);
    assert_eq!(rec.updated_at, NOW + 1);
    let too_many: Vec<Pubkey> = (0..11u8).map(key).collect();
    assert_eq!(
        reg.update_prefix_authority(key(OWNER), &"AUTH".to_string(), too_many, NOW),
        Err(ErrorCode::AuthorityKeysTooMany)
    );
    assert_eq!(
        reg.update_prefix_authority(key(9), &"AUTH".to_string(), vec![], NOW),
        Err(ErrorCode::UnauthorizedOwnerAction)
    );
}

#[test]
fn authority_update_refused_on_rejected_record() {
    let mut acct = PrefixAccount {
        owner: key(OWNER),
        prefix: "RJ1".to_string(),
        metadata_uri: "https://h".to_string(),
        metadata_hash: hash(1),
        ref_hash: [0u8; 32],
        status: PrefixStatus::Rejected,
        authority_keys: vec![],
        fee_paid: 1,
        expiry_at: NOW,
        created_at: NOW,
        updated_at: NOW,
        bump: 0,
    };
    assert_eq!(
        update_prefix_authority_handler(&key(OWNER), &mut acct, vec![key(1)], NOW),
        Err(ErrorCode::InvalidPrefixStatus)
    );
    assert!(acct.authority_keys.is_empty());
}

#[test]
fn owner_recovery_charges_new_owner() {
    let mut reg = registry_with_fee(25);
    let mut lamports: u64 = 100;
    submit(&mut reg, OWNER, &mut lamports, "MOVE", 1).unwrap();
    reg.approve_prefix(key(VERIFIER), &"MOVE".to_string(), hash(2), NOW).unwrap();
    let mut new_lamports: u64 = 30;
    assert_eq!(
        reg.recover_prefix_owner_with_fee(key(9), key(5), &mut new_lamports, &"MOVE".to_string(), key(5), NOW),
        Err(ErrorCode::UnauthorizedAdmin)
    );
    assert_eq!(
        reg.recover_prefix_owner_with_fee(key(ADMIN), key(6), &mut new_lamports, &"MOVE".to_string(), key(5), NOW),
        Err(ErrorCode::UnauthorizedOwnerAction)
    );
    let mut poor: u64 = 24;
    assert_eq!(
        reg.recover_prefix_owner_with_fee(key(ADMIN), key(5), &mut poor, &"MOVE".to_string(), key(5), NOW),
        Err(ErrorCode::InsufficientFee)
    );
    reg.recover_prefix_owner_with_fee(key(ADMIN), key(5), &mut new_lamports, &"MOVE".to_string(), key(5), NOW + 1)
        .unwrap();
    let rec = record(&reg, "MOVE").unwrap();
    assert_eq!(rec.owner, key(5));
    assert_eq!(rec.status, PrefixStatus::Active);
    assert_eq!(rec.ref_hash, hash(2));
    assert_eq!(new_lamports, 5);
    assert_eq!(reg.treasury, 50);
}

#[test]
fn deactivate_and_reactivate_need_admin_and_status() {
    let mut reg = registry_with_fee(10);
    let mut lamports: u64 = 100;
    submit(&mut reg, OWNER, &mut lamports, "ADM", 1).unwrap();
    assert_eq!(reg.deactivate_prefix(key(ADMIN), &"ADM".to_string(), NOW), Err(ErrorCode::InvalidPrefixStatus));
    reg.approve_prefix(key(VERIFIER), &"ADM".to_string(), hash(2), NOW).unwrap();
    assert_eq!(reg.deactivate_prefix(key(9), &"ADM".to_string(), NOW), Err(ErrorCode::UnauthorizedAdmin));
    assert_eq!(reg.reactivate_prefix(key(ADMIN), &"ADM".to_string(), NOW), Err(ErrorCode::InvalidPrefixStatus));
    reg.deactivate_prefix(key(ADMIN), &"ADM".to_string(), NOW).unwrap();
    assert_eq!(reg.reactivate_prefix(key(9), &"ADM".to_string(), NOW), Err(ErrorCode::UnauthorizedAdmin));
}

// ---------------------------------------------------------------------------
// Admin control plane
// ---------------------------------------------------------------------------

#[test]
fn initialize_sets_up_running_registry() {
    let (fee_registry, verifiers) = initialize_handler(key(ADMIN), 77, 250, 251, NOW);
    assert_eq!(fee_registry.admin, key(ADMIN));
    assert_eq!(fee_registry.current_fee, 77);
    assert!(!fee_registry.pause);
    assert_eq!(fee_registry.bump, 250);
    assert_eq!(fee_registry.created_at, NOW);
    assert_eq!(verifiers.admin, key(ADMIN));
    assert!(verifiers.verifiers.is_empty());
    assert_eq!(verifiers.bump, 251);
    let reg = Registry::initialize(key(ADMIN), 77, NOW);
    assert_eq!(reg.treasury, 0);
    assert!(reg.prefixes.is_empty());
}

#[test]
fn fee_and_pause_need_admin() {
    let mut fr: FeeRegistry = initialize_handler(key(ADMIN), 1, 0, 0, NOW).0;
    assert_eq!(update_fee_handler(&key(9), &mut fr, 5, NOW), Err(ErrorCode::UnauthorizedAdmin));
    assert_eq!(set_pause_handler(&key(9), &mut fr, true, NOW), Err(ErrorCode::UnauthorizedAdmin));
    assert_eq!(fr.current_fee, 1);
    update_fee_handler(&key(ADMIN), &mut fr, 5, NOW + 3).unwrap();
    assert_eq!(fr.current_fee, 5);
    assert_eq!(fr.updated_at, NOW + 3);
}

#[test]
fn verifier_directory_add_and_remove() {
    let (fr, mut vs): (FeeRegistry, VerifiersList) = initialize_handler(key(ADMIN), 1, 0, 0, NOW);
    assert_eq!(add_verifier_handler(&key(9), &fr, &mut vs, key(3), NOW), Err(ErrorCode::UnauthorizedAdmin));
    add_verifier_handler(&key(ADMIN), &fr, &mut vs, key(3), NOW).unwrap();
    add_verifier_handler(&key(ADMIN), &fr, &mut vs, key(4), NOW).unwrap();
    add_verifier_handler(&key(ADMIN), &fr, &mut vs, key(5), NOW).unwrap();
    assert_eq!(add_verifier_handler(&key(ADMIN), &fr, &mut vs, key(4), NOW), Err(ErrorCode::InvalidPrefixStatus));
    assert!(vs.contains(&key(4)));
    remove_verifier_handler(&key(ADMIN), &fr, &mut vs, key(4), NOW + 1).unwrap();
    assert_eq!(vs.verifiers, vec![key(3), key(5)]);
    assert_eq!(vs.updated_at, NOW + 1);
    assert_eq!(
        remove_verifier_handler(&key(ADMIN), &fr, &mut vs, key(4), NOW),
        Err(ErrorCode::UnauthorizedVerifier)
    );
    assert_eq!(remove_verifier_handler(&key(9), &fr, &mut vs, key(3), NOW), Err(ErrorCode::UnauthorizedAdmin));
}

#[test]
fn verifier_directory_is_bounded() {
    let mut reg = Registry::initialize(key(ADMIN), 1, NOW);
    for i in 0..256u32 {
        let mut bytes = [0u8; 32];
        bytes[0] = (i % 256) as u8;
        bytes[1] = 1;
        reg.add_verifier(key(ADMIN), Pubkey { bytes }, NOW).unwrap();
    }
    assert_eq!(reg.verifiers.verifiers.len(), 256);
    assert_eq!(reg.add_verifier(key(ADMIN), key(200), NOW), Err(ErrorCode::InvalidPrefixStatus));
    assert_eq!(reg.verifiers.verifiers.len(), 256);
}

#[test]
fn withdraw_checks_admin_balance_and_destination() {
    let (fr, _vs) = initialize_handler(key(ADMIN), 1, 0, 0, NOW);
    let mut treasury: u64 = 50;
    let mut to_lamports: u64 = 5;
    assert_eq!(
        withdraw_treasury_handler(&key(9), &fr, &mut treasury, &key(8), &mut to_lamports, 10, key(8)),
        Err(ErrorCode::UnauthorizedAdmin)
    );
    assert_eq!(
        withdraw_treasury_handler(&key(ADMIN), &fr, &mut treasury, &key(8), &mut to_lamports, 51, key(8)),
        Err(ErrorCode::InsufficientTreasuryBalance)
    );
    assert_eq!(
        withdraw_treasury_handler(&key(ADMIN), &fr, &mut treasury, &key(7), &mut to_lamports, 10, key(8)),
        Err(ErrorCode::InvalidTreasuryAccount)
    );
    withdraw_treasury_handler(&key(ADMIN), &fr, &mut treasury, &key(8), &mut to_lamports, 50, key(8)).unwrap();
    assert_eq!(treasury, 0);
    assert_eq!(to_lamports, 55);
}

#[test]
fn treasury_covers_fees_of_live_records() {
    let mut reg = registry_with_fee(40);
    let mut lamports: u64 = 1_000;
    submit(&mut reg, OWNER, &mut lamports, "ONE", 1).unwrap();
    reg.update_fee(key(ADMIN), 15, NOW).unwrap();
    submit(&mut reg, OWNER, &mut lamports, "TWO", 1).unwrap();
    submit(&mut reg, OWNER, &mut lamports, "THREE", 1).unwrap();
    reg.reject_prefix(key(VERIFIER), &"TWO".to_string(), NOW).unwrap();
    reg.refund_prefix_fee(key(OWNER), &mut lamports, &"TWO".to_string(), NOW).unwrap();
    let mut signer: u64 = 100;
    reg.recover_prefix_owner_with_fee(key(ADMIN), key(6), &mut signer, &"ONE".to_string(), key(6), NOW).unwrap();
    let held: u64 = reg.prefixes.iter().map(|p| p.fee_paid).sum();
    assert_eq!(held, 55);
    assert_eq!(reg.treasury, 70);
    assert!(reg.treasury >= held);
    assert_eq!(lamports, 1_000 - 55);
}
