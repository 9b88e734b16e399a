use prefix_registry::errors::ErrorCode;
use prefix_registry::state::{FeeRegistry, Instruction, PrefixAccount, Pubkey, VerifiersList};
use prefix_registry::utils::{
    assert_program_owned, contains_subslice, normalize_prefix, validate_metadata, verify_ed25519_signature,
};

fn ed25519_id() -> Pubkey {
    Pubkey { bytes: anchor_lang::solana_program::ed25519_program::ID.to_bytes() }
}

#[test]
fn normalize_prefix_uppercases() {
    assert_eq!(normalize_prefix("abc"), Ok("ABC".to_string()));
    assert_eq!(normalize_prefix("aBc123xyz"), Ok("ABC123XYZ".to_string()));
    assert_eq!(normalize_prefix("ABCDEFGHIJKL"), Ok("ABCDEFGHIJKL".to_string()));
}

#[test]
fn normalize_prefix_rejects_bad_input() {
    assert_eq!(normalize_prefix(""), Err(ErrorCode::InvalidPrefixFormat));
    assert_eq!(normalize_prefix("ab"), Err(ErrorCode::InvalidPrefixFormat));
    assert_eq!(normalize_prefix("ABCDEFGHIJKLM"), Err(ErrorCode::InvalidPrefixFormat));
    assert_eq!(normalize_prefix("ab-c"), Err(ErrorCode::InvalidPrefixFormat));
    assert_eq!(normalize_prefix("ab c"), Err(ErrorCode::InvalidPrefixFormat));
    assert_eq!(normalize_prefix("\u{e9}ab"), Err(ErrorCode::InvalidPrefixFormat));
}

#[test]
fn validate_metadata_cases() {
    let h = [0u8; 32];
    assert_eq!(validate_metadata("https://a.b/c", &h), Ok(()));
    assert_eq!(validate_metadata("ipfs://Qm", &h), Ok(()));
    assert_eq!(validate_metadata("https://a", &h[..31]), Err(ErrorCode::InvalidMetadataHashLength));
    assert_eq!(validate_metadata("http://a", &h), Err(ErrorCode::InvalidMetadataUri));
    assert_eq!(validate_metadata("HTTPS://a", &h), Err(ErrorCode::InvalidMetadataUri));
    assert_eq!(validate_metadata("", &h), Err(ErrorCode::InvalidMetadataUri));
    let max = format!("ipfs://{}", "q".repeat(248));
    assert_eq!(max.len(), 255);
    assert_eq!(validate_metadata(&max, &h), Ok(()));
    let over = format!("ipfs://{}", "q".repeat(249));
    assert_eq!(validate_metadata(&over, &h), Err(ErrorCode::InvalidMetadataUri));
    let multibyte = format!("ipfs://{}", "\u{e9}".repeat(124));
    assert_eq!(multibyte.len(), 255);
    assert_eq!(validate_metadata(&multibyte, &h), Ok(()));
    let multibyte_over = format!("ipfs://{}", "\u{e9}".repeat(125));
    assert_eq!(validate_metadata(&multibyte_over, &h), Err(ErrorCode::InvalidMetadataUri));
}

#[test]
fn program_ownership() {
    let a = Pubkey { bytes: [1; 32] };
    let mut b = a;
    assert_eq!(assert_program_owned(&a, &b), Ok(()));
    b.bytes[31] = 2;
    assert_eq!(assert_program_owned(&a, &b), Err(ErrorCode::InvalidTreasuryAccount));
}

#[test]
fn subslice_search() {
    let w = [7u8; 32];
    let mut data = vec![0u8; 10];
    data.extend_from_slice(&w);
    data.push(1);
    assert!(contains_subslice(&data, &w));
    assert!(contains_subslice(&w, &w));
    assert!(!contains_subslice(&data[..41], &w));
    assert!(!contains_subslice(&[], &w));
    let mut almost = data.clone();
    almost[20] = 8;
    assert!(!contains_subslice(&almost, &w));
}

#[test]
fn signature_attestation_uses_ed25519_program() {
    let signer = Pubkey { bytes: [3; 32] };
    let digest = [4u8; 32];
    let mut data = vec![1u8, 0u8];
    data.extend_from_slice(&digest);
    data.extend_from_slice(&signer.bytes);
    let ix = Instruction { program_id: ed25519_id(), data: data.clone() };
    assert_eq!(verify_ed25519_signature(&vec![ix], &signer, &digest), Ok(()));
    let wrong = Instruction { program_id: Pubkey { bytes: [0; 32] }, data };
    assert_eq!(verify_ed25519_signature(&vec![wrong], &signer, &digest), Err(ErrorCode::InvalidEd25519Signature));
    assert_eq!(verify_ed25519_signature(&vec![], &signer, &digest), Err(ErrorCode::InvalidEd25519Signature));
    let only_key = Instruction { program_id: ed25519_id(), data: signer.bytes.to_vec() };
    assert_eq!(verify_ed25519_signature(&vec![only_key], &signer, &digest), Err(ErrorCode::InvalidEd25519Signature));
}

#[test]
fn ed25519_program_address_bytes() {
    let id = ed25519_id();
    assert_eq!(id.bytes[0], 3);
    assert_eq!(id.bytes[1], 125);
    assert_eq!(id.bytes[31], 0);
}

#[test]
fn account_sizes() {
    assert_eq!(FeeRegistry::space(), 66);
    assert_eq!(VerifiersList::space(256), 8 + 32 + 4 + 256 * 32 + 1 + 8 + 8);
    assert_eq!(VerifiersList::space(256), 8253);
    assert_eq!(PrefixAccount::space(12, 255, 10), 738);
}
