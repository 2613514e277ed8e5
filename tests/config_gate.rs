use anchor_lang::prelude::Pubkey;
use security_best_practices::address::config_address;
use security_best_practices::gate::{require_admin, require_config_address, require_signature};
use security_best_practices::record::{
    config_tag_bytes, decode_config, encode_config, same_identity, RECORD_LEN,
};
use security_best_practices::{
    initialize_config, update_config_bad, update_config_good, Config, ConfigAccount, ErrorCode,
    InitializeConfig, SignerAccount, UpdateConfig,
};

const PROGRAM: [u8; 32] = [9u8; 32];
const ALICE: [u8; 32] = [1u8; 32];
const BOB: [u8; 32] = [2u8; 32];

fn signer(key: [u8; 32], is_signer: bool) -> SignerAccount {
    SignerAccount { key, is_signer }
}

fn config_key() -> [u8; 32] {
    config_address(&PROGRAM).expect("config address")
}

fn created(admin: [u8; 32]) -> ConfigAccount {
    let mut ctx = InitializeConfig {
        payer: signer(BOB, true),
        config: ConfigAccount { key: config_key(), data: Vec::new() },
    };
    assert_eq!(initialize_config(&PROGRAM, &mut ctx, admin), Ok(()));
    ctx.config
}

fn stored(account: &ConfigAccount) -> (Vec<u8>, u8) {
    let c = decode_config(&account.data).expect("stored record");
    (c.admin.to_vec(), c.value)
}

#[test]
fn end_to_end_scenario() {
    let mut ctx = UpdateConfig { admin: signer(BOB, true), config: created(ALICE) };
    assert_eq!(stored(&ctx.config), (ALICE.to_vec(), 0));
    assert_eq!(update_config_good(&PROGRAM, &mut ctx, 7), Err(ErrorCode::Unauthorized));
    assert_eq!(stored(&ctx.config), (ALICE.to_vec(), 0));
    ctx.admin = signer(ALICE, true);
    assert_eq!(update_config_good(&PROGRAM, &mut ctx, 7), Ok(()));
    assert_eq!(stored(&ctx.config), (ALICE.to_vec(), 7));
}

#[test]
fn creation_twice_is_refused() {
    let mut ctx = InitializeConfig {
        payer: signer(BOB, true),
        config: ConfigAccount { key: config_key(), data: Vec::new() },
    };
    assert_eq!(initialize_config(&PROGRAM, &mut ctx, ALICE), Ok(()));
    assert_eq!(initialize_config(&PROGRAM, &mut ctx, BOB), Err(ErrorCode::AlreadyExists));
    assert_eq!(stored(&ctx.config), (ALICE.to_vec(), 0));
}

#[test]
fn creation_needs_payer_signature() {
    let mut ctx = InitializeConfig {
        payer: signer(BOB, false),
        config: ConfigAccount { key: config_key(), data: Vec::new() },
    };
    assert_eq!(initialize_config(&PROGRAM, &mut ctx, ALICE), Err(ErrorCode::MissingSignature));
    assert!(ctx.config.data.is_empty());
}

#[test]
fn creation_at_other_address_is_refused() {
    let mut ctx = InitializeConfig {
        payer: signer(BOB, true),
        config: ConfigAccount { key: PROGRAM, data: Vec::new() },
    };
    assert_eq!(initialize_config(&PROGRAM, &mut ctx, ALICE), Err(ErrorCode::AddressMismatch));
    assert!(ctx.config.data.is_empty());
}

#[test]
fn admin_survives_updates() {
    let mut ctx = UpdateConfig { admin: signer(ALICE, true), config: created(ALICE) };
    assert_eq!(update_config_good(&PROGRAM, &mut ctx, 3), Ok(()));
    ctx.admin = signer(BOB, true);
    assert_eq!(update_config_bad(&PROGRAM, &mut ctx, 4), Ok(()));
    assert_eq!(update_config_good(&PROGRAM, &mut ctx, 5), Err(ErrorCode::Unauthorized));
    ctx.admin = signer(ALICE, false);
    assert_eq!(update_config_good(&PROGRAM, &mut ctx, 6), Err(ErrorCode::MissingSignature));
    assert_eq!(stored(&ctx.config), (ALICE.to_vec(), 4));
}

#[test]
fn secure_update_rejects_other_signer() {
    let mut ctx = UpdateConfig { admin: signer(BOB, true), config: created(ALICE) };
    assert_eq!(update_config_good(&PROGRAM, &mut ctx, 9), Err(ErrorCode::Unauthorized));
    ctx.admin = signer(BOB, false);
    assert!(update_config_good(&PROGRAM, &mut ctx, 9).is_err());
    assert_eq!(stored(&ctx.config), (ALICE.to_vec(), 0));
}

#[test]
fn secure_update_accepts_admin() {
    let mut ctx = UpdateConfig { admin: signer(ALICE, true), config: created(ALICE) };
    assert_eq!(update_config_good(&PROGRAM, &mut ctx, 255), Ok(()));
    assert_eq!(stored(&ctx.config), (ALICE.to_vec(), 255));
}

#[test]
fn insecure_update_accepts_any_signer() {
    let mut bad = UpdateConfig { admin: signer(BOB, true), config: created(ALICE) };
    assert_eq!(update_config_bad(&PROGRAM, &mut bad, 42), Ok(()));
    assert_eq!(stored(&bad.config), (ALICE.to_vec(), 42));
    let mut good = UpdateConfig { admin: signer(BOB, true), config: created(ALICE) };
    assert_eq!(update_config_good(&PROGRAM, &mut good, 42), Err(ErrorCode::Unauthorized));
    assert_eq!(stored(&good.config), (ALICE.to_vec(), 0));
}

#[test]
fn unsigned_request_rejected_by_both() {
    for presented in [ALICE, BOB] {
        let mut ctx = UpdateConfig { admin: signer(presented, false), config: created(ALICE) };
        assert_eq!(update_config_good(&PROGRAM, &mut ctx, 1), Err(ErrorCode::MissingSignature));
        assert_eq!(update_config_bad(&PROGRAM, &mut ctx, 1), Err(ErrorCode::MissingSignature));
        assert_eq!(stored(&ctx.config), (ALICE.to_vec(), 0));
    }
}

#[test]
fn update_without_record_is_not_found() {
    let mut ctx = UpdateConfig {
        admin: signer(ALICE, true),
        config: ConfigAccount { key: config_key(), data: Vec::new() },
    };
    assert_eq!(update_config_good(&PROGRAM, &mut ctx, 1), Err(ErrorCode::NotFound));
    assert_eq!(update_config_bad(&PROGRAM, &mut ctx, 1), Err(ErrorCode::NotFound));
}

#[test]
fn update_of_corrupt_record_is_refused() {
    let mut wrong_tag = created(ALICE);
    wrong_tag.data[0] ^= 1;
    let before = wrong_tag.data.clone();
    let mut ctx = UpdateConfig { admin: signer(ALICE, true), config: wrong_tag };
    assert_eq!(update_config_good(&PROGRAM, &mut ctx, 1), Err(ErrorCode::Corrupt));
    assert_eq!(ctx.config.data, before);

    let mut too_long = created(ALICE);
    too_long.data.push(0);
    let mut ctx = UpdateConfig { admin: signer(ALICE, true), config: too_long };
    assert_eq!(update_config_bad(&PROGRAM, &mut ctx, 1), Err(ErrorCode::Corrupt));
}

#[test]
fn update_at_other_address_is_refused() {
    let mut account = created(ALICE);
    account.key = ALICE;
    let mut ctx = UpdateConfig { admin: signer(ALICE, true), config: account };
    assert_eq!(update_config_good(&PROGRAM, &mut ctx, 1), Err(ErrorCode::AddressMismatch));
    assert_eq!(update_config_bad(&PROGRAM, &mut ctx, 1), Err(ErrorCode::AddressMismatch));
}

#[test]
fn config_address_is_the_program_derived_one() {
    let expected =
        Pubkey::find_program_address(&[b"config"], &Pubkey::new_from_array(PROGRAM)).0.to_bytes();
    assert_eq!(config_address(&PROGRAM), Some(expected));
    assert_ne!(config_address(&PROGRAM), Some(PROGRAM));
    assert_ne!(config_address(&ALICE), config_address(&PROGRAM));
}

#[test]
fn tag_is_anchor_discriminator() {
    let digest = anchor_lang::solana_program::hash::hash(b"account:Config").to_bytes();
    assert_eq!(config_tag_bytes().to_vec(), digest[..8].to_vec());
}

#[test]
fn record_layout_is_tag_admin_value() {
    let bytes = encode_config(&Config { admin: ALICE, value: 5 });
    assert_eq!(bytes.len(), RECORD_LEN);
    let mut expected = config_tag_bytes().to_vec();
    expected.extend_from_slice(&ALICE);
    expected.push(5);
    assert_eq!(bytes, expected);
    let back = decode_config(&bytes).unwrap();
    assert_eq!((back.admin, back.value), (ALICE, 5));
    assert_eq!(decode_config(&Vec::new()).unwrap_err(), ErrorCode::NotFound);
    assert_eq!(decode_config(&bytes[..40].to_vec()).unwrap_err(), ErrorCode::Corrupt);
}

#[test]
fn gates_decide_each_predicate() {
    assert_eq!(require_signature(&signer(ALICE, true)), Ok(()));
    assert_eq!(require_signature(&signer(ALICE, false)), Err(ErrorCode::MissingSignature));
    let record = Config { admin: ALICE, value: 0 };
    assert_eq!(require_admin(&signer(ALICE, true), &record), Ok(()));
    assert_eq!(require_admin(&signer(BOB, true), &record), Err(ErrorCode::Unauthorized));
    assert_eq!(require_config_address(&PROGRAM, &config_key()), Ok(()));
    assert_eq!(require_config_address(&PROGRAM, &PROGRAM), Err(ErrorCode::AddressMismatch));
}

#[test]
fn identities_compare_every_byte() {
    let mut late = ALICE;
    late[31] = 0;
    assert!(same_identity(&ALICE, &ALICE));
    assert!(!same_identity(&ALICE, &late));
    assert!(!same_identity(&ALICE, &BOB));
}
