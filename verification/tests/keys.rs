//! Addresses, key pairs and derived addresses against the crates that define them.

use onreapp_fuzz::keys::{
    key_to_string, same_key, scout_ata, scout_pda, Keypair, ATA_PROGRAM_ID,
    BPF_LOADER_UPGRADEABLE_ID, CLOCK_SYSVAR_ID, DEFAULT_PUBKEY, ED25519_PROGRAM_ID,
    EPOCH_REWARDS_SYSVAR_ID, EPOCH_SCHEDULE_SYSVAR_ID, FEES_SYSVAR_ID, INSTRUCTIONS_SYSVAR_ID,
    LAST_RESTART_SLOT_SYSVAR_ID, RECENT_BLOCKHASHES_SYSVAR_ID, RENT_SYSVAR_ID,
    SEED_MINT_AUTHORITY, SEED_OFFER, SEED_OFFER_VAULT_AUTHORITY, SEED_PERMISSIONLESS_AUTHORITY,
    SEED_REDEMPTION_OFFER, SEED_REDEMPTION_OFFER_VAULT_AUTHORITY, SEED_REDEMPTION_REQUEST,
    SEED_STATE, SLOT_HASHES_SYSVAR_ID, SPL_TOKEN_2022_ID, SPL_TOKEN_ID, STAKE_HISTORY_SYSVAR_ID,
    SYSVAR_OWNER_ID,
};
use solana_pubkey::Pubkey;
use solana_signer::Signer;

fn parsed(text: &str) -> [u8; 32] {
    Pubkey::from_str_const(text).to_bytes()
}

#[test]
fn program_ids_are_the_published_ones() {
    assert_eq!(SPL_TOKEN_ID, parsed("TokenkegQfeZyiNwAJbNbGKPFXCWuBvf9Ss623VQ5DA"));
    assert_eq!(SPL_TOKEN_2022_ID, parsed("TokenzQdBNbLqP5VEhdkAS6EPFLC1PHnBqCXEpPxuEb"));
    assert_eq!(ATA_PROGRAM_ID, parsed("ATokenGPvbdGVxr1b2hvZbsiqW5xWH25efTNsLJA8knL"));
    assert_eq!(ED25519_PROGRAM_ID, parsed("Ed25519SigVerify111111111111111111111111111"));
    assert_eq!(INSTRUCTIONS_SYSVAR_ID, parsed("Sysvar1nstructions1111111111111111111111111"));
    assert_eq!(BPF_LOADER_UPGRADEABLE_ID, parsed("BPFLoaderUpgradeab1e11111111111111111111111"));
    assert_eq!(CLOCK_SYSVAR_ID, parsed("SysvarC1ock11111111111111111111111111111111"));
    assert_eq!(EPOCH_REWARDS_SYSVAR_ID, parsed("SysvarEpochRewards1111111111111111111111111"));
    assert_eq!(EPOCH_SCHEDULE_SYSVAR_ID, parsed("SysvarEpochSchedu1e111111111111111111111111"));
    assert_eq!(FEES_SYSVAR_ID, parsed("SysvarFees111111111111111111111111111111111"));
    assert_eq!(LAST_RESTART_SLOT_SYSVAR_ID, parsed("SysvarLastRestartS1ot1111111111111111111111"));
    assert_eq!(RECENT_BLOCKHASHES_SYSVAR_ID, parsed("SysvarRecentB1ockHashes11111111111111111111"));
    assert_eq!(RENT_SYSVAR_ID, parsed("SysvarRent111111111111111111111111111111111"));
    assert_eq!(SLOT_HASHES_SYSVAR_ID, parsed("SysvarS1otHashes111111111111111111111111111"));
    assert_eq!(STAKE_HISTORY_SYSVAR_ID, parsed("SysvarStakeHistory1111111111111111111111111"));
    assert_eq!(SYSVAR_OWNER_ID, parsed("Sysvar1111111111111111111111111111111111111"));
    assert_eq!(DEFAULT_PUBKEY, Pubkey::default().to_bytes());
}

#[test]
fn seeds_spell_their_names() {
    assert_eq!(&SEED_STATE, b"state");
    assert_eq!(&SEED_OFFER, b"offer");
    assert_eq!(&SEED_OFFER_VAULT_AUTHORITY, b"offer_vault_authority");
    assert_eq!(&SEED_PERMISSIONLESS_AUTHORITY, b"permissionless-1");
    assert_eq!(&SEED_MINT_AUTHORITY, b"mint_authority");
    assert_eq!(&SEED_REDEMPTION_OFFER, b"redemption_offer");
    assert_eq!(&SEED_REDEMPTION_OFFER_VAULT_AUTHORITY, b"redemption_offer_vault_authority");
    assert_eq!(&SEED_REDEMPTION_REQUEST, b"redemption_request");
}

#[test]
fn derived_addresses_are_found_like_the_runtime_finds_them() {
    let program = [7u8; 32];
    let seeds: [&[u8]; 2] = [b"offer", &[3u8; 32]];
    let expected = Pubkey::find_program_address(&seeds, &Pubkey::new_from_array(program)).0;
    assert_eq!(scout_pda(&seeds, &program), Some(expected.to_bytes()));

    let other: [&[u8]; 2] = [b"offer", &[4u8; 32]];
    assert_ne!(scout_pda(&other, &program), scout_pda(&seeds, &program));
}

#[test]
fn seeds_that_are_too_long_derive_nothing() {
    let long = [1u8; 33];
    let seeds: [&[u8]; 1] = [&long];
    assert_eq!(scout_pda(&seeds, &[7u8; 32]), None);
}

#[test]
fn associated_addresses_are_seeded_by_owner_program_and_mint() {
    let owner = [1u8; 32];
    let mint = [2u8; 32];
    let ata_program = Pubkey::new_from_array(ATA_PROGRAM_ID);
    let expected =
        Pubkey::find_program_address(&[&owner, &SPL_TOKEN_2022_ID, &mint], &ata_program).0;
    assert_eq!(scout_ata(&owner, &mint, &SPL_TOKEN_2022_ID), Some(expected.to_bytes()));
    assert_ne!(
        scout_ata(&owner, &mint, &SPL_TOKEN_ID),
        scout_ata(&owner, &mint, &SPL_TOKEN_2022_ID)
    );
}

#[test]
fn key_pairs_sign_and_name_themselves_like_solana_keypairs() {
    let ours = Keypair { secret: [9u8; 32] };
    let theirs = solana_keypair::Keypair::new_from_array([9u8; 32]);
    assert_eq!(ours.pubkey(), theirs.pubkey().to_bytes());
    assert_ne!(ours.pubkey(), ours.secret);
    let signature: [u8; 64] = theirs.sign_message(b"approve").into();
    assert_eq!(ours.sign_message(b"approve"), signature);
    assert_ne!(ours.sign_message(b"refuse"), signature);
}

#[test]
fn fresh_key_pairs_differ() {
    assert_ne!(Keypair::fresh(), Keypair::fresh());
}

#[test]
fn addresses_are_shown_in_base58() {
    assert_eq!(key_to_string(&SPL_TOKEN_ID), "TokenkegQfeZyiNwAJbNbGKPFXCWuBvf9Ss623VQ5DA");
    assert_eq!(key_to_string(&DEFAULT_PUBKEY), "11111111111111111111111111111111");
}

#[test]
fn equal_addresses_are_told_from_others() {
    let mut other = SPL_TOKEN_ID;
    assert!(same_key(&SPL_TOKEN_ID, &other));
    other[31] = 0;
    assert!(!same_key(&SPL_TOKEN_ID, &other));
}
