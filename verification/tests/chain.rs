//! The chain and the accounts that a world is built from, on a real simulated chain.

use onreapp_fuzz::context::{
    account_data, clock_is_readable, fresh_context, has_next_slot, next_slot, rent_exempt_lamports,
    scout_now, scout_set_time,
};
use onreapp_fuzz::keys::{
    scout_ata, CLOCK_SYSVAR_ID, DEFAULT_PUBKEY, SPL_TOKEN_2022_ID, SPL_TOKEN_ID, SYSVAR_OWNER_ID,
};
use onreapp_fuzz::token::{
    scout_mk_ata, scout_mk_t22_ata, scout_mk_t22_fee_mint, FEE_DECIMALS, SCOUT_T22_FEE_BPS,
};
use solana_program_option::COption;
use solana_pubkey::Pubkey;
use spl_token_2022_interface::extension::transfer_fee::{TransferFeeAmount, TransferFeeConfig};
use spl_token_2022_interface::extension::{BaseStateWithExtensions, StateWithExtensions};
use spl_token_2022_interface::state::{Account, AccountState, Mint};

fn key(bytes: [u8; 32]) -> Pubkey {
    Pubkey::new_from_array(bytes)
}

#[test]
fn a_new_chain_has_a_clock_at_zero() {
    let ctx = fresh_context();
    assert!(clock_is_readable(&ctx));
    assert_eq!(scout_now(&ctx), 0);
    assert_eq!(account_data(&ctx, &CLOCK_SYSVAR_ID), Some(vec![0u8; 40]));
}

#[test]
fn the_time_is_set_and_read_back() {
    let mut ctx = fresh_context();
    scout_set_time(&mut ctx, 1_700_000_000);
    assert_eq!(scout_now(&ctx), 1_700_000_000);
    scout_set_time(&mut ctx, -5);
    assert_eq!(scout_now(&ctx), (-5i64) as u64);
}

#[test]
fn a_slot_passes_without_the_time_moving() {
    let mut ctx = fresh_context();
    scout_set_time(&mut ctx, 77);
    let slot = ctx.svm.get_sysvar::<solana_clock::Clock>().slot;
    assert!(has_next_slot(&ctx));
    next_slot(&mut ctx);
    let clock = ctx.svm.get_sysvar::<solana_clock::Clock>();
    assert_eq!(clock.slot, slot + 1);
    assert_eq!(clock.unix_timestamp, 77);
}

#[test]
fn setting_the_time_keeps_the_rest_of_the_clock() {
    let mut ctx = fresh_context();
    ctx.set_sysvar(&solana_clock::Clock {
        slot: 3,
        epoch_start_timestamp: 4,
        epoch: 5,
        leader_schedule_epoch: 6,
        unix_timestamp: 7,
    });
    scout_set_time(&mut ctx, 8);
    let clock = ctx.svm.get_sysvar::<solana_clock::Clock>();
    assert_eq!(
        (clock.slot, clock.epoch_start_timestamp, clock.epoch, clock.leader_schedule_epoch),
        (3, 4, 5, 6)
    );
    assert_eq!(clock.unix_timestamp, 8);
}

#[test]
fn an_address_that_only_resembles_a_system_variable_is_an_ordinary_one() {
    let mut ctx = fresh_context();
    let mut address = CLOCK_SYSVAR_ID;
    address[31] = 1;
    let made = scout_mk_t22_fee_mint(&mut ctx, &address, &[1u8; 32], 6, 1, 100);
    assert_eq!(made, Some(address));
    assert_eq!(account_data(&ctx, &address).map(|data| data.len()), Some(278));
    assert_eq!(account_data(&ctx, &CLOCK_SYSVAR_ID), Some(vec![0u8; 40]));
}

#[test]
fn the_last_slot_has_no_next() {
    let mut ctx = fresh_context();
    let mut clock = ctx.svm.get_sysvar::<solana_clock::Clock>();
    clock.slot = u64::MAX;
    ctx.set_sysvar(&clock);
    assert!(!has_next_slot(&ctx));
}

#[test]
fn missing_accounts_have_no_data() {
    let ctx = fresh_context();
    assert_eq!(account_data(&ctx, &[3u8; 32]), None);
}

#[test]
fn a_copied_chain_is_independent() {
    let mut ctx = fresh_context();
    let copy = ctx.clone();
    scout_set_time(&mut ctx, 9);
    assert_eq!(scout_now(&copy), 0);
    assert_eq!(scout_now(&ctx), 9);
}

#[test]
fn a_token_account_stands_at_its_associated_address() {
    let mut ctx = fresh_context();
    let (owner, mint) = ([11u8; 32], [12u8; 32]);
    let address = scout_mk_ata(&mut ctx, &owner, &mint, 1_234).expect("created");
    assert_eq!(Some(address), scout_ata(&owner, &mint, &SPL_TOKEN_ID));

    let data = account_data(&ctx, &address).expect("there");
    assert_eq!(data.len(), 165);
    assert_eq!(&data[..32], &mint);
    assert_eq!(&data[32..64], &owner);
    assert_eq!(&data[64..72], &1_234u64.to_le_bytes());
    assert_eq!(&data[72..108], &[0u8; 36]);
    assert_eq!(data[108], 1);
    assert_eq!(&data[109..], &[0u8; 56]);
    let account = ctx.get_account(&key(address)).expect("there");
    assert_eq!(account.owner.to_bytes(), SPL_TOKEN_ID);
    assert_eq!(account.lamports, rent_exempt_lamports(165));
}

#[test]
fn the_clock_is_an_account_of_the_system() {
    let mut ctx = fresh_context();
    scout_set_time(&mut ctx, 5);
    next_slot(&mut ctx);
    let account = ctx.get_account(&key(CLOCK_SYSVAR_ID)).expect("there");
    assert_eq!(account.owner.to_bytes(), SYSVAR_OWNER_ID);
    assert_eq!(account.lamports, 1);
    assert_eq!(account.data.len(), 40);
}

#[test]
fn no_token_account_for_the_default_key() {
    let mut ctx = fresh_context();
    assert_eq!(scout_mk_ata(&mut ctx, &DEFAULT_PUBKEY, &[12u8; 32], 1), None);
    assert_eq!(scout_mk_ata(&mut ctx, &[11u8; 32], &DEFAULT_PUBKEY, 1), None);
}

#[test]
fn the_fee_mint_charges_the_same_fee_in_every_epoch() {
    let mut ctx = fresh_context();
    let (address, authority) = ([21u8; 32], [22u8; 32]);
    let made = scout_mk_t22_fee_mint(
        &mut ctx,
        &address,
        &authority,
        FEE_DECIMALS,
        5_000,
        SCOUT_T22_FEE_BPS,
    );
    assert_eq!(made, Some(address));

    let data = account_data(&ctx, &address).expect("there");
    assert_eq!(data.len(), 278);
    let state = StateWithExtensions::<Mint>::unpack(&data).expect("a mint");
    assert_eq!(state.base.mint_authority, COption::Some(key(authority)));
    assert_eq!(state.base.supply, 5_000);
    assert_eq!(state.base.decimals, 6);
    assert!(state.base.is_initialized);
    assert_eq!(state.base.freeze_authority, COption::None);
    let config = state.get_extension::<TransferFeeConfig>().expect("a fee");
    for epoch in [0u64, 1, u64::MAX] {
        let fee = config.get_epoch_fee(epoch);
        assert_eq!(u16::from(fee.transfer_fee_basis_points), 100);
        assert_eq!(u64::from(fee.maximum_fee), u64::MAX);
    }
    assert_eq!(config.calculate_epoch_fee(0, 1_000_000), Some(10_000));
    let account = ctx.get_account(&key(address)).expect("there");
    assert_eq!(account.owner.to_bytes(), SPL_TOKEN_2022_ID);
    assert_eq!(account.lamports, rent_exempt_lamports(278));
}

#[test]
fn the_fee_mint_refuses_the_default_address() {
    let mut ctx = fresh_context();
    let made = scout_mk_t22_fee_mint(&mut ctx, &DEFAULT_PUBKEY, &[1u8; 32], 6, 1, 100);
    assert_eq!(made, None);
}

#[test]
fn a_token_account_of_the_fee_mint_can_withhold_fees() {
    let mut ctx = fresh_context();
    let (owner, mint) = ([31u8; 32], [32u8; 32]);
    let address = scout_mk_t22_ata(&mut ctx, &owner, &mint, 777).expect("created");
    assert_eq!(Some(address), scout_ata(&owner, &mint, &SPL_TOKEN_2022_ID));

    let data = account_data(&ctx, &address).expect("there");
    assert_eq!(data.len(), 178);
    let state = StateWithExtensions::<Account>::unpack(&data).expect("a token account");
    assert_eq!(state.base.mint, key(mint));
    assert_eq!(state.base.owner, key(owner));
    assert_eq!(state.base.amount, 777);
    assert_eq!(state.base.state, AccountState::Initialized);
    assert_eq!(state.base.delegate, COption::None);
    assert_eq!(state.base.is_native, COption::None);
    assert_eq!(state.base.delegated_amount, 0);
    assert_eq!(state.base.close_authority, COption::None);
    let account = ctx.get_account(&key(address)).expect("there");
    assert_eq!(account.owner.to_bytes(), SPL_TOKEN_2022_ID);
    assert_eq!(account.lamports, rent_exempt_lamports(178));
    let withheld = state.get_extension::<TransferFeeAmount>().expect("withheld fees");
    assert_eq!(u64::from(withheld.withheld_amount), 0);
}

#[test]
fn rent_is_exempt_from_the_minimum_on() {
    let ctx = fresh_context();
    for len in [0usize, 165, 178, 278] {
        assert_eq!(
            rent_exempt_lamports(len),
            ctx.svm.minimum_balance_for_rent_exemption(len)
        );
    }
}
