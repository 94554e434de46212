//! Token accounts and mints of the world: plain ones, and Token-2022 ones that charge a fee on
//! every transfer.
//!
//! The program refuses a fee-bearing mint on either leg of an offer, and on neither leg of a
//! redemption. Without a fee-bearing mint in the world, a deposit that arrives short of the amount
//! recorded for it could not be observed at all.

use crucible_test_context::TestContext;
use solana_program_option::COption;
use spl_token_2022_interface::extension::transfer_fee::{TransferFeeAmount, TransferFeeConfig};
use spl_token_2022_interface::extension::{
    BaseStateWithExtensionsMut, ExtensionType, StateWithExtensionsMut,
};
use spl_token_2022_interface::state::{Account, AccountState, Mint};
use vstd::bytes::{
    lemma_auto_spec_u16_to_from_le_bytes, lemma_auto_spec_u64_to_from_le_bytes,
    spec_u16_to_le_bytes, spec_u64_to_le_bytes,
};
use vstd::prelude::*;

use crate::bytes::zeros;
use crate::context::{
    context_accounts, mint_layout, put_account, put_at, put_token_account, rent_exempt_lamports,
    rent_exempt_minimum, spl_account, token_layout, StoredAccount,
};
use crate::keys::{ata, scout_ata, Pubkey, DEFAULT_PUBKEY, SPL_TOKEN_2022_ID, SPL_TOKEN_ID};

verus! {

/// Transfer fee on the fee-bearing mint, in basis points. 1% is large enough that the shortfall is
/// obvious in a log line and small enough to stay far from the maximum.
pub const SCOUT_T22_FEE_BPS: u16 = 100;

/// Decimals of the fee-bearing mint.
pub const FEE_DECIMALS: u8 = 6;

/// A transfer fee, in force from `epoch` on.
#[derive(Clone, Copy)]
pub struct TransferFee {
    pub epoch: u64,
    pub maximum_fee: u64,
    pub basis_points: u16,
}

/// How a transfer fee is laid out.
pub open spec fn fee_layout(fee: TransferFee) -> Seq<u8> {
    spec_u64_to_le_bytes(fee.epoch) + spec_u64_to_le_bytes(fee.maximum_fee) + spec_u16_to_le_bytes(
        fee.basis_points,
    )
}

/// A Token-2022 mint with one extension: the mint, padding up to the length of a token account,
/// the tag of a mint, then the tag and length of the fee configuration, its two absent
/// authorities, nothing withheld, and the fees of older and of newer epochs.
pub open spec fn fee_mint_layout(
    authority: Pubkey,
    supply: u64,
    decimals: u8,
    older: TransferFee,
    newer: TransferFee,
) -> Seq<u8> {
    mint_layout(authority, supply, decimals) + zeros(83) + seq![1u8] + spec_u16_to_le_bytes(1)
        + spec_u16_to_le_bytes(108) + zeros(72) + fee_layout(older) + fee_layout(newer)
}

/// A Token-2022 account with one extension: the account, its tag, then the tag and length of the
/// withheld fee, of which there is none yet.
pub open spec fn fee_account_layout(mint: Pubkey, owner: Pubkey, amount: u64) -> Seq<u8> {
    token_layout(mint, owner, amount) + seq![2u8] + spec_u16_to_le_bytes(2) + spec_u16_to_le_bytes(
        8,
    ) + zeros(8)
}

/// A mint that charges a transfer fee in every epoch, of the Token-2022 program, rent-exempt.
pub open spec fn fee_mint(
    authority: Pubkey,
    supply: u64,
    decimals: u8,
    fee: TransferFee,
) -> StoredAccount {
    StoredAccount {
        data: fee_mint_layout(authority, supply, decimals, fee, fee),
        owner: SPL_TOKEN_2022_ID@,
        lamports: rent_exempt_minimum(278) as u64,
    }
}

/// A token account of such a mint, rent-exempt.
pub open spec fn fee_account(mint: Pubkey, owner: Pubkey, amount: u64) -> StoredAccount {
    StoredAccount {
        data: fee_account_layout(mint, owner, amount),
        owner: SPL_TOKEN_2022_ID@,
        lamports: rent_exempt_minimum(178) as u64,
    }
}

/// The associated token address, where it exists and neither it, its owner nor its mint is the
/// default key.
pub open spec fn ata_if_real(owner: Pubkey, mint: Pubkey, token_program: Pubkey) -> Option<Pubkey> {
    match ata(owner, mint, token_program) {
        Some(address) => if address != DEFAULT_PUBKEY && mint != DEFAULT_PUBKEY && owner
            != DEFAULT_PUBKEY {
            Some(address)
        } else {
            None
        },
        None => None,
    }
}

/// What the creation of an account at `address` does to the chain: nothing where there is no
/// address; else no other account changes, and `account` stands there. At the address of a system
/// variable the chain may also stay as it was.
pub open spec fn created(
    before: TestContext,
    after: TestContext,
    address: Option<Pubkey>,
    account: StoredAccount,
) -> bool {
    match address {
        None => context_accounts(after) == context_accounts(before),
        Some(key) => put_at(context_accounts(before), context_accounts(after), key, account),
    }
}

/// `ExtensionType::try_calculate_account_len` of a mint with a transfer fee: 165 bytes and a tag,
/// then 4 bytes that head an extension of 108 bytes.
#[verifier::external_body]
fn fee_mint_len() -> (r: usize)
    ensures
        r == 278,
{
    ExtensionType::try_calculate_account_len::<Mint>(&[ExtensionType::TransferFeeConfig]).unwrap()
}

/// `ExtensionType::try_calculate_account_len` of a token account of such a mint: 165 bytes and a
/// tag, then 4 bytes that head an extension of 8 bytes.
#[verifier::external_body]
fn fee_account_len() -> (r: usize)
    ensures
        r == 178,
{
    ExtensionType::try_calculate_account_len::<Account>(
        &[ExtensionType::TransferFeeAmount],
    ).unwrap()
}

/// `StateWithExtensionsMut::<Mint>::unpack_uninitialized` on blank bytes, `init_extension` of
/// `TransferFeeConfig` with the two fees, `pack_base` of an initialized mint and
/// `init_account_type`: the bytes then lay out that mint. None of the calls fails on blank bytes of
/// this length.
#[verifier::external_body]
fn pack_fee_mint(
    data: &mut Vec<u8>,
    authority: &Pubkey,
    supply: u64,
    decimals: u8,
    older: &TransferFee,
    newer: &TransferFee,
)
    requires
        old(data)@ == zeros(278),
    ensures
        final(data)@ == fee_mint_layout(*authority, supply, decimals, *older, *newer),
{
    let mut state = StateWithExtensionsMut::<Mint>::unpack_uninitialized(data).unwrap();
    let config = state.init_extension::<TransferFeeConfig>(true).unwrap();
    config.older_transfer_fee.epoch = older.epoch.into();
    config.older_transfer_fee.maximum_fee = older.maximum_fee.into();
    config.older_transfer_fee.transfer_fee_basis_points = older.basis_points.into();
    config.newer_transfer_fee.epoch = newer.epoch.into();
    config.newer_transfer_fee.maximum_fee = newer.maximum_fee.into();
    config.newer_transfer_fee.transfer_fee_basis_points = newer.basis_points.into();
    let authority = solana_pubkey::Pubkey::new_from_array(*authority);
    state.base.mint_authority = COption::Some(authority);
    state.base.supply = supply;
    state.base.decimals = decimals;
    state.base.is_initialized = true;
    state.pack_base();
    state.init_account_type().unwrap()
}

/// `StateWithExtensionsMut::<Account>::unpack_uninitialized` on blank bytes, `init_extension` of
/// `TransferFeeAmount`, `pack_base` and `init_account_type`: the bytes then lay out that token
/// account. None of the calls fails on blank bytes of this length.
#[verifier::external_body]
fn pack_fee_account(data: &mut Vec<u8>, mint: &Pubkey, owner: &Pubkey, amount: u64)
    requires
        old(data)@ == zeros(178),
    ensures
        final(data)@ == fee_account_layout(*mint, *owner, amount),
{
    let mut state = StateWithExtensionsMut::<Account>::unpack_uninitialized(data).unwrap();
    state.init_extension::<TransferFeeAmount>(true).unwrap();
    state.base.mint = solana_pubkey::Pubkey::new_from_array(*mint);
    state.base.owner = solana_pubkey::Pubkey::new_from_array(*owner);
    state.base.amount = amount;
    state.base.state = AccountState::Initialized;
    state.pack_base();
    state.init_account_type().unwrap()
}

/// Puts a pre-funded token account at its associated address. Nothing where `owner` or `mint` is
/// the default key, or the address cannot be derived; the chain is then as it was.
pub fn scout_mk_ata(ctx: &mut TestContext, owner: &Pubkey, mint: &Pubkey, amount: u64) -> (r:
    Option<Pubkey>)
    ensures
        r == ata_if_real(*owner, *mint, SPL_TOKEN_ID),
        created(*old(ctx), *final(ctx), r, spl_account(*mint, *owner, amount)),
{
    let address = scout_ata(owner, mint, &SPL_TOKEN_ID)?;
    if put_token_account(ctx, &address, mint, owner, amount) {
        Some(address)
    } else {
        None
    }
}

/// Puts a Token-2022 mint that charges `fee_bps` on every transfer at `address`.
///
/// Both epoch slots carry the same fee, so the rate does not depend on the epoch that the chain
/// happens to be in: a fee that switched off at an epoch boundary would make a run
/// unreproducible.
pub fn scout_mk_t22_fee_mint(
    ctx: &mut TestContext,
    address: &Pubkey,
    authority: &Pubkey,
    decimals: u8,
    supply: u64,
    fee_bps: u16,
) -> (r: Option<Pubkey>)
    ensures
        r == (if *address != DEFAULT_PUBKEY {
            Some(*address)
        } else {
            None
        }),
        created(
            *old(ctx),
            *final(ctx),
            r,
            fee_mint(
                *authority,
                supply,
                decimals,
                TransferFee { epoch: 0, maximum_fee: u64::MAX, basis_points: fee_bps },
            ),
        ),
{
    let len = fee_mint_len();
    let mut data: Vec<u8> = vec![0; len];
    assert(data@ =~= zeros(278));
    let fee = TransferFee { epoch: 0, maximum_fee: u64::MAX, basis_points: fee_bps };
    pack_fee_mint(&mut data, authority, supply, decimals, &fee, &fee);
    if put_account(ctx, address, rent_exempt_lamports(len), &SPL_TOKEN_2022_ID, &data) {
        Some(*address)
    } else {
        None
    }
}

/// Puts a pre-funded Token-2022 account at its associated address.
///
/// A token account of a mint that charges a fee must itself carry a withheld-fee extension, or the
/// Token-2022 program rejects every transfer that touches it.
pub fn scout_mk_t22_ata(ctx: &mut TestContext, owner: &Pubkey, mint: &Pubkey, amount: u64) -> (r:
    Option<Pubkey>)
    ensures
        r == (match ata(*owner, *mint, SPL_TOKEN_2022_ID) {
            Some(address) => if address != DEFAULT_PUBKEY {
                Some(address)
            } else {
                None
            },
            None => None,
        }),
        created(*old(ctx), *final(ctx), r, fee_account(*mint, *owner, amount)),
{
    let address = scout_ata(owner, mint, &SPL_TOKEN_2022_ID)?;
    let len = fee_account_len();
    let mut data: Vec<u8> = vec![0; len];
    assert(data@ =~= zeros(178));
    pack_fee_account(&mut data, mint, owner, amount);
    if put_account(ctx, &address, rent_exempt_lamports(len), &SPL_TOKEN_2022_ID, &data) {
        Some(address)
    } else {
        None
    }
}

/// The fee of a fee-bearing mint is the same in every epoch: it stands in both of its slots.
pub proof fn law_fee_is_the_same_in_every_epoch(
    authority: Pubkey,
    supply: u64,
    decimals: u8,
    fee: TransferFee,
)
    ensures
        ({
            let data = fee_mint(authority, supply, decimals, fee).data;
            &&& data.len() == 278
            &&& data.subrange(242, 260) == fee_layout(fee)
            &&& data.subrange(260, 278) == fee_layout(fee)
        }),
{
    lemma_auto_spec_u64_to_from_le_bytes();
    lemma_auto_spec_u16_to_from_le_bytes();
    let data = fee_mint(authority, supply, decimals, fee).data;
    assert(mint_layout(authority, supply, decimals).len() == 82);
    assert(fee_layout(fee).len() == 18);
    assert(data.subrange(242, 260) =~= fee_layout(fee));
    assert(data.subrange(260, 278) =~= fee_layout(fee));
}

} // verus!
