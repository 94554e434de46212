//! The simulated chain: its accounts, its clock, and the accounts that a world is built from.

use crucible_test_context::{AccountBuilderBase, TestContext};
use vstd::bytes::{
    lemma_auto_spec_u64_to_from_le_bytes, spec_u64_from_le_bytes, spec_u64_to_le_bytes,
};
use vstd::prelude::*;

use crate::bytes::{le_u64, to_word, word_of, zeros};
use crate::keys::{
    Pubkey, CLOCK_SYSVAR_ID, DEFAULT_PUBKEY, EPOCH_REWARDS_SYSVAR_ID, EPOCH_SCHEDULE_SYSVAR_ID,
    FEES_SYSVAR_ID, LAST_RESTART_SLOT_SYSVAR_ID, RECENT_BLOCKHASHES_SYSVAR_ID, RENT_SYSVAR_ID,
    SLOT_HASHES_SYSVAR_ID, SPL_TOKEN_ID, STAKE_HISTORY_SYSVAR_ID, SYSVAR_OWNER_ID,
};

verus! {

/// The simulated chain of `crucible_test_context`.
#[verifier::external_type_specification]
#[verifier::external_body]
pub struct ExTestContext(TestContext);

/// An account on the chain: its data, the program that owns it, and its lamports.
#[verifier::ext_equal]
pub struct StoredAccount {
    pub data: Seq<u8>,
    pub owner: Seq<u8>,
    pub lamports: u64,
}

/// Every account on the chain, by address.
pub uninterp spec fn context_accounts(ctx: TestContext) -> Map<Seq<u8>, StoredAccount>;

/// The data of the account at `key`, where there is one.
pub open spec fn data_at(ctx: TestContext, key: Pubkey) -> Option<Seq<u8>> {
    if context_accounts(ctx).dom().contains(key@) {
        Some(context_accounts(ctx)[key@].data)
    } else {
        None
    }
}

/// The data of the account of the clock.
pub open spec fn clock_data(ctx: TestContext) -> Seq<u8> {
    context_accounts(ctx)[CLOCK_SYSVAR_ID@].data
}

/// The account of a system variable with the given data.
pub open spec fn sysvar_account(data: Seq<u8>) -> StoredAccount {
    StoredAccount { data, owner: SYSVAR_OWNER_ID@, lamports: 1 }
}

/// Whether an address is that of a system variable which the chain keeps readable: it takes only
/// data there that spells out the variable.
pub open spec fn is_sysvar(key: Pubkey) -> bool {
    ||| key@ == CLOCK_SYSVAR_ID@
    ||| key@ == EPOCH_REWARDS_SYSVAR_ID@
    ||| key@ == EPOCH_SCHEDULE_SYSVAR_ID@
    ||| key@ == FEES_SYSVAR_ID@
    ||| key@ == LAST_RESTART_SLOT_SYSVAR_ID@
    ||| key@ == RECENT_BLOCKHASHES_SYSVAR_ID@
    ||| key@ == RENT_SYSVAR_ID@
    ||| key@ == SLOT_HASHES_SYSVAR_ID@
    ||| key@ == STAKE_HISTORY_SYSVAR_ID@
}

/// What putting an account at an address does to the accounts of a chain: it stands there, and no
/// other one changes. At the address of a system variable the chain may also stay as it was.
pub open spec fn put_at(
    before: Map<Seq<u8>, StoredAccount>,
    after: Map<Seq<u8>, StoredAccount>,
    key: Pubkey,
    account: StoredAccount,
) -> bool {
    after == before.insert(key@, account) || is_sysvar(key) && after == before
}

/// The clock of the chain.
#[derive(Clone, Copy)]
pub struct Clock {
    pub slot: u64,
    pub epoch_start_timestamp: i64,
    pub epoch: u64,
    pub leader_schedule_epoch: u64,
    pub unix_timestamp: i64,
}

/// How the clock is laid out in its account.
pub open spec fn clock_bytes(clock: Clock) -> Seq<u8> {
    spec_u64_to_le_bytes(clock.slot) + spec_u64_to_le_bytes(word_of(clock.epoch_start_timestamp))
        + spec_u64_to_le_bytes(clock.epoch) + spec_u64_to_le_bytes(clock.leader_schedule_epoch)
        + spec_u64_to_le_bytes(word_of(clock.unix_timestamp))
}

/// Whether the chain has a readable clock. A chain comes with one.
pub open spec fn has_clock(ctx: TestContext) -> bool {
    data_at(ctx, CLOCK_SYSVAR_ID) is Some && data_at(ctx, CLOCK_SYSVAR_ID)->0.len() >= 40
}

/// The data of a clock that was set to a time and otherwise left alone.
pub open spec fn clock_at_time(data: Seq<u8>, unix_timestamp: i64) -> Seq<u8> {
    data.subrange(0, 32) + spec_u64_to_le_bytes(word_of(unix_timestamp))
}

/// The data of a clock that was set to a slot and otherwise left alone.
pub open spec fn clock_at_slot(data: Seq<u8>, slot: u64) -> Seq<u8> {
    spec_u64_to_le_bytes(slot) + data.subrange(8, 40)
}

/// The accounts of a chain whose clock spells out the given data.
pub open spec fn with_clock(
    accounts: Map<Seq<u8>, StoredAccount>,
    data: Seq<u8>,
) -> Map<Seq<u8>, StoredAccount> {
    accounts.insert(CLOCK_SYSVAR_ID@, sysvar_account(data))
}

/// The time on the chain's clock, as an unsigned word.
pub open spec fn now_of(ctx: TestContext) -> u64 {
    le_u64(clock_data(ctx), 32)
}

/// The slot on the chain's clock.
pub open spec fn slot_of(ctx: TestContext) -> u64 {
    le_u64(clock_data(ctx), 0)
}

/// The rent-exempt minimum of an account with `len` bytes of data.
pub open spec fn rent_exempt_minimum(len: nat) -> nat {
    (len + 128) * 6_960
}

/// `Mint` of the token program: authority, supply, decimals, initialized, no freeze authority.
pub open spec fn mint_layout(authority: Pubkey, supply: u64, decimals: u8) -> Seq<u8> {
    seq![1u8, 0u8, 0u8, 0u8] + authority@ + spec_u64_to_le_bytes(supply) + seq![decimals, 1u8]
        + zeros(36)
}

/// `Account` of the token program: mint, owner, amount, no delegate, initialized, not native,
/// nothing delegated, no close authority.
pub open spec fn token_layout(mint: Pubkey, owner: Pubkey, amount: u64) -> Seq<u8> {
    mint@ + owner@ + spec_u64_to_le_bytes(amount) + zeros(36) + seq![1u8] + zeros(56)
}

/// A mint of the SPL token program, rent-exempt.
pub open spec fn spl_mint(authority: Pubkey, supply: u64, decimals: u8) -> StoredAccount {
    StoredAccount {
        data: mint_layout(authority, supply, decimals),
        owner: SPL_TOKEN_ID@,
        lamports: rent_exempt_minimum(82) as u64,
    }
}

/// A token account of the SPL token program, rent-exempt.
pub open spec fn spl_account(mint: Pubkey, owner: Pubkey, amount: u64) -> StoredAccount {
    StoredAccount {
        data: token_layout(mint, owner, amount),
        owner: SPL_TOKEN_ID@,
        lamports: rent_exempt_minimum(165) as u64,
    }
}

/// Clone of `TestContext`: the copy holds the same accounts.
pub assume_specification[ <TestContext as Clone>::clone ](ctx: &TestContext) -> (r: TestContext)
    ensures
        context_accounts(r) == context_accounts(*ctx),
;

/// `TestContext::new`: a chain with the default programs and system variables, among them a clock
/// that stands at zero. What else it holds is left unsaid.
#[verifier::external_body]
fn new_context() -> (r: TestContext)
    ensures
        data_at(r, CLOCK_SYSVAR_ID) == Some(zeros(40)),
{
    TestContext::new()
}

/// `TestContext::get_account`: the data of the account at `address`, and nothing where the chain
/// holds no such account.
#[verifier::external_body]
fn get_account_data(ctx: &TestContext, address: &Pubkey) -> (r: Option<Vec<u8>>)
    ensures
        r is Some == context_accounts(*ctx).dom().contains(address@),
        r is Some ==> r->0@ == context_accounts(*ctx)[address@].data,
{
    let address = solana_pubkey::Pubkey::new_from_array(*address);
    ctx.get_account(&address).ok().map(|account| account.data)
}

/// `TestContext::create_account` with address, lamports, owner and data. It refuses the default
/// address; at any other it puts that account, and touches no other one. At the address of a system
/// variable it may also change nothing; which data are taken there is left unsaid.
#[verifier::external_body]
pub(crate) fn put_account(
    ctx: &mut TestContext,
    address: &Pubkey,
    lamports: u64,
    owner: &Pubkey,
    data: &[u8],
) -> (r: bool)
    requires
        lamports > 0,
    ensures
        r == (*address != DEFAULT_PUBKEY),
        !r ==> context_accounts(*final(ctx)) == context_accounts(*old(ctx)),
        r ==> put_at(
            context_accounts(*old(ctx)),
            context_accounts(*final(ctx)),
            *address,
            (StoredAccount { data: data@, owner: owner@, lamports }),
        ),
{
    ctx.create_account()
        .pubkey(solana_pubkey::Pubkey::new_from_array(*address))
        .lamports(lamports)
        .owner(solana_pubkey::Pubkey::new_from_array(*owner))
        .data(data)
        .create()
        .is_ok()
}

/// `TestContext::create_mint` with address, decimals, mint authority and supply. It refuses the
/// default address; at any other it puts a mint of the SPL token program, and touches no other
/// account. At the address of a system variable it may also change nothing.
#[verifier::external_body]
pub(crate) fn put_mint(
    ctx: &mut TestContext,
    address: &Pubkey,
    decimals: u8,
    authority: &Pubkey,
    supply: u64,
) -> (r: bool)
    ensures
        r == (*address != DEFAULT_PUBKEY),
        !r ==> context_accounts(*final(ctx)) == context_accounts(*old(ctx)),
        r ==> put_at(
            context_accounts(*old(ctx)),
            context_accounts(*final(ctx)),
            *address,
            spl_mint(*authority, supply, decimals),
        ),
{
    ctx.create_mint()
        .pubkey(solana_pubkey::Pubkey::new_from_array(*address))
        .decimals(decimals)
        .mint_authority(solana_pubkey::Pubkey::new_from_array(*authority))
        .supply(supply)
        .create()
        .is_ok()
}

/// `TestContext::create_token_account` with address, mint, owner and amount. It refuses a default
/// address, mint or owner; else it puts a token account of the SPL token program, and touches no
/// other account. At the address of a system variable it may also change nothing.
#[verifier::external_body]
pub(crate) fn put_token_account(
    ctx: &mut TestContext,
    address: &Pubkey,
    mint: &Pubkey,
    owner: &Pubkey,
    amount: u64,
) -> (r: bool)
    ensures
        r == (*address != DEFAULT_PUBKEY && *mint != DEFAULT_PUBKEY && *owner != DEFAULT_PUBKEY),
        !r ==> context_accounts(*final(ctx)) == context_accounts(*old(ctx)),
        r ==> put_at(
            context_accounts(*old(ctx)),
            context_accounts(*final(ctx)),
            *address,
            spl_account(*mint, *owner, amount),
        ),
{
    ctx.create_token_account()
        .pubkey(solana_pubkey::Pubkey::new_from_array(*address))
        .mint(solana_pubkey::Pubkey::new_from_array(*mint))
        .token_owner(solana_pubkey::Pubkey::new_from_array(*owner))
        .amount(amount)
        .create()
        .is_ok()
}

/// `LiteSVM::get_sysvar::<Clock>`: the clock that the account of the clock spells out.
#[verifier::external_body]
fn get_clock(ctx: &TestContext) -> (r: Clock)
    requires
        has_clock(*ctx),
    ensures
        clock_bytes(r) == clock_data(*ctx).subrange(0, 40),
{
    let clock = ctx.svm.get_sysvar::<solana_clock::Clock>();
    Clock {
        slot: clock.slot,
        epoch_start_timestamp: clock.epoch_start_timestamp,
        epoch: clock.epoch,
        leader_schedule_epoch: clock.leader_schedule_epoch,
        unix_timestamp: clock.unix_timestamp,
    }
}

/// `TestContext::set_sysvar::<Clock>`: the account of the clock spells out `clock` afterwards, and
/// no other account changes.
#[verifier::external_body]
fn set_clock(ctx: &mut TestContext, clock: &Clock)
    ensures
        context_accounts(*final(ctx)) == with_clock(
            context_accounts(*old(ctx)),
            clock_bytes(*clock),
        ),
{
    ctx.set_sysvar(&solana_clock::Clock {
        slot: clock.slot,
        epoch_start_timestamp: clock.epoch_start_timestamp,
        epoch: clock.epoch,
        leader_schedule_epoch: clock.leader_schedule_epoch,
        unix_timestamp: clock.unix_timestamp,
    })
}

/// `TestContext::advance_slots`: the slot of the clock grows by `slots`; nothing else changes.
#[verifier::external_body]
fn add_slots(ctx: &mut TestContext, slots: u64)
    requires
        has_clock(*old(ctx)),
        slot_of(*old(ctx)) + slots <= u64::MAX,
    ensures
        context_accounts(*final(ctx)) == with_clock(
            context_accounts(*old(ctx)),
            clock_at_slot(clock_data(*old(ctx)), (slot_of(*old(ctx)) + slots) as u64),
        ),
{
    ctx.advance_slots(slots)
}

/// The data of the account at `address`, where there is one.
pub fn account_data(ctx: &TestContext, address: &Pubkey) -> (r: Option<Vec<u8>>)
    ensures
        r is Some == data_at(*ctx, *address) is Some,
        r is Some ==> r->0@ == data_at(*ctx, *address)->0,
{
    get_account_data(ctx, address)
}

/// A new chain, without the program.
pub fn fresh_context() -> (r: TestContext)
    ensures
        has_clock(r),
        data_at(r, CLOCK_SYSVAR_ID) == Some(zeros(40)),
{
    new_context()
}

/// Whether the chain has a readable clock.
pub fn clock_is_readable(ctx: &TestContext) -> (r: bool)
    ensures
        r == has_clock(*ctx),
{
    match account_data(ctx, &CLOCK_SYSVAR_ID) {
        Some(data) => data.len() >= 40,
        None => false,
    }
}

/// The time on the chain's clock.
pub fn scout_now(ctx: &TestContext) -> (r: u64)
    requires
        has_clock(*ctx),
    ensures
        r == now_of(*ctx),
{
    let clock = get_clock(ctx);
    proof {
        lemma_clock_fields(clock);
        assert(clock_data(*ctx).subrange(32, 40) =~= clock_bytes(clock).subrange(32, 40));
    }
    to_word(clock.unix_timestamp)
}

/// Sets the time on the chain's clock and leaves the rest of the clock alone.
pub fn scout_set_time(ctx: &mut TestContext, unix_timestamp: i64)
    requires
        has_clock(*old(ctx)),
    ensures
        has_clock(*final(ctx)),
        now_of(*final(ctx)) == word_of(unix_timestamp),
        slot_of(*final(ctx)) == slot_of(*old(ctx)),
        context_accounts(*final(ctx)) == with_clock(
            context_accounts(*old(ctx)),
            clock_at_time(clock_data(*old(ctx)), unix_timestamp),
        ),
{
    let mut clock = get_clock(ctx);
    let ghost before = clock;
    clock.unix_timestamp = unix_timestamp;
    set_clock(ctx, &clock);
    proof {
        lemma_clock_fields(before);
        lemma_clock_fields(clock);
        let old_data = clock_data(*old(ctx));
        assert(old_data.subrange(0, 32) =~= old_data.subrange(0, 40).subrange(0, 32));
        assert(clock_bytes(before).subrange(0, 32) =~= clock_bytes(clock).subrange(0, 32));
        assert(clock_bytes(clock) =~= clock_bytes(clock).subrange(0, 32) + clock_bytes(
            clock,
        ).subrange(32, 40));
        assert(old_data.subrange(0, 8) =~= old_data.subrange(0, 40).subrange(0, 8));
    }
}

/// Moves the chain's clock on by one slot and leaves the time alone.
pub fn next_slot(ctx: &mut TestContext)
    requires
        has_clock(*old(ctx)),
        slot_of(*old(ctx)) < u64::MAX,
    ensures
        has_clock(*final(ctx)),
        now_of(*final(ctx)) == now_of(*old(ctx)),
        slot_of(*final(ctx)) == slot_of(*old(ctx)) + 1,
        context_accounts(*final(ctx)) == with_clock(
            context_accounts(*old(ctx)),
            clock_at_slot(clock_data(*old(ctx)), (slot_of(*old(ctx)) + 1) as u64),
        ),
{
    add_slots(ctx, 1);
    proof {
        lemma_auto_spec_u64_to_from_le_bytes();
        let old_data = clock_data(*old(ctx));
        let slot = spec_u64_to_le_bytes((slot_of(*old(ctx)) + 1) as u64);
        assert((slot + old_data.subrange(8, 40)).subrange(0, 8) =~= slot);
        assert((slot + old_data.subrange(8, 40)).subrange(32, 40) =~= old_data.subrange(32, 40));
    }
}

/// Whether the slot of the chain's clock can still grow.
pub fn has_next_slot(ctx: &TestContext) -> (r: bool)
    requires
        has_clock(*ctx),
    ensures
        r == (slot_of(*ctx) < u64::MAX),
{
    let clock = get_clock(ctx);
    proof {
        lemma_clock_fields(clock);
        let data = clock_data(*ctx);
        assert(data.subrange(0, 8) =~= data.subrange(0, 40).subrange(0, 8));
    }
    clock.slot < u64::MAX
}

/// Where the fields of the clock stand in its account.
proof fn lemma_clock_fields(clock: Clock)
    ensures
        clock_bytes(clock).len() == 40,
        clock_bytes(clock).subrange(0, 8) == spec_u64_to_le_bytes(clock.slot),
        clock_bytes(clock).subrange(32, 40) == spec_u64_to_le_bytes(word_of(clock.unix_timestamp)),
        spec_u64_from_le_bytes(spec_u64_to_le_bytes(clock.slot)) == clock.slot,
        spec_u64_from_le_bytes(spec_u64_to_le_bytes(word_of(clock.unix_timestamp))) == word_of(
            clock.unix_timestamp,
        ),
{
    lemma_auto_spec_u64_to_from_le_bytes();
    assert(spec_u64_to_le_bytes(clock.slot).len() == 8);
    assert(spec_u64_to_le_bytes(word_of(clock.epoch_start_timestamp)).len() == 8);
    assert(spec_u64_to_le_bytes(clock.epoch).len() == 8);
    assert(spec_u64_to_le_bytes(clock.leader_schedule_epoch).len() == 8);
    assert(spec_u64_to_le_bytes(word_of(clock.unix_timestamp)).len() == 8);
    assert(clock_bytes(clock).subrange(0, 8) =~= spec_u64_to_le_bytes(clock.slot));
    assert(clock_bytes(clock).subrange(32, 40) =~= spec_u64_to_le_bytes(
        word_of(clock.unix_timestamp),
    ));
}

/// The rent-exempt minimum of an account with `len` bytes of data.
pub fn rent_exempt_lamports(len: usize) -> (r: u64)
    requires
        rent_exempt_minimum(len as nat) <= u64::MAX,
    ensures
        r == rent_exempt_minimum(len as nat),
        r > 0,
{
    (len as u64 + 128) * 6_960
}

} // verus!
