//! What holds of the building of a world: what it makes, in which order, and who holds what.

use crucible_test_context::TestContext;
use vstd::bytes::{
    lemma_auto_spec_u16_to_from_le_bytes, lemma_auto_spec_u64_to_from_le_bytes,
    spec_u16_to_le_bytes, spec_u64_to_le_bytes,
};
use vstd::prelude::*;

use crate::context::{
    context_accounts, is_sysvar, now_of, rent_exempt_minimum, spl_mint, StoredAccount,
};
use crate::fixture::OnreappFixture;
use crate::instruction::{Call, Record};
use crate::keys::{
    ata, pda, Pubkey, DEFAULT_PUBKEY, SEED_MINT_AUTHORITY, SEED_OFFER, SEED_OFFER_VAULT_AUTHORITY,
    SEED_PERMISSIONLESS_AUTHORITY, SEED_REDEMPTION_OFFER, SEED_REDEMPTION_OFFER_VAULT_AUTHORITY,
    SEED_STATE, SPL_TOKEN_2022_ID, SPL_TOKEN_ID,
};
use crate::laws::mints_differ;
use crate::plan_laws::signed_alone;
use crate::scenarios::Dispatch;
use crate::setup::{
    joined, ordinary, step_account, step_address, step_failure, Keys, Outcome, Step,
};
use crate::text::decimal;
use crate::token::created;

verus! {

/// The call that a step sends, where it sends one.
pub open spec fn call_of(step: Option<Step>) -> Option<Call> {
    match step {
        Some(Step::Send(dispatch)) => Some(dispatch.plan.call),
        _ => None,
    }
}

/// The pair of mints of the offer that a step makes, where it makes one.
pub open spec fn made_pair(step: Option<Step>) -> Option<(Pubkey, Pubkey)> {
    match call_of(step) {
        Some(Call::MakeOffer { accounts, .. }) => Some(
            (accounts.token_in_mint, accounts.token_out_mint),
        ),
        _ => None,
    }
}

/// The offer that a step prices, where it prices one.
pub open spec fn priced_offer(step: Option<Step>) -> Option<Pubkey> {
    match call_of(step) {
        Some(Call::AddOfferVector { accounts, .. }) => Some(accounts.offer),
        _ => None,
    }
}

/// The offer that a step makes, where it makes one.
pub open spec fn made_offer(step: Option<Step>) -> Option<Pubkey> {
    match call_of(step) {
        Some(Call::MakeOffer { accounts, .. }) => Some(accounts.offer),
        _ => None,
    }
}

/// The pair of mints of the redemption offer that a step makes, where it makes one.
pub open spec fn made_redemption_pair(step: Option<Step>) -> Option<(Pubkey, Pubkey)> {
    match call_of(step) {
        Some(Call::MakeRedemptionOffer { accounts, .. }) => Some(
            (accounts.token_in_mint, accounts.token_out_mint),
        ),
        _ => None,
    }
}

/// Everything that building a world sends can be accepted, is signed by the boss alone and is not
/// noted: what building makes is in the registries from the start.
pub proof fn law_building_can_be_accepted(f: OnreappFixture, i: int)
    requires
        f.wf(),
        0 <= i < 36,
    ensures
        f.setup_script().len() == 36,
        f.setup_script()[i] matches Some(Step::Send(send)) ==> f.serves(Some(send.plan))
            && send.plan.is_sound() && signed_alone(send.plan, f.boss) && send.plan.record
            == Record::Nothing,
{
}

/// Every offer of the world is made at a fee of 1%. The one from the mint of the approvals needs an
/// approval, the main one is open to the middleman, and no other offer is either.
pub proof fn law_only_the_approval_offer_needs_an_approval(f: OnreappFixture, i: int)
    requires
        mints_differ(f),
        0 <= i < 36,
    ensures
        call_of(f.setup_script()[i]) matches Some(
            Call::MakeOffer { fee_basis_points, needs_approval, allow_permissionless, accounts },
        ) ==> {
            let token_in = accounts.token_in_mint;
            let token_out = accounts.token_out_mint;
            &&& fee_basis_points == 100
            &&& needs_approval <==> token_in == f.mint_appr && token_out == f.mint_onyc
            &&& allow_permissionless <==> token_in == f.mint_usdc && token_out == f.mint_onyc
            &&& needs_approval ==> accounts.offer == f.offer_appr_pda
            &&& allow_permissionless ==> accounts.offer == f.offer_pda
            &&& token_in == f.mint_onyc ==> accounts.offer == f.offer_rev_pda
            &&& token_out == f.mint_fee ==> accounts.offer == f.offer_fee_pda
        },
{
}

/// Whether no two offers of the world share an address.
pub open spec fn offers_differ(f: OnreappFixture) -> bool {
    &&& f.offer_pda != f.offer_appr_pda
    &&& f.offer_pda != f.offer_rev_pda
    &&& f.offer_pda != f.offer_fee_pda
    &&& f.offer_appr_pda != f.offer_rev_pda
    &&& f.offer_appr_pda != f.offer_fee_pda
    &&& f.offer_rev_pda != f.offer_fee_pda
}

/// Told apart by their addresses, the offer of the approvals is the one that needs an approval and
/// is not open to the middleman; the main offer is open to it and needs none; the others neither
/// need one nor are open.
pub proof fn law_offers_keep_their_needs(f: OnreappFixture, i: int)
    requires
        offers_differ(f),
        0 <= i < 36,
    ensures
        call_of(f.setup_script()[i]) matches Some(
            Call::MakeOffer { needs_approval, allow_permissionless, accounts, .. },
        ) ==> {
            &&& needs_approval <==> accounts.offer == f.offer_appr_pda
            &&& allow_permissionless <==> accounts.offer == f.offer_pda
        },
{
}

/// Four offers are made, each once: usdc to ONyc, the mint of the approvals to ONyc, ONyc to usdc
/// and usdc to the transfer-fee mint. Three redemption offers are made, each once, each at half a
/// percent and each after the offer that it inverts: ONyc to usdc, usdc to ONyc and the
/// transfer-fee mint to usdc. Which steps they are is the same in every world.
pub proof fn law_every_offer_is_made_once(f: OnreappFixture, i: int)
    requires
        f.wf(),
        forall|j: int| 0 <= j < 36 ==> (#[trigger] f.setup_script()[j]) is Some,
        0 <= i < 36,
    ensures
        made_pair(f.setup_script()[17]) == Some((f.mint_usdc, f.mint_onyc)),
        made_pair(f.setup_script()[24]) == Some((f.mint_appr, f.mint_onyc)),
        made_pair(f.setup_script()[27]) == Some((f.mint_onyc, f.mint_usdc)),
        made_pair(f.setup_script()[34]) == Some((f.mint_usdc, f.mint_fee)),
        made_pair(f.setup_script()[i]) is Some <==> i == 17 || i == 24 || i == 27 || i == 34,
        made_redemption_pair(f.setup_script()[26]) == Some((f.mint_onyc, f.mint_usdc)),
        made_redemption_pair(f.setup_script()[29]) == Some((f.mint_usdc, f.mint_onyc)),
        made_redemption_pair(f.setup_script()[35]) == Some((f.mint_fee, f.mint_usdc)),
        made_redemption_pair(f.setup_script()[i]) is Some <==> i == 26 || i == 29 || i == 35,
        call_of(f.setup_script()[i]) matches Some(
            Call::MakeRedemptionOffer { fee_basis_points, accounts: a },
        ) ==> {
            &&& fee_basis_points == 50
            &&& a.signer == f.boss.public()
            &&& a.token_in_program == (if a.token_in_mint == f.mint_fee && i == 35 {
                SPL_TOKEN_2022_ID
            } else {
                SPL_TOKEN_ID
            })
            &&& a.token_out_program == SPL_TOKEN_ID
            &&& i == 26 ==> made_offer(f.setup_script()[17]) == Some(a.offer)
            &&& i == 29 ==> made_offer(f.setup_script()[27]) == Some(a.offer)
            &&& i == 35 ==> made_offer(f.setup_script()[34]) == Some(a.offer)
        },
{
    let script = f.setup_script();
    assert(script[17] is Some);
    assert(script[24] is Some);
    assert(script[27] is Some);
    assert(script[34] is Some);
    assert(script[26] is Some);
    assert(script[29] is Some);
    assert(script[35] is Some);
}

/// Every offer but the one that only backs the transfer-fee redemptions is priced right after it is
/// made, from now on: at 1.0, at 5% a year, fixed for an hour at a time.
pub proof fn law_offers_are_priced_once_made(f: OnreappFixture, i: int)
    requires
        0 <= i < 36,
    ensures
        priced_offer(f.setup_script()[i]) is Some <==> i == 18 || i == 25 || i == 28,
        priced_offer(f.setup_script()[18]) == Some(f.offer_pda),
        priced_offer(f.setup_script()[25]) == Some(f.offer_appr_pda),
        priced_offer(f.setup_script()[28]) == Some(f.offer_rev_pda),
        made_offer(f.setup_script()[17]) is Some ==> made_offer(f.setup_script()[17])
            == priced_offer(f.setup_script()[18]),
        made_offer(f.setup_script()[24]) is Some ==> made_offer(f.setup_script()[24])
            == priced_offer(f.setup_script()[25]),
        made_offer(f.setup_script()[27]) is Some ==> made_offer(f.setup_script()[27])
            == priced_offer(f.setup_script()[28]),
        call_of(f.setup_script()[i]) matches Some(Call::AddOfferVector { vector, .. }) ==> {
            &&& vector.start_time is None
            &&& vector.base_time == now_of(f.ctx)
            &&& vector.base_price == 1_000_000_000
            &&& vector.apr == 5_000_000
            &&& vector.price_fix_duration == 3_600
        },
{
}

/// Building starts with the state: it is initialized for ONyc, gets its redemption admin and its
/// approver, and only then takes over the authority over ONyc. No other step touches the state.
pub proof fn law_building_starts_with_the_state(f: OnreappFixture, i: int)
    requires
        f.setup_script()[0] is Some,
        0 <= i < 36,
    ensures
        call_of(f.setup_script()[0]) matches Some(Call::Initialize { accounts })
            && accounts.onyc_mint == f.mint_onyc,
        call_of(f.setup_script()[1]) matches Some(
            Call::SetRedemptionAdmin { new_redemption_admin, .. },
        ) && new_redemption_admin == f.redemption_admin.public(),
        call_of(f.setup_script()[2]) matches Some(Call::AddApprover { approver, .. }) && approver
            == f.approver.public(),
        call_of(f.setup_script()[3]) matches Some(
            Call::TransferMintAuthorityToProgram { accounts },
        ) && accounts.mint == f.mint_onyc,
        i > 3 ==> {
            &&& !(call_of(f.setup_script()[i]) matches Some(Call::Initialize { .. }))
            &&& !(call_of(f.setup_script()[i]) matches Some(Call::SetRedemptionAdmin { .. }))
            &&& !(call_of(f.setup_script()[i]) matches Some(Call::AddApprover { .. }))
            &&& !(call_of(f.setup_script()[i]) matches Some(
                Call::TransferMintAuthorityToProgram { .. },
            ))
        },
{
}

/// Whether a step puts a token account of the SPL token program with the given balance.
pub open spec fn gives(step: Option<Step>, to: Pubkey, of: Pubkey, what: int) -> bool {
    step matches Some(Step::TokenAccount { owner, mint, amount }) && owner == to && mint == of
        && amount == what
}

/// Whether a step puts a token account of the Token-2022 program with the given balance.
pub open spec fn gives_fee(step: Option<Step>, to: Pubkey, of: Pubkey, what: int) -> bool {
    step matches Some(Step::FeeTokenAccount { owner, mint, amount }) && owner == to && mint == of
        && amount == what
}

/// Who holds what at the start: each user a million usdc, a hundred ONyc and a million of the mint
/// of the approvals and of the transfer-fee mint; the redemption vault a million usdc; and the
/// boss, the vaults and the middleman an empty account of each mint that they trade. The mints of
/// the approvals and of the transfer fee are put before anyone holds them.
pub proof fn law_starting_balances(f: OnreappFixture)
    requires
        f.boss.public() != f.user_a.public(),
        f.boss.public() != f.user_b.public(),
        f.offer_vault_authority != f.user_a.public(),
        f.offer_vault_authority != f.user_b.public(),
    ensures
        ({
            let s = f.setup_script();
            let boss = f.boss.public();
            let a = f.user_a.public();
            let b = f.user_b.public();
            &&& gives(s[4], boss, f.mint_usdc, 0)
            &&& gives(s[5], boss, f.mint_onyc, 0)
            &&& gives(s[6], boss, f.mint_play, 0)
            &&& gives(s[7], a, f.mint_usdc, 1_000_000_000_000)
            &&& gives(s[8], a, f.mint_onyc, 100_000_000_000)
            &&& gives(s[9], b, f.mint_usdc, 1_000_000_000_000)
            &&& gives(s[10], b, f.mint_onyc, 100_000_000_000)
            &&& gives(s[11], f.offer_vault_authority, f.mint_usdc, 0)
            &&& gives(s[12], f.offer_vault_authority, f.mint_onyc, 0)
            &&& gives(s[13], f.redemption_vault_authority, f.mint_usdc, 1_000_000_000_000)
            &&& gives(s[14], f.redemption_vault_authority, f.mint_onyc, 0)
            &&& gives(s[15], f.permissionless_authority, f.mint_usdc, 0)
            &&& gives(s[16], f.permissionless_authority, f.mint_onyc, 0)
            &&& s[19] matches Some(Step::Mint { address, decimals, supply }) && address
                == f.mint_appr && decimals == 6 && supply == 2_000_000_000_000
            &&& gives(s[20], a, f.mint_appr, 1_000_000_000_000)
            &&& gives(s[21], b, f.mint_appr, 1_000_000_000_000)
            &&& gives(s[22], boss, f.mint_appr, 0)
            &&& gives(s[23], f.offer_vault_authority, f.mint_appr, 0)
            &&& s[30] matches Some(Step::FeeMint { address, decimals, supply, fee_basis_points })
                && address == f.mint_fee && decimals == 6 && supply == 2_000_000_000_000
                && fee_basis_points == 100
            &&& gives_fee(s[31], a, f.mint_fee, 1_000_000_000_000)
            &&& gives_fee(s[32], b, f.mint_fee, 1_000_000_000_000)
            &&& gives_fee(s[33], boss, f.mint_fee, 0)
        }),
{
}

/// A step has a label that says what it is for: the call, and the pair of mints it is for.
pub proof fn law_steps_are_labelled(f: OnreappFixture)
    requires
        forall|j: int| 0 <= j < 36 ==> (#[trigger] f.setup_script()[j]) is Some,
    ensures
        ({
            let label = |i: int| f.setup_script()[i]->0->Send_0.label@;
            &&& label(0) == "initialize"@
            &&& label(1) == "set_redemption_admin"@
            &&& label(2) == "add_approver"@
            &&& label(3) == "transfer_mint_authority_to_program(onyc)"@
            &&& label(17) == "make_offer(usdc->onyc)"@
            &&& label(18) == "add_offer_vector(usdc->onyc)"@
            &&& label(24) == "make_offer(appr->onyc, needs_approval)"@
            &&& label(25) == "add_offer_vector(appr->onyc)"@
            &&& label(26) == "make_redemption_offer(onyc->usdc)"@
            &&& label(27) == "make_offer(onyc->usdc)"@
            &&& label(28) == "add_offer_vector(onyc->usdc)"@
            &&& label(29) == "make_redemption_offer(usdc->onyc)"@
            &&& label(34) == "make_offer(usdc->fee)"@
            &&& label(35) == "make_redemption_offer(fee->usdc)"@
        }),
{
    let s = f.setup_script();
    assert(s[0] is Some && s[1] is Some && s[2] is Some && s[17] is Some && s[24] is Some);
    assert(s[26] is Some && s[27] is Some && s[29] is Some && s[34] is Some && s[35] is Some);
}

/// A new world has noted nothing but its offers: its registries of requests are empty.
pub proof fn law_new_registries_of_requests_are_empty(f: OnreappFixture, i: int)
    ensures
        ({
            let r = f.first_registries();
            &&& r.p2.next == 0 && r.p3.next == 0 && r.p7.next == 0 && r.p8.next == 0
            &&& r.p2.slots.len() == 32 && r.p3.slots.len() == 32 && r.p8.slots.len() == 32
            &&& r.p5.slots.len() == 16 && r.p7.slots.len() == 48
            &&& 0 <= i < 32 ==> r.p2.slots[i] == DEFAULT_PUBKEY && r.p3.slots[i] == DEFAULT_PUBKEY
                && r.p8.slots[i] == DEFAULT_PUBKEY
            &&& 0 <= i < 48 ==> r.p7.slots[i] == DEFAULT_PUBKEY
        }),
{
}

/// The account of an actor at the start: a thousand SOL, no data, owned by the system program.
pub open spec fn is_funded(account: StoredAccount) -> bool {
    account.lamports == 1_000_000_000_000 && account.data.len() == 0 && account.owner
        == DEFAULT_PUBKEY@
}

/// What a world is started with: every actor is funded, the three first mints are there with the
/// supplies that are handed out of them, and no other account changes.
pub proof fn law_world_starts_with_actors_and_mints(
    keys: Keys,
    accounts: Map<Seq<u8>, StoredAccount>,
    other: Seq<u8>,
)
    requires
        keys.mint_usdc@ != keys.mint_onyc@,
        keys.mint_usdc@ != keys.mint_play@,
        keys.mint_onyc@ != keys.mint_play@,
        forall|mint: Seq<u8>|
            mint == keys.mint_usdc@ || mint == keys.mint_onyc@ || mint == keys.mint_play@ ==> {
                &&& #[trigger] mint.len() >= 0
                &&& mint != keys.payer.public()@
                &&& mint != keys.user_a.public()@
                &&& mint != keys.user_b.public()@
                &&& mint != keys.redemption_admin.public()@
                &&& mint != keys.approver.public()@
            },
    ensures
        ({
            let after = keys.opened(accounts);
            &&& after.dom().contains(keys.payer.public()@) && is_funded(
                after[keys.payer.public()@],
            )
            &&& after.dom().contains(keys.user_a.public()@) && is_funded(
                after[keys.user_a.public()@],
            )
            &&& after.dom().contains(keys.user_b.public()@) && is_funded(
                after[keys.user_b.public()@],
            )
            &&& after.dom().contains(keys.redemption_admin.public()@) && is_funded(
                after[keys.redemption_admin.public()@],
            )
            &&& after.dom().contains(keys.approver.public()@) && is_funded(
                after[keys.approver.public()@],
            )
            &&& after[keys.mint_usdc@] == spl_mint(
                keys.payer.public(),
                3_000_000_000_000,
                6,
            )
            &&& after[keys.mint_onyc@] == spl_mint(
                keys.payer.public(),
                200_000_000_000,
                9,
            )
            &&& after[keys.mint_play@] == spl_mint(keys.payer.public(), 0, 6)
            &&& after.dom().contains(keys.mint_usdc@) && after.dom().contains(keys.mint_onyc@)
                && after.dom().contains(keys.mint_play@)
            &&& other != keys.payer.public()@ && other != keys.user_a.public()@ && other
                != keys.user_b.public()@ && other != keys.redemption_admin.public()@ && other
                != keys.approver.public()@ && other != keys.mint_usdc@ && other != keys.mint_onyc@
                && other != keys.mint_play@ ==> {
                &&& after.dom().contains(other) == accounts.dom().contains(other)
                &&& accounts.dom().contains(other) ==> after[other] == accounts[other]
            }
        }),
{
    assert(keys.mint_usdc@.len() >= 0);
    assert(keys.mint_onyc@.len() >= 0);
    assert(keys.mint_play@.len() >= 0);
}

// ---- what a step puts ----

/// Where a step puts an account: a mint at its own address, a token account at the associated one
/// of its owner and its mint under the token program that it belongs to, and a transaction nowhere.
/// Nothing is put at the default address, nor an SPL token account of a default owner or mint.
pub proof fn law_steps_put_accounts_at_their_addresses(
    dispatch: Dispatch,
    address: Pubkey,
    owner: Pubkey,
    mint: Pubkey,
    decimals: u8,
    amount: u64,
    fee_basis_points: u16,
)
    ensures
        step_address(Step::Send(dispatch)) is None,
        address != DEFAULT_PUBKEY ==> {
            &&& step_address(Step::Mint { address, decimals, supply: amount }) == Some(address)
            &&& step_address(
                Step::FeeMint { address, decimals, supply: amount, fee_basis_points },
            ) == Some(address)
        },
        step_address(Step::Mint { address: DEFAULT_PUBKEY, decimals, supply: amount }) is None,
        step_address(
            Step::FeeMint { address: DEFAULT_PUBKEY, decimals, supply: amount, fee_basis_points },
        ) is None,
        ({
            let put = step_address(Step::TokenAccount { owner, mint, amount });
            let named = owner != DEFAULT_PUBKEY && mint != DEFAULT_PUBKEY;
            &&& put is Some ==> put == ata(owner, mint, SPL_TOKEN_ID)
            &&& put is Some <==> named && (ata(owner, mint, SPL_TOKEN_ID) matches Some(key) && key
                != DEFAULT_PUBKEY)
        }),
        ({
            let put = step_address(Step::FeeTokenAccount { owner, mint, amount });
            &&& put is Some ==> put == ata(owner, mint, SPL_TOKEN_2022_ID)
            &&& put is Some <==> (ata(owner, mint, SPL_TOKEN_2022_ID) matches Some(key) && key
                != DEFAULT_PUBKEY)
        }),
{
}

/// A mint that a step puts: under the boss's authority, initialized, with the supply and the
/// decimals asked for, rent-exempt, and owned by the SPL token program.
pub proof fn law_put_mint_is_what_was_asked(
    address: Pubkey,
    decimals: u8,
    supply: u64,
    boss: Pubkey,
)
    ensures
        ({
            let account = step_account(Step::Mint { address, decimals, supply }, boss);
            &&& account.data.len() == 82
            &&& account.data.subrange(0, 4) == seq![1u8, 0, 0, 0]
            &&& account.data.subrange(4, 36) == boss@
            &&& account.data.subrange(36, 44) == spec_u64_to_le_bytes(supply)
            &&& account.data[44] == decimals
            &&& account.data[45] == 1
            &&& account.owner == SPL_TOKEN_ID@
            &&& account.lamports == 1_461_600
        }),
{
    lemma_auto_spec_u64_to_from_le_bytes();
    let data = step_account(Step::Mint { address, decimals, supply }, boss).data;
    assert(data.len() == 82);
    assert(data.subrange(0, 4) =~= seq![1u8, 0, 0, 0]);
    assert(data.subrange(4, 36) =~= boss@);
    assert(data.subrange(36, 44) =~= spec_u64_to_le_bytes(supply));
}

/// A token account that a step puts: of the mint and the owner asked for, with the balance asked
/// for, initialized, with no delegate, rent-exempt, and owned by the SPL token program.
pub proof fn law_put_token_account_is_what_was_asked(
    owner: Pubkey,
    mint: Pubkey,
    amount: u64,
    boss: Pubkey,
)
    ensures
        ({
            let account = step_account(Step::TokenAccount { owner, mint, amount }, boss);
            &&& account.data.len() == 165
            &&& account.data.subrange(0, 32) == mint@
            &&& account.data.subrange(32, 64) == owner@
            &&& account.data.subrange(64, 72) == spec_u64_to_le_bytes(amount)
            &&& account.data.subrange(72, 108) == Seq::new(36, |i: int| 0u8)
            &&& account.data[108] == 1
            &&& account.owner == SPL_TOKEN_ID@
            &&& account.lamports == 2_039_280
        }),
{
    lemma_auto_spec_u64_to_from_le_bytes();
    let data = step_account(Step::TokenAccount { owner, mint, amount }, boss).data;
    assert(data.len() == 165);
    assert(data.subrange(0, 32) =~= mint@);
    assert(data.subrange(32, 64) =~= owner@);
    assert(data.subrange(64, 72) =~= spec_u64_to_le_bytes(amount));
    assert(data.subrange(72, 108) =~= Seq::new(36, |i: int| 0u8));
}

/// A mint with a transfer fee that a step puts: as another mint, with the fee asked for from the
/// first epoch on and without a ceiling, in both of its slots, owned by the Token-2022 program.
pub proof fn law_put_fee_mint_is_what_was_asked(
    address: Pubkey,
    decimals: u8,
    supply: u64,
    fee_basis_points: u16,
    boss: Pubkey,
)
    ensures
        ({
            let account = step_account(
                Step::FeeMint { address, decimals, supply, fee_basis_points },
                boss,
            );
            let fee = spec_u64_to_le_bytes(0) + spec_u64_to_le_bytes(u64::MAX)
                + spec_u16_to_le_bytes(fee_basis_points);
            &&& account.data.len() == 278
            &&& account.data.subrange(4, 36) == boss@
            &&& account.data.subrange(36, 44) == spec_u64_to_le_bytes(supply)
            &&& account.data[44] == decimals
            &&& account.data[45] == 1
            &&& account.data[165] == 1
            &&& account.data.subrange(166, 168) == spec_u16_to_le_bytes(1)
            &&& account.data.subrange(168, 170) == spec_u16_to_le_bytes(108)
            &&& account.data.subrange(242, 260) == fee
            &&& account.data.subrange(260, 278) == fee
            &&& account.owner == SPL_TOKEN_2022_ID@
            &&& account.lamports == 2_825_760
        }),
{
    lemma_auto_spec_u64_to_from_le_bytes();
    lemma_auto_spec_u16_to_from_le_bytes();
    let step = Step::FeeMint { address, decimals, supply, fee_basis_points };
    let data = step_account(step, boss).data;
    let fee = spec_u64_to_le_bytes(0) + spec_u64_to_le_bytes(u64::MAX) + spec_u16_to_le_bytes(
        fee_basis_points,
    );
    assert(data.len() == 278);
    assert(data.subrange(4, 36) =~= boss@);
    assert(data.subrange(36, 44) =~= spec_u64_to_le_bytes(supply));
    assert(data.subrange(166, 168) =~= spec_u16_to_le_bytes(1));
    assert(data.subrange(168, 170) =~= spec_u16_to_le_bytes(108));
    assert(data.subrange(242, 260) =~= fee);
    assert(data.subrange(260, 278) =~= fee);
}

/// A token account of such a mint that a step puts: as another token account, with nothing
/// withheld, owned by the Token-2022 program.
pub proof fn law_put_fee_account_is_what_was_asked(
    owner: Pubkey,
    mint: Pubkey,
    amount: u64,
    boss: Pubkey,
)
    ensures
        ({
            let account = step_account(Step::FeeTokenAccount { owner, mint, amount }, boss);
            &&& account.data.len() == 178
            &&& account.data.subrange(0, 32) == mint@
            &&& account.data.subrange(32, 64) == owner@
            &&& account.data.subrange(64, 72) == spec_u64_to_le_bytes(amount)
            &&& account.data[108] == 1
            &&& account.data[165] == 2
            &&& account.data.subrange(166, 168) == spec_u16_to_le_bytes(2)
            &&& account.data.subrange(168, 170) == spec_u16_to_le_bytes(8)
            &&& account.data.subrange(170, 178) == Seq::new(8, |i: int| 0u8)
            &&& account.owner == SPL_TOKEN_2022_ID@
            &&& account.lamports == 2_129_760
        }),
{
    lemma_auto_spec_u64_to_from_le_bytes();
    lemma_auto_spec_u16_to_from_le_bytes();
    let data = step_account(Step::FeeTokenAccount { owner, mint, amount }, boss).data;
    assert(data.len() == 178);
    assert(data.subrange(0, 32) =~= mint@);
    assert(data.subrange(32, 64) =~= owner@);
    assert(data.subrange(64, 72) =~= spec_u64_to_le_bytes(amount));
    assert(data.subrange(166, 168) =~= spec_u16_to_le_bytes(2));
    assert(data.subrange(168, 170) =~= spec_u16_to_le_bytes(8));
    assert(data.subrange(170, 178) =~= Seq::new(8, |i: int| 0u8));
}

/// The rent-exempt minimum is 890,880 lamports for an account without data, and 6,960 more for
/// every byte.
pub proof fn law_rent_grows_by_the_byte(len: nat)
    ensures
        rent_exempt_minimum(0) == 890_880,
        rent_exempt_minimum(len + 1) == rent_exempt_minimum(len) + 6_960,
{
}

/// Creating an account puts it at its address and leaves every other one as it was. Without an
/// address nothing changes.
pub proof fn law_creating_touches_one_account(
    before: TestContext,
    after: TestContext,
    key: Pubkey,
    account: StoredAccount,
    other: Seq<u8>,
)
    ensures
        created(before, after, None, account) ==> context_accounts(after) == context_accounts(
            before,
        ),
        created(before, after, Some(key), account) && ordinary(key) ==> {
            &&& context_accounts(after).dom().contains(key@)
            &&& context_accounts(after)[key@] == account
            &&& other != key@ ==> context_accounts(after).dom().contains(other)
                == context_accounts(before).dom().contains(other)
            &&& other != key@ && context_accounts(before).dom().contains(other)
                ==> context_accounts(after)[other] == context_accounts(before)[other]
        },
        created(before, after, Some(key), account) && other != key@ ==> context_accounts(
            after,
        ).dom().contains(other) == context_accounts(before).dom().contains(other),
{
}

// ---- what a world is built from ----

/// A world has the program, the actors and the mints that it was built from; whoever pays is the
/// boss.
pub proof fn law_world_is_built_from_its_keys(
    f: OnreappFixture,
    program_id: Pubkey,
    keys: Keys,
    admin_actions: bool,
)
    requires
        f.built_from(program_id, keys, admin_actions),
    ensures
        f.program_id == program_id,
        f.payer == keys.payer && f.boss == keys.payer,
        f.user_a == keys.user_a && f.user_b == keys.user_b,
        f.redemption_admin == keys.redemption_admin && f.approver == keys.approver,
        f.mint_usdc == keys.mint_usdc && f.mint_onyc == keys.mint_onyc,
        f.mint_play == keys.mint_play && f.mint_appr == keys.mint_appr,
        f.mint_fee == keys.mint_fee,
        f.admin_actions == admin_actions,
        f.wf() ==> keys.derivable(program_id),
{
}

/// A world can be derived from its keys exactly where the program derives each of its authorities,
/// offers and redemption offers, and both of its redemption vaults have an associated address.
pub proof fn law_derivable_means_every_address(keys: Keys, program_id: Pubkey, vault: Pubkey)
    requires
        pda(seq![SEED_REDEMPTION_OFFER_VAULT_AUTHORITY@], program_id) == Some(vault),
    ensures
        keys.derivable(program_id) <==> {
            &&& pda(seq![SEED_STATE@], program_id) is Some
            &&& pda(seq![SEED_MINT_AUTHORITY@], program_id) is Some
            &&& pda(seq![SEED_OFFER_VAULT_AUTHORITY@], program_id) is Some
            &&& pda(seq![SEED_PERMISSIONLESS_AUTHORITY@], program_id) is Some
            &&& has_offer(program_id, keys.mint_usdc, keys.mint_onyc)
            &&& has_offer(program_id, keys.mint_onyc, keys.mint_usdc)
            &&& has_offer(program_id, keys.mint_appr, keys.mint_onyc)
            &&& has_offer(program_id, keys.mint_usdc, keys.mint_fee)
            &&& has_redemption_offer(program_id, keys.mint_onyc, keys.mint_usdc)
            &&& has_redemption_offer(program_id, keys.mint_usdc, keys.mint_onyc)
            &&& has_redemption_offer(program_id, keys.mint_fee, keys.mint_usdc)
            &&& ata(vault, keys.mint_onyc, SPL_TOKEN_ID) is Some
            &&& ata(vault, keys.mint_fee, SPL_TOKEN_2022_ID) is Some
        },
{
}

/// Whether the program derives an offer from one mint to another.
pub open spec fn has_offer(program_id: Pubkey, token_in: Pubkey, token_out: Pubkey) -> bool {
    pda(seq![SEED_OFFER@, token_in@, token_out@], program_id) is Some
}

/// Whether the program derives a redemption offer from one mint to another.
pub open spec fn has_redemption_offer(
    program_id: Pubkey,
    token_in: Pubkey,
    token_out: Pubkey,
) -> bool {
    pda(seq![SEED_REDEMPTION_OFFER@, token_in@, token_out@], program_id) is Some
}

/// The keys of a world are real exactly where no account of its start would stand at the default
/// address, and ordinary where none would stand at that of a system variable either.
pub proof fn law_real_keys_are_no_default(keys: Keys)
    ensures
        keys.are_real() <==> {
            &&& keys.payer.public() != DEFAULT_PUBKEY
            &&& keys.user_a.public() != DEFAULT_PUBKEY
            &&& keys.user_b.public() != DEFAULT_PUBKEY
            &&& keys.redemption_admin.public() != DEFAULT_PUBKEY
            &&& keys.approver.public() != DEFAULT_PUBKEY
            &&& keys.mint_usdc != DEFAULT_PUBKEY
            &&& keys.mint_onyc != DEFAULT_PUBKEY
            &&& keys.mint_play != DEFAULT_PUBKEY
        },
        keys.are_ordinary() ==> keys.are_real(),
        keys.are_real() && !is_sysvar(keys.payer.public()) && !is_sysvar(keys.user_a.public())
            && !is_sysvar(keys.user_b.public()) && !is_sysvar(keys.redemption_admin.public())
            && !is_sysvar(keys.approver.public()) && !is_sysvar(keys.mint_usdc) && !is_sysvar(
            keys.mint_onyc,
        ) && !is_sysvar(keys.mint_play) ==> keys.are_ordinary(),
{
}

// ---- failures ----

/// The text between the first `count` lines of a log: a line break between any two, none around.
pub proof fn law_lines_are_joined_by_breaks(lines: Seq<String>, count: nat)
    ensures
        joined(lines, 0).len() == 0,
        joined(lines, 1) == lines[0]@,
        count >= 1 ==> joined(lines, count + 1) == joined(lines, count) + seq!['\n']
            + lines[count as int]@,
{
    reveal_strlit("\n");
    assert("\n"@ =~= seq!['\n']);
    reveal_with_fuel(joined, 2);
}

/// A step fails exactly where its transaction was not processed or did not succeed. The failure
/// names the step, and says the reason or the error code and the log.
pub proof fn law_failed_step_says_why(
    label: Seq<char>,
    success: bool,
    code: u32,
    logs: Vec<String>,
    error: String,
)
    ensures
        step_failure(label, Outcome::Sent { success: true, error_code: Some(code), logs }) is None,
        step_failure(label, Outcome::Sent { success: true, error_code: None, logs }) is None,
        step_failure(label, Outcome::Sent { success: false, error_code: Some(code), logs }) == Some(
            "setup step `"@ + label + "` failed (code "@ + ("Some("@ + decimal(code as nat) + ")"@)
                + ")\nlogs:\n"@ + joined(logs@, logs@.len()),
        ),
        step_failure(label, Outcome::Sent { success: false, error_code: None, logs }) == Some(
            "setup step `"@ + label + "` failed (code "@ + "None"@ + ")\nlogs:\n"@ + joined(
                logs@,
                logs@.len(),
            ),
        ),
        step_failure(label, Outcome::Errored { error }) == Some(
            "setup step `"@ + label + "` errored: "@ + error@,
        ),
{
}

} // verus!
