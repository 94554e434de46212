//! What holds of everything that the actions send: to whom it is addressed, who signs it, with
//! which arguments, and when there is nothing to send.

use vstd::bytes::{
    lemma_auto_spec_u16_to_from_le_bytes, lemma_auto_spec_u64_to_from_le_bytes,
    spec_u16_to_le_bytes, spec_u64_from_le_bytes, spec_u64_to_le_bytes,
};
use vstd::prelude::*;

use crate::context::{data_at, now_of};
use crate::fixture::{open_requests_under, OnreappFixture, OpenRequest};
use crate::instruction::{Call, Plan, Record};
use crate::keys::{
    ata, ed25519_signature, pda, Keypair, Pubkey, BPF_LOADER_UPGRADEABLE_ID, DEFAULT_PUBKEY,
    SEED_OFFER, SEED_REDEMPTION_OFFER, SEED_REDEMPTION_REQUEST, SPL_TOKEN_2022_ID, SPL_TOKEN_ID,
};
use crate::laws::law_open_requests_are_exactly_those_that_exist;
use crate::scenarios::{bootstrap, bounded_amount, request_with_id};

verus! {

/// Whether one key pair alone signs.
pub open spec fn signed_alone(plan: Plan, who: Keypair) -> bool {
    plan.signers.first == who && plan.signers.second is None
}

/// Whether the payer and another key pair sign.
pub open spec fn signed_with_payer(f: OnreappFixture, plan: Plan, who: Keypair) -> bool {
    plan.signers.first == f.payer && plan.signers.second == Some(who)
}

/// Whether the payer alone signs, and a success is not noted.
pub open spec fn plain(f: OnreappFixture, plan: Plan) -> bool {
    signed_alone(plan, f.payer) && plan.record == Record::Nothing
}

// ---- everything that is sent ----

/// Everything that an action of the boss sends can be accepted: in a world in order it names the
/// state, the mint authority, the vault authorities and the offers that the program derives, no
/// token account but associated ones, and it is signed by whom the program demands.
pub proof fn law_boss_actions_can_be_accepted(
    f: OnreappFixture,
    amount: u64,
    fee: u16,
    flag: bool,
    other: bool,
)
    requires
        f.wf(),
    ensures
        forall|plan: Option<Plan>|
            {
                ||| plan == f.reinitialize_plan()
                ||| plan == f.initialize_permissionless_authority_plan()
                ||| plan == f.offer_vault_deposit_plan(amount)
                ||| plan == f.offer_vault_withdraw_plan(amount)
                ||| plan == f.redemption_vault_deposit_plan(amount)
                ||| plan == f.redemption_vault_withdraw_plan(amount)
                ||| plan == f.make_offer_plan(fee, flag, other)
                ||| plan == f.add_offer_vector_plan(amount, amount, amount, amount)
                ||| plan == f.delete_offer_vector_plan(amount)
                ||| plan == f.delete_all_offer_vectors_plan()
                ||| plan == f.update_offer_fee_plan(fee)
                ||| plan == f.propose_boss_plan()
                ||| plan == f.accept_boss_plan()
                ||| plan == f.add_admin_plan()
                ||| plan == f.remove_admin_plan()
                ||| plan == f.clear_admins_plan()
                ||| plan == f.transfer_mint_authority_to_program_plan()
                ||| plan == f.transfer_mint_authority_to_boss_plan()
                ||| plan == f.set_kill_switch_plan(flag)
                ||| plan == f.set_onyc_mint_plan()
                ||| plan == f.set_redemption_admin_plan()
                ||| plan == f.mint_to_plan(amount)
            } ==> (#[trigger] f.serves(plan)) && (plan is Some ==> plan->0.is_sound()),
{
}

/// So can everything that the remaining plain actions send.
pub proof fn law_plain_actions_can_be_accepted(f: OnreappFixture, amount: u64, fee: u16)
    requires
        f.wf(),
    ensures
        forall|plan: Option<Plan>|
            {
                ||| plan == f.take_offer_plan(amount)
                ||| plan == f.take_offer_permissionless_plan(amount)
                ||| plan == f.get_nav_plan()
                ||| plan == f.get_apy_plan()
                ||| plan == f.get_nav_adjustment_plan()
                ||| plan == f.get_tvl_plan()
                ||| plan == f.get_circulating_supply_plan()
                ||| plan == f.add_approver_plan()
                ||| plan == f.remove_approver_plan()
                ||| plan == f.configure_max_supply_plan(amount)
                ||| plan == f.close_state_plan()
                ||| plan == f.make_redemption_offer_plan(fee)
                ||| plan == f.create_redemption_request_plan(amount)
                ||| plan == f.fulfill_redemption_request_plan()
                ||| plan == f.cancel_redemption_request_plan()
                ||| plan == f.update_redemption_offer_fee_plan(fee)
            } ==> (#[trigger] f.serves(plan)) && (plan is Some ==> plan->0.is_sound()),
{
}

/// So can everything that the scenarios send. A cancellation of a fee request is signed by its
/// redeemer where that is one of the users.
pub proof fn law_scenarios_can_be_accepted(
    f: OnreappFixture,
    amount: u64,
    sel: u8,
    flag: bool,
    delta: i32,
)
    requires
        f.wf(),
    ensures
        forall|plan: Option<Plan>|
            {
                ||| plan == f.price_same_mint_offer_plan(amount)
                ||| plan == f.take_same_mint_offer_plan(amount, sel)
                ||| plan == f.supply_cap_plan(amount)
                ||| plan == f.create_request_play_plan(amount, sel)
                ||| plan == f.create_request_rev_plan(amount, sel)
                ||| plan == f.create_request_fee_plan(amount, sel)
                ||| plan == f.take_fee_offer_plan(amount)
                ||| plan == f.fulfill_rev_plan()
                ||| plan == f.approver_ops_plan(sel, flag)
                ||| plan == f.kill_switch_as_plan(sel, flag)
                ||| plan == f.nomination_plan(sel)
                ||| plan == f.approved_take(amount, delta, sel)
            } ==> (#[trigger] f.serves(plan)) && (plan is Some ==> plan->0.is_sound()),
        f.serves(f.cancel_request_fee_plan(amount)),
        f.cancel_request_fee_plan(amount) matches Some(plan)
            ==> plan.call.names_associated_accounts(),
{
}

// ---- the boss and the state ----

/// The actions that reconfigure the world send nothing unless that is enabled.
pub proof fn law_reconfiguring_is_gated(f: OnreappFixture, cap: u64)
    ensures
        !f.admin_actions ==> {
            &&& f.reinitialize_plan() is None
            &&& f.initialize_permissionless_authority_plan() is None
            &&& f.accept_boss_plan() is None
            &&& f.add_admin_plan() is None
            &&& f.remove_admin_plan() is None
            &&& f.clear_admins_plan() is None
            &&& f.set_redemption_admin_plan() is None
            &&& f.configure_max_supply_plan(cap) is None
        },
        f.admin_actions ==> {
            &&& f.reinitialize_plan() is Some <==> pda(
                seq![f.program_id@],
                BPF_LOADER_UPGRADEABLE_ID,
            ) is Some
            &&& f.initialize_permissionless_authority_plan() is Some
            &&& f.accept_boss_plan() is Some
            &&& f.add_admin_plan() is Some
            &&& f.remove_admin_plan() is Some
            &&& f.clear_admins_plan() is Some
            &&& f.set_redemption_admin_plan() is Some
            &&& f.configure_max_supply_plan(cap) is Some
        },
{
}

/// What is enabled there plays its instruction, by the payer, with the keys of the world: an admin
/// that was added is the one that is removed, and the admin of redemptions stays the same.
pub proof fn law_reconfiguring_plays_its_instructions(f: OnreappFixture, cap: u64)
    requires
        f.admin_actions,
    ensures
        f.reinitialize_plan() matches Some(plan) ==> plain(f, plan) && (plan.call matches
            Call::Initialize { accounts } && accounts.onyc_mint == f.mint_onyc),
        f.initialize_permissionless_authority_plan() matches Some(plan) && plain(f, plan)
            && plan.call is InitializePermissionlessAuthority,
        f.accept_boss_plan() matches Some(plan) && plain(f, plan) && (plan.call matches
            Call::AcceptBoss { accounts } && accounts.new_boss == f.payer.public()),
        f.add_admin_plan() matches Some(plan) && plain(f, plan) && (plan.call matches
            Call::AddAdmin { new_admin, .. } && new_admin == f.user_a.public()),
        f.remove_admin_plan() matches Some(plan) && plain(f, plan) && (plan.call matches
            Call::RemoveAdmin { admin_to_remove, .. } && admin_to_remove == f.user_a.public()),
        f.clear_admins_plan() matches Some(plan) && plain(f, plan) && plan.call is ClearAdmins,
        f.set_redemption_admin_plan() matches Some(plan) && plain(f, plan) && (plan.call matches
            Call::SetRedemptionAdmin { new_redemption_admin, .. } && new_redemption_admin
            == f.redemption_admin.public()),
        f.configure_max_supply_plan(cap) matches Some(plan) && plain(f, plan) && (plan.call matches
            Call::ConfigureMaxSupply { max_supply, .. } && max_supply == cap),
{
}

/// The actions on the state always have something to send, by the payer. The nominee for boss is
/// the boss, an approver that was added is the one that is removed, the switch goes where it is
/// told, and no action repoints ONyc.
pub proof fn law_state_actions_play_their_instructions(f: OnreappFixture, flag: bool)
    ensures
        f.propose_boss_plan() matches Some(plan) && plain(f, plan) && (plan.call matches
            Call::ProposeBoss { new_boss, .. } && new_boss == f.boss.public()),
        f.add_approver_plan() matches Some(plan) && plain(f, plan) && (plan.call matches
            Call::AddApprover { approver, .. } && approver == f.approver.public()),
        f.remove_approver_plan() matches Some(plan) && plain(f, plan) && (plan.call matches
            Call::RemoveApprover { approver, .. } && approver == f.approver.public()),
        f.set_kill_switch_plan(flag) matches Some(plan) && plain(f, plan) && (plan.call matches
            Call::SetKillSwitch { enable, accounts } && enable == flag && accounts.signer
            == f.payer.public()),
        f.set_onyc_mint_plan() matches Some(plan) && plain(f, plan) && (plan.call matches
            Call::SetOnycMint { accounts } && accounts.onyc_mint == f.mint_onyc),
        f.close_state_plan() matches Some(plan) && plain(f, plan) && plan.call is CloseState,
        f.transfer_mint_authority_to_program_plan() matches Some(plan) && plain(f, plan) && (
        plan.call matches Call::TransferMintAuthorityToProgram { accounts } && accounts.mint
            == f.mint_play),
        f.transfer_mint_authority_to_boss_plan() matches Some(plan) && plain(f, plan) && (
        plan.call matches Call::TransferMintAuthorityToBoss { accounts } && accounts.mint
            == f.mint_play),
{
}

/// What one of the boss's actions on ONyc mints is what was asked for; it goes to the boss.
pub proof fn law_minting_plays_its_amount(f: OnreappFixture, asked: u64)
    ensures
        f.mint_to_plan(asked) is Some <==> ata(
            f.boss.public(),
            f.mint_onyc,
            SPL_TOKEN_ID,
        ) is Some,
        f.mint_to_plan(asked) matches Some(plan) ==> plain(f, plan) && (plan.call matches
            Call::MintTo { amount, accounts } && amount == asked && accounts.onyc_mint
            == f.mint_onyc && accounts.boss == f.boss.public()),
{
}

// ---- vaults ----

/// An operation on a vault moves exactly what was asked for. The offer vault is that of usdc; the
/// redemption vault is that of usdc for an even amount and that of ONyc for an odd one. Deposit and
/// withdrawal name the same accounts.
pub proof fn law_vault_operations_play_their_amounts(f: OnreappFixture, asked: u64)
    ensures
        f.offer_vault_deposit_plan(asked) is Some <==> ata(
            f.boss.public(),
            f.mint_usdc,
            SPL_TOKEN_ID,
        ) is Some && ata(f.offer_vault_authority, f.mint_usdc, SPL_TOKEN_ID) is Some,
        f.offer_vault_deposit_plan(asked) matches Some(plan) ==> plain(f, plan) && (
        plan.call matches Call::OfferVaultDeposit { amount, accounts } && amount == asked
            && accounts.token_mint == f.mint_usdc && (f.offer_vault_withdraw_plan(
            asked,
        ) matches Some(back) && plain(f, back) && back.call == (Call::OfferVaultWithdraw {
            amount,
            accounts,
        }))),
        f.offer_vault_deposit_plan(asked) is None ==> f.offer_vault_withdraw_plan(asked) is None,
        ({
            let mint = if asked % 2 == 0 {
                f.mint_usdc
            } else {
                f.mint_onyc
            };
            &&& f.redemption_vault_deposit_plan(asked) is Some <==> ata(
                f.boss.public(),
                mint,
                SPL_TOKEN_ID,
            ) is Some && ata(f.redemption_vault_authority, mint, SPL_TOKEN_ID) is Some
            &&& f.redemption_vault_deposit_plan(asked) matches Some(plan) ==> plain(f, plan) && (
            plan.call matches Call::RedemptionVaultDeposit { amount, accounts } && amount == asked
                && accounts.token_mint == mint && (f.redemption_vault_withdraw_plan(
                asked,
            ) matches Some(back) && plain(f, back) && back.call == (
            Call::RedemptionVaultWithdraw { amount, accounts })))
            &&& f.redemption_vault_deposit_plan(asked) is None
                ==> f.redemption_vault_withdraw_plan(asked) is None
        }),
{
}

// ---- offers ----

/// A new offer is made with the fee and the flags that were asked for, between the spare mint and
/// ONyc, the spare mint and usdc, the mint of the approvals and usdc, or ONyc and itself, by the
/// remainder of the fee. A success is noted with exactly that offer.
pub proof fn law_made_offer_is_what_was_asked(
    f: OnreappFixture,
    fee: u16,
    approval: bool,
    permissionless: bool,
)
    ensures
        ({
            let token_in = if fee % 4 == 3 {
                f.mint_onyc
            } else if fee % 4 == 2 {
                f.mint_appr
            } else {
                f.mint_play
            };
            let token_out = if fee % 4 == 0 || fee % 4 == 3 {
                f.mint_onyc
            } else {
                f.mint_usdc
            };
            let plan = f.make_offer_plan(fee, approval, permissionless);
            let offer = pda(seq![SEED_OFFER@, token_in@, token_out@], f.program_id);
            &&& plan is Some <==> offer is Some && ata(
                f.offer_vault_authority,
                token_in,
                SPL_TOKEN_ID,
            ) is Some
            &&& plan is Some ==> {
                &&& signed_alone(plan->0, f.payer)
                &&& plan->0.record == Record::Offer(offer->0)
                &&& plan->0.call matches Call::MakeOffer {
                    fee_basis_points,
                    needs_approval,
                    allow_permissionless,
                    accounts,
                } && fee_basis_points == fee && needs_approval == approval && allow_permissionless
                    == permissionless && accounts.offer == offer->0 && accounts.token_in_mint
                    == token_in && accounts.token_out_mint == token_out
            }
        }),
{
}

/// Whether a call is one on the main offer, between usdc and ONyc.
pub open spec fn on_main_offer(
    f: OnreappFixture,
    offer: Pubkey,
    token_in: Pubkey,
    token_out: Pubkey,
) -> bool {
    offer == f.offer_pda && token_in == f.mint_usdc && token_out == f.mint_onyc
}

/// A price that is added to the main offer is the one that was asked for, without a start of its
/// own; what is deleted and the fee that is set are what was asked for too.
pub proof fn law_main_offer_is_changed_as_asked(
    f: OnreappFixture,
    time: u64,
    price: u64,
    rate: u64,
    duration: u64,
    fee: u16,
)
    ensures
        f.add_offer_vector_plan(time, price, rate, duration) matches Some(plan) && plain(f, plan)
            && (plan.call matches Call::AddOfferVector { vector, accounts: a } && on_main_offer(
            f,
            a.offer,
            a.token_in_mint,
            a.token_out_mint,
        ) && vector.start_time is None && vector.base_time == time && vector.base_price == price
            && vector.apr == rate && vector.price_fix_duration == duration),
        f.delete_offer_vector_plan(time) matches Some(plan) && plain(f, plan) && (
        plan.call matches Call::DeleteOfferVector { vector_start_time, accounts: a }
            && vector_start_time == time && on_main_offer(
            f,
            a.offer,
            a.token_in_mint,
            a.token_out_mint,
        )),
        f.delete_all_offer_vectors_plan() matches Some(plan) && plain(f, plan) && (
        plan.call matches Call::DeleteAllOfferVectors { accounts: a } && on_main_offer(
            f,
            a.offer,
            a.token_in_mint,
            a.token_out_mint,
        )),
        f.update_offer_fee_plan(fee) matches Some(plan) && plain(f, plan) && (plan.call matches
            Call::UpdateOfferFee { new_fee_basis_points, accounts: a } && new_fee_basis_points
            == fee && on_main_offer(f, a.offer, a.token_in_mint, a.token_out_mint)),
        f.wf() ==> (f.serves(f.add_offer_vector_plan(time, price, rate, duration))),
{
}

/// The readers of the market read the main offer, and the supply of ONyc.
pub proof fn law_market_readers_read_the_main_offer(f: OnreappFixture)
    ensures
        f.get_nav_plan() matches Some(plan) && plain(f, plan) && (plan.call matches
            Call::GetNav { accounts: a } && on_main_offer(
            f,
            a.offer,
            a.token_in_mint,
            a.token_out_mint,
        )),
        f.get_apy_plan() matches Some(plan) && plain(f, plan) && (plan.call matches
            Call::GetApy { accounts: a } && on_main_offer(
            f,
            a.offer,
            a.token_in_mint,
            a.token_out_mint,
        )),
        f.get_nav_adjustment_plan() matches Some(plan) && plain(f, plan) && (plan.call matches
            Call::GetNavAdjustment { accounts: a } && on_main_offer(
            f,
            a.offer,
            a.token_in_mint,
            a.token_out_mint,
        )),
        ({
            let vault = ata(f.offer_vault_authority, f.mint_onyc, SPL_TOKEN_ID);
            &&& f.get_tvl_plan() is Some <==> vault is Some
            &&& f.get_circulating_supply_plan() is Some <==> vault is Some
        }),
        f.get_tvl_plan() matches Some(plan) ==> plain(f, plan) && (plan.call matches
            Call::GetTvl { accounts: a } && on_main_offer(
            f,
            a.offer,
            a.token_in_mint,
            a.token_out_mint,
        )),
        f.get_circulating_supply_plan() matches Some(plan) ==> plain(f, plan) && (
        plan.call matches Call::GetCirculatingSupply { accounts: a } && a.onyc_mint
            == f.mint_onyc),
{
}

/// Whether the token accounts of a take exist: the vault's, the user's and the boss's.
pub open spec fn take_is_derivable(
    f: OnreappFixture,
    user: Pubkey,
    token_in: Pubkey,
    in_program: Pubkey,
    token_out: Pubkey,
    out_program: Pubkey,
) -> bool {
    &&& ata(f.offer_vault_authority, token_in, in_program) is Some
    &&& ata(f.offer_vault_authority, token_out, out_program) is Some
    &&& ata(user, token_in, in_program) is Some
    &&& ata(user, token_out, out_program) is Some
    &&& ata(f.boss.public(), token_in, in_program) is Some
}

/// A take of the main offer pays exactly what was asked for, by the first user for an even amount
/// and by the second for an odd one, without an approval. It can always be sent where its token
/// accounts can be derived.
pub proof fn law_take_pays_what_was_asked(f: OnreappFixture, asked: u64)
    ensures
        ({
            let user = if asked % 2 == 0 {
                f.user_a
            } else {
                f.user_b
            };
            let derivable = take_is_derivable(
                f,
                user.public(),
                f.mint_usdc,
                SPL_TOKEN_ID,
                f.mint_onyc,
                SPL_TOKEN_ID,
            );
            &&& f.take_offer_plan(asked) is Some <==> derivable
            &&& f.take_offer_permissionless_plan(asked) is Some <==> derivable && ata(
                f.permissionless_authority,
                f.mint_usdc,
                SPL_TOKEN_ID,
            ) is Some && ata(f.permissionless_authority, f.mint_onyc, SPL_TOKEN_ID) is Some
            &&& f.take_offer_plan(asked) matches Some(plan) ==> {
                &&& signed_with_payer(f, plan, user)
                &&& plan.record == Record::Nothing
                &&& plan.call matches Call::TakeOffer {
                    token_in_amount,
                    approval_message,
                    accounts: a,
                } && token_in_amount == asked && approval_message is None && on_main_offer(
                    f,
                    a.offer,
                    a.token_in_mint,
                    a.token_out_mint,
                ) && a.user == user.public()
            }
            &&& f.take_offer_permissionless_plan(asked) matches Some(plan) ==> {
                &&& signed_with_payer(f, plan, user)
                &&& plan.record == Record::Nothing
                &&& plan.call matches Call::TakeOfferPermissionless {
                    token_in_amount,
                    approval_message,
                    accounts: a,
                } && token_in_amount == asked && approval_message is None && on_main_offer(
                    f,
                    a.take.offer,
                    a.take.token_in_mint,
                    a.take.token_out_mint,
                ) && a.take.user == user.public()
            }
        }),
{
}

// ---- redemption requests ----

/// The address that the program derives for request `id` under a redemption offer.
pub open spec fn request_address(f: OnreappFixture, ro: Pubkey, id: u64) -> Option<Pubkey> {
    pda(seq![SEED_REDEMPTION_REQUEST@, ro@, spec_u64_to_le_bytes(id)], f.program_id)
}

/// The request counter that a redemption offer holds, where it is long enough to hold one.
pub open spec fn counter_in(f: OnreappFixture, ro: Pubkey) -> Option<u64> {
    match data_at(f.ctx, ro) {
        Some(data) => if data.len() >= 146 {
            Some(spec_u64_from_le_bytes(data.subrange(138, 146)))
        } else {
            None
        },
        None => None,
    }
}

/// A request is opened at the address of the counter that its redemption offer holds, over what was
/// asked for, by the first user for an even amount and by the second for an odd one, and a success
/// is noted with exactly that request. Without a counter it is the first.
pub proof fn law_opened_request_is_the_next_one(f: OnreappFixture, asked: u64)
    ensures
        ({
            let user = if asked % 2 == 0 {
                f.user_a
            } else {
                f.user_b
            };
            let id = match counter_in(f, f.redemption_offer_pda) {
                Some(counter) => counter,
                None => 0,
            };
            let request = request_address(f, f.redemption_offer_pda, id);
            let plan = f.create_redemption_request_plan(asked);
            &&& plan is Some <==> request is Some && ata(
                user.public(),
                f.mint_onyc,
                SPL_TOKEN_ID,
            ) is Some && ata(f.redemption_vault_authority, f.mint_onyc, SPL_TOKEN_ID) is Some
            &&& plan is Some ==> {
                &&& signed_with_payer(f, plan->0, user)
                &&& plan->0.record == Record::Request(request->0)
                &&& plan->0.call matches Call::CreateRedemptionRequest { amount, accounts: a }
                    && amount == asked && a.redemption_request == request->0 && a.redemption_offer
                    == f.redemption_offer_pda && a.redeemer == user.public() && a.token_in_mint
                    == f.mint_onyc && a.token_program == SPL_TOKEN_ID
            }
        }),
{
}

/// What is fulfilled and what is cancelled is one and the same: the oldest open request, for the
/// redeemer that its account names; where none is open, the next one, where nothing stands. The
/// redemption admin signs both.
pub proof fn law_fulfilled_and_cancelled_is_the_oldest(f: OnreappFixture)
    ensures
        ({
            let open = open_requests_under(f.ctx, f.program_id, f.redemption_offer_pda);
            let found = open is Some && open->0.len() > 0;
            let request = if found {
                request_address(f, f.redemption_offer_pda, open->0[0].0)
            } else {
                request_address(
                    f,
                    f.redemption_offer_pda,
                    match counter_in(f, f.redemption_offer_pda) {
                        Some(counter) => counter,
                        None => 0,
                    },
                )
            };
            let redeemer = if found {
                open->0[0].1
            } else {
                f.user_a.public()
            };
            let vault_in = ata(f.redemption_vault_authority, f.mint_onyc, SPL_TOKEN_ID);
            &&& f.fulfill_redemption_request_plan() is Some <==> request is Some && vault_in is Some
                && ata(f.redemption_vault_authority, f.mint_usdc, SPL_TOKEN_ID) is Some && ata(
                redeemer,
                f.mint_usdc,
                SPL_TOKEN_ID,
            ) is Some && ata(f.boss.public(), f.mint_onyc, SPL_TOKEN_ID) is Some
            &&& f.fulfill_redemption_request_plan() matches Some(plan) ==> {
                &&& signed_with_payer(f, plan, f.redemption_admin)
                &&& plan.record == Record::Nothing
                &&& plan.call matches Call::FulfillRedemptionRequest { accounts: a }
                    && a.redemption_request == request->0 && a.redeemer == redeemer && a.offer
                    == f.offer_pda && a.redemption_offer == f.redemption_offer_pda
                    && a.token_in_mint == f.mint_onyc && a.token_out_mint == f.mint_usdc
                    && a.token_in_program == SPL_TOKEN_ID && a.token_out_program == SPL_TOKEN_ID
            }
            &&& f.cancel_redemption_request_plan() is Some <==> request is Some && vault_in is Some
                && ata(redeemer, f.mint_onyc, SPL_TOKEN_ID) is Some
            &&& f.cancel_redemption_request_plan() matches Some(plan) ==> {
                &&& signed_with_payer(f, plan, f.redemption_admin)
                &&& plan.record == Record::Nothing
                &&& plan.call matches Call::CancelRedemptionRequest { accounts: a }
                    && a.redemption_request == request->0 && a.redeemer == redeemer && a.signer
                    == f.redemption_admin.public() && a.redemption_offer == f.redemption_offer_pda
                    && a.token_in_mint == f.mint_onyc && a.token_program == SPL_TOKEN_ID
            }
        }),
{
}

/// A redemption offer is made from ONyc to the spare mint with the fee that was asked for, by the
/// payer and the redemption admin; the fee of the live one is set to what was asked for.
pub proof fn law_redemption_offers_are_changed_as_asked(f: OnreappFixture, fee: u16)
    ensures
        ({
            let plan = f.make_redemption_offer_plan(fee);
            &&& plan is Some <==> pda(
                seq![SEED_OFFER@, f.mint_play@, f.mint_onyc@],
                f.program_id,
            ) is Some && pda(
                seq![SEED_REDEMPTION_OFFER@, f.mint_onyc@, f.mint_play@],
                f.program_id,
            ) is Some && ata(f.redemption_vault_authority, f.mint_onyc, SPL_TOKEN_ID) is Some
                && ata(f.redemption_vault_authority, f.mint_play, SPL_TOKEN_ID) is Some
            &&& plan is Some ==> {
                &&& signed_with_payer(f, plan->0, f.redemption_admin)
                &&& plan->0.record == Record::Nothing
                &&& plan->0.call matches Call::MakeRedemptionOffer {
                    fee_basis_points,
                    accounts: a,
                } && fee_basis_points == fee && a.token_in_mint == f.mint_onyc && a.token_out_mint
                    == f.mint_play && a.token_in_program == SPL_TOKEN_ID && a.token_out_program
                    == SPL_TOKEN_ID && a.signer == f.redemption_admin.public()
            }
        }),
        f.update_redemption_offer_fee_plan(fee) matches Some(plan) && plain(f, plan) && (
        plan.call matches Call::UpdateRedemptionOfferFee { new_fee_basis_points, accounts: a }
            && new_fee_basis_points == fee && a.redemption_offer == f.redemption_offer_pda),
{
}

// ---- the scenarios ----

/// Whether an amount is what a scenario makes of what was asked for: as it comes where bit 2 of the
/// selector is set, and one more than its remainder by the bound where it is not.
pub open spec fn drawn(amount: u64, asked: u64, sel: u8, bound: int) -> bool {
    if sel & 4 != 0 {
        amount == asked
    } else {
        1 <= amount <= bound && (amount - 1 - asked) % bound == 0
    }
}

/// Bit 2 of a selector.
proof fn lemma_bit_two(sel: u8)
    ensures
        sel & 4 != 0 <==> (sel / 4) % 2 == 1,
        sel & 2 != 0 <==> (sel / 2) % 2 == 1,
        sel & 1 != 0 <==> sel % 2 == 1,
{
    assert(sel & 4 != 0 <==> (sel / 4) % 2 == 1) by (bit_vector);
    assert(sel & 2 != 0 <==> (sel / 2) % 2 == 1) by (bit_vector);
    assert(sel & 1 != 0 <==> sel % 2 == 1) by (bit_vector);
}

/// What bounding makes of an amount.
proof fn lemma_drawn(asked: u64, sel: u8, bound: u64)
    requires
        bound > 0,
    ensures
        drawn(bounded_amount(asked, sel, bound), asked, sel, bound as int),
{
    lemma_bit_two(sel);
    if sel & 4 == 0 {
        let b = bound as int;
        let q = asked as int / b;
        vstd::arithmetic::div_mod::lemma_fundamental_div_mod(asked as int, b);
        assert(bounded_amount(asked, sel, bound) - 1 - asked == (-q) * b) by (nonlinear_arith)
            requires
                asked == b * q + asked as int % b,
                bounded_amount(asked, sel, bound) == asked as int % b + 1,
        ;
        vstd::arithmetic::div_mod::lemma_mod_multiples_basic(-q, b);
    }
}

/// The user that a selector picks: the second one where its lowest bit is set.
pub open spec fn picked(f: OnreappFixture, sel: u8) -> Keypair {
    if sel & 1 != 0 {
        f.user_b
    } else {
        f.user_a
    }
}

/// The offer from ONyc to itself is priced from now on, below 1.0, at no interest, for an hour at a
/// time; and it is taken by the picked user for what was drawn.
pub proof fn law_same_mint_offer_is_priced_and_taken(
    f: OnreappFixture,
    price: u64,
    asked: u64,
    sel: u8,
)
    ensures
        ({
            let offer = pda(seq![SEED_OFFER@, f.mint_onyc@, f.mint_onyc@], f.program_id);
            let user = picked(f, sel);
            &&& f.price_same_mint_offer_plan(price) is Some <==> offer is Some
            &&& f.price_same_mint_offer_plan(price) matches Some(plan) ==> {
                &&& signed_alone(plan, f.boss)
                &&& plan.record == Record::Nothing
                &&& plan.call matches Call::AddOfferVector { vector, accounts: a } && a.offer
                    == offer->0 && a.token_in_mint == f.mint_onyc && a.token_out_mint == f.mint_onyc
                    && vector.start_time is None && vector.base_time == now_of(f.ctx) && vector.apr
                    == 0 && vector.price_fix_duration == 3_600 && 0 < vector.base_price
                    < 1_000_000_000 && (price as int % 1_000_000_000 != 0 ==> vector.base_price
                    == price as int % 1_000_000_000) && (price as int % 1_000_000_000 == 0
                    ==> vector.base_price == 1)
            }
            &&& f.take_same_mint_offer_plan(asked, sel) is Some <==> offer is Some
                && take_is_derivable(
                f,
                user.public(),
                f.mint_onyc,
                SPL_TOKEN_ID,
                f.mint_onyc,
                SPL_TOKEN_ID,
            )
            &&& f.take_same_mint_offer_plan(asked, sel) matches Some(plan) ==> {
                &&& signed_alone(plan, user)
                &&& plan.record == Record::Nothing
                &&& plan.call matches Call::TakeOffer {
                    token_in_amount,
                    approval_message,
                    accounts: a,
                } && drawn(token_in_amount, asked, sel, 25_000_000_000) && approval_message is None
                    && a.offer == offer->0 && a.token_in_mint == f.mint_onyc && a.token_out_mint
                    == f.mint_onyc && a.user == user.public()
            }
        }),
{
    lemma_bit_two(sel);
    lemma_drawn(asked, sel, 25_000_000_000);
}

/// The cap that is set is the supply that the mint of ONyc records, and at most a million millions
/// on top of it; where that supply cannot be read, none is set.
pub proof fn law_cap_is_set_above_the_recorded_supply(f: OnreappFixture, headroom: u64)
    ensures
        f.supply_cap_plan(headroom) is Some <==> (data_at(f.ctx, f.mint_onyc) matches Some(mint)
            && mint.len() >= 44),
        f.supply_cap_plan(headroom) matches Some(plan) ==> {
            let supply = spec_u64_from_le_bytes(data_at(f.ctx, f.mint_onyc)->0.subrange(36, 44));
            let sum = supply + headroom % 1_000_000_000_000;
            &&& signed_alone(plan, f.boss)
            &&& plan.record == Record::Nothing
            &&& plan.call matches Call::ConfigureMaxSupply { max_supply, .. } && max_supply
                >= supply && (sum <= u64::MAX ==> max_supply == sum) && (sum > u64::MAX
                ==> max_supply == u64::MAX)
        },
{
}

/// Whether what is sent opens the next request of a redemption offer for a user.
pub open spec fn opens(
    f: OnreappFixture,
    plan: Plan,
    ro: Pubkey,
    user: Keypair,
    mint: Pubkey,
    program: Pubkey,
) -> bool {
    &&& signed_alone(plan, user)
    &&& plan.call matches Call::CreateRedemptionRequest { accounts: a, .. }
        && a.redemption_offer == ro && counter_in(f, ro) is Some && request_address(
        f,
        ro,
        counter_in(f, ro)->0,
    ) == Some(a.redemption_request) && a.redeemer == user.public() && a.token_in_mint == mint
        && a.token_program == program
}

/// Whether the next request of a redemption offer can be derived, for a user and a mint.
pub open spec fn can_open(
    f: OnreappFixture,
    ro: Pubkey,
    user: Keypair,
    mint: Pubkey,
    program: Pubkey,
) -> bool {
    &&& counter_in(f, ro) is Some
    &&& request_address(f, ro, counter_in(f, ro)->0) is Some
    &&& ata(user.public(), mint, program) is Some
    &&& ata(f.redemption_vault_authority, mint, program) is Some
}

/// A request is opened only against a redemption offer that is there, at the address of its
/// counter, by the picked user, for what was drawn: over ONyc against the offer that pays in the
/// spare mint, over usdc against the reverse one, and over the transfer-fee mint against its own.
/// Only the first and the last are noted, each in its own registry.
pub proof fn law_scenarios_open_the_next_request(f: OnreappFixture, asked: u64, sel: u8)
    ensures
        ({
            let user = picked(f, sel);
            let play = pda(seq![SEED_REDEMPTION_OFFER@, f.mint_onyc@, f.mint_play@], f.program_id);
            let rev = f.redemption_offer_rev_pda;
            let fee = f.redemption_offer_fee_pda;
            &&& f.create_request_play_plan(asked, sel) is Some <==> play is Some && can_open(
                f,
                play->0,
                user,
                f.mint_onyc,
                SPL_TOKEN_ID,
            )
            &&& f.create_request_play_plan(asked, sel) matches Some(plan) ==> {
                &&& opens(f, plan, play->0, user, f.mint_onyc, SPL_TOKEN_ID)
                &&& plan.call matches Call::CreateRedemptionRequest { amount, accounts } && drawn(
                    amount,
                    asked,
                    sel,
                    12_500_000_000,
                ) && plan.record == Record::PlayRequest(accounts.redemption_request)
            }
            &&& f.create_request_rev_plan(asked, sel) is Some <==> can_open(
                f,
                rev,
                user,
                f.mint_usdc,
                SPL_TOKEN_ID,
            )
            &&& f.create_request_rev_plan(asked, sel) matches Some(plan) ==> {
                &&& opens(f, plan, rev, user, f.mint_usdc, SPL_TOKEN_ID)
                &&& plan.record == Record::Nothing
                &&& plan.call matches Call::CreateRedemptionRequest { amount, .. } && drawn(
                    amount,
                    asked,
                    sel,
                    250_000_000_000,
                )
            }
            &&& f.create_request_fee_plan(asked, sel) is Some <==> can_open(
                f,
                fee,
                user,
                f.mint_fee,
                SPL_TOKEN_2022_ID,
            )
            &&& f.create_request_fee_plan(asked, sel) matches Some(plan) ==> {
                &&& opens(f, plan, fee, user, f.mint_fee, SPL_TOKEN_2022_ID)
                &&& plan.call matches Call::CreateRedemptionRequest { amount, accounts } && drawn(
                    amount,
                    asked,
                    sel,
                    250_000_000_000,
                ) && plan.record == Record::FeeRequest(accounts.redemption_request)
            }
        }),
{
    lemma_bit_two(sel);
    lemma_drawn(asked, sel, 12_500_000_000);
    lemma_drawn(asked, sel, 250_000_000_000);
}

/// Looking for an id finds a listed request with exactly that id, wherever there is one.
pub proof fn law_requests_are_found_by_their_id(requests: Seq<OpenRequest>, id: u64)
    ensures
        request_with_id(requests, id) matches Some(found) ==> requests.contains(found) && found.0
            == id,
        request_with_id(requests, id) is None <==> forall|i: int|
            0 <= i < requests.len() ==> (#[trigger] requests[i]).0 != id,
    decreases requests.len(),
{
    if requests.len() > 0 {
        let rest = requests.subrange(1, requests.len() as int);
        law_requests_are_found_by_their_id(rest, id);
        assert(requests[0].0 == id ==> requests.contains(requests[0]));
        if requests[0].0 != id {
            if request_with_id(rest, id) is Some {
                let i = choose|i: int| 0 <= i < rest.len() && rest[i] == request_with_id(
                    rest,
                    id,
                )->0;
                assert(requests[i + 1] == rest[i]);
            } else {
                assert forall|i: int| 0 <= i < requests.len() implies (#[trigger] requests[i]).0
                    != id by {
                    if i > 0 {
                        assert(requests[i] == rest[i - 1]);
                    }
                }
            }
        }
    }
}

/// Cancelling a fee request by its id is planned only where an open request with exactly that id is
/// listed, and names the address derived from that id and the redeemer of that request. The first
/// user signs where it is the redeemer, and the second one else. Where no listed request has the
/// id, nothing is planned.
pub proof fn law_fee_request_is_cancelled_by_its_id(f: OnreappFixture, id: u64)
    ensures
        ({
            let ro = f.redemption_offer_fee_pda;
            let open = open_requests_under(f.ctx, f.program_id, ro);
            let plan = f.cancel_request_fee_plan(id);
            &&& open is None ==> plan is None
            &&& open is Some && (forall|i: int|
                0 <= i < open->0.len() ==> (#[trigger] open->0[i]).0 != id) ==> plan is None
            &&& plan is Some ==> {
                &&& exists|i: int|
                    {
                        &&& 0 <= i < open->0.len()
                        &&& (#[trigger] open->0[i]).0 == id
                        &&& plan->0.call matches Call::CancelRedemptionRequest { accounts: a }
                            && a.redeemer == open->0[i].1 && a.signer == open->0[i].1
                    }
                &&& plan->0.record == Record::Nothing
                &&& plan->0.call matches Call::CancelRedemptionRequest { accounts: a }
                    && request_address(f, ro, id) == Some(a.redemption_request)
                    && a.redemption_offer == ro && a.token_in_mint == f.mint_fee && a.token_program
                    == SPL_TOKEN_2022_ID && signed_alone(
                    plan->0,
                    if a.redeemer == f.user_a.public() {
                        f.user_a
                    } else {
                        f.user_b
                    },
                )
            }
            &&& forall|i: int|
                open is Some && 0 <= i < open->0.len() && (#[trigger] open->0[i]).0 == id
                    && request_address(f, ro, id) is Some && ata(
                    f.redemption_vault_authority,
                    f.mint_fee,
                    SPL_TOKEN_2022_ID,
                ) is Some && ata(open->0[i].1, f.mint_fee, SPL_TOKEN_2022_ID) is Some
                    ==> plan is Some
        }),
{
    let ro = f.redemption_offer_fee_pda;
    let open = open_requests_under(f.ctx, f.program_id, ro);
    if open is Some {
        law_requests_are_found_by_their_id(open->0, id);
        if request_with_id(open->0, id) is Some {
            let found = request_with_id(open->0, id)->0;
            let i = choose|i: int| 0 <= i < open->0.len() && open->0[i] == found;
            assert(open->0[i].0 == id);
            law_open_requests_are_exactly_those_that_exist(f.ctx, f.program_id, ro, found);
            assert forall|j: int| 0 <= j < open->0.len() && (#[trigger] open->0[j]).0
                == id implies open->0[j] == found by {
                assert(i < j ==> open->0[i].0 < open->0[j].0);
                assert(j < i ==> open->0[j].0 < open->0[i].0);
            }
        }
    }
}

/// The offer that pays out the transfer-fee mint is taken by the first user for exactly what was
/// asked; it is the one from usdc to that mint.
pub proof fn law_fee_offer_is_taken_as_asked(f: OnreappFixture, asked: u64)
    ensures
        f.take_fee_offer_plan(asked) is Some <==> take_is_derivable(
            f,
            f.user_a.public(),
            f.mint_usdc,
            SPL_TOKEN_ID,
            f.mint_fee,
            SPL_TOKEN_2022_ID,
        ),
        f.take_fee_offer_plan(asked) matches Some(plan) ==> {
            &&& signed_alone(plan, f.user_a)
            &&& plan.record == Record::Nothing
            &&& plan.call matches Call::TakeOffer { token_in_amount, approval_message, accounts: a }
                && token_in_amount == asked && approval_message is None && a.offer
                == f.offer_fee_pda && a.token_in_mint == f.mint_usdc && a.token_out_mint
                == f.mint_fee && a.token_in_program == SPL_TOKEN_ID && a.token_out_program
                == SPL_TOKEN_2022_ID && a.user == f.user_a.public()
        },
{
}

/// The reverse redemption is fulfilled for the oldest open request against it, usdc in and ONyc
/// out, by the redemption admin alone. Where none is open there is nothing to send.
pub proof fn law_reverse_request_is_fulfilled_oldest_first(f: OnreappFixture)
    ensures
        ({
            let ro = f.redemption_offer_rev_pda;
            let open = open_requests_under(f.ctx, f.program_id, ro);
            let plan = f.fulfill_rev_plan();
            &&& open is None || open->0.len() == 0 ==> plan is None
            &&& open is Some && open->0.len() > 0 ==> {
                let (id, redeemer, _) = open->0[0];
                let request = request_address(f, ro, id);
                &&& plan is Some <==> request is Some && ata(
                    f.redemption_vault_authority,
                    f.mint_usdc,
                    SPL_TOKEN_ID,
                ) is Some && ata(f.redemption_vault_authority, f.mint_onyc, SPL_TOKEN_ID) is Some
                    && ata(redeemer, f.mint_onyc, SPL_TOKEN_ID) is Some && ata(
                    f.boss.public(),
                    f.mint_usdc,
                    SPL_TOKEN_ID,
                ) is Some
                &&& plan is Some ==> {
                    &&& signed_alone(plan->0, f.redemption_admin)
                    &&& plan->0.record == Record::Nothing
                    &&& plan->0.call matches Call::FulfillRedemptionRequest { accounts: a }
                        && a.redemption_request == request->0 && a.redeemer == redeemer && a.offer
                        == f.offer_rev_pda && a.redemption_offer == ro && a.token_in_mint
                        == f.mint_usdc && a.token_out_mint == f.mint_onyc && a.token_in_program
                        == SPL_TOKEN_ID && a.token_out_program == SPL_TOKEN_ID
                }
            }
        }),
{
}

/// The keys that the selectors pick: no approver, the world's, or a user; the boss, a user or the
/// redemption admin at the switch; and nobody or the boss as nominee for boss.
pub proof fn law_selectors_pick_their_keys(f: OnreappFixture, sel: u8, flag: bool)
    ensures
        f.approver_ops_plan(sel, flag) matches Some(plan) && signed_alone(plan, f.boss)
            && plan.record == Record::Nothing && ({
            let picked = if sel % 4 == 0 {
                DEFAULT_PUBKEY
            } else if sel % 4 == 1 {
                f.approver.public()
            } else if sel % 4 == 2 {
                f.user_a.public()
            } else {
                f.user_b.public()
            };
            &&& flag ==> (plan.call matches Call::RemoveApprover { approver, .. } && approver
                == picked)
            &&& !flag ==> (plan.call matches Call::AddApprover { approver, .. } && approver
                == picked)
        }),
        f.kill_switch_as_plan(sel, flag) matches Some(plan) && plan.record == Record::Nothing && ({
            let who = if sel % 3 == 0 {
                f.boss
            } else if sel % 3 == 1 {
                f.user_a
            } else {
                f.redemption_admin
            };
            &&& signed_alone(plan, who)
            &&& plan.call matches Call::SetKillSwitch { enable, accounts } && enable == flag
                && accounts.signer == who.public()
        }),
        f.nomination_plan(sel) matches Some(plan) && signed_alone(plan, f.boss) && plan.record
            == Record::Nothing && (plan.call matches Call::ProposeBoss { new_boss, .. } && new_boss
            == (if sel % 2 == 0 {
            DEFAULT_PUBKEY
        } else {
            f.boss.public()
        })),
{
}

/// A take with an approval pays what was drawn into the offer that needs one, from the mint of the
/// approvals to ONyc. The approval names the program, is bound to the taker or, where bit 1 of the
/// selector is set, to the other user, and expires as many seconds from now as was asked, at the
/// earliest at zero.
pub proof fn law_approved_take_presents_its_approval(
    f: OnreappFixture,
    asked: u64,
    delta: i32,
    sel: u8,
)
    ensures
        ({
            let user = picked(f, sel);
            let other = if sel & 1 != 0 {
                f.user_a
            } else {
                f.user_b
            };
            let plan = f.approved_take(asked, delta, sel);
            &&& plan is Some <==> take_is_derivable(
                f,
                user.public(),
                f.mint_appr,
                SPL_TOKEN_ID,
                f.mint_onyc,
                SPL_TOKEN_ID,
            )
            &&& plan is Some ==> {
                &&& signed_alone(plan->0, user)
                &&& plan->0.record == Record::Nothing
                &&& plan->0.call matches Call::TakeOffer {
                    token_in_amount,
                    approval_message,
                    accounts: a,
                } && drawn(token_in_amount, asked, sel, 250_000_000_000) && a.offer
                    == f.offer_appr_pda && a.token_in_mint == f.mint_appr && a.token_out_mint
                    == f.mint_onyc && a.user == user.public() && approval_message == Some(
                    f.approval(delta, sel),
                )
            }
            &&& f.approval(delta, sel).program_id == f.program_id
            &&& f.approval(delta, sel).user_pubkey == (if sel & 2 != 0 {
                other.public()
            } else {
                user.public()
            })
            &&& now_of(f.ctx) <= i64::MAX && 0 <= now_of(f.ctx) + delta <= i64::MAX ==> f.approval(
                delta,
                sel,
            ).expiry_unix == now_of(f.ctx) + delta
            &&& now_of(f.ctx) <= i64::MAX && now_of(f.ctx) + delta < 0 ==> f.approval(
                delta,
                sel,
            ).expiry_unix == 0
            &&& now_of(f.ctx) <= i64::MAX && now_of(f.ctx) + delta > i64::MAX ==> f.approval(
                delta,
                sel,
            ).expiry_unix == i64::MAX
            &&& now_of(f.ctx) > i64::MAX ==> f.approval(delta, sel).expiry_unix == (if now_of(f.ctx)
                + delta >= 0x1_0000_0000_0000_0000 {
                now_of(f.ctx) + delta - 0x1_0000_0000_0000_0000
            } else {
                0
            })
        }),
{
    lemma_bit_two(sel);
    lemma_drawn(asked, sel, 250_000_000_000);
    assert(sel < 255 ==> (sel + 1) as u64 % 2 != sel as u64 % 2);
}

/// The state is rebuilt only where none is allocated, by the same three calls that building a world
/// starts with, in order: `initialize`, then the redemption admin and the approver of the world.
/// The boss alone signs them.
pub proof fn law_state_is_bootstrapped_in_order(f: OnreappFixture)
    ensures
        bootstrap(f) is Some <==> pda(seq![f.program_id@], BPF_LOADER_UPGRADEABLE_ID) is Some,
        bootstrap(f) matches Some(steps) ==> {
            &&& forall|i: int|
                0 <= i < 3 ==> signed_alone((#[trigger] steps[i]).plan, f.boss)
                    && steps[i].plan.record == Record::Nothing
            &&& f.wf() ==> forall|i: int|
                0 <= i < 3 ==> f.serves(Some((#[trigger] steps[i]).plan))
            &&& steps[0].label@ == "initialize"@
            &&& steps[0].plan.call matches Call::Initialize { accounts } && accounts.onyc_mint
                == f.mint_onyc
            &&& steps[1].label@ == "set_redemption_admin"@
            &&& steps[1].plan.call matches Call::SetRedemptionAdmin { new_redemption_admin, .. }
                && new_redemption_admin == f.redemption_admin.public()
            &&& steps[2].label@ == "add_approver"@
            &&& steps[2].plan.call matches Call::AddApprover { approver, .. } && approver
                == f.approver.public()
        },
        data_at(f.ctx, f.state_pda) matches Some(data) && data.len() >= 40 ==> f.rebuild_plan()
            is None,
        !(data_at(f.ctx, f.state_pda) matches Some(data) && data.len() >= 40) ==> f.rebuild_plan()
            == bootstrap(f),
{
}

/// An approval is signed as it is presented: behind the header of the precompile instruction stand
/// the key of the world's approver, its signature of exactly the bytes that follow, and those
/// bytes, which spell out the program, the approved user and the expiry. A signature has 64 bytes.
pub proof fn law_approval_is_signed_as_presented(f: OnreappFixture, delta: i32, sel: u8)
    requires
        ed25519_signature(f.approver.secret@, f.approval(delta, sel).bytes()).len() == 64,
    ensures
        ({
            let data = f.signed_approval(delta, sel);
            let approval = f.approval(delta, sel);
            &&& data.len() == 184
            &&& data.subrange(16, 48) == f.approver.public()@
            &&& data.subrange(48, 112) == ed25519_signature(
                f.approver.secret@,
                data.subrange(112, 184),
            )
            &&& data.subrange(112, 144) == approval.program_id@
            &&& data.subrange(144, 176) == approval.user_pubkey@
            &&& data.subrange(176, 184) == spec_u64_to_le_bytes(approval.expiry_unix)
            &&& data[0] == 1
            &&& data[1] == 0
            &&& data.subrange(2, 4) == spec_u16_to_le_bytes(48)
            &&& data.subrange(6, 8) == spec_u16_to_le_bytes(16)
            &&& data.subrange(10, 12) == spec_u16_to_le_bytes(112)
            &&& data.subrange(12, 14) == spec_u16_to_le_bytes(72)
        }),
{
    lemma_auto_spec_u64_to_from_le_bytes();
    lemma_auto_spec_u16_to_from_le_bytes();
    let data = f.signed_approval(delta, sel);
    let approval = f.approval(delta, sel);
    let message = approval.bytes();
    assert(message.len() == 72);
    assert(data.len() == 184);
    assert(data.subrange(112, 184) =~= message);
    assert(data.subrange(16, 48) =~= f.approver.public()@);
    assert(data.subrange(48, 112) =~= ed25519_signature(f.approver.secret@, message));
    assert(data.subrange(112, 144) =~= approval.program_id@);
    assert(data.subrange(144, 176) =~= approval.user_pubkey@);
    assert(data.subrange(176, 184) =~= spec_u64_to_le_bytes(approval.expiry_unix));
    assert(data.subrange(2, 4) =~= spec_u16_to_le_bytes(48));
    assert(data.subrange(6, 8) =~= spec_u16_to_le_bytes(16));
    assert(data.subrange(10, 12) =~= spec_u16_to_le_bytes(112));
    assert(data.subrange(12, 14) =~= spec_u16_to_le_bytes(72));
}

} // verus!
