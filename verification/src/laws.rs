//! What holds of the library as a whole.

use crucible_test_context::TestContext;
use vstd::bytes::{lemma_auto_spec_u64_to_from_le_bytes, spec_u64_to_le_bytes};
use vstd::prelude::*;

use crate::accounts::spl_leg;
use crate::bytes::{lemma_word_round_trip, signed_of, word_of};
use crate::check::MonitorView;
use crate::context::{data_at, mint_layout, token_layout};
use crate::fixture::{
    counter_of, lemma_requests_below, open_requests_under, request_at, request_key,
    requests_below, token_balance_at, word_at, OnreappFixture, OpenRequest,
    SCOUT_MINT_SUPPLY_OFFSET, SCOUT_REQUEST_SCAN_CAP,
};
use crate::instruction::{Call, Leg, Record};
use crate::keys::{Pubkey, DEFAULT_PUBKEY};
use crate::registry::{Registries, Registry};
use crate::scenarios::{
    bounded_amount, cap_above, expiry_of, same_mint_price, time_after, time_step,
};
use crate::setup::{
    empty_registry, Step, APPR_SUPPLY, FEE_SUPPLY, ONYC_SUPPLY, USDC_SUPPLY,
};
use crate::token::{fee_account_layout, fee_mint_layout, TransferFee};

verus! {

// ---- registries ----

/// Whether a registry holds exactly the addresses of a history, in order, and nothing behind them.
pub open spec fn holds_exactly(registry: Registry, history: Seq<Pubkey>) -> bool {
    &&& registry.next == history.len()
    &&& history.len() <= registry.slots.len()
    &&& forall|i: int|
        0 <= i < registry.slots.len() ==> #[trigger] registry.slots[i] == if i < history.len() {
            history[i]
        } else {
            DEFAULT_PUBKEY
        }
}

/// A registry loses no address before it overflows: starting empty, it holds exactly what was
/// noted, in order, as long as that fits; and the very next address makes it count as overflowed.
pub proof fn law_registry_keeps_every_address(
    registry: Registry,
    history: Seq<Pubkey>,
    key: Pubkey,
    slots: nat,
)
    requires
        holds_exactly(registry, history),
        0 < registry.slots.len() < usize::MAX,
    ensures
        holds_exactly(empty_registry(slots), Seq::empty()),
        !registry.overflowed(),
        history.len() < registry.slots.len() ==> {
            &&& holds_exactly(registry.with(key), history.push(key))
            &&& holds_exactly(registry.with_bounded(key), history.push(key))
        },
        history.len() == registry.slots.len() ==> {
            &&& registry.with(key).overflowed()
            &&& registry.with_bounded(key).overflowed()
        },
{
    if history.len() < registry.slots.len() {
        vstd::arithmetic::div_mod::lemma_small_mod(registry.next as nat, registry.slots.len());
    }
    vstd::arithmetic::div_mod::lemma_mod_bound(registry.next as int, registry.slots.len() as int);
}

/// A registry that has overflowed stays so.
pub proof fn law_overflow_is_final(registry: Registry, key: Pubkey)
    requires
        registry.overflowed(),
        0 < registry.slots.len() < usize::MAX,
    ensures
        registry.with(key).overflowed(),
        registry.with_bounded(key).overflowed(),
{
    vstd::arithmetic::div_mod::lemma_mod_bound(registry.next as int, registry.slots.len() as int);
}

/// A property that is selected sees everything it speaks of, whatever else is muted: a success
/// feeds every registry that a selected property reads, once.
pub proof fn law_muting_blinds_no_other_property(
    registries: Registries,
    monitor: MonitorView,
    key: Pubkey,
)
    ensures
        monitor.selects("P-0002"@) ==> registries.noted(Record::Request(key), monitor).p2
            == registries.p2.with(key),
        monitor.selects("P-0003"@) ==> registries.noted(Record::Request(key), monitor).p3
            == registries.p3.with(key),
        monitor.selects("P-0005"@) ==> registries.noted(Record::Offer(key), monitor).p5
            == registries.p5.with(key),
        monitor.selects("P-0006"@) ==> registries.noted(Record::Offer(key), monitor).p5
            == registries.p5.with(key),
        registries.noted(Record::FeeRequest(key), monitor).p8 == registries.p8.with_bounded(key),
{
}

/// With one property selected and nothing muted, a success feeds the registries of that property
/// and no others: a replay of one property is not disturbed by the rest.
pub proof fn law_selected_property_feeds_its_own_registries(
    registries: Registries,
    monitor: MonitorView,
    key: Pubkey,
)
    requires
        monitor.mute is None,
    ensures
        monitor.only == Some("P-0002"@) ==> registries.noted(Record::Request(key), monitor) == (
        Registries { p2: registries.p2.with(key), ..registries }),
        monitor.only == Some("P-0003"@) ==> registries.noted(Record::Request(key), monitor) == (
        Registries { p3: registries.p3.with(key), p7: registries.p7.with(key), ..registries }),
        monitor.only == Some("P-0002"@) || monitor.only == Some("P-0003"@) ==> registries.noted(
            Record::Offer(key),
            monitor,
        ) == registries,
        monitor.only == Some("P-0005"@) || monitor.only == Some("P-0006"@) ==> {
            &&& registries.noted(Record::Request(key), monitor) == registries
            &&& registries.noted(Record::Offer(key), monitor) == (Registries {
                p5: registries.p5.with(key),
                ..registries
            })
        },
{
    reveal_strlit("P-0002");
    reveal_strlit("P-0003");
    reveal_strlit("P-0005");
    reveal_strlit("P-0006");
    assert("P-0002"@[5] == '2' && "P-0003"@[5] == '3');
    assert("P-0005"@[5] == '5' && "P-0006"@[5] == '6');
}

// ---- time and amounts ----

/// Time only moves forward, by at least a second and at most as far as the step allows; at the end
/// of its range it stands still.
pub proof fn law_time_moves_forward(now: u64, seconds: u32)
    ensures
        ({
            let later = time_after(now, time_step(seconds));
            &&& signed_of(word_of(later)) == later
            &&& later >= signed_of(now)
            &&& later - signed_of(now) <= 40_000_000
            &&& signed_of(now) < i64::MAX ==> later > signed_of(now)
        }),
{
    lemma_word_round_trip(now, time_after(now, time_step(seconds)));
}

/// An amount is either taken as it comes, or brought between 1 and the bound.
pub proof fn law_amounts_are_bounded(amount: u64, sel: u8, cap: u64)
    requires
        cap > 0,
    ensures
        (sel / 4) % 2 == 1 ==> bounded_amount(amount, sel, cap) == amount,
        (sel / 4) % 2 == 0 ==> 1 <= bounded_amount(amount, sel, cap) <= cap,
{
}

/// The price of the offer from a mint to itself is never zero and stays below 1.0, and a price in
/// that range is taken as it comes.
pub proof fn law_same_mint_price_is_legal(price: u64)
    ensures
        0 < same_mint_price(price) < 1_000_000_000,
        0 < price < 1_000_000_000 ==> same_mint_price(price) == price,
{
}

/// The cap on the supply is never set below the supply: an excess found later was minted.
pub proof fn law_cap_is_never_below_the_supply(supply: u64, headroom: u64)
    ensures
        cap_above(supply, headroom) >= supply,
        cap_above(supply, 0) == supply,
        cap_above(supply, headroom) - supply < 1_000_000_000_000,
{
}

/// An approval with a negative delta has expired, and one with another delta has not. The clock
/// must stand after zero, and a delta must not lead past the range of a signed word.
pub proof fn law_expiry_follows_the_delta(now: u64, delta: i32)
    requires
        0 < now,
        now + 0x8000_0000 <= i64::MAX,
    ensures
        delta < 0 <==> expiry_of(now, delta) < now,
        delta >= 0 ==> expiry_of(now, delta) == now + delta,
{
}

// ---- who acts, and on what ----

/// Consecutive values pick different actors, and values two apart the same one.
pub proof fn law_users_alternate(f: OnreappFixture, sel: u64)
    requires
        sel < u64::MAX - 1,
    ensures
        f.user(sel) == f.user_a || f.user(sel) == f.user_b,
        f.user_a != f.user_b ==> f.user(sel) != f.user((sel + 1) as u64),
        f.user(sel) == f.user((sel + 2) as u64),
{
}

/// An approval is bound to the taker, or to the other user where bit 1 of the selector is set.
pub proof fn law_approval_is_bound_by_the_selector(f: OnreappFixture, expiry_delta: i32, sel: u8)
    requires
        f.user_a.public() != f.user_b.public(),
    ensures
        (sel / 2) % 2 == 0 <==> f.approval(expiry_delta, sel).user_pubkey == f.user(
            sel as u64,
        ).public(),
        f.approval(expiry_delta, sel).program_id == f.program_id,
        f.approval(expiry_delta, sel).bytes().len() == 72,
{
    lemma_auto_spec_u64_to_from_le_bytes();
}

/// Whether the mints of a world are all different.
pub open spec fn mints_differ(f: OnreappFixture) -> bool {
    &&& f.mint_usdc != f.mint_onyc
    &&& f.mint_usdc != f.mint_play
    &&& f.mint_usdc != f.mint_appr
    &&& f.mint_usdc != f.mint_fee
    &&& f.mint_onyc != f.mint_play
    &&& f.mint_onyc != f.mint_appr
    &&& f.mint_onyc != f.mint_fee
    &&& f.mint_play != f.mint_appr
    &&& f.mint_play != f.mint_fee
    &&& f.mint_appr != f.mint_fee
}

/// One in four fees pairs a mint with itself, and no other does.
pub proof fn law_one_pair_in_four_is_the_same_mint(f: OnreappFixture, sel: u16)
    requires
        mints_differ(f),
    ensures
        f.offer_pair(sel).0 == f.offer_pair(sel).1 <==> sel % 4 == 3,
{
}

/// `make_offer` only ever makes a new offer: no pair that it draws is that of an offer which
/// building the world makes.
pub proof fn law_drawn_pairs_are_new(f: OnreappFixture, sel: u16)
    requires
        mints_differ(f),
    ensures
        f.offer_pair(sel) != (f.mint_usdc, f.mint_onyc),
        f.offer_pair(sel) != (f.mint_appr, f.mint_onyc),
        f.offer_pair(sel) != (f.mint_onyc, f.mint_usdc),
        f.offer_pair(sel) != (f.mint_usdc, f.mint_fee),
{
}

/// No operation on the redemption vaults reaches the mint that charges a transfer fee: what goes
/// wrong in its vault goes wrong without privileges.
pub proof fn law_vault_operations_miss_the_fee_mint(f: OnreappFixture, amount: u64)
    requires
        mints_differ(f),
    ensures
        f.redemption_vault_accounts(f.vault_mint(amount)) matches Some(accounts) ==> {
            &&& accounts.token_mint != f.mint_fee
            &&& accounts.token_mint == f.mint_usdc || accounts.token_mint == f.mint_onyc
        },
{
}

/// Every request that locks onyc is paid into one token account, whichever redemption offer it is
/// opened against: the one that P-0002 watches. Those that lock the transfer-fee mint are paid into
/// the one that P-0008 watches.
pub proof fn law_requests_of_a_mint_share_one_vault(
    f: OnreappFixture,
    ro: Pubkey,
    request: Pubkey,
    redeemer: Pubkey,
)
    requires
        f.wf(),
    ensures
        f.create_request_accounts(ro, request, redeemer, spl_leg(f.mint_onyc)) matches Some(a)
            ==> a.vault_token_account == f.redemption_vault_onyc,
        f.create_request_accounts(ro, request, redeemer, f.fee_leg()) matches Some(a)
            ==> a.vault_token_account == f.redemption_vault_fee_ata,
{
}

/// A request is returned to where it came from: cancelling names the accounts that opening named.
pub proof fn law_cancel_reverses_create(
    f: OnreappFixture,
    ro: Pubkey,
    request: Pubkey,
    signer: Pubkey,
    redeemer: Pubkey,
    token_in: Leg,
)
    ensures
        f.create_request_accounts(ro, request, redeemer, token_in) is Some == f.cancel_accounts(
            ro,
            request,
            signer,
            redeemer,
            token_in,
        ) is Some,
        f.create_request_accounts(ro, request, redeemer, token_in) matches Some(made)
            ==> f.cancel_accounts(ro, request, signer, redeemer, token_in) matches Some(undone)
            ==> {
            &&& undone.redemption_request == made.redemption_request
            &&& undone.vault_token_account == made.vault_token_account
            &&& undone.redeemer_token_account == made.redeemer_token_account
        },
{
}

// ---- open requests ----

/// Whether a request is open under a redemption offer.
pub open spec fn is_open(
    ctx: TestContext,
    program_id: Pubkey,
    ro: Pubkey,
    request: OpenRequest,
) -> bool {
    match request_key(program_id, ro, request.0) {
        Some(key) => request_at(ctx, key, request.0) == Some(request),
        None => false,
    }
}

/// The list of open requests is complete and exact: it holds a request if and only if its id is
/// below the counter and its account is there, each once, by ascending id.
pub proof fn law_open_requests_are_exactly_those_that_exist(
    ctx: TestContext,
    program_id: Pubkey,
    ro: Pubkey,
    request: OpenRequest,
)
    requires
        open_requests_under(ctx, program_id, ro) is Some,
    ensures
        ({
            let requests = open_requests_under(ctx, program_id, ro)->0;
            &&& requests.contains(request) <==> is_open(ctx, program_id, ro, request) && request.0
                < counter_of(ctx, ro)->0
            &&& forall|i: int, j: int|
                0 <= i < j < requests.len() ==> (#[trigger] requests[i]).0 < (
                #[trigger] requests[j]).0
        }),
{
    let counter = counter_of(ctx, ro)->0;
    let requests = open_requests_under(ctx, program_id, ro)->0;
    lemma_requests_below(ctx, program_id, ro, counter as nat);
    if is_open(ctx, program_id, ro, request) && request.0 < counter {
        lemma_open_request_is_listed(ctx, program_id, ro, request, counter as nat);
    }
    if requests.contains(request) {
        let i = choose|i: int| 0 <= i < requests.len() && requests[i] == request;
        assert(requests[i].0 < counter);
    }
}

/// An open request below the bound is in the list.
proof fn lemma_open_request_is_listed(
    ctx: TestContext,
    program_id: Pubkey,
    ro: Pubkey,
    request: OpenRequest,
    count: nat,
)
    requires
        request.0 < count <= SCOUT_REQUEST_SCAN_CAP,
        is_open(ctx, program_id, ro, request),
        requests_below(ctx, program_id, ro, count) is Some,
    ensures
        requests_below(ctx, program_id, ro, count)->0.contains(request),
    decreases count,
{
    let requests = requests_below(ctx, program_id, ro, count)->0;
    let earlier = requests_below(ctx, program_id, ro, (count - 1) as nat)->0;
    if request.0 == count - 1 {
        assert(requests[requests.len() - 1] == request);
    } else {
        lemma_open_request_is_listed(ctx, program_id, ro, request, (count - 1) as nat);
        let i = choose|i: int| 0 <= i < earlier.len() && earlier[i] == request;
        assert(requests[i] == request);
    }
}

/// The oldest open request is the one with the smallest id.
pub proof fn law_oldest_request_has_the_smallest_id(f: OnreappFixture, request: OpenRequest)
    requires
        open_requests_under(f.ctx, f.program_id, f.redemption_offer_pda) is Some,
        open_requests_under(f.ctx, f.program_id, f.redemption_offer_pda)->0.contains(request),
    ensures
        f.oldest_request() matches Some(oldest) && oldest.0 <= request.0,
{
    let ro = f.redemption_offer_pda;
    let requests = open_requests_under(f.ctx, f.program_id, ro)->0;
    law_open_requests_are_exactly_those_that_exist(f.ctx, f.program_id, ro, request);
    let i = choose|i: int| 0 <= i < requests.len() && requests[i] == request;
    assert(requests[0].0 <= requests[i].0);
}

// ---- building a world ----

/// What the first `count` steps hand out of a mint.
pub open spec fn handed_out(steps: Seq<Option<Step>>, mint: Pubkey, count: nat) -> nat
    decreases count,
{
    if count == 0 {
        0
    } else {
        handed_out(steps, mint, (count - 1) as nat) + match steps[count - 1] {
            Some(Step::TokenAccount { owner: _, mint: m, amount }) => if m == mint {
                amount as nat
            } else {
                0
            },
            Some(Step::FeeTokenAccount { owner: _, mint: m, amount }) => if m == mint {
                amount as nat
            } else {
                0
            },
            _ => 0,
        }
    }
}

/// The supply of every mint is exactly what building the world hands out of it. Its actors and its
/// mints must all be different.
#[verifier::rlimit(50)]
pub proof fn law_supplies_are_what_is_handed_out(f: OnreappFixture)
    requires
        mints_differ(f),
        f.boss.public() != f.user_a.public(),
        f.boss.public() != f.user_b.public(),
        f.offer_vault_authority != f.user_a.public(),
        f.offer_vault_authority != f.user_b.public(),
    ensures
        handed_out(f.setup_script(), f.mint_usdc, 36) == USDC_SUPPLY,
        handed_out(f.setup_script(), f.mint_onyc, 36) == ONYC_SUPPLY,
        handed_out(f.setup_script(), f.mint_play, 36) == 0,
        handed_out(f.setup_script(), f.mint_appr, 36) == APPR_SUPPLY,
        handed_out(f.setup_script(), f.mint_fee, 36) == FEE_SUPPLY,
{
    reveal_with_fuel(handed_out, 37);
}

/// Every transaction that building a world sends is signed by whom the program demands, and names
/// no token account but associated ones.
pub proof fn law_setup_sends_sound_plans(f: OnreappFixture, i: int)
    requires
        f.wf(),
        0 <= i < 36,
    ensures
        f.setup_script()[i] matches Some(Step::Send(send)) ==> send.plan.is_sound(),
{
}

/// P-0005 and P-0006 see every offer of a new world: each offer that building it makes is in the
/// registry that they read, which holds nothing else.
pub proof fn law_every_offer_of_a_new_world_is_registered(f: OnreappFixture, i: int)
    requires
        0 <= i < 36,
    ensures
        f.setup_script()[i] matches Some(Step::Send(send)) ==> (send.plan.call matches
            Call::MakeOffer { accounts, .. } ==> f.first_registries().p5.slots.take(4).contains(
            accounts.offer,
        )),
        holds_exactly(
            f.first_registries().p5,
            seq![f.offer_pda, f.offer_appr_pda, f.offer_rev_pda, f.offer_fee_pda],
        ),
{
    let first = f.first_registries().p5.slots.take(4);
    assert(first[0] == f.offer_pda);
    assert(first[1] == f.offer_appr_pda);
    assert(first[2] == f.offer_rev_pda);
    assert(first[3] == f.offer_fee_pda);
}

/// A balance that an account was created with is what is read from it, under both token programs.
pub proof fn law_created_balances_read_back(
    ctx: TestContext,
    key: Pubkey,
    mint: Pubkey,
    owner: Pubkey,
    amount: u64,
)
    requires
        data_at(ctx, key) == Some(token_layout(mint, owner, amount)) || data_at(ctx, key) == Some(
            fee_account_layout(mint, owner, amount),
        ),
    ensures
        token_balance_at(ctx, key) == amount,
{
    lemma_auto_spec_u64_to_from_le_bytes();
    let data = data_at(ctx, key)->0;
    assert(data.subrange(64, 72) =~= spec_u64_to_le_bytes(amount));
}

/// A supply that a mint was created with is what is read from it, under both token programs.
pub proof fn law_created_supplies_read_back(
    ctx: TestContext,
    key: Pubkey,
    authority: Pubkey,
    supply: u64,
    decimals: u8,
    older: TransferFee,
    newer: TransferFee,
)
    requires
        data_at(ctx, key) == Some(mint_layout(authority, supply, decimals)) || data_at(ctx, key)
            == Some(fee_mint_layout(authority, supply, decimals, older, newer)),
    ensures
        word_at(ctx, key, SCOUT_MINT_SUPPLY_OFFSET as int) == Some(supply),
{
    lemma_auto_spec_u64_to_from_le_bytes();
    let data = data_at(ctx, key)->0;
    assert(data.subrange(36, 44) =~= spec_u64_to_le_bytes(supply));
}

} // verus!
