//! What holds of one step of a run: how the clock moves, how drawn values are bounded, and what a
//! success notes in the registries.

use crucible_test_context::TestContext;
use vstd::bytes::{lemma_auto_spec_u64_to_from_le_bytes, spec_u64_to_le_bytes};
use vstd::prelude::*;

use crate::bytes::{signed_of, word_of};
use crate::check::MonitorView;
use crate::context::{clock_data, context_accounts, has_clock, now_of, slot_of};
use crate::fixture::OnreappFixture;
use crate::instruction::Record;
use crate::keys::{Pubkey, CLOCK_SYSVAR_ID, SYSVAR_OWNER_ID};
use crate::registry::{noted_on_log, Registries, Registry};
use crate::scenarios::{
    advanced, bounded_amount, cap_above, expiry_of, same_mint_price, time_after, time_step,
};

verus! {

// ---- time ----

/// A step of time is one second more than the value drawn, taken round every forty million.
pub proof fn law_time_steps_go_round(seconds: u32)
    ensures
        seconds < 40_000_000 ==> time_step(seconds) == seconds + 1,
        seconds + 40_000_000 <= u32::MAX ==> time_step((seconds + 40_000_000) as u32) == time_step(
            seconds,
        ),
        1 <= time_step(seconds) <= 40_000_000,
{
}

/// The time after some seconds is that many seconds later, and the end of the range where that
/// would lead past it.
pub proof fn law_time_after_is_exact(now: u64, seconds: int)
    requires
        seconds >= 0,
    ensures
        signed_of(now) + seconds <= i64::MAX ==> time_after(now, seconds) == signed_of(now)
            + seconds,
        signed_of(now) + seconds > i64::MAX ==> time_after(now, seconds) == i64::MAX,
{
}

/// Advancing the time changes the clock alone, and of the clock only its time and its slot, which
/// grows by one.
pub proof fn law_advancing_changes_time_and_slot_alone(
    ctx: TestContext,
    seconds: u32,
    other: Seq<u8>,
)
    requires
        has_clock(ctx),
        slot_of(ctx) < u64::MAX,
    ensures
        ({
            let before = context_accounts(ctx);
            let after = advanced(ctx, seconds);
            let clock = after[CLOCK_SYSVAR_ID@];
            let later = if signed_of(now_of(ctx)) + 1 + seconds % 40_000_000 > i64::MAX {
                i64::MAX as int
            } else {
                signed_of(now_of(ctx)) + 1 + seconds % 40_000_000
            };
            &&& after.dom() == before.dom()
            &&& other != CLOCK_SYSVAR_ID@ && before.dom().contains(other) ==> after[other]
                == before[other]
            &&& clock.data.len() == 40
            &&& clock.data.subrange(0, 8) == spec_u64_to_le_bytes((slot_of(ctx) + 1) as u64)
            &&& clock.data.subrange(8, 32) == clock_data(ctx).subrange(8, 32)
            &&& clock.data.subrange(32, 40) == spec_u64_to_le_bytes(word_of(later as i64))
            &&& clock.owner == SYSVAR_OWNER_ID@
            &&& clock.lamports == 1
        }),
{
    lemma_auto_spec_u64_to_from_le_bytes();
    let before = context_accounts(ctx);
    let after = advanced(ctx, seconds);
    let data = after[CLOCK_SYSVAR_ID@].data;
    let later = time_after(now_of(ctx), time_step(seconds));
    assert(after.dom() =~= before.dom());
    assert(data.len() == 40);
    assert(data.subrange(0, 8) =~= spec_u64_to_le_bytes((slot_of(ctx) + 1) as u64));
    assert(data.subrange(8, 32) =~= clock_data(ctx).subrange(8, 32));
    assert(data.subrange(32, 40) =~= spec_u64_to_le_bytes(word_of(later)));
}

// ---- drawn values ----

/// With bit 2 of the selector clear, an amount is one more than the value drawn, taken round the
/// bound; with it set, the value itself.
pub proof fn law_drawn_amounts_go_round(amount: u64, sel: u8, cap: u64)
    requires
        cap > 0,
    ensures
        (sel / 4) % 2 == 1 ==> bounded_amount(amount, sel, cap) == amount,
        (sel / 4) % 2 == 0 && amount < cap ==> bounded_amount(amount, sel, cap) == amount + 1,
        (sel / 4) % 2 == 0 && amount + cap <= u64::MAX ==> bounded_amount(
            (amount + cap) as u64,
            sel,
            cap,
        ) == bounded_amount(amount, sel, cap),
{
    let (a, c) = (amount as int, cap as int);
    if amount < cap {
        vstd::arithmetic::div_mod::lemma_small_mod(amount as nat, cap as nat);
    }
    vstd::arithmetic::div_mod::lemma_mod_add_multiples_vanish(a, c);
    assert((c + a) % c == a % c);
}

/// The price of the offer from a mint to itself is taken round every 1.0, and is the least one
/// above zero where that gives nothing.
pub proof fn law_same_mint_prices_go_round(price: u64)
    ensures
        0 < price < 1_000_000_000 ==> same_mint_price(price) == price,
        same_mint_price(0) == 1,
        price + 1_000_000_000 <= u64::MAX ==> same_mint_price((price + 1_000_000_000) as u64)
            == same_mint_price(price),
{
}

/// The cap is the supply and the headroom drawn, which is taken round every million million, and
/// the largest word where that is more.
pub proof fn law_caps_leave_the_headroom_drawn(supply: u64, headroom: u64)
    ensures
        headroom < 1_000_000_000_000 && supply + headroom <= u64::MAX ==> cap_above(
            supply,
            headroom,
        ) == supply + headroom,
        headroom < 1_000_000_000_000 && supply + headroom > u64::MAX ==> cap_above(supply, headroom)
            == u64::MAX,
        headroom + 1_000_000_000_000 <= u64::MAX ==> cap_above(
            supply,
            (headroom + 1_000_000_000_000) as u64,
        ) == cap_above(supply, headroom),
{
}

/// An approval expires as many seconds from the time on the clock as were drawn, neither before
/// zero nor after the last time that a clock can show.
pub proof fn law_expiry_is_kept_in_range(now: u64, delta: i32)
    ensures
        0 <= signed_of(now) + delta <= i64::MAX ==> expiry_of(now, delta) == signed_of(now) + delta,
        signed_of(now) + delta < 0 ==> expiry_of(now, delta) == 0,
        signed_of(now) + delta > i64::MAX ==> expiry_of(now, delta) == i64::MAX,
{
}

// ---- registries ----

/// An address goes to the next slot round the ring, no other slot changes, and the registry counts
/// one address more as long as it can count.
pub proof fn law_ring_takes_the_next_slot(registry: Registry, key: Pubkey, turns: nat, at: int)
    requires
        0 <= at < registry.slots.len(),
        registry.next == turns * registry.slots.len() + at,
    ensures
        ({
            let after = registry.with(key);
            &&& after.slots.len() == registry.slots.len()
            &&& after.slots[at] == key
            &&& forall|i: int|
                0 <= i < registry.slots.len() && i != at ==> #[trigger] after.slots[i]
                    == registry.slots[i]
            &&& registry.next < usize::MAX ==> after.next == registry.next + 1
            &&& registry.next == usize::MAX ==> after.next == registry.next
        }),
{
    let len = registry.slots.len() as int;
    vstd::arithmetic::div_mod::lemma_fundamental_div_mod_converse(
        registry.next as int,
        len,
        turns as int,
        at,
    );
}

/// A registry that does not wrap takes an address into its next free slot; where it has none, it
/// keeps every slot and counts one more than it has.
pub proof fn law_bounded_registry_keeps_its_slots(registry: Registry, key: Pubkey)
    requires
        registry.slots.len() < usize::MAX,
    ensures
        ({
            let after = registry.with_bounded(key);
            &&& registry.next < registry.slots.len() ==> {
                &&& after.next == registry.next + 1
                &&& after.slots.len() == registry.slots.len()
                &&& after.slots[registry.next as int] == key
                &&& forall|i: int|
                    0 <= i < registry.slots.len() && i != registry.next
                        ==> #[trigger] after.slots[i] == registry.slots[i]
            }
            &&& registry.next >= registry.slots.len() ==> {
                &&& after.slots == registry.slots
                &&& after.next == registry.slots.len() + 1
            }
            &&& registry.overflowed() <==> registry.next >= registry.slots.len() + 1
        }),
{
}

/// What a success notes, whatever is selected. A new offer goes to the registry of offers where
/// P-0005 or P-0006 is selected. A request of the main redemption offer goes to the registry of
/// P-0002 where that is selected, and to those of P-0003 and of the pooled requests where P-0003
/// is. The requests of the scenarios go to the pooled requests or to those against the transfer-fee
/// offer, whatever is selected. Nothing else changes.
pub proof fn law_success_notes_its_record(
    registries: Registries,
    monitor: MonitorView,
    key: Pubkey,
)
    ensures
        registries.noted(Record::Nothing, monitor) == registries,
        ({
            let after = registries.noted(Record::Offer(key), monitor);
            let seen = monitor.selects("P-0005"@) || monitor.selects("P-0006"@);
            &&& after.p5 == (if seen {
                registries.p5.with(key)
            } else {
                registries.p5
            })
            &&& after.p2 == registries.p2 && after.p3 == registries.p3 && after.p7 == registries.p7
                && after.p8 == registries.p8
        }),
        ({
            let after = registries.noted(Record::Request(key), monitor);
            &&& after.p2 == (if monitor.selects("P-0002"@) {
                registries.p2.with(key)
            } else {
                registries.p2
            })
            &&& after.p3 == (if monitor.selects("P-0003"@) {
                registries.p3.with(key)
            } else {
                registries.p3
            })
            &&& after.p7 == (if monitor.selects("P-0003"@) {
                registries.p7.with(key)
            } else {
                registries.p7
            })
            &&& after.p5 == registries.p5 && after.p8 == registries.p8
        }),
        ({
            let after = registries.noted(Record::PlayRequest(key), monitor);
            &&& after.p7 == registries.p7.with(key)
            &&& after.p2 == registries.p2 && after.p3 == registries.p3 && after.p5 == registries.p5
                && after.p8 == registries.p8
        }),
        ({
            let after = registries.noted(Record::FeeRequest(key), monitor);
            &&& after.p8 == registries.p8.with_bounded(key)
            &&& after.p2 == registries.p2 && after.p3 == registries.p3 && after.p5 == registries.p5
                && after.p7 == registries.p7
        }),
{
}

/// Noting a success says nothing but that the properties it asks for are muted, where they are:
/// both properties of offers for an offer, and P-0002 and P-0003 for a request.
pub proof fn law_noting_asks_for_its_properties(monitor: MonitorView, key: Pubkey)
    ensures
        noted_on_log(Record::Nothing, monitor) == monitor,
        noted_on_log(Record::PlayRequest(key), monitor) == monitor,
        noted_on_log(Record::FeeRequest(key), monitor) == monitor,
        ({
            let after = noted_on_log(Record::Offer(key), monitor);
            let muted = monitor.mutes("P-0005"@) || monitor.mutes("P-0006"@);
            &&& muted ==> after == monitor.announce(monitor.mute->0)
            &&& !muted ==> after == monitor
        }),
        ({
            let after = noted_on_log(Record::Request(key), monitor);
            let muted = monitor.mutes("P-0002"@) || monitor.mutes("P-0003"@);
            &&& muted ==> after == monitor.announce(monitor.mute->0)
            &&& !muted ==> after == monitor
        }),
{
}

/// Each registry of a world is made of its own slots and its own count.
pub proof fn law_registries_are_those_of_the_world(f: OnreappFixture)
    ensures
        f.registries().p2.slots == f.scout_p2_reqs@ && f.registries().p2.next == f.scout_p2_next,
        f.registries().p3.slots == f.scout_p3_reqs@ && f.registries().p3.next == f.scout_p3_next,
        f.registries().p5.slots == f.scout_p5_offers@ && f.registries().p5.next == f.scout_p5_next,
        f.registries().p7.slots == f.scout_p7_reqs@ && f.registries().p7.next == f.scout_p7_next,
        f.registries().p8.slots == f.scout_p8_reqs@ && f.registries().p8.next == f.scout_p8_next,
{
}

/// Worlds that differ in their registries at most agree on their chain, their actors, their mints
/// and their addresses.
pub proof fn law_registries_are_all_that_differs(f: OnreappFixture, g: OnreappFixture)
    requires
        f.same_but_registries(g),
    ensures
        f.ctx == g.ctx,
        f.program_id == g.program_id,
        f.payer == g.payer && f.boss == g.boss && f.user_a == g.user_a && f.user_b == g.user_b,
        f.redemption_admin == g.redemption_admin && f.approver == g.approver,
        f.mint_usdc == g.mint_usdc && f.mint_onyc == g.mint_onyc && f.mint_play == g.mint_play,
        f.mint_appr == g.mint_appr && f.mint_fee == g.mint_fee,
        f.state_pda == g.state_pda && f.mint_authority_pda == g.mint_authority_pda,
        f.offer_vault_authority == g.offer_vault_authority,
        f.redemption_vault_authority == g.redemption_vault_authority,
        f.permissionless_authority == g.permissionless_authority,
        f.offer_pda == g.offer_pda && f.offer_rev_pda == g.offer_rev_pda,
        f.offer_appr_pda == g.offer_appr_pda && f.offer_fee_pda == g.offer_fee_pda,
        f.redemption_offer_pda == g.redemption_offer_pda,
        f.redemption_offer_rev_pda == g.redemption_offer_rev_pda,
        f.redemption_offer_fee_pda == g.redemption_offer_fee_pda,
        f.redemption_vault_onyc == g.redemption_vault_onyc,
        f.redemption_vault_fee_ata == g.redemption_vault_fee_ata,
        f.admin_actions == g.admin_actions,
{
}

} // verus!
