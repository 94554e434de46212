//! What holds of each property: which bytes it compares, when it says anything, and what it says
//! then.

use crucible_test_context::TestContext;
use vstd::bytes::{spec_u128_from_le_bytes, spec_u16_from_le_bytes, spec_u64_from_le_bytes};
use vstd::prelude::*;

use crate::context::data_at;
use crate::fixture::{OnreappFixture, SCOUT_CLOSED_ACCOUNT_DISCRIMINATOR};
use crate::invariant_laws::{distinct_keys, law_every_address_counts_once, sum_under};
use crate::invariants::{
    aggregate_verdict, claim, claim_under, claims, claims_under, clamp, fee_vault_verdict,
    fee_verdict, fee_verdicts, legs_verdict, legs_verdicts, seen_before,
    supply_verdict, vault_verdict,
};
use crate::keys::{base58, lemma_key_of, lemma_same_bytes, Pubkey, DEFAULT_PUBKEY};
use crate::text::decimal;

verus! {

// ---- what requests claim ----

/// The mark of a closed account: eight bytes, all ones.
pub open spec fn closed_mark() -> Seq<u8> {
    seq![255u8, 255u8, 255u8, 255u8, 255u8, 255u8, 255u8, 255u8]
}

/// An open request claims the amount that its account records, whatever its discriminator, as long
/// as that is not the mark of a closed one. Under an offer, it claims that amount where its account
/// names the offer, and nothing elsewhere.
pub proof fn law_open_request_claims_its_amount(
    ctx: TestContext,
    key: Pubkey,
    offer: Pubkey,
    data: Seq<u8>,
)
    requires
        data_at(ctx, key) == Some(data),
        data.len() >= 88,
        data.subrange(0, 8) != closed_mark(),
    ensures
        claim(ctx, key) == spec_u64_from_le_bytes(data.subrange(80, 88)),
        data.subrange(8, 40) == offer@ ==> claim_under(ctx, key, offer) == spec_u64_from_le_bytes(
            data.subrange(80, 88),
        ),
        data.subrange(8, 40) != offer@ ==> claim_under(ctx, key, offer) == 0,
{
    assert(SCOUT_CLOSED_ACCOUNT_DISCRIMINATOR@ =~= closed_mark());
}

/// A closed request claims nothing, and neither does an account too short for one or none at all.
pub proof fn law_closed_request_claims_nothing(ctx: TestContext, key: Pubkey, offer: Pubkey)
    requires
        data_at(ctx, key) matches Some(data) ==> data.len() < 88 || data.subrange(0, 8)
            == closed_mark(),
    ensures
        claim(ctx, key) == 0,
        claim_under(ctx, key, offer) == 0,
{
    assert(SCOUT_CLOSED_ACCOUNT_DISCRIMINATOR@ =~= closed_mark());
}

/// What a request claims depends on nothing but its own account.
pub proof fn law_claim_depends_on_its_account(
    one: TestContext,
    other: TestContext,
    key: Pubkey,
    offer: Pubkey,
)
    requires
        data_at(one, key) == data_at(other, key),
    ensures
        claim(one, key) == claim(other, key),
        claim_under(one, key, offer) == claim_under(other, key, offer),
{
}

/// What one slot adds to the claims of the slots before it: what its request claims, and nothing
/// where the slot holds the default address.
pub proof fn law_each_slot_adds_its_claim(ctx: TestContext, slots: Seq<Pubkey>, at: nat)
    ensures
        claims(ctx, slots, 0) == 0,
        slots[at as int]@ == Seq::new(32, |i: int| 0u8) ==> claims(ctx, slots, at + 1) == claims(
            ctx,
            slots,
            at,
        ),
        slots[at as int]@ != Seq::new(32, |i: int| 0u8) ==> claims(ctx, slots, at + 1) == claims(
            ctx,
            slots,
            at,
        ) + claim(ctx, slots[at as int]),
{
    assert(DEFAULT_PUBKEY@ =~= Seq::new(32, |i: int| 0u8));
    if slots[at as int]@ == DEFAULT_PUBKEY@ {
        lemma_same_bytes(slots[at as int], DEFAULT_PUBKEY);
    }
}

/// Under an offer, a slot adds what its request claims there, unless it holds the default address
/// or an earlier slot holds the same one.
pub proof fn law_each_new_address_adds_its_claim(
    ctx: TestContext,
    slots: Seq<Pubkey>,
    offer: Pubkey,
    at: nat,
)
    requires
        at < slots.len(),
    ensures
        claims_under(ctx, slots, offer, 0) == 0,
        ({
            let key = slots[at as int];
            let new = key@ != Seq::new(32, |i: int| 0u8) && !slots.take(at as int).contains(key);
            let before = claims_under(ctx, slots, offer, at);
            let after = claims_under(ctx, slots, offer, at + 1);
            after == before + if new {
                claim_under(ctx, key, offer)
            } else {
                0
            }
        }),
{
    let key = slots[at as int];
    let before = slots.take(at as int);
    assert(DEFAULT_PUBKEY@ =~= Seq::new(32, |i: int| 0u8));
    if key@ == DEFAULT_PUBKEY@ {
        lemma_same_bytes(key, DEFAULT_PUBKEY);
    }
    if before.contains(key) {
        let j = choose|j: int| 0 <= j < before.len() && before[j] == key;
        assert(slots[j] == slots[at as int]);
    }
    if seen_before(slots, at as int) {
        let j = choose|j: int| 0 <= j < at && #[trigger] slots[j] == slots[at as int];
        assert(before[j] == key);
    }
}

/// A sum is kept as it is while a word can hold it, and is the largest word beyond that.
pub proof fn law_sums_are_kept_up_to_a_word(n: nat)
    ensures
        n <= 0xffff_ffff_ffff_ffff ==> clamp(n) == n,
        n > 0xffff_ffff_ffff_ffff ==> clamp(n) == 0xffff_ffff_ffff_ffff,
{
}

// ---- P-0002 ----

/// Whether a token account holds an amount.
pub open spec fn vault_holds(ctx: TestContext, vault: Pubkey, held: u64) -> bool {
    data_at(ctx, vault) matches Some(data) && data.len() >= 72 && spec_u64_from_le_bytes(
        data.subrange(64, 72),
    ) == held
}

/// P-0002 speaks wherever the ONyc vault can be read, its registry has not wrapped and some request
/// is open; it holds exactly where the vault covers what the registered requests claim.
pub proof fn law_vault_is_judged_by_its_balance(f: OnreappFixture, held: u64)
    requires
        vault_holds(f.ctx, f.redemption_vault_onyc, held),
        f.scout_p2_next <= 32,
        claims(f.ctx, f.scout_p2_reqs@, 32) <= u64::MAX,
    ensures
        ({
            let locked = claims(f.ctx, f.scout_p2_reqs@, 32);
            &&& vault_verdict(f) is Some <==> locked > 0
            &&& vault_verdict(f) matches Some(verdict) ==> {
                &&& verdict.holds <==> held >= locked
                &&& !verdict.holds ==> verdict.message == "P-0002: redemption vault "@ + base58(
                    f.redemption_vault_onyc@,
                ) + " holds "@ + decimal(held as nat)
                    + " ONyc but open redemption requests have "@ + decimal(locked)
                    + " locked in it (shortfall "@ + decimal((locked - held) as nat)
                    + "). Those requests can now be neither fulfilled nor cancelled - both paths transfer out of this account."@
            }
        }),
{
}

/// Beyond what a word can hold, P-0002 reports every vault but a full one.
pub proof fn law_vault_is_short_of_more_than_a_word(f: OnreappFixture, held: u64)
    requires
        vault_holds(f.ctx, f.redemption_vault_onyc, held),
        f.scout_p2_next <= 32,
        claims(f.ctx, f.scout_p2_reqs@, 32) > u64::MAX,
    ensures
        vault_verdict(f) matches Some(verdict) && (verdict.holds <==> held == u64::MAX),
{
}

/// P-0002 says nothing once its registry has wrapped, or where the vault cannot be read.
pub proof fn law_vault_is_not_judged(f: OnreappFixture)
    requires
        f.scout_p2_next > 32 || !(data_at(f.ctx, f.redemption_vault_onyc) matches Some(data)
            && data.len() >= 72),
    ensures
        vault_verdict(f) is None,
{
}

// ---- P-0003 ----

/// P-0003 speaks wherever the main redemption offer can be read and its registry has not wrapped;
/// it holds exactly where what the offer records is what the registered requests claim under it,
/// each address once.
pub proof fn law_aggregate_is_judged_by_the_record(f: OnreappFixture, data: Seq<u8>)
    requires
        data_at(f.ctx, f.redemption_offer_pda) == Some(data),
        data.len() >= 136,
        f.scout_p3_next <= 32,
    ensures
        ({
            let offer = f.redemption_offer_pda;
            let recorded = spec_u128_from_le_bytes(data.subrange(120, 136));
            let summed = sum_under(f.ctx, distinct_keys(f.scout_p3_reqs@, 32), offer);
            &&& aggregate_verdict(f) is Some
            &&& aggregate_verdict(f) matches Some(verdict) ==> {
                &&& verdict.holds <==> recorded == summed
                &&& verdict.message == "P-0003: redemption offer "@ + base58(offer@)
                    + " records requested_redemptions="@ + decimal(recorded as nat)
                    + " but the requests that still exist and name it sum to "@ + decimal(summed)
                    + "."@
            }
        }),
{
    law_every_address_counts_once(f.ctx, f.scout_p3_reqs@, f.redemption_offer_pda, 32);
}

/// P-0003 says nothing once its registry has wrapped, or where the offer cannot be read.
pub proof fn law_aggregate_is_not_judged(f: OnreappFixture)
    requires
        f.scout_p3_next > 32 || !(data_at(f.ctx, f.redemption_offer_pda) matches Some(data)
            && data.len() >= 136),
    ensures
        aggregate_verdict(f) is None,
{
}

// ---- P-0004 ----

/// P-0004 speaks wherever the state sets a cap and the supply of the mint that it names can be
/// read; it holds exactly where that supply is within the cap, however large either is.
pub proof fn law_supply_is_judged_by_the_cap(
    f: OnreappFixture,
    state: Seq<u8>,
    mint: Pubkey,
    data: Seq<u8>,
)
    requires
        data_at(f.ctx, f.state_pda) == Some(state),
        state.len() >= 818,
        state.subrange(73, 105) == mint@,
        data_at(f.ctx, mint) == Some(data),
        data.len() >= 44,
    ensures
        ({
            let cap = spec_u64_from_le_bytes(state.subrange(810, 818));
            let supply = spec_u64_from_le_bytes(data.subrange(36, 44));
            &&& supply_verdict(f) is Some <==> cap != 0
            &&& supply_verdict(f) matches Some(verdict) ==> {
                &&& verdict.holds <==> supply <= cap
                &&& !verdict.holds ==> verdict.message == "P-0004: mint "@ + base58(mint@)
                    + " has supply "@ + decimal(supply as nat) + " but state.max_supply is "@
                    + decimal(cap as nat) + " (over by "@ + decimal((supply - cap) as nat)
                    + "). The cap is enforced by mint_to and take_offer, which pass state.max_supply to mint_tokens, but fulfill_redemption_request passes a hard-coded 0."@
            }
        }),
{
    lemma_key_of(mint);
}

/// P-0004 says nothing where the state cannot be read that far, or the supply of its mint cannot.
pub proof fn law_supply_is_not_judged(f: OnreappFixture, mint: Pubkey)
    requires
        data_at(f.ctx, f.state_pda) matches Some(state) ==> state.len() < 818 || {
            &&& state.subrange(73, 105) == mint@
            &&& data_at(f.ctx, mint) matches Some(data) ==> data.len() < 44
        },
    ensures
        supply_verdict(f) is None,
{
    lemma_key_of(mint);
}

// ---- P-0005 and P-0006 ----

/// P-0005 judges an offer that names both of its mints: it holds exactly where they differ.
pub proof fn law_legs_are_judged(ctx: TestContext, offer: Pubkey, data: Seq<u8>)
    requires
        data_at(ctx, offer) == Some(data),
        data.len() >= 72,
        offer@ != Seq::new(32, |i: int| 0u8),
    ensures
        legs_verdict(ctx, offer) matches Some(verdict) && {
            &&& verdict.holds <==> data.subrange(8, 40) != data.subrange(40, 72)
            &&& verdict.message == "P-0005: offer "@ + base58(offer@) + " exchanges mint "@
                + base58(data.subrange(8, 40))
                + " for itself. Its taker receives token_in_net * 1e9 / price of the same token they paid, so any price below 1.0 mints value from nothing and any price above 1.0 destroys the taker's."@
        },
{
    assert(DEFAULT_PUBKEY@ =~= Seq::new(32, |i: int| 0u8));
}

/// P-0006 judges an offer whose fee can be read: it holds exactly where the fee is at most 10%.
pub proof fn law_fee_is_judged(ctx: TestContext, offer: Pubkey, data: Seq<u8>)
    requires
        data_at(ctx, offer) == Some(data),
        data.len() >= 474,
        offer@ != Seq::new(32, |i: int| 0u8),
    ensures
        ({
            let fee = spec_u16_from_le_bytes(data.subrange(472, 474));
            fee_verdict(ctx, offer) matches Some(verdict) && {
                &&& verdict.holds <==> fee <= 1_000
                &&& verdict.message == "P-0006: offer "@ + base58(offer@)
                    + " has fee_basis_points "@ + decimal(fee as nat)
                    + " which exceeds MAX_ALLOWED_FEE_BPS ("@ + decimal(1_000)
                    + "). make_offer, make_redemption_offer and update_redemption_offer_fee all enforce that ceiling; update_offer_fee bounds against MAX_BASIS_POINTS (10000) instead."@
            }
        }),
{
    assert(DEFAULT_PUBKEY@ =~= Seq::new(32, |i: int| 0u8));
}

/// Neither says anything of the default address, of an address where nothing stands, or of an
/// account that ends before what they read.
pub proof fn law_offer_is_not_judged(ctx: TestContext, offer: Pubkey)
    ensures
        offer@ == Seq::new(32, |i: int| 0u8) || data_at(ctx, offer) is None ==> legs_verdict(
            ctx,
            offer,
        ) is None && fee_verdict(ctx, offer) is None,
        data_at(ctx, offer) matches Some(data) && data.len() < 72 ==> legs_verdict(ctx, offer)
            is None,
        data_at(ctx, offer) matches Some(data) && data.len() < 474 ==> fee_verdict(ctx, offer)
            is None,
{
    assert(DEFAULT_PUBKEY@ =~= Seq::new(32, |i: int| 0u8));
    if offer@ == DEFAULT_PUBKEY@ {
        lemma_same_bytes(offer, DEFAULT_PUBKEY);
    }
}

/// Every slot of the registry of offers is judged, in order, for as long as it has not wrapped;
/// then none is.
pub proof fn law_every_slot_of_the_offers_is_judged(f: OnreappFixture, i: int)
    ensures
        f.scout_p5_next <= 16 ==> {
            &&& legs_verdicts(f).len() == 16
            &&& fee_verdicts(f).len() == 16
            &&& 0 <= i < 16 ==> legs_verdicts(f)[i] == legs_verdict(f.ctx, f.scout_p5_offers@[i])
            &&& 0 <= i < 16 ==> fee_verdicts(f)[i] == fee_verdict(f.ctx, f.scout_p5_offers@[i])
        },
        f.scout_p5_next > 16 ==> legs_verdicts(f).len() == 0 && fee_verdicts(f).len() == 0,
{
}

// ---- P-0008 ----

/// P-0008 speaks wherever the transfer-fee vault can be read and its registry has not wrapped; it
/// holds exactly where the vault covers what the registered requests claim under the transfer-fee
/// redemption offer, each address once.
pub proof fn law_fee_vault_is_judged_by_its_balance(f: OnreappFixture, held: u64)
    requires
        vault_holds(f.ctx, f.redemption_vault_fee_ata, held),
        f.scout_p8_next <= 32,
    ensures
        ({
            let offer = f.redemption_offer_fee_pda;
            let claimed = sum_under(f.ctx, distinct_keys(f.scout_p8_reqs@, 32), offer);
            &&& fee_vault_verdict(f) is Some
            &&& fee_vault_verdict(f) matches Some(verdict) ==> {
                &&& claimed <= u64::MAX ==> (verdict.holds <==> held >= claimed)
                &&& claimed > u64::MAX ==> (verdict.holds <==> held == u64::MAX)
                &&& claimed <= u64::MAX && !verdict.holds ==> verdict.message
                    == "P-0008: the redemption vault "@ + base58(f.redemption_vault_fee_ata@)
                    + " for the transfer-fee mint "@ + base58(f.mint_fee@) + " holds "@ + decimal(
                    held as nat,
                ) + " but open redemption requests have "@ + decimal(claimed)
                    + " locked against it (shortfall "@ + decimal((claimed - held) as nat)
                    + "). token_in charges a transfer fee, so each deposit arrived short of the amount the program recorded; `has_transfer_fee` is consulted only on the offer path (token_utils.rs:374,378) and nowhere on the redemption path. No privileged signer participates."@
            }
        }),
{
    law_every_address_counts_once(f.ctx, f.scout_p8_reqs@, f.redemption_offer_fee_pda, 32);
}

/// P-0008 says nothing once its registry has wrapped, or where the vault cannot be read.
pub proof fn law_fee_vault_is_not_judged(f: OnreappFixture)
    requires
        f.scout_p8_next > 32 || !(data_at(f.ctx, f.redemption_vault_fee_ata) matches Some(data)
            && data.len() >= 72),
    ensures
        fee_vault_verdict(f) is None,
{
}

} // verus!
