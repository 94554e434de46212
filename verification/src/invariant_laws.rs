//! What holds of the properties: every way in which a registry or an account can be off makes them
//! say less, never more.

use crucible_test_context::TestContext;
use vstd::prelude::*;

use crate::bytes::{le_u16, le_u64};
use crate::context::data_at;
use crate::fixture::{
    requested_redemptions_at, word_at, OnreappFixture, SCOUT_CLOSED_ACCOUNT_DISCRIMINATOR,
    SCOUT_MAX_ALLOWED_FEE_BPS, SCOUT_MINT_SUPPLY_OFFSET, SCOUT_OFFER_FEE_END,
    SCOUT_OFFER_FEE_OFFSET, SCOUT_REQ_CAP,
    SCOUT_REQ_MIN_LEN, SCOUT_STATE_MAX_SUPPLY_END, SCOUT_STATE_MAX_SUPPLY_OFFSET,
    SCOUT_STATE_ONYC_MINT_END, SCOUT_STATE_ONYC_MINT_OFFSET, SCOUT_TOKEN_AMOUNT_OFFSET,
};
use crate::invariants::{
    aggregate_verdict, claim, claim_under, claims, claims_under, clamp, fee_vault_verdict,
    fee_verdicts, legs_verdicts, seen_before, supply_verdict, vault_verdict,
};
use crate::keys::{key_of, Pubkey, DEFAULT_PUBKEY};
use crate::laws::holds_exactly;
use crate::registry::Registry;
use crate::scenarios::cap_above;

verus! {

/// A registry that has wrapped silences the properties that read it: none of them sums a partial
/// set.
pub proof fn law_wrapped_registries_say_nothing(f: OnreappFixture)
    ensures
        f.registries().p2.overflowed() ==> vault_verdict(f) is None,
        f.registries().p3.overflowed() ==> aggregate_verdict(f) is None,
        f.registries().p5.overflowed() ==> legs_verdicts(f).len() == 0 && fee_verdicts(f).len()
            == 0,
        f.registries().p8.overflowed() ==> fee_vault_verdict(f) is None,
{
}

/// An account that cannot be read silences the property over it: none of them reads it as empty.
pub proof fn law_unreadable_accounts_say_nothing(f: OnreappFixture)
    ensures
        data_at(f.ctx, f.redemption_vault_onyc) is None ==> vault_verdict(f) is None,
        data_at(f.ctx, f.redemption_offer_pda) is None ==> aggregate_verdict(f) is None,
        data_at(f.ctx, f.state_pda) is None ==> supply_verdict(f) is None,
        data_at(f.ctx, f.redemption_vault_fee_ata) is None ==> fee_vault_verdict(f) is None,
{
}

/// A request counts only while it is open: nothing at its address, too short an account or a closed
/// one claims nothing. Under an offer, it counts only where the request itself names that offer.
pub proof fn law_only_open_requests_of_the_offer_claim(
    ctx: TestContext,
    key: Pubkey,
    offer: Pubkey,
)
    ensures
        data_at(ctx, key) is None ==> claim(ctx, key) == 0 && claim_under(ctx, key, offer) == 0,
        data_at(ctx, key) matches Some(data) ==> {
            &&& data.len() < SCOUT_REQ_MIN_LEN || data.subrange(0, 8)
                == SCOUT_CLOSED_ACCOUNT_DISCRIMINATOR@ ==> claim(ctx, key) == 0 && claim_under(
                ctx,
                key,
                offer,
            ) == 0
            &&& data.len() >= SCOUT_REQ_MIN_LEN && data.subrange(8, 40) != offer@ ==> claim_under(
                ctx,
                key,
                offer,
            ) == 0
        },
        claim_under(ctx, key, offer) <= claim(ctx, key),
{
}

/// The addresses in the first `count` slots, each once, without the default one.
pub open spec fn distinct_keys(slots: Seq<Pubkey>, count: nat) -> Seq<Pubkey>
    decreases count,
{
    if count == 0 {
        Seq::empty()
    } else {
        let earlier = distinct_keys(slots, (count - 1) as nat);
        if slots[count - 1] == DEFAULT_PUBKEY || seen_before(slots, count - 1) {
            earlier
        } else {
            earlier.push(slots[count - 1])
        }
    }
}

/// What the requests at some addresses lock under an offer.
pub open spec fn sum_under(ctx: TestContext, keys: Seq<Pubkey>, offer: Pubkey) -> nat
    decreases keys.len(),
{
    if keys.len() == 0 {
        0
    } else {
        sum_under(ctx, keys.drop_last(), offer) + claim_under(ctx, keys.last(), offer)
    }
}

/// No address is counted twice: the claims under an offer are the sum over the registered
/// addresses, each taken once, however often it was registered.
pub proof fn law_every_address_counts_once(
    ctx: TestContext,
    slots: Seq<Pubkey>,
    offer: Pubkey,
    count: nat,
)
    requires
        count <= slots.len(),
    ensures
        claims_under(ctx, slots, offer, count) == sum_under(
            ctx,
            distinct_keys(slots, count),
            offer,
        ),
        distinct_keys(slots, count).no_duplicates(),
        forall|key: Pubkey| #[trigger]
            distinct_keys(slots, count).contains(key) <==> key != DEFAULT_PUBKEY && slots.subrange(
                0,
                count as int,
            ).contains(key),
    decreases count,
{
    if count > 0 {
        let last = (count - 1) as nat;
        law_every_address_counts_once(ctx, slots, offer, last);
        let earlier = distinct_keys(slots, last);
        let now = distinct_keys(slots, count);
        let key = slots[count - 1];
        let before = slots.subrange(0, count - 1);
        let all = slots.subrange(0, count as int);
        assert(seen_before(slots, count - 1) <==> before.contains(key)) by {
            if seen_before(slots, count - 1) {
                let j = choose|j: int| 0 <= j < count - 1 && #[trigger] slots[j] == slots[count
                    - 1];
                assert(before[j] == key);
            }
            if before.contains(key) {
                let j = choose|j: int| 0 <= j < before.len() && before[j] == key;
                assert(slots[j] == slots[count - 1]);
            }
        }
        assert(now.len() > earlier.len() ==> now.drop_last() =~= earlier);
        assert forall|k: Pubkey| #[trigger] now.contains(k) <==> k != DEFAULT_PUBKEY
            && all.contains(k) by {
            assert(all =~= before.push(key));
            assert(all.contains(k) <==> before.contains(k) || k == key) by {
                if all.contains(k) {
                    let j = choose|j: int| 0 <= j < all.len() && all[j] == k;
                    if j < before.len() {
                        assert(before[j] == k);
                    }
                }
                if before.contains(k) {
                    let j = choose|j: int| 0 <= j < before.len() && before[j] == k;
                    assert(all[j] == k);
                }
                if k == key {
                    assert(all[count - 1] == k);
                }
            }
            if now.len() > earlier.len() {
                assert(now =~= earlier.push(key));
                if now.contains(k) {
                    let j = choose|j: int| 0 <= j < now.len() && now[j] == k;
                    if j < earlier.len() {
                        assert(earlier[j] == k);
                    }
                }
                if earlier.contains(k) {
                    let j = choose|j: int| 0 <= j < earlier.len() && earlier[j] == k;
                    assert(now[j] == k);
                }
                if k == key {
                    assert(now[now.len() - 1] == k);
                }
            }
            assert(earlier.contains(k) <==> k != DEFAULT_PUBKEY && before.contains(k));
        }
        if now.len() > earlier.len() {
            assert(!earlier.contains(key));
        }
    }
}

/// What the requests at some addresses lock.
pub open spec fn sum_open(ctx: TestContext, keys: Seq<Pubkey>) -> nat
    decreases keys.len(),
{
    if keys.len() == 0 {
        0
    } else {
        sum_open(ctx, keys.drop_last()) + claim(ctx, keys.last())
    }
}

/// Where no address was registered twice, what P-0002 sums is what the registered requests lock,
/// each taken once.
pub proof fn law_distinct_requests_are_summed_exactly(
    ctx: TestContext,
    slots: Seq<Pubkey>,
    count: nat,
)
    requires
        count <= slots.len(),
        forall|i: int, j: int|
            0 <= i < j < count ==> #[trigger] slots[i] == DEFAULT_PUBKEY || slots[i]
                != #[trigger] slots[j],
    ensures
        claims(ctx, slots, count) == sum_open(ctx, distinct_keys(slots, count)),
    decreases count,
{
    if count > 0 {
        let last = (count - 1) as nat;
        law_distinct_requests_are_summed_exactly(ctx, slots, last);
        let earlier = distinct_keys(slots, last);
        let now = distinct_keys(slots, count);
        if slots[count - 1] != DEFAULT_PUBKEY {
            if seen_before(slots, count - 1) {
                let j = choose|j: int| 0 <= j < count - 1 && #[trigger] slots[j] == slots[count
                    - 1];
                assert(slots[j] != slots[count - 1]);
            }
            assert(now.drop_last() =~= earlier);
        }
    }
}

/// Every request that was noted is summed: where a registry holds exactly the addresses of a
/// history, P-0002 sums what the requests of that history lock.
pub proof fn law_noted_requests_are_all_summed(
    ctx: TestContext,
    registry: Registry,
    history: Seq<Pubkey>,
)
    requires
        holds_exactly(registry, history),
        forall|i: int| 0 <= i < history.len() ==> #[trigger] history[i] != DEFAULT_PUBKEY,
    ensures
        claims(ctx, registry.slots, registry.slots.len()) == sum_open(ctx, history),
{
    lemma_noted_prefix(ctx, registry, history, registry.slots.len());
    assert(history.subrange(0, history.len() as int) =~= history);
}

/// The first slots of a registry sum up to the first addresses of its history.
proof fn lemma_noted_prefix(
    ctx: TestContext,
    registry: Registry,
    history: Seq<Pubkey>,
    count: nat,
)
    requires
        holds_exactly(registry, history),
        forall|i: int| 0 <= i < history.len() ==> #[trigger] history[i] != DEFAULT_PUBKEY,
        count <= registry.slots.len(),
    ensures
        ({
            let noted = if count < history.len() {
                count
            } else {
                history.len()
            };
            claims(ctx, registry.slots, count) == sum_open(
                ctx,
                history.subrange(0, noted as int),
            )
        }),
    decreases count,
{
    if count > 0 {
        lemma_noted_prefix(ctx, registry, history, (count - 1) as nat);
        assert(registry.slots[count - 1] == if count - 1 < history.len() {
            history[count - 1]
        } else {
            DEFAULT_PUBKEY
        });
        if count <= history.len() {
            let prefix = history.subrange(0, count as int);
            assert(prefix.drop_last() =~= history.subrange(0, count - 1));
        }
    } else {
        assert(history.subrange(0, 0) =~= Seq::empty());
    }
}

/// Where no address was noted twice, the sums that count every address once run over the history.
pub proof fn law_distinct_history_is_what_is_summed(
    ctx: TestContext,
    registry: Registry,
    history: Seq<Pubkey>,
    offer: Pubkey,
)
    requires
        holds_exactly(registry, history),
        history.no_duplicates(),
        forall|i: int| 0 <= i < history.len() ==> #[trigger] history[i] != DEFAULT_PUBKEY,
    ensures
        claims_under(ctx, registry.slots, offer, registry.slots.len()) == sum_under(
            ctx,
            history,
            offer,
        ),
{
    law_every_address_counts_once(ctx, registry.slots, offer, registry.slots.len());
    lemma_distinct_prefix(registry, history, registry.slots.len());
    assert(history.subrange(0, history.len() as int) =~= history);
}

/// The distinct addresses in the first slots are the first addresses of the history.
proof fn lemma_distinct_prefix(registry: Registry, history: Seq<Pubkey>, count: nat)
    requires
        holds_exactly(registry, history),
        history.no_duplicates(),
        forall|i: int| 0 <= i < history.len() ==> #[trigger] history[i] != DEFAULT_PUBKEY,
        count <= registry.slots.len(),
    ensures
        ({
            let noted = if count < history.len() {
                count
            } else {
                history.len()
            };
            distinct_keys(registry.slots, count) == history.subrange(0, noted as int)
        }),
    decreases count,
{
    if count > 0 {
        lemma_distinct_prefix(registry, history, (count - 1) as nat);
        let slots = registry.slots;
        assert(slots[count - 1] == if count - 1 < history.len() {
            history[count - 1]
        } else {
            DEFAULT_PUBKEY
        });
        if count <= history.len() {
            if seen_before(slots, count - 1) {
                let j = choose|j: int| 0 <= j < count - 1 && #[trigger] slots[j] == slots[count
                    - 1];
                assert(slots[j] == history[j]);
                assert(history[j] != history[count - 1]);
            }
            assert(history.subrange(0, count as int) =~= history.subrange(0, count - 1).push(
                history[count - 1],
            ));
        }
    } else {
        assert(history.subrange(0, 0) =~= Seq::empty());
    }
}

/// P-0002 speaks the truth: it reports a shortfall exactly where the vault holds less than the open
/// requests of its registry lock, as far as a word can hold that sum. In particular it never
/// reports one where the vault covers them all.
pub proof fn law_reported_shortfall_is_real(f: OnreappFixture, held: u64)
    requires
        word_at(f.ctx, f.redemption_vault_onyc, SCOUT_TOKEN_AMOUNT_OFFSET as int) == Some(held),
        !f.registries().p2.overflowed(),
    ensures
        ({
            let locked = claims(f.ctx, f.scout_p2_reqs@, SCOUT_REQ_CAP as nat);
            &&& vault_verdict(f) matches Some(verdict) ==> (verdict.holds <==> held >= clamp(
                locked,
            ))
            &&& held >= locked ==> (vault_verdict(f) matches Some(verdict) ==> verdict.holds)
            &&& held < locked && held < u64::MAX ==> (vault_verdict(f) matches Some(verdict)
                && !verdict.holds)
        }),
{
}

/// P-0008 speaks the truth, in the same way, of the vault whose deposits charge a transfer fee.
pub proof fn law_reported_fee_shortfall_is_real(f: OnreappFixture, held: u64)
    requires
        word_at(f.ctx, f.redemption_vault_fee_ata, SCOUT_TOKEN_AMOUNT_OFFSET as int) == Some(held),
        !f.registries().p8.overflowed(),
    ensures
        ({
            let claimed = sum_under(
                f.ctx,
                distinct_keys(f.scout_p8_reqs@, SCOUT_REQ_CAP as nat),
                f.redemption_offer_fee_pda,
            );
            &&& held >= claimed ==> (fee_vault_verdict(f) matches Some(verdict) && verdict.holds)
            &&& held < claimed && held < u64::MAX ==> (fee_vault_verdict(f) matches Some(verdict)
                && !verdict.holds)
        }),
{
    law_every_address_counts_once(
        f.ctx,
        f.scout_p8_reqs@,
        f.redemption_offer_fee_pda,
        SCOUT_REQ_CAP as nat,
    );
}

/// P-0003 holds exactly where the recorded sum is the sum over the registered requests, each once.
pub proof fn law_aggregate_is_compared_with_the_exact_sum(f: OnreappFixture, recorded: u128)
    requires
        requested_redemptions_at(f.ctx, f.redemption_offer_pda) == Some(recorded),
        !f.registries().p3.overflowed(),
    ensures
        aggregate_verdict(f) matches Some(verdict) && (verdict.holds <==> recorded == sum_under(
            f.ctx,
            distinct_keys(f.scout_p3_reqs@, SCOUT_REQ_CAP as nat),
            f.redemption_offer_pda,
        )),
{
    law_every_address_counts_once(
        f.ctx,
        f.scout_p3_reqs@,
        f.redemption_offer_pda,
        SCOUT_REQ_CAP as nat,
    );
}

/// Every registered offer that can be read is judged: P-0005 holds of it exactly where its two legs
/// differ, and P-0006 exactly where its fee is within the ceiling.
pub proof fn law_every_registered_offer_is_judged(f: OnreappFixture, i: int, data: Seq<u8>)
    requires
        0 <= i < 16,
        !f.registries().p5.overflowed(),
        f.scout_p5_offers@[i] != DEFAULT_PUBKEY,
        data_at(f.ctx, f.scout_p5_offers@[i]) == Some(data),
        data.len() >= SCOUT_OFFER_FEE_END,
    ensures
        legs_verdicts(f)[i] matches Some(verdict) && (verdict.holds <==> data.subrange(8, 40)
            != data.subrange(40, 72)),
        fee_verdicts(f)[i] matches Some(verdict) && (verdict.holds <==> le_u16(
            data,
            SCOUT_OFFER_FEE_OFFSET as int,
        ) <= SCOUT_MAX_ALLOWED_FEE_BPS),
{
}

/// P-0004 never reports a cap that was only declared: with a cap that was set at some supply, it
/// holds for as long as nothing was minted beyond that supply.
pub proof fn law_declared_cap_is_no_violation(
    f: OnreappFixture,
    state: Seq<u8>,
    supply_then: u64,
    headroom: u64,
    supply_now: u64,
)
    requires
        data_at(f.ctx, f.state_pda) == Some(state),
        state.len() >= SCOUT_STATE_MAX_SUPPLY_END,
        le_u64(state, SCOUT_STATE_MAX_SUPPLY_OFFSET as int) == cap_above(supply_then, headroom),
        word_at(
            f.ctx,
            key_of(
                state.subrange(
                    SCOUT_STATE_ONYC_MINT_OFFSET as int,
                    SCOUT_STATE_ONYC_MINT_END as int,
                ),
            ),
            SCOUT_MINT_SUPPLY_OFFSET as int,
        ) == Some(supply_now),
        supply_now <= supply_then,
    ensures
        supply_verdict(f) matches Some(verdict) ==> verdict.holds,
{
}

} // verus!
