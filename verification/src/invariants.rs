//! The properties that must hold after every step.
//!
//! None of them mirrors a check that the program makes: each compares what the program has stored,
//! across all the ways it can get there. Every guard fails towards saying nothing, so that a
//! violation always stands for something that the accounts show.

use crucible_test_context::TestContext;
use vstd::prelude::*;
use vstd::string::*;

use crate::bytes::{key_at, le_u16, le_u64, u16_at, u64_at};
use crate::check::{Monitor, MonitorView};
use crate::fixture::{
    long_data, long_data_at, read_word, requested_redemptions_at, word_at, OnreappFixture,
    SCOUT_CLOSED_ACCOUNT_DISCRIMINATOR, SCOUT_MAX_ALLOWED_FEE_BPS, SCOUT_MINT_SUPPLY_OFFSET,
    SCOUT_OFFER_CAP, SCOUT_OFFER_FEE_END, SCOUT_OFFER_FEE_OFFSET, SCOUT_OFFER_IN_MINT_END,
    SCOUT_OFFER_IN_MINT_OFFSET, SCOUT_OFFER_OUT_MINT_END, SCOUT_REQ_AMOUNT_OFFSET, SCOUT_REQ_CAP,
    SCOUT_REQ_MIN_LEN, SCOUT_REQ_OFFER_END, SCOUT_REQ_OFFER_OFFSET, SCOUT_STATE_MAX_SUPPLY_END,
    SCOUT_STATE_MAX_SUPPLY_OFFSET, SCOUT_STATE_ONYC_MINT_END, SCOUT_STATE_ONYC_MINT_OFFSET,
    SCOUT_TOKEN_AMOUNT_OFFSET,
};
use crate::handover::ChainMode;
use crate::keys::{base58, key_of, key_to_string, lemma_key_of, same_key, Pubkey, DEFAULT_PUBKEY};
use crate::text::{decimal, to_decimal};

verus! {

/// What a property says of a world: whether it holds, and what to report where it does not.
#[verifier::ext_equal]
pub struct Verdict {
    pub holds: bool,
    pub message: Seq<char>,
}

/// The data of an open request: an account that is long enough for one and was not closed. Closing
/// stamps a mark over the discriminator, and the data may outlive it.
pub open spec fn open_request_data(ctx: TestContext, key: Pubkey) -> Option<Seq<u8>> {
    match long_data_at(ctx, key, SCOUT_REQ_MIN_LEN as int) {
        Some(data) => if data.subrange(0, 8) == SCOUT_CLOSED_ACCOUNT_DISCRIMINATOR@ {
            None
        } else {
            Some(data)
        },
        None => None,
    }
}

/// What the request at `key` locks, where it is open.
pub open spec fn claim(ctx: TestContext, key: Pubkey) -> nat {
    match open_request_data(ctx, key) {
        Some(data) => le_u64(data, SCOUT_REQ_AMOUNT_OFFSET as int) as nat,
        None => 0,
    }
}

/// What the request at `key` locks, where it is open and names `offer`. Only what the program
/// itself records as belonging to the offer is a claim against it: an address that was registered
/// by mistake then counts for nothing.
pub open spec fn claim_under(ctx: TestContext, key: Pubkey, offer: Pubkey) -> nat {
    match open_request_data(ctx, key) {
        Some(data) => if data.subrange(SCOUT_REQ_OFFER_OFFSET as int, SCOUT_REQ_OFFER_END as int)
            == offer@ {
            le_u64(data, SCOUT_REQ_AMOUNT_OFFSET as int) as nat
        } else {
            0
        },
        None => 0,
    }
}

/// What the requests in the first `count` slots lock.
pub open spec fn claims(ctx: TestContext, slots: Seq<Pubkey>, count: nat) -> nat
    decreases count,
{
    if count == 0 {
        0
    } else {
        let key = slots[count - 1];
        claims(ctx, slots, (count - 1) as nat) + if key == DEFAULT_PUBKEY {
            0
        } else {
            claim(ctx, key)
        }
    }
}

/// Whether an earlier slot holds the same address.
pub open spec fn seen_before(slots: Seq<Pubkey>, at: int) -> bool {
    exists|j: int| 0 <= j < at && #[trigger] slots[j] == slots[at]
}

/// What the requests in the first `count` slots lock under `offer`, each address counted once.
pub open spec fn claims_under(
    ctx: TestContext,
    slots: Seq<Pubkey>,
    offer: Pubkey,
    count: nat,
) -> nat
    decreases count,
{
    if count == 0 {
        0
    } else {
        let key = slots[count - 1];
        claims_under(ctx, slots, offer, (count - 1) as nat) + if key == DEFAULT_PUBKEY
            || seen_before(slots, count - 1) {
            0
        } else {
            claim_under(ctx, key, offer)
        }
    }
}

/// A sum, as far as a word can hold it.
pub open spec fn clamp(n: nat) -> u64 {
    if n > u64::MAX {
        u64::MAX
    } else {
        n as u64
    }
}

/// How far `a` exceeds `b`.
pub open spec fn excess(a: u64, b: u64) -> nat {
    if a > b {
        (a - b) as nat
    } else {
        0
    }
}

/// The data of an open request.
fn read_open_request(ctx: &TestContext, key: &Pubkey) -> (r: Option<Vec<u8>>)
    ensures
        r is Some == open_request_data(*ctx, *key) is Some,
        r is Some ==> r->0@ == open_request_data(*ctx, *key)->0,
{
    let data = long_data(ctx, key, SCOUT_REQ_MIN_LEN)?;
    let mut closed = true;
    let mut i: usize = 0;
    while i < 8
        invariant
            i <= 8 <= data@.len(),
            closed == (forall|j: int|
                0 <= j < i ==> #[trigger] data@[j] == SCOUT_CLOSED_ACCOUNT_DISCRIMINATOR@[j]),
        decreases 8 - i,
    {
        if data[i] != SCOUT_CLOSED_ACCOUNT_DISCRIMINATOR[i] {
            closed = false;
        }
        i = i + 1;
    }
    proof {
        let head = data@.subrange(0, 8);
        if closed {
            assert(head =~= SCOUT_CLOSED_ACCOUNT_DISCRIMINATOR@);
        } else {
            let j = choose|j: int|
                0 <= j < 8 && #[trigger] data@[j] != SCOUT_CLOSED_ACCOUNT_DISCRIMINATOR@[j];
            assert(head[j] != SCOUT_CLOSED_ACCOUNT_DISCRIMINATOR@[j]);
        }
    }
    if closed {
        None
    } else {
        Some(data)
    }
}

/// What the requests of a registry lock, as far as a word can hold it.
fn sum_claims(ctx: &TestContext, slots: &[Pubkey]) -> (r: u64)
    ensures
        r == clamp(claims(*ctx, slots@, slots@.len())),
{
    let mut sum: u64 = 0;
    let mut i: usize = 0;
    while i < slots.len()
        invariant
            i <= slots@.len(),
            sum == clamp(claims(*ctx, slots@, i as nat)),
        decreases slots@.len() - i,
    {
        if !same_key(&slots[i], &DEFAULT_PUBKEY) {
            if let Some(data) = read_open_request(ctx, &slots[i]) {
                sum = sum.saturating_add(u64_at(&data, SCOUT_REQ_AMOUNT_OFFSET));
            }
        }
        i = i + 1;
    }
    sum
}

/// Whether an earlier slot holds the same address.
fn occurs_earlier(slots: &[Pubkey], at: usize) -> (r: bool)
    requires
        at < slots@.len(),
    ensures
        r == seen_before(slots@, at as int),
{
    let mut i: usize = 0;
    while i < at
        invariant
            i <= at < slots@.len(),
            forall|j: int| 0 <= j < i ==> #[trigger] slots@[j] != slots@[at as int],
        decreases at - i,
    {
        if same_key(&slots[i], &slots[at]) {
            assert(slots@[i as int] == slots@[at as int]);
            return true;
        }
        i = i + 1;
    }
    false
}

/// What the request at `key` locks under `offer`.
fn read_claim_under(ctx: &TestContext, key: &Pubkey, offer: &Pubkey) -> (r: u64)
    ensures
        r == claim_under(*ctx, *key, *offer),
{
    match read_open_request(ctx, key) {
        Some(data) => {
            let named = key_at(&data, SCOUT_REQ_OFFER_OFFSET);
            proof {
                lemma_key_of(named);
                lemma_key_of(*offer);
            }
            if same_key(&named, offer) {
                u64_at(&data, SCOUT_REQ_AMOUNT_OFFSET)
            } else {
                0
            }
        },
        None => 0,
    }
}

/// What the requests of a registry lock under `offer`, each address counted once.
fn sum_claims_under(ctx: &TestContext, slots: &[Pubkey; 32], offer: &Pubkey) -> (r: u128)
    ensures
        r == claims_under(*ctx, slots@, *offer, 32),
{
    let mut sum: u128 = 0;
    let mut i: usize = 0;
    while i < 32
        invariant
            i <= 32,
            sum == claims_under(*ctx, slots@, *offer, i as nat),
            sum <= i * 0x1_0000_0000_0000_0000,
        decreases 32 - i,
    {
        if !same_key(&slots[i], &DEFAULT_PUBKEY) && !occurs_earlier(slots, i) {
            sum = sum + read_claim_under(ctx, &slots[i], offer) as u128;
        }
        i = i + 1;
    }
    sum
}

/// What reporting a verdict leaves behind.
pub open spec fn reported(
    monitor: MonitorView,
    property: Seq<char>,
    site: Seq<char>,
    place: Seq<char>,
    verdict: Option<Verdict>,
) -> MonitorView {
    match verdict {
        Some(verdict) => monitor.checked(property, site, place, verdict.holds, verdict.message),
        None => monitor,
    }
}

/// What reporting some verdicts in order leaves behind.
pub open spec fn all_reported(
    monitor: MonitorView,
    property: Seq<char>,
    site: Seq<char>,
    place: Seq<char>,
    verdicts: Seq<Option<Verdict>>,
) -> MonitorView
    decreases verdicts.len(),
{
    if verdicts.len() == 0 {
        monitor
    } else {
        reported(
            all_reported(monitor, property, site, place, verdicts.drop_last()),
            property,
            site,
            place,
            verdicts.last(),
        )
    }
}

/// P-0002: the redemption vault holds what the open requests of its registry, those of the main
/// redemption offer, have locked in it.
pub open spec fn vault_verdict(f: OnreappFixture) -> Option<Verdict> {
    let locked = clamp(claims(f.ctx, f.scout_p2_reqs@, SCOUT_REQ_CAP as nat));
    match word_at(f.ctx, f.redemption_vault_onyc, SCOUT_TOKEN_AMOUNT_OFFSET as int) {
        Some(held) => if f.scout_p2_next > SCOUT_REQ_CAP || locked == 0 {
            None
        } else {
            Some(
                Verdict {
                    holds: held >= locked,
                    message: "P-0002: redemption vault "@ + base58(f.redemption_vault_onyc@)
                        + " holds "@ + decimal(held as nat)
                        + " ONyc but open redemption requests have "@ + decimal(locked as nat)
                        + " locked in it (shortfall "@ + decimal(excess(locked, held))
                        + "). Those requests can now be neither fulfilled nor cancelled - both paths transfer out of this account."@,
                },
            )
        },
        None => None,
    }
}

/// P-0003: the requested redemptions that the live redemption offer records are the sum of its open
/// requests. Both sides are wide: many amounts may together exceed a word.
pub open spec fn aggregate_verdict(f: OnreappFixture) -> Option<Verdict> {
    let offer = f.redemption_offer_pda;
    match requested_redemptions_at(f.ctx, offer) {
        Some(recorded) => if f.scout_p3_next > SCOUT_REQ_CAP {
            None
        } else {
            let summed = claims_under(f.ctx, f.scout_p3_reqs@, offer, SCOUT_REQ_CAP as nat);
            Some(
                Verdict {
                    holds: recorded == summed,
                    message: "P-0003: redemption offer "@ + base58(offer@)
                        + " records requested_redemptions="@ + decimal(recorded as nat)
                        + " but the requests that still exist and name it sum to "@ + decimal(
                        summed,
                    ) + "."@,
                },
            )
        },
        None => None,
    }
}

/// P-0004: while a supply cap is set, the supply of the capped mint is within it. The mint is the
/// one that the state names, and a cap of zero is none.
pub open spec fn supply_verdict(f: OnreappFixture) -> Option<Verdict> {
    match long_data_at(f.ctx, f.state_pda, SCOUT_STATE_MAX_SUPPLY_END as int) {
        Some(state) => {
            let cap = le_u64(state, SCOUT_STATE_MAX_SUPPLY_OFFSET as int);
            let mint = key_of(
                state.subrange(
                    SCOUT_STATE_ONYC_MINT_OFFSET as int,
                    SCOUT_STATE_ONYC_MINT_END as int,
                ),
            );
            match word_at(f.ctx, mint, SCOUT_MINT_SUPPLY_OFFSET as int) {
                Some(supply) => if cap == 0 {
                    None
                } else {
                    Some(
                        Verdict {
                            holds: supply <= cap,
                            message: "P-0004: mint "@ + base58(mint@) + " has supply "@ + decimal(
                                supply as nat,
                            ) + " but state.max_supply is "@ + decimal(cap as nat) + " (over by "@
                                + decimal(excess(supply, cap))
                                + "). The cap is enforced by mint_to and take_offer, which pass state.max_supply to mint_tokens, but fulfill_redemption_request passes a hard-coded 0."@,
                        },
                    )
                },
                None => None,
            }
        },
        None => None,
    }
}

/// P-0005, of one offer: it does not exchange a mint for itself.
pub open spec fn legs_verdict(ctx: TestContext, offer: Pubkey) -> Option<Verdict> {
    match long_data_at(ctx, offer, SCOUT_OFFER_OUT_MINT_END as int) {
        Some(data) => if offer == DEFAULT_PUBKEY {
            None
        } else {
            let token_in = data.subrange(
                SCOUT_OFFER_IN_MINT_OFFSET as int,
                SCOUT_OFFER_IN_MINT_END as int,
            );
            let token_out = data.subrange(
                SCOUT_OFFER_IN_MINT_END as int,
                SCOUT_OFFER_OUT_MINT_END as int,
            );
            Some(
                Verdict {
                    holds: token_in != token_out,
                    message: "P-0005: offer "@ + base58(offer@) + " exchanges mint "@ + base58(
                        token_in,
                    )
                        + " for itself. Its taker receives token_in_net * 1e9 / price of the same token they paid, so any price below 1.0 mints value from nothing and any price above 1.0 destroys the taker's."@,
                },
            )
        },
        None => None,
    }
}

/// P-0006, of one offer: its fee stays within the documented ceiling, however it was written.
pub open spec fn fee_verdict(ctx: TestContext, offer: Pubkey) -> Option<Verdict> {
    match long_data_at(ctx, offer, SCOUT_OFFER_FEE_END as int) {
        Some(data) => if offer == DEFAULT_PUBKEY {
            None
        } else {
            let fee = le_u16(data, SCOUT_OFFER_FEE_OFFSET as int);
            Some(
                Verdict {
                    holds: fee <= SCOUT_MAX_ALLOWED_FEE_BPS,
                    message: "P-0006: offer "@ + base58(offer@) + " has fee_basis_points "@
                        + decimal(fee as nat) + " which exceeds MAX_ALLOWED_FEE_BPS ("@ + decimal(
                        SCOUT_MAX_ALLOWED_FEE_BPS as nat,
                    )
                        + "). make_offer, make_redemption_offer and update_redemption_offer_fee all enforce that ceiling; update_offer_fee bounds against MAX_BASIS_POINTS (10000) instead."@,
                },
            )
        },
        None => None,
    }
}

/// P-0005, of every registered offer, unless the registry has wrapped.
pub open spec fn legs_verdicts(f: OnreappFixture) -> Seq<Option<Verdict>> {
    if f.scout_p5_next > SCOUT_OFFER_CAP {
        Seq::empty()
    } else {
        f.scout_p5_offers@.map_values(|offer: Pubkey| legs_verdict(f.ctx, offer))
    }
}

/// P-0006, of every registered offer, unless the registry has wrapped.
pub open spec fn fee_verdicts(f: OnreappFixture) -> Seq<Option<Verdict>> {
    if f.scout_p5_next > SCOUT_OFFER_CAP {
        Seq::empty()
    } else {
        f.scout_p5_offers@.map_values(|offer: Pubkey| fee_verdict(f.ctx, offer))
    }
}

/// P-0008: the redemption vault of the transfer-fee mint holds what the open requests have locked
/// against it. No operation of the boss reaches this vault, so a violation needs no privileges. A
/// vault that cannot be read says nothing: to read it as empty would fabricate a shortfall.
pub open spec fn fee_vault_verdict(f: OnreappFixture) -> Option<Verdict> {
    match word_at(f.ctx, f.redemption_vault_fee_ata, SCOUT_TOKEN_AMOUNT_OFFSET as int) {
        Some(held) => if f.scout_p8_next > SCOUT_REQ_CAP {
            None
        } else {
            let claimed = clamp(
                claims_under(
                    f.ctx,
                    f.scout_p8_reqs@,
                    f.redemption_offer_fee_pda,
                    SCOUT_REQ_CAP as nat,
                ),
            );
            Some(
                Verdict {
                    holds: held >= claimed,
                    message: "P-0008: the redemption vault "@ + base58(f.redemption_vault_fee_ata@)
                        + " for the transfer-fee mint "@ + base58(f.mint_fee@) + " holds "@
                        + decimal(held as nat) + " but open redemption requests have "@ + decimal(
                        claimed as nat,
                    ) + " locked against it (shortfall "@ + decimal(excess(claimed, held))
                        + "). token_in charges a transfer fee, so each deposit arrived short of the amount the program recorded; `has_transfer_fee` is consulted only on the offer path (token_utils.rs:374,378) and nowhere on the redemption path. No privileged signer participates."@,
                },
            )
        },
        None => None,
    }
}

/// A text in the making, with another one behind it.
fn then_text(text: String, more: &str) -> (r: String)
    ensures
        r@ == text@ + more@,
{
    text.concat(more)
}

/// A text in the making, with a number behind it.
fn then_number(text: String, n: u128) -> (r: String)
    ensures
        r@ == text@ + decimal(n as nat),
{
    text.concat(&to_decimal(n))
}

/// A text in the making, with an address behind it.
fn then_key(text: String, key: &Pubkey) -> (r: String)
    ensures
        r@ == text@ + base58(key@),
{
    text.concat(&key_to_string(key))
}

/// Checks P-0002.
pub fn invariant_p_0002(f: &OnreappFixture, monitor: &mut Monitor, place: &str)
    ensures
        final(monitor)@ == reported(
            old(monitor)@,
            "P-0002"@,
            "vault-covers-open-redemption-requests"@,
            place@,
            vault_verdict(*f),
        ),
        final(monitor).settings == old(monitor).settings,
{
    if f.scout_p2_next > SCOUT_REQ_CAP {
        return;
    }
    let locked = sum_claims(&f.ctx, &f.scout_p2_reqs);
    if locked == 0 {
        return;
    }
    let vault = f.redemption_vault_onyc;
    if let Some(held) = read_word(&f.ctx, &vault, SCOUT_TOKEN_AMOUNT_OFFSET) {
        let text = then_key(String::from_str("P-0002: redemption vault "), &vault);
        let text = then_number(then_text(text, " holds "), held as u128);
        let text = then_text(text, " ONyc but open redemption requests have ");
        let text = then_number(text, locked as u128);
        let text = then_text(text, " locked in it (shortfall ");
        let text = then_number(text, locked.saturating_sub(held) as u128);
        let text = then_text(
            text,
            "). Those requests can now be neither fulfilled nor cancelled - both paths transfer out of this account.",
        );
        monitor.scout_check(
            "P-0002",
            "vault-covers-open-redemption-requests",
            place,
            held >= locked,
            text,
        );
    }
}

/// Checks P-0003.
pub fn invariant_p_0003(f: &OnreappFixture, monitor: &mut Monitor, place: &str)
    ensures
        final(monitor)@ == reported(
            old(monitor)@,
            "P-0003"@,
            "requested-redemptions-equals-sum-of-open-requests"@,
            place@,
            aggregate_verdict(*f),
        ),
        final(monitor).settings == old(monitor).settings,
{
    if f.scout_p3_next > SCOUT_REQ_CAP {
        return;
    }
    let offer = f.redemption_offer_pda;
    if let Some(recorded) = f.onchain_requested_redemptions() {
        let summed = sum_claims_under(&f.ctx, &f.scout_p3_reqs, &offer);
        let text = then_key(String::from_str("P-0003: redemption offer "), &offer);
        let text = then_number(then_text(text, " records requested_redemptions="), recorded);
        let text = then_text(text, " but the requests that still exist and name it sum to ");
        let text = then_text(then_number(text, summed), ".");
        monitor.scout_check(
            "P-0003",
            "requested-redemptions-equals-sum-of-open-requests",
            place,
            recorded == summed,
            text,
        );
    }
}

/// Checks P-0004.
pub fn invariant_p_0004(f: &OnreappFixture, monitor: &mut Monitor, place: &str)
    ensures
        final(monitor)@ == reported(
            old(monitor)@,
            "P-0004"@,
            "onyc-supply-within-configured-max-supply"@,
            place@,
            supply_verdict(*f),
        ),
        final(monitor).settings == old(monitor).settings,
{
    if let Some(state) = long_data(&f.ctx, &f.state_pda, SCOUT_STATE_MAX_SUPPLY_END) {
        let cap = u64_at(&state, SCOUT_STATE_MAX_SUPPLY_OFFSET);
        if cap == 0 {
            return;
        }
        let mint = key_at(&state, SCOUT_STATE_ONYC_MINT_OFFSET);
        proof {
            lemma_key_of(mint);
        }
        if let Some(supply) = read_word(&f.ctx, &mint, SCOUT_MINT_SUPPLY_OFFSET) {
            let text = then_key(String::from_str("P-0004: mint "), &mint);
            let text = then_number(then_text(text, " has supply "), supply as u128);
            let text = then_number(then_text(text, " but state.max_supply is "), cap as u128);
            let text = then_text(text, " (over by ");
            let text = then_number(text, supply.saturating_sub(cap) as u128);
            let text = then_text(
                text,
                "). The cap is enforced by mint_to and take_offer, which pass state.max_supply to mint_tokens, but fulfill_redemption_request passes a hard-coded 0.",
            );
            monitor.scout_check(
                "P-0004",
                "onyc-supply-within-configured-max-supply",
                place,
                supply <= cap,
                text,
            );
        }
    }
}

/// Checks P-0005 of one offer.
fn check_legs(ctx: &TestContext, offer: &Pubkey, monitor: &mut Monitor, place: &str)
    ensures
        final(monitor)@ == reported(
            old(monitor)@,
            "P-0005"@,
            "offer-legs-are-distinct-mints"@,
            place@,
            legs_verdict(*ctx, *offer),
        ),
        final(monitor).settings == old(monitor).settings,
{
    if same_key(offer, &DEFAULT_PUBKEY) {
        return;
    }
    if let Some(data) = long_data(ctx, offer, SCOUT_OFFER_OUT_MINT_END) {
        let token_in = key_at(&data, SCOUT_OFFER_IN_MINT_OFFSET);
        let token_out = key_at(&data, SCOUT_OFFER_IN_MINT_END);
        proof {
            lemma_key_of(token_in);
            lemma_key_of(token_out);
        }
        let text = then_key(String::from_str("P-0005: offer "), offer);
        let text = then_key(then_text(text, " exchanges mint "), &token_in);
        let text = then_text(
            text,
            " for itself. Its taker receives token_in_net * 1e9 / price of the same token they paid, so any price below 1.0 mints value from nothing and any price above 1.0 destroys the taker's.",
        );
        monitor.scout_check(
            "P-0005",
            "offer-legs-are-distinct-mints",
            place,
            !same_key(&token_in, &token_out),
            text,
        );
    }
}

/// Checks P-0005, of every registered offer.
pub fn invariant_p_0005(f: &OnreappFixture, monitor: &mut Monitor, place: &str)
    ensures
        final(monitor)@ == all_reported(
            old(monitor)@,
            "P-0005"@,
            "offer-legs-are-distinct-mints"@,
            place@,
            legs_verdicts(*f),
        ),
        final(monitor).settings == old(monitor).settings,
{
    if f.scout_p5_next > SCOUT_OFFER_CAP {
        return;
    }
    let ghost verdicts = legs_verdicts(*f);
    let mut i: usize = 0;
    assert(verdicts.subrange(0, 0) =~= Seq::empty());
    while i < 16
        invariant
            i <= 16,
            verdicts == f.scout_p5_offers@.map_values(|offer: Pubkey| legs_verdict(f.ctx, offer)),
            monitor@ == all_reported(
                old(monitor)@,
                "P-0005"@,
                "offer-legs-are-distinct-mints"@,
                place@,
                verdicts.subrange(0, i as int),
            ),
            monitor.settings == old(monitor).settings,
        decreases 16 - i,
    {
        check_legs(&f.ctx, &f.scout_p5_offers[i], monitor, place);
        i = i + 1;
        assert(verdicts.subrange(0, i as int).drop_last() =~= verdicts.subrange(0, i - 1));
    }
    assert(verdicts.subrange(0, 16) =~= verdicts);
}

/// Checks P-0006 of one offer.
fn check_fee(ctx: &TestContext, offer: &Pubkey, monitor: &mut Monitor, place: &str)
    ensures
        final(monitor)@ == reported(
            old(monitor)@,
            "P-0006"@,
            "offer-fee-within-max-allowed-bps"@,
            place@,
            fee_verdict(*ctx, *offer),
        ),
        final(monitor).settings == old(monitor).settings,
{
    if same_key(offer, &DEFAULT_PUBKEY) {
        return;
    }
    if let Some(data) = long_data(ctx, offer, SCOUT_OFFER_FEE_END) {
        let fee = u16_at(&data, SCOUT_OFFER_FEE_OFFSET);
        let text = then_key(String::from_str("P-0006: offer "), offer);
        let text = then_number(then_text(text, " has fee_basis_points "), fee as u128);
        let text = then_text(text, " which exceeds MAX_ALLOWED_FEE_BPS (");
        let text = then_number(text, SCOUT_MAX_ALLOWED_FEE_BPS as u128);
        let text = then_text(
            text,
            "). make_offer, make_redemption_offer and update_redemption_offer_fee all enforce that ceiling; update_offer_fee bounds against MAX_BASIS_POINTS (10000) instead.",
        );
        monitor.scout_check(
            "P-0006",
            "offer-fee-within-max-allowed-bps",
            place,
            fee <= SCOUT_MAX_ALLOWED_FEE_BPS,
            text,
        );
    }
}

/// Checks P-0006, of every registered offer.
pub fn invariant_p_0006(f: &OnreappFixture, monitor: &mut Monitor, place: &str)
    ensures
        final(monitor)@ == all_reported(
            old(monitor)@,
            "P-0006"@,
            "offer-fee-within-max-allowed-bps"@,
            place@,
            fee_verdicts(*f),
        ),
        final(monitor).settings == old(monitor).settings,
{
    if f.scout_p5_next > SCOUT_OFFER_CAP {
        return;
    }
    let ghost verdicts = fee_verdicts(*f);
    let mut i: usize = 0;
    assert(verdicts.subrange(0, 0) =~= Seq::empty());
    while i < 16
        invariant
            i <= 16,
            verdicts == f.scout_p5_offers@.map_values(|offer: Pubkey| fee_verdict(f.ctx, offer)),
            monitor@ == all_reported(
                old(monitor)@,
                "P-0006"@,
                "offer-fee-within-max-allowed-bps"@,
                place@,
                verdicts.subrange(0, i as int),
            ),
            monitor.settings == old(monitor).settings,
        decreases 16 - i,
    {
        check_fee(&f.ctx, &f.scout_p5_offers[i], monitor, place);
        i = i + 1;
        assert(verdicts.subrange(0, i as int).drop_last() =~= verdicts.subrange(0, i - 1));
    }
    assert(verdicts.subrange(0, 16) =~= verdicts);
}

/// Checks P-0008.
pub fn invariant_p_0008(f: &OnreappFixture, monitor: &mut Monitor, place: &str)
    ensures
        final(monitor)@ == reported(
            old(monitor)@,
            "P-0008"@,
            "fee-mint-redemption-vault-covers-open-claims"@,
            place@,
            fee_vault_verdict(*f),
        ),
        final(monitor).settings == old(monitor).settings,
{
    if f.scout_p8_next > SCOUT_REQ_CAP {
        return;
    }
    let vault = f.redemption_vault_fee_ata;
    if let Some(held) = read_word(&f.ctx, &vault, SCOUT_TOKEN_AMOUNT_OFFSET) {
        let sum = sum_claims_under(&f.ctx, &f.scout_p8_reqs, &f.redemption_offer_fee_pda);
        let claimed = if sum > u64::MAX as u128 {
            u64::MAX
        } else {
            sum as u64
        };
        let text = then_key(String::from_str("P-0008: the redemption vault "), &vault);
        let text = then_key(then_text(text, " for the transfer-fee mint "), &f.mint_fee);
        let text = then_number(then_text(text, " holds "), held as u128);
        let text = then_text(text, " but open redemption requests have ");
        let text = then_number(text, claimed as u128);
        let text = then_text(text, " locked against it (shortfall ");
        let text = then_number(text, claimed.saturating_sub(held) as u128);
        let text = then_text(
            text,
            "). token_in charges a transfer fee, so each deposit arrived short of the amount the program recorded; `has_transfer_fee` is consulted only on the offer path (token_utils.rs:374,378) and nowhere on the redemption path. No privileged signer participates.",
        );
        monitor.scout_check(
            "P-0008",
            "fee-mint-redemption-vault-covers-open-claims",
            place,
            held >= claimed,
            text,
        );
    }
}

/// Where the check of each property stands, as its log lines say it.
#[derive(Clone, Copy)]
pub struct Places<'a> {
    pub p_0002: &'a str,
    pub p_0003: &'a str,
    pub p_0004: &'a str,
    pub p_0005: &'a str,
    pub p_0006: &'a str,
    pub p_0008: &'a str,
}

/// A property played: asked for, and checked where it is selected.
#[verifier::opaque]
pub open spec fn played(
    monitor: MonitorView,
    property: Seq<char>,
    site: Seq<char>,
    place: Seq<char>,
    verdicts: Seq<Option<Verdict>>,
) -> MonitorView {
    if monitor.selects(property) {
        all_reported(monitor.asked(property), property, site, place, verdicts)
    } else {
        monitor.asked(property)
    }
}

/// What playing the properties in order leaves behind, given the verdicts of each.
pub open spec fn played_in_order(
    monitor: MonitorView,
    at: Places<'_>,
    v2: Seq<Option<Verdict>>,
    v3: Seq<Option<Verdict>>,
    v4: Seq<Option<Verdict>>,
    v5: Seq<Option<Verdict>>,
    v6: Seq<Option<Verdict>>,
    v8: Seq<Option<Verdict>>,
) -> MonitorView {
    let p2 = played(
        monitor,
        "P-0002"@,
        "vault-covers-open-redemption-requests"@,
        at.p_0002@,
        v2,
    );
    let p3 = played(
        p2,
        "P-0003"@,
        "requested-redemptions-equals-sum-of-open-requests"@,
        at.p_0003@,
        v3,
    );
    let p4 = played(p3, "P-0004"@, "onyc-supply-within-configured-max-supply"@, at.p_0004@, v4);
    let p5 = played(p4, "P-0005"@, "offer-legs-are-distinct-mints"@, at.p_0005@, v5);
    let p6 = played(p5, "P-0006"@, "offer-fee-within-max-allowed-bps"@, at.p_0006@, v6);
    played(p6, "P-0008"@, "fee-mint-redemption-vault-covers-open-claims"@, at.p_0008@, v8)
}

/// What checking every property leaves behind.
pub open spec fn all_played(
    f: OnreappFixture,
    monitor: MonitorView,
    places: Places<'_>,
) -> MonitorView {
    played_in_order(
        monitor.open_session(),
        places,
        seq![vault_verdict(f)],
        seq![aggregate_verdict(f)],
        seq![supply_verdict(f)],
        legs_verdicts(f),
        fee_verdicts(f),
        seq![fee_vault_verdict(f)],
    )
}

/// Reporting one verdict is reporting a list of one.
proof fn lemma_one_reported(
    monitor: MonitorView,
    property: Seq<char>,
    site: Seq<char>,
    place: Seq<char>,
    verdict: Option<Verdict>,
)
    ensures
        all_reported(monitor, property, site, place, seq![verdict]) == reported(
            monitor,
            property,
            site,
            place,
            verdict,
        ),
{
    let one = seq![verdict];
    assert(one.drop_last() =~= Seq::empty());
    assert(one.last() == verdict);
    reveal_with_fuel(all_reported, 2);
}

/// Checks every property that is selected. All of them are armed: a finding that is already known
/// is muted by name, so that the muting can be lifted once it is fixed. A property that is not
/// selected is not even computed. In an observing run, failed actions end their chains from here
/// on.
pub fn invariant_test(f: &OnreappFixture, monitor: &mut Monitor, places: &Places<'_>) -> (r:
    Option<ChainMode>)
    ensures
        r is Some == old(monitor)@.observes(),
        r is Some ==> r->0.ends_chains(),
        final(monitor)@ == all_played(*f, old(monitor)@, *places),
        final(monitor).settings == old(monitor).settings,
{
    reveal(played);
    let chains = monitor.scout_check_session();
    if monitor.__scout_check_selected("P-0002") {
        proof {
            lemma_one_reported(
                monitor@,
                "P-0002"@,
                "vault-covers-open-redemption-requests"@,
                places.p_0002@,
                vault_verdict(*f),
            );
        }
        invariant_p_0002(f, monitor, places.p_0002);
    }
    if monitor.__scout_check_selected("P-0003") {
        proof {
            lemma_one_reported(
                monitor@,
                "P-0003"@,
                "requested-redemptions-equals-sum-of-open-requests"@,
                places.p_0003@,
                aggregate_verdict(*f),
            );
        }
        invariant_p_0003(f, monitor, places.p_0003);
    }
    if monitor.__scout_check_selected("P-0004") {
        proof {
            lemma_one_reported(
                monitor@,
                "P-0004"@,
                "onyc-supply-within-configured-max-supply"@,
                places.p_0004@,
                supply_verdict(*f),
            );
        }
        invariant_p_0004(f, monitor, places.p_0004);
    }
    if monitor.__scout_check_selected("P-0005") {
        invariant_p_0005(f, monitor, places.p_0005);
    }
    if monitor.__scout_check_selected("P-0006") {
        invariant_p_0006(f, monitor, places.p_0006);
    }
    if monitor.__scout_check_selected("P-0008") {
        proof {
            lemma_one_reported(
                monitor@,
                "P-0008"@,
                "fee-mint-redemption-vault-covers-open-claims"@,
                places.p_0008@,
                fee_vault_verdict(*f),
            );
        }
        invariant_p_0008(f, monitor, places.p_0008);
    }
    chains
}

} // verus!
