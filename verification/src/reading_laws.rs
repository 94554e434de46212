//! What holds of everything that is read: which bytes of an account each reading takes, when there
//! is nothing to read, and what the addresses are derived from.

use crucible_test_context::TestContext;
use vstd::bytes::{
    lemma_auto_spec_u128_to_from_le_bytes, lemma_auto_spec_u16_to_from_le_bytes,
    lemma_auto_spec_u64_to_from_le_bytes, spec_u128_from_le_bytes, spec_u128_to_le_bytes,
    spec_u16_to_le_bytes, spec_u64_from_le_bytes, spec_u64_to_le_bytes,
};
use vstd::prelude::*;

use crate::bytes::{le_u128, le_u16, le_u64, signed_of, word_of, zeros};
use crate::context::{clock_bytes, clock_data, data_at, has_clock, now_of, slot_of, Clock};
use crate::fixture::{
    counter_of, offer_key, open_requests_under, redemption_offer_key,
    request_at, request_key, requested_redemptions_at, requests_below, token_balance_at, total,
    word_at, OnreappFixture, OpenRequest,
};
use crate::keys::{
    ata, lemma_key_of, pda, program_address, Pubkey, ATA_PROGRAM_ID,
    SEED_MINT_AUTHORITY, SEED_OFFER, SEED_OFFER_VAULT_AUTHORITY, SEED_PERMISSIONLESS_AUTHORITY,
    SEED_REDEMPTION_OFFER, SEED_REDEMPTION_OFFER_VAULT_AUTHORITY, SEED_REDEMPTION_REQUEST,
    SEED_STATE, SPL_TOKEN_2022_ID, SPL_TOKEN_ID,
};

verus! {

// ---- fields ----

/// A field of an account is the number whose little-endian bytes stand there.
pub proof fn law_fields_are_little_endian(data: Seq<u8>, at: int)
    requires
        0 <= at,
    ensures
        at + 2 <= data.len() ==> spec_u16_to_le_bytes(le_u16(data, at)) == data.subrange(
            at,
            at + 2,
        ),
        at + 8 <= data.len() ==> spec_u64_to_le_bytes(le_u64(data, at)) == data.subrange(
            at,
            at + 8,
        ),
        at + 16 <= data.len() ==> spec_u128_to_le_bytes(le_u128(data, at)) == data.subrange(
            at,
            at + 16,
        ),
{
    lemma_auto_spec_u16_to_from_le_bytes();
    lemma_auto_spec_u64_to_from_le_bytes();
    lemma_auto_spec_u128_to_from_le_bytes();
}

/// The two readings of a word differ by nothing or by the whole range of a word, and each has only
/// one counterpart.
pub proof fn law_readings_of_a_word_agree(x: i64, y: u64)
    ensures
        word_of(x) - x == 0 || word_of(x) - x == 0x1_0000_0000_0000_0000,
        y - signed_of(y) == 0 || y - signed_of(y) == 0x1_0000_0000_0000_0000,
        word_of(x) == y <==> signed_of(y) == x,
        x >= 0 ==> word_of(x) == x,
{
}

/// A run of zeros has the length asked for and holds nothing else.
pub proof fn law_zeros_are_zero(n: nat, i: int)
    ensures
        zeros(n).len() == n,
        0 <= i < n ==> zeros(n)[i] == 0,
{
}

/// The clock says its time in the last of its five words, and its slot in the first.
pub proof fn law_clock_is_read_where_it_is_written(ctx: TestContext, clock: Clock)
    requires
        has_clock(ctx),
        clock_data(ctx).subrange(0, 40) == clock_bytes(clock),
    ensures
        signed_of(now_of(ctx)) == clock.unix_timestamp,
        slot_of(ctx) == clock.slot,
        clock_bytes(clock).subrange(8, 16) == spec_u64_to_le_bytes(
            word_of(clock.epoch_start_timestamp),
        ),
        clock_bytes(clock).subrange(16, 24) == spec_u64_to_le_bytes(clock.epoch),
        clock_bytes(clock).subrange(24, 32) == spec_u64_to_le_bytes(clock.leader_schedule_epoch),
        clock_bytes(clock).len() == 40,
{
    lemma_auto_spec_u64_to_from_le_bytes();
    let data = clock_data(ctx);
    let bytes = clock_bytes(clock);
    let time = spec_u64_to_le_bytes(word_of(clock.unix_timestamp));
    assert(bytes.len() == 40);
    assert(data.subrange(32, 40) =~= data.subrange(0, 40).subrange(32, 40));
    assert(data.subrange(0, 8) =~= data.subrange(0, 40).subrange(0, 8));
    assert(bytes.subrange(32, 40) =~= time);
    assert(bytes.subrange(0, 8) =~= spec_u64_to_le_bytes(clock.slot));
    assert(bytes.subrange(8, 16) =~= spec_u64_to_le_bytes(word_of(clock.epoch_start_timestamp)));
    assert(bytes.subrange(16, 24) =~= spec_u64_to_le_bytes(clock.epoch));
    assert(bytes.subrange(24, 32) =~= spec_u64_to_le_bytes(clock.leader_schedule_epoch));
    law_readings_of_a_word_agree(clock.unix_timestamp, now_of(ctx));
}

// ---- accounts ----

/// Where there is no account, or none long enough, nothing is read: no counter, no requested
/// redemptions, no request and no word. A balance is zero then, and only a balance.
pub proof fn law_nothing_is_read_from_nothing(ctx: TestContext, key: Pubkey, id: u64, at: int)
    ensures
        data_at(ctx, key) is None ==> {
            &&& word_at(ctx, key, at) is None
            &&& counter_of(ctx, key) is None
            &&& requested_redemptions_at(ctx, key) is None
            &&& request_at(ctx, key, id) is None
            &&& token_balance_at(ctx, key) == 0
        },
        data_at(ctx, key) matches Some(data) ==> {
            &&& word_at(ctx, key, at) is Some <==> data.len() >= at + 8
            &&& counter_of(ctx, key) is Some <==> data.len() >= 146
            &&& requested_redemptions_at(ctx, key) is Some <==> data.len() >= 136
            &&& request_at(ctx, key, id) is Some <==> data.len() >= 88
            &&& data.len() < 72 ==> token_balance_at(ctx, key) == 0
        },
{
}

/// Which bytes of an account are read: a word where it was asked for, the request counter behind
/// the fee of a redemption offer, the requested redemptions before it, and the balance behind the
/// mint and the owner of a token account.
pub proof fn law_readings_take_their_bytes(ctx: TestContext, key: Pubkey, data: Seq<u8>, at: int)
    requires
        data_at(ctx, key) == Some(data),
    ensures
        data.len() >= at + 8 ==> word_at(ctx, key, at) == Some(
            spec_u64_from_le_bytes(data.subrange(at, at + 8)),
        ),
        data.len() >= 146 ==> counter_of(ctx, key) == Some(
            spec_u64_from_le_bytes(data.subrange(138, 146)),
        ),
        data.len() >= 136 ==> requested_redemptions_at(ctx, key) == Some(
            spec_u128_from_le_bytes(data.subrange(120, 136)),
        ),
        data.len() >= 72 ==> token_balance_at(ctx, key) == spec_u64_from_le_bytes(
            data.subrange(64, 72),
        ),
{
}

/// A request is read as the id it was looked up by, the redeemer behind that id, and the amount
/// behind the redeemer.
pub proof fn law_request_is_read_from_its_account(
    ctx: TestContext,
    key: Pubkey,
    id: u64,
    data: Seq<u8>,
    redeemer: Pubkey,
)
    requires
        data_at(ctx, key) == Some(data),
        data.len() >= 88,
        data.subrange(48, 80) == redeemer@,
    ensures
        request_at(ctx, key, id) == Some(
            (id, redeemer, spec_u64_from_le_bytes(data.subrange(80, 88))),
        ),
{
    lemma_key_of(redeemer);
}

/// The state is there exactly where its account holds at least a discriminator and a boss.
pub proof fn law_state_is_there_or_not(f: OnreappFixture)
    ensures
        f.has_state() <==> (data_at(f.ctx, f.state_pda) matches Some(data) && data.len() >= 40),
{
}

// ---- open requests ----

/// The open requests are listed exactly where the counter can be read, is at most 512, and every
/// id below it has an address.
pub proof fn law_requests_are_listed_or_not(ctx: TestContext, program_id: Pubkey, ro: Pubkey)
    ensures
        open_requests_under(ctx, program_id, ro) is Some <==> (counter_of(ctx, ro) matches Some(
            counter,
        ) && counter <= 512 && forall|id: u64|
            id < counter ==> (#[trigger] request_key(program_id, ro, id)) is Some),
{
    if let Some(counter) = counter_of(ctx, ro) {
        if counter <= 512 {
            lemma_listed_or_not(ctx, program_id, ro, counter as nat);
        }
    }
}

/// The first ids have a list of requests exactly where each of them has an address.
proof fn lemma_listed_or_not(ctx: TestContext, program_id: Pubkey, ro: Pubkey, count: nat)
    requires
        count <= 512,
    ensures
        requests_below(ctx, program_id, ro, count) is Some <==> forall|id: u64|
            id < count ==> (#[trigger] request_key(program_id, ro, id)) is Some,
    decreases count,
{
    if count > 0 {
        let before = (count - 1) as nat;
        lemma_listed_or_not(ctx, program_id, ro, before);
        let last = before as u64;
        if requests_below(ctx, program_id, ro, count) is Some {
            assert forall|id: u64| id < count implies (#[trigger] request_key(
                program_id,
                ro,
                id,
            )) is Some by {
                if id == last {
                } else {
                    assert(id < before);
                }
            }
        }
        if forall|id: u64| id < count ==> (#[trigger] request_key(program_id, ro, id)) is Some {
            assert(request_key(program_id, ro, last) is Some);
        }
    }
}

/// What is locked is the sum of the amounts: nothing for no request, and one amount more for one
/// request more, wherever it stands in the list.
pub proof fn law_totals_add_up(before: Seq<OpenRequest>, after: Seq<OpenRequest>, one: OpenRequest)
    ensures
        total(Seq::empty()) == 0,
        total(before + after) == total(before) + total(after),
        total(seq![one]) == one.2,
    decreases after.len(),
{
    if after.len() == 0 {
        assert(before + after =~= before);
    } else {
        law_totals_add_up(before, after.drop_last(), one);
        assert((before + after).drop_last() =~= before + after.drop_last());
        assert((before + after).last() == after.last());
    }
    assert(seq![one].drop_last() =~= Seq::empty());
    reveal_with_fuel(total, 2);
}

/// What the program owes out of the transfer-fee vault is the sum over the requests that are listed
/// under the transfer-fee offer, and nothing where they cannot be listed.
pub proof fn law_fee_claims_are_those_of_the_fee_offer(f: OnreappFixture)
    ensures
        open_requests_under(f.ctx, f.program_id, f.redemption_offer_fee_pda) matches Some(requests)
            ==> f.fee_claims() == total(requests),
        open_requests_under(f.ctx, f.program_id, f.redemption_offer_fee_pda) is None
            ==> f.fee_claims() == 0,
{
}

/// The oldest open request is one of those that are listed, and there is one as long as any is. The
/// address and the redeemer that go with it are its own; without one, the address is that of the
/// next request and the redeemer is the first user.
pub proof fn law_oldest_request_is_a_listed_one(f: OnreappFixture)
    ensures
        ({
            let requests = open_requests_under(f.ctx, f.program_id, f.redemption_offer_pda);
            &&& f.oldest_request() is Some <==> requests is Some && requests->0.len() > 0
            &&& f.oldest_request() matches Some(oldest) ==> {
                &&& requests->0.contains(oldest)
                &&& f.oldest_request_key() == request_key(
                    f.program_id,
                    f.redemption_offer_pda,
                    oldest.0,
                )
                &&& f.oldest_redeemer() == oldest.1
            }
            &&& f.oldest_request() is None ==> f.oldest_request_key() == f.next_request_key()
                && f.oldest_redeemer() == f.user_a.public()
        }),
{
}

/// The next request is opened at the address of the counter, and at the first address where the
/// counter cannot be read.
pub proof fn law_next_request_takes_the_counter(f: OnreappFixture, counter: u64)
    ensures
        counter_of(f.ctx, f.redemption_offer_pda) == Some(counter) ==> f.next_request_key()
            == request_key(f.program_id, f.redemption_offer_pda, counter),
        counter_of(f.ctx, f.redemption_offer_pda) is None ==> f.next_request_key() == request_key(
            f.program_id,
            f.redemption_offer_pda,
            0,
        ),
{
}

// ---- who and what a value picks ----

/// An even value picks the first user and usdc, an odd one the second user and ONyc.
pub proof fn law_parity_picks(f: OnreappFixture, sel: u64)
    ensures
        sel % 2 == 0 ==> f.user(sel) == f.user_a && f.vault_mint(sel) == f.mint_usdc,
        sel % 2 == 1 ==> f.user(sel) == f.user_b && f.vault_mint(sel) == f.mint_onyc,
{
}

/// The pair of mints that a fee picks repeats every four fees: play to ONyc, play to usdc, the mint
/// of the approvals to usdc, and ONyc to itself.
pub proof fn law_pairs_repeat(f: OnreappFixture, k: u16)
    requires
        k < 16_384,
    ensures
        f.offer_pair((4 * k) as u16) == (f.mint_play, f.mint_onyc),
        f.offer_pair((4 * k + 1) as u16) == (f.mint_play, f.mint_usdc),
        f.offer_pair((4 * k + 2) as u16) == (f.mint_appr, f.mint_usdc),
        f.offer_pair((4 * k + 3) as u16) == (f.mint_onyc, f.mint_onyc),
{
}

// ---- addresses ----

/// Whether bytes spell an ASCII text.
pub open spec fn spells(bytes: Seq<u8>, text: Seq<char>) -> bool {
    &&& bytes.len() == text.len()
    &&& forall|i: int| 0 <= i < bytes.len() ==> #[trigger] bytes[i] as int == text[i] as int
}

/// The seeds spell what they stand for.
pub proof fn law_seeds_spell_their_names()
    ensures
        spells(SEED_STATE@, "state"@),
        spells(SEED_OFFER@, "offer"@),
        spells(SEED_OFFER_VAULT_AUTHORITY@, "offer_vault_authority"@),
        spells(SEED_PERMISSIONLESS_AUTHORITY@, "permissionless-1"@),
        spells(SEED_MINT_AUTHORITY@, "mint_authority"@),
        spells(SEED_REDEMPTION_OFFER@, "redemption_offer"@),
        spells(SEED_REDEMPTION_OFFER_VAULT_AUTHORITY@, "redemption_offer_vault_authority"@),
        spells(SEED_REDEMPTION_REQUEST@, "redemption_request"@),
{
    reveal_strlit("state");
    reveal_strlit("offer");
    reveal_strlit("offer_vault_authority");
    reveal_strlit("permissionless-1");
    reveal_strlit("mint_authority");
    reveal_strlit("redemption_offer");
    reveal_strlit("redemption_offer_vault_authority");
    reveal_strlit("redemption_request");
}

/// A derived address is what the program derives from the seeds in their order, and there is none
/// where the program derives none. A token account is associated with its owner, the token program
/// and its mint, in that order, and is derived by the program for associated accounts.
pub proof fn law_addresses_are_derived(
    seeds: Seq<Seq<u8>>,
    program: Pubkey,
    owner: Pubkey,
    mint: Pubkey,
    token_program: Pubkey,
    key: Pubkey,
)
    ensures
        program_address(seeds, program@) is None <==> pda(seeds, program) is None,
        program_address(seeds, program@) == Some(key@) ==> pda(seeds, program) == Some(key),
        program_address(seq![owner@, token_program@, mint@], ATA_PROGRAM_ID@) is None <==> ata(
            owner,
            mint,
            token_program,
        ) is None,
        program_address(seq![owner@, token_program@, mint@], ATA_PROGRAM_ID@) == Some(key@) ==> ata(
            owner,
            mint,
            token_program,
        ) == Some(key),
{
    lemma_key_of(key);
}

/// Offers are derived from the mint that goes in and the one that comes out, requests from their
/// redemption offer and their id.
pub proof fn law_offers_and_requests_have_their_addresses(
    program_id: Pubkey,
    token_in: Pubkey,
    token_out: Pubkey,
    ro: Pubkey,
    id: u64,
    seed: Seq<u8>,
)
    ensures
        spells(seed, "offer"@) ==> offer_key(program_id, token_in, token_out) == pda(
            seq![seed, token_in@, token_out@],
            program_id,
        ),
        spells(seed, "redemption_offer"@) ==> redemption_offer_key(program_id, token_in, token_out)
            == pda(seq![seed, token_in@, token_out@], program_id),
        spells(seed, "redemption_request"@) ==> request_key(program_id, ro, id) == pda(
            seq![seed, ro@, spec_u64_to_le_bytes(id)],
            program_id,
        ),
{
    law_seeds_spell_their_names();
    if spells(seed, "offer"@) {
        assert(seed =~= SEED_OFFER@);
    }
    if spells(seed, "redemption_offer"@) {
        assert(seed =~= SEED_REDEMPTION_OFFER@);
    }
    if spells(seed, "redemption_request"@) {
        assert(seed =~= SEED_REDEMPTION_REQUEST@);
    }
}

/// The addresses of a world in order are those of its program: each authority from the seed with
/// its name, each offer from its pair of mints, and each vault from its authority and mint.
pub proof fn law_world_has_its_addresses(f: OnreappFixture, seed: Seq<u8>)
    requires
        f.wf(),
    ensures
        spells(seed, "state"@) ==> pda(seq![seed], f.program_id) == Some(f.state_pda),
        spells(seed, "mint_authority"@) ==> pda(seq![seed], f.program_id) == Some(
            f.mint_authority_pda,
        ),
        spells(seed, "offer_vault_authority"@) ==> pda(seq![seed], f.program_id) == Some(
            f.offer_vault_authority,
        ),
        spells(seed, "redemption_offer_vault_authority"@) ==> pda(seq![seed], f.program_id) == Some(
            f.redemption_vault_authority,
        ),
        spells(seed, "permissionless-1"@) ==> pda(seq![seed], f.program_id) == Some(
            f.permissionless_authority,
        ),
        spells(seed, "offer"@) ==> {
            &&& pda(seq![seed, f.mint_usdc@, f.mint_onyc@], f.program_id) == Some(f.offer_pda)
            &&& pda(seq![seed, f.mint_onyc@, f.mint_usdc@], f.program_id) == Some(f.offer_rev_pda)
            &&& pda(seq![seed, f.mint_appr@, f.mint_onyc@], f.program_id) == Some(f.offer_appr_pda)
            &&& pda(seq![seed, f.mint_usdc@, f.mint_fee@], f.program_id) == Some(f.offer_fee_pda)
        },
        spells(seed, "redemption_offer"@) ==> {
            &&& pda(seq![seed, f.mint_onyc@, f.mint_usdc@], f.program_id) == Some(
                f.redemption_offer_pda,
            )
            &&& pda(seq![seed, f.mint_usdc@, f.mint_onyc@], f.program_id) == Some(
                f.redemption_offer_rev_pda,
            )
            &&& pda(seq![seed, f.mint_fee@, f.mint_usdc@], f.program_id) == Some(
                f.redemption_offer_fee_pda,
            )
        },
        pda(
            seq![f.redemption_vault_authority@, SPL_TOKEN_ID@, f.mint_onyc@],
            ATA_PROGRAM_ID,
        ) == Some(f.redemption_vault_onyc),
        pda(
            seq![f.redemption_vault_authority@, SPL_TOKEN_2022_ID@, f.mint_fee@],
            ATA_PROGRAM_ID,
        ) == Some(f.redemption_vault_fee_ata),
        f.payer == f.boss,
        has_clock(f.ctx),
{
    law_seeds_spell_their_names();
    if spells(seed, "state"@) {
        assert(seed =~= SEED_STATE@);
    }
    if spells(seed, "mint_authority"@) {
        assert(seed =~= SEED_MINT_AUTHORITY@);
    }
    if spells(seed, "offer_vault_authority"@) {
        assert(seed =~= SEED_OFFER_VAULT_AUTHORITY@);
    }
    if spells(seed, "redemption_offer_vault_authority"@) {
        assert(seed =~= SEED_REDEMPTION_OFFER_VAULT_AUTHORITY@);
    }
    if spells(seed, "permissionless-1"@) {
        assert(seed =~= SEED_PERMISSIONLESS_AUTHORITY@);
    }
    if spells(seed, "offer"@) {
        assert(seed =~= SEED_OFFER@);
    }
    if spells(seed, "redemption_offer"@) {
        assert(seed =~= SEED_REDEMPTION_OFFER@);
    }
}

} // verus!
