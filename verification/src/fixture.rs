//! The world that the actions play in: its actors, mints and addresses, and what its accounts say.

use crucible_test_context::TestContext;
use vstd::bytes::{spec_u64_to_le_bytes, u64_to_le_bytes};
use vstd::prelude::*;

use crate::bytes::{key_at, le_u128, le_u64, u128_at, u64_at};
use crate::context::{account_data, context_accounts, data_at, has_clock};
use crate::keys::{
    ata, key_of, lemma_key_of, pda, scout_ata, scout_pda, seed_bytes, Keypair, Pubkey,
    SEED_MINT_AUTHORITY, SEED_OFFER, SEED_OFFER_VAULT_AUTHORITY, SEED_PERMISSIONLESS_AUTHORITY,
    SEED_REDEMPTION_OFFER, SEED_REDEMPTION_OFFER_VAULT_AUTHORITY, SEED_REDEMPTION_REQUEST,
    SEED_STATE, SPL_TOKEN_2022_ID, SPL_TOKEN_ID,
};

verus! {

/// Decimals chosen so that the two legs differ: a pair with equal decimals hides every scaling bug
/// in the conversions between them.
pub const USDC_DECIMALS: u8 = 6;

pub const ONYC_DECIMALS: u8 = 9;

/// Starting balances. Large enough that an arbitrary amount is often affordable, small enough that
/// the price math does not saturate on every call.
pub const USER_USDC_START: u64 = 1_000_000_000_000;

pub const USER_ONYC_START: u64 = 100_000_000_000;

pub const VAULT_USDC_START: u64 = 1_000_000_000_000;

/// Upper bound on the request ids that a walk visits. Beyond it a walk gives nothing rather than a
/// truncated sum: a silently capped total would under-report the claims against the vault and turn
/// a real shortfall into a clean run.
pub const SCOUT_REQUEST_SCAN_CAP: u64 = 512;

/// Capacity of each registry of redemption requests that were seen created. Once a registry has
/// wrapped, the properties over it say nothing: a partial sum would hide a real shortfall.
pub const SCOUT_REQ_CAP: usize = 32;

/// Capacity of the registry of offers.
pub const SCOUT_OFFER_CAP: usize = 16;

/// Capacity of the registry of requests that lock ONyc, pooled across every redemption offer that
/// takes ONyc in: they all share one vault token account.
pub const SCOUT_P7_CAP: usize = 48;

/// `RedemptionRequest`: discriminator 8, offer 32, request id 8, redeemer 32, then the amount.
pub const SCOUT_REQ_AMOUNT_OFFSET: usize = 80;

pub const SCOUT_REQ_MIN_LEN: usize = 88;

/// Where a `RedemptionRequest` names the redemption offer it is locked against.
pub const SCOUT_REQ_OFFER_OFFSET: usize = 8;

pub const SCOUT_REQ_OFFER_END: usize = 40;

/// Where a `RedemptionRequest` names its redeemer.
pub const REQ_REDEEMER_OFFSET: usize = 48;

/// What closing an account stamps over its discriminator. The data may outlive the close, so an
/// account with this mark is not an open request, however long its data is.
pub const SCOUT_CLOSED_ACCOUNT_DISCRIMINATOR: [u8; 8] = [255, 255, 255, 255, 255, 255, 255, 255];

/// A token account: mint 32, owner 32, then the amount.
pub const SCOUT_TOKEN_AMOUNT_OFFSET: usize = 64;

pub const SCOUT_TOKEN_MIN_LEN: usize = 72;

/// `RedemptionOffer`: discriminator 8, offer 32, token in 32, token out 32, executed 16, then the
/// requested redemptions.
pub const SCOUT_RO_REQUESTED_OFFSET: usize = 120;

pub const SCOUT_RO_REQUESTED_MID: usize = 128;

pub const SCOUT_RO_MIN_LEN: usize = 136;

/// Behind them, in a `RedemptionOffer`, a fee of 2 bytes and the request counter.
pub const RO_COUNTER_OFFSET: usize = 138;

pub const RO_COUNTER_END: usize = 146;

/// `State`: discriminator 8, boss 32, proposed boss 32, kill switch 1, then the ONyc mint.
pub const SCOUT_STATE_ONYC_MINT_OFFSET: usize = 73;

pub const SCOUT_STATE_ONYC_MINT_END: usize = 105;

/// Behind it, in `State`, 20 admins, two approvers and a bump seed, then the supply cap.
pub const SCOUT_STATE_MAX_SUPPLY_OFFSET: usize = 810;

pub const SCOUT_STATE_MAX_SUPPLY_END: usize = 818;

/// The least that a live `State` account holds.
pub const STATE_MIN_LEN: usize = 40;

/// A token mint: authority 36, then the supply.
pub const SCOUT_MINT_SUPPLY_OFFSET: usize = 36;

pub const SCOUT_MINT_SUPPLY_END: usize = 44;

/// `Offer`: discriminator 8, mint in 32, mint out 32.
pub const SCOUT_OFFER_IN_MINT_OFFSET: usize = 8;

pub const SCOUT_OFFER_IN_MINT_END: usize = 40;

pub const SCOUT_OFFER_OUT_MINT_END: usize = 72;

/// Behind them, in an `Offer`, ten vectors of five words each, then the fee in basis points.
pub const SCOUT_OFFER_FEE_OFFSET: usize = 472;

pub const SCOUT_OFFER_FEE_END: usize = 474;

/// The documented ceiling on offer fees: 10%.
pub const SCOUT_MAX_ALLOWED_FEE_BPS: u16 = 1000;

/// An open redemption request: its id, its redeemer and its amount.
pub type OpenRequest = (u64, Pubkey, u64);

/// The data of the account at `key`, where it holds at least `len` bytes.
pub open spec fn long_data_at(ctx: TestContext, key: Pubkey, len: int) -> Option<Seq<u8>> {
    match data_at(ctx, key) {
        Some(data) => if data.len() >= len {
            Some(data)
        } else {
            None
        },
        None => None,
    }
}

/// The data of the account at `key`, where it holds at least `len` bytes.
pub fn long_data(ctx: &TestContext, key: &Pubkey, len: usize) -> (r: Option<Vec<u8>>)
    ensures
        r is Some == long_data_at(*ctx, *key, len as int) is Some,
        r is Some ==> r->0@ == long_data_at(*ctx, *key, len as int)->0,
{
    match account_data(ctx, key) {
        Some(data) => if data.len() >= len {
            Some(data)
        } else {
            None
        },
        None => None,
    }
}

/// The `u64` at `at` in the account at `key`, where the account reaches that far.
pub open spec fn word_at(ctx: TestContext, key: Pubkey, at: int) -> Option<u64> {
    match long_data_at(ctx, key, at + 8) {
        Some(data) => Some(le_u64(data, at)),
        None => None,
    }
}

/// The `u64` at `at` in the account at `key`, where the account reaches that far.
pub fn read_word(ctx: &TestContext, key: &Pubkey, at: usize) -> (r: Option<u64>)
    requires
        at + 8 <= usize::MAX,
    ensures
        r == word_at(*ctx, *key, at as int),
{
    let data = long_data(ctx, key, at + 8)?;
    Some(u64_at(&data, at))
}

/// The address of request `id` under a redemption offer.
pub open spec fn request_key(program_id: Pubkey, ro: Pubkey, id: u64) -> Option<Pubkey> {
    pda(seq![SEED_REDEMPTION_REQUEST@, ro@, spec_u64_to_le_bytes(id)], program_id)
}

/// The address of the offer from one mint to another.
pub open spec fn offer_key(program_id: Pubkey, token_in: Pubkey, token_out: Pubkey) -> Option<
    Pubkey,
> {
    pda(seq![SEED_OFFER@, token_in@, token_out@], program_id)
}

/// The address of the redemption offer from one mint to another.
pub open spec fn redemption_offer_key(
    program_id: Pubkey,
    token_in: Pubkey,
    token_out: Pubkey,
) -> Option<Pubkey> {
    pda(seq![SEED_REDEMPTION_OFFER@, token_in@, token_out@], program_id)
}

/// The request counter of a redemption offer: the seed that its next request is derived from.
pub open spec fn counter_of(ctx: TestContext, ro: Pubkey) -> Option<u64> {
    word_at(ctx, ro, RO_COUNTER_OFFSET as int)
}

/// The request with the given id, where an account long enough for one stands at its address.
pub open spec fn request_at(ctx: TestContext, key: Pubkey, id: u64) -> Option<OpenRequest> {
    match long_data_at(ctx, key, SCOUT_REQ_MIN_LEN as int) {
        Some(data) => Some(
            (
                id,
                key_of(data.subrange(REQ_REDEEMER_OFFSET as int, REQ_REDEEMER_OFFSET + 32)),
                le_u64(data, SCOUT_REQ_AMOUNT_OFFSET as int),
            ),
        ),
        None => None,
    }
}

/// The open requests under a redemption offer among the first `count` ids, by ascending id.
/// Nothing where the address of one of them cannot be derived.
pub open spec fn requests_below(
    ctx: TestContext,
    program_id: Pubkey,
    ro: Pubkey,
    count: nat,
) -> Option<Seq<OpenRequest>>
    decreases count,
{
    if count == 0 {
        Some(Seq::empty())
    } else {
        let id = (count - 1) as u64;
        match (requests_below(ctx, program_id, ro, (count - 1) as nat), request_key(
            program_id,
            ro,
            id,
        )) {
            (Some(earlier), Some(key)) => match request_at(ctx, key, id) {
                Some(request) => Some(earlier.push(request)),
                None => Some(earlier),
            },
            _ => None,
        }
    }
}

/// The open requests under a redemption offer. An account that is still there is a request that is
/// still open: fulfilling and cancelling both close it. Nothing where the counter cannot be read
/// or has run past the scan cap.
pub open spec fn open_requests_under(ctx: TestContext, program_id: Pubkey, ro: Pubkey) -> Option<
    Seq<OpenRequest>,
> {
    match counter_of(ctx, ro) {
        Some(counter) => if counter <= SCOUT_REQUEST_SCAN_CAP {
            requests_below(ctx, program_id, ro, counter as nat)
        } else {
            None
        },
        None => None,
    }
}

/// The sum of the amounts of some requests.
pub open spec fn total(requests: Seq<OpenRequest>) -> nat
    decreases requests.len(),
{
    if requests.len() == 0 {
        0
    } else {
        total(requests.drop_last()) + requests.last().2 as nat
    }
}

/// The raw balance of a token account, and zero where there is none. The amount stands at the same
/// place under both token programs: the extensions follow the base.
pub open spec fn token_balance_at(ctx: TestContext, key: Pubkey) -> u64 {
    match word_at(ctx, key, SCOUT_TOKEN_AMOUNT_OFFSET as int) {
        Some(amount) => amount,
        None => 0,
    }
}

/// The world of one run.
pub struct OnreappFixture {
    pub ctx: TestContext,
    pub program_id: Pubkey,
    pub payer: Keypair,
    /// The program's authority. The same as `payer`.
    pub boss: Keypair,
    /// Two actors without privileges. With only one, every transfer would go from an actor to
    /// itself, and nobody could end richer at anyone else's expense.
    pub user_a: Keypair,
    pub user_b: Keypair,
    /// The only signer that fulfilling a redemption request accepts.
    pub redemption_admin: Keypair,
    /// Signs the approvals of offers that need one.
    pub approver: Keypair,
    /// 6 decimals; its authority stays with `boss`, so it always takes the transfer path.
    pub mint_usdc: Pubkey,
    /// 9 decimals; its authority moves to the program, so it takes the burn and mint path.
    pub mint_onyc: Pubkey,
    /// 6 decimals, used by nothing in the built world: a live target for the instructions that
    /// would be dead against mints that are already configured.
    pub mint_play: Pubkey,
    pub state_pda: Pubkey,
    pub mint_authority_pda: Pubkey,
    pub offer_vault_authority: Pubkey,
    pub redemption_vault_authority: Pubkey,
    pub permissionless_authority: Pubkey,
    /// The main offer: usdc to onyc.
    pub offer_pda: Pubkey,
    /// The inverse redemption offer: onyc to usdc.
    pub redemption_offer_pda: Pubkey,
    /// The reverse offer: onyc to usdc. It exists so that a redemption offer can pay out ONyc.
    pub offer_rev_pda: Pubkey,
    /// The redemption offer usdc to onyc. Fulfilling one of its requests mints ONyc.
    pub redemption_offer_rev_pda: Pubkey,
    /// The one token account that holds every ONyc redemption deposit.
    pub redemption_vault_onyc: Pubkey,
    /// The requests that lock ONyc, across all offers, as they were seen created.
    pub scout_p7_reqs: [Pubkey; 48],
    pub scout_p7_next: usize,
    /// The offers, as they were seen created.
    pub scout_p5_offers: [Pubkey; 16],
    pub scout_p5_next: usize,
    /// The requests of the live redemption offer, as they were seen created. Each property keeps a
    /// registry of its own: with one property selected, only its registry is fed.
    pub scout_p2_reqs: [Pubkey; 32],
    pub scout_p2_next: usize,
    pub scout_p3_reqs: [Pubkey; 32],
    pub scout_p3_next: usize,
    /// 6 decimals; the input leg of the offer that needs an approval.
    pub mint_appr: Pubkey,
    /// The offer that needs an approval: appr to onyc.
    pub offer_appr_pda: Pubkey,
    /// A Token-2022 mint that charges a transfer fee.
    pub mint_fee: Pubkey,
    /// The offer usdc to fee. It exists because the redemption offer below demands it.
    pub offer_fee_pda: Pubkey,
    /// The redemption offer fee to usdc, whose deposits charge a transfer fee.
    pub redemption_offer_fee_pda: Pubkey,
    /// The pooled redemption vault of `mint_fee`.
    pub redemption_vault_fee_ata: Pubkey,
    /// The requests against the transfer-fee offer, as they were seen created.
    pub scout_p8_reqs: [Pubkey; 32],
    pub scout_p8_next: usize,
    /// Whether the actions that reconfigure the world are enabled.
    pub admin_actions: bool,
}

impl Clone for OnreappFixture {
    fn clone(&self) -> (r: Self)
        ensures
            r == (OnreappFixture { ctx: r.ctx, ..*self }),
            context_accounts(r.ctx) == context_accounts(self.ctx),
    {
        OnreappFixture { ctx: self.ctx.clone(), ..*self }
    }
}

impl OnreappFixture {
    /// Whether the addresses of the world are those that the program derives from its mints.
    pub open spec fn addresses_derived(self) -> bool {
        let p = self.program_id;
        &&& pda(seq![SEED_STATE@], p) == Some(self.state_pda)
        &&& pda(seq![SEED_MINT_AUTHORITY@], p) == Some(self.mint_authority_pda)
        &&& pda(seq![SEED_OFFER_VAULT_AUTHORITY@], p) == Some(self.offer_vault_authority)
        &&& pda(seq![SEED_REDEMPTION_OFFER_VAULT_AUTHORITY@], p) == Some(
            self.redemption_vault_authority,
        )
        &&& pda(seq![SEED_PERMISSIONLESS_AUTHORITY@], p) == Some(self.permissionless_authority)
        &&& offer_key(p, self.mint_usdc, self.mint_onyc) == Some(self.offer_pda)
        &&& offer_key(p, self.mint_onyc, self.mint_usdc) == Some(self.offer_rev_pda)
        &&& offer_key(p, self.mint_appr, self.mint_onyc) == Some(self.offer_appr_pda)
        &&& offer_key(p, self.mint_usdc, self.mint_fee) == Some(self.offer_fee_pda)
        &&& redemption_offer_key(p, self.mint_onyc, self.mint_usdc) == Some(
            self.redemption_offer_pda,
        )
        &&& redemption_offer_key(p, self.mint_usdc, self.mint_onyc) == Some(
            self.redemption_offer_rev_pda,
        )
        &&& redemption_offer_key(p, self.mint_fee, self.mint_usdc) == Some(
            self.redemption_offer_fee_pda,
        )
        &&& ata(self.redemption_vault_authority, self.mint_onyc, SPL_TOKEN_ID) == Some(
            self.redemption_vault_onyc,
        )
        &&& ata(self.redemption_vault_authority, self.mint_fee, SPL_TOKEN_2022_ID) == Some(
            self.redemption_vault_fee_ata,
        )
    }

    /// The world is in order: its clock can be read, its boss pays, and its addresses are derived.
    pub open spec fn wf(self) -> bool {
        &&& has_clock(self.ctx)
        &&& self.payer == self.boss
        &&& self.addresses_derived()
    }

    /// One of the two actors without privileges.
    pub open spec fn user(self, sel: u64) -> Keypair {
        if sel % 2 == 0 {
            self.user_a
        } else {
            self.user_b
        }
    }

    /// Picks one of the two actors without privileges from a value that the fuzzer chose, so that
    /// the fuzzer controls who acts.
    pub fn pick_user(&self, sel: u64) -> (r: Keypair)
        ensures
            r == self.user(sel),
    {
        if sel % 2 == 0 {
            self.user_a
        } else {
            self.user_b
        }
    }

    /// The address of the actor that `pick_user` picks.
    pub fn pick_user_pk(&self, sel: u64) -> (r: Pubkey)
        ensures
            r == self.user(sel).public(),
    {
        if sel % 2 == 0 {
            self.user_a.pubkey()
        } else {
            self.user_b.pubkey()
        }
    }

    /// The address that this program derives from a seed and two keys.
    fn derive(&self, seed: &[u8], a: &[u8], b: &[u8]) -> (r: Option<Pubkey>)
        ensures
            r == pda(seq![seed@, a@, b@], self.program_id),
    {
        let seeds: [&[u8]; 3] = [seed, a, b];
        assert(seed_bytes(seeds@) =~= seq![seed@, a@, b@]);
        scout_pda(&seeds, &self.program_id)
    }

    /// Address of the offer from one mint to another.
    pub fn offer_pda_of(&self, token_in: &Pubkey, token_out: &Pubkey) -> (r: Option<Pubkey>)
        ensures
            r == offer_key(self.program_id, *token_in, *token_out),
    {
        self.derive(&SEED_OFFER, token_in, token_out)
    }

    /// Address of the redemption offer from one mint to another.
    pub fn redemption_offer_pda_of(&self, token_in: &Pubkey, token_out: &Pubkey) -> (r: Option<
        Pubkey,
    >)
        ensures
            r == redemption_offer_key(self.program_id, *token_in, *token_out),
    {
        self.derive(&SEED_REDEMPTION_OFFER, token_in, token_out)
    }

    /// Address of request `id` under an arbitrary redemption offer.
    pub fn request_pda_of(&self, ro: &Pubkey, id: u64) -> (r: Option<Pubkey>)
        ensures
            r == request_key(self.program_id, *ro, id),
    {
        self.derive(&SEED_REDEMPTION_REQUEST, ro, &u64_to_le_bytes(id))
    }

    /// The request counter of an arbitrary redemption offer.
    pub fn request_counter_of(&self, ro: &Pubkey) -> (r: Option<u64>)
        ensures
            r == counter_of(self.ctx, *ro),
    {
        read_word(&self.ctx, ro, RO_COUNTER_OFFSET)
    }

    /// The open requests under an arbitrary redemption offer, by ascending id.
    pub fn open_requests_of(&self, ro: &Pubkey) -> (r: Option<Vec<OpenRequest>>)
        ensures
            r is Some == open_requests_under(self.ctx, self.program_id, *ro) is Some,
            r is Some ==> r->0@ == open_requests_under(self.ctx, self.program_id, *ro)->0,
    {
        let counter = self.request_counter_of(ro)?;
        if counter > SCOUT_REQUEST_SCAN_CAP {
            return None;
        }
        let mut out: Vec<OpenRequest> = Vec::new();
        let mut id: u64 = 0;
        while id < counter
            invariant
                id <= counter <= SCOUT_REQUEST_SCAN_CAP,
                counter_of(self.ctx, *ro) == Some(counter),
                requests_below(self.ctx, self.program_id, *ro, id as nat) == Some(out@),
            decreases counter - id,
        {
            let found = self.request_pda_of(ro, id);
            if found.is_none() {
                proof {
                    lemma_missing_request(self.ctx, self.program_id, *ro, id, counter as nat);
                }
                return None;
            }
            let key = found.unwrap();
            if let Some(data) = long_data(&self.ctx, &key, SCOUT_REQ_MIN_LEN) {
                let redeemer = key_at(&data, REQ_REDEEMER_OFFSET);
                proof {
                    lemma_key_of(redeemer);
                }
                out.push((id, redeemer, u64_at(&data, SCOUT_REQ_AMOUNT_OFFSET)));
            }
            id = id + 1;
        }
        Some(out)
    }

    /// The supply of ONyc, read straight out of the mint.
    pub fn onyc_supply(&self) -> (r: Option<u64>)
        ensures
            r == word_at(self.ctx, self.mint_onyc, SCOUT_MINT_SUPPLY_OFFSET as int),
    {
        read_word(&self.ctx, &self.mint_onyc, SCOUT_MINT_SUPPLY_OFFSET)
    }

    /// Address of request `id` under the live redemption offer.
    pub fn request_pda(&self, id: u64) -> (r: Option<Pubkey>)
        ensures
            r == request_key(self.program_id, self.redemption_offer_pda, id),
    {
        self.request_pda_of(&self.redemption_offer_pda, id)
    }

    /// The request counter of the live redemption offer. It is read from the chain: a mirror of it
    /// could drift from the program, and every property would then measure the drift.
    pub fn onchain_request_counter(&self) -> (r: Option<u64>)
        ensures
            r == counter_of(self.ctx, self.redemption_offer_pda),
    {
        self.request_counter_of(&self.redemption_offer_pda)
    }

    /// The requested redemptions, as the program records them in the live redemption offer.
    pub fn onchain_requested_redemptions(&self) -> (r: Option<u128>)
        ensures
            r == requested_redemptions_at(self.ctx, self.redemption_offer_pda),
    {
        let data = long_data(&self.ctx, &self.redemption_offer_pda, SCOUT_RO_MIN_LEN)?;
        Some(u128_at(&data, SCOUT_RO_REQUESTED_OFFSET))
    }

    /// The open requests of the live redemption offer, by ascending id.
    pub fn open_requests(&self) -> (r: Option<Vec<OpenRequest>>)
        ensures
            r is Some == open_requests_under(self.ctx, self.program_id, self.redemption_offer_pda)
                is Some,
            r is Some ==> r->0@ == open_requests_under(
                self.ctx,
                self.program_id,
                self.redemption_offer_pda,
            )->0,
    {
        self.open_requests_of(&self.redemption_offer_pda)
    }

    /// What the open requests of the live redemption offer still lock.
    pub fn open_request_total(&self) -> (r: Option<u128>)
        ensures
            r == (match open_requests_under(self.ctx, self.program_id, self.redemption_offer_pda) {
                Some(requests) => Some(total(requests) as u128),
                None => None,
            }),
            r is Some ==> r->0 == total(
                open_requests_under(self.ctx, self.program_id, self.redemption_offer_pda)->0,
            ),
    {
        let requests = self.open_requests()?;
        proof {
            let counter = counter_of(self.ctx, self.redemption_offer_pda)->0;
            lemma_requests_below(
                self.ctx,
                self.program_id,
                self.redemption_offer_pda,
                counter as nat,
            );
        }
        Some(sum_amounts(&requests))
    }

    /// The address that the next request will be opened at.
    pub open spec fn next_request_key(self) -> Option<Pubkey> {
        let counter = counter_of(self.ctx, self.redemption_offer_pda);
        request_key(
            self.program_id,
            self.redemption_offer_pda,
            if counter is Some {
                counter->0
            } else {
                0
            },
        )
    }

    /// The address that the next request will be opened at.
    pub fn next_request_pda(&self) -> (r: Option<Pubkey>)
        ensures
            r == self.next_request_key(),
    {
        self.request_pda(self.onchain_request_counter().unwrap_or(0))
    }

    /// The oldest open request of the live redemption offer.
    pub open spec fn oldest_request(self) -> Option<OpenRequest> {
        match open_requests_under(self.ctx, self.program_id, self.redemption_offer_pda) {
            Some(requests) => if requests.len() > 0 {
                Some(requests[0])
            } else {
                None
            },
            None => None,
        }
    }

    /// The oldest open request of the live redemption offer.
    fn find_oldest_request(&self) -> (r: Option<OpenRequest>)
        ensures
            r == self.oldest_request(),
    {
        let requests = self.open_requests()?;
        if requests.len() > 0 {
            Some(requests[0])
        } else {
            None
        }
    }

    /// The address of the oldest open request, and of the next one where none is open.
    pub open spec fn oldest_request_key(self) -> Option<Pubkey> {
        match self.oldest_request() {
            Some(request) => request_key(self.program_id, self.redemption_offer_pda, request.0),
            None => self.next_request_key(),
        }
    }

    /// The redeemer of the oldest open request, and the first user where none is open.
    pub open spec fn oldest_redeemer(self) -> Pubkey {
        match self.oldest_request() {
            Some(request) => request.1,
            None => self.user_a.public(),
        }
    }

    /// The address of the oldest open request: what fulfilling and cancelling act on. With no open
    /// request it is the next one's, where nothing stands yet, so that the action fails. That is
    /// the honest outcome: there is nothing to fulfil or cancel.
    pub fn oldest_request_pda(&self) -> (r: Option<Pubkey>)
        ensures
            r == self.oldest_request_key(),
    {
        match self.find_oldest_request() {
            Some(request) => self.request_pda(request.0),
            None => self.next_request_pda(),
        }
    }

    /// The redeemer of the oldest open request.
    pub fn oldest_request_redeemer(&self) -> (r: Pubkey)
        ensures
            r == self.oldest_redeemer(),
    {
        match self.find_oldest_request() {
            Some(request) => request.1,
            None => self.user_a.pubkey(),
        }
    }

    /// Whether the program's `State` account is allocated.
    pub open spec fn has_state(self) -> bool {
        long_data_at(self.ctx, self.state_pda, STATE_MIN_LEN as int) is Some
    }

    /// Whether the program's `State` account is allocated. `close_state` deallocates it.
    pub fn state_exists(&self) -> (r: bool)
        ensures
            r == self.has_state(),
    {
        long_data(&self.ctx, &self.state_pda, STATE_MIN_LEN).is_some()
    }

    /// The mints that `make_offer` pairs up.
    pub open spec fn offer_pair(self, sel: u16) -> (Pubkey, Pubkey) {
        if sel % 4 == 0 {
            (self.mint_play, self.mint_onyc)
        } else if sel % 4 == 1 {
            (self.mint_play, self.mint_usdc)
        } else if sel % 4 == 2 {
            (self.mint_appr, self.mint_usdc)
        } else {
            (self.mint_onyc, self.mint_onyc)
        }
    }

    /// The pair of mints that `action_make_offer` uses, chosen from its own fee argument so that
    /// the fuzzer decides. One variant puts the same mint on both legs: `make_offer` relates the
    /// two nowhere, so that is an ordinary accepted call.
    pub fn make_offer_pair(&self, sel: u16) -> (r: (Pubkey, Pubkey))
        ensures
            r == self.offer_pair(sel),
    {
        match sel % 4 {
            0 => (self.mint_play, self.mint_onyc),
            1 => (self.mint_play, self.mint_usdc),
            2 => (self.mint_appr, self.mint_usdc),
            _ => (self.mint_onyc, self.mint_onyc),
        }
    }

    /// The address of the offer that `action_make_offer` makes.
    pub fn make_offer_pda_for(&self, sel: u16) -> (r: Option<Pubkey>)
        ensures
            r == offer_key(self.program_id, self.offer_pair(sel).0, self.offer_pair(sel).1),
    {
        let (token_in, token_out) = self.make_offer_pair(sel);
        self.offer_pda_of(&token_in, &token_out)
    }

    /// The mint that a vault operation targets.
    pub open spec fn vault_mint(self, sel: u64) -> Pubkey {
        if sel % 2 == 0 {
            self.mint_usdc
        } else {
            self.mint_onyc
        }
    }

    /// The mint that a vault operation targets, chosen from a value of the fuzzer. Pinned to one
    /// mint, the vault that holds the users' deposits would be out of reach.
    pub fn pick_vault_mint(&self, sel: u64) -> (r: Pubkey)
        ensures
            r == self.vault_mint(sel),
    {
        if sel % 2 == 0 {
            self.mint_usdc
        } else {
            self.mint_onyc
        }
    }

    /// The one token account that holds every redemption deposit of a mint. The authority's seeds
    /// name no offer, so this account backs every redemption offer that shares the mint.
    pub fn redemption_vault_ata(&self, mint: &Pubkey) -> (r: Option<Pubkey>)
        ensures
            r == ata(self.redemption_vault_authority, *mint, SPL_TOKEN_ID),
    {
        scout_ata(&self.redemption_vault_authority, mint, &SPL_TOKEN_ID)
    }

    /// The raw balance of a token account, and zero where there is none.
    pub fn tok_amt(&self, addr: &Pubkey) -> (r: u64)
        ensures
            r == token_balance_at(self.ctx, *addr),
    {
        read_word(&self.ctx, addr, SCOUT_TOKEN_AMOUNT_OFFSET).unwrap_or(0)
    }

    /// The pooled redemption vault of the transfer-fee mint.
    pub fn redemption_vault_fee(&self) -> (r: Option<Pubkey>)
        ensures
            r == ata(self.redemption_vault_authority, self.mint_fee, SPL_TOKEN_2022_ID),
            self.wf() ==> r == Some(self.redemption_vault_fee_ata),
    {
        scout_ata(&self.redemption_vault_authority, &self.mint_fee, &SPL_TOKEN_2022_ID)
    }

    /// The sum of the open requests against the transfer-fee offer.
    pub open spec fn fee_claims(self) -> nat {
        match open_requests_under(self.ctx, self.program_id, self.redemption_offer_fee_pda) {
            Some(requests) => total(requests),
            None => 0,
        }
    }

    /// The sum of the open requests against the transfer-fee offer.
    fn sum_fee_claims(&self) -> (r: u128)
        ensures
            r == self.fee_claims(),
    {
        match self.open_requests_of(&self.redemption_offer_fee_pda) {
            Some(requests) => {
                proof {
                    let ro = self.redemption_offer_fee_pda;
                    let counter = counter_of(self.ctx, ro)->0;
                    lemma_requests_below(self.ctx, self.program_id, ro, counter as nat);
                }
                sum_amounts(&requests)
            },
            None => 0,
        }
    }

    /// What the program believes it owes out of the transfer-fee vault.
    pub fn claimed_fee(&self) -> (r: u64)
        requires
            self.fee_claims() <= u64::MAX,
        ensures
            r == self.fee_claims(),
    {
        self.sum_fee_claims() as u64
    }

    /// What the program believes it owes out of the transfer-fee vault, and nothing where that is
    /// more than a word can hold.
    pub fn try_claimed_fee(&self) -> (r: Option<u64>)
        ensures
            r == (if self.fee_claims() <= u64::MAX {
                Some(self.fee_claims() as u64)
            } else {
                None
            }),
    {
        if self.sum_fee_claims() <= u64::MAX as u128 {
            Some(self.claimed_fee())
        } else {
            None
        }
    }
}

/// The requested redemptions that a redemption offer records.
pub open spec fn requested_redemptions_at(ctx: TestContext, ro: Pubkey) -> Option<u128> {
    match long_data_at(ctx, ro, SCOUT_RO_MIN_LEN as int) {
        Some(data) => Some(le_u128(data, SCOUT_RO_REQUESTED_OFFSET as int)),
        None => None,
    }
}

/// The sum of the amounts of some requests.
fn sum_amounts(requests: &Vec<OpenRequest>) -> (r: u128)
    requires
        requests@.len() <= SCOUT_REQUEST_SCAN_CAP,
    ensures
        r == total(requests@),
{
    let mut sum: u128 = 0;
    let mut i: usize = 0;
    while i < requests.len()
        invariant
            i <= requests@.len() <= SCOUT_REQUEST_SCAN_CAP,
            sum == total(requests@.subrange(0, i as int)),
            sum <= i * 0x1_0000_0000_0000_0000,
        decreases requests@.len() - i,
    {
        sum = sum + requests[i].2 as u128;
        i = i + 1;
        assert(requests@.subrange(0, i as int).drop_last() =~= requests@.subrange(0, i - 1));
    }
    assert(requests@.subrange(0, i as int) =~= requests@);
    sum
}

/// A request whose address cannot be derived leaves no list.
proof fn lemma_missing_request(
    ctx: TestContext,
    program_id: Pubkey,
    ro: Pubkey,
    id: u64,
    count: nat,
)
    requires
        id < count <= SCOUT_REQUEST_SCAN_CAP,
        request_key(program_id, ro, id) is None,
    ensures
        requests_below(ctx, program_id, ro, count) is None,
    decreases count,
{
    if count > id + 1 {
        lemma_missing_request(ctx, program_id, ro, id, (count - 1) as nat);
    }
}

/// The list of open requests holds no id twice, in ascending order and below the bound, and each
/// entry is what stands at its address.
pub proof fn lemma_requests_below(ctx: TestContext, program_id: Pubkey, ro: Pubkey, count: nat)
    requires
        count <= SCOUT_REQUEST_SCAN_CAP,
        requests_below(ctx, program_id, ro, count) is Some,
    ensures
        ({
            let requests = requests_below(ctx, program_id, ro, count)->0;
            &&& requests.len() <= count
            &&& forall|i: int| 0 <= i < requests.len() ==> (#[trigger] requests[i]).0 < count
            &&& forall|i: int|
                0 <= i < requests.len() ==> {
                    let key = request_key(program_id, ro, (#[trigger] requests[i]).0);
                    key is Some && request_at(ctx, key->0, requests[i].0) == Some(requests[i])
                }
            &&& forall|i: int, j: int|
                0 <= i < j < requests.len() ==> (#[trigger] requests[i]).0 < (
                #[trigger] requests[j]).0
        }),
    decreases count,
{
    if count > 0 {
        lemma_requests_below(ctx, program_id, ro, (count - 1) as nat);
    }
}

} // verus!
