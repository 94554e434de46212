//! The actions that no single instruction of the program offers: moving the clock, and playing the
//! offers, requests and keys that the plain actions are not bound to.

use crucible_test_context::TestContext;
use vstd::prelude::*;

use crate::accounts::{spl, spl_leg};
use crate::actions::{sign, signed_by, sound};
use crate::bytes::{signed_of, to_signed, word_of};
use crate::context::{
    clock_at_slot, clock_at_time, clock_data, context_accounts, has_clock, has_next_slot,
    next_slot, now_of, scout_now, scout_set_time, slot_of, with_clock, StoredAccount,
};
use crate::ed25519::{ed25519_data, scout_ed25519_instruction, ApprovalMessage, Instruction};
use crate::fixture::{
    counter_of, offer_key, open_requests_under, redemption_offer_key, request_key, word_at,
    OnreappFixture, OpenRequest, SCOUT_MINT_SUPPLY_OFFSET, USER_ONYC_START, USER_USDC_START,
};
use crate::instruction::{Call, Leg, OfferVector, Plan, Record};
use crate::keys::{
    ed25519_signature, same_key, Keypair, Pubkey, DEFAULT_PUBKEY, ED25519_PROGRAM_ID,
    SPL_TOKEN_2022_ID,
};

verus! {

/// How far `action_scout_advance_time` moves the clock: bounded, so that the fuzzer explores real
/// durations instead of times that overflow the price math at once.
pub open spec fn time_step(seconds: u32) -> int {
    1 + seconds as int % 40_000_000
}

/// The time after a number of seconds, kept within the range of a signed word.
pub open spec fn time_after(now: u64, seconds: int) -> i64 {
    let sum = signed_of(now) + seconds;
    if sum > i64::MAX {
        i64::MAX
    } else {
        sum as i64
    }
}

/// The accounts of a chain after `action_scout_advance_time`: its clock stands at the later time
/// and one slot further on, and all the rest is as it was.
pub open spec fn advanced(ctx: TestContext, seconds: u32) -> Map<Seq<u8>, StoredAccount> {
    let later = time_after(now_of(ctx), time_step(seconds));
    let slot = (slot_of(ctx) + 1) as u64;
    with_clock(
        context_accounts(ctx),
        clock_at_slot(clock_at_time(clock_data(ctx), later), slot),
    )
}

/// An amount that the fuzzer chose, brought below `cap` unless bit 2 of `sel` is set: most draws
/// are then affordable, and the paths that run short of funds or overflow stay reachable.
pub open spec fn bounded_amount(amount: u64, sel: u8, cap: u64) -> u64 {
    if (sel / 4) % 2 == 1 {
        amount
    } else {
        (amount % cap + 1) as u64
    }
}

/// An amount that the fuzzer chose, brought below `cap` unless bit 2 of `sel` is set.
fn bound_amount(amount: u64, sel: u8, cap: u64) -> (r: u64)
    requires
        cap > 0,
    ensures
        r == bounded_amount(amount, sel, cap),
{
    if (sel / 4) % 2 == 1 {
        amount
    } else {
        amount % cap + 1
    }
}

/// The base price that `action_scout_price_same_mint_offer` sets: below 1.0, where a taker
/// of that offer is paid more than they paid, and above zero.
pub open spec fn same_mint_price(price: u64) -> u64 {
    if price % 1_000_000_000 == 0 {
        1
    } else {
        price % 1_000_000_000
    }
}

/// The cap that `action_scout_configure_max_supply` sets, for a supply and some headroom.
pub open spec fn cap_above(supply: u64, headroom: u64) -> u64 {
    let cap = supply + headroom % 1_000_000_000_000;
    if cap > u64::MAX {
        u64::MAX
    } else {
        cap as u64
    }
}

/// When an approval expires: some seconds from now, or before now where they are negative.
pub open spec fn expiry_of(now: u64, delta: i32) -> u64 {
    let sum = signed_of(now) + delta;
    if sum < 0 {
        0
    } else if sum > i64::MAX {
        i64::MAX as u64
    } else {
        sum as u64
    }
}

/// The request with the given id, where it is among some requests.
pub open spec fn request_with_id(requests: Seq<OpenRequest>, id: u64) -> Option<OpenRequest>
    decreases requests.len(),
{
    if requests.len() == 0 {
        None
    } else if requests[0].0 == id {
        Some(requests[0])
    } else {
        request_with_id(requests.subrange(1, requests.len() as int), id)
    }
}

/// The request with the given id, where it is among some requests.
fn find_request(requests: &Vec<OpenRequest>, id: u64) -> (r: Option<OpenRequest>)
    ensures
        r == request_with_id(requests@, id),
{
    let mut i: usize = 0;
    assert(requests@.subrange(0, requests@.len() as int) =~= requests@);
    while i < requests.len()
        invariant
            i <= requests@.len(),
            request_with_id(requests@, id) == request_with_id(
                requests@.subrange(i as int, requests@.len() as int),
                id,
            ),
        decreases requests@.len() - i,
    {
        proof {
            let rest = requests@.subrange(i as int, requests@.len() as int);
            assert(rest[0] == requests@[i as int]);
            assert(rest.subrange(1, rest.len() as int) =~= requests@.subrange(
                i + 1,
                requests@.len() as int,
            ));
        }
        if requests[i].0 == id {
            return Some(requests[i]);
        }
        i = i + 1;
    }
    None
}

/// A take of the offer that needs an approval: the precompile instruction that carries the signed
/// approval, and the take behind it in the same transaction.
pub struct ApprovedTake {
    pub precompile: Instruction,
    pub take: Plan,
}

/// One step of building the state: a label for it, and what to send.
#[derive(Clone, Copy, Debug, PartialEq, Eq)]
pub struct Dispatch {
    pub label: &'static str,
    pub plan: Plan,
}

/// The steps that create the state and wire up its governance.
pub open spec fn bootstrap(world: OnreappFixture) -> Option<[Dispatch; 3]> {
    match world.initialize_plan(world.boss) {
        Some(initialize) => Some(
            [
                Dispatch { label: "initialize", plan: initialize },
                Dispatch {
                    label: "set_redemption_admin",
                    plan: signed_by(
                        Call::SetRedemptionAdmin {
                            new_redemption_admin: world.redemption_admin.public(),
                            accounts: world.boss_accounts(),
                        },
                        world.boss,
                    ),
                },
                Dispatch {
                    label: "add_approver",
                    plan: signed_by(
                        Call::AddApprover {
                            approver: world.approver.public(),
                            accounts: world.boss_accounts(),
                        },
                        world.boss,
                    ),
                },
            ],
        ),
        None => None,
    }
}

/// The steps that create the state and wire up its governance. Building a world and recovering
/// from `close_state` share them.
pub fn scout_bootstrap_state(world: &OnreappFixture) -> (r: Option<[Dispatch; 3]>)
    ensures
        r == bootstrap(*world),
        world.wf() && r is Some ==> forall|i: int|
            0 <= i < 3 ==> (#[trigger] r->0[i]).plan.is_sound(),
        world.wf() && r is Some ==> forall|i: int|
            0 <= i < 3 ==> world.serves(Some((#[trigger] r->0[i]).plan)),
{
    let initialize = world.initialize(world.boss)?;
    let set_admin = Call::SetRedemptionAdmin {
        new_redemption_admin: world.redemption_admin.pubkey(),
        accounts: world.boss_call(),
    };
    let add_approver = Call::AddApprover {
        approver: world.approver.pubkey(),
        accounts: world.boss_call(),
    };
    Some(
        [
            Dispatch { label: "initialize", plan: initialize },
            Dispatch { label: "set_redemption_admin", plan: sign(set_admin, world.boss) },
            Dispatch { label: "add_approver", plan: sign(add_approver, world.boss) },
        ],
    )
}

impl OnreappFixture {
    /// Moves the clock forward. No instruction does that, but nearly every guard of the program
    /// reads the clock: on a frozen one, no price would ever move between two actions.
    pub fn action_scout_advance_time(&mut self, seconds: u32) -> (r: bool)
        requires
            has_clock(old(self).ctx),
            slot_of(old(self).ctx) < u64::MAX,
        ensures
            r,
            has_clock(final(self).ctx),
            old(self).wf() ==> final(self).wf(),
            *final(self) == (OnreappFixture { ctx: final(self).ctx, ..*old(self) }),
            now_of(final(self).ctx) == word_of(
                time_after(now_of(old(self).ctx), time_step(seconds)),
            ),
            slot_of(final(self).ctx) == slot_of(old(self).ctx) + 1,
            context_accounts(final(self).ctx) == advanced(old(self).ctx, seconds),
    {
        let delta: i64 = 1 + (seconds % 40_000_000) as i64;
        let now = to_signed(scout_now(&self.ctx));
        let later = if now > i64::MAX - delta {
            i64::MAX
        } else {
            now + delta
        };
        scout_set_time(&mut self.ctx, later);
        next_slot(&mut self.ctx);
        proof {
            let before = clock_data(old(self).ctx);
            let timed = clock_at_time(before, later);
            assert(timed.subrange(8, 40) =~= before.subrange(8, 32) + timed.subrange(32, 40));
            assert(context_accounts(self.ctx) =~= advanced(old(self).ctx, seconds));
        }
        true
    }

    /// Moves the clock forward, where its slot can still grow; else changes nothing.
    pub fn try_advance_time(&mut self, seconds: u32) -> (r: bool)
        requires
            has_clock(old(self).ctx),
        ensures
            r == (slot_of(old(self).ctx) < u64::MAX),
            has_clock(final(self).ctx),
            old(self).wf() ==> final(self).wf(),
            !r ==> *final(self) == *old(self),
            r ==> {
                &&& *final(self) == (OnreappFixture { ctx: final(self).ctx, ..*old(self) })
                &&& now_of(final(self).ctx) == word_of(
                    time_after(now_of(old(self).ctx), time_step(seconds)),
                )
                &&& slot_of(final(self).ctx) == slot_of(old(self).ctx) + 1
                &&& context_accounts(final(self).ctx) == advanced(old(self).ctx, seconds)
            },
    {
        if has_next_slot(&self.ctx) {
            self.action_scout_advance_time(seconds)
        } else {
            false
        }
    }

    /// What `action_scout_price_same_mint_offer` sends.
    pub open spec fn price_same_mint_offer_plan(self, price: u64) -> Option<Plan> {
        match offer_key(self.program_id, self.mint_onyc, self.mint_onyc) {
            Some(offer) => Some(
                signed_by(
                    Call::AddOfferVector {
                        vector: OfferVector {
                            start_time: None,
                            base_time: now_of(self.ctx),
                            base_price: same_mint_price(price),
                            apr: 0,
                            price_fix_duration: 3_600,
                        },
                        accounts: self.offer_accounts(offer, self.mint_onyc, self.mint_onyc),
                    },
                    self.boss,
                ),
            ),
            None => None,
        }
    }

    /// Prices the offer from onyc to itself below 1.0, where there is one. It does not make that
    /// offer: only `action_make_offer` does, so that a counterexample names the real instruction.
    pub fn action_scout_price_same_mint_offer(&self, price: u64) -> (r: Option<Plan>)
        requires
            has_clock(self.ctx),
        ensures
            r == self.price_same_mint_offer_plan(price),
            self.wf() ==> self.serves(r),
            sound(r),
    {
        let mint = self.mint_onyc;
        let offer = self.offer_pda_of(&mint, &mint)?;
        let remainder = price % 1_000_000_000;
        let vector = OfferVector {
            start_time: None,
            base_time: scout_now(&self.ctx),
            base_price: if remainder == 0 {
                1
            } else {
                remainder
            },
            apr: 0,
            price_fix_duration: 3_600,
        };
        let accounts = self.offer_call(offer, mint, mint);
        Some(sign(Call::AddOfferVector { vector, accounts }, self.boss))
    }

    /// What `action_scout_take_same_mint_offer` sends.
    pub open spec fn take_same_mint_offer_plan(self, amount: u64, sel: u8) -> Option<Plan> {
        match offer_key(self.program_id, self.mint_onyc, self.mint_onyc) {
            Some(offer) => match self.take_accounts(
                offer,
                self.user(sel as u64).public(),
                spl_leg(self.mint_onyc),
                spl_leg(self.mint_onyc),
            ) {
                Some(accounts) => Some(
                    signed_by(
                        Call::TakeOffer {
                            token_in_amount: bounded_amount(amount, sel, USER_ONYC_START / 4),
                            approval_message: None,
                            accounts,
                        },
                        self.user(sel as u64),
                    ),
                ),
                None => None,
            },
            None => None,
        }
    }

    /// Takes the offer from onyc to itself.
    pub fn action_scout_take_same_mint_offer(&self, amount: u64, sel: u8) -> (r: Option<Plan>)
        ensures
            r == self.take_same_mint_offer_plan(amount, sel),
            self.wf() ==> self.serves(r),
            sound(r),
    {
        let mint = self.mint_onyc;
        let offer = self.offer_pda_of(&mint, &mint)?;
        let user = self.pick_user(sel as u64);
        let accounts = self.take_call(offer, user.pubkey(), spl(mint), spl(mint))?;
        let call = Call::TakeOffer {
            token_in_amount: bound_amount(amount, sel, USER_ONYC_START / 4),
            approval_message: None,
            accounts,
        };
        Some(sign(call, user))
    }

    /// What `action_scout_configure_max_supply` sends.
    pub open spec fn supply_cap_plan(self, headroom: u64) -> Option<Plan> {
        match word_at(self.ctx, self.mint_onyc, SCOUT_MINT_SUPPLY_OFFSET as int) {
            Some(supply) => Some(
                signed_by(
                    Call::ConfigureMaxSupply {
                        max_supply: cap_above(supply, headroom),
                        accounts: self.boss_accounts(),
                    },
                    self.boss,
                ),
            ),
            None => None,
        }
    }

    /// Sets the cap on the supply of ONyc, always at or above the supply of the moment: any later
    /// excess was then minted, not declared.
    pub fn action_scout_configure_max_supply(&self, headroom: u64) -> (r: Option<Plan>)
        ensures
            r == self.supply_cap_plan(headroom),
            self.wf() ==> self.serves(r),
            sound(r),
    {
        let supply = self.onyc_supply()?;
        let max_supply = supply.saturating_add(headroom % 1_000_000_000_000);
        let accounts = self.boss_call();
        Some(sign(Call::ConfigureMaxSupply { max_supply, accounts }, self.boss))
    }

    /// A request to open against a redemption offer: at the address of its counter, by a user.
    pub open spec fn request_plan(
        self,
        ro: Pubkey,
        user: Keypair,
        token_in: Leg,
        amount: u64,
    ) -> Option<(Pubkey, Plan)> {
        match counter_of(self.ctx, ro) {
            Some(id) => match request_key(self.program_id, ro, id) {
                Some(request) => match self.create_request_accounts(
                    ro,
                    request,
                    user.public(),
                    token_in,
                ) {
                    Some(accounts) => Some(
                        (
                            request,
                            signed_by(Call::CreateRedemptionRequest { amount, accounts }, user),
                        ),
                    ),
                    None => None,
                },
                None => None,
            },
            None => None,
        }
    }

    /// A request to open against a redemption offer, where there is such an offer.
    fn plan_request(&self, ro: Pubkey, user: Keypair, token_in: Leg, amount: u64) -> (r: Option<
        (Pubkey, Plan),
    >)
        ensures
            r == self.request_plan(ro, user, token_in, amount),
    {
        let id = self.request_counter_of(&ro)?;
        let request = self.request_pda_of(&ro, id)?;
        let accounts = self.create_request_call(ro, request, user.pubkey(), token_in)?;
        Some((request, sign(Call::CreateRedemptionRequest { amount, accounts }, user)))
    }

    /// What `action_scout_create_request_play` sends.
    pub open spec fn create_request_play_plan(self, amount: u64, sel: u8) -> Option<Plan> {
        match redemption_offer_key(self.program_id, self.mint_onyc, self.mint_play) {
            Some(ro) => match self.request_plan(
                ro,
                self.user(sel as u64),
                spl_leg(self.mint_onyc),
                bounded_amount(amount, sel, USER_ONYC_START / 8),
            ) {
                Some((request, plan)) => Some(
                    Plan { record: Record::PlayRequest(request), ..plan },
                ),
                None => None,
            },
            None => None,
        }
    }

    /// Opens a request against the redemption offer from onyc to the spare mint, where it exists.
    /// It locks onyc like the live one, in the same token account. A success is noted with the
    /// request.
    pub fn action_scout_create_request_play(&self, amount: u64, sel: u8) -> (r: Option<Plan>)
        ensures
            r == self.create_request_play_plan(amount, sel),
            self.wf() ==> self.serves(r),
            sound(r),
    {
        let ro = self.redemption_offer_pda_of(&self.mint_onyc, &self.mint_play)?;
        let (request, plan) = self.plan_request(
            ro,
            self.pick_user(sel as u64),
            spl(self.mint_onyc),
            bound_amount(amount, sel, USER_ONYC_START / 8),
        )?;
        Some(Plan { record: Record::PlayRequest(request), ..plan })
    }

    /// What `action_scout_create_request_rev` sends.
    pub open spec fn create_request_rev_plan(self, amount: u64, sel: u8) -> Option<Plan> {
        match self.request_plan(
            self.redemption_offer_rev_pda,
            self.user(sel as u64),
            spl_leg(self.mint_usdc),
            bounded_amount(amount, sel, USER_USDC_START / 4),
        ) {
            Some((_, plan)) => Some(plan),
            None => None,
        }
    }

    /// Opens a request against the reverse redemption offer: usdc in, onyc out.
    pub fn action_scout_create_request_rev(&self, amount: u64, sel: u8) -> (r: Option<Plan>)
        ensures
            r == self.create_request_rev_plan(amount, sel),
            self.wf() ==> self.serves(r),
            sound(r),
    {
        let (_, plan) = self.plan_request(
            self.redemption_offer_rev_pda,
            self.pick_user(sel as u64),
            spl(self.mint_usdc),
            bound_amount(amount, sel, USER_USDC_START / 4),
        )?;
        Some(plan)
    }

    /// The mint that charges a transfer fee.
    pub open spec fn fee_leg(self) -> Leg {
        Leg { mint: self.mint_fee, program: SPL_TOKEN_2022_ID }
    }

    /// What `action_scout_create_request_fee` sends.
    pub open spec fn create_request_fee_plan(self, amount: u64, sel: u8) -> Option<Plan> {
        match self.request_plan(
            self.redemption_offer_fee_pda,
            self.user(sel as u64),
            self.fee_leg(),
            bounded_amount(amount, sel, USER_USDC_START / 4),
        ) {
            Some((request, plan)) => Some(Plan { record: Record::FeeRequest(request), ..plan }),
            None => None,
        }
    }

    /// Opens a request against the redemption offer whose deposits charge a transfer fee: the vault
    /// receives less than the amount that the program records. A success is noted with the request.
    pub fn action_scout_create_request_fee(&self, amount: u64, sel: u8) -> (r: Option<Plan>)
        ensures
            r == self.create_request_fee_plan(amount, sel),
            self.wf() ==> self.serves(r),
            sound(r),
    {
        let (request, plan) = self.plan_request(
            self.redemption_offer_fee_pda,
            self.pick_user(sel as u64),
            Leg { mint: self.mint_fee, program: SPL_TOKEN_2022_ID },
            bound_amount(amount, sel, USER_USDC_START / 4),
        )?;
        Some(Plan { record: Record::FeeRequest(request), ..plan })
    }

    /// What `action_scout_cancel_request_fee` sends.
    pub open spec fn cancel_request_fee_plan(self, id: u64) -> Option<Plan> {
        match self.open_fee_request(id) {
            Some((rid, redeemer, _)) => match request_key(
                self.program_id,
                self.redemption_offer_fee_pda,
                rid,
            ) {
                Some(request) => match self.cancel_accounts(
                    self.redemption_offer_fee_pda,
                    request,
                    redeemer,
                    redeemer,
                    self.fee_leg(),
                ) {
                    Some(accounts) => Some(
                        signed_by(
                            Call::CancelRedemptionRequest { accounts },
                            if redeemer == self.user_a.public() {
                                self.user_a
                            } else {
                                self.user_b
                            },
                        ),
                    ),
                    None => None,
                },
                None => None,
            },
            None => None,
        }
    }

    /// Cancels an open request against the transfer-fee offer, in the name of its redeemer. It is
    /// signed by the first user where that is the redeemer, and by the second one else. The vault
    /// pays out the recorded amount, of which it received less.
    pub fn action_scout_cancel_request_fee(&self, id: u64) -> (r: Option<Plan>)
        ensures
            r == self.cancel_request_fee_plan(id),
            self.wf() ==> self.serves(r),
            self.open_fee_request(id) matches Some((_, redeemer, _)) ==> (redeemer
                == self.user_a.public() || redeemer == self.user_b.public()) ==> sound(r),
    {
        let ro = self.redemption_offer_fee_pda;
        let open = self.open_requests_of(&ro)?;
        let (rid, redeemer, _) = find_request(&open, id)?;
        let signer = if same_key(&redeemer, &self.user_a.pubkey()) {
            self.user_a
        } else {
            self.user_b
        };
        let request = self.request_pda_of(&ro, rid)?;
        let leg = Leg { mint: self.mint_fee, program: SPL_TOKEN_2022_ID };
        let accounts = self.cancel_call(ro, request, redeemer, redeemer, leg)?;
        Some(sign(Call::CancelRedemptionRequest { accounts }, signer))
    }

    /// The open request against the transfer-fee offer with the given id.
    pub open spec fn open_fee_request(self, id: u64) -> Option<OpenRequest> {
        match open_requests_under(self.ctx, self.program_id, self.redemption_offer_fee_pda) {
            Some(requests) => request_with_id(requests, id),
            None => None,
        }
    }

    /// What `action_scout_take_fee_offer` sends.
    pub open spec fn take_fee_offer_plan(self, amount: u64) -> Option<Plan> {
        match self.take_accounts(
            self.offer_fee_pda,
            self.user_a.public(),
            spl_leg(self.mint_usdc),
            self.fee_leg(),
        ) {
            Some(accounts) => Some(
                signed_by(
                    Call::TakeOffer {
                        token_in_amount: amount,
                        approval_message: None,
                        accounts,
                    },
                    self.user_a,
                ),
            ),
            None => None,
        }
    }

    /// Takes the offer from usdc to the transfer-fee mint. The program refuses it, because it pays
    /// out a mint that charges a fee; should it succeed, the mint has stopped charging one.
    pub fn action_scout_take_fee_offer(&self, amount: u64) -> (r: Option<Plan>)
        ensures
            r == self.take_fee_offer_plan(amount),
            self.wf() ==> self.serves(r),
            sound(r),
    {
        let accounts = self.take_call(
            self.offer_fee_pda,
            self.user_a.pubkey(),
            spl(self.mint_usdc),
            Leg { mint: self.mint_fee, program: SPL_TOKEN_2022_ID },
        )?;
        let call = Call::TakeOffer { token_in_amount: amount, approval_message: None, accounts };
        Some(sign(call, self.user_a))
    }

    /// What `action_scout_fulfill_rev` sends.
    pub open spec fn fulfill_rev_plan(self) -> Option<Plan> {
        match open_requests_under(
            self.ctx,
            self.program_id,
            self.redemption_offer_rev_pda,
        ) {
            Some(requests) => if requests.len() > 0 {
                match request_key(
                    self.program_id,
                    self.redemption_offer_rev_pda,
                    requests[0].0,
                ) {
                    Some(request) => match self.fulfill_accounts(
                        self.offer_rev_pda,
                        self.redemption_offer_rev_pda,
                        request,
                        requests[0].1,
                        spl_leg(self.mint_usdc),
                        spl_leg(self.mint_onyc),
                    ) {
                        Some(accounts) => Some(
                            signed_by(
                                Call::FulfillRedemptionRequest { accounts },
                                self.redemption_admin,
                            ),
                        ),
                        None => None,
                    },
                    None => None,
                }
            } else {
                None
            },
            None => None,
        }
    }

    /// Fulfils the oldest open request of the reverse redemption offer, which mints onyc.
    pub fn action_scout_fulfill_rev(&self) -> (r: Option<Plan>)
        ensures
            r == self.fulfill_rev_plan(),
            self.wf() ==> self.serves(r),
            sound(r),
    {
        let ro = self.redemption_offer_rev_pda;
        let open = self.open_requests_of(&ro)?;
        if open.len() == 0 {
            return None;
        }
        let (id, redeemer, _) = open[0];
        let request = self.request_pda_of(&ro, id)?;
        let accounts = self.fulfill_call(
            self.offer_rev_pda,
            ro,
            request,
            redeemer,
            spl(self.mint_usdc),
            spl(self.mint_onyc),
        )?;
        Some(sign(Call::FulfillRedemptionRequest { accounts }, self.redemption_admin))
    }

    /// The steps that rebuild the state.
    pub fn rebuild_state(&self) -> (r: Option<[Dispatch; 3]>)
        ensures
            r == bootstrap(*self),
    {
        scout_bootstrap_state(self)
    }

    /// What `action_scout_rebuild_state` sends.
    pub open spec fn rebuild_plan(self) -> Option<[Dispatch; 3]> {
        if self.has_state() {
            None
        } else {
            bootstrap(self)
        }
    }

    /// Rebuilds the state after `close_state` has deallocated it. There is nothing to send where
    /// the state exists, so that a live world is never reset.
    pub fn action_scout_rebuild_state(&self) -> (r: Option<[Dispatch; 3]>)
        ensures
            r == self.rebuild_plan(),
            self.wf() && r is Some ==> forall|i: int|
                0 <= i < 3 ==> self.serves(Some((#[trigger] r->0[i]).plan)),
    {
        if self.state_exists() {
            return None;
        }
        self.rebuild_state()
    }

    /// The key that `action_scout_approver_ops` picks: none, the approver of the world, or a user.
    pub open spec fn approver_choice(self, sel: u8) -> Pubkey {
        if sel % 4 == 0 {
            DEFAULT_PUBKEY
        } else if sel % 4 == 1 {
            self.approver.public()
        } else if sel % 4 == 2 {
            self.user_a.public()
        } else {
            self.user_b.public()
        }
    }

    /// What `action_scout_approver_ops` sends.
    pub open spec fn approver_ops_plan(self, sel: u8, remove: bool) -> Option<Plan> {
        Some(
            signed_by(
                if remove {
                    Call::RemoveApprover {
                        approver: self.approver_choice(sel),
                        accounts: self.boss_accounts(),
                    }
                } else {
                    Call::AddApprover {
                        approver: self.approver_choice(sel),
                        accounts: self.boss_accounts(),
                    }
                },
                self.boss,
            ),
        )
    }

    /// `add_approver` or `remove_approver` of a key that the fuzzer picks, so that the refusal of
    /// the default key and the second slot are reached.
    pub fn action_scout_approver_ops(&self, sel: u8, remove: bool) -> (r: Option<Plan>)
        ensures
            r == self.approver_ops_plan(sel, remove),
            self.wf() ==> self.serves(r),
            sound(r),
    {
        let approver = match sel % 4 {
            0 => DEFAULT_PUBKEY,
            1 => self.approver.pubkey(),
            2 => self.user_a.pubkey(),
            _ => self.user_b.pubkey(),
        };
        let accounts = self.boss_call();
        let call = if remove {
            Call::RemoveApprover { approver, accounts }
        } else {
            Call::AddApprover { approver, accounts }
        };
        Some(sign(call, self.boss))
    }

    /// Who flips the kill switch: the boss, a user that may be an admin, or one that never is.
    pub open spec fn kill_switch_signer(self, sel: u8) -> Keypair {
        if sel % 3 == 0 {
            self.boss
        } else if sel % 3 == 1 {
            self.user_a
        } else {
            self.redemption_admin
        }
    }

    /// What `action_scout_kill_switch_as` sends.
    pub open spec fn kill_switch_as_plan(self, sel: u8, enable: bool) -> Option<Plan> {
        Some(
            signed_by(
                Call::SetKillSwitch {
                    enable,
                    accounts: self.kill_switch_accounts(self.kill_switch_signer(sel).public()),
                },
                self.kill_switch_signer(sel),
            ),
        )
    }

    /// `set_kill_switch` by a signer that the fuzzer picks. An admin may enable it, only the boss
    /// may disable it.
    pub fn action_scout_kill_switch_as(&self, sel: u8, enable: bool) -> (r: Option<Plan>)
        ensures
            r == self.kill_switch_as_plan(sel, enable),
            self.wf() ==> self.serves(r),
            sound(r),
    {
        let signer = match sel % 3 {
            0 => self.boss,
            1 => self.user_a,
            _ => self.redemption_admin,
        };
        let accounts = self.kill_switch_call(signer.pubkey());
        Some(sign(Call::SetKillSwitch { enable, accounts }, signer))
    }

    /// What `action_scout_propose_boss` sends.
    pub open spec fn nomination_plan(self, sel: u8) -> Option<Plan> {
        Some(
            signed_by(
                Call::ProposeBoss {
                    new_boss: if sel % 2 == 0 {
                        DEFAULT_PUBKEY
                    } else {
                        self.boss.public()
                    },
                    accounts: self.boss_accounts(),
                },
                self.boss,
            ),
        )
    }

    /// `propose_boss` with the default key or the incumbent, so that the refusal of the default key
    /// is reached without handing the authority to a key that nobody signs with.
    pub fn action_scout_propose_boss(&self, sel: u8) -> (r: Option<Plan>)
        ensures
            r == self.nomination_plan(sel),
            self.wf() ==> self.serves(r),
            sound(r),
    {
        let new_boss = if sel % 2 == 0 {
            DEFAULT_PUBKEY
        } else {
            self.boss.pubkey()
        };
        Some(sign(Call::ProposeBoss { new_boss, accounts: self.boss_call() }, self.boss))
    }

    /// The approval that a take presents: bound to the taker, or to the other user where bit 1 of
    /// `sel` is set.
    pub open spec fn approval(self, expiry_delta: i32, sel: u8) -> ApprovalMessage {
        ApprovalMessage {
            program_id: self.program_id,
            user_pubkey: if (sel / 2) % 2 == 0 {
                self.user(sel as u64).public()
            } else {
                self.user((sel + 1) as u64).public()
            },
            expiry_unix: expiry_of(now_of(self.ctx), expiry_delta),
        }
    }

    /// What a take of the offer that needs an approval sends behind the approval.
    pub open spec fn approved_take(
        self,
        token_in_amount: u64,
        expiry_delta: i32,
        sel: u8,
    ) -> Option<Plan> {
        match self.take_accounts(
            self.offer_appr_pda,
            self.user(sel as u64).public(),
            spl_leg(self.mint_appr),
            spl_leg(self.mint_onyc),
        ) {
            Some(accounts) => Some(
                signed_by(
                    Call::TakeOffer {
                        token_in_amount: bounded_amount(token_in_amount, sel, USER_USDC_START / 4),
                        approval_message: Some(self.approval(expiry_delta, sel)),
                        accounts,
                    },
                    self.user(sel as u64),
                ),
            ),
            None => None,
        }
    }

    /// The data of the precompile instruction before such a take: the approval, signed by the
    /// approver of the world.
    pub open spec fn signed_approval(self, expiry_delta: i32, sel: u8) -> Seq<u8> {
        let message = self.approval(expiry_delta, sel).bytes();
        ed25519_data(
            self.approver.public()@,
            ed25519_signature(self.approver.secret@, message),
            message,
        )
    }

    /// Takes the offer that needs an approval, with an approval that the world's approver signs.
    ///
    /// The program looks for the precompile instruction right before the take in the same
    /// transaction, so one instruction alone can never satisfy it. The arguments reach both sides
    /// of every guard: an expired approval, one bound to the wrong user, and a valid one.
    pub fn action_take_offer_with_approval(
        &self,
        token_in_amount: u64,
        expiry_delta: i32,
        sel: u8,
    ) -> (r: Option<ApprovedTake>)
        requires
            has_clock(self.ctx),
        ensures
            r is Some == self.approved_take(token_in_amount, expiry_delta, sel) is Some,
            r is Some ==> {
                &&& Some(r->0.take) == self.approved_take(token_in_amount, expiry_delta, sel)
                &&& r->0.take.is_sound()
                &&& self.wf() ==> self.serves(Some(r->0.take))
                &&& r->0.precompile.program_id == ED25519_PROGRAM_ID
                &&& r->0.precompile.data@ == self.signed_approval(expiry_delta, sel)
            },
    {
        let user = self.pick_user(sel as u64);
        let user_key = user.pubkey();
        let amount = bound_amount(token_in_amount, sel, USER_USDC_START / 4);
        let expiry: i128 = to_signed(scout_now(&self.ctx)) as i128 + expiry_delta as i128;
        let expiry_unix = if expiry < 0 {
            0
        } else if expiry > i64::MAX as i128 {
            i64::MAX as u64
        } else {
            expiry as u64
        };
        let user_pubkey = if (sel / 2) % 2 == 0 {
            user_key
        } else {
            self.pick_user_pk(sel as u64 + 1)
        };
        let message = ApprovalMessage { program_id: self.program_id, user_pubkey, expiry_unix };
        let bytes = message.to_bytes();
        let signature = self.approver.sign_message(&bytes);
        let precompile = scout_ed25519_instruction(&self.approver.pubkey(), &signature, &bytes);
        let accounts = self.take_call(
            self.offer_appr_pda,
            user_key,
            spl(self.mint_appr),
            spl(self.mint_onyc),
        )?;
        let call = Call::TakeOffer {
            token_in_amount: amount,
            approval_message: Some(message),
            accounts,
        };
        Some(ApprovedTake { precompile, take: sign(call, user) })
    }
}

} // verus!
