//! How a world is built.
//!
//! Building alternates between putting accounts on the chain and sending transactions. The first
//! part only puts accounts: `OnreappFixture::setup`. What follows is a list of steps; those that
//! put an account are done by `OnreappFixture::build`, and the others are to be sent. Every step
//! must succeed: a step that was skipped would leave a world that looks built but is not.

use crucible_test_context::TestContext;
use vstd::prelude::*;
use vstd::string::*;

use crate::accounts::{spl, spl_leg};
use crate::actions::{sign, signed_by};
use crate::context::{
    clock_at_time, clock_data, clock_is_readable, context_accounts, has_clock, is_sysvar, now_of,
    put_account, put_mint, scout_now, scout_set_time, slot_of, spl_account, spl_mint, with_clock,
    StoredAccount,
};
use crate::fixture::{
    offer_key, redemption_offer_key, OnreappFixture, ONYC_DECIMALS, USDC_DECIMALS, USER_ONYC_START,
    USER_USDC_START, VAULT_USDC_START,
};
use crate::instruction::{Call, Leg, OfferVector, Plan};
use crate::keys::{
    ata, pda, same_key, scout_ata, scout_pda, seed_bytes, Keypair, Pubkey, CLOCK_SYSVAR_ID,
    DEFAULT_PUBKEY, SEED_MINT_AUTHORITY, SEED_OFFER, SEED_OFFER_VAULT_AUTHORITY,
    SEED_PERMISSIONLESS_AUTHORITY, SEED_REDEMPTION_OFFER, SEED_REDEMPTION_OFFER_VAULT_AUTHORITY,
    SEED_STATE, SPL_TOKEN_2022_ID, SPL_TOKEN_ID,
};
use crate::registry::{Registries, Registry};
use crate::scenarios::{bootstrap, scout_bootstrap_state, Dispatch};
use crate::text::{decimal, to_decimal};
use crate::token::{
    ata_if_real, created, fee_account, fee_mint, scout_mk_ata, scout_mk_t22_ata,
    scout_mk_t22_fee_mint, TransferFee, FEE_DECIMALS, SCOUT_T22_FEE_BPS,
};

verus! {

/// The time that a world starts at.
pub const SCOUT_GENESIS_TS: i64 = 1_700_000_000;

/// The lamports that every actor starts with.
pub const ACTOR_LAMPORTS: u64 = 1_000_000_000_000;

/// The supply of a mint is the sum of the balances handed out below. The token programs update a
/// supply only when they mint or burn, so any other figure would show up as a conservation
/// violation with no bug behind it.
pub const USDC_SUPPLY: u64 = 3_000_000_000_000;

pub const ONYC_SUPPLY: u64 = 200_000_000_000;

pub const APPR_SUPPLY: u64 = 2_000_000_000_000;

pub const FEE_SUPPLY: u64 = 2_000_000_000_000;

/// The keys that a world is built from.
#[derive(Clone, Copy)]
pub struct Keys {
    pub payer: Keypair,
    pub user_a: Keypair,
    pub user_b: Keypair,
    pub redemption_admin: Keypair,
    pub approver: Keypair,
    pub mint_usdc: Pubkey,
    pub mint_onyc: Pubkey,
    pub mint_play: Pubkey,
    pub mint_appr: Pubkey,
    pub mint_fee: Pubkey,
}

/// An ordinary address: neither the default one nor that of a system variable.
pub open spec fn ordinary(key: Pubkey) -> bool {
    key != DEFAULT_PUBKEY && !is_sysvar(key)
}

/// Whether an address is the public key of some key pair.
pub open spec fn is_key_pair_address(key: Pubkey) -> bool {
    exists|pair: Keypair| #[trigger] pair.public() == key
}

/// The account of an actor: lamports and no data, owned by the system program, whose address is the
/// default one.
pub open spec fn funded_account(lamports: u64) -> StoredAccount {
    StoredAccount { data: Seq::empty(), owner: DEFAULT_PUBKEY@, lamports }
}

impl Keys {
    /// Keys drawn at random. Every mint stands at the address of some key pair, drawn for it and
    /// then forgotten. Nothing is promised of which keys they are.
    pub fn fresh() -> (r: Self)
        ensures
            is_key_pair_address(r.mint_usdc),
            is_key_pair_address(r.mint_onyc),
            is_key_pair_address(r.mint_play),
            is_key_pair_address(r.mint_appr),
            is_key_pair_address(r.mint_fee),
    {
        Keys {
            payer: Keypair::fresh(),
            user_a: Keypair::fresh(),
            user_b: Keypair::fresh(),
            redemption_admin: Keypair::fresh(),
            approver: Keypair::fresh(),
            mint_usdc: Keypair::fresh().pubkey(),
            mint_onyc: Keypair::fresh().pubkey(),
            mint_play: Keypair::fresh().pubkey(),
            mint_appr: Keypair::fresh().pubkey(),
            mint_fee: Keypair::fresh().pubkey(),
        }
    }

    /// Whether none of the addresses that `setup` puts accounts at is the default one, at which
    /// nothing can be put.
    pub open spec fn are_real(self) -> bool {
        &&& self.payer.public() != DEFAULT_PUBKEY
        &&& self.user_a.public() != DEFAULT_PUBKEY
        &&& self.user_b.public() != DEFAULT_PUBKEY
        &&& self.redemption_admin.public() != DEFAULT_PUBKEY
        &&& self.approver.public() != DEFAULT_PUBKEY
        &&& self.mint_usdc != DEFAULT_PUBKEY
        &&& self.mint_onyc != DEFAULT_PUBKEY
        &&& self.mint_play != DEFAULT_PUBKEY
    }

    /// Whether all of them are ordinary.
    pub open spec fn are_ordinary(self) -> bool {
        &&& ordinary(self.payer.public())
        &&& ordinary(self.user_a.public())
        &&& ordinary(self.user_b.public())
        &&& ordinary(self.redemption_admin.public())
        &&& ordinary(self.approver.public())
        &&& ordinary(self.mint_usdc)
        &&& ordinary(self.mint_onyc)
        &&& ordinary(self.mint_play)
    }

    /// The accounts of a chain once `setup` has put its own there.
    pub open spec fn opened(
        self,
        accounts: Map<Seq<u8>, StoredAccount>,
    ) -> Map<Seq<u8>, StoredAccount> {
        let boss = self.payer.public();
        let funded = funded_account(ACTOR_LAMPORTS);
        let actors = accounts.insert(boss@, funded).insert(self.user_a.public()@, funded).insert(
            self.user_b.public()@,
            funded,
        ).insert(self.redemption_admin.public()@, funded).insert(self.approver.public()@, funded);
        actors.insert(self.mint_usdc@, spl_mint(boss, USDC_SUPPLY, USDC_DECIMALS)).insert(
            self.mint_onyc@,
            spl_mint(boss, ONYC_SUPPLY, ONYC_DECIMALS),
        ).insert(self.mint_play@, spl_mint(boss, 0, USDC_DECIMALS))
    }

    /// Whether every address of the world can be derived from these keys.
    pub open spec fn derivable(self, program_id: Pubkey) -> bool {
        let vault = pda(seq![SEED_REDEMPTION_OFFER_VAULT_AUTHORITY@], program_id);
        &&& pda(seq![SEED_STATE@], program_id) is Some
        &&& pda(seq![SEED_MINT_AUTHORITY@], program_id) is Some
        &&& pda(seq![SEED_OFFER_VAULT_AUTHORITY@], program_id) is Some
        &&& vault is Some
        &&& pda(seq![SEED_PERMISSIONLESS_AUTHORITY@], program_id) is Some
        &&& offer_key(program_id, self.mint_usdc, self.mint_onyc) is Some
        &&& offer_key(program_id, self.mint_onyc, self.mint_usdc) is Some
        &&& offer_key(program_id, self.mint_appr, self.mint_onyc) is Some
        &&& offer_key(program_id, self.mint_usdc, self.mint_fee) is Some
        &&& redemption_offer_key(program_id, self.mint_onyc, self.mint_usdc) is Some
        &&& redemption_offer_key(program_id, self.mint_usdc, self.mint_onyc) is Some
        &&& redemption_offer_key(program_id, self.mint_fee, self.mint_usdc) is Some
        &&& ata(vault->0, self.mint_onyc, SPL_TOKEN_ID) is Some
        &&& ata(vault->0, self.mint_fee, SPL_TOKEN_2022_ID) is Some
    }
}

/// The address that a program derives from one seed.
fn derive_one(seed: &[u8], program_id: &Pubkey) -> (r: Option<Pubkey>)
    ensures
        r == pda(seq![seed@], *program_id),
{
    let seeds: [&[u8]; 1] = [seed];
    assert(seed_bytes(seeds@) =~= seq![seed@]);
    scout_pda(&seeds, program_id)
}

/// The address that a program derives from a seed and two mints.
fn derive_pair(seed: &[u8], a: &Pubkey, b: &Pubkey, program_id: &Pubkey) -> (r: Option<Pubkey>)
    ensures
        r == pda(seq![seed@, a@, b@], *program_id),
{
    let seeds: [&[u8]; 3] = [seed, a, b];
    assert(seed_bytes(seeds@) =~= seq![seed@, a@, b@]);
    scout_pda(&seeds, program_id)
}

/// Puts the account of an actor.
fn fund(ctx: &mut TestContext, key: &Pubkey, lamports: u64) -> (r: bool)
    requires
        lamports > 0,
    ensures
        r == (*key != DEFAULT_PUBKEY),
        r ==> created(*old(ctx), *final(ctx), Some(*key), funded_account(lamports)),
{
    let none: [u8; 0] = [];
    assert(none@ =~= Seq::<u8>::empty());
    put_account(ctx, key, lamports, &DEFAULT_PUBKEY, &none)
}

/// Puts the accounts of the actors, and of the mints that exist from the start.
fn open_world(ctx: &mut TestContext, keys: &Keys) -> (r: bool)
    requires
        has_clock(*old(ctx)),
    ensures
        r == keys.are_real(),
        keys.are_ordinary() ==> {
            &&& context_accounts(*final(ctx)) == keys.opened(context_accounts(*old(ctx)))
            &&& has_clock(*final(ctx))
            &&& clock_data(*final(ctx)) == clock_data(*old(ctx))
        },
{
    let boss = keys.payer.pubkey();
    let done = fund(ctx, &boss, 1_000_000_000) && fund(ctx, &boss, ACTOR_LAMPORTS) && fund(
        ctx,
        &keys.user_a.pubkey(),
        ACTOR_LAMPORTS,
    ) && fund(ctx, &keys.user_b.pubkey(), ACTOR_LAMPORTS) && fund(
        ctx,
        &keys.redemption_admin.pubkey(),
        ACTOR_LAMPORTS,
    ) && fund(ctx, &keys.approver.pubkey(), ACTOR_LAMPORTS) && put_mint(
        ctx,
        &keys.mint_usdc,
        USDC_DECIMALS,
        &boss,
        USDC_SUPPLY,
    ) && put_mint(ctx, &keys.mint_onyc, ONYC_DECIMALS, &boss, ONYC_SUPPLY) && put_mint(
        ctx,
        &keys.mint_play,
        USDC_DECIMALS,
        &boss,
        0,
    );
    proof {
        if keys.are_ordinary() {
            let accounts = context_accounts(*old(ctx));
            let first = funded_account(1_000_000_000);
            let funded = funded_account(ACTOR_LAMPORTS);
            assert(accounts.insert(boss@, first).insert(boss@, funded) =~= accounts.insert(
                boss@,
                funded,
            ));
        }
    }
    done
}

/// A registry of `n` slots that nothing was noted in.
pub open spec fn empty_registry(n: nat) -> Registry {
    Registry { slots: Seq::new(n, |i: int| DEFAULT_PUBKEY), next: 0 }
}

impl OnreappFixture {
    /// Whether the world was built from the given program and keys.
    pub open spec fn built_from(self, program_id: Pubkey, keys: Keys, admin_actions: bool) -> bool {
        &&& self.program_id == program_id
        &&& self.payer == keys.payer
        &&& self.boss == keys.payer
        &&& self.user_a == keys.user_a
        &&& self.user_b == keys.user_b
        &&& self.redemption_admin == keys.redemption_admin
        &&& self.approver == keys.approver
        &&& self.mint_usdc == keys.mint_usdc
        &&& self.mint_onyc == keys.mint_onyc
        &&& self.mint_play == keys.mint_play
        &&& self.mint_appr == keys.mint_appr
        &&& self.mint_fee == keys.mint_fee
        &&& self.admin_actions == admin_actions
    }

    /// The registries of a new world. Every offer that building it makes is already noted.
    pub open spec fn first_registries(self) -> Registries {
        let offers = seq![
            self.offer_pda,
            self.offer_appr_pda,
            self.offer_rev_pda,
            self.offer_fee_pda,
        ];
        Registries {
            p2: empty_registry(32),
            p3: empty_registry(32),
            p5: Registry { slots: offers + empty_registry(12).slots, next: 4 },
            p7: empty_registry(48),
            p8: empty_registry(32),
        }
    }

    /// Starts a world on a chain that holds the program: its actors, its first mints and its clock.
    /// `setup_steps` lists what is still to be done. There is no world where an address cannot be
    /// derived or an account cannot be put.
    pub fn setup(ctx: TestContext, program_id: Pubkey, keys: Keys, admin_actions: bool) -> (r:
        Option<Self>)
        requires
            has_clock(ctx),
        ensures
            keys.derivable(program_id) && keys.are_ordinary() ==> r is Some,
            r is Some ==> {
                &&& keys.derivable(program_id) && keys.are_real()
                &&& r->0.wf()
                &&& r->0.built_from(program_id, keys, admin_actions)
                &&& r->0.registries() == r->0.first_registries()
                &&& now_of(r->0.ctx) == SCOUT_GENESIS_TS
                &&& keys.are_ordinary() ==> {
                    &&& slot_of(r->0.ctx) == slot_of(ctx)
                    &&& context_accounts(r->0.ctx) == with_clock(
                        keys.opened(context_accounts(ctx)),
                        clock_at_time(clock_data(ctx), SCOUT_GENESIS_TS),
                    )
                }
            },
    {
        let mut ctx = ctx;
        let Keys { mint_usdc, mint_onyc, mint_play, mint_appr, mint_fee, .. } = keys;
        let p = program_id;
        let state_pda = derive_one(&SEED_STATE, &p)?;
        let mint_authority_pda = derive_one(&SEED_MINT_AUTHORITY, &p)?;
        let offer_vault_authority = derive_one(&SEED_OFFER_VAULT_AUTHORITY, &p)?;
        let redemption_vault_authority = derive_one(&SEED_REDEMPTION_OFFER_VAULT_AUTHORITY, &p)?;
        let permissionless_authority = derive_one(&SEED_PERMISSIONLESS_AUTHORITY, &p)?;
        let offer_pda = derive_pair(&SEED_OFFER, &mint_usdc, &mint_onyc, &p)?;
        let offer_rev_pda = derive_pair(&SEED_OFFER, &mint_onyc, &mint_usdc, &p)?;
        let offer_appr_pda = derive_pair(&SEED_OFFER, &mint_appr, &mint_onyc, &p)?;
        let offer_fee_pda = derive_pair(&SEED_OFFER, &mint_usdc, &mint_fee, &p)?;
        let seed = SEED_REDEMPTION_OFFER;
        let redemption_offer_pda = derive_pair(&seed, &mint_onyc, &mint_usdc, &p)?;
        let redemption_offer_rev_pda = derive_pair(&seed, &mint_usdc, &mint_onyc, &p)?;
        let redemption_offer_fee_pda = derive_pair(&seed, &mint_fee, &mint_usdc, &p)?;
        let redemption_vault_onyc = scout_ata(
            &redemption_vault_authority,
            &mint_onyc,
            &SPL_TOKEN_ID,
        )?;
        let redemption_vault_fee_ata = scout_ata(
            &redemption_vault_authority,
            &mint_fee,
            &SPL_TOKEN_2022_ID,
        )?;
        if !open_world(&mut ctx, &keys) || !clock_is_readable(&ctx) {
            return None;
        }
        scout_set_time(&mut ctx, SCOUT_GENESIS_TS);
        let mut scout_p5_offers: [Pubkey; 16] = [DEFAULT_PUBKEY; 16];
        scout_p5_offers[0] = offer_pda;
        scout_p5_offers[1] = offer_appr_pda;
        scout_p5_offers[2] = offer_rev_pda;
        scout_p5_offers[3] = offer_fee_pda;
        let world = OnreappFixture {
            ctx,
            program_id,
            payer: keys.payer,
            boss: keys.payer,
            user_a: keys.user_a,
            user_b: keys.user_b,
            redemption_admin: keys.redemption_admin,
            approver: keys.approver,
            mint_usdc,
            mint_onyc,
            mint_play,
            state_pda,
            mint_authority_pda,
            offer_vault_authority,
            redemption_vault_authority,
            permissionless_authority,
            offer_pda,
            redemption_offer_pda,
            offer_rev_pda,
            redemption_offer_rev_pda,
            redemption_vault_onyc,
            scout_p7_reqs: [DEFAULT_PUBKEY; 48],
            scout_p7_next: 0,
            scout_p5_offers,
            scout_p5_next: 4,
            scout_p2_reqs: [DEFAULT_PUBKEY; 32],
            scout_p2_next: 0,
            scout_p3_reqs: [DEFAULT_PUBKEY; 32],
            scout_p3_next: 0,
            mint_appr,
            offer_appr_pda,
            mint_fee,
            offer_fee_pda,
            redemption_offer_fee_pda,
            redemption_vault_fee_ata,
            scout_p8_reqs: [DEFAULT_PUBKEY; 32],
            scout_p8_next: 0,
            admin_actions,
        };
        proof {
            assert(world.registries().p2 =~= empty_registry(32));
            assert(world.registries().p3 =~= empty_registry(32));
            assert(world.registries().p7 =~= empty_registry(48));
            assert(world.registries().p8 =~= empty_registry(32));
            assert(world.registries().p5.slots =~= world.first_registries().p5.slots);
        }
        Some(world)
    }
}

/// One step of building a world, once it has been started.
#[derive(Clone, Copy, Debug, PartialEq, Eq)]
pub enum Step {
    /// A transaction to send.
    Send(Dispatch),
    /// A mint to put, under the boss's authority.
    Mint { address: Pubkey, decimals: u8, supply: u64 },
    /// A token account to put at its associated address.
    TokenAccount { owner: Pubkey, mint: Pubkey, amount: u64 },
    /// A mint to put that charges a transfer fee, under the boss's authority.
    FeeMint { address: Pubkey, decimals: u8, supply: u64, fee_basis_points: u16 },
    /// A token account of such a mint to put at its associated address.
    FeeTokenAccount { owner: Pubkey, mint: Pubkey, amount: u64 },
}

/// A transaction to send under a label, where there is one.
pub open spec fn sending(label: &'static str, plan: Option<Plan>) -> Option<Step> {
    match plan {
        Some(plan) => Some(Step::Send(Dispatch { label, plan })),
        None => None,
    }
}

/// A transaction to send under a label, where there is one.
fn send(label: &'static str, plan: Option<Plan>) -> (r: Option<Step>)
    ensures
        r == sending(label, plan),
{
    let plan = plan?;
    Some(Step::Send(Dispatch { label, plan }))
}

/// A token account to put.
pub open spec fn holding(owner: Pubkey, mint: Pubkey, amount: u64) -> Option<Step> {
    Some(Step::TokenAccount { owner, mint, amount })
}

/// A token account to put.
fn hold(owner: Pubkey, mint: Pubkey, amount: u64) -> (r: Option<Step>)
    ensures
        r == holding(owner, mint, amount),
{
    Some(Step::TokenAccount { owner, mint, amount })
}

/// A token account of a mint that charges a fee to put.
pub open spec fn fee_holding(owner: Pubkey, mint: Pubkey, amount: u64) -> Option<Step> {
    Some(Step::FeeTokenAccount { owner, mint, amount })
}

/// One of the steps of the bootstrap.
pub open spec fn bootstrap_step(steps: Option<[Dispatch; 3]>, i: int) -> Option<Step> {
    match steps {
        Some(steps) => Some(Step::Send(steps[i])),
        None => None,
    }
}

/// One of the steps of the bootstrap.
fn step_of_bootstrap(steps: &Option<[Dispatch; 3]>, i: usize) -> (r: Option<Step>)
    requires
        i < 3,
    ensures
        r == bootstrap_step(*steps, i as int),
{
    match steps {
        Some(steps) => Some(Step::Send(steps[i])),
        None => None,
    }
}

impl OnreappFixture {
    /// A new offer between two mints, at a fee of 1%.
    pub open spec fn new_offer(
        self,
        offer: Pubkey,
        token_in: Pubkey,
        token_out: Pubkey,
        needs_approval: bool,
        allow_permissionless: bool,
    ) -> Option<Plan> {
        match self.make_offer_accounts(offer, token_in, token_out) {
            Some(accounts) => Some(
                signed_by(
                    Call::MakeOffer {
                        fee_basis_points: 100,
                        needs_approval,
                        allow_permissionless,
                        accounts,
                    },
                    self.boss,
                ),
            ),
            None => None,
        }
    }

    /// A new offer between two mints, at a fee of 1%.
    fn plan_offer(
        &self,
        offer: Pubkey,
        token_in: Pubkey,
        token_out: Pubkey,
        needs_approval: bool,
        allow_permissionless: bool,
    ) -> (r: Option<Plan>)
        ensures
            r == self.new_offer(offer, token_in, token_out, needs_approval, allow_permissionless),
    {
        let accounts = self.make_offer_call(offer, token_in, token_out)?;
        let call = Call::MakeOffer {
            fee_basis_points: 100,
            needs_approval,
            allow_permissionless,
            accounts,
        };
        Some(sign(call, self.boss))
    }

    /// A price for an offer from now on: 1.0, at 5% a year, fixed for an hour at a time. Without a
    /// price nothing of the offer can be taken or redeemed.
    pub open spec fn first_price(
        self,
        offer: Pubkey,
        token_in: Pubkey,
        token_out: Pubkey,
    ) -> Option<Plan> {
        Some(
            signed_by(
                Call::AddOfferVector {
                    vector: OfferVector {
                        start_time: None,
                        base_time: now_of(self.ctx),
                        base_price: 1_000_000_000,
                        apr: 5_000_000,
                        price_fix_duration: 3_600,
                    },
                    accounts: self.offer_accounts(offer, token_in, token_out),
                },
                self.boss,
            ),
        )
    }

    /// A price for an offer from now on.
    fn plan_price(&self, offer: Pubkey, token_in: Pubkey, token_out: Pubkey) -> (r: Option<Plan>)
        requires
            has_clock(self.ctx),
        ensures
            r == self.first_price(offer, token_in, token_out),
    {
        let vector = OfferVector {
            start_time: None,
            base_time: scout_now(&self.ctx),
            base_price: 1_000_000_000,
            apr: 5_000_000,
            price_fix_duration: 3_600,
        };
        let accounts = self.offer_call(offer, token_in, token_out);
        Some(sign(Call::AddOfferVector { vector, accounts }, self.boss))
    }

    /// A new redemption offer, which inverts an offer, at a fee of half a percent.
    pub open spec fn new_redemption_offer(
        self,
        offer: Pubkey,
        redemption_offer: Pubkey,
        token_in: Leg,
        token_out: Leg,
    ) -> Option<Plan> {
        match self.make_redemption_offer_accounts(
            offer,
            redemption_offer,
            token_in,
            token_out,
            self.boss.public(),
        ) {
            Some(accounts) => Some(
                signed_by(
                    Call::MakeRedemptionOffer { fee_basis_points: 50, accounts },
                    self.boss,
                ),
            ),
            None => None,
        }
    }

    /// A new redemption offer, which inverts an offer, at a fee of half a percent.
    fn plan_redemption_offer(
        &self,
        offer: Pubkey,
        redemption_offer: Pubkey,
        token_in: Leg,
        token_out: Leg,
    ) -> (r: Option<Plan>)
        ensures
            r == self.new_redemption_offer(offer, redemption_offer, token_in, token_out),
    {
        let accounts = self.make_redemption_offer_call(
            offer,
            redemption_offer,
            token_in,
            token_out,
            self.boss.pubkey(),
        )?;
        Some(sign(Call::MakeRedemptionOffer { fee_basis_points: 50, accounts }, self.boss))
    }

    /// What an owner starts with of the mint whose offer needs an approval.
    pub open spec fn appr_start(self, owner: Pubkey) -> u64 {
        if owner == self.user_a.public() || owner == self.user_b.public() {
            USER_USDC_START
        } else {
            0
        }
    }

    /// What an owner starts with of the mint whose offer needs an approval.
    fn appr_balance(&self, owner: &Pubkey) -> (r: u64)
        ensures
            r == self.appr_start(*owner),
    {
        if same_key(owner, &self.user_a.pubkey()) || same_key(owner, &self.user_b.pubkey()) {
            USER_USDC_START
        } else {
            0
        }
    }

    /// The steps of building this world, in order; a step whose addresses cannot be derived is
    /// missing.
    pub open spec fn setup_script(self) -> Seq<Option<Step>> {
        let boss = self.boss.public();
        let a = self.user_a.public();
        let b = self.user_b.public();
        let offers = self.offer_vault_authority;
        let redemptions = self.redemption_vault_authority;
        let middleman = self.permissionless_authority;
        let usdc = self.mint_usdc;
        let onyc = self.mint_onyc;
        let appr = self.mint_appr;
        let fee = self.mint_fee;
        seq![
            // The state and its governance, then the program's control over onyc.
            bootstrap_step(bootstrap(self), 0),
            bootstrap_step(bootstrap(self), 1),
            bootstrap_step(bootstrap(self), 2),
            sending(
                "transfer_mint_authority_to_program(onyc)",
                Some(
                    signed_by(
                        Call::TransferMintAuthorityToProgram {
                            accounts: self.mint_authority_accounts(onyc),
                        },
                        self.boss,
                    ),
                ),
            ),
            // The token accounts.
            holding(boss, usdc, 0),
            holding(boss, onyc, 0),
            holding(boss, self.mint_play, 0),
            holding(a, usdc, USER_USDC_START),
            holding(a, onyc, USER_ONYC_START),
            holding(b, usdc, USER_USDC_START),
            holding(b, onyc, USER_ONYC_START),
            holding(offers, usdc, 0),
            holding(offers, onyc, 0),
            holding(redemptions, usdc, VAULT_USDC_START),
            holding(redemptions, onyc, 0),
            holding(middleman, usdc, 0),
            holding(middleman, onyc, 0),
            // The main offer: no approval needed, and open to the middleman.
            sending(
                "make_offer(usdc->onyc)",
                self.new_offer(self.offer_pda, usdc, onyc, false, true),
            ),
            sending("add_offer_vector(usdc->onyc)", self.first_price(self.offer_pda, usdc, onyc)),
            // The offer that needs an approval. The need is fixed when an offer is made.
            Some(
                Step::Mint { address: appr, decimals: USDC_DECIMALS, supply: APPR_SUPPLY },
            ),
            holding(a, appr, self.appr_start(a)),
            holding(b, appr, self.appr_start(b)),
            holding(boss, appr, self.appr_start(boss)),
            holding(offers, appr, self.appr_start(offers)),
            sending(
                "make_offer(appr->onyc, needs_approval)",
                self.new_offer(self.offer_appr_pda, appr, onyc, true, false),
            ),
            sending(
                "add_offer_vector(appr->onyc)",
                self.first_price(self.offer_appr_pda, appr, onyc),
            ),
            // The redemption offer that inverts the main offer.
            sending(
                "make_redemption_offer(onyc->usdc)",
                self.new_redemption_offer(
                    self.offer_pda,
                    self.redemption_offer_pda,
                    spl_leg(onyc),
                    spl_leg(usdc),
                ),
            ),
            // The reverse pair, whose redemptions pay out onyc and so mint it.
            sending(
                "make_offer(onyc->usdc)",
                self.new_offer(self.offer_rev_pda, onyc, usdc, false, false),
            ),
            sending(
                "add_offer_vector(onyc->usdc)",
                self.first_price(self.offer_rev_pda, onyc, usdc),
            ),
            sending(
                "make_redemption_offer(usdc->onyc)",
                self.new_redemption_offer(
                    self.offer_rev_pda,
                    self.redemption_offer_rev_pda,
                    spl_leg(usdc),
                    spl_leg(onyc),
                ),
            ),
            // The pair whose redemption deposits charge a transfer fee.
            Some(
                Step::FeeMint {
                    address: fee,
                    decimals: FEE_DECIMALS,
                    supply: FEE_SUPPLY,
                    fee_basis_points: SCOUT_T22_FEE_BPS,
                },
            ),
            fee_holding(a, fee, USER_USDC_START),
            fee_holding(b, fee, USER_USDC_START),
            fee_holding(boss, fee, 0),
            sending(
                "make_offer(usdc->fee)",
                self.new_offer(self.offer_fee_pda, usdc, fee, false, false),
            ),
            sending(
                "make_redemption_offer(fee->usdc)",
                self.new_redemption_offer(
                    self.offer_fee_pda,
                    self.redemption_offer_fee_pda,
                    self.fee_leg(),
                    spl_leg(usdc),
                ),
            ),
        ]
    }

    /// The steps of building this world, in order; a step whose addresses cannot be derived is
    /// missing.
    fn script(&self) -> (r: [Option<Step>; 36])
        requires
            has_clock(self.ctx),
        ensures
            r@ == self.setup_script(),
    {
        let boss = self.boss.pubkey();
        let a = self.user_a.pubkey();
        let b = self.user_b.pubkey();
        let offers = self.offer_vault_authority;
        let redemptions = self.redemption_vault_authority;
        let middleman = self.permissionless_authority;
        let usdc = self.mint_usdc;
        let onyc = self.mint_onyc;
        let appr = self.mint_appr;
        let fee = self.mint_fee;
        let first = scout_bootstrap_state(self);
        let hand_over = Call::TransferMintAuthorityToProgram {
            accounts: self.mint_authority_call(onyc),
        };
        let steps = [
            step_of_bootstrap(&first, 0),
            step_of_bootstrap(&first, 1),
            step_of_bootstrap(&first, 2),
            send(
                "transfer_mint_authority_to_program(onyc)",
                Some(sign(hand_over, self.boss)),
            ),
            hold(boss, usdc, 0),
            hold(boss, onyc, 0),
            hold(boss, self.mint_play, 0),
            hold(a, usdc, USER_USDC_START),
            hold(a, onyc, USER_ONYC_START),
            hold(b, usdc, USER_USDC_START),
            hold(b, onyc, USER_ONYC_START),
            hold(offers, usdc, 0),
            hold(offers, onyc, 0),
            hold(redemptions, usdc, VAULT_USDC_START),
            hold(redemptions, onyc, 0),
            hold(middleman, usdc, 0),
            hold(middleman, onyc, 0),
            send(
                "make_offer(usdc->onyc)",
                self.plan_offer(self.offer_pda, usdc, onyc, false, true),
            ),
            send("add_offer_vector(usdc->onyc)", self.plan_price(self.offer_pda, usdc, onyc)),
            Some(Step::Mint { address: appr, decimals: USDC_DECIMALS, supply: APPR_SUPPLY }),
            hold(a, appr, self.appr_balance(&a)),
            hold(b, appr, self.appr_balance(&b)),
            hold(boss, appr, self.appr_balance(&boss)),
            hold(offers, appr, self.appr_balance(&offers)),
            send(
                "make_offer(appr->onyc, needs_approval)",
                self.plan_offer(self.offer_appr_pda, appr, onyc, true, false),
            ),
            send(
                "add_offer_vector(appr->onyc)",
                self.plan_price(self.offer_appr_pda, appr, onyc),
            ),
            send(
                "make_redemption_offer(onyc->usdc)",
                self.plan_redemption_offer(
                    self.offer_pda,
                    self.redemption_offer_pda,
                    spl(onyc),
                    spl(usdc),
                ),
            ),
            send(
                "make_offer(onyc->usdc)",
                self.plan_offer(self.offer_rev_pda, onyc, usdc, false, false),
            ),
            send(
                "add_offer_vector(onyc->usdc)",
                self.plan_price(self.offer_rev_pda, onyc, usdc),
            ),
            send(
                "make_redemption_offer(usdc->onyc)",
                self.plan_redemption_offer(
                    self.offer_rev_pda,
                    self.redemption_offer_rev_pda,
                    spl(usdc),
                    spl(onyc),
                ),
            ),
            Some(
                Step::FeeMint {
                    address: fee,
                    decimals: FEE_DECIMALS,
                    supply: FEE_SUPPLY,
                    fee_basis_points: SCOUT_T22_FEE_BPS,
                },
            ),
            Some(Step::FeeTokenAccount { owner: a, mint: fee, amount: USER_USDC_START }),
            Some(Step::FeeTokenAccount { owner: b, mint: fee, amount: USER_USDC_START }),
            Some(Step::FeeTokenAccount { owner: boss, mint: fee, amount: 0 }),
            send(
                "make_offer(usdc->fee)",
                self.plan_offer(self.offer_fee_pda, usdc, fee, false, false),
            ),
            send(
                "make_redemption_offer(fee->usdc)",
                self.plan_redemption_offer(
                    self.offer_fee_pda,
                    self.redemption_offer_fee_pda,
                    Leg { mint: fee, program: SPL_TOKEN_2022_ID },
                    spl(usdc),
                ),
            ),
        ];
        assert(steps@ =~= self.setup_script());
        steps
    }

    /// The steps of building this world, in order. Nothing where one of them cannot be planned.
    pub fn setup_steps(&self) -> (r: Option<Vec<Step>>)
        requires
            has_clock(self.ctx),
        ensures
            r is Some == (forall|i: int| 0 <= i < 36 ==> #[trigger] self.setup_script()[i] is Some),
            r is Some ==> r->0@ =~= self.setup_script().map_values(|step: Option<Step>| step->0),
    {
        let script = self.script();
        let mut steps: Vec<Step> = Vec::new();
        let mut i: usize = 0;
        while i < 36
            invariant
                i <= 36,
                steps@.len() == i,
                script@ == self.setup_script(),
                forall|j: int| 0 <= j < i ==> #[trigger] self.setup_script()[j] is Some,
                forall|j: int| 0 <= j < i ==> steps@[j] == #[trigger] self.setup_script()[j]->0,
            decreases 36 - i,
        {
            match script[i] {
                Some(step) => steps.push(step),
                None => {
                    assert(self.setup_script()[i as int] is None);
                    return None;
                },
            }
            i = i + 1;
        }
        Some(steps)
    }
}

impl OnreappFixture {
    /// Does a step that puts an account. A step that sends is not done here; it changes nothing,
    /// and neither does a step at the default address.
    pub fn build(&mut self, step: &Step) -> (r: bool)
        ensures
            *final(self) == (OnreappFixture { ctx: final(self).ctx, ..*old(self) }),
            r == (step_address(*step) is Some),
            created(
                old(self).ctx,
                final(self).ctx,
                step_address(*step),
                step_account(*step, old(self).boss.public()),
            ),
            old(self).wf() && (step_address(*step) is Some ==> ordinary(step_address(*step)->0))
                ==> final(self).wf(),
    {
        let done = match *step {
            Step::Send(_) => false,
            Step::Mint { address, decimals, supply } => put_mint(
                &mut self.ctx,
                &address,
                decimals,
                &self.boss.pubkey(),
                supply,
            ),
            Step::TokenAccount { owner, mint, amount } => scout_mk_ata(
                &mut self.ctx,
                &owner,
                &mint,
                amount,
            ).is_some(),
            Step::FeeMint { address, decimals, supply, fee_basis_points } => scout_mk_t22_fee_mint(
                &mut self.ctx,
                &address,
                &self.boss.pubkey(),
                decimals,
                supply,
                fee_basis_points,
            ).is_some(),
            Step::FeeTokenAccount { owner, mint, amount } => scout_mk_t22_ata(
                &mut self.ctx,
                &owner,
                &mint,
                amount,
            ).is_some(),
        };
        done
    }
}

/// An address, where it is not the default one.
pub open spec fn unless_default(address: Option<Pubkey>) -> Option<Pubkey> {
    match address {
        Some(key) => if key != DEFAULT_PUBKEY {
            Some(key)
        } else {
            None
        },
        None => None,
    }
}

/// Where a step puts an account, where it puts one.
pub open spec fn step_address(step: Step) -> Option<Pubkey> {
    match step {
        Step::Send(_) => None,
        Step::Mint { address, decimals: _, supply: _ } => unless_default(Some(address)),
        Step::TokenAccount { owner, mint, amount: _ } => ata_if_real(owner, mint, SPL_TOKEN_ID),
        Step::FeeMint { address, decimals: _, supply: _, fee_basis_points: _ } => unless_default(
            Some(address),
        ),
        Step::FeeTokenAccount { owner, mint, amount: _ } => unless_default(
            ata(owner, mint, SPL_TOKEN_2022_ID),
        ),
    }
}

/// The account that a step puts.
pub open spec fn step_account(step: Step, boss: Pubkey) -> StoredAccount {
    match step {
        Step::Send(_) => funded_account(0),
        Step::Mint { address: _, decimals, supply } => spl_mint(boss, supply, decimals),
        Step::TokenAccount { owner, mint, amount } => spl_account(mint, owner, amount),
        Step::FeeMint { address: _, decimals, supply, fee_basis_points } => fee_mint(
            boss,
            supply,
            decimals,
            TransferFee { epoch: 0, maximum_fee: u64::MAX, basis_points: fee_basis_points },
        ),
        Step::FeeTokenAccount { owner, mint, amount } => fee_account(mint, owner, amount),
    }
}

/// What became of a transaction that building a world sent.
pub enum Outcome {
    /// It was processed: whether it succeeded, its error code, and its log.
    Sent { success: bool, error_code: Option<u32>, logs: Vec<String> },
    /// It could not be processed, for the given reason.
    Errored { error: String },
}

/// An error code, as it is shown.
pub open spec fn code_text(code: Option<u32>) -> Seq<char> {
    match code {
        Some(code) => "Some("@ + decimal(code as nat) + ")"@,
        None => "None"@,
    }
}

/// The first `count` lines of a log, with a line break between any two.
pub open spec fn joined(lines: Seq<String>, count: nat) -> Seq<char>
    decreases count,
{
    if count == 0 {
        Seq::empty()
    } else if count == 1 {
        lines[0]@
    } else {
        joined(lines, (count - 1) as nat) + "\n"@ + lines[count - 1]@
    }
}

/// Why a step failed, where it did.
pub open spec fn step_failure(label: Seq<char>, outcome: Outcome) -> Option<Seq<char>> {
    match outcome {
        Outcome::Sent { success, error_code, logs } => if success {
            None
        } else {
            Some(
                "setup step `"@ + label + "` failed (code "@ + code_text(error_code)
                    + ")\nlogs:\n"@ + joined(logs@, logs@.len()),
            )
        },
        Outcome::Errored { error } => Some("setup step `"@ + label + "` errored: "@ + error@),
    }
}

/// An error code, as it is shown.
fn show_code(code: Option<u32>) -> (r: String)
    ensures
        r@ == code_text(code),
{
    match code {
        Some(code) => String::from_str("Some(").concat(&to_decimal(code as u128)).concat(")"),
        None => String::from_str("None"),
    }
}

/// The lines of a log, with a line break between any two.
fn join_lines(lines: &Vec<String>) -> (r: String)
    ensures
        r@ == joined(lines@, lines@.len()),
{
    let mut out = String::new();
    let mut i: usize = 0;
    while i < lines.len()
        invariant
            i <= lines@.len(),
            out@ == joined(lines@, i as nat),
        decreases lines@.len() - i,
    {
        if i == 0 {
            out = lines[0].clone();
        } else {
            out.append("\n");
            out.append(&lines[i]);
        }
        i = i + 1;
    }
    out
}

/// Building a world must stop loudly on a step that failed. A skipped one would leave a world that
/// looks built, and every later action would fail for a reason that is not its own.
pub fn scout_expect_ok(label: &str, outcome: &Outcome) -> (r: Result<(), String>)
    ensures
        r is Ok == step_failure(label@, *outcome) is None,
        r is Err ==> Some(r->Err_0@) == step_failure(label@, *outcome),
{
    match outcome {
        Outcome::Sent { success, error_code, logs } => {
            if *success {
                Ok(())
            } else {
                Err(
                    String::from_str("setup step `").concat(label).concat("` failed (code ").concat(
                        &show_code(*error_code),
                    ).concat(")\nlogs:\n").concat(&join_lines(logs)),
                )
            }
        },
        Outcome::Errored { error } => Err(
            String::from_str("setup step `").concat(label).concat("` errored: ").concat(error),
        ),
    }
}

} // verus!
