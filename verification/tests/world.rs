//! Whole worlds, played against a small stand-in for the program that moves accounts and balances
//! as its instructions do.

use crucible_test_context::AccountBuilderBase;
use onreapp_fuzz::check::{Monitor, Settings};
use onreapp_fuzz::context::{account_data, fresh_context, scout_now};
use onreapp_fuzz::fixture::{
    OnreappFixture, SCOUT_OFFER_FEE_END, SCOUT_OFFER_FEE_OFFSET, SCOUT_REQ_AMOUNT_OFFSET,
    SCOUT_REQ_MIN_LEN, SCOUT_STATE_MAX_SUPPLY_END, SCOUT_STATE_MAX_SUPPLY_OFFSET, USER_ONYC_START,
    USER_USDC_START, VAULT_USDC_START,
};
use onreapp_fuzz::instruction::{Call, OfferAccounts, Plan, TakeOfferAccounts};
use onreapp_fuzz::invariants::{invariant_test, Places};
use onreapp_fuzz::keys::{
    scout_ata, Keypair, Pubkey, DEFAULT_PUBKEY, ED25519_PROGRAM_ID, SPL_TOKEN_ID,
};
use onreapp_fuzz::scenarios::ApprovedTake;
use onreapp_fuzz::setup::{scout_expect_ok, Keys, Outcome, Step};

const PROGRAM_ID: Pubkey = [77u8; 32];

/// Where the stand-in keeps the base price of an offer.
const PRICE_AT: usize = 72;

fn keys() -> Keys {
    Keys {
        payer: Keypair { secret: [1; 32] },
        user_a: Keypair { secret: [2; 32] },
        user_b: Keypair { secret: [3; 32] },
        redemption_admin: Keypair { secret: [4; 32] },
        approver: Keypair { secret: [5; 32] },
        mint_usdc: [101; 32],
        mint_onyc: [102; 32],
        mint_play: [103; 32],
        mint_appr: [104; 32],
        mint_fee: [105; 32],
    }
}

fn enforcing() -> Monitor {
    Monitor::new(Settings { mode: None, mute: None, only: None, run: None })
}

fn put(f: &mut OnreappFixture, key: &Pubkey, data: &[u8]) {
    f.ctx
        .create_account()
        .pubkey(solana_pubkey::Pubkey::new_from_array(*key))
        .lamports(10_000_000)
        .owner(solana_pubkey::Pubkey::new_from_array(PROGRAM_ID))
        .data(data)
        .create()
        .expect("an account");
}

fn remove(f: &mut OnreappFixture, key: &Pubkey) {
    let key = solana_pubkey::Pubkey::new_from_array(*key);
    let mut account = f.ctx.get_account(&key).expect("an account");
    account.lamports = 0;
    account.data.clear();
    f.ctx.svm.set_account(key, account).expect("removed");
}

fn data(f: &OnreappFixture, key: &Pubkey) -> Option<Vec<u8>> {
    account_data(&f.ctx, key)
}

fn word(data: &[u8], at: usize) -> u64 {
    u64::from_le_bytes(data[at..at + 8].try_into().expect("eight bytes"))
}

fn set(f: &mut OnreappFixture, key: &Pubkey, at: usize, bytes: &[u8]) {
    let mut data = data(f, key).expect("an account");
    data[at..at + bytes.len()].copy_from_slice(bytes);
    put(f, key, &data);
}

fn add_balance(f: &mut OnreappFixture, key: &Pubkey, amount: u64) {
    let held = f.tok_amt(key);
    set(f, key, 64, &(held + amount).to_le_bytes());
}

fn take_balance(f: &mut OnreappFixture, key: &Pubkey, amount: u64) -> bool {
    let held = f.tok_amt(key);
    if held < amount {
        return false;
    }
    set(f, key, 64, &(held - amount).to_le_bytes());
    true
}

fn charges_fee(f: &OnreappFixture, mint: &Pubkey) -> bool {
    data(f, mint).expect("a mint").len() == 278
}

/// What arrives of a transfer: a fee-bearing mint keeps 1%, rounded up.
fn arriving(f: &OnreappFixture, mint: &Pubkey, amount: u64) -> u64 {
    if charges_fee(f, mint) {
        amount - amount.div_ceil(100)
    } else {
        amount
    }
}

fn live_state(f: &OnreappFixture) -> Option<Vec<u8>> {
    data(f, &f.state_pda).filter(|d| d[72] == 0)
}

fn decimals(f: &OnreappFixture, mint: &Pubkey) -> u32 {
    data(f, mint).expect("a mint")[44] as u32
}

/// Mints onyc within the cap, or burns it.
fn change_onyc(f: &mut OnreappFixture, burned: u64, minted: u64, cap: u64) -> bool {
    let mint = f.mint_onyc;
    let supply = f.onyc_supply().expect("onyc");
    let after = supply - burned + minted;
    if cap != 0 && minted > 0 && after > cap {
        return false;
    }
    set(f, &mint, 36, &after.to_le_bytes());
    true
}

fn take(f: &mut OnreappFixture, amount: u64, a: &TakeOfferAccounts) -> bool {
    let (state, offer) = match (live_state(f), data(f, &a.offer)) {
        (Some(state), Some(offer)) => (state, offer),
        _ => return false,
    };
    if charges_fee(f, &a.token_in_mint) || charges_fee(f, &a.token_out_mint) {
        return false;
    }
    let price = word(&offer, PRICE_AT);
    if price == 0 {
        return false;
    }
    let bps = u16::from_le_bytes(offer[472..474].try_into().expect("two bytes")) as u128;
    let fee = (amount as u128 * bps).div_ceil(10_000) as u64;
    let net = amount - fee;
    let scale = 10u128.pow(decimals(f, &a.token_out_mint) + 9);
    let divisor = price as u128 * 10u128.pow(decimals(f, &a.token_in_mint));
    let out = match u64::try_from(net as u128 * scale / divisor) {
        Ok(out) => out,
        Err(_) => return false,
    };
    if f.tok_amt(&a.user_token_in_account) < amount {
        return false;
    }
    let burned = if a.token_in_mint == f.mint_onyc { net } else { 0 };
    let minted = if a.token_out_mint == f.mint_onyc { out } else { 0 };
    if !change_onyc(f, burned, minted, word(&state, SCOUT_STATE_MAX_SUPPLY_OFFSET)) {
        return false;
    }
    take_balance(f, &a.user_token_in_account, amount);
    let kept = if burned > 0 { fee } else { amount };
    add_balance(f, &a.boss_token_in_account, kept);
    add_balance(f, &a.user_token_out_account, out);
    true
}

fn new_account(len: usize, key_fields: &[(usize, Pubkey)]) -> Vec<u8> {
    let mut data = vec![0u8; len];
    data[0] = 1;
    for (at, key) in key_fields {
        data[*at..*at + 32].copy_from_slice(key);
    }
    data
}

fn has_price(f: &mut OnreappFixture, price: u64, a: &OfferAccounts) -> bool {
    if data(f, &a.offer).is_none() {
        return false;
    }
    set(f, &a.offer, PRICE_AT, &price.to_le_bytes());
    true
}

fn retire(f: &mut OnreappFixture, ro: &Pubkey, request: &Pubkey, amount: u64) {
    let requested = word(&data(f, ro).expect("a redemption offer"), 120);
    set(f, ro, 120, &(requested - amount).to_le_bytes());
    remove(f, request);
}

/// Plays one call: whether the program would accept it, and what it would do.
fn execute(f: &mut OnreappFixture, call: &Call) -> bool {
    match *call {
        Call::Initialize { accounts: a } => {
            let state = new_account(900, &[(8, a.boss), (73, a.onyc_mint)]);
            put(f, &a.state, &state);
            true
        }
        Call::TransferMintAuthorityToProgram { .. } => true,
        Call::SetRedemptionAdmin { .. } | Call::AddApprover { .. } => f.state_exists(),
        Call::MakeOffer { fee_basis_points, accounts: a, .. } => {
            if fee_basis_points > 1000 || data(f, &a.offer).is_some() || live_state(f).is_none() {
                return false;
            }
            let mut offer = new_account(608, &[(8, a.token_in_mint), (40, a.token_out_mint)]);
            offer[472..474].copy_from_slice(&fee_basis_points.to_le_bytes());
            put(f, &a.offer, &offer);
            true
        }
        Call::AddOfferVector { vector, accounts: a } => has_price(f, vector.base_price, &a),
        Call::UpdateOfferFee { new_fee_basis_points, accounts: a } => {
            if new_fee_basis_points > 10_000 {
                return false;
            }
            set(f, &a.offer, 472, &new_fee_basis_points.to_le_bytes());
            true
        }
        Call::MakeRedemptionOffer { fee_basis_points, accounts: a } => {
            if fee_basis_points > 1000
                || data(f, &a.offer).is_none()
                || data(f, &a.redemption_offer).is_some()
            {
                return false;
            }
            let ro = new_account(
                200,
                &[(8, a.offer), (40, a.token_in_mint), (72, a.token_out_mint)],
            );
            put(f, &a.redemption_offer, &ro);
            if data(f, &a.vault_token_in_account).is_none() {
                let vault = new_account(
                    178,
                    &[(0, a.token_in_mint), (32, a.redemption_vault_authority)],
                );
                put(f, &a.vault_token_in_account, &vault);
            }
            true
        }
        Call::UpdateRedemptionOfferFee { new_fee_basis_points, .. } => new_fee_basis_points <= 1000,
        Call::CreateRedemptionRequest { amount, accounts: a } => {
            let ro = match (live_state(f), data(f, &a.redemption_offer)) {
                (Some(_), Some(ro)) => ro,
                _ => return false,
            };
            if !take_balance(f, &a.redeemer_token_account, amount) {
                return false;
            }
            let received = arriving(f, &a.token_in_mint, amount);
            add_balance(f, &a.vault_token_account, received);
            let mut request = new_account(120, &[(8, a.redemption_offer), (48, a.redeemer)]);
            let id = word(&ro, 138);
            request[40..48].copy_from_slice(&id.to_le_bytes());
            request[80..88].copy_from_slice(&amount.to_le_bytes());
            put(f, &a.redemption_request, &request);
            set(f, &a.redemption_offer, 120, &(word(&ro, 120) + amount).to_le_bytes());
            set(f, &a.redemption_offer, 138, &(id + 1).to_le_bytes());
            true
        }
        Call::FulfillRedemptionRequest { accounts: a } => {
            let request = match (live_state(f), data(f, &a.redemption_request)) {
                (Some(_), Some(request)) => request,
                _ => return false,
            };
            let amount = word(&request, 80);
            if !take_balance(f, &a.vault_token_in_account, amount) {
                return false;
            }
            if a.token_in_mint == f.mint_onyc {
                change_onyc(f, amount, 0, 0);
                take_balance(f, &a.vault_token_out_account, amount / 1_000);
                add_balance(f, &a.user_token_out_account, amount / 1_000);
            } else {
                change_onyc(f, 0, amount * 1_000, 0);
                add_balance(f, &a.boss_token_in_account, amount);
                add_balance(f, &a.user_token_out_account, amount * 1_000);
            }
            retire(f, &a.redemption_offer, &a.redemption_request, amount);
            true
        }
        Call::CancelRedemptionRequest { accounts: a } => {
            let request = match (live_state(f), data(f, &a.redemption_request)) {
                (Some(_), Some(request)) => request,
                _ => return false,
            };
            let amount = word(&request, 80);
            if !take_balance(f, &a.vault_token_account, amount) {
                return false;
            }
            let received = arriving(f, &a.token_in_mint, amount);
            add_balance(f, &a.redeemer_token_account, received);
            retire(f, &a.redemption_offer, &a.redemption_request, amount);
            true
        }
        Call::RedemptionVaultWithdraw { amount, accounts: a } => {
            let held = f.tok_amt(&a.vault_token_account);
            let amount = amount.min(held);
            take_balance(f, &a.vault_token_account, amount);
            add_balance(f, &a.boss_token_account, amount);
            true
        }
        Call::SetKillSwitch { enable, accounts: a } => {
            set(f, &a.state, 72, &[enable as u8]);
            true
        }
        Call::CloseState { accounts: a } => {
            remove(f, &a.state);
            true
        }
        Call::ConfigureMaxSupply { max_supply, accounts: a } => {
            set(f, &a.state, SCOUT_STATE_MAX_SUPPLY_OFFSET, &max_supply.to_le_bytes());
            true
        }
        Call::MintTo { amount, accounts: a } => {
            let cap = word(&live_state(f).expect("a state"), SCOUT_STATE_MAX_SUPPLY_OFFSET);
            if !change_onyc(f, 0, amount, cap) {
                return false;
            }
            add_balance(f, &a.boss_onyc_account, amount);
            true
        }
        Call::GetNav { accounts: a } => {
            data(f, &a.offer).map(|offer| word(&offer, PRICE_AT) > 0).unwrap_or(false)
        }
        Call::TakeOffer { token_in_amount, approval_message: None, accounts: a } => {
            a.offer != f.offer_appr_pda && take(f, token_in_amount, &a)
        }
        Call::TakeOffer { token_in_amount, approval_message: Some(message), accounts: a } => {
            message.user_pubkey == a.user
                && message.expiry_unix >= scout_now(&f.ctx)
                && take(f, token_in_amount, &a)
        }
        Call::TakeOfferPermissionless { token_in_amount, accounts: a, .. } => {
            take(f, token_in_amount, &a.take)
        }
        _ => unreachable!(),
    }
}

/// Sends what an action planned and closes the action.
fn act_checked(f: &mut OnreappFixture, plan: Option<Plan>, monitor: &mut Monitor) -> bool {
    match plan {
        Some(plan) => {
            let ok = execute(f, &plan.call);
            f.settle(plan.record, Some(ok), monitor)
        }
        None => false,
    }
}

fn act(f: &mut OnreappFixture, plan: Option<Plan>) -> bool {
    act_checked(f, plan, &mut enforcing())
}

fn act_approved(f: &mut OnreappFixture, take: Option<ApprovedTake>) -> bool {
    act(f, take.map(|t| t.take))
}

/// A world with every step of its building done.
fn world_with(admin_actions: bool) -> OnreappFixture {
    let mut f = OnreappFixture::setup(fresh_context(), PROGRAM_ID, keys(), admin_actions)
        .expect("a world");
    for step in f.setup_steps().expect("steps") {
        match step {
            Step::Send(send) => {
                let success = execute(&mut f, &send.plan.call);
                let outcome = Outcome::Sent { success, error_code: None, logs: Vec::new() };
                assert_eq!(scout_expect_ok(send.label, &outcome), Ok(()));
            }
            _ => assert!(f.build(&step)),
        }
    }
    f
}

fn world() -> OnreappFixture {
    world_with(false)
}

const PLACES: Places<'static> = Places {
    p_0002: "tests/world.rs:2",
    p_0003: "tests/world.rs:3",
    p_0004: "tests/world.rs:4",
    p_0005: "tests/world.rs:5",
    p_0006: "tests/world.rs:6",
    p_0008: "tests/world.rs:8",
};

fn violations_of(f: &OnreappFixture, monitor: &mut Monitor) -> Vec<String> {
    invariant_test(f, monitor, &PLACES);
    monitor.violations.iter().map(|violation| violation.text().to_string()).collect()
}

fn violations(f: &OnreappFixture) -> Vec<String> {
    violations_of(f, &mut enforcing())
}

fn vault_onyc(f: &OnreappFixture) -> u64 {
    f.tok_amt(&f.redemption_vault_onyc)
}

fn ata(owner: &Pubkey, mint: &Pubkey) -> Pubkey {
    scout_ata(owner, mint, &SPL_TOKEN_ID).expect("an address")
}

/// Building must make a world in which the whole value flow is live.
#[test]
fn t_core_value_flow_is_reachable() {
    let mut f = world();
    let plan = f.action_take_offer(10_000_000);
    assert!(act(&mut f, plan), "take_offer");
    let plan = f.action_take_offer_permissionless(5_000_000);
    assert!(act(&mut f, plan), "take_offer_permissionless");
    let plan = f.action_create_redemption_request(1_000_000);
    assert!(act(&mut f, plan), "create_redemption_request");
    let plan = f.action_fulfill_redemption_request();
    assert!(act(&mut f, plan), "fulfill_redemption_request");
    let plan = f.action_create_redemption_request(2_000_001);
    assert!(act(&mut f, plan), "create_redemption_request #2");
    let plan = f.action_cancel_redemption_request();
    assert!(act(&mut f, plan), "cancel_redemption_request");
}

/// The recorded sum of the live redemption offer equals the sum over the requests that still exist,
/// across every path that retires one.
#[test]
fn t_p0003_requested_redemptions_tracks_open_requests() {
    let mut f = world();

    fn check(f: &OnreappFixture, label: &str) -> u128 {
        let recorded = f.onchain_requested_redemptions().expect("requested_redemptions readable");
        let summed: u128 = f
            .open_requests_of(&f.redemption_offer_pda)
            .expect("requests enumerable")
            .iter()
            .map(|(_, _, a)| *a as u128)
            .sum();
        assert_eq!(recorded, summed, "P-0003 drift after {}", label);
        assert!(violations(f).is_empty());
        recorded
    }

    assert_eq!(check(&f, "setup"), 0);

    let plan = f.action_create_redemption_request(1_000_000);
    assert!(act(&mut f, plan), "create #1");
    assert_eq!(check(&f, "create #1"), 1_000_000);

    let plan = f.action_create_redemption_request(2_500_000);
    assert!(act(&mut f, plan), "create #2");
    assert_eq!(check(&f, "create #2"), 3_500_000);

    let plan = f.action_fulfill_redemption_request();
    assert!(act(&mut f, plan), "fulfil oldest");
    assert_eq!(check(&f, "fulfil"), 2_500_000);

    let plan = f.action_cancel_redemption_request();
    assert!(act(&mut f, plan), "cancel remaining");
    assert_eq!(check(&f, "cancel"), 0);
}

/// The transfer-fee mint must charge a fee, and the redemption path must accept it.
#[test]
fn t_fee_mint_fixture_is_live_and_redemption_accepts_it() {
    let mut f = world();
    let vault = f.redemption_vault_fee().expect("an address");
    assert_eq!(vault, f.redemption_vault_fee_ata);
    let before = f.tok_amt(&vault);

    let plan = f.action_scout_create_request_fee(1_000_000, 4);
    assert!(act(&mut f, plan), "create_request(fee)");

    let after = f.tok_amt(&vault);
    let claimed = f.claimed_fee();
    assert_eq!(claimed, 1_000_000, "the program must record the REQUESTED amount");
    assert!(
        after - before < claimed,
        "fixture is not fee-bearing: vault gained {} against a claim of {claimed}",
        after - before
    );
}

/// On a mint that charges a fee, the vault falls short through ordinary use, and the shortfall lands
/// on whoever exits last.
#[test]
fn t_p0008_fee_mint_deposits_arrive_short_and_strand_the_last_redeemer() {
    let mut f = world();
    let vault = f.redemption_vault_fee().expect("an address");
    assert!(violations(&f).is_empty());

    let plan = f.action_scout_create_request_fee(1_000_000, 4);
    assert!(act(&mut f, plan), "A deposits");
    let plan = f.action_scout_create_request_fee(1_000_000, 5);
    assert!(act(&mut f, plan), "B deposits");

    let held = f.tok_amt(&vault);
    let owed = f.claimed_fee();
    assert_eq!(owed, 2_000_000);
    assert_eq!(held, 1_980_000, "each deposit arrived 1% short");
    let found = violations(&f);
    assert_eq!(found.len(), 1);
    assert!(found[0].starts_with("P-0008: the redemption vault "));
    assert!(found[0].contains(" holds 1980000 but open redemption requests have 2000000 locked"));
    assert!(found[0].contains(" (shortfall 20000)."));

    let plan = f.action_scout_cancel_request_fee(0);
    assert!(act(&mut f, plan), "A cancels");

    let held = f.tok_amt(&vault);
    let owed = f.claimed_fee();
    assert_eq!(owed, 1_000_000, "B's claim is untouched");
    assert_eq!(held, 980_000, "vault paid out 1_000_000 having received 990_000");

    let plan = f.action_scout_cancel_request_fee(1);
    assert!(
        !act(&mut f, plan),
        "B must NOT be able to cancel: vault holds {held} against a claim of {owed}"
    );
    assert_eq!(f.claimed_fee(), 1_000_000, "B's request is still open and still owed");
    assert_eq!(f.try_claimed_fee(), Some(1_000_000));
}

/// The offer path refuses the very mint that the redemption path accepts.
#[test]
fn t_p0008_control_offer_path_refuses_the_same_mint() {
    let mut f = world();
    let plan = f.action_scout_take_fee_offer(1_000_000);
    assert!(!act(&mut f, plan), "take_offer MUST refuse a fee-bearing leg");
    let plan = f.action_scout_create_request_fee(1_000_000, 4);
    assert!(act(&mut f, plan), "the redemption path accepts the very same mint");
}

/// The offer that needs an approval accepts a valid one, and refuses an expired one and one that is
/// bound to the wrong user.
#[test]
fn t_approval_branches() {
    let mut f = world();
    let take = f.action_take_offer_with_approval(1_000_000, 100_000, 0);
    assert!(act_approved(&mut f, take), "valid approval");
    let take = f.action_take_offer_with_approval(1_000_001, -100_000, 0);
    assert!(!act_approved(&mut f, take), "expired approval");
    let take = f.action_take_offer_with_approval(1_000_002, 100_000, 2);
    assert!(!act_approved(&mut f, take), "wrong-user approval");
}

/// The kill switch halts the value flow, and releases it again.
#[test]
fn t_kill_switch_gates_take_offer() {
    let mut f = world();
    let plan = f.action_set_kill_switch(true);
    assert!(act(&mut f, plan), "enable kill switch");
    let plan = f.action_take_offer(10_000_000);
    assert!(!act(&mut f, plan), "take_offer must fail while killed");
    let plan = f.action_set_kill_switch(false);
    assert!(act(&mut f, plan), "disable kill switch");
    let plan = f.action_take_offer(10_000_000);
    assert!(act(&mut f, plan), "take_offer must work once released");
}

/// `close_state` deallocates the state, and rebuilding is the way back.
#[test]
fn t_close_state_is_destructive_and_recoverable() {
    let mut f = world();
    assert!(f.state_exists(), "State must exist after setup");

    let plan = f.action_close_state();
    assert!(act(&mut f, plan), "close_state");
    assert!(!f.state_exists(), "close_state must really deallocate State");
    let plan = f.action_take_offer(10_000_000);
    assert!(!act(&mut f, plan), "no world means no take_offer");

    let steps = f.action_scout_rebuild_state();
    assert!(steps.is_some(), "rebuild must succeed while State is missing");
    for step in steps.expect("steps") {
        assert!(execute(&mut f, &step.plan.call), "{}", step.label);
    }
    assert!(f.state_exists(), "State must be back");
    let plan = f.action_take_offer(10_000_000);
    assert!(act(&mut f, plan), "world must be usable again");

    assert!(f.action_scout_rebuild_state().is_none(), "rebuild must be a no-op when State exists");
}

/// A withdrawal from the vault that holds the deposits leaves the open requests uncovered.
#[test]
fn t_p0002_vault_drain_strands_open_requests() {
    let mut f = world();
    let vault = f.redemption_vault_ata(&f.mint_onyc).expect("an address");
    assert_eq!(vault, f.redemption_vault_onyc);
    let amount: u64 = 5_000_000_001; // odd, so that the vault operations select onyc

    let plan = f.action_create_redemption_request(amount);
    assert!(act(&mut f, plan), "create_redemption_request");
    let locked = f.tok_amt(&vault);
    assert_eq!(locked, amount, "the request must have locked its tokens in the vault");
    assert_eq!(f.onchain_requested_redemptions(), Some(amount as u128));
    assert!(violations(&f).is_empty());

    let plan = f.action_redemption_vault_withdraw(locked | 1);
    assert!(act(&mut f, plan), "boss drains the redemption vault");
    assert_eq!(f.tok_amt(&vault), 0, "vault must now be empty");

    assert_eq!(f.onchain_requested_redemptions(), Some(amount as u128));
    assert_eq!(f.open_request_total(), Some(amount as u128));

    let found = violations(&f);
    assert_eq!(found.len(), 1);
    assert!(found[0].starts_with("P-0002: redemption vault "));

    let plan = f.action_cancel_redemption_request();
    assert!(!act(&mut f, plan), "cancel must fail once the vault is drained");
    let plan = f.action_fulfill_redemption_request();
    assert!(!act(&mut f, plan), "fulfil must fail once the vault is drained");
    assert_eq!(
        f.open_requests().map(|v| v.len()),
        Some(1),
        "the request is stranded, not retired"
    );
}

/// With the cap at exactly the supply, the capped paths refuse to mint while a redemption passes it.
#[test]
fn t_p0004_redemption_fulfilment_bypasses_max_supply() {
    let mut f = world();
    let plan = f.action_scout_configure_max_supply(0);
    assert!(act(&mut f, plan), "configure_max_supply with zero headroom");
    let cap = {
        let d = account_data(&f.ctx, &f.state_pda).unwrap();
        u64::from_le_bytes(
            d[SCOUT_STATE_MAX_SUPPLY_OFFSET..SCOUT_STATE_MAX_SUPPLY_END].try_into().unwrap(),
        )
    };
    let before = f.onyc_supply().expect("onyc supply");
    assert_eq!(cap, before, "cap must start exactly at the current supply");
    assert!(violations(&f).is_empty());

    let plan = f.action_mint_to(1);
    assert!(!act(&mut f, plan), "mint_to must respect the cap");
    let plan = f.action_take_offer(10_000_000);
    assert!(!act(&mut f, plan), "take_offer must respect the cap");
    assert_eq!(f.onyc_supply(), Some(before), "no control path may move the supply");

    let plan = f.action_scout_create_request_rev(1_000_000, 0);
    assert!(act(&mut f, plan), "create reverse redemption request");
    let plan = f.action_scout_fulfill_rev();
    assert!(act(&mut f, plan), "fulfil mints ONyc");

    let after = f.onyc_supply().expect("onyc supply");
    assert!(after > cap, "supply {after} must have passed the cap {cap}");
    let found = violations(&f);
    assert_eq!(found.len(), 1);
    assert!(found[0].starts_with("P-0004: mint "));
}

/// `make_offer` accepts an offer of a mint for itself, and taking it below par mints free tokens.
#[test]
fn t_p0005_same_mint_offer_mints_free_tokens() {
    let mut f = world();
    let plan = f.action_make_offer(3, false, false);
    assert!(act(&mut f, plan), "make_offer accepts token_in == token_out");
    let found = violations(&f);
    assert_eq!(found.len(), 1);
    assert!(found[0].starts_with("P-0005: offer "));
    let plan = f.action_scout_price_same_mint_offer(500_000_000);
    assert!(act(&mut f, plan), "price it at 0.5");

    let user = f.pick_user(0).pubkey();
    let uata = ata(&user, &f.mint_onyc);
    let held_before = f.tok_amt(&uata);
    let supply_before = f.onyc_supply().expect("supply");

    let plan = f.action_scout_take_same_mint_offer(1_000_000_000, 4);
    assert!(act(&mut f, plan), "take the self-referential offer");

    let held_after = f.tok_amt(&uata);
    let supply_after = f.onyc_supply().expect("supply");
    assert!(held_after > held_before, "taker must have gained: {held_before} -> {held_after}");
    assert_eq!(
        held_after - held_before,
        999_400_000,
        "taker paid 1e9 of a token and received 1.9994e9 of the SAME token"
    );
    assert_eq!(
        supply_after - supply_before,
        999_700_000,
        "the gain is newly minted supply (taker gain + boss fee), not a transfer from anyone"
    );
}

/// `update_offer_fee` accepts a fee far past the ceiling that every other fee path enforces.
#[test]
fn t_p0006_update_offer_fee_bypasses_the_fee_ceiling() {
    let mut f = world();
    let offer = f.offer_pda;
    let fee_of = |f: &OnreappFixture, o: &Pubkey| -> u16 {
        let d = account_data(&f.ctx, o).unwrap();
        u16::from_le_bytes(d[SCOUT_OFFER_FEE_OFFSET..SCOUT_OFFER_FEE_END].try_into().unwrap())
    };
    assert_eq!(fee_of(&f, &offer), 100, "setup created it at 1%");

    let plan = f.action_make_offer(1001, false, false);
    assert!(!act(&mut f, plan), "make_offer must refuse 1001 bp");
    let plan = f.action_update_redemption_offer_fee(1001);
    assert!(!act(&mut f, plan), "redemption fee must refuse 1001 bp");
    let plan = f.action_update_redemption_offer_fee(1000);
    assert!(act(&mut f, plan), "...but accepts exactly 1000 bp");
    assert!(violations(&f).is_empty());

    let plan = f.action_update_offer_fee(9999);
    assert!(act(&mut f, plan), "update_offer_fee accepts 9999 bp");
    assert_eq!(fee_of(&f, &offer), 9999, "the offer now charges 99.99%");
    let found = violations(&f);
    assert_eq!(found.len(), 1);
    assert!(found[0].contains(" has fee_basis_points 9999 which exceeds MAX_ALLOWED_FEE_BPS (1000)"));
}

/// The kill switch closes the users' exits, but not the boss's drain.
#[test]
fn c1_killswitch_closes_exits_but_not_the_drain() {
    let mut f = world();
    let amount: u64 = 5_000_000_001; // odd, so that the vault operations select onyc
    let plan = f.action_create_redemption_request(amount);
    assert!(act(&mut f, plan), "user locks collateral");
    let locked = vault_onyc(&f);
    assert_eq!(locked, amount);

    let plan = f.action_set_kill_switch(true);
    assert!(act(&mut f, plan), "boss engages the emergency stop");
    assert!(account_data(&f.ctx, &f.state_pda).map(|d| d[72] != 0).unwrap_or(false));

    let plan = f.action_cancel_redemption_request();
    assert!(!act(&mut f, plan));
    let plan = f.action_fulfill_redemption_request();
    assert!(!act(&mut f, plan));
    let plan = f.action_create_redemption_request(1_000_000_001);
    assert!(!act(&mut f, plan));
    let plan = f.action_redemption_vault_withdraw(locked | 1);
    assert!(act(&mut f, plan));
    assert_eq!(vault_onyc(&f), 0);
}

/// A fee raised to the whole amount takes everything and pays nothing.
#[test]
fn c2_hundred_percent_fee_confiscates_the_taker() {
    let mut f = world();
    let user = f.pick_user(0).pubkey();
    let u_in = ata(&user, &f.mint_usdc);
    let u_out = ata(&user, &f.mint_onyc);
    let boss_in = ata(&f.boss.pubkey(), &f.mint_usdc);

    let plan = f.action_update_offer_fee(10_000);
    assert!(act(&mut f, plan));
    let (a0, b0, c0) = (f.tok_amt(&u_in), f.tok_amt(&u_out), f.tok_amt(&boss_in));
    let plan = f.action_take_offer(1_000_000_000);
    assert!(act(&mut f, plan));
    let (a1, b1, c1) = (f.tok_amt(&u_in), f.tok_amt(&u_out), f.tok_amt(&boss_in));
    assert_eq!(a0 - a1, 1_000_000_000);
    assert_eq!(b1, b0);
    assert_eq!(c1 - c0, 1_000_000_000);
}

/// The least legal price multiplies the balance of the taker.
#[test]
fn c3_same_mint_at_minimum_legal_price() {
    let mut f = world();
    let plan = f.action_make_offer(3, false, false);
    assert!(act(&mut f, plan), "same-mint offer (variant 3)");
    let plan = f.action_scout_price_same_mint_offer(1);
    assert!(act(&mut f, plan), "base_price = 1, the minimum legal value");
    let user = f.pick_user(4).pubkey();
    let uata = ata(&user, &f.mint_onyc);
    let before = f.tok_amt(&uata);
    let plan = f.action_scout_take_same_mint_offer(1_000, 4);
    assert!(act(&mut f, plan));
    assert!(f.tok_amt(&uata) > before);
}

/// The price can be moved under a take that is under way.
#[test]
fn c7_price_can_be_moved_under_an_inflight_take() {
    let mut f = world();
    let user = f.pick_user(0).pubkey();
    let u_in = ata(&user, &f.mint_usdc);
    let u_out = ata(&user, &f.mint_onyc);

    let (a0, b0) = (f.tok_amt(&u_in), f.tok_amt(&u_out));
    let plan = f.action_take_offer(1_000_000_000);
    assert!(act(&mut f, plan), "honest take");
    let (a1, b1) = (f.tok_amt(&u_in), f.tok_amt(&u_out));
    println!("honest: paid {} received {}", a0 - a1, b1 - b0);

    assert!(f.action_scout_advance_time(3_600), "move past the existing vector");
    let now = scout_now(&f.ctx);
    let plan = f.action_add_offer_vector(now, u64::MAX / 4, 0, 3_600);
    assert!(act(&mut f, plan));

    let (a2, b2) = (f.tok_amt(&u_in), f.tok_amt(&u_out));
    let plan = f.action_take_offer(1_000_000_000);
    assert!(act(&mut f, plan));
    let (a3, b3) = (f.tok_amt(&u_in), f.tok_amt(&u_out));
    assert_eq!(a2 - a3, 1_000_000_000);
    assert!(b3 - b2 < b1 - b0);
}

/// A cap of zero is no cap.
#[test]
fn c4_max_supply_zero_means_unlimited_not_frozen() {
    let mut f = world_with(true);
    let plan = f.action_scout_configure_max_supply(0);
    assert!(act(&mut f, plan), "cap at current supply");
    let plan = f.action_mint_to(1);
    assert!(!act(&mut f, plan));
    let plan = f.action_configure_max_supply(0);
    assert!(act(&mut f, plan));
    let before = f.onyc_supply().unwrap();
    let plan = f.action_mint_to(1_000_000_000);
    assert!(act(&mut f, plan));
    assert_eq!(f.onyc_supply().unwrap(), before + 1_000_000_000);
    assert!(violations(&f).is_empty());
}

/// Two redemption offers that take onyc fund the same vault.
#[test]
fn p7_two_offers_share_one_vault() {
    let mut f = world();
    let vault = f.redemption_vault_onyc;
    let plan = f.action_make_offer(0, false, false);
    assert!(act(&mut f, plan), "offer play->onyc (pair variant 0)");
    let plan = f.action_make_redemption_offer(25);
    assert!(act(&mut f, plan), "redemption offer onyc->play");

    let v0 = f.tok_amt(&vault);
    let plan = f.action_create_redemption_request(1_000_000);
    assert!(act(&mut f, plan), "request on setup's onyc->usdc offer");
    let v1 = f.tok_amt(&vault);
    let plan = f.action_scout_create_request_play(2_000_000, 0);
    assert!(act(&mut f, plan), "request on the onyc->play offer");
    let v2 = f.tok_amt(&vault);

    assert!(v1 > v0 && v2 > v1, "both offers must fund the SAME vault account");
    assert_eq!(f.scout_p7_next, 2, "both requests registered");
}

/// The pool of two redemption offers stays solvent as long as nobody drains it.
#[test]
fn c5_pool_stays_solvent_without_the_drain() {
    let mut f = world();
    let plan = f.action_make_offer(0, false, false);
    assert!(act(&mut f, plan), "offer play->onyc");
    let plan = f.action_make_redemption_offer(25);
    assert!(act(&mut f, plan), "second onyc-denominated redemption offer");

    let vault = f.redemption_vault_onyc;
    let claimed = |f: &OnreappFixture| -> u64 {
        let mut t = 0u64;
        for pda in f.scout_p7_reqs {
            if pda == DEFAULT_PUBKEY {
                continue;
            }
            if let Some(d) = account_data(&f.ctx, &pda) {
                if d.len() >= SCOUT_REQ_MIN_LEN {
                    t = t.saturating_add(u64::from_le_bytes(
                        d[SCOUT_REQ_AMOUNT_OFFSET..SCOUT_REQ_MIN_LEN].try_into().unwrap(),
                    ));
                }
            }
        }
        t
    };
    let check = |f: &OnreappFixture, what: &str| {
        let held = f.tok_amt(&vault);
        let c = claimed(f);
        assert!(held >= c, "pool became insolvent after {what}");
        assert!(violations(f).is_empty());
    };

    check(&f, "baseline");
    let plan = f.action_create_redemption_request(3_000_000);
    assert!(act(&mut f, plan), "A1 on offer A");
    check(&f, "create A1");
    let plan = f.action_scout_create_request_play(5_000_000, 0);
    assert!(act(&mut f, plan), "B1 on offer B");
    check(&f, "create B1");
    let plan = f.action_create_redemption_request(7_000_001);
    assert!(act(&mut f, plan), "A2 on offer A");
    check(&f, "create A2");
    let plan = f.action_scout_create_request_play(11_000_000, 1);
    assert!(act(&mut f, plan), "B2 on offer B");
    check(&f, "create B2");

    let plan = f.action_fulfill_redemption_request();
    assert!(act(&mut f, plan), "fulfil A1");
    check(&f, "fulfil A1");
    let plan = f.action_cancel_redemption_request();
    assert!(act(&mut f, plan), "cancel A2");
    check(&f, "cancel A2");
    let plan = f.action_create_redemption_request(2_500_000);
    assert!(act(&mut f, plan), "A3");
    check(&f, "create A3");
    let plan = f.action_fulfill_redemption_request();
    assert!(act(&mut f, plan), "fulfil A3");
    check(&f, "fulfil A3");
    assert!(claimed(&f) > 0, "offer B's requests must still be outstanding and covered");
}

/// Time moves, and a later vector can then be added.
#[test]
fn t_clock_advances_and_new_vector_activates() {
    let mut f = world();
    let t0 = scout_now(&f.ctx);
    assert!(f.action_scout_advance_time(7_200));
    let t1 = scout_now(&f.ctx);
    assert!(t1 > t0, "clock must advance: {t0} -> {t1}");
    let plan = f.action_add_offer_vector(t1, 2_000_000_000, 1_000_000, 600);
    assert!(act(&mut f, plan), "add later vector");
    let plan = f.action_get_nav();
    assert!(act(&mut f, plan), "nav must price against the new vector");
}

/// What a new world holds.
#[test]
fn a_new_world_hands_out_exactly_its_supplies() {
    let f = world();
    let (a, b) = (f.user_a.pubkey(), f.user_b.pubkey());
    assert_eq!(f.tok_amt(&ata(&a, &f.mint_usdc)), USER_USDC_START);
    assert_eq!(f.tok_amt(&ata(&b, &f.mint_onyc)), USER_ONYC_START);
    assert_eq!(f.tok_amt(&ata(&f.redemption_vault_authority, &f.mint_usdc)), VAULT_USDC_START);
    assert_eq!(f.tok_amt(&ata(&f.boss.pubkey(), &f.mint_appr)), 0);
    assert_eq!(f.tok_amt(&ata(&a, &f.mint_appr)), USER_USDC_START);
    assert_eq!(f.onyc_supply(), Some(2 * USER_ONYC_START));
    let supply = |mint: &Pubkey| word(&account_data(&f.ctx, mint).unwrap(), 36);
    assert_eq!(supply(&f.mint_usdc), 2 * USER_USDC_START + VAULT_USDC_START);
    assert_eq!(supply(&f.mint_play), 0);
    assert_eq!(supply(&f.mint_appr), 2 * USER_USDC_START);
    assert_eq!(supply(&f.mint_fee), 2 * USER_USDC_START);
    assert_eq!(scout_now(&f.ctx), 1_700_000_000);
    assert_eq!((f.scout_p5_next, f.scout_p5_offers[1]), (4, f.offer_appr_pda));
    assert!(violations(&f).is_empty());
}

/// A copy of a world goes its own way.
#[test]
fn a_copied_world_is_independent() {
    let mut f = world();
    let copy = f.clone();
    let plan = f.action_create_redemption_request(1_000_000);
    assert!(act(&mut f, plan));
    assert_eq!(f.scout_p3_next, 1);
    assert_eq!(copy.scout_p3_next, 0);
    assert_eq!(copy.onchain_requested_redemptions(), Some(0));
}

/// The chain must know the precompile that checks signatures, or no approval could be presented.
#[test]
fn t_ed25519_precompile_is_registered() {
    let f = world();
    let acc = f
        .ctx
        .get_account(&solana_pubkey::Pubkey::new_from_array(ED25519_PROGRAM_ID))
        .expect("Ed25519SigVerify program account must exist");
    assert!(acc.executable, "Ed25519SigVerify must be executable");
}

/// Muting P-0005 leaves P-0006 its sight: both read the same registry of offers.
#[test]
fn a_muted_property_does_not_hide_the_finding_of_another() {
    let mut f = world();
    let mut monitor = Monitor::new(Settings {
        mode: None,
        mute: Some("P-0005".to_string()),
        only: None,
        run: None,
    });
    let plan = f.action_make_offer(0, false, false);
    assert!(act_checked(&mut f, plan, &mut monitor));
    let made = f.make_offer_pda_for(0).expect("an address");
    assert_eq!((f.scout_p5_offers[4], f.scout_p5_next), (made, 5));

    set(&mut f, &made, SCOUT_OFFER_FEE_OFFSET, &1001u16.to_le_bytes());
    let found = violations_of(&f, &mut monitor);
    assert_eq!(found.len(), 1);
    assert!(found[0].starts_with("P-0006"));
    assert_eq!(monitor.lines, vec!["[SCOUT_CHECK_MUTED] P-0005".to_string()]);
}

/// The chain's own precompile finds the approver's signature where the instruction says it is.
#[test]
fn the_precompile_accepts_the_approval_as_it_was_signed_only() {
    let mut f = world();
    let take = f.action_take_offer_with_approval(1_000_000, 60, 0).expect("a plan");
    let payer = solana_keypair::Keypair::new_from_array(f.boss.secret);
    let mut accepts = |data: &[u8]| {
        let instruction = solana_instruction::Instruction {
            program_id: solana_pubkey::Pubkey::new_from_array(take.precompile.program_id),
            accounts: Vec::new(),
            data: data.to_vec(),
        };
        let outcome = f.ctx.raw_call(instruction).signers(&[&payer]).send();
        outcome.map(|outcome| outcome.is_success()).unwrap_or(false)
    };
    let mut data = take.precompile.data.clone();
    assert!(accepts(&data));
    data[112] ^= 1;
    assert!(!accepts(&data));
}

/// Every offer that building a world makes is watched: a fee above the ceiling is found on each.
#[test]
fn every_offer_of_a_new_world_is_watched() {
    let f = world();
    let built = [f.offer_pda, f.offer_appr_pda, f.offer_rev_pda, f.offer_fee_pda];
    for offer in built {
        assert!(f.scout_p5_offers[..f.scout_p5_next].contains(&offer));
        let mut f = world();
        assert!(violations(&f).is_empty());
        set(&mut f, &offer, SCOUT_OFFER_FEE_OFFSET, &1001u16.to_le_bytes());
        let found = violations(&f);
        assert_eq!(found.len(), 1);
        assert!(found[0].starts_with("P-0006"));
    }
}
