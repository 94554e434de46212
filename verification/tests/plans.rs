//! What the actions plan to send.

use crucible_test_context::AccountBuilderBase;
use onreapp_fuzz::check::{Monitor, Settings};
use onreapp_fuzz::context::{fresh_context, scout_now, scout_set_time};
use onreapp_fuzz::ed25519::ApprovalMessage;
use onreapp_fuzz::fixture::{OnreappFixture, SCOUT_REQ_CAP};
use onreapp_fuzz::instruction::{Call, Plan, Record};
use onreapp_fuzz::keys::{
    scout_ata, scout_pda, Keypair, Pubkey, BPF_LOADER_UPGRADEABLE_ID, DEFAULT_PUBKEY,
    ED25519_PROGRAM_ID, SEED_PERMISSIONLESS_AUTHORITY, SPL_TOKEN_2022_ID, SPL_TOKEN_ID,
};
use onreapp_fuzz::setup::{scout_expect_ok, Keys, Outcome, Step, SCOUT_GENESIS_TS};

const PROGRAM_ID: Pubkey = [77u8; 32];

fn keys() -> Keys {
    Keys {
        payer: Keypair { secret: [1; 32] },
        user_a: Keypair { secret: [2; 32] },
        user_b: Keypair { secret: [3; 32] },
        redemption_admin: Keypair { secret: [4; 32] },
        approver: Keypair { secret: [5; 32] },
        mint_usdc: [101; 32],
        mint_onyc: [102; 32],
        mint_play: [103; 32],
        mint_appr: [104; 32],
        mint_fee: [105; 32],
    }
}

fn world(admin_actions: bool) -> OnreappFixture {
    OnreappFixture::setup(fresh_context(), PROGRAM_ID, keys(), admin_actions).expect("a world")
}

fn put(f: &mut OnreappFixture, key: &Pubkey, data: &[u8]) {
    f.ctx
        .create_account()
        .pubkey(solana_pubkey::Pubkey::new_from_array(*key))
        .lamports(10_000_000)
        .owner(solana_pubkey::Pubkey::new_from_array(PROGRAM_ID))
        .data(data)
        .create()
        .expect("an account");
}

/// Puts a redemption offer whose next request has the given id.
fn put_redemption_offer(f: &mut OnreappFixture, key: &Pubkey, counter: u64) {
    let mut data = vec![0u8; 146];
    data[138..146].copy_from_slice(&counter.to_le_bytes());
    put(f, key, &data);
}

fn put_request(f: &mut OnreappFixture, ro: &Pubkey, id: u64, redeemer: &Pubkey, amount: u64) {
    let key = f.request_pda_of(ro, id).expect("an address");
    let mut data = vec![0u8; 88];
    data[8..40].copy_from_slice(ro);
    data[40..48].copy_from_slice(&id.to_le_bytes());
    data[48..80].copy_from_slice(redeemer);
    data[80..88].copy_from_slice(&amount.to_le_bytes());
    put(f, &key, &data);
}

fn ata(owner: &Pubkey, mint: &Pubkey) -> Pubkey {
    scout_ata(owner, mint, &SPL_TOKEN_ID).expect("an address")
}

fn signers(plan: &Plan) -> Vec<Pubkey> {
    let mut keys = vec![plan.signers.first.pubkey()];
    if let Some(second) = plan.signers.second {
        keys.push(second.pubkey());
    }
    keys
}

#[test]
fn a_world_starts_with_its_actors_mints_and_clock() {
    let f = world(false);
    let lamports = |k: &Pubkey| {
        f.ctx.get_account(&solana_pubkey::Pubkey::new_from_array(*k)).expect("an account").lamports
    };
    for key in [f.boss, f.user_a, f.user_b, f.redemption_admin, f.approver] {
        assert_eq!(lamports(&key.pubkey()), 1_000_000_000_000);
    }
    for mint in [f.mint_usdc, f.mint_onyc, f.mint_play] {
        let mint = solana_pubkey::Pubkey::new_from_array(mint);
        let account = f.ctx.get_account(&mint).expect("a mint");
        assert_eq!(account.owner.to_bytes(), SPL_TOKEN_ID);
        assert_eq!(account.lamports, 1_461_600);
        assert_eq!(account.data.len(), 82);
        assert_eq!(account.data[..4], [1, 0, 0, 0]);
        assert_eq!(account.data[4..36], f.boss.pubkey());
        assert_eq!(account.data[45..], [[1u8].as_slice(), &[0u8; 36]].concat());
    }
    assert_eq!(f.payer, f.boss);
    assert_eq!(scout_now(&f.ctx), SCOUT_GENESIS_TS as u64);
    assert_eq!(f.onyc_supply(), Some(200_000_000_000));
    let seeds: [&[u8]; 1] = [b"state"];
    assert_eq!(Some(f.state_pda), scout_pda(&seeds, &PROGRAM_ID));
    let seeds: [&[u8]; 3] = [b"redemption_offer", &f.mint_fee, &f.mint_usdc];
    assert_eq!(Some(f.redemption_offer_fee_pda), scout_pda(&seeds, &PROGRAM_ID));
    assert_eq!(f.redemption_vault_onyc, ata(&f.redemption_vault_authority, &f.mint_onyc));
    assert_eq!(f.redemption_vault_fee(), Some(f.redemption_vault_fee_ata));
    assert!(!f.state_exists());
    assert_eq!(
        f.scout_p5_offers[..4],
        [f.offer_pda, f.offer_appr_pda, f.offer_rev_pda, f.offer_fee_pda]
    );
    assert_eq!(f.scout_p5_offers[4..], [DEFAULT_PUBKEY; 12]);
    assert_eq!(f.scout_p5_next, 4);
}

#[test]
fn no_world_from_a_default_mint() {
    let mut bad = keys();
    bad.mint_onyc = DEFAULT_PUBKEY;
    assert!(OnreappFixture::setup(fresh_context(), PROGRAM_ID, bad, false).is_none());
}

#[test]
fn fresh_keys_are_all_different() {
    let k = Keys::fresh();
    let all = [
        k.payer.pubkey(),
        k.user_a.pubkey(),
        k.user_b.pubkey(),
        k.redemption_admin.pubkey(),
        k.approver.pubkey(),
        k.mint_usdc,
        k.mint_onyc,
        k.mint_play,
        k.mint_appr,
        k.mint_fee,
    ];
    for i in 0..all.len() {
        for j in 0..i {
            assert_ne!(all[i], all[j]);
        }
    }
}

#[test]
fn the_steps_come_in_order() {
    let f = world(false);
    let steps = f.setup_steps().expect("steps");
    assert_eq!(steps.len(), 36);
    let labels: Vec<&str> = steps
        .iter()
        .filter_map(|step| match step {
            Step::Send(send) => Some(send.label),
            _ => None,
        })
        .collect();
    assert_eq!(
        labels,
        vec![
            "initialize",
            "set_redemption_admin",
            "add_approver",
            "transfer_mint_authority_to_program(onyc)",
            "make_offer(usdc->onyc)",
            "add_offer_vector(usdc->onyc)",
            "make_offer(appr->onyc, needs_approval)",
            "add_offer_vector(appr->onyc)",
            "make_redemption_offer(onyc->usdc)",
            "make_offer(onyc->usdc)",
            "add_offer_vector(onyc->usdc)",
            "make_redemption_offer(usdc->onyc)",
            "make_offer(usdc->fee)",
            "make_redemption_offer(fee->usdc)",
        ]
    );
    match steps[18] {
        Step::Send(send) => match send.plan.call {
            Call::AddOfferVector { vector, accounts } => {
                assert_eq!(vector.start_time, None);
                assert_eq!(vector.base_time, 1_700_000_000);
                assert_eq!(vector.base_price, 1_000_000_000);
                assert_eq!(vector.apr, 5_000_000);
                assert_eq!(vector.price_fix_duration, 3_600);
                assert_eq!(accounts.offer, f.offer_pda);
            }
            _ => panic!("not a vector"),
        },
        _ => panic!("not a transaction"),
    }
    match steps[35] {
        Step::Send(send) => match send.plan.call {
            Call::MakeRedemptionOffer { fee_basis_points, accounts } => {
                assert_eq!(fee_basis_points, 50);
                assert_eq!(accounts.token_in_program, SPL_TOKEN_2022_ID);
                assert_eq!(accounts.token_out_program, SPL_TOKEN_ID);
                assert_eq!(accounts.vault_token_in_account, f.redemption_vault_fee_ata);
                assert_eq!(accounts.signer, f.boss.pubkey());
            }
            _ => panic!("not a redemption offer"),
        },
        _ => panic!("not a transaction"),
    }
}

#[test]
fn a_step_that_sends_is_not_built() {
    let mut f = world(false);
    let steps = f.setup_steps().expect("steps");
    assert!(!f.build(&steps[0]));
    assert!(!f.state_exists());
    assert!(!f.build(&Step::Mint { address: DEFAULT_PUBKEY, decimals: 6, supply: 1 }));
}

#[test]
fn failed_steps_are_explained() {
    let good = Outcome::Sent { success: true, error_code: None, logs: vec!["x".to_string()] };
    assert_eq!(scout_expect_ok("initialize", &good), Ok(()));
    let bad = Outcome::Sent {
        success: false,
        error_code: Some(6001),
        logs: vec!["one".to_string(), "two".to_string()],
    };
    assert_eq!(
        scout_expect_ok("initialize", &bad),
        Err("setup step `initialize` failed (code Some(6001))\nlogs:\none\ntwo".to_string())
    );
    let bare = Outcome::Sent { success: false, error_code: None, logs: Vec::new() };
    assert_eq!(
        scout_expect_ok("a", &bare),
        Err("setup step `a` failed (code None)\nlogs:\n".to_string())
    );
    let lost = Outcome::Errored { error: "no blockhash".to_string() };
    assert_eq!(
        scout_expect_ok("a", &lost),
        Err("setup step `a` errored: no blockhash".to_string())
    );
}

#[test]
fn the_amount_picks_the_user() {
    let f = world(false);
    assert_eq!(f.pick_user(8), f.user_a);
    assert_eq!(f.pick_user(9), f.user_b);
    assert_eq!(f.pick_user_pk(9), f.user_b.pubkey());
    let plan = f.action_take_offer(11).expect("a plan");
    assert_eq!(signers(&plan), vec![f.payer.pubkey(), f.user_b.pubkey()]);
    match plan.call {
        Call::TakeOffer { token_in_amount, approval_message, accounts } => {
            assert_eq!(token_in_amount, 11);
            assert_eq!(approval_message, None);
            assert_eq!(accounts.user, f.user_b.pubkey());
            assert_eq!(accounts.offer, f.offer_pda);
            assert_eq!(accounts.user_token_in_account, ata(&f.user_b.pubkey(), &f.mint_usdc));
            assert_eq!(accounts.user_token_out_account, ata(&f.user_b.pubkey(), &f.mint_onyc));
            assert_eq!(
                accounts.vault_token_out_account,
                ata(&f.offer_vault_authority, &f.mint_onyc)
            );
            assert_eq!(accounts.boss_token_in_account, ata(&f.boss.pubkey(), &f.mint_usdc));
        }
        _ => panic!("not a take"),
    }
}

#[test]
fn the_middleman_passes_both_legs() {
    let f = world(false);
    let plan = f.action_take_offer_permissionless(4).expect("a plan");
    match plan.call {
        Call::TakeOfferPermissionless { accounts, .. } => {
            assert_eq!(accounts.permissionless_authority, f.permissionless_authority);
            assert_eq!(
                accounts.permissionless_token_in_account,
                ata(&f.permissionless_authority, &f.mint_usdc)
            );
            assert_eq!(
                accounts.permissionless_token_out_account,
                ata(&f.permissionless_authority, &f.mint_onyc)
            );
            assert_eq!(accounts.take.user, f.user_a.pubkey());
        }
        _ => panic!("not a take"),
    }
}

#[test]
fn the_amount_picks_the_vault() {
    let f = world(false);
    assert_eq!(f.pick_vault_mint(2), f.mint_usdc);
    assert_eq!(f.pick_vault_mint(3), f.mint_onyc);
    match f.action_redemption_vault_withdraw(3).expect("a plan").call {
        Call::RedemptionVaultWithdraw { amount, accounts } => {
            assert_eq!(amount, 3);
            assert_eq!(accounts.token_mint, f.mint_onyc);
            assert_eq!(accounts.vault_token_account, f.redemption_vault_onyc);
        }
        _ => panic!("not a withdrawal"),
    }
    match f.action_offer_vault_deposit(3).expect("a plan").call {
        Call::OfferVaultDeposit { accounts, .. } => {
            assert_eq!(accounts.token_mint, f.mint_usdc);
            assert_eq!(
                accounts.vault_token_account,
                ata(&f.offer_vault_authority, &f.mint_usdc)
            );
        }
        _ => panic!("not a deposit"),
    }
}

#[test]
fn the_fee_picks_the_pair() {
    let f = world(false);
    assert_eq!(f.make_offer_pair(4), (f.mint_play, f.mint_onyc));
    assert_eq!(f.make_offer_pair(5), (f.mint_play, f.mint_usdc));
    assert_eq!(f.make_offer_pair(6), (f.mint_appr, f.mint_usdc));
    assert_eq!(f.make_offer_pair(7), (f.mint_onyc, f.mint_onyc));
    let plan = f.action_make_offer(5, true, false).expect("a plan");
    let offer = f.make_offer_pda_for(5).expect("an address");
    assert_eq!(Some(offer), f.offer_pda_of(&f.mint_play, &f.mint_usdc));
    assert_eq!(plan.record, Record::Offer(offer));
    match plan.call {
        Call::MakeOffer { fee_basis_points, needs_approval, allow_permissionless, accounts } => {
            assert_eq!((fee_basis_points, needs_approval, allow_permissionless), (5, true, false));
            assert_eq!(accounts.offer, offer);
            assert_eq!(
                accounts.vault_token_in_account,
                ata(&f.offer_vault_authority, &f.mint_play)
            );
        }
        _ => panic!("not an offer"),
    }
}

#[test]
fn gated_actions_are_off_by_default() {
    let f = world(false);
    assert_eq!(f.action_initialize(), None);
    assert_eq!(f.action_initialize_permissionless_authority(), None);
    assert_eq!(f.action_accept_boss(), None);
    assert_eq!(f.action_add_admin(), None);
    assert_eq!(f.action_remove_admin(), None);
    assert_eq!(f.action_clear_admins(), None);
    assert_eq!(f.action_set_redemption_admin(), None);
    assert_eq!(f.action_configure_max_supply(1), None);
}

#[test]
fn gated_actions_can_be_enabled() {
    let f = world(true);
    match f.action_initialize().expect("a plan").call {
        Call::Initialize { accounts } => {
            let seeds: [&[u8]; 1] = [&PROGRAM_ID];
            assert_eq!(
                Some(accounts.program_data),
                scout_pda(&seeds, &BPF_LOADER_UPGRADEABLE_ID)
            );
        }
        _ => panic!("not initialize"),
    }
    match f.action_initialize_permissionless_authority().expect("a plan").call {
        Call::InitializePermissionlessAuthority { name, .. } => {
            assert_eq!(name, SEED_PERMISSIONLESS_AUTHORITY);
        }
        _ => panic!("not the authority"),
    }
    match f.action_add_admin().expect("a plan").call {
        Call::AddAdmin { new_admin, .. } => assert_eq!(new_admin, f.user_a.pubkey()),
        _ => panic!("not an admin"),
    }
    assert!(f.action_accept_boss().is_some());
    assert!(f.action_remove_admin().is_some());
    assert!(f.action_clear_admins().is_some());
    assert!(f.action_set_redemption_admin().is_some());
    assert!(f.action_configure_max_supply(1).is_some());
}

#[test]
fn the_boss_signs_what_only_the_boss_may_do() {
    let f = world(false);
    let boss = f.boss.pubkey();
    for plan in [
        f.action_offer_vault_withdraw(1),
        f.action_redemption_vault_deposit(1),
        f.action_delete_offer_vector(5),
        f.action_delete_all_offer_vectors(),
        f.action_update_offer_fee(9),
        f.action_propose_boss(),
        f.action_transfer_mint_authority_to_program(),
        f.action_transfer_mint_authority_to_boss(),
        f.action_set_onyc_mint(),
        f.action_mint_to(5),
        f.action_add_approver(),
        f.action_remove_approver(),
        f.action_close_state(),
        f.action_update_redemption_offer_fee(3),
        f.action_get_nav(),
        f.action_get_apy(),
        f.action_get_nav_adjustment(),
        f.action_get_tvl(),
        f.action_get_circulating_supply(),
    ] {
        assert_eq!(signers(&plan.expect("a plan")), vec![boss]);
    }
}

#[test]
fn requests_are_walked_by_ascending_id() {
    let mut f = world(false);
    let ro = f.redemption_offer_pda;
    assert_eq!(f.open_requests(), None);
    assert_eq!(f.next_request_pda(), f.request_pda(0));
    put_redemption_offer(&mut f, &ro, 4);
    assert_eq!(f.open_requests(), Some(Vec::new()));
    assert_eq!(f.oldest_request_pda(), f.request_pda(4));
    assert_eq!(f.oldest_request_redeemer(), f.user_a.pubkey());
    let (a, b) = (f.user_a.pubkey(), f.user_b.pubkey());
    put_request(&mut f, &ro, 3, &a, 30);
    put_request(&mut f, &ro, 1, &b, 10);
    put_request(&mut f, &ro, 4, &b, 99);
    assert_eq!(f.open_requests(), Some(vec![(1, b, 10), (3, a, 30)]));
    assert_eq!(f.open_request_total(), Some(40));
    assert_eq!(f.onchain_request_counter(), Some(4));
    assert_eq!(f.oldest_request_pda(), f.request_pda(1));
    assert_eq!(f.oldest_request_redeemer(), b);
    match f.action_fulfill_redemption_request().expect("a plan").call {
        Call::FulfillRedemptionRequest { accounts } => {
            assert_eq!(Some(accounts.redemption_request), f.request_pda(1));
            assert_eq!(accounts.redeemer, b);
            assert_eq!(accounts.user_token_out_account, ata(&b, &f.mint_usdc));
        }
        _ => panic!("not a fulfilment"),
    }
}

#[test]
fn a_walk_past_the_cap_gives_nothing() {
    let mut f = world(false);
    let ro = f.redemption_offer_pda;
    put_redemption_offer(&mut f, &ro, 513);
    assert_eq!(f.open_requests(), None);
    assert_eq!(f.open_request_total(), None);
    put_redemption_offer(&mut f, &ro, 512);
    assert_eq!(f.open_requests(), Some(Vec::new()));
}

#[test]
fn claims_beyond_a_word_are_not_summed() {
    let mut f = world(false);
    let ro = f.redemption_offer_fee_pda;
    put_redemption_offer(&mut f, &ro, 2);
    assert_eq!(f.try_claimed_fee(), Some(0));
    let a = f.user_a.pubkey();
    put_request(&mut f, &ro, 0, &a, u64::MAX);
    assert_eq!(f.claimed_fee(), u64::MAX);
    put_request(&mut f, &ro, 1, &a, 1);
    assert_eq!(f.try_claimed_fee(), None);
}

#[test]
fn short_accounts_are_not_read() {
    let mut f = world(false);
    let ro = f.redemption_offer_pda;
    put(&mut f, &ro, &[0u8; 145]);
    assert_eq!(f.onchain_request_counter(), None);
    assert_eq!(f.onchain_requested_redemptions(), Some(0));
    put(&mut f, &ro, &[0u8; 135]);
    assert_eq!(f.onchain_requested_redemptions(), None);
    let state = f.state_pda;
    put(&mut f, &state, &[0u8; 39]);
    assert!(!f.state_exists());
    put(&mut f, &state, &[0u8; 40]);
    assert!(f.state_exists());
    put(&mut f, &[9u8; 32], &[1u8; 71]);
    assert_eq!(f.tok_amt(&[9u8; 32]), 0);
}

#[test]
fn amounts_are_bounded_unless_the_selector_says_otherwise() {
    let mut f = world(false);
    let ro = f.redemption_offer_rev_pda;
    assert_eq!(f.action_scout_create_request_rev(5, 0), None);
    put_redemption_offer(&mut f, &ro, 0);
    let amount = |plan: Option<Plan>| match plan.expect("a plan").call {
        Call::CreateRedemptionRequest { amount, .. } => amount,
        _ => panic!("not a request"),
    };
    assert_eq!(amount(f.action_scout_create_request_rev(5, 0)), 6);
    assert_eq!(amount(f.action_scout_create_request_rev(5, 4)), 5);
    assert_eq!(amount(f.action_scout_create_request_rev(250_000_000_000, 0)), 1);
    assert_eq!(amount(f.action_scout_create_request_rev(u64::MAX, 5)), u64::MAX);
}

#[test]
fn the_play_offer_must_exist_first() {
    let mut f = world(false);
    assert_eq!(f.action_scout_create_request_play(5, 0), None);
    let ro = f.redemption_offer_pda_of(&f.mint_onyc, &f.mint_play).expect("an address");
    put_redemption_offer(&mut f, &ro, 7);
    let plan = f.action_scout_create_request_play(12_500_000_000, 1).expect("a plan");
    let request = f.request_pda_of(&ro, 7).expect("an address");
    assert_eq!(plan.record, Record::PlayRequest(request));
    assert_eq!(signers(&plan), vec![f.user_b.pubkey()]);
    match plan.call {
        Call::CreateRedemptionRequest { amount, accounts } => {
            assert_eq!(amount, 1);
            assert_eq!(accounts.redemption_request, request);
            assert_eq!(accounts.vault_token_account, f.redemption_vault_onyc);
        }
        _ => panic!("not a request"),
    }
}

#[test]
fn a_fee_request_is_cancelled_by_its_redeemer() {
    let mut f = world(false);
    let ro = f.redemption_offer_fee_pda;
    assert_eq!(f.action_scout_cancel_request_fee(0), None);
    put_redemption_offer(&mut f, &ro, 2);
    let (a, b) = (f.user_a.pubkey(), f.user_b.pubkey());
    put_request(&mut f, &ro, 0, &a, 5);
    put_request(&mut f, &ro, 1, &b, 6);
    assert_eq!(f.action_scout_cancel_request_fee(2), None);
    let plan = f.action_scout_cancel_request_fee(1).expect("a plan");
    assert_eq!(signers(&plan), vec![b]);
    match plan.call {
        Call::CancelRedemptionRequest { accounts } => {
            assert_eq!(accounts.signer, b);
            assert_eq!(accounts.token_program, SPL_TOKEN_2022_ID);
            assert_eq!(accounts.vault_token_account, f.redemption_vault_fee_ata);
        }
        _ => panic!("not a cancellation"),
    }
    let plan = f.action_scout_cancel_request_fee(0).expect("a plan");
    assert_eq!(signers(&plan), vec![a]);
}

#[test]
fn the_cap_is_set_at_or_above_the_supply() {
    let f = world(false);
    let cap = |headroom: u64| match f.action_scout_configure_max_supply(headroom) {
        Some(plan) => match plan.call {
            Call::ConfigureMaxSupply { max_supply, .. } => max_supply,
            _ => panic!("not a cap"),
        },
        None => panic!("no plan"),
    };
    assert_eq!(cap(0), 200_000_000_000);
    assert_eq!(cap(7), 200_000_000_007);
    assert_eq!(cap(1_000_000_000_000), 200_000_000_000);
}

#[test]
fn the_same_mint_price_is_above_zero_and_below_one() {
    let f = world(false);
    let price = |price: u64| match f.action_scout_price_same_mint_offer(price) {
        Some(plan) => match plan.call {
            Call::AddOfferVector { vector, .. } => vector.base_price,
            _ => panic!("not a vector"),
        },
        None => panic!("no plan"),
    };
    assert_eq!(price(500_000_000), 500_000_000);
    assert_eq!(price(1), 1);
    assert_eq!(price(0), 1);
    assert_eq!(price(999_999_999), 999_999_999);
    assert_eq!(price(1_000_000_000), 1);
    assert_eq!(price(1_500_000_000), 500_000_000);
    assert_eq!(price(3_999_999_999), 999_999_999);
    assert_eq!(price(u64::MAX), u64::MAX % 1_000_000_000);
}

#[test]
fn approvers_bosses_and_switches_are_picked_by_the_selector() {
    let f = world(false);
    let approver = |sel: u8, remove: bool| {
        match f.action_scout_approver_ops(sel, remove).expect("a plan").call {
            Call::AddApprover { approver, .. } if !remove => approver,
            Call::RemoveApprover { approver, .. } if remove => approver,
            _ => panic!("not an approver"),
        }
    };
    assert_eq!(approver(0, false), DEFAULT_PUBKEY);
    assert_eq!(approver(5, true), f.approver.pubkey());
    assert_eq!(approver(6, false), f.user_a.pubkey());
    assert_eq!(approver(7, true), f.user_b.pubkey());

    let switch = |sel: u8| {
        let plan = f.action_scout_kill_switch_as(sel, true).expect("a plan");
        signers(&plan)[0]
    };
    assert_eq!(switch(3), f.boss.pubkey());
    assert_eq!(switch(4), f.user_a.pubkey());
    assert_eq!(switch(5), f.redemption_admin.pubkey());

    let nominee = |sel: u8| match f.action_scout_propose_boss(sel).expect("a plan").call {
        Call::ProposeBoss { new_boss, .. } => new_boss,
        _ => panic!("not a nomination"),
    };
    assert_eq!(nominee(2), DEFAULT_PUBKEY);
    assert_eq!(nominee(3), f.boss.pubkey());
}

#[test]
fn an_approval_carries_a_real_signature_of_the_approver() {
    let f = world(false);
    let take = f.action_take_offer_with_approval(1_000_000, 60, 4).expect("a plan");
    let message = ApprovalMessage {
        program_id: PROGRAM_ID,
        user_pubkey: f.user_a.pubkey(),
        expiry_unix: 1_700_000_060,
    };
    let bytes = message.to_bytes();
    let data = &take.precompile.data;
    assert_eq!(take.precompile.program_id, ED25519_PROGRAM_ID);
    assert_eq!(data[16..48], f.approver.pubkey());
    assert_eq!(data[48..112], f.approver.sign_message(&bytes));
    assert_eq!(data[112..], bytes);
    match take.take.call {
        Call::TakeOffer { token_in_amount, approval_message, accounts } => {
            assert_eq!(token_in_amount, 1_000_000);
            assert_eq!(approval_message, Some(message));
            assert_eq!(accounts.offer, f.offer_appr_pda);
            assert_eq!(accounts.token_in_mint, f.mint_appr);
        }
        _ => panic!("not a take"),
    }
    assert_eq!(signers(&take.take), vec![f.user_a.pubkey()]);
}

#[test]
fn approvals_can_be_stale_or_for_someone_else() {
    let mut f = world(false);
    let message = |f: &OnreappFixture, delta: i32, sel: u8| {
        match f.action_take_offer_with_approval(5, delta, sel).expect("a plan").take.call {
            Call::TakeOffer { approval_message, .. } => approval_message.expect("an approval"),
            _ => panic!("not a take"),
        }
    };
    assert_eq!(message(&f, -1, 0).expiry_unix, 1_699_999_999);
    assert_eq!(message(&f, 0, 2).user_pubkey, f.user_b.pubkey());
    assert_eq!(message(&f, 0, 3).user_pubkey, f.user_a.pubkey());
    assert_eq!(message(&f, 0, 1).user_pubkey, f.user_b.pubkey());
    scout_set_time(&mut f.ctx, 10);
    assert_eq!(message(&f, -11, 0).expiry_unix, 0);
    scout_set_time(&mut f.ctx, i64::MAX);
    assert_eq!(message(&f, 1, 0).expiry_unix, i64::MAX as u64);
}

#[test]
fn time_moves_by_a_bounded_step() {
    let mut f = world(false);
    assert!(f.action_scout_advance_time(0));
    assert_eq!(scout_now(&f.ctx), 1_700_000_001);
    assert!(f.action_scout_advance_time(40_000_000));
    assert_eq!(scout_now(&f.ctx), 1_700_000_002);
    assert!(f.try_advance_time(39_999_999));
    assert_eq!(scout_now(&f.ctx), 1_740_000_002);
    scout_set_time(&mut f.ctx, i64::MAX);
    assert!(f.action_scout_advance_time(5));
    assert_eq!(scout_now(&f.ctx), i64::MAX as u64);
}

#[test]
fn time_stands_still_at_the_last_slot() {
    let mut f = world(false);
    let mut clock = f.ctx.svm.get_sysvar::<solana_clock::Clock>();
    clock.slot = u64::MAX;
    f.ctx.set_sysvar(&clock);
    assert!(!f.try_advance_time(5));
    assert_eq!(scout_now(&f.ctx), 1_700_000_000);
}

#[test]
fn rebuilding_plans_the_three_steps_of_the_state() {
    let f = world(false);
    let steps = f.rebuild_state().expect("steps");
    assert_eq!(
        [steps[0].label, steps[1].label, steps[2].label],
        ["initialize", "set_redemption_admin", "add_approver"]
    );
    assert_eq!(f.action_scout_rebuild_state(), Some(steps));
}

fn monitor(mute: &str, only: &str) -> Monitor {
    let value = |text: &str| if text.is_empty() { None } else { Some(text.to_string()) };
    Monitor::new(Settings { mode: None, mute: value(mute), only: value(only), run: None })
}

#[test]
fn a_failure_notes_nothing() {
    let mut f = world(false);
    let mut c = monitor("", "");
    assert!(!f.settle(Record::Request([1; 32]), Some(false), &mut c));
    assert!(!f.settle(Record::Offer([1; 32]), None, &mut c));
    assert_eq!((f.scout_p2_next, f.scout_p3_next, f.scout_p7_next, f.scout_p5_next), (0, 0, 0, 4));
}

#[test]
fn a_success_is_noted_in_the_registries_of_its_properties() {
    let mut f = world(false);
    let mut c = monitor("", "");
    assert!(f.settle(Record::Request([1; 32]), Some(true), &mut c));
    assert_eq!((f.scout_p2_reqs[0], f.scout_p3_reqs[0]), ([1; 32], [1; 32]));
    assert_eq!((f.scout_p7_reqs[0], f.scout_p7_next), ([1; 32], 1));
    assert!(f.settle(Record::PlayRequest([2; 32]), Some(true), &mut c));
    assert_eq!((f.scout_p7_reqs[1], f.scout_p7_next, f.scout_p3_next), ([2; 32], 2, 1));
    assert!(f.settle(Record::Offer([3; 32]), Some(true), &mut c));
    assert_eq!((f.scout_p5_offers[4], f.scout_p5_next), ([3; 32], 5));
    assert!(f.settle(Record::Nothing, Some(true), &mut c));
}

#[test]
fn a_selected_property_is_fed_alone() {
    let mut f = world(false);
    let mut c = monitor("", "P-0002");
    assert!(f.settle(Record::Request([1; 32]), Some(true), &mut c));
    assert_eq!((f.scout_p2_next, f.scout_p3_next, f.scout_p7_next), (1, 0, 0));
    let mut c = monitor("P-0002", "");
    assert!(f.settle(Record::Request([2; 32]), Some(true), &mut c));
    assert_eq!((f.scout_p2_next, f.scout_p3_next, f.scout_p7_next), (1, 1, 1));
    assert_eq!(c.lines, vec!["[SCOUT_CHECK_MUTED] P-0002".to_string()]);
}

#[test]
fn an_offer_is_noted_once_for_either_property_that_reads_it() {
    let cases = [("", "P-0005", 5), ("", "P-0006", 5), ("P-0005", "", 5), ("P-0006", "", 5)];
    let silent = [("P-0005,P-0006", "", 4), ("", "P-0002", 4), ("P-0006", "P-0006", 4)];
    for (mute, only, next) in cases.iter().chain(silent.iter()) {
        let mut f = world(false);
        let mut c = monitor(mute, only);
        assert!(f.settle(Record::Offer([3; 32]), Some(true), &mut c));
        assert_eq!(f.scout_p5_next, *next, "mute {mute} only {only}");
        let noted = if *next == 5 { [3; 32] } else { DEFAULT_PUBKEY };
        assert_eq!(f.scout_p5_offers[4], noted);
        assert_eq!(c.lines.is_empty(), mute.is_empty());
    }
}

#[test]
fn a_drawn_pair_is_never_that_of_an_offer_of_the_world() {
    let f = world(false);
    let built = [f.offer_pda, f.offer_appr_pda, f.offer_rev_pda, f.offer_fee_pda];
    for sel in 0..8u16 {
        let drawn = f.make_offer_pda_for(sel).expect("an address");
        assert!(!built.contains(&drawn), "{sel}");
    }
}

#[test]
fn advancing_time_moves_nothing_but_time_and_slot() {
    let mut f = world(false);
    f.ctx.set_sysvar(&solana_clock::Clock {
        slot: 3,
        epoch_start_timestamp: 4,
        epoch: 5,
        leader_schedule_epoch: 6,
        unix_timestamp: 7,
    });
    assert!(f.action_scout_advance_time(10));
    let clock = f.ctx.svm.get_sysvar::<solana_clock::Clock>();
    assert_eq!((clock.slot, clock.unix_timestamp), (4, 18));
    assert_eq!(
        (clock.epoch_start_timestamp, clock.epoch, clock.leader_schedule_epoch),
        (4, 5, 6)
    );
}

#[test]
fn starting_a_world_sets_the_time_and_keeps_the_rest_of_the_clock() {
    let mut ctx = fresh_context();
    ctx.set_sysvar(&solana_clock::Clock {
        slot: 3,
        epoch_start_timestamp: 4,
        epoch: 5,
        leader_schedule_epoch: 6,
        unix_timestamp: 7,
    });
    let f = OnreappFixture::setup(ctx, PROGRAM_ID, keys(), false).expect("a world");
    let clock = f.ctx.svm.get_sysvar::<solana_clock::Clock>();
    assert_eq!((clock.slot, clock.unix_timestamp), (3, 1_700_000_000));
    assert_eq!(
        (clock.epoch_start_timestamp, clock.epoch, clock.leader_schedule_epoch),
        (4, 5, 6)
    );
}

#[test]
fn rings_wrap_and_say_so() {
    let mut f = world(false);
    let mut c = monitor("", "");
    for i in 0..SCOUT_REQ_CAP + 1 {
        assert!(f.settle(Record::Request([i as u8 + 1; 32]), Some(true), &mut c));
    }
    assert_eq!(f.scout_p2_next, SCOUT_REQ_CAP + 1);
    assert_eq!(f.scout_p2_reqs[0], [SCOUT_REQ_CAP as u8 + 1; 32]);
    assert_eq!(f.scout_p2_reqs[1], [2; 32]);
}

#[test]
fn the_bounded_registry_marks_that_it_is_full() {
    let mut f = world(false);
    let mut c = monitor("", "");
    for i in 0..SCOUT_REQ_CAP {
        assert!(f.settle(Record::FeeRequest([i as u8 + 1; 32]), Some(true), &mut c));
    }
    assert_eq!(f.scout_p8_next, SCOUT_REQ_CAP);
    assert!(f.settle(Record::FeeRequest([99; 32]), Some(true), &mut c));
    assert!(f.settle(Record::FeeRequest([99; 32]), Some(true), &mut c));
    assert_eq!(f.scout_p8_next, SCOUT_REQ_CAP + 1);
    assert_eq!(f.scout_p8_reqs[0], [1; 32]);
    assert_eq!(f.scout_p8_reqs[SCOUT_REQ_CAP - 1], [32; 32]);
}
