//! The properties, on accounts written for the purpose.

use crucible_test_context::AccountBuilderBase;
use onreapp_fuzz::check::{Monitor, Settings};
use onreapp_fuzz::context::fresh_context;
use onreapp_fuzz::fixture::{OnreappFixture, SCOUT_OFFER_CAP, SCOUT_REQ_CAP};
use onreapp_fuzz::invariants::{
    invariant_p_0002, invariant_p_0003, invariant_p_0004, invariant_p_0005, invariant_p_0006,
    invariant_p_0008, invariant_test, Places,
};
use onreapp_fuzz::keys::{key_to_string, Keypair, Pubkey};
use onreapp_fuzz::setup::Keys;

const PROGRAM_ID: Pubkey = [77u8; 32];
const PLACE: &str = "tests/invariants.rs:1";
const PLACES: Places<'static> = Places {
    p_0002: "here:2",
    p_0003: "here:3",
    p_0004: "here:4",
    p_0005: "here:5",
    p_0006: "here:6",
    p_0008: "here:8",
};

fn world() -> OnreappFixture {
    let keys = Keys {
        payer: Keypair { secret: [1; 32] },
        user_a: Keypair { secret: [2; 32] },
        user_b: Keypair { secret: [3; 32] },
        redemption_admin: Keypair { secret: [4; 32] },
        approver: Keypair { secret: [5; 32] },
        mint_usdc: [101; 32],
        mint_onyc: [102; 32],
        mint_play: [103; 32],
        mint_appr: [104; 32],
        mint_fee: [105; 32],
    };
    OnreappFixture::setup(fresh_context(), PROGRAM_ID, keys, false).expect("a world")
}

fn put(f: &mut OnreappFixture, key: &Pubkey, data: &[u8]) {
    f.ctx
        .create_account()
        .pubkey(solana_pubkey::Pubkey::new_from_array(*key))
        .lamports(10_000_000)
        .owner(solana_pubkey::Pubkey::new_from_array(PROGRAM_ID))
        .data(data)
        .create()
        .expect("an account");
}

fn put_token(f: &mut OnreappFixture, key: &Pubkey, amount: u64) {
    let mut data = vec![0u8; 165];
    data[64..72].copy_from_slice(&amount.to_le_bytes());
    put(f, key, &data);
}

fn request(offer: &Pubkey, amount: u64) -> Vec<u8> {
    let mut data = vec![0u8; 88];
    data[0] = 1;
    data[8..40].copy_from_slice(offer);
    data[80..88].copy_from_slice(&amount.to_le_bytes());
    data
}

fn closed(mut data: Vec<u8>) -> Vec<u8> {
    data[..8].copy_from_slice(&[255u8; 8]);
    data
}

fn enforcing() -> Monitor {
    Monitor::new(Settings { mode: None, mute: None, only: None, run: None })
}

fn run(f: &OnreappFixture, property: fn(&OnreappFixture, &mut Monitor, &str)) -> Vec<String> {
    let mut monitor = enforcing();
    property(f, &mut monitor, PLACE);
    monitor.violations.iter().map(|v| v.text().to_string()).collect()
}

#[test]
fn a_covered_vault_holds() {
    let mut f = world();
    let (offer, vault) = (f.redemption_offer_pda, f.redemption_vault_onyc);
    f.scout_p2_reqs[0] = [201; 32];
    f.scout_p2_next = 1;
    put(&mut f, &[201; 32], &request(&offer, 500));
    put_token(&mut f, &vault, 500);
    assert!(run(&f, invariant_p_0002).is_empty());
}

#[test]
fn a_drained_vault_is_reported() {
    let mut f = world();
    let (offer, vault) = (f.redemption_offer_pda, f.redemption_vault_onyc);
    f.scout_p2_reqs[0] = [201; 32];
    f.scout_p2_reqs[1] = [202; 32];
    f.scout_p2_next = 2;
    put(&mut f, &[201; 32], &request(&offer, 500));
    put(&mut f, &[202; 32], &request(&offer, 70));
    put_token(&mut f, &vault, 569);
    assert_eq!(
        run(&f, invariant_p_0002),
        vec![format!(
            "P-0002: redemption vault {} holds 569 ONyc but open redemption requests have 570 locked \
             in it (shortfall 1). Those requests can now be neither fulfilled nor cancelled - both \
             paths transfer out of this account.",
            key_to_string(&vault)
        )]
    );
}

#[test]
fn closed_missing_and_short_requests_lock_nothing() {
    let mut f = world();
    let (offer, vault) = (f.redemption_offer_pda, f.redemption_vault_onyc);
    f.scout_p2_reqs[0] = [201; 32];
    f.scout_p2_reqs[1] = [202; 32];
    f.scout_p2_reqs[2] = [203; 32];
    f.scout_p2_next = 3;
    put(&mut f, &[201; 32], &closed(request(&offer, 500)));
    put(&mut f, &[202; 32], &request(&offer, 500)[..87]);
    put_token(&mut f, &vault, 0);
    assert!(run(&f, invariant_p_0002).is_empty());
}

#[test]
fn a_wrapped_registry_or_an_unreadable_vault_says_nothing() {
    let mut f = world();
    let (offer, vault) = (f.redemption_offer_pda, f.redemption_vault_onyc);
    f.scout_p2_reqs[0] = [201; 32];
    f.scout_p2_next = 1;
    put(&mut f, &[201; 32], &request(&offer, 500));
    assert!(run(&f, invariant_p_0002).is_empty());
    put(&mut f, &vault, &[0u8; 71]);
    assert!(run(&f, invariant_p_0002).is_empty());
    put_token(&mut f, &vault, 0);
    assert_eq!(run(&f, invariant_p_0002).len(), 1);
    f.scout_p2_next = SCOUT_REQ_CAP;
    assert_eq!(run(&f, invariant_p_0002).len(), 1);
    f.scout_p2_next = SCOUT_REQ_CAP + 1;
    assert!(run(&f, invariant_p_0002).is_empty());
}

#[test]
fn locked_amounts_stop_at_the_largest_word() {
    let mut f = world();
    let (offer, vault) = (f.redemption_offer_pda, f.redemption_vault_onyc);
    f.scout_p2_reqs[0] = [201; 32];
    f.scout_p2_reqs[1] = [202; 32];
    f.scout_p2_next = 2;
    put(&mut f, &[201; 32], &request(&offer, u64::MAX));
    put(&mut f, &[202; 32], &request(&offer, 1));
    put_token(&mut f, &vault, u64::MAX);
    assert!(run(&f, invariant_p_0002).is_empty());
}

fn put_aggregate(f: &mut OnreappFixture, recorded: u128) {
    let ro = f.redemption_offer_pda;
    let mut data = vec![0u8; 146];
    data[120..136].copy_from_slice(&recorded.to_le_bytes());
    put(f, &ro, &data);
}

#[test]
fn the_aggregate_is_compared_with_the_requests_that_name_it() {
    let mut f = world();
    let ro = f.redemption_offer_pda;
    f.scout_p3_reqs[0] = [201; 32];
    f.scout_p3_reqs[1] = [202; 32];
    f.scout_p3_reqs[2] = [201; 32];
    f.scout_p3_reqs[3] = [203; 32];
    f.scout_p3_next = 4;
    put(&mut f, &[201; 32], &request(&ro, u64::MAX));
    put(&mut f, &[202; 32], &request(&ro, 5));
    put(&mut f, &[203; 32], &request(&[9; 32], 1_000));
    assert!(run(&f, invariant_p_0003).is_empty());
    put_aggregate(&mut f, u64::MAX as u128 + 5);
    assert!(run(&f, invariant_p_0003).is_empty());
    put(&mut f, &[202; 32], &closed(request(&ro, 5)));
    assert_eq!(
        run(&f, invariant_p_0003),
        vec![format!(
            "P-0003: redemption offer {} records requested_redemptions=18446744073709551620 but the \
             requests that still exist and name it sum to 18446744073709551615.",
            key_to_string(&ro)
        )]
    );
    f.scout_p3_next = SCOUT_REQ_CAP + 1;
    assert!(run(&f, invariant_p_0003).is_empty());
}

fn put_state(f: &mut OnreappFixture, mint: &Pubkey, cap: u64) {
    let state = f.state_pda;
    let mut data = vec![0u8; 818];
    data[73..105].copy_from_slice(mint);
    data[810..818].copy_from_slice(&cap.to_le_bytes());
    put(f, &state, &data);
}

#[test]
fn the_supply_stays_within_its_cap() {
    let mut f = world();
    let onyc = f.mint_onyc;
    assert!(run(&f, invariant_p_0004).is_empty());
    put_state(&mut f, &onyc, 0);
    assert!(run(&f, invariant_p_0004).is_empty());
    put_state(&mut f, &onyc, 200_000_000_000);
    assert!(run(&f, invariant_p_0004).is_empty());
    put_state(&mut f, &onyc, 199_999_999_990);
    assert_eq!(
        run(&f, invariant_p_0004),
        vec![format!(
            "P-0004: mint {} has supply 200000000000 but state.max_supply is 199999999990 (over by \
             10). The cap is enforced by mint_to and take_offer, which pass state.max_supply to \
             mint_tokens, but fulfill_redemption_request passes a hard-coded 0.",
            key_to_string(&onyc)
        )]
    );
    put_state(&mut f, &[9; 32], 1);
    assert!(run(&f, invariant_p_0004).is_empty());
}

fn offer(token_in: &Pubkey, token_out: &Pubkey, fee: u16) -> Vec<u8> {
    let mut data = vec![0u8; 608];
    data[8..40].copy_from_slice(token_in);
    data[40..72].copy_from_slice(token_out);
    data[472..474].copy_from_slice(&fee.to_le_bytes());
    data
}

#[test]
fn an_offer_of_a_mint_for_itself_is_reported() {
    let mut f = world();
    let (first, second) = (f.offer_pda, f.offer_rev_pda);
    put(&mut f, &first, &offer(&[1; 32], &[2; 32], 100));
    assert!(run(&f, invariant_p_0005).is_empty());
    put(&mut f, &second, &offer(&[3; 32], &[3; 32], 100));
    assert_eq!(
        run(&f, invariant_p_0005),
        vec![format!(
            "P-0005: offer {} exchanges mint {} for itself. Its taker receives token_in_net * 1e9 / \
             price of the same token they paid, so any price below 1.0 mints value from nothing and \
             any price above 1.0 destroys the taker's.",
            key_to_string(&second),
            key_to_string(&[3; 32])
        )]
    );
    f.scout_p5_next = SCOUT_OFFER_CAP + 1;
    assert!(run(&f, invariant_p_0005).is_empty());
}

#[test]
fn a_fee_above_the_ceiling_is_reported_for_each_offer() {
    let mut f = world();
    let (first, second) = (f.offer_pda, f.offer_rev_pda);
    put(&mut f, &first, &offer(&[1; 32], &[2; 32], 1000));
    assert!(run(&f, invariant_p_0006).is_empty());
    put(&mut f, &first, &offer(&[1; 32], &[2; 32], 1001));
    put(&mut f, &second, &offer(&[1; 32], &[2; 32], 9999));
    let found = run(&f, invariant_p_0006);
    assert_eq!(found.len(), 2);
    assert_eq!(
        found[0],
        format!(
            "P-0006: offer {} has fee_basis_points 1001 which exceeds MAX_ALLOWED_FEE_BPS (1000). \
             make_offer, make_redemption_offer and update_redemption_offer_fee all enforce that \
             ceiling; update_offer_fee bounds against MAX_BASIS_POINTS (10000) instead.",
            key_to_string(&first)
        )
    );
    put(&mut f, &first, &offer(&[1; 32], &[2; 32], 1001)[..473]);
    assert_eq!(run(&f, invariant_p_0006).len(), 1);
}

#[test]
fn the_fee_vault_must_cover_the_claims_against_its_offer() {
    let mut f = world();
    let (ro, vault, mint) = (f.redemption_offer_fee_pda, f.redemption_vault_fee_ata, f.mint_fee);
    f.scout_p8_reqs[0] = [201; 32];
    f.scout_p8_reqs[1] = [201; 32];
    f.scout_p8_reqs[2] = [202; 32];
    f.scout_p8_next = 3;
    put(&mut f, &[201; 32], &request(&ro, 100));
    put(&mut f, &[202; 32], &request(&[9; 32], 100));
    assert!(run(&f, invariant_p_0008).is_empty());
    put_token(&mut f, &vault, 100);
    assert!(run(&f, invariant_p_0008).is_empty());
    put_token(&mut f, &vault, 99);
    assert_eq!(
        run(&f, invariant_p_0008),
        vec![format!(
            "P-0008: the redemption vault {} for the transfer-fee mint {} holds 99 but open \
             redemption requests have 100 locked against it (shortfall 1). token_in charges a \
             transfer fee, so each deposit arrived short of the amount the program recorded; \
             `has_transfer_fee` is consulted only on the offer path (token_utils.rs:374,378) and \
             nowhere on the redemption path. No privileged signer participates.",
            key_to_string(&vault),
            key_to_string(&mint)
        )]
    );
    put(&mut f, &[201; 32], &closed(request(&ro, 100)));
    assert!(run(&f, invariant_p_0008).is_empty());
}

#[test]
fn a_test_plays_every_selected_property_in_order() {
    let mut f = world();
    let (first, ro) = (f.offer_pda, f.redemption_offer_pda);
    put(&mut f, &first, &offer(&[3; 32], &[3; 32], 2_000));
    let mut data = vec![0u8; 146];
    data[120] = 1;
    put(&mut f, &ro, &data);
    let mut monitor = enforcing();
    invariant_test(&f, &mut monitor, &PLACES);
    let heads: Vec<&str> = monitor.violations.iter().map(|v| &v.text()[..6]).collect();
    assert_eq!(heads, vec!["P-0003", "P-0005", "P-0006"]);

    let mut monitor = Monitor::new(Settings {
        mode: None,
        mute: Some("P-0003,P-0006".to_string()),
        only: None,
        run: None,
    });
    invariant_test(&f, &mut monitor, &PLACES);
    assert_eq!(monitor.violations.len(), 1);
    assert_eq!(monitor.lines, vec!["[SCOUT_CHECK_MUTED] P-0003,P-0006".to_string()]);
}

#[test]
fn an_observing_test_says_what_it_evaluated() {
    let mut f = world();
    let first = f.offer_pda;
    put(&mut f, &first, &offer(&[3; 32], &[3; 32], 100));
    let mut monitor = Monitor::new(Settings {
        mode: Some("observe".to_string()),
        mute: None,
        only: Some("P-0005".to_string()),
        run: Some("n1".to_string()),
    });
    invariant_test(&f, &mut monitor, &PLACES);
    assert_eq!(
        monitor.lines,
        vec![
            "[SCOUT_CHECK_SESSION] n1".to_string(),
            "[SCOUT_CHECK_EVALUATED] n1 P-0005 offer-legs-are-distinct-mints here:5".to_string(),
            "[SCOUT_CHECK_WOULD_VIOLATE] n1 P-0005 offer-legs-are-distinct-mints here:5"
                .to_string(),
        ]
    );
    assert!(monitor.violations.is_empty());
}

#[test]
fn every_check_says_where_it_stands() {
    let mut f = world();
    let (offer_key, ro) = (f.offer_pda, f.redemption_offer_pda);
    put(&mut f, &offer_key, &offer(&[3; 32], &[4; 32], 100));
    put(&mut f, &ro, &[0u8; 146]);
    let (state, mint) = (f.state_pda, f.mint_onyc);
    let mut data = vec![0u8; 818];
    data[73..105].copy_from_slice(&mint);
    data[810..818].copy_from_slice(&u64::MAX.to_le_bytes());
    put(&mut f, &state, &data);
    let (vault, fee_vault) = (f.redemption_vault_onyc, f.redemption_vault_fee_ata);
    f.scout_p2_reqs[0] = [201; 32];
    f.scout_p2_next = 1;
    put(&mut f, &[201; 32], &request(&[9; 32], 5));
    put_token(&mut f, &vault, 5);
    put_token(&mut f, &fee_vault, 0);
    let mut monitor = Monitor::new(Settings {
        mode: Some("observe".to_string()),
        mute: None,
        only: None,
        run: Some("n1".to_string()),
    });
    assert!(invariant_test(&f, &mut monitor, &PLACES).is_some());
    let ends: Vec<&str> = monitor.lines[1..].iter().map(|line| &line[line.len() - 6..]).collect();
    assert_eq!(ends, vec!["here:2", "here:3", "here:4", "here:5", "here:6", "here:8"]);
}
