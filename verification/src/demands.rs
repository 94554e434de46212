//! What the program demands of a call: which of its accounts it derives, and from what.

use vstd::prelude::*;

use crate::fixture::OnreappFixture;
use crate::instruction::{Call, Plan, TakeOfferAccounts};
use crate::keys::{
    pda, Pubkey, BPF_LOADER_UPGRADEABLE_ID, SEED_MINT_AUTHORITY, SEED_OFFER,
    SEED_OFFER_VAULT_AUTHORITY, SEED_PERMISSIONLESS_AUTHORITY, SEED_REDEMPTION_OFFER,
    SEED_REDEMPTION_OFFER_VAULT_AUTHORITY, SEED_STATE, SPL_TOKEN_2022_ID, SPL_TOKEN_ID,
};

verus! {

/// Whether the program derives an address from one seed.
pub open spec fn from_seed(program_id: Pubkey, seed: Seq<u8>, key: Pubkey) -> bool {
    pda(seq![seed], program_id) == Some(key)
}

/// Whether the program derives an address from a seed and two mints.
pub open spec fn from_pair(
    program_id: Pubkey,
    seed: Seq<u8>,
    token_in: Pubkey,
    token_out: Pubkey,
    key: Pubkey,
) -> bool {
    pda(seq![seed, token_in@, token_out@], program_id) == Some(key)
}

/// Whether a program is one of the two token programs.
pub open spec fn is_token_program(program: Pubkey) -> bool {
    program == SPL_TOKEN_ID || program == SPL_TOKEN_2022_ID
}

/// `Call::meets_demands` of `take_offer`.
pub open spec fn take_meets_demands(p: Pubkey, boss: Pubkey, a: TakeOfferAccounts) -> bool {
    &&& from_seed(p, SEED_STATE@, a.state)
    &&& from_seed(p, SEED_OFFER_VAULT_AUTHORITY@, a.vault_authority)
    &&& from_seed(p, SEED_MINT_AUTHORITY@, a.mint_authority)
    &&& from_pair(p, SEED_OFFER@, a.token_in_mint, a.token_out_mint, a.offer)
    &&& is_token_program(a.token_in_program)
    &&& is_token_program(a.token_out_program)
    &&& a.boss == boss
}

impl Call {
    /// Whether every account that the program derives is the one that it derives, and every actor
    /// that it knows is that actor: `p` is the program, `boss` its boss and `admin` its redemption
    /// admin.
    pub open spec fn meets_demands(self, p: Pubkey, boss: Pubkey, admin: Pubkey) -> bool {
        match self {
            Call::Initialize { accounts: a } => {
                &&& from_seed(p, SEED_STATE@, a.state)
                &&& from_seed(p, SEED_MINT_AUTHORITY@, a.mint_authority)
                &&& from_seed(p, SEED_OFFER_VAULT_AUTHORITY@, a.offer_vault_authority)
                &&& pda(seq![p@], BPF_LOADER_UPGRADEABLE_ID) == Some(a.program_data)
                &&& a.boss == boss
            },
            Call::InitializePermissionlessAuthority { name, accounts: a } => {
                &&& name@ == SEED_PERMISSIONLESS_AUTHORITY@
                &&& from_seed(p, name@, a.permissionless_authority)
                &&& from_seed(p, SEED_STATE@, a.state)
                &&& a.boss == boss
            },
            Call::OfferVaultDeposit { accounts: a, .. } => {
                &&& from_seed(p, SEED_STATE@, a.state)
                &&& from_seed(p, SEED_OFFER_VAULT_AUTHORITY@, a.vault_authority)
                &&& a.token_program == SPL_TOKEN_ID
                &&& a.boss == boss
            },
            Call::OfferVaultWithdraw { accounts: a, .. } => {
                &&& from_seed(p, SEED_STATE@, a.state)
                &&& from_seed(p, SEED_OFFER_VAULT_AUTHORITY@, a.vault_authority)
                &&& a.token_program == SPL_TOKEN_ID
                &&& a.boss == boss
            },
            Call::RedemptionVaultDeposit { accounts: a, .. } => {
                &&& from_seed(p, SEED_STATE@, a.state)
                &&& from_seed(
                    p,
                    SEED_REDEMPTION_OFFER_VAULT_AUTHORITY@,
                    a.redemption_vault_authority,
                )
                &&& a.token_program == SPL_TOKEN_ID
                &&& a.boss == boss
            },
            Call::RedemptionVaultWithdraw { accounts: a, .. } => {
                &&& from_seed(p, SEED_STATE@, a.state)
                &&& from_seed(
                    p,
                    SEED_REDEMPTION_OFFER_VAULT_AUTHORITY@,
                    a.redemption_vault_authority,
                )
                &&& a.token_program == SPL_TOKEN_ID
                &&& a.boss == boss
            },
            Call::MakeOffer { accounts: a, .. } => {
                &&& from_seed(p, SEED_STATE@, a.state)
                &&& from_seed(p, SEED_OFFER_VAULT_AUTHORITY@, a.vault_authority)
                &&& from_pair(p, SEED_OFFER@, a.token_in_mint, a.token_out_mint, a.offer)
                &&& a.token_in_program == SPL_TOKEN_ID
                &&& a.boss == boss
            },
            Call::AddOfferVector { accounts: a, .. } => {
                &&& from_seed(p, SEED_STATE@, a.state)
                &&& from_pair(p, SEED_OFFER@, a.token_in_mint, a.token_out_mint, a.offer)
                &&& a.boss == boss
            },
            Call::DeleteOfferVector { accounts: a, .. } => {
                &&& from_seed(p, SEED_STATE@, a.state)
                &&& from_pair(p, SEED_OFFER@, a.token_in_mint, a.token_out_mint, a.offer)
                &&& a.boss == boss
            },
            Call::DeleteAllOfferVectors { accounts: a } => {
                &&& from_seed(p, SEED_STATE@, a.state)
                &&& from_pair(p, SEED_OFFER@, a.token_in_mint, a.token_out_mint, a.offer)
                &&& a.boss == boss
            },
            Call::UpdateOfferFee { accounts: a, .. } => {
                &&& from_seed(p, SEED_STATE@, a.state)
                &&& from_pair(p, SEED_OFFER@, a.token_in_mint, a.token_out_mint, a.offer)
                &&& a.boss == boss
            },
            Call::TakeOffer { accounts: a, .. } => take_meets_demands(p, boss, a),
            Call::TakeOfferPermissionless { accounts: a, .. } => {
                &&& take_meets_demands(p, boss, a.take)
                &&& from_seed(p, SEED_PERMISSIONLESS_AUTHORITY@, a.permissionless_authority)
            },
            Call::ProposeBoss { accounts: a, .. } => {
                from_seed(p, SEED_STATE@, a.state) && a.boss == boss
            },
            Call::AcceptBoss { accounts: a } => from_seed(p, SEED_STATE@, a.state),
            Call::AddAdmin { accounts: a, .. } => {
                from_seed(p, SEED_STATE@, a.state) && a.boss == boss
            },
            Call::RemoveAdmin { accounts: a, .. } => {
                from_seed(p, SEED_STATE@, a.state) && a.boss == boss
            },
            Call::ClearAdmins { accounts: a } => {
                from_seed(p, SEED_STATE@, a.state) && a.boss == boss
            },
            Call::TransferMintAuthorityToProgram { accounts: a } => {
                &&& from_seed(p, SEED_STATE@, a.state)
                &&& from_seed(p, SEED_MINT_AUTHORITY@, a.mint_authority)
                &&& a.token_program == SPL_TOKEN_ID
                &&& a.boss == boss
            },
            Call::TransferMintAuthorityToBoss { accounts: a } => {
                &&& from_seed(p, SEED_STATE@, a.state)
                &&& from_seed(p, SEED_MINT_AUTHORITY@, a.mint_authority)
                &&& a.token_program == SPL_TOKEN_ID
                &&& a.boss == boss
            },
            Call::SetKillSwitch { accounts: a, .. } => from_seed(p, SEED_STATE@, a.state),
            Call::SetOnycMint { accounts: a } => {
                from_seed(p, SEED_STATE@, a.state) && a.boss == boss
            },
            Call::SetRedemptionAdmin { accounts: a, .. } => {
                from_seed(p, SEED_STATE@, a.state) && a.boss == boss
            },
            Call::MintTo { accounts: a, .. } => {
                &&& from_seed(p, SEED_STATE@, a.state)
                &&& from_seed(p, SEED_MINT_AUTHORITY@, a.mint_authority)
                &&& a.token_program == SPL_TOKEN_ID
                &&& a.boss == boss
            },
            Call::GetNav { accounts: a } => {
                from_pair(p, SEED_OFFER@, a.token_in_mint, a.token_out_mint, a.offer)
            },
            Call::GetApy { accounts: a } => {
                from_pair(p, SEED_OFFER@, a.token_in_mint, a.token_out_mint, a.offer)
            },
            Call::GetNavAdjustment { accounts: a } => {
                from_pair(p, SEED_OFFER@, a.token_in_mint, a.token_out_mint, a.offer)
            },
            Call::GetTvl { accounts: a } => {
                &&& from_pair(p, SEED_OFFER@, a.token_in_mint, a.token_out_mint, a.offer)
                &&& from_seed(p, SEED_OFFER_VAULT_AUTHORITY@, a.vault_authority)
                &&& a.token_out_program == SPL_TOKEN_ID
            },
            Call::GetCirculatingSupply { accounts: a } => {
                &&& from_seed(p, SEED_STATE@, a.state)
                &&& from_seed(p, SEED_OFFER_VAULT_AUTHORITY@, a.vault_authority)
                &&& a.token_program == SPL_TOKEN_ID
            },
            Call::AddApprover { accounts: a, .. } => {
                from_seed(p, SEED_STATE@, a.state) && a.boss == boss
            },
            Call::RemoveApprover { accounts: a, .. } => {
                from_seed(p, SEED_STATE@, a.state) && a.boss == boss
            },
            Call::ConfigureMaxSupply { accounts: a, .. } => {
                from_seed(p, SEED_STATE@, a.state) && a.boss == boss
            },
            Call::CloseState { accounts: a } => {
                from_seed(p, SEED_STATE@, a.state) && a.boss == boss
            },
            Call::MakeRedemptionOffer { accounts: a, .. } => {
                &&& from_seed(p, SEED_STATE@, a.state)
                &&& from_seed(
                    p,
                    SEED_REDEMPTION_OFFER_VAULT_AUTHORITY@,
                    a.redemption_vault_authority,
                )
                &&& from_pair(
                    p,
                    SEED_REDEMPTION_OFFER@,
                    a.token_in_mint,
                    a.token_out_mint,
                    a.redemption_offer,
                )
                // The offer that a redemption offer inverts has the mints the other way round.
                &&& from_pair(p, SEED_OFFER@, a.token_out_mint, a.token_in_mint, a.offer)
                &&& is_token_program(a.token_in_program)
                &&& is_token_program(a.token_out_program)
                &&& a.signer == boss || a.signer == admin
            },
            Call::CreateRedemptionRequest { accounts: a, .. } => {
                &&& from_seed(p, SEED_STATE@, a.state)
                &&& from_seed(
                    p,
                    SEED_REDEMPTION_OFFER_VAULT_AUTHORITY@,
                    a.redemption_vault_authority,
                )
                &&& is_token_program(a.token_program)
            },
            Call::FulfillRedemptionRequest { accounts: a } => {
                &&& from_seed(p, SEED_STATE@, a.state)
                &&& from_seed(
                    p,
                    SEED_REDEMPTION_OFFER_VAULT_AUTHORITY@,
                    a.redemption_vault_authority,
                )
                &&& from_seed(p, SEED_MINT_AUTHORITY@, a.mint_authority)
                &&& from_pair(
                    p,
                    SEED_REDEMPTION_OFFER@,
                    a.token_in_mint,
                    a.token_out_mint,
                    a.redemption_offer,
                )
                &&& from_pair(p, SEED_OFFER@, a.token_out_mint, a.token_in_mint, a.offer)
                &&& is_token_program(a.token_in_program)
                &&& is_token_program(a.token_out_program)
                &&& a.boss == boss
                &&& a.redemption_admin == admin
            },
            Call::CancelRedemptionRequest { accounts: a } => {
                &&& from_seed(p, SEED_STATE@, a.state)
                &&& from_seed(
                    p,
                    SEED_REDEMPTION_OFFER_VAULT_AUTHORITY@,
                    a.redemption_vault_authority,
                )
                &&& is_token_program(a.token_program)
                &&& a.redemption_admin == admin
                &&& a.signer == a.redeemer || a.signer == admin
            },
            Call::UpdateRedemptionOfferFee { accounts: a, .. } => {
                from_seed(p, SEED_STATE@, a.state) && a.boss == boss
            },
        }
    }
}

impl OnreappFixture {
    /// Whether what is to be sent, if anything, meets the demands of this world's program.
    pub open spec fn serves(self, plan: Option<Plan>) -> bool {
        plan is Some ==> plan->0.call.meets_demands(
            self.program_id,
            self.boss.public(),
            self.redemption_admin.public(),
        )
    }
}

} // verus!
