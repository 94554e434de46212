//! The accounts that each instruction names, given what an action is free to choose.

use vstd::prelude::*;

use crate::fixture::OnreappFixture;
use crate::instruction::{
    BossAccounts, CancelRequestAccounts, CreateRequestAccounts, FulfillRequestAccounts,
    KillSwitchAccounts, Leg, MakeOfferAccounts, MakeRedemptionOfferAccounts,
    MintAuthorityAccounts, OfferAccounts, OfferVaultAccounts, QuoteAccounts,
    RedemptionVaultAccounts, TakeOfferAccounts,
};
use crate::keys::{ata, scout_ata, Pubkey, SPL_TOKEN_ID};

verus! {

/// A mint of the SPL token program.
pub open spec fn spl_leg(mint: Pubkey) -> Leg {
    Leg { mint, program: SPL_TOKEN_ID }
}

/// A mint of the SPL token program.
pub(crate) fn spl(mint: Pubkey) -> (r: Leg)
    ensures
        r == spl_leg(mint),
{
    Leg { mint, program: SPL_TOKEN_ID }
}

impl OnreappFixture {
    /// The state and the boss.
    pub open spec fn boss_accounts(self) -> BossAccounts {
        BossAccounts {
            state: self.state_pda,
            boss: self.boss.public(),
        }
    }

    /// The state and the boss.
    pub(crate) fn boss_call(&self) -> (r: BossAccounts)
        ensures
            r == self.boss_accounts(),
    {
        let boss = self.boss.pubkey();
        BossAccounts {
            state: self.state_pda,
            boss,
        }
    }

    /// An offer between two mints.
    pub open spec fn offer_accounts(
        self,
        offer: Pubkey,
        token_in: Pubkey,
        token_out: Pubkey,
    ) -> OfferAccounts {
        OfferAccounts {
            offer,
            token_in_mint: token_in,
            token_out_mint: token_out,
            state: self.state_pda,
            boss: self.boss.public(),
        }
    }

    /// An offer between two mints.
    pub(crate) fn offer_call(
        &self,
        offer: Pubkey,
        token_in: Pubkey,
        token_out: Pubkey,
    ) -> (r: OfferAccounts)
        ensures
            r == self.offer_accounts(offer, token_in, token_out),
    {
        let boss = self.boss.pubkey();
        OfferAccounts {
            offer,
            token_in_mint: token_in,
            token_out_mint: token_out,
            state: self.state_pda,
            boss,
        }
    }

    /// The main offer.
    pub open spec fn main_offer_accounts(self) -> OfferAccounts {
        self.offer_accounts(self.offer_pda, self.mint_usdc, self.mint_onyc)
    }

    /// The main offer.
    pub(crate) fn main_offer_call(&self) -> (r: OfferAccounts)
        ensures
            r == self.main_offer_accounts(),
    {
        self.offer_call(self.offer_pda, self.mint_usdc, self.mint_onyc)
    }

    /// The main offer and its mints.
    pub open spec fn quote_accounts(self) -> QuoteAccounts {
        QuoteAccounts {
            offer: self.offer_pda,
            token_in_mint: self.mint_usdc,
            token_out_mint: self.mint_onyc,
        }
    }

    /// The main offer and its mints.
    pub(crate) fn quote_call(&self) -> (r: QuoteAccounts)
        ensures
            r == self.quote_accounts(),
    {
        QuoteAccounts {
            offer: self.offer_pda,
            token_in_mint: self.mint_usdc,
            token_out_mint: self.mint_onyc,
        }
    }

    /// A mint whose authority moves.
    pub open spec fn mint_authority_accounts(self, mint: Pubkey) -> MintAuthorityAccounts {
        MintAuthorityAccounts {
            boss: self.boss.public(),
            state: self.state_pda,
            mint,
            mint_authority: self.mint_authority_pda,
            token_program: SPL_TOKEN_ID,
        }
    }

    /// A mint whose authority moves.
    pub(crate) fn mint_authority_call(&self, mint: Pubkey) -> (r: MintAuthorityAccounts)
        ensures
            r == self.mint_authority_accounts(mint),
    {
        let boss = self.boss.pubkey();
        MintAuthorityAccounts {
            boss,
            state: self.state_pda,
            mint,
            mint_authority: self.mint_authority_pda,
            token_program: SPL_TOKEN_ID,
        }
    }

    /// The offer vault of usdc and the boss's account.
    pub open spec fn offer_vault_accounts(self) -> Option<OfferVaultAccounts> {
        match (
            ata(self.boss.public(), self.mint_usdc, SPL_TOKEN_ID),
            ata(self.offer_vault_authority, self.mint_usdc, SPL_TOKEN_ID),
        ) {
            (Some(boss_token_account), Some(vault_token_account)) => Some(
                OfferVaultAccounts {
                    vault_authority: self.offer_vault_authority,
                    token_mint: self.mint_usdc,
                    boss_token_account,
                    vault_token_account,
                    boss: self.boss.public(),
                    state: self.state_pda,
                    token_program: SPL_TOKEN_ID,
                },
            ),
            _ => None,
        }
    }

    /// The offer vault of usdc and the boss's account.
    pub(crate) fn offer_vault_call(&self) -> (r: Option<OfferVaultAccounts>)
        ensures
            r == self.offer_vault_accounts(),
    {
        let boss = self.boss.pubkey();
        let boss_token_account = scout_ata(&boss, &self.mint_usdc, &SPL_TOKEN_ID)?;
        let vault_token_account = scout_ata(
            &self.offer_vault_authority,
            &self.mint_usdc,
            &SPL_TOKEN_ID,
        )?;
        Some(OfferVaultAccounts {
            vault_authority: self.offer_vault_authority,
            token_mint: self.mint_usdc,
            boss_token_account,
            vault_token_account,
            boss,
            state: self.state_pda,
            token_program: SPL_TOKEN_ID,
        })
    }

    /// The redemption vault of a mint and the boss's account.
    pub open spec fn redemption_vault_accounts(
        self,
        mint: Pubkey,
    ) -> Option<RedemptionVaultAccounts> {
        match (
            ata(self.boss.public(), mint, SPL_TOKEN_ID),
            ata(self.redemption_vault_authority, mint, SPL_TOKEN_ID),
        ) {
            (Some(boss_token_account), Some(vault_token_account)) => Some(
                RedemptionVaultAccounts {
                    redemption_vault_authority: self.redemption_vault_authority,
                    token_mint: mint,
                    boss_token_account,
                    vault_token_account,
                    boss: self.boss.public(),
                    state: self.state_pda,
                    token_program: SPL_TOKEN_ID,
                },
            ),
            _ => None,
        }
    }

    /// The redemption vault of a mint and the boss's account.
    pub(crate) fn redemption_vault_call(&self, mint: Pubkey) -> (r: Option<RedemptionVaultAccounts>)
        ensures
            r == self.redemption_vault_accounts(mint),
    {
        let boss = self.boss.pubkey();
        let boss_token_account = scout_ata(&boss, &mint, &SPL_TOKEN_ID)?;
        let vault_token_account = scout_ata(
            &self.redemption_vault_authority,
            &mint,
            &SPL_TOKEN_ID,
        )?;
        Some(RedemptionVaultAccounts {
            redemption_vault_authority: self.redemption_vault_authority,
            token_mint: mint,
            boss_token_account,
            vault_token_account,
            boss,
            state: self.state_pda,
            token_program: SPL_TOKEN_ID,
        })
    }

    /// A new offer between two mints, the first of the SPL token program.
    pub open spec fn make_offer_accounts(
        self,
        offer: Pubkey,
        token_in: Pubkey,
        token_out: Pubkey,
    ) -> Option<MakeOfferAccounts> {
        match ata(self.offer_vault_authority, token_in, SPL_TOKEN_ID) {
            Some(vault_token_in_account) => Some(
                MakeOfferAccounts {
                    vault_authority: self.offer_vault_authority,
                    token_in_mint: token_in,
                    token_in_program: SPL_TOKEN_ID,
                    vault_token_in_account,
                    token_out_mint: token_out,
                    offer,
                    state: self.state_pda,
                    boss: self.boss.public(),
                },
            ),
            None => None,
        }
    }

    /// A new offer between two mints, the first of the SPL token program.
    pub(crate) fn make_offer_call(
        &self,
        offer: Pubkey,
        token_in: Pubkey,
        token_out: Pubkey,
    ) -> (r: Option<MakeOfferAccounts>)
        ensures
            r == self.make_offer_accounts(offer, token_in, token_out),
    {
        let boss = self.boss.pubkey();
        let vault_token_in_account = scout_ata(
            &self.offer_vault_authority,
            &token_in,
            &SPL_TOKEN_ID,
        )?;
        Some(MakeOfferAccounts {
            vault_authority: self.offer_vault_authority,
            token_in_mint: token_in,
            token_in_program: SPL_TOKEN_ID,
            vault_token_in_account,
            token_out_mint: token_out,
            offer,
            state: self.state_pda,
            boss,
        })
    }

    /// An offer, the user that takes it, and its two legs.
    pub open spec fn take_accounts(
        self,
        offer: Pubkey,
        user: Pubkey,
        token_in: Leg,
        token_out: Leg,
    ) -> Option<TakeOfferAccounts> {
        match (
            ata(self.offer_vault_authority, token_in.mint, token_in.program),
            ata(self.offer_vault_authority, token_out.mint, token_out.program),
            ata(user, token_in.mint, token_in.program),
            ata(user, token_out.mint, token_out.program),
            ata(self.boss.public(), token_in.mint, token_in.program),
        ) {
            (Some(vault_in), Some(vault_out), Some(user_in), Some(user_out), Some(boss_in)) => Some(
                TakeOfferAccounts {
                    offer,
                    state: self.state_pda,
                    boss: self.boss.public(),
                    vault_authority: self.offer_vault_authority,
                    vault_token_in_account: vault_in,
                    vault_token_out_account: vault_out,
                    token_in_mint: token_in.mint,
                    token_in_program: token_in.program,
                    token_out_mint: token_out.mint,
                    token_out_program: token_out.program,
                    user_token_in_account: user_in,
                    user_token_out_account: user_out,
                    boss_token_in_account: boss_in,
                    mint_authority: self.mint_authority_pda,
                    user,
                },
            ),
            _ => None,
        }
    }

    /// An offer, the user that takes it, and its two legs.
    pub(crate) fn take_call(
        &self,
        offer: Pubkey,
        user: Pubkey,
        token_in: Leg,
        token_out: Leg,
    ) -> (r: Option<TakeOfferAccounts>)
        ensures
            r == self.take_accounts(offer, user, token_in, token_out),
    {
        let boss = self.boss.pubkey();
        let vault_in = scout_ata(&self.offer_vault_authority, &token_in.mint, &token_in.program)?;
        let vault_out = scout_ata(
            &self.offer_vault_authority,
            &token_out.mint,
            &token_out.program,
        )?;
        let user_in = scout_ata(&user, &token_in.mint, &token_in.program)?;
        let user_out = scout_ata(&user, &token_out.mint, &token_out.program)?;
        let boss_in = scout_ata(&boss, &token_in.mint, &token_in.program)?;
        Some(TakeOfferAccounts {
            offer,
            state: self.state_pda,
            boss,
            vault_authority: self.offer_vault_authority,
            vault_token_in_account: vault_in,
            vault_token_out_account: vault_out,
            token_in_mint: token_in.mint,
            token_in_program: token_in.program,
            token_out_mint: token_out.mint,
            token_out_program: token_out.program,
            user_token_in_account: user_in,
            user_token_out_account: user_out,
            boss_token_in_account: boss_in,
            mint_authority: self.mint_authority_pda,
            user,
        })
    }

    /// A new redemption offer, the offer it inverts, and its two legs.
    pub open spec fn make_redemption_offer_accounts(
        self,
        offer: Pubkey,
        redemption_offer: Pubkey,
        token_in: Leg,
        token_out: Leg,
        signer: Pubkey,
    ) -> Option<MakeRedemptionOfferAccounts> {
        match (
            ata(self.redemption_vault_authority, token_in.mint, token_in.program),
            ata(self.redemption_vault_authority, token_out.mint, token_out.program),
        ) {
            (Some(vault_in), Some(vault_out)) => Some(
                MakeRedemptionOfferAccounts {
                    state: self.state_pda,
                    offer,
                    redemption_vault_authority: self.redemption_vault_authority,
                    token_in_mint: token_in.mint,
                    token_in_program: token_in.program,
                    vault_token_in_account: vault_in,
                    token_out_mint: token_out.mint,
                    token_out_program: token_out.program,
                    vault_token_out_account: vault_out,
                    redemption_offer,
                    signer,
                },
            ),
            _ => None,
        }
    }

    /// A new redemption offer, the offer it inverts, and its two legs.
    pub(crate) fn make_redemption_offer_call(
        &self,
        offer: Pubkey,
        redemption_offer: Pubkey,
        token_in: Leg,
        token_out: Leg,
        signer: Pubkey,
    ) -> (r: Option<MakeRedemptionOfferAccounts>)
        ensures
            r == self.make_redemption_offer_accounts(
                offer,
                redemption_offer,
                token_in,
                token_out,
                signer,
            ),
    {
        let vault_in = scout_ata(
            &self.redemption_vault_authority,
            &token_in.mint,
            &token_in.program,
        )?;
        let vault_out = scout_ata(
            &self.redemption_vault_authority,
            &token_out.mint,
            &token_out.program,
        )?;
        Some(MakeRedemptionOfferAccounts {
            state: self.state_pda,
            offer,
            redemption_vault_authority: self.redemption_vault_authority,
            token_in_mint: token_in.mint,
            token_in_program: token_in.program,
            vault_token_in_account: vault_in,
            token_out_mint: token_out.mint,
            token_out_program: token_out.program,
            vault_token_out_account: vault_out,
            redemption_offer,
            signer,
        })
    }

    /// A redemption offer, the request to open, its redeemer and what it locks.
    pub open spec fn create_request_accounts(
        self,
        ro: Pubkey,
        request: Pubkey,
        redeemer: Pubkey,
        token_in: Leg,
    ) -> Option<CreateRequestAccounts> {
        match (
            ata(redeemer, token_in.mint, token_in.program),
            ata(self.redemption_vault_authority, token_in.mint, token_in.program),
        ) {
            (Some(redeemer_account), Some(vault_account)) => Some(
                CreateRequestAccounts {
                    state: self.state_pda,
                    redemption_offer: ro,
                    redemption_request: request,
                    redeemer,
                    redemption_vault_authority: self.redemption_vault_authority,
                    token_in_mint: token_in.mint,
                    redeemer_token_account: redeemer_account,
                    vault_token_account: vault_account,
                    token_program: token_in.program,
                },
            ),
            _ => None,
        }
    }

    /// A redemption offer, the request to open, its redeemer and what it locks.
    pub(crate) fn create_request_call(
        &self,
        ro: Pubkey,
        request: Pubkey,
        redeemer: Pubkey,
        token_in: Leg,
    ) -> (r: Option<CreateRequestAccounts>)
        ensures
            r == self.create_request_accounts(ro, request, redeemer, token_in),
    {
        let redeemer_account = scout_ata(&redeemer, &token_in.mint, &token_in.program)?;
        let vault_account = scout_ata(
            &self.redemption_vault_authority,
            &token_in.mint,
            &token_in.program,
        )?;
        Some(CreateRequestAccounts {
            state: self.state_pda,
            redemption_offer: ro,
            redemption_request: request,
            redeemer,
            redemption_vault_authority: self.redemption_vault_authority,
            token_in_mint: token_in.mint,
            redeemer_token_account: redeemer_account,
            vault_token_account: vault_account,
            token_program: token_in.program,
        })
    }

    /// An offer and its redemption offer, the request to fulfil, its redeemer and the legs.
    pub open spec fn fulfill_accounts(
        self,
        offer: Pubkey,
        ro: Pubkey,
        request: Pubkey,
        redeemer: Pubkey,
        token_in: Leg,
        token_out: Leg,
    ) -> Option<FulfillRequestAccounts> {
        match (
            ata(self.redemption_vault_authority, token_in.mint, token_in.program),
            ata(self.redemption_vault_authority, token_out.mint, token_out.program),
            ata(redeemer, token_out.mint, token_out.program),
            ata(self.boss.public(), token_in.mint, token_in.program),
        ) {
            (Some(vault_in), Some(vault_out), Some(user_out), Some(boss_in)) => Some(
                FulfillRequestAccounts {
                    state: self.state_pda,
                    boss: self.boss.public(),
                    offer,
                    redemption_offer: ro,
                    redemption_request: request,
                    redemption_vault_authority: self.redemption_vault_authority,
                    vault_token_in_account: vault_in,
                    vault_token_out_account: vault_out,
                    token_in_mint: token_in.mint,
                    token_in_program: token_in.program,
                    token_out_mint: token_out.mint,
                    token_out_program: token_out.program,
                    user_token_out_account: user_out,
                    boss_token_in_account: boss_in,
                    mint_authority: self.mint_authority_pda,
                    redeemer,
                    redemption_admin: self.redemption_admin.public(),
                },
            ),
            _ => None,
        }
    }

    /// An offer and its redemption offer, the request to fulfil, its redeemer and the legs.
    pub(crate) fn fulfill_call(
        &self,
        offer: Pubkey,
        ro: Pubkey,
        request: Pubkey,
        redeemer: Pubkey,
        token_in: Leg,
        token_out: Leg,
    ) -> (r: Option<FulfillRequestAccounts>)
        ensures
            r == self.fulfill_accounts(offer, ro, request, redeemer, token_in, token_out),
    {
        let boss = self.boss.pubkey();
        let vault_in = scout_ata(
            &self.redemption_vault_authority,
            &token_in.mint,
            &token_in.program,
        )?;
        let vault_out = scout_ata(
            &self.redemption_vault_authority,
            &token_out.mint,
            &token_out.program,
        )?;
        let user_out = scout_ata(&redeemer, &token_out.mint, &token_out.program)?;
        let boss_in = scout_ata(&boss, &token_in.mint, &token_in.program)?;
        Some(FulfillRequestAccounts {
            state: self.state_pda,
            boss,
            offer,
            redemption_offer: ro,
            redemption_request: request,
            redemption_vault_authority: self.redemption_vault_authority,
            vault_token_in_account: vault_in,
            vault_token_out_account: vault_out,
            token_in_mint: token_in.mint,
            token_in_program: token_in.program,
            token_out_mint: token_out.mint,
            token_out_program: token_out.program,
            user_token_out_account: user_out,
            boss_token_in_account: boss_in,
            mint_authority: self.mint_authority_pda,
            redeemer,
            redemption_admin: self.redemption_admin.pubkey(),
        })
    }

    /// A redemption offer, the request to cancel, who cancels it and what it locked.
    pub open spec fn cancel_accounts(
        self,
        ro: Pubkey,
        request: Pubkey,
        signer: Pubkey,
        redeemer: Pubkey,
        token_in: Leg,
    ) -> Option<CancelRequestAccounts> {
        match (
            ata(self.redemption_vault_authority, token_in.mint, token_in.program),
            ata(redeemer, token_in.mint, token_in.program),
        ) {
            (Some(vault_account), Some(redeemer_account)) => Some(
                CancelRequestAccounts {
                    state: self.state_pda,
                    redemption_offer: ro,
                    redemption_request: request,
                    signer,
                    redeemer,
                    redemption_admin: self.redemption_admin.public(),
                    redemption_vault_authority: self.redemption_vault_authority,
                    token_in_mint: token_in.mint,
                    vault_token_account: vault_account,
                    redeemer_token_account: redeemer_account,
                    token_program: token_in.program,
                },
            ),
            _ => None,
        }
    }

    /// A redemption offer, the request to cancel, who cancels it and what it locked.
    pub(crate) fn cancel_call(
        &self,
        ro: Pubkey,
        request: Pubkey,
        signer: Pubkey,
        redeemer: Pubkey,
        token_in: Leg,
    ) -> (r: Option<CancelRequestAccounts>)
        ensures
            r == self.cancel_accounts(ro, request, signer, redeemer, token_in),
    {
        let vault_account = scout_ata(
            &self.redemption_vault_authority,
            &token_in.mint,
            &token_in.program,
        )?;
        let redeemer_account = scout_ata(&redeemer, &token_in.mint, &token_in.program)?;
        Some(CancelRequestAccounts {
            state: self.state_pda,
            redemption_offer: ro,
            redemption_request: request,
            signer,
            redeemer,
            redemption_admin: self.redemption_admin.pubkey(),
            redemption_vault_authority: self.redemption_vault_authority,
            token_in_mint: token_in.mint,
            vault_token_account: vault_account,
            redeemer_token_account: redeemer_account,
            token_program: token_in.program,
        })
    }

    /// The state, and who flips its kill switch.
    pub open spec fn kill_switch_accounts(self, signer: Pubkey) -> KillSwitchAccounts {
        KillSwitchAccounts { state: self.state_pda, signer }
    }

    /// The state, and who flips its kill switch.
    pub(crate) fn kill_switch_call(&self, signer: Pubkey) -> (r: KillSwitchAccounts)
        ensures
            r == self.kill_switch_accounts(signer),
    {
        KillSwitchAccounts { state: self.state_pda, signer }
    }
}

} // verus!
