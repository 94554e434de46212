//! The actions that each play one instruction of the program against the live world.
//!
//! An action decides what to send: the instruction, its accounts, who signs it, and what to note
//! once it has succeeded. Where an address cannot be derived there is nothing to send.

use vstd::prelude::*;

use crate::accounts::{spl, spl_leg};
use crate::fixture::{offer_key, redemption_offer_key, OnreappFixture};
use crate::instruction::{
    AcceptBossAccounts, Call, CirculatingSupplyAccounts, InitializeAccounts, MintToAccounts,
    OfferVector, OnycMintAccounts, PermissionlessAuthorityAccounts, PermissionlessTakeAccounts,
    Plan, Record, RedemptionFeeAccounts, Signers, TvlAccounts,
};
use crate::keys::{
    ata, pda, scout_ata, scout_pda, seed_bytes, Keypair, Pubkey, BPF_LOADER_UPGRADEABLE_ID,
    SEED_PERMISSIONLESS_AUTHORITY, SPL_TOKEN_ID,
};

verus! {

/// A call that one key pair signs, with nothing to note.
pub open spec fn signed_by(call: Call, signer: Keypair) -> Plan {
    Plan { call, signers: Signers { first: signer, second: None }, record: Record::Nothing }
}

/// A call that one key pair signs, with nothing to note.
pub(crate) fn sign(call: Call, signer: Keypair) -> (r: Plan)
    ensures
        r == signed_by(call, signer),
{
    Plan { call, signers: Signers { first: signer, second: None }, record: Record::Nothing }
}

/// A call that two key pairs sign, with nothing to note.
pub open spec fn signed_by_both(call: Call, first: Keypair, second: Keypair) -> Plan {
    Plan { call, signers: Signers { first, second: Some(second) }, record: Record::Nothing }
}

/// A call that two key pairs sign, with nothing to note.
pub(crate) fn sign_both(call: Call, first: Keypair, second: Keypair) -> (r: Plan)
    ensures
        r == signed_by_both(call, first, second),
{
    Plan { call, signers: Signers { first, second: Some(second) }, record: Record::Nothing }
}

/// Whether what is to be sent, if anything, can be accepted at all.
pub open spec fn sound(plan: Option<Plan>) -> bool {
    plan is Some ==> plan->0.is_sound()
}

/// The account that holds a program's code and its upgrade authority.
pub open spec fn program_data_key(program_id: Pubkey) -> Option<Pubkey> {
    pda(seq![program_id@], BPF_LOADER_UPGRADEABLE_ID)
}

/// The account that holds a program's code and its upgrade authority.
pub(crate) fn program_data_pda(program_id: &Pubkey) -> (r: Option<Pubkey>)
    ensures
        r == program_data_key(*program_id),
{
    let seeds: [&[u8]; 1] = [program_id];
    assert(seed_bytes(seeds@) =~= seq![program_id@]);
    scout_pda(&seeds, &BPF_LOADER_UPGRADEABLE_ID)
}

impl OnreappFixture {
    /// `initialize`.
    pub open spec fn initialize_plan(self, signer: Keypair) -> Option<Plan> {
        match program_data_key(self.program_id) {
            Some(program_data) => Some(
                signed_by(
                    Call::Initialize {
                        accounts: InitializeAccounts {
                            state: self.state_pda,
                            mint_authority: self.mint_authority_pda,
                            offer_vault_authority: self.offer_vault_authority,
                            boss: self.boss.public(),
                            program_data,
                            onyc_mint: self.mint_onyc,
                        },
                    },
                    signer,
                ),
            ),
            None => None,
        }
    }

    /// `initialize`.
    pub(crate) fn initialize(&self, signer: Keypair) -> (r: Option<Plan>)
        ensures
            r == self.initialize_plan(signer),
            self.wf() ==> self.serves(r),
    {
        let program_data = program_data_pda(&self.program_id)?;
        let accounts = InitializeAccounts {
            state: self.state_pda,
            mint_authority: self.mint_authority_pda,
            offer_vault_authority: self.offer_vault_authority,
            boss: self.boss.pubkey(),
            program_data,
            onyc_mint: self.mint_onyc,
        };
        Some(sign(Call::Initialize { accounts }, signer))
    }

    /// What `action_initialize` sends.
    pub open spec fn reinitialize_plan(self) -> Option<Plan> {
        if self.admin_actions {
            self.initialize_plan(self.payer)
        } else {
            None
        }
    }

    /// `initialize`, a second time.
    /// Enabled only where the world may be reconfigured.
    pub fn action_initialize(&self) -> (r: Option<Plan>)
        ensures
            r == self.reinitialize_plan(),
            self.wf() ==> self.serves(r),
            self.wf() ==> sound(r),
    {
        if !self.admin_actions {
            return None;
        }
        self.initialize(self.payer)
    }

    /// What `action_initialize_permissionless_authority` sends.
    pub open spec fn initialize_permissionless_authority_plan(self) -> Option<Plan> {
        if self.admin_actions {
            Some(
                signed_by(
                    Call::InitializePermissionlessAuthority {
                        name: SEED_PERMISSIONLESS_AUTHORITY,
                        accounts: PermissionlessAuthorityAccounts {
                            permissionless_authority: self.permissionless_authority,
                            state: self.state_pda,
                            boss: self.boss.public(),
                        },
                    },
                    self.payer,
                ),
            )
        } else {
            None
        }
    }

    /// `initialize_permissionless_authority`.
    /// Enabled only where the world may be reconfigured.
    pub fn action_initialize_permissionless_authority(&self) -> (r: Option<Plan>)
        ensures
            r == self.initialize_permissionless_authority_plan(),
            self.wf() ==> self.serves(r),
            self.wf() ==> sound(r),
    {
        if !self.admin_actions {
            return None;
        }
        Some(
            sign(
                Call::InitializePermissionlessAuthority {
                    name: SEED_PERMISSIONLESS_AUTHORITY,
                    accounts: PermissionlessAuthorityAccounts {
                        permissionless_authority: self.permissionless_authority,
                        state: self.state_pda,
                        boss: self.boss.pubkey(),
                    },
                },
                self.payer,
            ),
        )
    }

    /// What `action_offer_vault_deposit` sends.
    pub open spec fn offer_vault_deposit_plan(self, amount: u64) -> Option<Plan> {
        match self.offer_vault_accounts() {
            Some(accounts) => Some(
                signed_by(Call::OfferVaultDeposit { amount, accounts }, self.payer),
            ),
            None => None,
        }
    }

    /// `offer_vault_deposit`, on the usdc vault.
    pub fn action_offer_vault_deposit(&self, amount: u64) -> (r: Option<Plan>)
        ensures
            r == self.offer_vault_deposit_plan(amount),
            self.wf() ==> self.serves(r),
            self.wf() ==> sound(r),
    {
        let accounts = self.offer_vault_call()?;
        Some(sign(Call::OfferVaultDeposit { amount, accounts }, self.payer))
    }

    /// What `action_offer_vault_withdraw` sends.
    pub open spec fn offer_vault_withdraw_plan(self, amount: u64) -> Option<Plan> {
        match self.offer_vault_accounts() {
            Some(accounts) => Some(
                signed_by(Call::OfferVaultWithdraw { amount, accounts }, self.payer),
            ),
            None => None,
        }
    }

    /// `offer_vault_withdraw`, on the usdc vault.
    pub fn action_offer_vault_withdraw(&self, amount: u64) -> (r: Option<Plan>)
        ensures
            r == self.offer_vault_withdraw_plan(amount),
            self.wf() ==> self.serves(r),
            self.wf() ==> sound(r),
    {
        let accounts = self.offer_vault_call()?;
        Some(sign(Call::OfferVaultWithdraw { amount, accounts }, self.payer))
    }

    /// What `action_redemption_vault_deposit` sends.
    pub open spec fn redemption_vault_deposit_plan(self, amount: u64) -> Option<Plan> {
        match self.redemption_vault_accounts(self.vault_mint(amount)) {
            Some(accounts) => Some(
                signed_by(Call::RedemptionVaultDeposit { amount, accounts }, self.payer),
            ),
            None => None,
        }
    }

    /// `redemption_vault_deposit`, on the vault of the mint that the amount picks.
    pub fn action_redemption_vault_deposit(&self, amount: u64) -> (r: Option<Plan>)
        ensures
            r == self.redemption_vault_deposit_plan(amount),
            self.wf() ==> self.serves(r),
            self.wf() ==> sound(r),
    {
        let accounts = self.redemption_vault_call(self.pick_vault_mint(amount))?;
        Some(sign(Call::RedemptionVaultDeposit { amount, accounts }, self.payer))
    }

    /// What `action_redemption_vault_withdraw` sends.
    pub open spec fn redemption_vault_withdraw_plan(self, amount: u64) -> Option<Plan> {
        match self.redemption_vault_accounts(self.vault_mint(amount)) {
            Some(accounts) => Some(
                signed_by(Call::RedemptionVaultWithdraw { amount, accounts }, self.payer),
            ),
            None => None,
        }
    }

    /// `redemption_vault_withdraw`, on the vault of the mint that the amount picks.
    pub fn action_redemption_vault_withdraw(&self, amount: u64) -> (r: Option<Plan>)
        ensures
            r == self.redemption_vault_withdraw_plan(amount),
            self.wf() ==> self.serves(r),
            self.wf() ==> sound(r),
    {
        let accounts = self.redemption_vault_call(self.pick_vault_mint(amount))?;
        Some(sign(Call::RedemptionVaultWithdraw { amount, accounts }, self.payer))
    }

    /// What `action_make_offer` sends.
    pub open spec fn make_offer_plan(
        self,
        fee_basis_points: u16,
        needs_approval: bool,
        allow_permissionless: bool,
    ) -> Option<Plan> {
        let (token_in, token_out) = self.offer_pair(fee_basis_points);
        match offer_key(self.program_id, token_in, token_out) {
            Some(offer) => match self.make_offer_accounts(offer, token_in, token_out) {
                Some(accounts) => Some(
                    Plan {
                        call: Call::MakeOffer {
                            fee_basis_points,
                            needs_approval,
                            allow_permissionless,
                            accounts,
                        },
                        signers: Signers { first: self.payer, second: None },
                        record: Record::Offer(offer),
                    },
                ),
                None => None,
            },
            None => None,
        }
    }

    /// `make_offer` between the mints that the fee picks. A success is noted with the offer.
    pub fn action_make_offer(
        &self,
        fee_basis_points: u16,
        needs_approval: bool,
        allow_permissionless: bool,
    ) -> (r: Option<Plan>)
        ensures
            r == self.make_offer_plan(fee_basis_points, needs_approval, allow_permissionless),
            self.wf() ==> self.serves(r),
            self.wf() ==> sound(r),
    {
        let (token_in, token_out) = self.make_offer_pair(fee_basis_points);
        let offer = self.make_offer_pda_for(fee_basis_points)?;
        let accounts = self.make_offer_call(offer, token_in, token_out)?;
        let call = Call::MakeOffer {
            fee_basis_points,
            needs_approval,
            allow_permissionless,
            accounts,
        };
        Some(Plan { record: Record::Offer(offer), ..sign(call, self.payer) })
    }

    /// What `action_add_offer_vector` sends.
    pub open spec fn add_offer_vector_plan(
        self,
        base_time: u64,
        base_price: u64,
        apr: u64,
        price_fix_duration: u64,
    ) -> Option<Plan> {
        Some(
            signed_by(
                Call::AddOfferVector {
                    vector: OfferVector {
                        start_time: None,
                        base_time,
                        base_price,
                        apr,
                        price_fix_duration,
                    },
                    accounts: self.main_offer_accounts(),
                },
                self.payer,
            ),
        )
    }

    /// `add_offer_vector` on the main offer, from now on or from a later base time.
    pub fn action_add_offer_vector(
        &self,
        base_time: u64,
        base_price: u64,
        apr: u64,
        price_fix_duration: u64,
    ) -> (r: Option<Plan>)
        ensures
            r == self.add_offer_vector_plan(base_time, base_price, apr, price_fix_duration),
            self.wf() ==> self.serves(r),
            self.wf() ==> sound(r),
    {
        Some(
            sign(
                Call::AddOfferVector {
                    vector: OfferVector {
                        start_time: None,
                        base_time,
                        base_price,
                        apr,
                        price_fix_duration,
                    },
                    accounts: self.main_offer_call(),
                },
                self.payer,
            ),
        )
    }

    /// What `action_delete_offer_vector` sends.
    pub open spec fn delete_offer_vector_plan(self, vector_start_time: u64) -> Option<Plan> {
        Some(
            signed_by(
                Call::DeleteOfferVector {
                    vector_start_time,
                    accounts: self.main_offer_accounts(),
                },
                self.payer,
            ),
        )
    }

    /// `delete_offer_vector` on the main offer.
    pub fn action_delete_offer_vector(&self, vector_start_time: u64) -> (r: Option<Plan>)
        ensures
            r == self.delete_offer_vector_plan(vector_start_time),
            self.wf() ==> self.serves(r),
            self.wf() ==> sound(r),
    {
        Some(
            sign(
                Call::DeleteOfferVector {
                    vector_start_time,
                    accounts: self.main_offer_call(),
                },
                self.payer,
            ),
        )
    }

    /// What `action_delete_all_offer_vectors` sends.
    pub open spec fn delete_all_offer_vectors_plan(self) -> Option<Plan> {
        Some(
            signed_by(
                Call::DeleteAllOfferVectors {
                    accounts: self.main_offer_accounts(),
                },
                self.payer,
            ),
        )
    }

    /// `delete_all_offer_vectors` on the main offer.
    pub fn action_delete_all_offer_vectors(&self) -> (r: Option<Plan>)
        ensures
            r == self.delete_all_offer_vectors_plan(),
            self.wf() ==> self.serves(r),
            self.wf() ==> sound(r),
    {
        Some(
            sign(
                Call::DeleteAllOfferVectors {
                    accounts: self.main_offer_call(),
                },
                self.payer,
            ),
        )
    }

    /// What `action_update_offer_fee` sends.
    pub open spec fn update_offer_fee_plan(self, new_fee_basis_points: u16) -> Option<Plan> {
        Some(
            signed_by(
                Call::UpdateOfferFee {
                    new_fee_basis_points,
                    accounts: self.main_offer_accounts(),
                },
                self.payer,
            ),
        )
    }

    /// `update_offer_fee` on the main offer.
    pub fn action_update_offer_fee(&self, new_fee_basis_points: u16) -> (r: Option<Plan>)
        ensures
            r == self.update_offer_fee_plan(new_fee_basis_points),
            self.wf() ==> self.serves(r),
            self.wf() ==> sound(r),
    {
        Some(
            sign(
                Call::UpdateOfferFee {
                    new_fee_basis_points,
                    accounts: self.main_offer_call(),
                },
                self.payer,
            ),
        )
    }

    /// What `action_take_offer` sends.
    pub open spec fn take_offer_plan(self, token_in_amount: u64) -> Option<Plan> {
        match self.take_accounts(
            self.offer_pda,
            self.user(token_in_amount).public(),
            spl_leg(self.mint_usdc),
            spl_leg(self.mint_onyc),
        ) {
            Some(accounts) => Some(
                signed_by_both(
                    Call::TakeOffer { token_in_amount, approval_message: None, accounts },
                    self.payer,
                    self.user(token_in_amount),
                ),
            ),
            None => None,
        }
    }

    /// `take_offer` of the main offer, without an approval, by the user that the amount picks.
    pub fn action_take_offer(&self, token_in_amount: u64) -> (r: Option<Plan>)
        ensures
            r == self.take_offer_plan(token_in_amount),
            self.wf() ==> self.serves(r),
            self.wf() ==> sound(r),
    {
        let user = self.pick_user(token_in_amount);
        let accounts = self.take_call(
            self.offer_pda,
            user.pubkey(),
            spl(self.mint_usdc),
            spl(self.mint_onyc),
        )?;
        let call = Call::TakeOffer { token_in_amount, approval_message: None, accounts };
        Some(sign_both(call, self.payer, user))
    }

    /// What `action_take_offer_permissionless` sends.
    pub open spec fn take_offer_permissionless_plan(self, token_in_amount: u64) -> Option<Plan> {
        match (
            self.take_accounts(
                self.offer_pda,
                self.user(token_in_amount).public(),
                spl_leg(self.mint_usdc),
                spl_leg(self.mint_onyc),
            ),
            ata(self.permissionless_authority, self.mint_usdc, SPL_TOKEN_ID),
            ata(self.permissionless_authority, self.mint_onyc, SPL_TOKEN_ID),
        ) {
            (Some(take), Some(account_in), Some(account_out)) => Some(
                signed_by_both(
                    Call::TakeOfferPermissionless {
                        token_in_amount,
                        approval_message: None,
                        accounts: PermissionlessTakeAccounts {
                            take,
                            permissionless_authority: self.permissionless_authority,
                            permissionless_token_in_account: account_in,
                            permissionless_token_out_account: account_out,
                        },
                    },
                    self.payer,
                    self.user(token_in_amount),
                ),
            ),
            _ => None,
        }
    }

    /// `take_offer_permissionless` of the main offer, by the user that the amount picks.
    pub fn action_take_offer_permissionless(&self, token_in_amount: u64) -> (r: Option<Plan>)
        ensures
            r == self.take_offer_permissionless_plan(token_in_amount),
            self.wf() ==> self.serves(r),
            self.wf() ==> sound(r),
    {
        let user = self.pick_user(token_in_amount);
        let take = self.take_call(
            self.offer_pda,
            user.pubkey(),
            spl(self.mint_usdc),
            spl(self.mint_onyc),
        )?;
        let authority = self.permissionless_authority;
        let account_in = scout_ata(&authority, &self.mint_usdc, &SPL_TOKEN_ID)?;
        let account_out = scout_ata(&authority, &self.mint_onyc, &SPL_TOKEN_ID)?;
        let accounts = PermissionlessTakeAccounts {
            take,
            permissionless_authority: authority,
            permissionless_token_in_account: account_in,
            permissionless_token_out_account: account_out,
        };
        let call = Call::TakeOfferPermissionless {
            token_in_amount,
            approval_message: None,
            accounts,
        };
        Some(sign_both(call, self.payer, user))
    }

    /// What `action_propose_boss` sends.
    pub open spec fn propose_boss_plan(self) -> Option<Plan> {
        Some(
            signed_by(
                Call::ProposeBoss {
                    new_boss: self.boss.public(),
                    accounts: self.boss_accounts(),
                },
                self.payer,
            ),
        )
    }

    /// `propose_boss` with the incumbent as nominee. Any other nominee could take the authority
    /// over
    /// with a key that nobody here signs with, and every later boss action would fail.
    pub fn action_propose_boss(&self) -> (r: Option<Plan>)
        ensures
            r == self.propose_boss_plan(),
            self.wf() ==> self.serves(r),
            self.wf() ==> sound(r),
    {
        Some(
            sign(
                Call::ProposeBoss { new_boss: self.boss.pubkey(), accounts: self.boss_call() },
                self.payer,
            ),
        )
    }

    /// What `action_accept_boss` sends.
    pub open spec fn accept_boss_plan(self) -> Option<Plan> {
        if self.admin_actions {
            Some(
                signed_by(
                    Call::AcceptBoss {
                        accounts: AcceptBossAccounts {
                            state: self.state_pda,
                            new_boss: self.payer.public(),
                        },
                    },
                    self.payer,
                ),
            )
        } else {
            None
        }
    }

    /// `accept_boss`, by the payer.
    /// Enabled only where the world may be reconfigured.
    pub fn action_accept_boss(&self) -> (r: Option<Plan>)
        ensures
            r == self.accept_boss_plan(),
            self.wf() ==> self.serves(r),
            self.wf() ==> sound(r),
    {
        if !self.admin_actions {
            return None;
        }
        Some(
            sign(
                Call::AcceptBoss {
                    accounts: AcceptBossAccounts {
                        state: self.state_pda,
                        new_boss: self.payer.pubkey(),
                    },
                },
                self.payer,
            ),
        )
    }

    /// What `action_add_admin` sends.
    pub open spec fn add_admin_plan(self) -> Option<Plan> {
        if self.admin_actions {
            Some(
                signed_by(
                    Call::AddAdmin {
                        new_admin: self.user_a.public(),
                        accounts: self.boss_accounts(),
                    },
                    self.payer,
                ),
            )
        } else {
            None
        }
    }

    /// `add_admin` of the first user.
    /// Enabled only where the world may be reconfigured.
    pub fn action_add_admin(&self) -> (r: Option<Plan>)
        ensures
            r == self.add_admin_plan(),
            self.wf() ==> self.serves(r),
            self.wf() ==> sound(r),
    {
        if !self.admin_actions {
            return None;
        }
        Some(
            sign(
                Call::AddAdmin { new_admin: self.user_a.pubkey(), accounts: self.boss_call() },
                self.payer,
            ),
        )
    }

    /// What `action_remove_admin` sends.
    pub open spec fn remove_admin_plan(self) -> Option<Plan> {
        if self.admin_actions {
            Some(
                signed_by(
                    Call::RemoveAdmin {
                        admin_to_remove: self.user_a.public(),
                        accounts: self.boss_accounts(),
                    },
                    self.payer,
                ),
            )
        } else {
            None
        }
    }

    /// `remove_admin` of the first user.
    /// Enabled only where the world may be reconfigured.
    pub fn action_remove_admin(&self) -> (r: Option<Plan>)
        ensures
            r == self.remove_admin_plan(),
            self.wf() ==> self.serves(r),
            self.wf() ==> sound(r),
    {
        if !self.admin_actions {
            return None;
        }
        Some(
            sign(
                Call::RemoveAdmin {
                    admin_to_remove: self.user_a.pubkey(),
                    accounts: self.boss_call(),
                },
                self.payer,
            ),
        )
    }

    /// What `action_clear_admins` sends.
    pub open spec fn clear_admins_plan(self) -> Option<Plan> {
        if self.admin_actions {
            Some(
                signed_by(
                    Call::ClearAdmins { accounts: self.boss_accounts() },
                    self.payer,
                ),
            )
        } else {
            None
        }
    }

    /// `clear_admins`.
    /// Enabled only where the world may be reconfigured.
    pub fn action_clear_admins(&self) -> (r: Option<Plan>)
        ensures
            r == self.clear_admins_plan(),
            self.wf() ==> self.serves(r),
            self.wf() ==> sound(r),
    {
        if !self.admin_actions {
            return None;
        }
        Some(
            sign(
                Call::ClearAdmins { accounts: self.boss_call() },
                self.payer,
            ),
        )
    }

    /// What `action_transfer_mint_authority_to_program` sends.
    pub open spec fn transfer_mint_authority_to_program_plan(self) -> Option<Plan> {
        Some(
            signed_by(
                Call::TransferMintAuthorityToProgram {
                    accounts: self.mint_authority_accounts(self.mint_play),
                },
                self.payer,
            ),
        )
    }

    /// `transfer_mint_authority_to_program` of the spare mint.
    pub fn action_transfer_mint_authority_to_program(&self) -> (r: Option<Plan>)
        ensures
            r == self.transfer_mint_authority_to_program_plan(),
            self.wf() ==> self.serves(r),
            self.wf() ==> sound(r),
    {
        Some(
            sign(
                Call::TransferMintAuthorityToProgram {
                    accounts: self.mint_authority_call(self.mint_play),
                },
                self.payer,
            ),
        )
    }

    /// What `action_transfer_mint_authority_to_boss` sends.
    pub open spec fn transfer_mint_authority_to_boss_plan(self) -> Option<Plan> {
        Some(
            signed_by(
                Call::TransferMintAuthorityToBoss {
                    accounts: self.mint_authority_accounts(self.mint_play),
                },
                self.payer,
            ),
        )
    }

    /// `transfer_mint_authority_to_boss` of the spare mint.
    pub fn action_transfer_mint_authority_to_boss(&self) -> (r: Option<Plan>)
        ensures
            r == self.transfer_mint_authority_to_boss_plan(),
            self.wf() ==> self.serves(r),
            self.wf() ==> sound(r),
    {
        Some(
            sign(
                Call::TransferMintAuthorityToBoss {
                    accounts: self.mint_authority_call(self.mint_play),
                },
                self.payer,
            ),
        )
    }

    /// What `action_set_kill_switch` sends.
    pub open spec fn set_kill_switch_plan(self, enable: bool) -> Option<Plan> {
        Some(
            signed_by(
                Call::SetKillSwitch {
                    enable,
                    accounts: self.kill_switch_accounts(self.payer.public()),
                },
                self.payer,
            ),
        )
    }

    /// `set_kill_switch`, by the payer.
    pub fn action_set_kill_switch(&self, enable: bool) -> (r: Option<Plan>)
        ensures
            r == self.set_kill_switch_plan(enable),
            self.wf() ==> self.serves(r),
            self.wf() ==> sound(r),
    {
        Some(
            sign(
                Call::SetKillSwitch {
                    enable,
                    accounts: self.kill_switch_call(self.payer.pubkey()),
                },
                self.payer,
            ),
        )
    }

    /// What `action_set_onyc_mint` sends.
    pub open spec fn set_onyc_mint_plan(self) -> Option<Plan> {
        Some(
            signed_by(
                Call::SetOnycMint {
                    accounts: OnycMintAccounts {
                        state: self.state_pda,
                        boss: self.boss.public(),
                        onyc_mint: self.mint_onyc,
                    },
                },
                self.payer,
            ),
        )
    }

    /// `set_onyc_mint`, to the mint that it already is.
    pub fn action_set_onyc_mint(&self) -> (r: Option<Plan>)
        ensures
            r == self.set_onyc_mint_plan(),
            self.wf() ==> self.serves(r),
            self.wf() ==> sound(r),
    {
        Some(
            sign(
                Call::SetOnycMint {
                    accounts: OnycMintAccounts {
                        state: self.state_pda,
                        boss: self.boss.pubkey(),
                        onyc_mint: self.mint_onyc,
                    },
                },
                self.payer,
            ),
        )
    }

    /// What `action_set_redemption_admin` sends.
    pub open spec fn set_redemption_admin_plan(self) -> Option<Plan> {
        if self.admin_actions {
            Some(
                signed_by(
                    Call::SetRedemptionAdmin {
                        new_redemption_admin: self.redemption_admin.public(),
                        accounts: self.boss_accounts(),
                    },
                    self.payer,
                ),
            )
        } else {
            None
        }
    }

    /// `set_redemption_admin`, to the admin that it already is.
    /// Enabled only where the world may be reconfigured.
    pub fn action_set_redemption_admin(&self) -> (r: Option<Plan>)
        ensures
            r == self.set_redemption_admin_plan(),
            self.wf() ==> self.serves(r),
            self.wf() ==> sound(r),
    {
        if !self.admin_actions {
            return None;
        }
        Some(
            sign(
                Call::SetRedemptionAdmin {
                    new_redemption_admin: self.redemption_admin.pubkey(),
                    accounts: self.boss_call(),
                },
                self.payer,
            ),
        )
    }

    /// What `action_mint_to` sends.
    pub open spec fn mint_to_plan(self, amount: u64) -> Option<Plan> {
        match ata(self.boss.public(), self.mint_onyc, SPL_TOKEN_ID) {
            Some(boss_onyc_account) => Some(
                signed_by(
                    Call::MintTo {
                        amount,
                        accounts: MintToAccounts {
                            state: self.state_pda,
                            boss: self.boss.public(),
                            onyc_mint: self.mint_onyc,
                            boss_onyc_account,
                            mint_authority: self.mint_authority_pda,
                            token_program: SPL_TOKEN_ID,
                        },
                    },
                    self.payer,
                ),
            ),
            None => None,
        }
    }

    /// `mint_to`, of ONyc to the boss.
    pub fn action_mint_to(&self, amount: u64) -> (r: Option<Plan>)
        ensures
            r == self.mint_to_plan(amount),
            self.wf() ==> self.serves(r),
            self.wf() ==> sound(r),
    {
        let boss = self.boss.pubkey();
        let accounts = MintToAccounts {
            state: self.state_pda,
            boss,
            onyc_mint: self.mint_onyc,
            boss_onyc_account: scout_ata(&boss, &self.mint_onyc, &SPL_TOKEN_ID)?,
            mint_authority: self.mint_authority_pda,
            token_program: SPL_TOKEN_ID,
        };
        Some(sign(Call::MintTo { amount, accounts }, self.payer))
    }

    /// What `action_get_nav` sends.
    pub open spec fn get_nav_plan(self) -> Option<Plan> {
        Some(
            signed_by(
                Call::GetNav { accounts: self.quote_accounts() },
                self.payer,
            ),
        )
    }

    /// `get_nav` of the main offer.
    pub fn action_get_nav(&self) -> (r: Option<Plan>)
        ensures
            r == self.get_nav_plan(),
            self.wf() ==> self.serves(r),
            self.wf() ==> sound(r),
    {
        Some(
            sign(
                Call::GetNav { accounts: self.quote_call() },
                self.payer,
            ),
        )
    }

    /// What `action_get_apy` sends.
    pub open spec fn get_apy_plan(self) -> Option<Plan> {
        Some(
            signed_by(
                Call::GetApy { accounts: self.quote_accounts() },
                self.payer,
            ),
        )
    }

    /// `get_apy` of the main offer.
    pub fn action_get_apy(&self) -> (r: Option<Plan>)
        ensures
            r == self.get_apy_plan(),
            self.wf() ==> self.serves(r),
            self.wf() ==> sound(r),
    {
        Some(
            sign(
                Call::GetApy { accounts: self.quote_call() },
                self.payer,
            ),
        )
    }

    /// What `action_get_nav_adjustment` sends.
    pub open spec fn get_nav_adjustment_plan(self) -> Option<Plan> {
        Some(
            signed_by(
                Call::GetNavAdjustment { accounts: self.quote_accounts() },
                self.payer,
            ),
        )
    }

    /// `get_nav_adjustment` of the main offer.
    pub fn action_get_nav_adjustment(&self) -> (r: Option<Plan>)
        ensures
            r == self.get_nav_adjustment_plan(),
            self.wf() ==> self.serves(r),
            self.wf() ==> sound(r),
    {
        Some(
            sign(
                Call::GetNavAdjustment { accounts: self.quote_call() },
                self.payer,
            ),
        )
    }

    /// What `action_get_tvl` sends.
    pub open spec fn get_tvl_plan(self) -> Option<Plan> {
        match ata(self.offer_vault_authority, self.mint_onyc, SPL_TOKEN_ID) {
            Some(vault_token_out_account) => Some(
                signed_by(
                    Call::GetTvl {
                        accounts: TvlAccounts {
                            offer: self.offer_pda,
                            token_in_mint: self.mint_usdc,
                            token_out_mint: self.mint_onyc,
                            vault_authority: self.offer_vault_authority,
                            vault_token_out_account,
                            token_out_program: SPL_TOKEN_ID,
                        },
                    },
                    self.payer,
                ),
            ),
            None => None,
        }
    }

    /// `get_tvl` of the main offer.
    pub fn action_get_tvl(&self) -> (r: Option<Plan>)
        ensures
            r == self.get_tvl_plan(),
            self.wf() ==> self.serves(r),
            self.wf() ==> sound(r),
    {
        let authority = self.offer_vault_authority;
        let accounts = TvlAccounts {
            offer: self.offer_pda,
            token_in_mint: self.mint_usdc,
            token_out_mint: self.mint_onyc,
            vault_authority: authority,
            vault_token_out_account: scout_ata(&authority, &self.mint_onyc, &SPL_TOKEN_ID)?,
            token_out_program: SPL_TOKEN_ID,
        };
        Some(sign(Call::GetTvl { accounts }, self.payer))
    }

    /// What `action_get_circulating_supply` sends.
    pub open spec fn get_circulating_supply_plan(self) -> Option<Plan> {
        match ata(self.offer_vault_authority, self.mint_onyc, SPL_TOKEN_ID) {
            Some(onyc_vault_account) => Some(
                signed_by(
                    Call::GetCirculatingSupply {
                        accounts: CirculatingSupplyAccounts {
                            onyc_mint: self.mint_onyc,
                            state: self.state_pda,
                            vault_authority: self.offer_vault_authority,
                            onyc_vault_account,
                            token_program: SPL_TOKEN_ID,
                        },
                    },
                    self.payer,
                ),
            ),
            None => None,
        }
    }

    /// `get_circulating_supply` of ONyc.
    pub fn action_get_circulating_supply(&self) -> (r: Option<Plan>)
        ensures
            r == self.get_circulating_supply_plan(),
            self.wf() ==> self.serves(r),
            self.wf() ==> sound(r),
    {
        let authority = self.offer_vault_authority;
        let accounts = CirculatingSupplyAccounts {
            onyc_mint: self.mint_onyc,
            state: self.state_pda,
            vault_authority: authority,
            onyc_vault_account: scout_ata(&authority, &self.mint_onyc, &SPL_TOKEN_ID)?,
            token_program: SPL_TOKEN_ID,
        };
        Some(sign(Call::GetCirculatingSupply { accounts }, self.payer))
    }

    /// What `action_add_approver` sends.
    pub open spec fn add_approver_plan(self) -> Option<Plan> {
        Some(
            signed_by(
                Call::AddApprover {
                    approver: self.approver.public(),
                    accounts: self.boss_accounts(),
                },
                self.payer,
            ),
        )
    }

    /// `add_approver` of the approver that the world was built with.
    pub fn action_add_approver(&self) -> (r: Option<Plan>)
        ensures
            r == self.add_approver_plan(),
            self.wf() ==> self.serves(r),
            self.wf() ==> sound(r),
    {
        Some(
            sign(
                Call::AddApprover { approver: self.approver.pubkey(), accounts: self.boss_call() },
                self.payer,
            ),
        )
    }

    /// What `action_remove_approver` sends.
    pub open spec fn remove_approver_plan(self) -> Option<Plan> {
        Some(
            signed_by(
                Call::RemoveApprover {
                    approver: self.approver.public(),
                    accounts: self.boss_accounts(),
                },
                self.payer,
            ),
        )
    }

    /// `remove_approver` of the approver that the world was built with.
    pub fn action_remove_approver(&self) -> (r: Option<Plan>)
        ensures
            r == self.remove_approver_plan(),
            self.wf() ==> self.serves(r),
            self.wf() ==> sound(r),
    {
        Some(
            sign(
                Call::RemoveApprover {
                    approver: self.approver.pubkey(),
                    accounts: self.boss_call(),
                },
                self.payer,
            ),
        )
    }

    /// What `action_configure_max_supply` sends.
    pub open spec fn configure_max_supply_plan(self, max_supply: u64) -> Option<Plan> {
        if self.admin_actions {
            Some(
                signed_by(
                    Call::ConfigureMaxSupply { max_supply, accounts: self.boss_accounts() },
                    self.payer,
                ),
            )
        } else {
            None
        }
    }

    /// `configure_max_supply`, with any cap.
    /// Enabled only where the world may be reconfigured.
    pub fn action_configure_max_supply(&self, max_supply: u64) -> (r: Option<Plan>)
        ensures
            r == self.configure_max_supply_plan(max_supply),
            self.wf() ==> self.serves(r),
            self.wf() ==> sound(r),
    {
        if !self.admin_actions {
            return None;
        }
        Some(
            sign(
                Call::ConfigureMaxSupply { max_supply, accounts: self.boss_call() },
                self.payer,
            ),
        )
    }

    /// What `action_close_state` sends.
    pub open spec fn close_state_plan(self) -> Option<Plan> {
        Some(
            signed_by(
                Call::CloseState { accounts: self.boss_accounts() },
                self.payer,
            ),
        )
    }

    /// `close_state`. It deallocates the state by design; `action_scout_rebuild_state` is the way
    /// back.
    pub fn action_close_state(&self) -> (r: Option<Plan>)
        ensures
            r == self.close_state_plan(),
            self.wf() ==> self.serves(r),
            self.wf() ==> sound(r),
    {
        Some(
            sign(
                Call::CloseState { accounts: self.boss_call() },
                self.payer,
            ),
        )
    }

    /// What `action_make_redemption_offer` sends.
    pub open spec fn make_redemption_offer_plan(self, fee_basis_points: u16) -> Option<Plan> {
        match (
            offer_key(self.program_id, self.mint_play, self.mint_onyc),
            redemption_offer_key(self.program_id, self.mint_onyc, self.mint_play),
        ) {
            (Some(offer), Some(redemption_offer)) => {
                match self.make_redemption_offer_accounts(
                    offer,
                    redemption_offer,
                    spl_leg(self.mint_onyc),
                    spl_leg(self.mint_play),
                    self.redemption_admin.public(),
                ) {
                    Some(accounts) => Some(
                        signed_by_both(
                            Call::MakeRedemptionOffer { fee_basis_points, accounts },
                            self.payer,
                            self.redemption_admin,
                        ),
                    ),
                    None => None,
                }
            },
            _ => None,
        }
    }

    /// `make_redemption_offer` from onyc to the spare mint. It succeeds only once
    /// `action_make_offer` has
    /// made the offer that it inverts: a sequence of two actions for the fuzzer to find.
    pub fn action_make_redemption_offer(&self, fee_basis_points: u16) -> (r: Option<Plan>)
        ensures
            r == self.make_redemption_offer_plan(fee_basis_points),
            self.wf() ==> self.serves(r),
            self.wf() ==> sound(r),
    {
        let offer = self.offer_pda_of(&self.mint_play, &self.mint_onyc)?;
        let redemption_offer = self.redemption_offer_pda_of(&self.mint_onyc, &self.mint_play)?;
        let accounts = self.make_redemption_offer_call(
            offer,
            redemption_offer,
            spl(self.mint_onyc),
            spl(self.mint_play),
            self.redemption_admin.pubkey(),
        )?;
        let call = Call::MakeRedemptionOffer { fee_basis_points, accounts };
        Some(sign_both(call, self.payer, self.redemption_admin))
    }

    /// What `action_create_redemption_request` sends.
    pub open spec fn create_redemption_request_plan(self, amount: u64) -> Option<Plan> {
        match self.next_request_key() {
            Some(request) => match self.create_request_accounts(
                self.redemption_offer_pda,
                request,
                self.user(amount).public(),
                spl_leg(self.mint_onyc),
            ) {
                Some(accounts) => Some(
                    Plan {
                        call: Call::CreateRedemptionRequest { amount, accounts },
                        signers: Signers {
                            first: self.payer,
                            second: Some(self.user(amount)),
                        },
                        record: Record::Request(request),
                    },
                ),
                None => None,
            },
            None => None,
        }
    }

    /// `create_redemption_request` against the live redemption offer, by the user that the amount
    /// picks. A success is noted with the request.
    pub fn action_create_redemption_request(&self, amount: u64) -> (r: Option<Plan>)
        ensures
            r == self.create_redemption_request_plan(amount),
            self.wf() ==> self.serves(r),
            self.wf() ==> sound(r),
    {
        let request = self.next_request_pda()?;
        let redeemer = self.pick_user(amount);
        let accounts = self.create_request_call(
            self.redemption_offer_pda,
            request,
            redeemer.pubkey(),
            spl(self.mint_onyc),
        )?;
        let call = Call::CreateRedemptionRequest { amount, accounts };
        Some(Plan { record: Record::Request(request), ..sign_both(call, self.payer, redeemer) })
    }

    /// What `action_fulfill_redemption_request` sends.
    pub open spec fn fulfill_redemption_request_plan(self) -> Option<Plan> {
        match self.oldest_request_key() {
            Some(request) => match self.fulfill_accounts(
                self.offer_pda,
                self.redemption_offer_pda,
                request,
                self.oldest_redeemer(),
                spl_leg(self.mint_onyc),
                spl_leg(self.mint_usdc),
            ) {
                Some(accounts) => Some(
                    signed_by_both(
                        Call::FulfillRedemptionRequest { accounts },
                        self.payer,
                        self.redemption_admin,
                    ),
                ),
                None => None,
            },
            None => None,
        }
    }

    /// `fulfill_redemption_request` of the oldest open request, by the redemption admin.
    pub fn action_fulfill_redemption_request(&self) -> (r: Option<Plan>)
        ensures
            r == self.fulfill_redemption_request_plan(),
            self.wf() ==> self.serves(r),
            self.wf() ==> sound(r),
    {
        let accounts = self.fulfill_call(
            self.offer_pda,
            self.redemption_offer_pda,
            self.oldest_request_pda()?,
            self.oldest_request_redeemer(),
            spl(self.mint_onyc),
            spl(self.mint_usdc),
        )?;
        let call = Call::FulfillRedemptionRequest { accounts };
        Some(sign_both(call, self.payer, self.redemption_admin))
    }

    /// What `action_cancel_redemption_request` sends.
    pub open spec fn cancel_redemption_request_plan(self) -> Option<Plan> {
        match self.oldest_request_key() {
            Some(request) => match self.cancel_accounts(
                self.redemption_offer_pda,
                request,
                self.redemption_admin.public(),
                self.oldest_redeemer(),
                spl_leg(self.mint_onyc),
            ) {
                Some(accounts) => Some(
                    signed_by_both(
                        Call::CancelRedemptionRequest { accounts },
                        self.payer,
                        self.redemption_admin,
                    ),
                ),
                None => None,
            },
            None => None,
        }
    }

    /// `cancel_redemption_request` of the oldest open request, by the redemption admin.
    pub fn action_cancel_redemption_request(&self) -> (r: Option<Plan>)
        ensures
            r == self.cancel_redemption_request_plan(),
            self.wf() ==> self.serves(r),
            self.wf() ==> sound(r),
    {
        let accounts = self.cancel_call(
            self.redemption_offer_pda,
            self.oldest_request_pda()?,
            self.redemption_admin.pubkey(),
            self.oldest_request_redeemer(),
            spl(self.mint_onyc),
        )?;
        let call = Call::CancelRedemptionRequest { accounts };
        Some(sign_both(call, self.payer, self.redemption_admin))
    }

    /// What `action_update_redemption_offer_fee` sends.
    pub open spec fn update_redemption_offer_fee_plan(
        self,
        new_fee_basis_points: u16,
    ) -> Option<Plan> {
        Some(
            signed_by(
                Call::UpdateRedemptionOfferFee {
                    new_fee_basis_points,
                    accounts: RedemptionFeeAccounts {
                        redemption_offer: self.redemption_offer_pda,
                        state: self.state_pda,
                        boss: self.boss.public(),
                    },
                },
                self.payer,
            ),
        )
    }

    /// `update_redemption_offer_fee` of the live redemption offer.
    pub fn action_update_redemption_offer_fee(&self, new_fee_basis_points: u16) -> (r: Option<Plan>)
        ensures
            r == self.update_redemption_offer_fee_plan(new_fee_basis_points),
            self.wf() ==> self.serves(r),
            self.wf() ==> sound(r),
    {
        Some(
            sign(
                Call::UpdateRedemptionOfferFee {
                    new_fee_basis_points,
                    accounts: RedemptionFeeAccounts {
                        redemption_offer: self.redemption_offer_pda,
                        state: self.state_pda,
                        boss: self.boss.pubkey(),
                    },
                },
                self.payer,
            ),
        )
    }
}

} // verus!
