//! The instructions of the program: their arguments, the accounts they name, and who signs them.

use vstd::prelude::*;

use crate::ed25519::ApprovalMessage;
use crate::keys::{ata, Keypair, Pubkey};

verus! {

/// One side of a trade: a mint and the token program it lives under.
#[derive(Clone, Copy, Debug, PartialEq, Eq)]
pub struct Leg {
    pub mint: Pubkey,
    pub program: Pubkey,
}

/// Accounts of `initialize`.
#[derive(Clone, Copy, Debug, PartialEq, Eq)]
pub struct InitializeAccounts {
    pub state: Pubkey,
    pub mint_authority: Pubkey,
    pub offer_vault_authority: Pubkey,
    pub boss: Pubkey,
    pub program_data: Pubkey,
    pub onyc_mint: Pubkey,
}

/// Accounts of `initialize_permissionless_authority`.
#[derive(Clone, Copy, Debug, PartialEq, Eq)]
pub struct PermissionlessAuthorityAccounts {
    pub permissionless_authority: Pubkey,
    pub state: Pubkey,
    pub boss: Pubkey,
}

/// Accounts of `offer_vault_deposit` and `offer_vault_withdraw`.
#[derive(Clone, Copy, Debug, PartialEq, Eq)]
pub struct OfferVaultAccounts {
    pub vault_authority: Pubkey,
    pub token_mint: Pubkey,
    pub boss_token_account: Pubkey,
    pub vault_token_account: Pubkey,
    pub boss: Pubkey,
    pub state: Pubkey,
    pub token_program: Pubkey,
}

/// Accounts of `redemption_vault_deposit` and `redemption_vault_withdraw`.
#[derive(Clone, Copy, Debug, PartialEq, Eq)]
pub struct RedemptionVaultAccounts {
    pub redemption_vault_authority: Pubkey,
    pub token_mint: Pubkey,
    pub boss_token_account: Pubkey,
    pub vault_token_account: Pubkey,
    pub boss: Pubkey,
    pub state: Pubkey,
    pub token_program: Pubkey,
}

/// Accounts of `make_offer`.
#[derive(Clone, Copy, Debug, PartialEq, Eq)]
pub struct MakeOfferAccounts {
    pub vault_authority: Pubkey,
    pub token_in_mint: Pubkey,
    pub token_in_program: Pubkey,
    pub vault_token_in_account: Pubkey,
    pub token_out_mint: Pubkey,
    pub offer: Pubkey,
    pub state: Pubkey,
    pub boss: Pubkey,
}

/// Accounts of the instructions that change an offer: its vectors and its fee.
#[derive(Clone, Copy, Debug, PartialEq, Eq)]
pub struct OfferAccounts {
    pub offer: Pubkey,
    pub token_in_mint: Pubkey,
    pub token_out_mint: Pubkey,
    pub state: Pubkey,
    pub boss: Pubkey,
}

/// Accounts of `take_offer`.
#[derive(Clone, Copy, Debug, PartialEq, Eq)]
pub struct TakeOfferAccounts {
    pub offer: Pubkey,
    pub state: Pubkey,
    pub boss: Pubkey,
    pub vault_authority: Pubkey,
    pub vault_token_in_account: Pubkey,
    pub vault_token_out_account: Pubkey,
    pub token_in_mint: Pubkey,
    pub token_in_program: Pubkey,
    pub token_out_mint: Pubkey,
    pub token_out_program: Pubkey,
    pub user_token_in_account: Pubkey,
    pub user_token_out_account: Pubkey,
    pub boss_token_in_account: Pubkey,
    pub mint_authority: Pubkey,
    pub user: Pubkey,
}

/// Accounts of `take_offer_permissionless`: those of `take_offer`, and the middleman's.
#[derive(Clone, Copy, Debug, PartialEq, Eq)]
pub struct PermissionlessTakeAccounts {
    pub take: TakeOfferAccounts,
    pub permissionless_authority: Pubkey,
    pub permissionless_token_in_account: Pubkey,
    pub permissionless_token_out_account: Pubkey,
}

/// Accounts of the instructions by which the boss changes the state.
#[derive(Clone, Copy, Debug, PartialEq, Eq)]
pub struct BossAccounts {
    pub state: Pubkey,
    pub boss: Pubkey,
}

/// Accounts of `accept_boss`.
#[derive(Clone, Copy, Debug, PartialEq, Eq)]
pub struct AcceptBossAccounts {
    pub state: Pubkey,
    pub new_boss: Pubkey,
}

/// Accounts of `set_kill_switch`.
#[derive(Clone, Copy, Debug, PartialEq, Eq)]
pub struct KillSwitchAccounts {
    pub state: Pubkey,
    pub signer: Pubkey,
}

/// Accounts of `transfer_mint_authority_to_program` and `transfer_mint_authority_to_boss`.
#[derive(Clone, Copy, Debug, PartialEq, Eq)]
pub struct MintAuthorityAccounts {
    pub boss: Pubkey,
    pub state: Pubkey,
    pub mint: Pubkey,
    pub mint_authority: Pubkey,
    pub token_program: Pubkey,
}

/// Accounts of `set_onyc_mint`.
#[derive(Clone, Copy, Debug, PartialEq, Eq)]
pub struct OnycMintAccounts {
    pub state: Pubkey,
    pub boss: Pubkey,
    pub onyc_mint: Pubkey,
}

/// Accounts of `mint_to`.
#[derive(Clone, Copy, Debug, PartialEq, Eq)]
pub struct MintToAccounts {
    pub state: Pubkey,
    pub boss: Pubkey,
    pub onyc_mint: Pubkey,
    pub boss_onyc_account: Pubkey,
    pub mint_authority: Pubkey,
    pub token_program: Pubkey,
}

/// Accounts of `get_nav`, `get_apy` and `get_nav_adjustment`.
#[derive(Clone, Copy, Debug, PartialEq, Eq)]
pub struct QuoteAccounts {
    pub offer: Pubkey,
    pub token_in_mint: Pubkey,
    pub token_out_mint: Pubkey,
}

/// Accounts of `get_tvl`.
#[derive(Clone, Copy, Debug, PartialEq, Eq)]
pub struct TvlAccounts {
    pub offer: Pubkey,
    pub token_in_mint: Pubkey,
    pub token_out_mint: Pubkey,
    pub vault_authority: Pubkey,
    pub vault_token_out_account: Pubkey,
    pub token_out_program: Pubkey,
}

/// Accounts of `get_circulating_supply`.
#[derive(Clone, Copy, Debug, PartialEq, Eq)]
pub struct CirculatingSupplyAccounts {
    pub onyc_mint: Pubkey,
    pub state: Pubkey,
    pub vault_authority: Pubkey,
    pub onyc_vault_account: Pubkey,
    pub token_program: Pubkey,
}

/// Accounts of `make_redemption_offer`.
#[derive(Clone, Copy, Debug, PartialEq, Eq)]
pub struct MakeRedemptionOfferAccounts {
    pub state: Pubkey,
    pub offer: Pubkey,
    pub redemption_vault_authority: Pubkey,
    pub token_in_mint: Pubkey,
    pub token_in_program: Pubkey,
    pub vault_token_in_account: Pubkey,
    pub token_out_mint: Pubkey,
    pub token_out_program: Pubkey,
    pub vault_token_out_account: Pubkey,
    pub redemption_offer: Pubkey,
    pub signer: Pubkey,
}

/// Accounts of `create_redemption_request`.
#[derive(Clone, Copy, Debug, PartialEq, Eq)]
pub struct CreateRequestAccounts {
    pub state: Pubkey,
    pub redemption_offer: Pubkey,
    pub redemption_request: Pubkey,
    pub redeemer: Pubkey,
    pub redemption_vault_authority: Pubkey,
    pub token_in_mint: Pubkey,
    pub redeemer_token_account: Pubkey,
    pub vault_token_account: Pubkey,
    pub token_program: Pubkey,
}

/// Accounts of `fulfill_redemption_request`.
#[derive(Clone, Copy, Debug, PartialEq, Eq)]
pub struct FulfillRequestAccounts {
    pub state: Pubkey,
    pub boss: Pubkey,
    pub offer: Pubkey,
    pub redemption_offer: Pubkey,
    pub redemption_request: Pubkey,
    pub redemption_vault_authority: Pubkey,
    pub vault_token_in_account: Pubkey,
    pub vault_token_out_account: Pubkey,
    pub token_in_mint: Pubkey,
    pub token_in_program: Pubkey,
    pub token_out_mint: Pubkey,
    pub token_out_program: Pubkey,
    pub user_token_out_account: Pubkey,
    pub boss_token_in_account: Pubkey,
    pub mint_authority: Pubkey,
    pub redeemer: Pubkey,
    pub redemption_admin: Pubkey,
}

/// Accounts of `cancel_redemption_request`.
#[derive(Clone, Copy, Debug, PartialEq, Eq)]
pub struct CancelRequestAccounts {
    pub state: Pubkey,
    pub redemption_offer: Pubkey,
    pub redemption_request: Pubkey,
    pub signer: Pubkey,
    pub redeemer: Pubkey,
    pub redemption_admin: Pubkey,
    pub redemption_vault_authority: Pubkey,
    pub token_in_mint: Pubkey,
    pub vault_token_account: Pubkey,
    pub redeemer_token_account: Pubkey,
    pub token_program: Pubkey,
}

/// Accounts of `update_redemption_offer_fee`.
#[derive(Clone, Copy, Debug, PartialEq, Eq)]
pub struct RedemptionFeeAccounts {
    pub redemption_offer: Pubkey,
    pub state: Pubkey,
    pub boss: Pubkey,
}

/// The price of an offer over time, from a start on.
#[derive(Clone, Copy, Debug, PartialEq, Eq)]
pub struct OfferVector {
    pub start_time: Option<u64>,
    pub base_time: u64,
    pub base_price: u64,
    pub apr: u64,
    pub price_fix_duration: u64,
}

/// One call of the program: an instruction with its arguments and accounts.
#[derive(Clone, Copy, Debug, PartialEq, Eq)]
#[allow(inconsistent_fields)]
pub enum Call {
    Initialize { accounts: InitializeAccounts },
    /// `name` is the text of the seed that the authority is derived from.
    InitializePermissionlessAuthority {
        name: [u8; 16],
        accounts: PermissionlessAuthorityAccounts,
    },
    OfferVaultDeposit { amount: u64, accounts: OfferVaultAccounts },
    OfferVaultWithdraw { amount: u64, accounts: OfferVaultAccounts },
    RedemptionVaultDeposit { amount: u64, accounts: RedemptionVaultAccounts },
    RedemptionVaultWithdraw { amount: u64, accounts: RedemptionVaultAccounts },
    MakeOffer {
        fee_basis_points: u16,
        needs_approval: bool,
        allow_permissionless: bool,
        accounts: MakeOfferAccounts,
    },
    AddOfferVector { vector: OfferVector, accounts: OfferAccounts },
    DeleteOfferVector { vector_start_time: u64, accounts: OfferAccounts },
    DeleteAllOfferVectors { accounts: OfferAccounts },
    UpdateOfferFee { new_fee_basis_points: u16, accounts: OfferAccounts },
    TakeOffer {
        token_in_amount: u64,
        approval_message: Option<ApprovalMessage>,
        accounts: TakeOfferAccounts,
    },
    TakeOfferPermissionless {
        token_in_amount: u64,
        approval_message: Option<ApprovalMessage>,
        accounts: PermissionlessTakeAccounts,
    },
    ProposeBoss { new_boss: Pubkey, accounts: BossAccounts },
    AcceptBoss { accounts: AcceptBossAccounts },
    AddAdmin { new_admin: Pubkey, accounts: BossAccounts },
    RemoveAdmin { admin_to_remove: Pubkey, accounts: BossAccounts },
    ClearAdmins { accounts: BossAccounts },
    TransferMintAuthorityToProgram { accounts: MintAuthorityAccounts },
    TransferMintAuthorityToBoss { accounts: MintAuthorityAccounts },
    SetKillSwitch { enable: bool, accounts: KillSwitchAccounts },
    SetOnycMint { accounts: OnycMintAccounts },
    SetRedemptionAdmin { new_redemption_admin: Pubkey, accounts: BossAccounts },
    MintTo { amount: u64, accounts: MintToAccounts },
    GetNav { accounts: QuoteAccounts },
    GetApy { accounts: QuoteAccounts },
    GetNavAdjustment { accounts: QuoteAccounts },
    GetTvl { accounts: TvlAccounts },
    GetCirculatingSupply { accounts: CirculatingSupplyAccounts },
    AddApprover { approver: Pubkey, accounts: BossAccounts },
    RemoveApprover { approver: Pubkey, accounts: BossAccounts },
    ConfigureMaxSupply { max_supply: u64, accounts: BossAccounts },
    CloseState { accounts: BossAccounts },
    MakeRedemptionOffer { fee_basis_points: u16, accounts: MakeRedemptionOfferAccounts },
    CreateRedemptionRequest { amount: u64, accounts: CreateRequestAccounts },
    FulfillRedemptionRequest { accounts: FulfillRequestAccounts },
    CancelRedemptionRequest { accounts: CancelRequestAccounts },
    UpdateRedemptionOfferFee { new_fee_basis_points: u16, accounts: RedemptionFeeAccounts },
}

/// The one or two key pairs that sign a transaction.
#[derive(Clone, Copy, Debug, PartialEq, Eq)]
pub struct Signers {
    pub first: Keypair,
    pub second: Option<Keypair>,
}

/// What to note once a call has succeeded.
#[derive(Clone, Copy, Debug, PartialEq, Eq)]
pub enum Record {
    Nothing,
    /// An offer was made.
    Offer(Pubkey),
    /// A request was opened against the live redemption offer.
    Request(Pubkey),
    /// A request was opened against the ONyc redemption offer that pays in the spare mint.
    PlayRequest(Pubkey),
    /// A request was opened against the redemption offer whose deposits charge a transfer fee.
    FeeRequest(Pubkey),
}

/// A transaction to send: a call, who signs it, and what to note once it has succeeded.
#[derive(Clone, Copy, Debug, PartialEq, Eq)]
pub struct Plan {
    pub call: Call,
    pub signers: Signers,
    pub record: Record,
}

impl Call {
    /// The account whose signature the program demands, where it demands one.
    pub open spec fn must_sign(self) -> Option<Pubkey> {
        match self {
            Call::Initialize { accounts } => Some(accounts.boss),
            Call::InitializePermissionlessAuthority { name: _, accounts } => Some(accounts.boss),
            Call::OfferVaultDeposit { amount: _, accounts } => Some(accounts.boss),
            Call::OfferVaultWithdraw { amount: _, accounts } => Some(accounts.boss),
            Call::RedemptionVaultDeposit { amount: _, accounts } => Some(accounts.boss),
            Call::RedemptionVaultWithdraw { amount: _, accounts } => Some(accounts.boss),
            Call::MakeOffer {
                fee_basis_points: _,
                needs_approval: _,
                allow_permissionless: _,
                accounts,
            } => Some(accounts.boss),
            Call::AddOfferVector { vector: _, accounts } => Some(accounts.boss),
            Call::DeleteOfferVector { vector_start_time: _, accounts } => Some(accounts.boss),
            Call::DeleteAllOfferVectors { accounts } => Some(accounts.boss),
            Call::UpdateOfferFee { new_fee_basis_points: _, accounts } => Some(accounts.boss),
            Call::TakeOffer { token_in_amount: _, approval_message: _, accounts } => Some(
                accounts.user,
            ),
            Call::TakeOfferPermissionless { token_in_amount: _, approval_message: _, accounts } => {
                Some(accounts.take.user)
            },
            Call::ProposeBoss { new_boss: _, accounts } => Some(accounts.boss),
            Call::AcceptBoss { accounts } => Some(accounts.new_boss),
            Call::AddAdmin { new_admin: _, accounts } => Some(accounts.boss),
            Call::RemoveAdmin { admin_to_remove: _, accounts } => Some(accounts.boss),
            Call::ClearAdmins { accounts } => Some(accounts.boss),
            Call::TransferMintAuthorityToProgram { accounts } => Some(accounts.boss),
            Call::TransferMintAuthorityToBoss { accounts } => Some(accounts.boss),
            Call::SetKillSwitch { enable: _, accounts } => Some(accounts.signer),
            Call::SetOnycMint { accounts } => Some(accounts.boss),
            Call::SetRedemptionAdmin { new_redemption_admin: _, accounts } => Some(accounts.boss),
            Call::MintTo { amount: _, accounts } => Some(accounts.boss),
            Call::GetNav { accounts: _ } => None,
            Call::GetApy { accounts: _ } => None,
            Call::GetNavAdjustment { accounts: _ } => None,
            Call::GetTvl { accounts: _ } => None,
            Call::GetCirculatingSupply { accounts: _ } => None,
            Call::AddApprover { approver: _, accounts } => Some(accounts.boss),
            Call::RemoveApprover { approver: _, accounts } => Some(accounts.boss),
            Call::ConfigureMaxSupply { max_supply: _, accounts } => Some(accounts.boss),
            Call::CloseState { accounts } => Some(accounts.boss),
            Call::MakeRedemptionOffer { fee_basis_points: _, accounts } => Some(accounts.signer),
            Call::CreateRedemptionRequest { amount: _, accounts } => Some(accounts.redeemer),
            Call::FulfillRedemptionRequest { accounts } => Some(accounts.redemption_admin),
            Call::CancelRedemptionRequest { accounts } => Some(accounts.signer),
            Call::UpdateRedemptionOfferFee { new_fee_basis_points: _, accounts } => Some(
                accounts.boss,
            ),
        }
    }

    /// Whether every token account that the call names is the associated one of its owner, its
    /// mint and its token program. The program accepts no other.
    pub open spec fn names_associated_accounts(self) -> bool {
        match self {
            Call::OfferVaultDeposit { amount: _, accounts: a } => offer_vault_associated(a),
            Call::OfferVaultWithdraw { amount: _, accounts: a } => offer_vault_associated(a),
            Call::RedemptionVaultDeposit { amount: _, accounts: a } => {
                redemption_vault_associated(a)
            },
            Call::RedemptionVaultWithdraw { amount: _, accounts: a } => {
                redemption_vault_associated(a)
            },
            Call::MakeOffer {
                fee_basis_points: _,
                needs_approval: _,
                allow_permissionless: _,
                accounts: a,
            } => ata(a.vault_authority, a.token_in_mint, a.token_in_program) == Some(
                a.vault_token_in_account,
            ),
            Call::TakeOffer { token_in_amount: _, approval_message: _, accounts: a } => {
                take_associated(a)
            },
            Call::TakeOfferPermissionless {
                token_in_amount: _,
                approval_message: _,
                accounts: a,
            } => {
                &&& take_associated(a.take)
                &&& ata(a.permissionless_authority, a.take.token_in_mint, a.take.token_in_program)
                    == Some(a.permissionless_token_in_account)
                &&& ata(a.permissionless_authority, a.take.token_out_mint, a.take.token_out_program)
                    == Some(a.permissionless_token_out_account)
            },
            Call::MintTo { amount: _, accounts: a } => ata(a.boss, a.onyc_mint, a.token_program)
                == Some(a.boss_onyc_account),
            Call::GetTvl { accounts: a } => ata(
                a.vault_authority,
                a.token_out_mint,
                a.token_out_program,
            ) == Some(a.vault_token_out_account),
            Call::GetCirculatingSupply { accounts: a } => ata(
                a.vault_authority,
                a.onyc_mint,
                a.token_program,
            ) == Some(a.onyc_vault_account),
            Call::MakeRedemptionOffer { fee_basis_points: _, accounts: a } => {
                &&& ata(a.redemption_vault_authority, a.token_in_mint, a.token_in_program) == Some(
                    a.vault_token_in_account,
                )
                &&& ata(a.redemption_vault_authority, a.token_out_mint, a.token_out_program)
                    == Some(a.vault_token_out_account)
            },
            Call::CreateRedemptionRequest { amount: _, accounts: a } => {
                &&& ata(a.redeemer, a.token_in_mint, a.token_program) == Some(
                    a.redeemer_token_account,
                )
                &&& ata(a.redemption_vault_authority, a.token_in_mint, a.token_program) == Some(
                    a.vault_token_account,
                )
            },
            Call::FulfillRedemptionRequest { accounts: a } => {
                &&& ata(a.redemption_vault_authority, a.token_in_mint, a.token_in_program) == Some(
                    a.vault_token_in_account,
                )
                &&& ata(a.redemption_vault_authority, a.token_out_mint, a.token_out_program)
                    == Some(a.vault_token_out_account)
                &&& ata(a.redeemer, a.token_out_mint, a.token_out_program) == Some(
                    a.user_token_out_account,
                )
                &&& ata(a.boss, a.token_in_mint, a.token_in_program) == Some(
                    a.boss_token_in_account,
                )
            },
            Call::CancelRedemptionRequest { accounts: a } => {
                &&& ata(a.redemption_vault_authority, a.token_in_mint, a.token_program) == Some(
                    a.vault_token_account,
                )
                &&& ata(a.redeemer, a.token_in_mint, a.token_program) == Some(
                    a.redeemer_token_account,
                )
            },
            _ => true,
        }
    }
}

/// `names_associated_accounts` of the offer vault's instructions.
pub open spec fn offer_vault_associated(a: OfferVaultAccounts) -> bool {
    &&& ata(a.boss, a.token_mint, a.token_program) == Some(a.boss_token_account)
    &&& ata(a.vault_authority, a.token_mint, a.token_program) == Some(a.vault_token_account)
}

/// `names_associated_accounts` of the redemption vault's instructions.
pub open spec fn redemption_vault_associated(a: RedemptionVaultAccounts) -> bool {
    &&& ata(a.boss, a.token_mint, a.token_program) == Some(a.boss_token_account)
    &&& ata(a.redemption_vault_authority, a.token_mint, a.token_program) == Some(
        a.vault_token_account,
    )
}

/// `names_associated_accounts` of `take_offer`.
pub open spec fn take_associated(a: TakeOfferAccounts) -> bool {
    &&& ata(a.vault_authority, a.token_in_mint, a.token_in_program) == Some(
        a.vault_token_in_account,
    )
    &&& ata(a.vault_authority, a.token_out_mint, a.token_out_program) == Some(
        a.vault_token_out_account,
    )
    &&& ata(a.user, a.token_in_mint, a.token_in_program) == Some(a.user_token_in_account)
    &&& ata(a.user, a.token_out_mint, a.token_out_program) == Some(a.user_token_out_account)
    &&& ata(a.boss, a.token_in_mint, a.token_in_program) == Some(a.boss_token_in_account)
}

impl Plan {
    /// Whether the plan is signed by the account whose signature the program demands.
    pub open spec fn is_signed(self) -> bool {
        match self.call.must_sign() {
            Some(key) => {
                ||| self.signers.first.public() == key
                ||| self.signers.second is Some && self.signers.second->0.public() == key
            },
            None => true,
        }
    }

    /// Whether the plan can be accepted at all: it is signed by whom the program demands, and names
    /// no token account but associated ones.
    pub open spec fn is_sound(self) -> bool {
        self.is_signed() && self.call.names_associated_accounts()
    }
}

} // verus!
