//! The records that an operation hands to the log when it has succeeded.

use crate::address::Address;
use vstd::prelude::*;

verus! {

/// The program was initialized.
#[derive(Clone, Copy, Debug, PartialEq, Eq)]
pub struct ProgramInitialized {
    pub admin: Address,
    pub token_mint: Address,
    pub treasury_ata: Address,
}

/// The administrator was replaced.
#[derive(Clone, Copy, Debug, PartialEq, Eq)]
pub struct AdminUpdated {
    pub old_admin: Address,
    pub new_admin: Address,
    pub updated_by: Address,
}

/// A vault was created.
#[derive(Clone, Debug, PartialEq, Eq)]
pub struct UserDepositAccountCreated {
    pub user_id: String,
    pub pda_address: Address,
    pub token_account: Address,
    pub owner: Address,
}

/// `UserDepositAccountCreated` as a value.
pub struct UserDepositAccountCreatedView {
    pub user_id: Seq<char>,
    pub pda_address: Address,
    pub token_account: Address,
    pub owner: Address,
}

impl View for UserDepositAccountCreated {
    type V = UserDepositAccountCreatedView;

    open spec fn view(&self) -> UserDepositAccountCreatedView {
        UserDepositAccountCreatedView {
            user_id: self.user_id@,
            pda_address: self.pda_address,
            token_account: self.token_account,
            owner: self.owner,
        }
    }
}

/// A deposit into a vault was ordered.
#[derive(Clone, Debug, PartialEq, Eq)]
pub struct TokensDeposited {
    pub user_id: String,
    pub amount: u64,
    pub depositor: Address,
    pub pda_ata: Address,
}

/// `TokensDeposited` as a value.
pub struct TokensDepositedView {
    pub user_id: Seq<char>,
    pub amount: u64,
    pub depositor: Address,
    pub pda_ata: Address,
}

impl View for TokensDeposited {
    type V = TokensDepositedView;

    open spec fn view(&self) -> TokensDepositedView {
        TokensDepositedView {
            user_id: self.user_id@,
            amount: self.amount,
            depositor: self.depositor,
            pda_ata: self.pda_ata,
        }
    }
}

/// The administrator swept funds from a vault into the treasury.
#[derive(Clone, Debug, PartialEq, Eq)]
pub struct AdminTransferredToTreasury {
    pub user_id: String,
    pub amount: u64,
    pub admin: Address,
    pub from_ata: Address,
    pub to_treasury: Address,
    /// The vault's balance as it was read before the transfer, less the
    /// amount.
    pub remaining_balance: u64,
}

/// `AdminTransferredToTreasury` as a value.
pub struct AdminTransferredToTreasuryView {
    pub user_id: Seq<char>,
    pub amount: u64,
    pub admin: Address,
    pub from_ata: Address,
    pub to_treasury: Address,
    pub remaining_balance: u64,
}

impl View for AdminTransferredToTreasury {
    type V = AdminTransferredToTreasuryView;

    open spec fn view(&self) -> AdminTransferredToTreasuryView {
        AdminTransferredToTreasuryView {
            user_id: self.user_id@,
            amount: self.amount,
            admin: self.admin,
            from_ata: self.from_ata,
            to_treasury: self.to_treasury,
            remaining_balance: self.remaining_balance,
        }
    }
}

} // verus!
