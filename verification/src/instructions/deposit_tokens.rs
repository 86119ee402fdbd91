//! A deposit: a user moves funds from a token sub-account of their own into
//! a vault.

use crate::address::Address;
use crate::derivation::{derivation_view, derive_vault, vault_derivation};
use crate::errors::ErrorCode;
use crate::events::{TokensDeposited, TokensDepositedView};
use crate::state::account::Account;
use crate::state::token_account::TokenAccount;
use crate::state::user_pda::UserPDA;
use crate::transfer::TransferOrder;
use crate::validation::{amount_error, check_amount, check_vault, first_error, vault_error};
use vstd::prelude::*;
use vstd::utf8::encode_utf8;

verus! {

/// The accounts of a deposit, as the caller resolved them.
#[derive(Clone, Debug, PartialEq, Eq)]
pub struct DepositTokens {
    /// The program under which vaults are derived.
    pub program_id: Address,
    /// The custody record of the user, at the address where it was found.
    pub user_pda: Account<UserPDA>,
    /// The token sub-account of the user's vault.
    pub user_pda_ata: Account<TokenAccount>,
    /// The token sub-account that the funds come from.
    pub user_token_account: Account<TokenAccount>,
    /// The token type.
    pub mint: Address,
    /// Who deposits.
    pub user: Address,
}

/// What a deposit that was allowed hands back: the transfer for the ledger to
/// make, and the event to log once the ledger has made it.
#[derive(Clone, Debug, PartialEq, Eq)]
pub struct DepositReceipt {
    /// The transfer, on the authority of the depositor.
    pub order: TransferOrder,
    /// The event of the deposit.
    pub event: TokensDeposited,
}

/// `DepositReceipt` as a value.
pub struct DepositReceiptView {
    pub order: TransferOrder,
    pub event: TokensDepositedView,
}

impl View for DepositReceipt {
    type V = DepositReceiptView;

    open spec fn view(&self) -> DepositReceiptView {
        DepositReceiptView { order: self.order, event: self.event@ }
    }
}

impl DepositTokens {
    /// The checks on the sub-account that the funds come from, in their
    /// order: it holds the token type; the depositor is its authority.
    pub open spec fn source_error(&self) -> Option<ErrorCode> {
        if self.user_token_account.data.mint != self.mint {
            Some(ErrorCode::InvalidTokenMint)
        } else if self.user_token_account.data.owner != self.user {
            Some(ErrorCode::InvalidUserATA)
        } else {
            None
        }
    }

    /// Why a deposit of `amount` into the vault is refused, if it is, where
    /// `derived` is the vault of the user derived anew. The checks, in their
    /// order: the amount is positive; the vault is the vault of the user; the
    /// funds come from a sub-account of the depositor's own.
    pub open spec fn error_for(&self, amount: u64, derived: Option<(Seq<u8>, u8)>) -> Option<ErrorCode> {
        first_error(
            amount_error(amount),
            first_error(
                vault_error(derived, self.mint, self.user_pda, self.user_pda_ata),
                self.source_error(),
            ),
        )
    }

    /// Why a deposit of `amount` into the vault of `user_id` is refused, if
    /// it is.
    pub open spec fn error(&self, user_id: Seq<char>, amount: u64) -> Option<ErrorCode> {
        self.error_for(amount, vault_derivation(encode_utf8(user_id), self.program_id@))
    }

    /// The receipt of a deposit of `amount` into the vault of `user_id`: the
    /// whole amount goes from the depositor's sub-account to the vault, on
    /// the depositor's own authority.
    pub open spec fn receipt(&self, user_id: Seq<char>, amount: u64) -> DepositReceiptView {
        DepositReceiptView {
            order: TransferOrder {
                from: self.user_token_account.address,
                to: self.user_pda_ata.address,
                authority: self.user,
                amount: amount,
            },
            event: TokensDepositedView {
                user_id: user_id,
                amount: amount,
                depositor: self.user,
                pda_ata: self.user_pda_ata.address,
            },
        }
    }
}

/// Decides a deposit of `amount` into the vault of `user_id`, where `found`
/// is the vault of the user derived anew.
///
/// The deposit is allowed exactly when the amount is positive, the vault is
/// the user's and the funds come from a sub-account of which the depositor
/// is the authority. Whether that sub-account holds enough is for the ledger
/// to say when it is given the order.
pub fn decide_deposit(ctx: &DepositTokens, user_id: &str, amount: u64, found: Option<(Address, u8)>) -> (result:
    Result<DepositReceipt, ErrorCode>)
    ensures
        match result {
            Ok(receipt) => ctx.error_for(amount, derivation_view(found)) is None && receipt@ == ctx.receipt(
                user_id@,
                amount,
            ),
            Err(error) => ctx.error_for(amount, derivation_view(found)) == Some(error),
        },
{
    check_amount(amount)?;
    check_vault(found, &ctx.mint, &ctx.user_pda, &ctx.user_pda_ata)?;
    if ctx.user_token_account.data.mint != ctx.mint {
        return Err(ErrorCode::InvalidTokenMint);
    }
    if ctx.user_token_account.data.owner != ctx.user {
        return Err(ErrorCode::InvalidUserATA);
    }
    Ok(
        DepositReceipt {
            order: TransferOrder {
                from: ctx.user_token_account.address,
                to: ctx.user_pda_ata.address,
                authority: ctx.user,
                amount: amount,
            },
            event: TokensDeposited {
                user_id: user_id.to_owned(),
                amount: amount,
                depositor: ctx.user,
                pda_ata: ctx.user_pda_ata.address,
            },
        },
    )
}

/// Deposits `amount` into the vault of `user_id`: derives the vault of the
/// user anew and decides the deposit by it.
pub fn deposit_tokens(ctx: &DepositTokens, user_id: &str, amount: u64) -> (result: Result<DepositReceipt, ErrorCode>)
    ensures
        match result {
            Ok(receipt) => ctx.error(user_id@, amount) is None && receipt@ == ctx.receipt(user_id@, amount),
            Err(error) => ctx.error(user_id@, amount) == Some(error),
        },
{
    decide_deposit(ctx, user_id, amount, derive_vault(user_id, &ctx.program_id))
}

/// A deposit that is allowed orders exactly the amount, from a sub-account of
/// the depositor's own, into the vault that was derived for the user and that
/// the custody record names.
pub proof fn lemma_deposit_goes_to_the_vault(
    ctx: DepositTokens,
    user_id: Seq<char>,
    amount: u64,
    derived: Option<(Seq<u8>, u8)>,
)
    requires
        ctx.error_for(amount, derived) is None,
    ensures
        ctx.receipt(user_id, amount).order.amount == amount,
        amount > 0,
        ctx.receipt(user_id, amount).order.to == ctx.user_pda.data.token_account,
        ctx.receipt(user_id, amount).order.authority == ctx.user_token_account.data.owner,
        derived == Some((ctx.user_pda_ata.data.owner@, ctx.user_pda.data.bump)),
{
}

} // verus!
