//! The checks that stand before every movement of funds. Each is a pure
//! function of the values it is given; the first that fails decides the
//! error.
//!
//! The checks derive nothing themselves. The vault of the user is derived
//! anew by the operation and handed to them, and they compare it with what
//! the caller supplied.

use crate::address::Address;
use crate::derivation::{derivation_view, lemma_derivation_view};
use crate::errors::ErrorCode;
use crate::state::account::Account;
use crate::state::admin_state::AdminState;
use crate::state::token_account::TokenAccount;
use crate::state::treasury_state::TreasuryState;
use crate::state::user_pda::{UserPDA, MAX_USER_ID_LEN};
use vstd::prelude::*;
use vstd::utf8::encode_utf8;

verus! {

/// A check as a result: passed, or failed with its error.
pub open spec fn verdict(error: Option<ErrorCode>) -> Result<(), ErrorCode> {
    match error {
        Some(e) => Err(e),
        None => Ok(()),
    }
}

/// The error of the first of two checks that fails.
pub open spec fn first_error(first: Option<ErrorCode>, second: Option<ErrorCode>) -> Option<ErrorCode> {
    if first is Some {
        first
    } else {
        second
    }
}

/// The identifier is neither empty nor longer than `MAX_USER_ID_LEN` bytes.
pub open spec fn user_id_error(user_id: Seq<char>) -> Option<ErrorCode> {
    if encode_utf8(user_id).len() == 0 {
        Some(ErrorCode::EmptyUserId)
    } else if encode_utf8(user_id).len() > MAX_USER_ID_LEN {
        Some(ErrorCode::UserIdTooLong)
    } else {
        None
    }
}

/// The amount is positive.
pub open spec fn amount_error(amount: u64) -> Option<ErrorCode> {
    if amount == 0 {
        Some(ErrorCode::InvalidAmount)
    } else {
        None
    }
}

/// Input sanity: the amount, then the identifier.
pub open spec fn input_error(user_id: Seq<char>, amount: u64) -> Option<ErrorCode> {
    first_error(amount_error(amount), user_id_error(user_id))
}

/// The administrator check: the caller is the administrator on record.
pub open spec fn admin_error(admin_state: AdminState, caller: Address) -> Option<ErrorCode> {
    if admin_state.admin != caller {
        Some(ErrorCode::UnauthorizedAdmin)
    } else {
        None
    }
}

/// The treasury binding check: the treasury record names the sub-account and
/// the token type that were supplied.
pub open spec fn treasury_error(treasury_state: TreasuryState, treasury_ata: Address, mint: Address) -> Option<
    ErrorCode,
> {
    if treasury_state.treasury_ata != treasury_ata {
        Some(ErrorCode::InvalidTreasuryATA)
    } else if treasury_state.token_mint != mint {
        Some(ErrorCode::InvalidTokenMint)
    } else {
        None
    }
}

/// The derivation check: `derived`, the vault of the user derived anew, is
/// at the address at which the custody record was supplied, with the bump
/// that the record holds.
pub open spec fn derivation_error(derived: Option<(Seq<u8>, u8)>, custody: Account<UserPDA>) -> Option<ErrorCode> {
    if derived != Some((custody.address@, custody.data.bump)) {
        Some(ErrorCode::InvalidPDA)
    } else {
        None
    }
}

/// The checks that a vault is the vault that was derived for the user, in
/// their order: the derivation check; the custody record names the
/// sub-account that was supplied; the sub-account holds the token type
/// `mint`; the sub-account's authority is the custody address.
pub open spec fn vault_error(
    derived: Option<(Seq<u8>, u8)>,
    mint: Address,
    custody: Account<UserPDA>,
    vault: Account<TokenAccount>,
) -> Option<ErrorCode> {
    if derivation_error(derived, custody) is Some {
        derivation_error(derived, custody)
    } else if custody.data.token_account != vault.address {
        Some(ErrorCode::InvalidUserATA)
    } else if vault.data.mint != mint {
        Some(ErrorCode::InvalidTokenMint)
    } else if vault.data.owner != custody.address {
        Some(ErrorCode::InvalidUserATA)
    } else {
        None
    }
}

/// The balance of the vault covers the amount.
pub open spec fn balance_error(vault: Account<TokenAccount>, amount: u64) -> Option<ErrorCode> {
    if vault.data.amount < amount {
        Some(ErrorCode::InsufficientBalance)
    } else {
        None
    }
}

/// The checks on the vault of one user before funds are taken from it: it is
/// the user's vault, and its balance covers the amount.
pub open spec fn custody_error(
    derived: Option<(Seq<u8>, u8)>,
    mint: Address,
    amount: u64,
    custody: Account<UserPDA>,
    vault: Account<TokenAccount>,
) -> Option<ErrorCode> {
    first_error(vault_error(derived, mint, custody, vault), balance_error(vault, amount))
}

/// Checks that an identifier is neither empty nor too long.
pub fn check_user_id(user_id: &str) -> (result: Result<(), ErrorCode>)
    ensures
        result == verdict(user_id_error(user_id@)),
{
    let len: usize = user_id.as_bytes().len();
    if len == 0 {
        return Err(ErrorCode::EmptyUserId);
    }
    if len > MAX_USER_ID_LEN {
        return Err(ErrorCode::UserIdTooLong);
    }
    Ok(())
}

/// Checks that an amount is positive.
pub fn check_amount(amount: u64) -> (result: Result<(), ErrorCode>)
    ensures
        result == verdict(amount_error(amount)),
{
    if amount == 0 {
        return Err(ErrorCode::InvalidAmount);
    }
    Ok(())
}

/// Checks the inputs of a movement of funds.
pub fn check_input(user_id: &str, amount: u64) -> (result: Result<(), ErrorCode>)
    ensures
        result == verdict(input_error(user_id@, amount)),
{
    check_amount(amount)?;
    check_user_id(user_id)
}

/// Checks that `caller` is the administrator on record.
pub fn check_admin(admin_state: &AdminState, caller: &Address) -> (result: Result<(), ErrorCode>)
    ensures
        result == verdict(admin_error(*admin_state, *caller)),
{
    if admin_state.admin != *caller {
        return Err(ErrorCode::UnauthorizedAdmin);
    }
    Ok(())
}

/// Checks that the treasury record names the sub-account and the token type
/// that were supplied.
pub fn check_treasury(treasury_state: &TreasuryState, treasury_ata: &Address, mint: &Address) -> (result: Result<
    (),
    ErrorCode,
>)
    ensures
        result == verdict(treasury_error(*treasury_state, *treasury_ata, *mint)),
{
    if treasury_state.treasury_ata != *treasury_ata {
        return Err(ErrorCode::InvalidTreasuryATA);
    }
    if treasury_state.token_mint != *mint {
        return Err(ErrorCode::InvalidTokenMint);
    }
    Ok(())
}

/// Compares the vault that was derived for the user with the custody record
/// that was supplied.
pub fn check_derivation(found: Option<(Address, u8)>, custody: &Account<UserPDA>) -> (result: Result<(), ErrorCode>)
    ensures
        result == verdict(derivation_error(derivation_view(found), *custody)),
{
    proof {
        lemma_derivation_view(found, custody.address, custody.data.bump);
    }
    match found {
        Some((address, bump)) => {
            if address != custody.address {
                return Err(ErrorCode::InvalidPDA);
            }
            if bump != custody.data.bump {
                return Err(ErrorCode::InvalidPDA);
            }
            Ok(())
        },
        None => Err(ErrorCode::InvalidPDA),
    }
}

/// Checks that a vault is the vault that was derived for the user.
pub fn check_vault(
    found: Option<(Address, u8)>,
    mint: &Address,
    custody: &Account<UserPDA>,
    vault: &Account<TokenAccount>,
) -> (result: Result<(), ErrorCode>)
    ensures
        result == verdict(vault_error(derivation_view(found), *mint, *custody, *vault)),
{
    check_derivation(found, custody)?;
    if custody.data.token_account != vault.address {
        return Err(ErrorCode::InvalidUserATA);
    }
    if vault.data.mint != *mint {
        return Err(ErrorCode::InvalidTokenMint);
    }
    if vault.data.owner != custody.address {
        return Err(ErrorCode::InvalidUserATA);
    }
    Ok(())
}

/// Checks the vault of one user before `amount` is taken from it.
pub fn check_custody(
    found: Option<(Address, u8)>,
    mint: &Address,
    amount: u64,
    custody: &Account<UserPDA>,
    vault: &Account<TokenAccount>,
) -> (result: Result<(), ErrorCode>)
    ensures
        result == verdict(custody_error(derivation_view(found), *mint, amount, *custody, *vault)),
{
    check_vault(found, mint, custody, vault)?;
    if vault.data.amount < amount {
        return Err(ErrorCode::InsufficientBalance);
    }
    Ok(())
}

/// What the checks on a vault establish, whatever their order: they pass
/// exactly when the vault that was derived is at the custody address with
/// the record's bump, the record is bound to the sub-account, the
/// sub-account holds the token type, and its balance covers the amount.
pub proof fn lemma_custody_checks(
    derived: Option<(Seq<u8>, u8)>,
    mint: Address,
    amount: u64,
    custody: Account<UserPDA>,
    vault: Account<TokenAccount>,
)
    ensures
        vault_error(derived, mint, custody, vault) is None <==> {
            &&& derived == Some((custody.address@, custody.data.bump))
            &&& custody.data@.binds(custody.address, vault)
            &&& vault.data.mint == mint
        },
        custody_error(derived, mint, amount, custody, vault) is None <==> {
            &&& vault_error(derived, mint, custody, vault) is None
            &&& amount <= vault.data.amount
        },
{
}

} // verus!
