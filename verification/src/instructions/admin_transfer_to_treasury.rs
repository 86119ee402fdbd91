//! The sweep of one vault: the administrator moves funds from a user's vault
//! into the treasury.

use crate::address::Address;
use crate::derivation::{derivation_view, derive_vault, vault_derivation, vault_seeds};
use crate::errors::ErrorCode;
use crate::events::{AdminTransferredToTreasury, AdminTransferredToTreasuryView};
use crate::state::account::Account;
use crate::state::admin_state::AdminState;
use crate::state::token_account::TokenAccount;
use crate::state::treasury_state::TreasuryState;
use crate::state::user_pda::UserPDA;
use crate::transfer::TransferOrder;
use crate::validation::{
    admin_error, check_admin, check_custody, check_input, check_treasury, custody_error,
    first_error, input_error, treasury_error, vault_error,
};
use vstd::prelude::*;
use vstd::slice::slice_to_vec;
use vstd::utf8::encode_utf8;

verus! {

/// The accounts of a sweep of one vault, as the caller resolved them.
#[derive(Clone, Debug, PartialEq, Eq)]
pub struct AdminTransferToTreasury {
    /// The program under which vaults are derived.
    pub program_id: Address,
    /// The administrator record.
    pub admin_state: AdminState,
    /// The treasury record.
    pub treasury_state: TreasuryState,
    /// The custody record of the user, at the address where it was found.
    pub user_pda: Account<UserPDA>,
    /// The token sub-account of the user's vault.
    pub user_pda_ata: Account<TokenAccount>,
    /// The treasury's token sub-account.
    pub treasury_ata: Address,
    /// The token type.
    pub mint: Address,
    /// Who asks for the sweep.
    pub admin: Address,
}

/// What a sweep that was allowed hands back: the transfer for the ledger to
/// make, and the event to log once the ledger has made it.
#[derive(Clone, Debug, PartialEq, Eq)]
pub struct SweepReceipt {
    /// The transfer, on the authority of the custody address.
    pub order: TransferOrder,
    /// The bump with which the custody address signs, after the tag
    /// `deposit` and the user's identifier.
    pub bump: u8,
    /// The event of the sweep.
    pub event: AdminTransferredToTreasury,
}

/// `SweepReceipt` as a value.
pub struct SweepReceiptView {
    pub order: TransferOrder,
    pub bump: u8,
    pub event: AdminTransferredToTreasuryView,
}

impl View for SweepReceipt {
    type V = SweepReceiptView;

    open spec fn view(&self) -> SweepReceiptView {
        SweepReceiptView { order: self.order, bump: self.bump, event: self.event@ }
    }
}

/// The seeds with which the custody address of `user_id` signs: the seeds of
/// the vault, then the bump alone.
pub open spec fn signer_seeds(user_id: Seq<char>, bump: u8) -> Seq<Seq<u8>> {
    vault_seeds(encode_utf8(user_id)).push(seq![bump])
}

impl SweepReceipt {
    /// The seeds with which the custody address signs the transfer, for the
    /// ledger to check the authority by.
    pub fn signer_seeds(&self) -> (seeds: Vec<Vec<u8>>)
        ensures
            seeds.deep_view() == signer_seeds(self.event.user_id@, self.bump),
    {
        let mut seeds: Vec<Vec<u8>> = Vec::new();
        seeds.push(slice_to_vec("deposit".as_bytes()));
        seeds.push(slice_to_vec(self.event.user_id.as_str().as_bytes()));
        let mut last: Vec<u8> = Vec::new();
        last.push(self.bump);
        seeds.push(last);
        assert(seeds.deep_view() =~= signer_seeds(self.event.user_id@, self.bump)) by {
            assert(forall|i: int| 0 <= i < 3 ==> #[trigger] seeds.deep_view()[i] =~= seeds@[i]@);
        }
        seeds
    }
}

/// The receipt of a sweep of `amount` from `vault` into `treasury_ata`, asked
/// for by `admin`: the whole amount goes from the vault to the treasury on
/// the authority of the custody address, and the balance that is reported as
/// remaining is the vault's balance as it was read, less the amount.
pub open spec fn sweep_receipt(
    admin: Address,
    treasury_ata: Address,
    user_id: Seq<char>,
    amount: u64,
    custody: Account<UserPDA>,
    vault: Account<TokenAccount>,
) -> SweepReceiptView {
    SweepReceiptView {
        order: TransferOrder {
            from: vault.address,
            to: treasury_ata,
            authority: custody.address,
            amount: amount,
        },
        bump: custody.data.bump,
        event: AdminTransferredToTreasuryView {
            user_id: user_id,
            amount: amount,
            admin: admin,
            from_ata: vault.address,
            to_treasury: treasury_ata,
            remaining_balance: (vault.data.amount - amount) as u64,
        },
    }
}

/// Writes the receipt of a sweep that has passed its checks.
pub(crate) fn make_sweep_receipt(
    admin: &Address,
    treasury_ata: &Address,
    user_id: &str,
    amount: u64,
    custody: &Account<UserPDA>,
    vault: &Account<TokenAccount>,
) -> (receipt: SweepReceipt)
    requires
        amount <= vault.data.amount,
    ensures
        receipt@ == sweep_receipt(*admin, *treasury_ata, user_id@, amount, *custody, *vault),
{
    SweepReceipt {
        order: TransferOrder {
            from: vault.address,
            to: *treasury_ata,
            authority: custody.address,
            amount: amount,
        },
        bump: custody.data.bump,
        event: AdminTransferredToTreasury {
            user_id: user_id.to_owned(),
            amount: amount,
            admin: *admin,
            from_ata: vault.address,
            to_treasury: *treasury_ata,
            remaining_balance: vault.data.amount - amount,
        },
    }
}

impl AdminTransferToTreasury {
    /// Why a sweep of `amount` from the vault of `user_id` is refused, if it
    /// is, where `derived` is the vault of the user derived anew. The checks,
    /// in their order: the inputs; the administrator; the treasury binding;
    /// the vault of the user.
    pub open spec fn error_for(&self, user_id: Seq<char>, amount: u64, derived: Option<(Seq<u8>, u8)>) -> Option<
        ErrorCode,
    > {
        first_error(
            input_error(user_id, amount),
            first_error(
                admin_error(self.admin_state, self.admin),
                first_error(
                    treasury_error(self.treasury_state, self.treasury_ata, self.mint),
                    custody_error(derived, self.mint, amount, self.user_pda, self.user_pda_ata),
                ),
            ),
        )
    }

    /// Why a sweep of `amount` from the vault of `user_id` is refused, if it
    /// is.
    pub open spec fn error(&self, user_id: Seq<char>, amount: u64) -> Option<ErrorCode> {
        self.error_for(user_id, amount, vault_derivation(encode_utf8(user_id), self.program_id@))
    }

    /// The receipt of a sweep of `amount` from the vault of `user_id`.
    pub open spec fn receipt(&self, user_id: Seq<char>, amount: u64) -> SweepReceiptView {
        sweep_receipt(self.admin, self.treasury_ata, user_id, amount, self.user_pda, self.user_pda_ata)
    }
}

/// Decides a sweep of `amount` from the vault of `user_id` into the
/// treasury, where `found` is the vault of the user derived anew.
///
/// The sweep is allowed exactly when every check passes, and then the receipt
/// orders the whole amount, never a part of it. Otherwise the error of the
/// first check that fails is returned, and nothing is ordered.
pub fn decide_sweep(ctx: &AdminTransferToTreasury, user_id: &str, amount: u64, found: Option<(Address, u8)>) -> (result:
    Result<SweepReceipt, ErrorCode>)
    ensures
        match result {
            Ok(receipt) => ctx.error_for(user_id@, amount, derivation_view(found)) is None && receipt@
                == ctx.receipt(user_id@, amount),
            Err(error) => ctx.error_for(user_id@, amount, derivation_view(found)) == Some(error),
        },
{
    check_input(user_id, amount)?;
    check_admin(&ctx.admin_state, &ctx.admin)?;
    check_treasury(&ctx.treasury_state, &ctx.treasury_ata, &ctx.mint)?;
    check_custody(found, &ctx.mint, amount, &ctx.user_pda, &ctx.user_pda_ata)?;
    Ok(make_sweep_receipt(&ctx.admin, &ctx.treasury_ata, user_id, amount, &ctx.user_pda, &ctx.user_pda_ata))
}

/// Sweeps `amount` from the vault of `user_id` into the treasury: derives
/// the vault of the user anew and decides the sweep by it.
pub fn admin_transfer_to_treasury(ctx: &AdminTransferToTreasury, user_id: &str, amount: u64) -> (result: Result<
    SweepReceipt,
    ErrorCode,
>)
    ensures
        match result {
            Ok(receipt) => ctx.error(user_id@, amount) is None && receipt@ == ctx.receipt(user_id@, amount),
            Err(error) => ctx.error(user_id@, amount) == Some(error),
        },
{
    decide_sweep(ctx, user_id, amount, derive_vault(user_id, &ctx.program_id))
}

/// A sweep never takes more than the vault holds, and never a part of what
/// was asked: where the amount exceeds the balance the sweep is refused, with
/// `InsufficientBalance` where nothing else is wrong, and a sweep that is
/// allowed orders exactly the amount, from the vault to the treasury on
/// record, and reports the balance less the amount as remaining.
pub proof fn lemma_sweep_is_whole_or_refused(
    ctx: AdminTransferToTreasury,
    user_id: Seq<char>,
    amount: u64,
    derived: Option<(Seq<u8>, u8)>,
)
    ensures
        amount > ctx.user_pda_ata.data.amount ==> ctx.error_for(user_id, amount, derived) is Some,
        amount > ctx.user_pda_ata.data.amount && input_error(user_id, amount) is None && admin_error(
            ctx.admin_state,
            ctx.admin,
        ) is None && treasury_error(ctx.treasury_state, ctx.treasury_ata, ctx.mint) is None && vault_error(
            derived,
            ctx.mint,
            ctx.user_pda,
            ctx.user_pda_ata,
        ) is None ==> ctx.error_for(user_id, amount, derived) == Some(ErrorCode::InsufficientBalance),
        ctx.error_for(user_id, amount, derived) is None ==> {
            let receipt = ctx.receipt(user_id, amount);
            &&& 0 < amount <= ctx.user_pda_ata.data.amount
            &&& receipt.order.amount == amount
            &&& receipt.order.from == ctx.user_pda_ata.address
            &&& receipt.order.to == ctx.treasury_state.treasury_ata
            &&& receipt.order.authority == ctx.user_pda.address
            &&& receipt.event.remaining_balance + amount == ctx.user_pda_ata.data.amount
        },
{
}

/// Only the administrator on record sweeps: a sweep that anyone else asks for
/// is refused, whatever else it holds.
pub proof fn lemma_only_the_administrator_sweeps(
    ctx: AdminTransferToTreasury,
    user_id: Seq<char>,
    amount: u64,
    derived: Option<(Seq<u8>, u8)>,
)
    requires
        ctx.admin != ctx.admin_state.admin,
    ensures
        ctx.error_for(user_id, amount, derived) is Some,
        input_error(user_id, amount) is None ==> ctx.error_for(user_id, amount, derived) == Some(
            ErrorCode::UnauthorizedAdmin,
        ),
{
}

/// What a sweep that is allowed has established, whatever the order of the
/// checks: the amount is positive and the identifier valid; the caller is
/// the administrator on record; the treasury record names the sub-account
/// and the token type that were supplied; the vault that was derived for the
/// user is at the custody address, with the record's bump; the custody
/// record names the vault's sub-account, whose authority is the custody
/// address and whose token type is the treasury's; and the balance covers
/// the amount. A sweep of which all that holds is allowed.
pub proof fn lemma_sweep_is_allowed_exactly_when_all_holds(
    ctx: AdminTransferToTreasury,
    user_id: Seq<char>,
    amount: u64,
    derived: Option<(Seq<u8>, u8)>,
)
    ensures
        ctx.error_for(user_id, amount, derived) is None <==> {
            &&& amount > 0
            &&& 0 < encode_utf8(user_id).len() <= crate::state::user_pda::MAX_USER_ID_LEN
            &&& ctx.admin == ctx.admin_state.admin
            &&& ctx.treasury_state.treasury_ata == ctx.treasury_ata
            &&& ctx.treasury_state.token_mint == ctx.mint
            &&& derived == Some((ctx.user_pda.address@, ctx.user_pda.data.bump))
            &&& ctx.user_pda.data.token_account == ctx.user_pda_ata.address
            &&& ctx.user_pda_ata.data.owner == ctx.user_pda.address
            &&& ctx.user_pda_ata.data.mint == ctx.treasury_state.token_mint
            &&& amount <= ctx.user_pda_ata.data.amount
        },
{
}

} // verus!
