//! The creation of a vault: a custody record for a user, bound to a token
//! sub-account that only the custody address has authority over.

use crate::address::Address;
use crate::derivation::{
    derivation_view, derive_vault, derived_bump_at, lemma_derivation_view, vault_derivation,
};
use crate::errors::{CreationError, ErrorCode};
use crate::events::{UserDepositAccountCreated, UserDepositAccountCreatedView};
use crate::state::account::Account;
use crate::state::token_account::TokenAccount;
use crate::state::user_pda::{UserPDA, UserPDAView};
use crate::validation::{check_user_id, user_id_error};
use vstd::prelude::*;
use vstd::utf8::encode_utf8;

verus! {

/// The accounts of the creation of a vault, as the caller resolved them.
#[derive(Clone, Debug, PartialEq, Eq)]
pub struct CreateUserDepositAccount {
    /// The program under which vaults are derived.
    pub program_id: Address,
    /// Where the custody record is to live, and what is there now.
    pub user_pda: Account<Option<UserPDA>>,
    /// The token sub-account of the vault, newly opened.
    pub user_ata: Account<TokenAccount>,
    /// The token type.
    pub subscription_token_mint: Address,
    /// Who calls, and is recorded as the creator.
    pub payer: Address,
}

/// What the creation of a vault tells its caller.
#[derive(Clone, Debug, PartialEq, Eq)]
pub struct CreateAccountResult {
    pub pda_address: Address,
    pub ata_address: Address,
    pub user_id: String,
    pub success: bool,
}

/// `CreateAccountResult` as a value.
pub struct CreateAccountResultView {
    pub pda_address: Address,
    pub ata_address: Address,
    pub user_id: Seq<char>,
    pub success: bool,
}

impl View for CreateAccountResult {
    type V = CreateAccountResultView;

    open spec fn view(&self) -> CreateAccountResultView {
        CreateAccountResultView {
            pda_address: self.pda_address,
            ata_address: self.ata_address,
            user_id: self.user_id@,
            success: self.success,
        }
    }
}

impl CreateUserDepositAccount {
    /// Why the creation of the vault of `user_id` is refused, if it is, where
    /// `derived` is the vault of the user derived anew. The checks, in their
    /// order: the identifier is neither empty nor too long; the record is to
    /// live at the address that was derived; no record exists there yet; the
    /// authority of the sub-account is that address; the sub-account holds
    /// the token type; the sub-account is empty.
    pub open spec fn error_for(&self, user_id: Seq<char>, derived: Option<(Seq<u8>, u8)>) -> Option<CreationError> {
        if user_id_error(user_id) is Some {
            Some(CreationError::Rejected(user_id_error(user_id).unwrap()))
        } else if !(derived matches Some(vault) && vault.0 == self.user_pda.address@) {
            Some(CreationError::Rejected(ErrorCode::InvalidPDA))
        } else if self.user_pda.data is Some {
            Some(CreationError::AlreadyExists)
        } else if self.user_ata.data.owner != self.user_pda.address {
            Some(CreationError::Rejected(ErrorCode::InvalidUserATA))
        } else if self.user_ata.data.mint != self.subscription_token_mint {
            Some(CreationError::Rejected(ErrorCode::InvalidTokenMint))
        } else if self.user_ata.data.amount != 0 {
            Some(CreationError::Rejected(ErrorCode::InvalidUserATA))
        } else {
            None
        }
    }

    /// Why the creation of the vault of `user_id` is refused, if it is.
    pub open spec fn error(&self, user_id: Seq<char>) -> Option<CreationError> {
        self.error_for(user_id, vault_derivation(encode_utf8(user_id), self.program_id@))
    }

    /// The custody record that the creation of the vault of `user_id` at
    /// time `now` writes, where `derived` is the vault of the user.
    pub open spec fn new_record_for(&self, user_id: Seq<char>, now: i64, derived: Option<(Seq<u8>, u8)>) -> UserPDAView {
        UserPDAView {
            user_id: user_id,
            owner: self.payer,
            token_account: self.user_ata.address,
            bump: derived.unwrap().1,
            created_at: now,
        }
    }

    /// The custody record that the creation of the vault of `user_id` at
    /// time `now` writes.
    pub open spec fn new_record(&self, user_id: Seq<char>, now: i64) -> UserPDAView {
        self.new_record_for(user_id, now, vault_derivation(encode_utf8(user_id), self.program_id@))
    }

    /// What the creation of the vault of `user_id` tells its caller.
    pub open spec fn created(&self, user_id: Seq<char>) -> CreateAccountResultView {
        CreateAccountResultView {
            pda_address: self.user_pda.address,
            ata_address: self.user_ata.address,
            user_id: user_id,
            success: true,
        }
    }

    /// The event of the creation of the vault of `user_id`.
    pub open spec fn event(&self, user_id: Seq<char>) -> UserDepositAccountCreatedView {
        UserDepositAccountCreatedView {
            user_id: user_id,
            pda_address: self.user_pda.address,
            token_account: self.user_ata.address,
            owner: self.payer,
        }
    }

    /// The accounts as a creation leaves them where it wrote `record`: the
    /// record is at its place, and nothing else has changed.
    pub open spec fn holds_record_of(&self, before: CreateUserDepositAccount, record: UserPDAView) -> bool {
        &&& self.program_id == before.program_id
        &&& self.user_ata == before.user_ata
        &&& self.subscription_token_mint == before.subscription_token_mint
        &&& self.payer == before.payer
        &&& self.user_pda.address == before.user_pda.address
        &&& self.user_pda.data matches Some(written)
        &&& written@ == record
    }
}

/// Decides the creation of the vault of `user_id` at time `now`, where
/// `found` is the vault of the user derived anew.
///
/// Where the creation is allowed, the custody record is written at the
/// address that was derived, with the bump that was derived, and names the
/// sub-account; the result and the event tell both addresses. Where it is
/// refused, nothing is written: a second call for the same identifier finds
/// the record, fails with `AlreadyExists` and leaves the record as it is.
pub fn decide_creation(
    ctx: &mut CreateUserDepositAccount,
    user_id: &str,
    now: i64,
    found: Option<(Address, u8)>,
) -> (result: Result<(CreateAccountResult, UserDepositAccountCreated), CreationError>)
    ensures
        match result {
            Ok((created, event)) => {
                &&& old(ctx).error_for(user_id@, derivation_view(found)) is None
                &&& final(ctx).holds_record_of(
                    *old(ctx),
                    old(ctx).new_record_for(user_id@, now, derivation_view(found)),
                )
                &&& created@ == old(ctx).created(user_id@)
                &&& event@ == old(ctx).event(user_id@)
            },
            Err(error) => old(ctx).error_for(user_id@, derivation_view(found)) == Some(error) && *final(ctx)
                == *old(ctx),
        },
{
    match check_user_id(user_id) {
        Ok(()) => {},
        Err(error) => {
            return Err(CreationError::Rejected(error));
        },
    }
    proof {
        lemma_derivation_view(found, ctx.user_pda.address, 0);
    }
    let bump: u8 = match derived_bump_at(found, &ctx.user_pda.address) {
        Ok(bump) => bump,
        Err(error) => {
            return Err(CreationError::Rejected(error));
        },
    };
    if ctx.user_pda.data.is_some() {
        return Err(CreationError::AlreadyExists);
    }
    if ctx.user_ata.data.owner != ctx.user_pda.address {
        return Err(CreationError::Rejected(ErrorCode::InvalidUserATA));
    }
    if ctx.user_ata.data.mint != ctx.subscription_token_mint {
        return Err(CreationError::Rejected(ErrorCode::InvalidTokenMint));
    }
    if ctx.user_ata.data.amount != 0 {
        return Err(CreationError::Rejected(ErrorCode::InvalidUserATA));
    }
    let pda_address = ctx.user_pda.address;
    let ata_address = ctx.user_ata.address;
    ctx.user_pda.data = Some(
        UserPDA {
            user_id: user_id.to_owned(),
            owner: ctx.payer,
            token_account: ata_address,
            bump: bump,
            created_at: now,
        },
    );
    let created = CreateAccountResult {
        pda_address: pda_address,
        ata_address: ata_address,
        user_id: user_id.to_owned(),
        success: true,
    };
    let event = UserDepositAccountCreated {
        user_id: user_id.to_owned(),
        pda_address: pda_address,
        token_account: ata_address,
        owner: ctx.payer,
    };
    Ok((created, event))
}

/// Creates the vault of `user_id` at time `now`: derives the vault of the
/// user and decides the creation by it.
pub fn create_user_deposit_account(ctx: &mut CreateUserDepositAccount, user_id: &str, now: i64) -> (result: Result<
    (CreateAccountResult, UserDepositAccountCreated),
    CreationError,
>)
    ensures
        match result {
            Ok((created, event)) => {
                &&& old(ctx).error(user_id@) is None
                &&& final(ctx).holds_record_of(*old(ctx), old(ctx).new_record(user_id@, now))
                &&& created@ == old(ctx).created(user_id@)
                &&& event@ == old(ctx).event(user_id@)
            },
            Err(error) => old(ctx).error(user_id@) == Some(error) && *final(ctx) == *old(ctx),
        },
{
    let found = derive_vault(user_id, &ctx.program_id);
    decide_creation(ctx, user_id, now, found)
}

/// Creation is not idempotent: once the vault of a user has been created, a
/// second creation for the same identifier, at the same address, fails with
/// `AlreadyExists`, and as a creation that is refused it leaves the record
/// as it is.
pub proof fn lemma_second_creation_fails(
    before: CreateUserDepositAccount,
    after: CreateUserDepositAccount,
    user_id: Seq<char>,
    derived: Option<(Seq<u8>, u8)>,
)
    requires
        before.error_for(user_id, derived) is None,
        after.user_pda.address == before.user_pda.address,
        after.user_pda.data is Some,
    ensures
        after.error_for(user_id, derived) == Some(CreationError::AlreadyExists),
{
}

/// The record that a creation writes is a custody record in good standing:
/// its identifier is valid, it lives at the address derived from the
/// identifier with the bump it holds, and it is bound to the sub-account,
/// which is empty.
pub proof fn lemma_created_record_is_valid(ctx: CreateUserDepositAccount, user_id: Seq<char>, now: i64)
    requires
        ctx.error(user_id) is None,
    ensures
        ({
            let record = ctx.new_record(user_id, now);
            &&& record.has_valid_user_id()
            &&& record.is_at(ctx.user_pda.address, ctx.program_id)
            &&& record.binds(ctx.user_pda.address, ctx.user_ata)
            &&& record.owner == ctx.payer
            &&& ctx.user_ata.data.amount == 0
        }),
{
}

/// A vault that has been created is accepted as the vault of its user: with
/// the record that the creation wrote, the sub-account and the token type,
/// the checks that stand before a deposit or a sweep find nothing wrong.
pub proof fn lemma_created_vault_is_accepted(
    ctx: CreateUserDepositAccount,
    user_id: Seq<char>,
    now: i64,
    derived: Option<(Seq<u8>, u8)>,
    record: UserPDA,
)
    requires
        ctx.error_for(user_id, derived) is None,
        record@ == ctx.new_record_for(user_id, now, derived),
    ensures
        crate::validation::vault_error(
            derived,
            ctx.subscription_token_mint,
            Account { address: ctx.user_pda.address, data: record },
            ctx.user_ata,
        ) is None,
        user_id_error(user_id) is None,
{
}

} // verus!
