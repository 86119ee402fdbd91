//! The first call: the caller becomes the administrator, and the treasury of
//! a token type is set up.

use crate::address::Address;
use crate::derivation::{
    admin_derivation, derivation_view, derive_admin, derive_treasury, derived_bump_at,
    lemma_derivation_view, treasury_derivation,
};
use crate::errors::{CreationError, ErrorCode};
use crate::events::ProgramInitialized;
use crate::state::account::Account;
use crate::state::admin_state::AdminState;
use crate::state::token_account::TokenAccount;
use crate::state::treasury_state::TreasuryState;
use vstd::prelude::*;

verus! {

/// The accounts of the initialization, as the caller resolved them.
#[derive(Clone, Debug, PartialEq, Eq)]
pub struct Initialize {
    /// The program under which the records are derived.
    pub program_id: Address,
    /// Where the administrator record is to live, and what is there now.
    pub admin_state: Account<Option<AdminState>>,
    /// Where the treasury record is to live, and what is there now.
    pub treasury_state: Account<Option<TreasuryState>>,
    /// The treasury's token sub-account, newly opened.
    pub treasury_ata: Account<TokenAccount>,
    /// The account of the token type.
    pub token_mint: Address,
    /// Who calls, and becomes the administrator.
    pub payer: Address,
}

impl Initialize {
    /// Why the initialization for `token_mint` is refused, if it is, where
    /// `admin` and `treasury` are the addresses derived for the two records.
    /// The checks, in their order: the token type is the one whose account
    /// was supplied; the administrator record is to live at the address
    /// derived for it; so is the treasury record; neither record exists yet;
    /// the authority of the treasury's sub-account is the address of the
    /// treasury record; the sub-account holds the token type; the
    /// sub-account is empty.
    pub open spec fn error_for(
        &self,
        token_mint: Address,
        admin: Option<(Seq<u8>, u8)>,
        treasury: Option<(Seq<u8>, u8)>,
    ) -> Option<CreationError> {
        if self.token_mint != token_mint {
            Some(CreationError::Rejected(ErrorCode::InvalidTokenMint))
        } else if !(admin matches Some(derived) && derived.0 == self.admin_state.address@) {
            Some(CreationError::Rejected(ErrorCode::InvalidPDA))
        } else if !(treasury matches Some(derived) && derived.0 == self.treasury_state.address@) {
            Some(CreationError::Rejected(ErrorCode::InvalidPDA))
        } else if self.admin_state.data is Some || self.treasury_state.data is Some {
            Some(CreationError::AlreadyExists)
        } else if self.treasury_ata.data.owner != self.treasury_state.address {
            Some(CreationError::Rejected(ErrorCode::InvalidTreasuryATA))
        } else if self.treasury_ata.data.mint != token_mint {
            Some(CreationError::Rejected(ErrorCode::InvalidTokenMint))
        } else if self.treasury_ata.data.amount != 0 {
            Some(CreationError::Rejected(ErrorCode::InvalidTreasuryATA))
        } else {
            None
        }
    }

    /// Why the initialization for `token_mint` is refused, if it is.
    pub open spec fn error(&self, token_mint: Address) -> Option<CreationError> {
        self.error_for(
            token_mint,
            admin_derivation(self.program_id@),
            treasury_derivation(token_mint@, self.program_id@),
        )
    }

    /// The administrator record that the initialization at time `now`
    /// writes, where `admin` is what was derived for it: the caller
    /// administers.
    pub open spec fn new_admin_state_for(&self, now: i64, admin: Option<(Seq<u8>, u8)>) -> AdminState {
        AdminState { admin: self.payer, bump: admin.unwrap().1, created_at: now }
    }

    /// The treasury record that the initialization for `token_mint` at time
    /// `now` writes, where `treasury` is what was derived for it.
    pub open spec fn new_treasury_state_for(
        &self,
        token_mint: Address,
        now: i64,
        treasury: Option<(Seq<u8>, u8)>,
    ) -> TreasuryState {
        TreasuryState {
            token_mint: token_mint,
            treasury_ata: self.treasury_ata.address,
            bump: treasury.unwrap().1,
            created_at: now,
        }
    }

    /// The administrator record that the initialization at time `now`
    /// writes.
    pub open spec fn new_admin_state(&self, now: i64) -> AdminState {
        self.new_admin_state_for(now, admin_derivation(self.program_id@))
    }

    /// The treasury record that the initialization for `token_mint` at time
    /// `now` writes.
    pub open spec fn new_treasury_state(&self, token_mint: Address, now: i64) -> TreasuryState {
        self.new_treasury_state_for(token_mint, now, treasury_derivation(token_mint@, self.program_id@))
    }

    /// The accounts as an initialization leaves them where it wrote the two
    /// records: each is at its place, and nothing else has changed.
    pub open spec fn with_records(&self, admin_state: AdminState, treasury_state: TreasuryState) -> Initialize {
        Initialize {
            admin_state: Account { address: self.admin_state.address, data: Some(admin_state) },
            treasury_state: Account { address: self.treasury_state.address, data: Some(treasury_state) },
            ..*self
        }
    }

    /// The event of the initialization for `token_mint`.
    pub open spec fn event(&self, token_mint: Address) -> ProgramInitialized {
        ProgramInitialized { admin: self.payer, token_mint: token_mint, treasury_ata: self.treasury_ata.address }
    }
}

/// Decides the initialization of the program for `token_mint` at time `now`,
/// where `admin` and `treasury` are the addresses derived for the two
/// records.
///
/// Where the initialization is allowed, the two records are written, each at
/// the address that was derived for it, with its bump, and the caller is the
/// administrator. Where it is refused, nothing is written: in particular a
/// second call finds the records and leaves them as they are.
pub fn decide_initialization(
    ctx: &mut Initialize,
    token_mint: Address,
    now: i64,
    admin: Option<(Address, u8)>,
    treasury: Option<(Address, u8)>,
) -> (result: Result<ProgramInitialized, CreationError>)
    ensures
        match result {
            Ok(event) => {
                &&& old(ctx).error_for(token_mint, derivation_view(admin), derivation_view(treasury)) is None
                &&& *final(ctx) == old(ctx).with_records(
                    old(ctx).new_admin_state_for(now, derivation_view(admin)),
                    old(ctx).new_treasury_state_for(token_mint, now, derivation_view(treasury)),
                )
                &&& event == old(ctx).event(token_mint)
            },
            Err(error) => old(ctx).error_for(token_mint, derivation_view(admin), derivation_view(treasury))
                == Some(error) && *final(ctx) == *old(ctx),
        },
{
    if ctx.token_mint != token_mint {
        return Err(CreationError::Rejected(ErrorCode::InvalidTokenMint));
    }
    proof {
        lemma_derivation_view(admin, ctx.admin_state.address, 0);
        lemma_derivation_view(treasury, ctx.treasury_state.address, 0);
    }
    let admin_bump: u8 = match derived_bump_at(admin, &ctx.admin_state.address) {
        Ok(bump) => bump,
        Err(error) => {
            return Err(CreationError::Rejected(error));
        },
    };
    let treasury_bump: u8 = match derived_bump_at(treasury, &ctx.treasury_state.address) {
        Ok(bump) => bump,
        Err(error) => {
            return Err(CreationError::Rejected(error));
        },
    };
    if ctx.admin_state.data.is_some() || ctx.treasury_state.data.is_some() {
        return Err(CreationError::AlreadyExists);
    }
    if ctx.treasury_ata.data.owner != ctx.treasury_state.address {
        return Err(CreationError::Rejected(ErrorCode::InvalidTreasuryATA));
    }
    if ctx.treasury_ata.data.mint != token_mint {
        return Err(CreationError::Rejected(ErrorCode::InvalidTokenMint));
    }
    if ctx.treasury_ata.data.amount != 0 {
        return Err(CreationError::Rejected(ErrorCode::InvalidTreasuryATA));
    }
    ctx.admin_state.data = Some(AdminState { admin: ctx.payer, bump: admin_bump, created_at: now });
    ctx.treasury_state.data = Some(
        TreasuryState {
            token_mint: token_mint,
            treasury_ata: ctx.treasury_ata.address,
            bump: treasury_bump,
            created_at: now,
        },
    );
    Ok(ProgramInitialized { admin: ctx.payer, token_mint: token_mint, treasury_ata: ctx.treasury_ata.address })
}

/// Initializes the program for `token_mint` at time `now`: derives the
/// addresses of the two records and decides the initialization by them.
pub fn initialize(ctx: &mut Initialize, token_mint: Address, now: i64) -> (result: Result<
    ProgramInitialized,
    CreationError,
>)
    ensures
        match result {
            Ok(event) => {
                &&& old(ctx).error(token_mint) is None
                &&& *final(ctx) == old(ctx).with_records(
                    old(ctx).new_admin_state(now),
                    old(ctx).new_treasury_state(token_mint, now),
                )
                &&& event == old(ctx).event(token_mint)
            },
            Err(error) => old(ctx).error(token_mint) == Some(error) && *final(ctx) == *old(ctx),
        },
{
    let admin = derive_admin(&ctx.program_id);
    let treasury = derive_treasury(&token_mint, &ctx.program_id);
    decide_initialization(ctx, token_mint, now, admin, treasury)
}

/// Initialization happens once: after it has been allowed, a second call
/// that finds the records fails with `AlreadyExists`, whoever calls, so the
/// first caller stays the administrator until a rotation.
pub proof fn lemma_second_initialization_fails(
    before: Initialize,
    after: Initialize,
    token_mint: Address,
    admin: Option<(Seq<u8>, u8)>,
    treasury: Option<(Seq<u8>, u8)>,
)
    requires
        before.error_for(token_mint, admin, treasury) is None,
        after.token_mint == before.token_mint,
        after.admin_state.address == before.admin_state.address,
        after.treasury_state.address == before.treasury_state.address,
        after.admin_state.data is Some || after.treasury_state.data is Some,
    ensures
        after.error_for(token_mint, admin, treasury) == Some(CreationError::AlreadyExists),
{
}

/// The records that an initialization writes are in good standing: each
/// lives at its derived address with the bump it holds, the treasury record
/// is bound to its sub-account, which is empty, and the caller administers.
pub proof fn lemma_initialized_records_are_valid(ctx: Initialize, token_mint: Address, now: i64)
    requires
        ctx.error(token_mint) is None,
    ensures
        ctx.new_admin_state(now).is_at(ctx.admin_state.address, ctx.program_id),
        ctx.new_admin_state(now).admin == ctx.payer,
        ctx.new_treasury_state(token_mint, now).is_at(ctx.treasury_state.address, ctx.program_id),
        ctx.new_treasury_state(token_mint, now).binds(ctx.treasury_state.address, ctx.treasury_ata),
        ctx.treasury_ata.data.amount == 0,
{
}

} // verus!
