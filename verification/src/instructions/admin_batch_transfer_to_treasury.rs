//! The sweep of a batch: the administrator moves funds from up to
//! `MAX_BATCH_USERS` vaults into the treasury, all of them or none.
//!
//! A batch comes with a flat list of account handles, two for each user. The
//! batch is decided entry by entry: each entry takes its two handles from the
//! list, passes the checks on them and adds its amount to the running total.
//! `decide_batch` goes through all entries on the handles as they were
//! resolved; `sweep_entry` decides a single one.

use crate::address::Address;
use crate::derivation::{derivation_view, derive_vault, vault_derivation};
use crate::errors::ErrorCode;
use crate::instructions::admin_transfer_to_treasury::{
    make_sweep_receipt, sweep_receipt, SweepReceipt, SweepReceiptView,
};
use crate::state::account::Account;
use crate::state::admin_state::AdminState;
use crate::state::token_account::TokenAccount;
use crate::state::treasury_state::TreasuryState;
use crate::state::user_pda::UserPDA;
use crate::validation::{
    admin_error, check_admin, check_custody, check_input, check_treasury, custody_error,
    first_error, input_error, treasury_error, verdict,
};
use vstd::prelude::*;
use vstd::utf8::encode_utf8;

verus! {

/// The most users that one batch may name.
pub const MAX_BATCH_USERS: usize = 5;

/// One of the account handles that come with a batch: a custody record or a
/// token sub-account, each at the address where the caller found it.
#[derive(Clone, Debug, PartialEq, Eq)]
pub enum AccountHandle {
    Custody(Account<UserPDA>),
    Token(Account<TokenAccount>),
}

/// The accounts of a batch sweep that are the same for every entry, as the
/// caller resolved them.
#[derive(Clone, Copy, Debug, PartialEq, Eq)]
pub struct AdminBatchTransferToTreasury {
    /// The program under which vaults are derived.
    pub program_id: Address,
    /// The administrator record.
    pub admin_state: AdminState,
    /// The treasury record.
    pub treasury_state: TreasuryState,
    /// The treasury's token sub-account.
    pub treasury_ata: Address,
    /// The token type.
    pub mint: Address,
    /// Who asks for the sweep.
    pub admin: Address,
}

/// What a batch that was allowed hands back.
#[derive(Clone, Debug, PartialEq, Eq)]
pub struct BatchReceipt {
    /// One receipt for each user, in the order of the users.
    pub transfers: Vec<SweepReceipt>,
    /// The sum of the amounts.
    pub total_transferred: u64,
}

/// The sum of the first `count` amounts.
pub open spec fn running_total(amounts: Seq<u64>, count: int) -> int
    decreases count,
{
    if count <= 0 {
        0
    } else {
        running_total(amounts, count - 1) + amounts[count - 1]
    }
}

/// The vaults of the users of a batch, each derived anew, in the order of
/// the users.
pub open spec fn vault_derivations(user_ids: Seq<Seq<char>>, program: Seq<u8>) -> Seq<Option<(Seq<u8>, u8)>> {
    Seq::new(user_ids.len(), |i: int| vault_derivation(encode_utf8(user_ids[i]), program))
}

/// A list of derivations by their views.
pub open spec fn derivations_view(found: Seq<Option<(Address, u8)>>) -> Seq<Option<(Seq<u8>, u8)>> {
    Seq::new(found.len(), |i: int| derivation_view(found[i]))
}

/// The vault that was derived for the entry at `index`. Where the list holds
/// none for it, nothing was derived.
pub open spec fn derived_at(derived: Seq<Option<(Seq<u8>, u8)>>, index: int) -> Option<(Seq<u8>, u8)> {
    if 0 <= index < derived.len() {
        derived[index]
    } else {
        None
    }
}

/// The two handles of the entry at `index`: the custody record and the token
/// sub-account that stand at its place in the list. Where the list has run
/// out, or holds another kind of handle at either place, there are none.
pub open spec fn entry_handles(handles: Seq<AccountHandle>, index: int) -> Option<
    (Account<UserPDA>, Account<TokenAccount>),
> {
    if 0 <= index && 2 * index + 1 < handles.len() {
        match (handles[2 * index], handles[2 * index + 1]) {
            (AccountHandle::Custody(custody), AccountHandle::Token(vault)) => Some((custody, vault)),
            _ => None,
        }
    } else {
        None
    }
}

/// Two handles by their values.
pub open spec fn handles_view(pair: Option<(&Account<UserPDA>, &Account<TokenAccount>)>) -> Option<
    (Account<UserPDA>, Account<TokenAccount>),
> {
    match pair {
        Some((custody, vault)) => Some((*custody, *vault)),
        None => None,
    }
}

/// Takes the two handles of the entry at `index` from the list.
pub fn take_entry_handles(handles: &Vec<AccountHandle>, index: usize) -> (pair: Option<
    (&Account<UserPDA>, &Account<TokenAccount>),
>)
    ensures
        handles_view(pair) == entry_handles(handles@, index as int),
{
    let count: usize = handles.len();
    if index >= count / 2 {
        return None;
    }
    match &handles[2 * index] {
        AccountHandle::Custody(custody) => {
            match &handles[2 * index + 1] {
                AccountHandle::Token(vault) => Some((custody, vault)),
                AccountHandle::Custody(_) => None,
            }
        },
        AccountHandle::Token(_) => None,
    }
}

impl AdminBatchTransferToTreasury {
    /// Why the batch is refused before any entry is looked at, if it is,
    /// where it names `users` users and comes with `amounts` amounts and
    /// `handles` handles. The checks, in their order: there is a user; there
    /// are no more than `MAX_BATCH_USERS`; there is an amount for each user;
    /// there are two handles for each user; the administrator; the treasury
    /// binding.
    pub open spec fn precondition_error(&self, users: nat, amounts: nat, handles: nat) -> Option<ErrorCode> {
        if users == 0 {
            Some(ErrorCode::EmptyUserList)
        } else if users > MAX_BATCH_USERS {
            Some(ErrorCode::TooManyUsers)
        } else if users != amounts {
            Some(ErrorCode::MismatchedArrayLengths)
        } else if handles != 2 * users {
            Some(ErrorCode::InvalidAccountList)
        } else {
            first_error(
                admin_error(self.admin_state, self.admin),
                treasury_error(self.treasury_state, self.treasury_ata, self.mint),
            )
        }
    }

    /// Why an entry fails its checks, if it does, where `pair` holds its two
    /// handles and `derived` is the vault of its user derived anew. The
    /// checks, in their order: the two handles are there, or else the error
    /// is `InvalidAccountList`; the inputs; the vault of the user.
    pub open spec fn entry_check_error(
        &self,
        user_id: Seq<char>,
        amount: u64,
        pair: Option<(Account<UserPDA>, Account<TokenAccount>)>,
        derived: Option<(Seq<u8>, u8)>,
    ) -> Option<ErrorCode> {
        match pair {
            Some((custody, vault)) => first_error(
                input_error(user_id, amount),
                custody_error(derived, self.mint, amount, custody, vault),
            ),
            None => Some(ErrorCode::InvalidAccountList),
        }
    }

    /// Why an entry fails, if it does, where `total` is the running total
    /// before it: it fails its checks, or its amount takes the running total
    /// beyond what 64 bits hold.
    pub open spec fn entry_step_error(
        &self,
        user_id: Seq<char>,
        amount: u64,
        pair: Option<(Account<UserPDA>, Account<TokenAccount>)>,
        derived: Option<(Seq<u8>, u8)>,
        total: int,
    ) -> Option<ErrorCode> {
        first_error(
            self.entry_check_error(user_id, amount, pair, derived),
            if total + amount > u64::MAX {
                Some(ErrorCode::ArithmeticOverflow)
            } else {
                None
            },
        )
    }

    /// The receipt of an entry whose handles are `pair`.
    pub open spec fn entry_receipt(
        &self,
        user_id: Seq<char>,
        amount: u64,
        pair: Option<(Account<UserPDA>, Account<TokenAccount>)>,
    ) -> SweepReceiptView {
        let (custody, vault) = pair.unwrap();
        sweep_receipt(self.admin, self.treasury_ata, user_id, amount, custody, vault)
    }

    /// Why the entry at `index` of a batch fails, if it does, with its
    /// handles taken from the list and the running total of the entries
    /// before it.
    pub open spec fn entry_error(
        &self,
        user_ids: Seq<Seq<char>>,
        amounts: Seq<u64>,
        handles: Seq<AccountHandle>,
        derived: Seq<Option<(Seq<u8>, u8)>>,
        index: int,
    ) -> Option<ErrorCode> {
        self.entry_step_error(
            user_ids[index],
            amounts[index],
            entry_handles(handles, index),
            derived_at(derived, index),
            running_total(amounts, index),
        )
    }

    /// The error of the first entry from `from` on that fails, if one does.
    pub open spec fn entries_error(
        &self,
        user_ids: Seq<Seq<char>>,
        amounts: Seq<u64>,
        handles: Seq<AccountHandle>,
        derived: Seq<Option<(Seq<u8>, u8)>>,
        from: int,
    ) -> Option<ErrorCode>
        decreases user_ids.len() - from,
    {
        if 0 <= from < user_ids.len() {
            first_error(
                self.entry_error(user_ids, amounts, handles, derived, from),
                self.entries_error(user_ids, amounts, handles, derived, from + 1),
            )
        } else {
            None
        }
    }

    /// Why the batch is refused, if it is, where `derived` holds the vault of
    /// each user derived anew: for what is wrong with the batch as a whole,
    /// or else for the first entry that fails.
    pub open spec fn error_for(
        &self,
        user_ids: Seq<Seq<char>>,
        amounts: Seq<u64>,
        handles: Seq<AccountHandle>,
        derived: Seq<Option<(Seq<u8>, u8)>>,
    ) -> Option<ErrorCode> {
        first_error(
            self.precondition_error(user_ids.len(), amounts.len(), handles.len()),
            self.entries_error(user_ids, amounts, handles, derived, 0),
        )
    }

    /// Why the batch is refused, if it is.
    pub open spec fn error(&self, user_ids: Seq<Seq<char>>, amounts: Seq<u64>, handles: Seq<AccountHandle>) -> Option<
        ErrorCode,
    > {
        self.error_for(user_ids, amounts, handles, vault_derivations(user_ids, self.program_id@))
    }

    /// Checks the batch as a whole, before any entry is looked at.
    pub fn check_preconditions(&self, users: usize, amounts: usize, handles: usize) -> (result: Result<(), ErrorCode>)
        ensures
            result == verdict(self.precondition_error(users as nat, amounts as nat, handles as nat)),
    {
        if users == 0 {
            return Err(ErrorCode::EmptyUserList);
        }
        if users > MAX_BATCH_USERS {
            return Err(ErrorCode::TooManyUsers);
        }
        if users != amounts {
            return Err(ErrorCode::MismatchedArrayLengths);
        }
        if handles != 2 * users {
            return Err(ErrorCode::InvalidAccountList);
        }
        check_admin(&self.admin_state, &self.admin)?;
        check_treasury(&self.treasury_state, &self.treasury_ata, &self.mint)
    }

    /// Decides one entry, where `pair` holds its two handles, `found` is the
    /// vault of its user derived anew and `total` is the running total
    /// before it: runs the checks, writes the receipt and adds the amount to
    /// the running total.
    pub fn sweep_entry(
        &self,
        user_id: &str,
        amount: u64,
        pair: Option<(&Account<UserPDA>, &Account<TokenAccount>)>,
        found: Option<(Address, u8)>,
        total: u64,
    ) -> (result: Result<(SweepReceipt, u64), ErrorCode>)
        ensures
            match result {
                Ok((receipt, sum)) => {
                    &&& self.entry_step_error(
                        user_id@,
                        amount,
                        handles_view(pair),
                        derivation_view(found),
                        total as int,
                    ) is None
                    &&& receipt@ == self.entry_receipt(user_id@, amount, handles_view(pair))
                    &&& sum == total + amount
                },
                Err(error) => self.entry_step_error(
                    user_id@,
                    amount,
                    handles_view(pair),
                    derivation_view(found),
                    total as int,
                ) == Some(error),
            },
    {
        match pair {
            Some((custody, vault)) => {
                check_input(user_id, amount)?;
                check_custody(found, &self.mint, amount, custody, vault)?;
                match total.checked_add(amount) {
                    Some(sum) => Ok(
                        (
                            make_sweep_receipt(&self.admin, &self.treasury_ata, user_id, amount, custody, vault),
                            sum,
                        ),
                    ),
                    None => Err(ErrorCode::ArithmeticOverflow),
                }
            },
            None => Err(ErrorCode::InvalidAccountList),
        }
    }
}

/// Derives the vault of each user anew, in the order of the users.
pub fn derive_vaults(user_ids: &Vec<String>, program: &Address) -> (found: Vec<Option<(Address, u8)>>)
    ensures
        derivations_view(found@) == vault_derivations(user_ids.deep_view(), program@),
{
    let mut found: Vec<Option<(Address, u8)>> = Vec::new();
    let mut i: usize = 0;
    while i < user_ids.len()
        invariant
            i <= user_ids@.len(),
            found@.len() == i,
            forall|j: int|
                0 <= j < i ==> derivation_view(#[trigger] found@[j]) == vault_derivation(
                    encode_utf8(user_ids@[j]@),
                    program@,
                ),
        decreases user_ids@.len() - i,
    {
        found.push(derive_vault(user_ids[i].as_str(), program));
        i = i + 1;
    }
    found
}

/// Decides a batch sweep, `amounts[i]` from the vault of `user_ids[i]` into
/// the treasury for each `i`, where `handles` holds two handles for each
/// user and `found[i]` is the vault of `user_ids[i]` derived anew.
///
/// The batch is allowed exactly when it is well formed and every entry
/// passes; the receipt then holds one transfer for each user, in their order,
/// each for the whole of its amount, and the sum of the amounts. Otherwise
/// the error of the first check that fails is returned and no transfer at all
/// is ordered, whatever entries came before the one that failed.
///
/// Every entry is decided on its handles as they were resolved for the call:
/// where the same vault stands in two entries, the second is not told what
/// the first took.
pub fn decide_batch(
    ctx: &AdminBatchTransferToTreasury,
    user_ids: &Vec<String>,
    amounts: &Vec<u64>,
    handles: &Vec<AccountHandle>,
    found: &Vec<Option<(Address, u8)>>,
) -> (result: Result<BatchReceipt, ErrorCode>)
    ensures
        match result {
            Ok(receipt) => {
                &&& ctx.error_for(user_ids.deep_view(), amounts@, handles@, derivations_view(found@)) is None
                &&& receipt.total_transferred == running_total(amounts@, amounts@.len() as int)
                &&& receipt.transfers@.len() == user_ids@.len()
                &&& forall|i: int|
                    0 <= i < user_ids@.len() ==> (#[trigger] receipt.transfers@[i])@ == ctx.entry_receipt(
                        user_ids@[i]@,
                        amounts@[i],
                        entry_handles(handles@, i),
                    )
            },
            Err(error) => ctx.error_for(user_ids.deep_view(), amounts@, handles@, derivations_view(found@))
                == Some(error),
        },
{
    ctx.check_preconditions(user_ids.len(), amounts.len(), handles.len())?;
    let ghost ids = user_ids.deep_view();
    let ghost derived = derivations_view(found@);
    let count: usize = user_ids.len();
    let mut transfers: Vec<SweepReceipt> = Vec::new();
    let mut total: u64 = 0;
    let mut i: usize = 0;
    while i < count
        invariant
            i <= count,
            count == user_ids@.len(),
            count == amounts@.len(),
            ids == user_ids.deep_view(),
            derived == derivations_view(found@),
            ctx.precondition_error(ids.len(), amounts@.len(), handles@.len()) is None,
            ctx.entries_error(ids, amounts@, handles@, derived, 0) == ctx.entries_error(
                ids,
                amounts@,
                handles@,
                derived,
                i as int,
            ),
            total == running_total(amounts@, i as int),
            transfers@.len() == i,
            forall|j: int|
                0 <= j < i ==> (#[trigger] transfers@[j])@ == ctx.entry_receipt(
                    user_ids@[j]@,
                    amounts@[j],
                    entry_handles(handles@, j),
                ),
        decreases count - i,
    {
        let vault: Option<(Address, u8)> = if i < found.len() {
            found[i]
        } else {
            None
        };
        let pair = take_entry_handles(handles, i);
        let (receipt, sum) = ctx.sweep_entry(user_ids[i].as_str(), amounts[i], pair, vault, total)?;
        total = sum;
        transfers.push(receipt);
        i = i + 1;
    }
    Ok(BatchReceipt { transfers, total_transferred: total })
}

/// Sweeps a batch: checks that the batch is well formed, derives the vault of
/// each user anew and decides the batch by them.
pub fn admin_batch_transfer_to_treasury(
    ctx: &AdminBatchTransferToTreasury,
    user_ids: &Vec<String>,
    amounts: &Vec<u64>,
    handles: &Vec<AccountHandle>,
) -> (result: Result<BatchReceipt, ErrorCode>)
    ensures
        match result {
            Ok(receipt) => {
                &&& ctx.error(user_ids.deep_view(), amounts@, handles@) is None
                &&& receipt.total_transferred == running_total(amounts@, amounts@.len() as int)
                &&& receipt.transfers@.len() == user_ids@.len()
                &&& forall|i: int|
                    0 <= i < user_ids@.len() ==> (#[trigger] receipt.transfers@[i])@ == ctx.entry_receipt(
                        user_ids@[i]@,
                        amounts@[i],
                        entry_handles(handles@, i),
                    )
            },
            Err(error) => ctx.error(user_ids.deep_view(), amounts@, handles@) == Some(error),
        },
{
    ctx.check_preconditions(user_ids.len(), amounts.len(), handles.len())?;
    let found = derive_vaults(user_ids, &ctx.program_id);
    decide_batch(ctx, user_ids, amounts, handles, &found)
}

/// The running total is never negative.
pub proof fn lemma_running_total_is_natural(amounts: Seq<u64>, count: int)
    ensures
        0 <= running_total(amounts, count),
    decreases count,
{
    if count > 0 {
        lemma_running_total_is_natural(amounts, count - 1);
    }
}

/// The running total never shrinks as entries are added.
pub proof fn lemma_running_total_grows(amounts: Seq<u64>, fewer: int, more: int)
    requires
        fewer <= more,
    ensures
        0 <= running_total(amounts, fewer) <= running_total(amounts, more),
    decreases more - fewer,
{
    if fewer < more {
        lemma_running_total_grows(amounts, fewer, more - 1);
    } else {
        lemma_running_total_is_natural(amounts, fewer);
    }
}

/// The entries from `from` on raise no error exactly when each of them
/// passes.
pub proof fn lemma_entries_pass(
    ctx: AdminBatchTransferToTreasury,
    user_ids: Seq<Seq<char>>,
    amounts: Seq<u64>,
    handles: Seq<AccountHandle>,
    derived: Seq<Option<(Seq<u8>, u8)>>,
    from: int,
)
    requires
        0 <= from <= user_ids.len(),
    ensures
        ctx.entries_error(user_ids, amounts, handles, derived, from) is None <==> forall|k: int|
            from <= k < user_ids.len() ==> (#[trigger] ctx.entry_error(user_ids, amounts, handles, derived, k))
                is None,
    decreases user_ids.len() - from,
{
    if from < user_ids.len() {
        lemma_entries_pass(ctx, user_ids, amounts, handles, derived, from + 1);
    }
}

/// Where the entries from `from` up to `index` pass, the error of the
/// entries from `from` on is that of the entries from `index` on.
pub proof fn lemma_entries_passed_are_skipped(
    ctx: AdminBatchTransferToTreasury,
    user_ids: Seq<Seq<char>>,
    amounts: Seq<u64>,
    handles: Seq<AccountHandle>,
    derived: Seq<Option<(Seq<u8>, u8)>>,
    from: int,
    index: int,
)
    requires
        0 <= from <= index <= user_ids.len(),
        forall|j: int|
            from <= j < index ==> (#[trigger] ctx.entry_error(user_ids, amounts, handles, derived, j)) is None,
    ensures
        ctx.entries_error(user_ids, amounts, handles, derived, from) == ctx.entries_error(
            user_ids,
            amounts,
            handles,
            derived,
            index,
        ),
    decreases index - from,
{
    if from < index {
        lemma_entries_passed_are_skipped(ctx, user_ids, amounts, handles, derived, from + 1, index);
    }
}

/// A batch that is not well formed is refused for its form, whatever its
/// entries hold: with no user it fails with `EmptyUserList`; with more than
/// `MAX_BATCH_USERS` with `TooManyUsers`; with as many users as allowed but
/// another number of amounts with `MismatchedArrayLengths`; and with those in
/// order but not two handles for each user with `InvalidAccountList`.
pub proof fn lemma_batch_form(
    ctx: AdminBatchTransferToTreasury,
    user_ids: Seq<Seq<char>>,
    amounts: Seq<u64>,
    handles: Seq<AccountHandle>,
    derived: Seq<Option<(Seq<u8>, u8)>>,
)
    ensures
        user_ids.len() == 0 ==> ctx.error_for(user_ids, amounts, handles, derived) == Some(
            ErrorCode::EmptyUserList,
        ),
        user_ids.len() > MAX_BATCH_USERS ==> ctx.error_for(user_ids, amounts, handles, derived) == Some(
            ErrorCode::TooManyUsers,
        ),
        0 < user_ids.len() <= MAX_BATCH_USERS && amounts.len() != user_ids.len() ==> ctx.error_for(
            user_ids,
            amounts,
            handles,
            derived,
        ) == Some(ErrorCode::MismatchedArrayLengths),
        0 < user_ids.len() <= MAX_BATCH_USERS && amounts.len() == user_ids.len() && handles.len() != 2
            * user_ids.len() ==> ctx.error_for(user_ids, amounts, handles, derived) == Some(
            ErrorCode::InvalidAccountList,
        ),
{
}

/// Only the administrator on record sweeps a batch: a batch that anyone else
/// asks for is refused, with `UnauthorizedAdmin` where its form is in order.
pub proof fn lemma_only_the_administrator_sweeps_a_batch(
    ctx: AdminBatchTransferToTreasury,
    user_ids: Seq<Seq<char>>,
    amounts: Seq<u64>,
    handles: Seq<AccountHandle>,
    derived: Seq<Option<(Seq<u8>, u8)>>,
)
    requires
        ctx.admin != ctx.admin_state.admin,
    ensures
        ctx.error_for(user_ids, amounts, handles, derived) is Some,
        0 < user_ids.len() <= MAX_BATCH_USERS && amounts.len() == user_ids.len() && handles.len() == 2
            * user_ids.len() ==> ctx.error_for(user_ids, amounts, handles, derived) == Some(
            ErrorCode::UnauthorizedAdmin,
        ),
{
}

/// A batch is all or nothing: it is allowed exactly when it is well formed
/// and every one of its entries passes. One entry that fails is enough for
/// the whole batch to be refused, and a batch that is refused orders no
/// transfer, so the entries before the one that failed move no funds.
pub proof fn lemma_batch_is_all_or_nothing(
    ctx: AdminBatchTransferToTreasury,
    user_ids: Seq<Seq<char>>,
    amounts: Seq<u64>,
    handles: Seq<AccountHandle>,
    derived: Seq<Option<(Seq<u8>, u8)>>,
)
    ensures
        ctx.error_for(user_ids, amounts, handles, derived) is None <==> {
            &&& ctx.precondition_error(user_ids.len(), amounts.len(), handles.len()) is None
            &&& forall|k: int|
                0 <= k < user_ids.len() ==> (#[trigger] ctx.entry_error(user_ids, amounts, handles, derived, k))
                    is None
        },
{
    lemma_entries_pass(ctx, user_ids, amounts, handles, derived, 0);
}

/// In a well-formed batch the first entry that fails decides the error,
/// whatever entries passed before it.
pub proof fn lemma_first_failure_decides(
    ctx: AdminBatchTransferToTreasury,
    user_ids: Seq<Seq<char>>,
    amounts: Seq<u64>,
    handles: Seq<AccountHandle>,
    derived: Seq<Option<(Seq<u8>, u8)>>,
    index: int,
)
    requires
        ctx.precondition_error(user_ids.len(), amounts.len(), handles.len()) is None,
        0 <= index < user_ids.len(),
        forall|j: int|
            0 <= j < index ==> (#[trigger] ctx.entry_error(user_ids, amounts, handles, derived, j)) is None,
        ctx.entry_error(user_ids, amounts, handles, derived, index) is Some,
    ensures
        ctx.error_for(user_ids, amounts, handles, derived) == ctx.entry_error(
            user_ids,
            amounts,
            handles,
            derived,
            index,
        ),
{
    lemma_entries_passed_are_skipped(ctx, user_ids, amounts, handles, derived, 0, index);
}

/// Where the first `count` amounts sum beyond 64 bits, there is a first
/// entry at which the running total leaves that range.
proof fn lemma_first_overflow(amounts: Seq<u64>, count: int) -> (index: int)
    requires
        running_total(amounts, count) > u64::MAX,
    ensures
        0 <= index < count,
        running_total(amounts, index) <= u64::MAX,
        running_total(amounts, index + 1) > u64::MAX,
    decreases count,
{
    if running_total(amounts, count - 1) > u64::MAX {
        lemma_first_overflow(amounts, count - 1)
    } else {
        count - 1
    }
}

/// A well-formed batch whose entries all pass their checks, but whose
/// amounts sum beyond what 64 bits hold, fails with `ArithmeticOverflow`; as
/// a batch that is refused, it orders no transfer.
pub proof fn lemma_total_overflow_fails(
    ctx: AdminBatchTransferToTreasury,
    user_ids: Seq<Seq<char>>,
    amounts: Seq<u64>,
    handles: Seq<AccountHandle>,
    derived: Seq<Option<(Seq<u8>, u8)>>,
)
    requires
        ctx.precondition_error(user_ids.len(), amounts.len(), handles.len()) is None,
        forall|k: int|
            0 <= k < user_ids.len() ==> (#[trigger] ctx.entry_check_error(
                user_ids[k],
                amounts[k],
                entry_handles(handles, k),
                derived_at(derived, k),
            )) is None,
        running_total(amounts, user_ids.len() as int) > u64::MAX,
    ensures
        ctx.error_for(user_ids, amounts, handles, derived) == Some(ErrorCode::ArithmeticOverflow),
{
    let index = lemma_first_overflow(amounts, user_ids.len() as int);
    assert forall|j: int| 0 <= j < index implies (#[trigger] ctx.entry_error(
        user_ids,
        amounts,
        handles,
        derived,
        j,
    )) is None by {
        lemma_running_total_grows(amounts, j + 1, index);
    }
    lemma_first_failure_decides(ctx, user_ids, amounts, handles, derived, index);
}

} // verus!
