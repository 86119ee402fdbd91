//! Identity derivation: from seeds and a program to an address that has no
//! key, and the bump that makes the derivation land there.

use crate::address::{lemma_address_view_injective, Address};
use crate::errors::ErrorCode;
use anchor_lang::prelude::Pubkey;
use vstd::prelude::*;
use vstd::string::StringSliceAdditionalSpecFns;

verus! {

/// What `Pubkey::try_find_program_address` returns for the given seeds and
/// program: the derived address with its bump, or `None` where no address can
/// be derived from them.
pub uninterp spec fn program_address(seeds: Seq<Seq<u8>>, program: Seq<u8>) -> Option<(Seq<u8>, u8)>;

/// The seeds of a derivation as sequences of bytes.
pub open spec fn seeds_view(seeds: Seq<&[u8]>) -> Seq<Seq<u8>> {
    Seq::new(seeds.len(), |i: int| seeds[i]@)
}

/// A derivation by its views: the bytes of the address, and the bump.
pub open spec fn derivation_view(found: Option<(Address, u8)>) -> Option<(Seq<u8>, u8)> {
    match found {
        Some((address, bump)) => Some((address@, bump)),
        None => None,
    }
}

/// Calls `Pubkey::try_find_program_address`.
///
/// The result is a function of the seeds and of the program alone; the
/// contract gives it the name `program_address` and claims nothing else of it.
/// The call neither panics nor fails to return: where the seeds are too many
/// or too long, or no bump yields an address off the curve, it returns `None`.
#[verifier::external_body]
pub(crate) fn try_find_program_address(seeds: &[&[u8]], program: &Address) -> (found: Option<(Address, u8)>)
    ensures
        derivation_view(found) == program_address(seeds_view(seeds@), program@),
{
    match Pubkey::try_find_program_address(seeds, &Pubkey::new_from_array(program.bytes)) {
        Some((key, bump)) => Some((Address { bytes: key.to_bytes() }, bump)),
        None => None,
    }
}

/// The seeds of a user's vault: the tag `deposit`, then the bytes of the
/// user's identifier.
pub open spec fn vault_seeds(user_id: Seq<u8>) -> Seq<Seq<u8>> {
    seq!["deposit".spec_bytes(), user_id]
}

/// The seeds of the administrator record: the tag `admin`.
pub open spec fn admin_seeds() -> Seq<Seq<u8>> {
    seq!["admin".spec_bytes()]
}

/// The seeds of the treasury record of a token type: the tag `treasury`, then
/// the bytes of the token type's address.
pub open spec fn treasury_seeds(token_mint: Seq<u8>) -> Seq<Seq<u8>> {
    seq!["treasury".spec_bytes(), token_mint]
}

/// The vault of a user under a program: its address and bump.
pub open spec fn vault_derivation(user_id: Seq<u8>, program: Seq<u8>) -> Option<(Seq<u8>, u8)> {
    program_address(vault_seeds(user_id), program)
}

/// The administrator record of a program: its address and bump.
pub open spec fn admin_derivation(program: Seq<u8>) -> Option<(Seq<u8>, u8)> {
    program_address(admin_seeds(), program)
}

/// The treasury record of a token type under a program: its address and bump.
pub open spec fn treasury_derivation(token_mint: Seq<u8>, program: Seq<u8>) -> Option<(Seq<u8>, u8)> {
    program_address(treasury_seeds(token_mint), program)
}

/// Derives the vault of `user_id` under `program`.
///
/// The result depends on the identifier and the program alone, so deriving
/// twice gives the same vault.
pub fn derive_vault(user_id: &str, program: &Address) -> (found: Option<(Address, u8)>)
    ensures
        derivation_view(found) == vault_derivation(user_id.spec_bytes(), program@),
{
    let seeds: [&[u8]; 2] = ["deposit".as_bytes(), user_id.as_bytes()];
    assert(seeds_view(seeds@) =~= vault_seeds(user_id.spec_bytes()));
    try_find_program_address(seeds.as_slice(), program)
}

/// Derives the administrator record of `program`.
pub fn derive_admin(program: &Address) -> (found: Option<(Address, u8)>)
    ensures
        derivation_view(found) == admin_derivation(program@),
{
    let seeds: [&[u8]; 1] = ["admin".as_bytes()];
    assert(seeds_view(seeds@) =~= admin_seeds());
    try_find_program_address(seeds.as_slice(), program)
}

/// Derives the treasury record of `token_mint` under `program`.
pub fn derive_treasury(token_mint: &Address, program: &Address) -> (found: Option<(Address, u8)>)
    ensures
        derivation_view(found) == treasury_derivation(token_mint@, program@),
{
    let seeds: [&[u8]; 2] = ["treasury".as_bytes(), token_mint.bytes.as_slice()];
    assert(seeds_view(seeds@) =~= treasury_seeds(token_mint@));
    try_find_program_address(seeds.as_slice(), program)
}

/// The address of a derivation. Where nothing was derived, there is none,
/// and the error is `InvalidPDA`.
pub fn derived_address(found: Option<(Address, u8)>) -> (result: Result<Address, ErrorCode>)
    ensures
        match result {
            Ok(address) => found matches Some(derived) && derived.0 == address,
            Err(error) => error == ErrorCode::InvalidPDA && found is None,
        },
{
    match found {
        Some((address, _)) => Ok(address),
        None => Err(ErrorCode::InvalidPDA),
    }
}

/// The bump of a derivation that lands at `address`. Where nothing was
/// derived, or another address was, the error is `InvalidPDA`.
pub fn derived_bump_at(found: Option<(Address, u8)>, address: &Address) -> (result: Result<u8, ErrorCode>)
    ensures
        match result {
            Ok(bump) => found == Some((*address, bump)),
            Err(error) => error == ErrorCode::InvalidPDA && !(found matches Some(derived) && derived.0
                == *address),
        },
{
    match found {
        Some((derived, bump)) => {
            if derived != *address {
                return Err(ErrorCode::InvalidPDA);
            }
            Ok(bump)
        },
        None => Err(ErrorCode::InvalidPDA),
    }
}

/// A derivation lands at an address exactly when its view lands at the view
/// of the address.
pub proof fn lemma_derivation_view(found: Option<(Address, u8)>, address: Address, bump: u8)
    ensures
        found == Some((address, bump)) <==> derivation_view(found) == Some((address@, bump)),
        (found matches Some(derived) && derived.0 == address) <==> (derivation_view(found) matches Some(derived)
            && derived.0 == address@),
{
    if found is Some {
        lemma_address_view_injective(found.unwrap().0, address);
    }
}

/// The tags as bytes: `deposit`, `admin` and `treasury` in ASCII.
pub proof fn lemma_tags_are_ascii()
    ensures
        "deposit".spec_bytes() == seq![100u8, 101u8, 112u8, 111u8, 115u8, 105u8, 116u8],
        "admin".spec_bytes() == seq![97u8, 100u8, 109u8, 105u8, 110u8],
        "treasury".spec_bytes() == seq![116u8, 114u8, 101u8, 97u8, 115u8, 117u8, 114u8, 121u8],
{
    reveal_strlit("deposit");
    reveal_strlit("admin");
    reveal_strlit("treasury");
    vstd::utf8::is_ascii_chars_encode_utf8("deposit"@);
    vstd::utf8::is_ascii_chars_encode_utf8("admin"@);
    vstd::utf8::is_ascii_chars_encode_utf8("treasury"@);
    assert("deposit".spec_bytes() =~= seq![100u8, 101u8, 112u8, 111u8, 115u8, 105u8, 116u8]);
    assert("admin".spec_bytes() =~= seq![97u8, 100u8, 109u8, 105u8, 110u8]);
    assert("treasury".spec_bytes() =~= seq![116u8, 114u8, 101u8, 97u8, 115u8, 117u8, 114u8, 121u8]);
}

} // verus!
