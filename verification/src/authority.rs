//! Derivation of the pool's vault and LP-mint authority: the deterministic,
//! non-signing address the engine recognizes as controller of the vaults and
//! the LP mint, a pure function of a fixed seed and the engine's program
//! identity.

use vstd::prelude::*;

use crate::address::address_eq;
use crate::address::Address;
use crate::error::ConstraintViolation;

verus! {

/// The address and bump that deterministic derivation yields for a given
/// engine program identity, or `None` for the (never observed in practice)
/// identities for which no bump yields a derivable address. The derivation
/// hashes the fixed authority seed, so its value is named rather than
/// written out; it depends on the program identity alone.
pub uninterp spec fn derived_authority(program: Seq<u8>) -> Option<(Seq<u8>, u8)>;

/// Relies on `Pubkey::try_find_program_address` of the execution
/// environment's SDK, called with the engine's fixed authority seed
/// (`raydium_cp_swap::AUTH_SEED`): it searches bumps downward from 255 for
/// the first off-curve hash of (seed, bump, program id), so its result is a
/// function of the program identity alone, and it returns `None` only when
/// no bump yields an off-curve address.
#[verifier::external_body]
fn find_pool_authority(program: &Address) -> (r: Option<(Address, u8)>)
    ensures
        r is Some <==> derived_authority(program@) is Some,
        r matches Some(p) ==> derived_authority(program@) matches Some(d) && p.0@ == d.0 && p.1
            == d.1,
{
    let pid = anchor_lang::solana_program::pubkey::Pubkey::new_from_array(program.bytes);
    let seed: &[u8] = raydium_cp_swap::AUTH_SEED.as_bytes();
    match anchor_lang::solana_program::pubkey::Pubkey::try_find_program_address(&[seed], &pid) {
        Some((key, bump)) => Some((Address { bytes: key.to_bytes() }, bump)),
        None => None,
    }
}

/// The supplied authority is exactly the address the derivation yields for
/// this engine program identity.
pub open spec fn authority_matches(supplied: Seq<u8>, program: Seq<u8>) -> bool {
    derived_authority(program) matches Some(d) && supplied == d.0
}

/// Derive the pool authority and its bump for an engine program identity.
pub fn resolve_authority(program: &Address) -> (r: Option<(Address, u8)>)
    ensures
        r is Some <==> derived_authority(program@) is Some,
        r matches Some(p) ==> derived_authority(program@) matches Some(d) && p.0@ == d.0 && p.1
            == d.1,
{
    find_pool_authority(program)
}

/// Check a supplied authority account against the derived address; on a
/// match return the derivation's bump, otherwise the violation.
pub fn check_authority(supplied: &Address, program: &Address) -> (r: Result<
    u8,
    ConstraintViolation,
>)
    ensures
        r is Ok <==> authority_matches(supplied@, program@),
        r matches Ok(b) ==> derived_authority(program@) matches Some(d) && b == d.1,
        r is Err ==> r == Err::<u8, ConstraintViolation>(ConstraintViolation::AuthorityMismatch),
{
    match find_pool_authority(program) {
        Some((derived, bump)) => {
            if address_eq(supplied, &derived) {
                Ok(bump)
            } else {
                Err(ConstraintViolation::AuthorityMismatch)
            }
        },
        None => Err(ConstraintViolation::AuthorityMismatch),
    }
}

} // verus!
