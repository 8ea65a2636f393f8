//! The failure a caller sees when an account it supplied is not the one the
//! pool demands.

use vstd::prelude::*;

verus! {

/// An account-identity relationship that validation found broken. Every
/// variant names the relationship that failed; all are detected before any
/// engine invocation is issued, and none is retryable without the caller
/// supplying the correct account.
#[derive(Clone, Copy, PartialEq, Eq, Structural, Debug)]
pub enum ConstraintViolation {
    /// The supplied authority is not the address derived from the fixed seed
    /// and the engine's program identity.
    AuthorityMismatch,
    /// The owner's LP token account is not authorized by the signer.
    LpTokenOwnerMismatch,
    /// The owner's token-0 account does not hold the token-0 vault's mint.
    Token0AccountMintMismatch,
    /// The owner's token-0 account is not authorized by the signer.
    Token0AccountOwnerMismatch,
    /// The owner's token-1 account does not hold the token-1 vault's mint.
    Token1AccountMintMismatch,
    /// The owner's token-1 account is not authorized by the signer.
    Token1AccountOwnerMismatch,
    /// The supplied token-0 vault is not the one the pool record stores.
    Token0VaultMismatch,
    /// The supplied token-1 vault is not the one the pool record stores.
    Token1VaultMismatch,
    /// The supplied vault-0 mint is not the token-0 vault's mint.
    Vault0MintMismatch,
    /// The supplied vault-1 mint is not the token-1 vault's mint.
    Vault1MintMismatch,
    /// The supplied LP mint is not the one the pool record stores.
    LpMintMismatch,
}

} // verus!
