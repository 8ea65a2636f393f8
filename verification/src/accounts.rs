//! The account set a caller supplies for a pool operation, modelled by the
//! identities this layer reads: addresses, and for token accounts the mint
//! and the authorizing owner.

use vstd::prelude::*;

use crate::address::Address;

verus! {

/// What this layer reads of the engine's pool record: the record's own
/// address and the three addresses it stores. The engine fixes the stored
/// addresses when the pool is created and never changes them.
#[derive(Clone, Copy, PartialEq, Eq, Debug)]
pub struct PoolRecord {
    /// Address of the pool record account itself.
    pub address: Address,
    /// Recorded address of the pool's token-0 vault.
    pub token_0_vault: Address,
    /// Recorded address of the pool's token-1 vault.
    pub token_1_vault: Address,
    /// Recorded address of the pool's LP mint.
    pub lp_mint: Address,
}

/// What this layer reads of a token account: its own address, the mint of
/// the token it holds, and the owner authorized over it.
#[derive(Clone, Copy, PartialEq, Eq, Debug)]
pub struct TokenAccountInfo {
    /// Address of the token account itself.
    pub address: Address,
    /// Mint of the token the account holds.
    pub mint: Address,
    /// Owner authorized over the account.
    pub owner: Address,
}

/// The account set for one pool operation. All four operations validate the
/// same relationships over this one shape, so deposit, withdrawal and the
/// combined operation share it; the name follows the deposit operation whose
/// declaration introduced it.
#[derive(Clone, Copy, PartialEq, Eq, Debug)]
pub struct AddLiquidity {
    /// Program identity of the external engine, the callee of every
    /// invocation this layer assembles.
    pub cp_swap_program: Address,
    /// The transaction's signer, owner of the three owner token accounts.
    pub owner: Address,
    /// The supplied vault and LP-mint authority; must equal the address
    /// derived from the fixed seed and the engine's program identity.
    pub authority: Address,
    /// The pool record and the addresses it stores.
    pub pool_state: PoolRecord,
    /// The owner's LP token account.
    pub owner_lp_token: TokenAccountInfo,
    /// The owner's token-0 account.
    pub token_0_account: TokenAccountInfo,
    /// The owner's token-1 account.
    pub token_1_account: TokenAccountInfo,
    /// The pool's token-0 vault.
    pub token_0_vault: TokenAccountInfo,
    /// The pool's token-1 vault.
    pub token_1_vault: TokenAccountInfo,
    /// The supplied mint of the token-0 vault's token.
    pub vault_0_mint: Address,
    /// The supplied mint of the token-1 vault's token.
    pub vault_1_mint: Address,
    /// The supplied LP mint.
    pub lp_mint: Address,
}

} // verus!
