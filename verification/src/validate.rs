//! The account validator: the all-or-nothing check that every operation runs
//! before any engine invocation is assembled. Each constraint is an
//! independent predicate over the supplied account set; the validator reports the
//! first broken one in declaration order, and a second entry point reports
//! the full structured list.

use vstd::prelude::*;

use crate::accounts::AddLiquidity;
use crate::address::address_eq;
use crate::authority::authority_matches;
use crate::authority::check_authority;
use crate::error::ConstraintViolation;

verus! {

/// The supplied authority equals the address derived from the fixed seed and
/// the engine's program identity.
pub open spec fn authority_constraint(a: AddLiquidity) -> bool {
    authority_matches(a.authority@, a.cp_swap_program@)
}

/// The owner's LP token account is authorized by the signer.
pub open spec fn lp_token_owner_constraint(a: AddLiquidity) -> bool {
    a.owner_lp_token.owner@ == a.owner@
}

/// The owner's token-0 account holds the token-0 vault's mint.
pub open spec fn token_0_account_mint_constraint(a: AddLiquidity) -> bool {
    a.token_0_account.mint@ == a.token_0_vault.mint@
}

/// The owner's token-0 account is authorized by the signer.
pub open spec fn token_0_account_owner_constraint(a: AddLiquidity) -> bool {
    a.token_0_account.owner@ == a.owner@
}

/// The owner's token-1 account holds the token-1 vault's mint.
pub open spec fn token_1_account_mint_constraint(a: AddLiquidity) -> bool {
    a.token_1_account.mint@ == a.token_1_vault.mint@
}

/// The owner's token-1 account is authorized by the signer.
pub open spec fn token_1_account_owner_constraint(a: AddLiquidity) -> bool {
    a.token_1_account.owner@ == a.owner@
}

/// The supplied token-0 vault is the one the pool record stores.
pub open spec fn token_0_vault_constraint(a: AddLiquidity) -> bool {
    a.token_0_vault.address@ == a.pool_state.token_0_vault@
}

/// The supplied token-1 vault is the one the pool record stores.
pub open spec fn token_1_vault_constraint(a: AddLiquidity) -> bool {
    a.token_1_vault.address@ == a.pool_state.token_1_vault@
}

/// The supplied vault-0 mint is the token-0 vault's mint.
pub open spec fn vault_0_mint_constraint(a: AddLiquidity) -> bool {
    a.vault_0_mint@ == a.token_0_vault.mint@
}

/// The supplied vault-1 mint is the token-1 vault's mint.
pub open spec fn vault_1_mint_constraint(a: AddLiquidity) -> bool {
    a.vault_1_mint@ == a.token_1_vault.mint@
}

/// The supplied LP mint is the one the pool record stores.
pub open spec fn lp_mint_constraint(a: AddLiquidity) -> bool {
    a.lp_mint@ == a.pool_state.lp_mint@
}

/// All constraints hold simultaneously: the account set is the correct,
/// uniquely determined one for this pool, and an operation over it may be
/// forwarded to the engine.
pub open spec fn constraints_hold(a: AddLiquidity) -> bool {
    &&& authority_constraint(a)
    &&& lp_token_owner_constraint(a)
    &&& token_0_account_mint_constraint(a)
    &&& token_0_account_owner_constraint(a)
    &&& token_1_account_mint_constraint(a)
    &&& token_1_account_owner_constraint(a)
    &&& token_0_vault_constraint(a)
    &&& token_1_vault_constraint(a)
    &&& vault_0_mint_constraint(a)
    &&& vault_1_mint_constraint(a)
    &&& lp_mint_constraint(a)
}

/// The violation the validator reports: the first broken constraint in
/// declaration order. Meaningful only when `constraints_hold` fails.
pub open spec fn first_violation(a: AddLiquidity) -> ConstraintViolation {
    if !authority_constraint(a) {
        ConstraintViolation::AuthorityMismatch
    } else if !lp_token_owner_constraint(a) {
        ConstraintViolation::LpTokenOwnerMismatch
    } else if !token_0_account_mint_constraint(a) {
        ConstraintViolation::Token0AccountMintMismatch
    } else if !token_0_account_owner_constraint(a) {
        ConstraintViolation::Token0AccountOwnerMismatch
    } else if !token_1_account_mint_constraint(a) {
        ConstraintViolation::Token1AccountMintMismatch
    } else if !token_1_account_owner_constraint(a) {
        ConstraintViolation::Token1AccountOwnerMismatch
    } else if !token_0_vault_constraint(a) {
        ConstraintViolation::Token0VaultMismatch
    } else if !token_1_vault_constraint(a) {
        ConstraintViolation::Token1VaultMismatch
    } else if !vault_0_mint_constraint(a) {
        ConstraintViolation::Vault0MintMismatch
    } else if !vault_1_mint_constraint(a) {
        ConstraintViolation::Vault1MintMismatch
    } else {
        ConstraintViolation::LpMintMismatch
    }
}

/// Every broken constraint, in declaration order.
pub open spec fn violation_seq(a: AddLiquidity) -> Seq<ConstraintViolation> {
    let s = Seq::<ConstraintViolation>::empty();
    let s = if !authority_constraint(a) {
        s.push(ConstraintViolation::AuthorityMismatch)
    } else {
        s
    };
    let s = if !lp_token_owner_constraint(a) {
        s.push(ConstraintViolation::LpTokenOwnerMismatch)
    } else {
        s
    };
    let s = if !token_0_account_mint_constraint(a) {
        s.push(ConstraintViolation::Token0AccountMintMismatch)
    } else {
        s
    };
    let s = if !token_0_account_owner_constraint(a) {
        s.push(ConstraintViolation::Token0AccountOwnerMismatch)
    } else {
        s
    };
    let s = if !token_1_account_mint_constraint(a) {
        s.push(ConstraintViolation::Token1AccountMintMismatch)
    } else {
        s
    };
    let s = if !token_1_account_owner_constraint(a) {
        s.push(ConstraintViolation::Token1AccountOwnerMismatch)
    } else {
        s
    };
    let s = if !token_0_vault_constraint(a) {
        s.push(ConstraintViolation::Token0VaultMismatch)
    } else {
        s
    };
    let s = if !token_1_vault_constraint(a) {
        s.push(ConstraintViolation::Token1VaultMismatch)
    } else {
        s
    };
    let s = if !vault_0_mint_constraint(a) {
        s.push(ConstraintViolation::Vault0MintMismatch)
    } else {
        s
    };
    let s = if !vault_1_mint_constraint(a) {
        s.push(ConstraintViolation::Vault1MintMismatch)
    } else {
        s
    };
    let s = if !lp_mint_constraint(a) {
        s.push(ConstraintViolation::LpMintMismatch)
    } else {
        s
    };
    s
}

/// The validator is empty-handed exactly when every constraint holds, and the
/// first entry of the structured list is the violation the validator reports.
#[verifier::rlimit(50)]
pub proof fn lemma_violation_seq(a: AddLiquidity)
    ensures
        violation_seq(a).len() == 0 <==> constraints_hold(a),
        !constraints_hold(a) ==> violation_seq(a).len() > 0 && violation_seq(a)[0]
            == first_violation(a),
{
    if constraints_hold(a) {
        assert(violation_seq(a).len() == 0);
    } else {
        if !authority_constraint(a) {
            assert(violation_seq(a)[0] == ConstraintViolation::AuthorityMismatch);
        } else if !lp_token_owner_constraint(a) {
            assert(violation_seq(a)[0] == ConstraintViolation::LpTokenOwnerMismatch);
        } else if !token_0_account_mint_constraint(a) {
            assert(violation_seq(a)[0] == ConstraintViolation::Token0AccountMintMismatch);
        } else if !token_0_account_owner_constraint(a) {
            assert(violation_seq(a)[0] == ConstraintViolation::Token0AccountOwnerMismatch);
        } else if !token_1_account_mint_constraint(a) {
            assert(violation_seq(a)[0] == ConstraintViolation::Token1AccountMintMismatch);
        } else if !token_1_account_owner_constraint(a) {
            assert(violation_seq(a)[0] == ConstraintViolation::Token1AccountOwnerMismatch);
        } else if !token_0_vault_constraint(a) {
            assert(violation_seq(a)[0] == ConstraintViolation::Token0VaultMismatch);
        } else if !token_1_vault_constraint(a) {
            assert(violation_seq(a)[0] == ConstraintViolation::Token1VaultMismatch);
        } else if !vault_0_mint_constraint(a) {
            assert(violation_seq(a)[0] == ConstraintViolation::Vault0MintMismatch);
        } else if !vault_1_mint_constraint(a) {
            assert(violation_seq(a)[0] == ConstraintViolation::Vault1MintMismatch);
        } else {
            assert(violation_seq(a)[0] == ConstraintViolation::LpMintMismatch);
        }
    }
}

/// The supplied authority equals the derived one.
fn authority_holds(a: &AddLiquidity) -> (r: bool)
    ensures
        r == authority_constraint(*a),
{
    match check_authority(&a.authority, &a.cp_swap_program) {
        Ok(_) => true,
        Err(_) => false,
    }
}

/// Collect every broken constraint, in declaration order: the structured
/// form of the validator, for callers that want the whole diagnosis rather than
/// the first failure.
pub fn violations(a: &AddLiquidity) -> (r: Vec<ConstraintViolation>)
    ensures
        r@ == violation_seq(*a),
        r@.len() == 0 <==> constraints_hold(*a),
{
    let mut v: Vec<ConstraintViolation> = Vec::new();
    if !authority_holds(a) {
        v.push(ConstraintViolation::AuthorityMismatch);
    }
    if !address_eq(&a.owner_lp_token.owner, &a.owner) {
        v.push(ConstraintViolation::LpTokenOwnerMismatch);
    }
    if !address_eq(&a.token_0_account.mint, &a.token_0_vault.mint) {
        v.push(ConstraintViolation::Token0AccountMintMismatch);
    }
    if !address_eq(&a.token_0_account.owner, &a.owner) {
        v.push(ConstraintViolation::Token0AccountOwnerMismatch);
    }
    if !address_eq(&a.token_1_account.mint, &a.token_1_vault.mint) {
        v.push(ConstraintViolation::Token1AccountMintMismatch);
    }
    if !address_eq(&a.token_1_account.owner, &a.owner) {
        v.push(ConstraintViolation::Token1AccountOwnerMismatch);
    }
    if !address_eq(&a.token_0_vault.address, &a.pool_state.token_0_vault) {
        v.push(ConstraintViolation::Token0VaultMismatch);
    }
    if !address_eq(&a.token_1_vault.address, &a.pool_state.token_1_vault) {
        v.push(ConstraintViolation::Token1VaultMismatch);
    }
    if !address_eq(&a.vault_0_mint, &a.token_0_vault.mint) {
        v.push(ConstraintViolation::Vault0MintMismatch);
    }
    if !address_eq(&a.vault_1_mint, &a.token_1_vault.mint) {
        v.push(ConstraintViolation::Vault1MintMismatch);
    }
    if !address_eq(&a.lp_mint, &a.pool_state.lp_mint) {
        v.push(ConstraintViolation::LpMintMismatch);
    }
    proof {
        assert(v@ =~= violation_seq(*a));
    }
    v
}

/// The all-or-nothing check: `Ok` exactly when every constraint holds, and
/// otherwise the first broken constraint in declaration order, reported
/// before any engine invocation is assembled.
pub fn validate(a: &AddLiquidity) -> (r: Result<(), ConstraintViolation>)
    ensures
        r is Ok <==> constraints_hold(*a),
        r matches Err(e) ==> e == first_violation(*a) && !constraints_hold(*a),
{
    if !authority_holds(a) {
        return Err(ConstraintViolation::AuthorityMismatch);
    }
    if !address_eq(&a.owner_lp_token.owner, &a.owner) {
        return Err(ConstraintViolation::LpTokenOwnerMismatch);
    }
    if !address_eq(&a.token_0_account.mint, &a.token_0_vault.mint) {
        return Err(ConstraintViolation::Token0AccountMintMismatch);
    }
    if !address_eq(&a.token_0_account.owner, &a.owner) {
        return Err(ConstraintViolation::Token0AccountOwnerMismatch);
    }
    if !address_eq(&a.token_1_account.mint, &a.token_1_vault.mint) {
        return Err(ConstraintViolation::Token1AccountMintMismatch);
    }
    if !address_eq(&a.token_1_account.owner, &a.owner) {
        return Err(ConstraintViolation::Token1AccountOwnerMismatch);
    }
    if !address_eq(&a.token_0_vault.address, &a.pool_state.token_0_vault) {
        return Err(ConstraintViolation::Token0VaultMismatch);
    }
    if !address_eq(&a.token_1_vault.address, &a.pool_state.token_1_vault) {
        return Err(ConstraintViolation::Token1VaultMismatch);
    }
    if !address_eq(&a.vault_0_mint, &a.token_0_vault.mint) {
        return Err(ConstraintViolation::Vault0MintMismatch);
    }
    if !address_eq(&a.vault_1_mint, &a.token_1_vault.mint) {
        return Err(ConstraintViolation::Vault1MintMismatch);
    }
    if !address_eq(&a.lp_mint, &a.pool_state.lp_mint) {
        return Err(ConstraintViolation::LpMintMismatch);
    }
    Ok(())
}

} // verus!
