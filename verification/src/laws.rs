//! The validation guarantees, stated on their own. Every operation's own
//! contract says it returns an invocation exactly when `constraints_hold`;
//! the lemmas here say that no account set with a mis-supplied vault or
//! authority ever satisfies that check, so no such request ever yields an
//! invocation to issue.

use vstd::prelude::*;

use crate::accounts::AddLiquidity;
use crate::authority::authority_matches;
use crate::validate::constraints_hold;
use crate::validate::token_0_vault_constraint;
use crate::validate::token_1_vault_constraint;
use crate::validate::authority_constraint;

verus! {

/// If either supplied vault differs from the address the pool record stores
/// for it, the account set fails validation; since every operation returns
/// an invocation only when validation passes, the call is rejected with a
/// violation and no engine invocation exists to be issued.
pub proof fn vault_mismatch_rejected(a: AddLiquidity)
    requires
        !token_0_vault_constraint(a) || !token_1_vault_constraint(a),
    ensures
        !constraints_hold(a),
{
}

/// If the supplied authority differs from the address derived from the
/// fixed seed and the engine's program identity, the account set fails
/// validation; since every operation returns an invocation only when
/// validation passes, the call is rejected with a violation and no engine
/// invocation exists to be issued.
pub proof fn authority_mismatch_rejected(a: AddLiquidity)
    requires
        !authority_matches(a.authority@, a.cp_swap_program@),
    ensures
        !authority_constraint(a),
        !constraints_hold(a),
{
}

} // verus!
