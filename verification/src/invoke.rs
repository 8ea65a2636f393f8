//! The invocation router: for each operation, the exact engine invocation(s)
//! a validated request issues. Every operation validates first and assembles
//! nothing on failure; on success the caller's numeric parameters appear in
//! the invocation unchanged. The combined operation assembles two
//! invocations — withdraw, then deposit — sharing one validated account set
//! and one parameter tuple; the surrounding atomic unit of execution commits
//! both legs or neither, so this layer never compensates or rolls back.

use vstd::prelude::*;

use crate::accounts::AddLiquidity;
use crate::error::ConstraintViolation;
use crate::address::Address;
use crate::validate::constraints_hold;
use crate::validate::first_violation;
use crate::validate::validate;

verus! {

/// The account addresses every engine entry point receives, in the order the
/// engine's own interface declares them.
#[derive(Clone, Copy, PartialEq, Eq, Debug)]
pub struct InvocationAccounts {
    pub owner: Address,
    pub authority: Address,
    pub pool_state: Address,
    pub owner_lp_token: Address,
    pub token_0_account: Address,
    pub token_1_account: Address,
    pub token_0_vault: Address,
    pub token_1_vault: Address,
    pub vault_0_mint: Address,
    pub vault_1_mint: Address,
    pub lp_mint: Address,
}

/// The entry point an invocation targets, with the exact parameters handed
/// to it. The withdraw bounds are the same caller-supplied values as the
/// deposit bounds; the engine, not this layer, defines their semantics
/// (ceilings on deposit, floors on withdrawal).
#[derive(Clone, Copy, PartialEq, Eq, Structural, Debug)]
pub enum EngineInstruction {
    Initialize { init_amount_0: u64, init_amount_1: u64, open_time: u64 },
    Deposit { lp_token_amount: u64, maximum_token_0_amount: u64, maximum_token_1_amount: u64 },
    Withdraw { lp_token_amount: u64, minimum_token_0_amount: u64, minimum_token_1_amount: u64 },
}

/// One fully-assembled engine invocation: the engine as callee, the
/// validated account set, and the instruction with its parameters.
#[derive(Clone, Copy, PartialEq, Eq, Debug)]
pub struct Invocation {
    pub program: Address,
    pub accounts: InvocationAccounts,
    pub instruction: EngineInstruction,
}

/// The two legs of the combined operation, in issue order.
#[derive(Clone, Copy, PartialEq, Eq, Debug)]
pub struct CombinedPlan {
    pub withdraw: Invocation,
    pub deposit: Invocation,
}

/// What the engine reported for an issued invocation. Any engine failure is
/// propagated unchanged; the atomic unit of execution discards all effects
/// of the call, so there is nothing to interpret or retry here.
#[derive(Clone, Copy, PartialEq, Eq, Structural, Debug)]
pub enum EngineOutcome {
    Committed,
    Failed,
}

/// The addresses an invocation carries, drawn from a validated account set.
pub open spec fn invocation_accounts_of(a: AddLiquidity) -> InvocationAccounts {
    InvocationAccounts {
        owner: a.owner,
        authority: a.authority,
        pool_state: a.pool_state.address,
        owner_lp_token: a.owner_lp_token.address,
        token_0_account: a.token_0_account.address,
        token_1_account: a.token_1_account.address,
        token_0_vault: a.token_0_vault.address,
        token_1_vault: a.token_1_vault.address,
        vault_0_mint: a.vault_0_mint,
        vault_1_mint: a.vault_1_mint,
        lp_mint: a.lp_mint,
    }
}

/// Assemble the account list an invocation carries.
fn assemble_accounts(a: &AddLiquidity) -> (r: InvocationAccounts)
    ensures
        r == invocation_accounts_of(*a),
{
    InvocationAccounts {
        owner: a.owner,
        authority: a.authority,
        pool_state: a.pool_state.address,
        owner_lp_token: a.owner_lp_token.address,
        token_0_account: a.token_0_account.address,
        token_1_account: a.token_1_account.address,
        token_0_vault: a.token_0_vault.address,
        token_1_vault: a.token_1_vault.address,
        vault_0_mint: a.vault_0_mint,
        vault_1_mint: a.vault_1_mint,
        lp_mint: a.lp_mint,
    }
}

/// Pool bootstrap: validate the account set and assemble the engine's
/// pool-initialization invocation. The three values are forwarded unchanged;
/// every business rule on initial reserves or timing is the engine's.
pub fn initialize(a: &AddLiquidity, init_amount_0: u64, init_amount_1: u64, open_time: u64) -> (r:
    Result<Invocation, ConstraintViolation>)
    ensures
        r is Ok <==> constraints_hold(*a),
        r matches Ok(inv) ==> inv == (Invocation {
            program: a.cp_swap_program,
            accounts: invocation_accounts_of(*a),
            instruction: EngineInstruction::Initialize { init_amount_0, init_amount_1, open_time },
        }),
        r matches Err(e) ==> e == first_violation(*a),
{
    match validate(a) {
        Ok(_) => Ok(
            Invocation {
                program: a.cp_swap_program,
                accounts: assemble_accounts(a),
                instruction: EngineInstruction::Initialize {
                    init_amount_0,
                    init_amount_1,
                    open_time,
                },
            },
        ),
        Err(e) => Err(e),
    }
}

/// Liquidity deposit: validate the account set and assemble the engine's
/// deposit invocation. The LP amount and the two slippage ceilings are
/// forwarded unchanged; the engine computes the required token amounts and
/// aborts if either exceeds its ceiling.
pub fn add_liquidity(
    a: &AddLiquidity,
    lp_token_amount: u64,
    maximum_token_0_amount: u64,
    maximum_token_1_amount: u64,
) -> (r: Result<Invocation, ConstraintViolation>)
    ensures
        r is Ok <==> constraints_hold(*a),
        r matches Ok(inv) ==> inv == (Invocation {
            program: a.cp_swap_program,
            accounts: invocation_accounts_of(*a),
            instruction: EngineInstruction::Deposit {
                lp_token_amount,
                maximum_token_0_amount,
                maximum_token_1_amount,
            },
        }),
        r matches Err(e) ==> e == first_violation(*a),
{
    match validate(a) {
        Ok(_) => Ok(
            Invocation {
                program: a.cp_swap_program,
                accounts: assemble_accounts(a),
                instruction: EngineInstruction::Deposit {
                    lp_token_amount,
                    maximum_token_0_amount,
                    maximum_token_1_amount,
                },
            },
        ),
        Err(e) => Err(e),
    }
}

/// Liquidity withdrawal: validate the account set and assemble the engine's
/// withdraw invocation. The caller's two bounds keep the names they arrive
/// under and land unchanged in the engine's minimum-amount parameters, whose
/// semantics (floors on the withdrawn amounts) the engine defines.
pub fn remove_liquidity(
    a: &AddLiquidity,
    lp_token_amount: u64,
    maximum_token_0_amount: u64,
    maximum_token_1_amount: u64,
) -> (r: Result<Invocation, ConstraintViolation>)
    ensures
        r is Ok <==> constraints_hold(*a),
        r matches Ok(inv) ==> inv == (Invocation {
            program: a.cp_swap_program,
            accounts: invocation_accounts_of(*a),
            instruction: EngineInstruction::Withdraw {
                lp_token_amount,
                minimum_token_0_amount: maximum_token_0_amount,
                minimum_token_1_amount: maximum_token_1_amount,
            },
        }),
        r matches Err(e) ==> e == first_violation(*a),
{
    match validate(a) {
        Ok(_) => Ok(
            Invocation {
                program: a.cp_swap_program,
                accounts: assemble_accounts(a),
                instruction: EngineInstruction::Withdraw {
                    lp_token_amount,
                    minimum_token_0_amount: maximum_token_0_amount,
                    minimum_token_1_amount: maximum_token_1_amount,
                },
            },
        ),
        Err(e) => Err(e),
    }
}

/// Atomic rebalance: validate once and assemble exactly two invocations —
/// the withdraw leg, then the deposit leg — over the one validated account
/// set, both carrying the caller's single parameter tuple unchanged. The
/// surrounding atomic unit of execution commits both legs or neither.
pub fn add_and_remove_liquidity(
    a: &AddLiquidity,
    lp_token_amount: u64,
    maximum_token_0_amount: u64,
    maximum_token_1_amount: u64,
) -> (r: Result<CombinedPlan, ConstraintViolation>)
    ensures
        r is Ok <==> constraints_hold(*a),
        r matches Ok(plan) ==> plan.withdraw == (Invocation {
            program: a.cp_swap_program,
            accounts: invocation_accounts_of(*a),
            instruction: EngineInstruction::Withdraw {
                lp_token_amount,
                minimum_token_0_amount: maximum_token_0_amount,
                minimum_token_1_amount: maximum_token_1_amount,
            },
        }) && plan.deposit == (Invocation {
            program: a.cp_swap_program,
            accounts: invocation_accounts_of(*a),
            instruction: EngineInstruction::Deposit {
                lp_token_amount,
                maximum_token_0_amount,
                maximum_token_1_amount,
            },
        }),
        r matches Err(e) ==> e == first_violation(*a),
{
    match validate(a) {
        Ok(_) => {
            let accounts = assemble_accounts(a);
            Ok(
                CombinedPlan {
                    withdraw: Invocation {
                        program: a.cp_swap_program,
                        accounts,
                        instruction: EngineInstruction::Withdraw {
                            lp_token_amount,
                            minimum_token_0_amount: maximum_token_0_amount,
                            minimum_token_1_amount: maximum_token_1_amount,
                        },
                    },
                    deposit: Invocation {
                        program: a.cp_swap_program,
                        accounts,
                        instruction: EngineInstruction::Deposit {
                            lp_token_amount,
                            maximum_token_0_amount,
                            maximum_token_1_amount,
                        },
                    },
                },
            )
        },
        Err(e) => Err(e),
    }
}

/// The sequencing decision of the combined operation: the deposit leg is
/// issued exactly when the withdraw leg committed. On a failed withdraw no
/// second invocation exists, and the atomic unit of execution discards the
/// whole call.
pub fn second_leg(plan: &CombinedPlan, withdraw_outcome: &EngineOutcome) -> (r: Option<Invocation>)
    ensures
        *withdraw_outcome is Committed ==> r == Some(plan.deposit),
        *withdraw_outcome is Failed ==> r is None,
{
    match withdraw_outcome {
        EngineOutcome::Committed => Some(plan.deposit),
        EngineOutcome::Failed => None,
    }
}

} // verus!
