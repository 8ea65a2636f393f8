use raydium_liquidity_interaction::add_and_remove_liquidity;
use raydium_liquidity_interaction::add_liquidity;
use raydium_liquidity_interaction::address_eq;
use raydium_liquidity_interaction::initialize;
use raydium_liquidity_interaction::remove_liquidity;
use raydium_liquidity_interaction::resolve_authority;
use raydium_liquidity_interaction::second_leg;
use raydium_liquidity_interaction::validate;
use raydium_liquidity_interaction::violations;
use raydium_liquidity_interaction::AddLiquidity;
use raydium_liquidity_interaction::Address;
use raydium_liquidity_interaction::ConstraintViolation;
use raydium_liquidity_interaction::EngineInstruction;
use raydium_liquidity_interaction::EngineOutcome;
use raydium_liquidity_interaction::PoolRecord;
use raydium_liquidity_interaction::TokenAccountInfo;

fn addr(b: u8) -> Address {
    Address { bytes: [b; 32] }
}

/// A fully consistent account set: every relationship the validator checks
/// holds, with the authority taken from the real derivation.
fn valid_set() -> AddLiquidity {
    let program = addr(1);
    let owner = addr(2);
    let v0 = addr(3);
    let v1 = addr(4);
    let mint0 = addr(5);
    let mint1 = addr(6);
    let lp_mint = addr(7);
    let (authority, _bump) = resolve_authority(&program).expect("derivation must succeed");
    AddLiquidity {
        cp_swap_program: program,
        owner,
        authority,
        pool_state: PoolRecord {
            address: addr(8),
            token_0_vault: v0,
            token_1_vault: v1,
            lp_mint,
        },
        owner_lp_token: TokenAccountInfo {
            address: addr(9),
            mint: lp_mint,
            owner,
        },
        token_0_account: TokenAccountInfo {
            address: addr(10),
            mint: mint0,
            owner,
        },
        token_1_account: TokenAccountInfo {
            address: addr(11),
            mint: mint1,
            owner,
        },
        token_0_vault: TokenAccountInfo {
            address: v0,
            mint: mint0,
            owner: authority,
        },
        token_1_vault: TokenAccountInfo {
            address: v1,
            mint: mint1,
            owner: authority,
        },
        vault_0_mint: mint0,
        vault_1_mint: mint1,
        lp_mint,
    }
}

#[test]
fn address_eq_compares_all_bytes() {
    assert!(address_eq(&addr(3), &addr(3)));
    assert!(!address_eq(&addr(3), &addr(4)));
    let mut one_off = addr(3);
    one_off.bytes[31] = 9;
    assert!(!address_eq(&addr(3), &one_off));
}

#[test]
fn authority_derivation_is_deterministic() {
    let program = addr(1);
    let first = resolve_authority(&program).expect("derivation must succeed");
    let second = resolve_authority(&program).expect("derivation must succeed");
    assert_eq!(first, second);
}

#[test]
fn authority_derivation_is_not_the_program_itself() {
    let program = addr(1);
    let (authority, _bump) = resolve_authority(&program).expect("derivation must succeed");
    assert_ne!(authority, program);
}

#[test]
fn valid_set_passes_validation() {
    let a = valid_set();
    assert_eq!(validate(&a), Ok(()));
    assert!(violations(&a).is_empty());
}

#[test]
fn valid_add_liquidity_issues_deposit() {
    let a = valid_set();
    let inv = add_liquidity(&a, 1000, 500, 500).expect("valid set must pass");
    assert_eq!(inv.program, a.cp_swap_program);
    assert_eq!(
        inv.instruction,
        EngineInstruction::Deposit {
            lp_token_amount: 1000,
            maximum_token_0_amount: 500,
            maximum_token_1_amount: 500,
        }
    );
    assert_eq!(inv.accounts.owner, a.owner);
    assert_eq!(inv.accounts.authority, a.authority);
    assert_eq!(inv.accounts.pool_state, a.pool_state.address);
    assert_eq!(inv.accounts.owner_lp_token, a.owner_lp_token.address);
    assert_eq!(inv.accounts.token_0_account, a.token_0_account.address);
    assert_eq!(inv.accounts.token_1_account, a.token_1_account.address);
    assert_eq!(inv.accounts.token_0_vault, a.pool_state.token_0_vault);
    assert_eq!(inv.accounts.token_1_vault, a.pool_state.token_1_vault);
    assert_eq!(inv.accounts.vault_0_mint, a.vault_0_mint);
    assert_eq!(inv.accounts.vault_1_mint, a.vault_1_mint);
    assert_eq!(inv.accounts.lp_mint, a.pool_state.lp_mint);
}

#[test]
fn swapped_vault_is_rejected_before_any_invocation() {
    let mut a = valid_set();
    a.token_0_vault.address = a.pool_state.token_1_vault;
    assert_eq!(
        add_liquidity(&a, 1000, 500, 500),
        Err(ConstraintViolation::Token0VaultMismatch)
    );
}

#[test]
fn wrong_authority_is_rejected_before_any_invocation() {
    let mut a = valid_set();
    a.authority = addr(42);
    assert_eq!(
        add_liquidity(&a, 1000, 500, 500),
        Err(ConstraintViolation::AuthorityMismatch)
    );
    assert_eq!(
        remove_liquidity(&a, 1000, 500, 500),
        Err(ConstraintViolation::AuthorityMismatch)
    );
}

#[test]
fn remove_liquidity_forwards_bounds_unchanged() {
    let a = valid_set();
    let inv = remove_liquidity(&a, 77, 11, 22).expect("valid set must pass");
    assert_eq!(
        inv.instruction,
        EngineInstruction::Withdraw {
            lp_token_amount: 77,
            minimum_token_0_amount: 11,
            minimum_token_1_amount: 22,
        }
    );
}

#[test]
fn initialize_forwards_amounts_unchanged() {
    let a = valid_set();
    let inv = initialize(&a, 7, 8, 9).expect("valid set must pass");
    assert_eq!(
        inv.instruction,
        EngineInstruction::Initialize {
            init_amount_0: 7,
            init_amount_1: 8,
            open_time: 9,
        }
    );
}

#[test]
fn combined_operation_plans_withdraw_then_deposit() {
    let a = valid_set();
    let plan = add_and_remove_liquidity(&a, 200, 50, 50).expect("valid set must pass");
    assert_eq!(
        plan.withdraw.instruction,
        EngineInstruction::Withdraw {
            lp_token_amount: 200,
            minimum_token_0_amount: 50,
            minimum_token_1_amount: 50,
        }
    );
    assert_eq!(
        plan.deposit.instruction,
        EngineInstruction::Deposit {
            lp_token_amount: 200,
            maximum_token_0_amount: 50,
            maximum_token_1_amount: 50,
        }
    );
    assert_eq!(plan.withdraw.program, a.cp_swap_program);
    assert_eq!(plan.withdraw.accounts, plan.deposit.accounts);
}

#[test]
fn deposit_leg_follows_only_a_committed_withdraw() {
    let a = valid_set();
    let plan = add_and_remove_liquidity(&a, 200, 50, 50).expect("valid set must pass");
    assert_eq!(second_leg(&plan, &EngineOutcome::Committed), Some(plan.deposit));
    assert_eq!(second_leg(&plan, &EngineOutcome::Failed), None);
}

#[test]
fn combined_operation_rejects_like_the_single_legs() {
    let mut a = valid_set();
    a.token_1_vault.address = addr(40);
    assert_eq!(
        add_and_remove_liquidity(&a, 200, 50, 50),
        Err(ConstraintViolation::Token1VaultMismatch)
    );
}
