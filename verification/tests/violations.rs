use raydium_liquidity_interaction::add_liquidity;
use raydium_liquidity_interaction::resolve_authority;
use raydium_liquidity_interaction::validate;
use raydium_liquidity_interaction::violations;
use raydium_liquidity_interaction::AddLiquidity;
use raydium_liquidity_interaction::Address;
use raydium_liquidity_interaction::ConstraintViolation;
use raydium_liquidity_interaction::PoolRecord;
use raydium_liquidity_interaction::TokenAccountInfo;

fn addr(b: u8) -> Address {
    Address { bytes: [b; 32] }
}

fn valid_set() -> AddLiquidity {
    let program = addr(1);
    let owner = addr(2);
    let v0 = addr(3);
    let v1 = addr(4);
    let mint0 = addr(5);
    let mint1 = addr(6);
    let lp_mint = addr(7);
    let (authority, _bump) = resolve_authority(&program).expect("derivation must succeed");
    AddLiquidity {
        cp_swap_program: program,
        owner,
        authority,
        pool_state: PoolRecord {
            address: addr(8),
            token_0_vault: v0,
            token_1_vault: v1,
            lp_mint,
        },
        owner_lp_token: TokenAccountInfo {
            address: addr(9),
            mint: lp_mint,
            owner,
        },
        token_0_account: TokenAccountInfo {
            address: addr(10),
            mint: mint0,
            owner,
        },
        token_1_account: TokenAccountInfo {
            address: addr(11),
            mint: mint1,
            owner,
        },
        token_0_vault: TokenAccountInfo {
            address: v0,
            mint: mint0,
            owner: authority,
        },
        token_1_vault: TokenAccountInfo {
            address: v1,
            mint: mint1,
            owner: authority,
        },
        vault_0_mint: mint0,
        vault_1_mint: mint1,
        lp_mint,
    }
}

fn first_violation_of(a: &AddLiquidity) -> ConstraintViolation {
    validate(a).expect_err("set must be invalid")
}

#[test]
fn each_broken_relationship_reports_its_own_violation() {
    let stranger = addr(42);

    let mut a = valid_set();
    a.authority = stranger;
    assert_eq!(first_violation_of(&a), ConstraintViolation::AuthorityMismatch);

    let mut a = valid_set();
    a.owner_lp_token.owner = stranger;
    assert_eq!(first_violation_of(&a), ConstraintViolation::LpTokenOwnerMismatch);

    let mut a = valid_set();
    a.token_0_account.mint = stranger;
    assert_eq!(
        first_violation_of(&a),
        ConstraintViolation::Token0AccountMintMismatch
    );

    let mut a = valid_set();
    a.token_0_account.owner = stranger;
    assert_eq!(
        first_violation_of(&a),
        ConstraintViolation::Token0AccountOwnerMismatch
    );

    let mut a = valid_set();
    a.token_1_account.mint = stranger;
    assert_eq!(
        first_violation_of(&a),
        ConstraintViolation::Token1AccountMintMismatch
    );

    let mut a = valid_set();
    a.token_1_account.owner = stranger;
    assert_eq!(
        first_violation_of(&a),
        ConstraintViolation::Token1AccountOwnerMismatch
    );

    let mut a = valid_set();
    a.token_0_vault.address = stranger;
    assert_eq!(first_violation_of(&a), ConstraintViolation::Token0VaultMismatch);

    let mut a = valid_set();
    a.token_1_vault.address = stranger;
    assert_eq!(first_violation_of(&a), ConstraintViolation::Token1VaultMismatch);

    let mut a = valid_set();
    a.vault_0_mint = stranger;
    assert_eq!(first_violation_of(&a), ConstraintViolation::Vault0MintMismatch);

    let mut a = valid_set();
    a.vault_1_mint = stranger;
    assert_eq!(first_violation_of(&a), ConstraintViolation::Vault1MintMismatch);

    let mut a = valid_set();
    a.lp_mint = stranger;
    assert_eq!(first_violation_of(&a), ConstraintViolation::LpMintMismatch);
}

#[test]
fn violations_lists_every_broken_relationship_in_order() {
    let mut a = valid_set();
    a.authority = addr(42);
    a.lp_mint = addr(43);
    assert_eq!(
        violations(&a),
        vec![
            ConstraintViolation::AuthorityMismatch,
            ConstraintViolation::LpMintMismatch,
        ]
    );
}

#[test]
fn changing_a_vault_mint_breaks_the_mint_chain() {
    // The vault's own mint participates in three relationships; changing it
    // surfaces each of them, in declaration order.
    let mut a = valid_set();
    a.token_0_vault.mint = addr(44);
    assert_eq!(
        violations(&a),
        vec![
            ConstraintViolation::Token0AccountMintMismatch,
            ConstraintViolation::Vault0MintMismatch,
        ]
    );
    assert!(add_liquidity(&a, 1, 1, 1).is_err());
}
