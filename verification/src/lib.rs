//! Account-constraint validation and invocation assembly for a constant-product
//! liquidity-pool engine.
//!
//! The library validates that every account a caller supplies for a pool
//! operation is the one the pool's own records and deterministic address
//! derivation demand, and assembles the exact parameter set of the engine
//! invocation(s) that a validated operation issues. All durable pool state
//! lives in the engine; this layer only reads identities and forwards the
//! caller's numeric bounds unchanged.

pub mod accounts;
pub mod address;
pub mod authority;
pub mod error;
pub mod invoke;
pub mod laws;
pub mod validate;

pub use accounts::AddLiquidity;
pub use accounts::PoolRecord;
pub use accounts::TokenAccountInfo;
pub use address::address_eq;
pub use address::Address;
pub use authority::check_authority;
pub use authority::resolve_authority;
pub use error::ConstraintViolation;
pub use invoke::add_and_remove_liquidity;
pub use invoke::add_liquidity;
pub use invoke::initialize;
pub use invoke::remove_liquidity;
pub use invoke::second_leg;
pub use invoke::CombinedPlan;
pub use invoke::EngineInstruction;
pub use invoke::EngineOutcome;
pub use invoke::Invocation;
pub use invoke::InvocationAccounts;
pub use validate::validate;
pub use validate::violations;
