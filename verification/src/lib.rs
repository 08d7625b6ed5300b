//! Verified decision logic of the APY Stabilizer contracts: the fee proxy
//! that holds a vault's Manager role, and the boost treasury that escrows
//! yield-boost budgets.

pub mod address;
pub mod registry;
pub mod step;
pub mod admin;
pub mod fee_proxy;
pub mod boost_treasury;
pub mod treasury_laws;
pub mod fee_proxy_laws;
pub mod mock_vault;
