//! Verified core of a collateralised lending market.
pub mod address;
pub mod decimal;
pub mod faucet;
pub mod maps;
pub mod market;
pub mod mock_oracle;
pub mod modules;
pub mod price_feed;
pub mod single_resource_pool;
pub mod staking;
