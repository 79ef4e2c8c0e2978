//! The lending market's building blocks.
pub mod cdp_data;
pub mod cdp_health_checker;
pub mod interest_strategy;
pub mod liquidation_threshold;
pub mod market_config;
pub mod operation_status;
pub mod pool_config;
pub mod pool_state;
pub mod utils;
