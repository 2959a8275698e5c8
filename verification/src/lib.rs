pub mod address;
pub mod basket;
pub mod collateral;
pub mod constants;
pub mod custody;
pub mod error;
pub mod instruction;
pub mod laws;
pub mod liquidity;
pub mod market;
pub mod math;
pub mod oracle;
pub mod platform;
pub mod pool;
pub mod position;
pub mod setup;
pub mod trading;
