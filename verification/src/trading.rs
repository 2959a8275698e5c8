pub mod adjust;
pub mod close;
pub mod funds;
pub mod open;
pub mod quote;

pub use adjust::{process_add_collateral_to_position, remove_collateral_from_position, Adjustment};
pub use close::{close_position, liquidate_position, Settlement};
pub use funds::{fund_position, release_position, CustodyBalances};
pub use open::open_position;
pub use quote::{get_decrease_quote, get_increase_quote, get_prices, OracleFeeds, Prices, Quote};
