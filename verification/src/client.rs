//! The clients, one pair for each market segment.

pub mod spot;
pub mod usd_futures;

pub use spot::{SpotHttpClient, SpotWSClient};
pub use usd_futures::{UFuturesHttpClient, UFuturesProxyWSClient, UFuturesWSClient};
