//! Single-leg option orders for TD Ameritrade: the order document, the
//! strategy that builds it from a trade request, and the address it goes to.

pub mod endpoint;
pub mod order;
pub mod strategy;

pub use endpoint::{order_outcome, place_order_url, MAX_RETRIES, TD_BASE_URL};
pub use order::{OptionsInstrument, OrderLeg, PlaceOrderBody};
pub use strategy::OptionsOrderStrategy;
