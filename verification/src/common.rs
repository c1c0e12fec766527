//! Vocabulary shared by every exchange: what is traded, and in which direction.

use vstd::prelude::*;

verus! {

/// The kind of option contract.
#[derive(Clone, Copy, Debug, PartialEq, Eq, Structural)]
pub enum OptionsContract {
    /// The right to buy the underlying.
    Call,
    /// The right to sell the underlying.
    Put,
}

/// The side of a trade.
#[derive(Clone, Copy, Debug, PartialEq, Eq, Structural)]
pub enum TradeDirection {
    /// Open a position by buying.
    Buy,
    /// Close a position by selling.
    Sell,
}

} // verus!
