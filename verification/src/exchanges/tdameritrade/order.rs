//! The order document that the brokerage accepts, and its mathematical view.

use vstd::prelude::*;

verus! {

/// The instrument that a leg trades.
#[derive(Clone, Debug, PartialEq, Eq)]
pub struct OptionsInstrument {
    /// Symbol of the option contract.
    pub symbol: String,
    /// Asset class of the instrument.
    pub asset_type: String,
}

/// One instruction, quantity and instrument within an order.
#[derive(Clone, Debug, PartialEq, Eq)]
pub struct OrderLeg {
    /// What to do with the instrument.
    pub instruction: String,
    /// Number of contracts.
    pub quantity: usize,
    /// What is traded.
    pub instrument: OptionsInstrument,
}

/// A complete order as it is posted to the brokerage.
#[derive(Clone, Debug, PartialEq, Eq)]
pub struct PlaceOrderBody {
    /// Kind of multi-leg strategy.
    pub complex_order_strategy_type: String,
    /// How the price is to be treated.
    pub order_type: String,
    /// Trading session in which the order is live.
    pub session: String,
    /// Limit price, in hundredths of a currency unit.
    pub price: i64,
    /// How long the order stays open.
    pub duration: String,
    /// How the legs relate to each other.
    pub order_strategy_type: String,
    /// The legs of the order.
    pub order_leg_collection: Vec<OrderLeg>,
}

/// What an [`OptionsInstrument`] holds.
pub struct OptionsInstrumentView {
    pub symbol: Seq<char>,
    pub asset_type: Seq<char>,
}

/// What an [`OrderLeg`] holds.
pub struct OrderLegView {
    pub instruction: Seq<char>,
    pub quantity: nat,
    pub instrument: OptionsInstrumentView,
}

/// What a [`PlaceOrderBody`] holds.
pub struct PlaceOrderBodyView {
    pub complex_order_strategy_type: Seq<char>,
    pub order_type: Seq<char>,
    pub session: Seq<char>,
    pub price: int,
    pub duration: Seq<char>,
    pub order_strategy_type: Seq<char>,
    pub order_leg_collection: Seq<OrderLegView>,
}

impl View for OptionsInstrument {
    type V = OptionsInstrumentView;

    open spec fn view(&self) -> OptionsInstrumentView {
        OptionsInstrumentView { symbol: self.symbol@, asset_type: self.asset_type@ }
    }
}

impl View for OrderLeg {
    type V = OrderLegView;

    open spec fn view(&self) -> OrderLegView {
        OrderLegView {
            instruction: self.instruction@,
            quantity: self.quantity as nat,
            instrument: self.instrument@,
        }
    }
}

impl View for PlaceOrderBody {
    type V = PlaceOrderBodyView;

    open spec fn view(&self) -> PlaceOrderBodyView {
        PlaceOrderBodyView {
            complex_order_strategy_type: self.complex_order_strategy_type@,
            order_type: self.order_type@,
            session: self.session@,
            price: self.price as int,
            duration: self.duration@,
            order_strategy_type: self.order_strategy_type@,
            order_leg_collection: Seq::new(
                self.order_leg_collection@.len(),
                |i: int| self.order_leg_collection@[i]@,
            ),
        }
    }
}

} // verus!
