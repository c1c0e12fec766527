//! The strategy that turns a trade request into an order document.

use vstd::prelude::*;

use crate::common::{OptionsContract, TradeDirection};
use crate::decimal::{decimal_text, push_decimal};
use crate::exchanges::tdameritrade::order::{
    OptionsInstrument, OptionsInstrumentView, OrderLeg, OrderLegView, PlaceOrderBody,
    PlaceOrderBodyView,
};
use crate::money::{round_half_away, round_to_units, saturate_i32};

verus! {

/// A request to trade one option contract series at a limit price.
#[derive(Clone, Debug, PartialEq, Eq)]
pub struct OptionsOrderStrategy {
    /// Limit price of the order, in hundredths of a currency unit. Any value
    /// is taken, negative ones included.
    pub price: i64,
    /// Number of contracts.
    pub quantity: usize,
    /// Ticker symbol of the underlying.
    pub ticker_symbol: String,
    /// Call or put; decides the letter in the contract symbol.
    pub options_contract: OptionsContract,
    /// Buy or sell; decides the instruction of the leg.
    pub trade_direction: TradeDirection,
}

/// What an [`OptionsOrderStrategy`] holds.
pub struct OptionsOrderStrategyView {
    pub price: int,
    pub quantity: nat,
    pub ticker_symbol: Seq<char>,
    pub options_contract: OptionsContract,
    pub trade_direction: TradeDirection,
}

impl View for OptionsOrderStrategy {
    type V = OptionsOrderStrategyView;

    open spec fn view(&self) -> OptionsOrderStrategyView {
        OptionsOrderStrategyView {
            price: self.price as int,
            quantity: self.quantity as nat,
            ticker_symbol: self.ticker_symbol@,
            options_contract: self.options_contract,
            trade_direction: self.trade_direction,
        }
    }
}

/// The step between neighbouring strike prices, in hundredths of a currency
/// unit: two and a half units.
pub open spec fn strike_delta() -> int {
    250
}

/// The expiry that every contract symbol carries, as month, day and year.
pub open spec fn strike_date_text() -> Seq<char> {
    "090122"@
}

/// The instruction that a leg carries for a trade direction: buying opens a
/// position, selling closes one.
pub open spec fn instruction_text(direction: TradeDirection) -> Seq<char> {
    match direction {
        TradeDirection::Buy => "BUY_TO_OPEN"@,
        TradeDirection::Sell => "SELL_TO_CLOSE"@,
    }
}

/// The letter that stands for the kind of contract in a symbol.
pub open spec fn contract_letter(contract: OptionsContract) -> char {
    match contract {
        OptionsContract::Call => 'C',
        OptionsContract::Put => 'P',
    }
}

/// The strike price, in whole units, for an order at `price` hundredths: the
/// price, less the price one step down, less one step more, rounded to whole
/// units. The two steps cancel, so the strike does not follow the price; see
/// [`lemma_strike_price_is_zero`].
pub open spec fn strike_price_of(price: int) -> int {
    saturate_i32(round_half_away(price - (price - strike_delta()) - strike_delta()))
}

/// The symbol of an option contract: the ticker, an underscore, the expiry,
/// the letter of the contract kind, and the strike price in decimal.
pub open spec fn contract_symbol_text(
    ticker: Seq<char>,
    expiry: Seq<char>,
    contract: OptionsContract,
    strike: int,
) -> Seq<char> {
    ticker + seq!['_'] + expiry + seq![contract_letter(contract)] + decimal_text(strike)
}

/// The contract symbol that a request yields.
pub open spec fn contract_id_text(request: OptionsOrderStrategyView) -> Seq<char> {
    contract_symbol_text(
        request.ticker_symbol,
        strike_date_text(),
        request.options_contract,
        strike_price_of(request.price),
    )
}

/// The one leg of the order that a request yields.
pub open spec fn order_leg_of(request: OptionsOrderStrategyView) -> OrderLegView {
    OrderLegView {
        instruction: instruction_text(request.trade_direction),
        quantity: request.quantity,
        instrument: OptionsInstrumentView {
            symbol: contract_id_text(request),
            asset_type: "OPTION"@,
        },
    }
}

/// The order document that a request yields: a single-leg limit order for the
/// normal session, good for the day, at the request's price.
pub open spec fn order_payload(request: OptionsOrderStrategyView) -> PlaceOrderBodyView {
    PlaceOrderBodyView {
        complex_order_strategy_type: "NONE"@,
        order_type: "LIMIT"@,
        session: "NORMAL"@,
        price: request.price,
        duration: "DAY"@,
        order_strategy_type: "SINGLE"@,
        order_leg_collection: seq![order_leg_of(request)],
    }
}

/// Builds the symbol of an option contract from its parts.
pub fn contract_symbol(
    ticker: &str,
    expiry: &str,
    contract: OptionsContract,
    strike: i32,
) -> (symbol: String)
    ensures
        symbol@ == contract_symbol_text(ticker@, expiry@, contract, strike as int),
{
    proof {
        reveal_strlit("_");
        reveal_strlit("C");
        reveal_strlit("P");
    }
    let mut symbol = ticker.to_owned();
    symbol.append("_");
    symbol.append(expiry);
    match contract {
        OptionsContract::Call => symbol.append("C"),
        OptionsContract::Put => symbol.append("P"),
    }
    assert(symbol@ =~= ticker@ + seq!['_'] + expiry@ + seq![contract_letter(contract)]);
    push_decimal(&mut symbol, strike);
    symbol
}

impl OptionsOrderStrategy {
    /// A request from its five parts.
    pub fn new(
        price: i64,
        quantity: usize,
        ticker_symbol: String,
        options_contract: OptionsContract,
        trade_direction: TradeDirection,
    ) -> (request: OptionsOrderStrategy)
        ensures
            request.price == price,
            request.quantity == quantity,
            request.ticker_symbol == ticker_symbol,
            request.options_contract == options_contract,
            request.trade_direction == trade_direction,
    {
        OptionsOrderStrategy { price, quantity, ticker_symbol, options_contract, trade_direction }
    }

    /// Builds the order document for this request. The document has exactly
    /// one leg, whose instruction follows the trade direction.
    pub fn build_order(&self) -> (body: PlaceOrderBody)
        ensures
            body@ == order_payload(self@),
            body.order_leg_collection@.len() == 1,
            body.order_leg_collection@[0].instruction@ == instruction_text(self.trade_direction),
            body.order_leg_collection@[0].quantity == self.quantity,
            body.price == self.price,
    {
        let leg = OrderLeg {
            instruction: self.order_instruction().to_owned(),
            quantity: self.quantity,
            instrument: OptionsInstrument {
                symbol: self.options_contract_id(),
                asset_type: "OPTION".to_owned(),
            },
        };
        let body = PlaceOrderBody {
            complex_order_strategy_type: "NONE".to_owned(),
            order_type: "LIMIT".to_owned(),
            session: "NORMAL".to_owned(),
            price: self.price,
            duration: "DAY".to_owned(),
            order_strategy_type: "SINGLE".to_owned(),
            order_leg_collection: vec![leg],
        };
        assert(body@.order_leg_collection =~= seq![order_leg_of(self@)]);
        body
    }

    /// The instruction for buying or selling.
    pub fn order_instruction(&self) -> (instruction: &'static str)
        ensures
            instruction@ == instruction_text(self.trade_direction),
    {
        match self.trade_direction {
            TradeDirection::Buy => "BUY_TO_OPEN",
            TradeDirection::Sell => "SELL_TO_CLOSE",
        }
    }

    /// The symbol of the contract that the leg trades.
    pub fn options_contract_id(&self) -> (id: String)
        ensures
            id@ == contract_id_text(self@),
    {
        contract_symbol(
            self.ticker_symbol.as_str(),
            self.strike_date(),
            self.options_contract,
            self.strike_price(),
        )
    }

    /// The strike price of the contract, in whole currency units.
    pub fn strike_price(&self) -> (strike: i32)
        ensures
            strike == strike_price_of(self.price as int),
    {
        let delta: i128 = self.strike_price_delta() as i128;
        let price: i128 = self.price as i128;
        let offset: i128 = price - (price - delta) - delta;
        round_to_units(offset as i64)
    }

    /// The step between neighbouring strike prices, in hundredths of a
    /// currency unit. It is the same for every ticker.
    pub fn strike_price_delta(&self) -> (delta: i64)
        ensures
            delta == strike_delta(),
    {
        250
    }

    /// The expiry that the contract symbol carries. It is the same for every
    /// request.
    pub fn strike_date(&self) -> (date: &'static str)
        ensures
            date@ == strike_date_text(),
    {
        "090122"
    }
}

/// The two strike steps cancel: whatever the price, the strike is zero.
pub proof fn lemma_strike_price_is_zero(price: int)
    ensures
        strike_price_of(price) == 0,
{
}

/// Every order has exactly one leg, and its instruction is decided by the
/// trade direction alone: opening by a buy, closing by a sell.
pub proof fn lemma_single_leg_follows_direction(request: OptionsOrderStrategyView)
    ensures
        order_payload(request).order_leg_collection.len() == 1,
        request.trade_direction == TradeDirection::Buy ==> order_payload(
            request,
        ).order_leg_collection[0].instruction == "BUY_TO_OPEN"@,
        request.trade_direction == TradeDirection::Sell ==> order_payload(
            request,
        ).order_leg_collection[0].instruction == "SELL_TO_CLOSE"@,
        "BUY_TO_OPEN"@ != "SELL_TO_CLOSE"@,
{
    reveal_strlit("BUY_TO_OPEN");
    reveal_strlit("SELL_TO_CLOSE");
    assert("BUY_TO_OPEN"@.len() != "SELL_TO_CLOSE"@.len());
}

/// Every contract symbol is the ticker followed by the fixed expiry, the
/// letter of the contract kind and a strike of zero.
pub proof fn lemma_contract_id_format(request: OptionsOrderStrategyView)
    ensures
        contract_id_text(request) == request.ticker_symbol + seq!['_', '0', '9', '0', '1', '2', '2']
            + seq![contract_letter(request.options_contract), '0'],
        contract_id_text(request).len() == request.ticker_symbol.len() + 9,
{
    reveal_strlit("090122");
    lemma_strike_price_is_zero(request.price);
    assert(decimal_text(0) =~= seq!['0']);
    assert(contract_id_text(request) =~= request.ticker_symbol + seq![
        '_',
        '0',
        '9',
        '0',
        '1',
        '2',
        '2',
    ] + seq![contract_letter(request.options_contract), '0']);
}

/// Building reads nothing but the request: two requests that hold the same
/// values yield documents that hold the same values.
pub proof fn lemma_build_order_deterministic(
    first: OptionsOrderStrategy,
    second: OptionsOrderStrategy,
    first_body: PlaceOrderBody,
    second_body: PlaceOrderBody,
)
    requires
        first@ == second@,
        first_body@ == order_payload(first@),
        second_body@ == order_payload(second@),
    ensures
        first_body@ == second_body@,
{
}

} // verus!
