use tda_orders::common::{OptionsContract, TradeDirection};
use tda_orders::decimal::{decimal_string, push_decimal};
use tda_orders::exchanges::tdameritrade::strategy::contract_symbol;
use tda_orders::exchanges::tdameritrade::OptionsOrderStrategy;

fn request(price: i64, ticker: &str, contract: OptionsContract) -> OptionsOrderStrategy {
    OptionsOrderStrategy::new(price, 1, ticker.to_string(), contract, TradeDirection::Buy)
}

#[test]
fn contract_symbol_literal_example() {
    assert_eq!(contract_symbol("AAPL", "090122", OptionsContract::Call, 2), "AAPL_090122C2");
}

#[test]
fn contract_symbol_put_letter() {
    assert_eq!(contract_symbol("AAPL", "090122", OptionsContract::Put, 2), "AAPL_090122P2");
}

#[test]
fn contract_symbol_negative_strike() {
    assert_eq!(contract_symbol("SPY", "121523", OptionsContract::Call, -3), "SPY_121523C-3");
}

#[test]
fn contract_symbol_large_strike() {
    assert_eq!(
        contract_symbol("BRK", "010125", OptionsContract::Put, i32::MAX),
        "BRK_010125P2147483647"
    );
}

#[test]
fn contract_symbol_empty_parts() {
    assert_eq!(contract_symbol("", "", OptionsContract::Call, 0), "_C0");
}

#[test]
fn options_contract_id_call() {
    assert_eq!(request(15025, "AAPL", OptionsContract::Call).options_contract_id(), "AAPL_090122C0");
}

#[test]
fn options_contract_id_put() {
    assert_eq!(request(15025, "AAPL", OptionsContract::Put).options_contract_id(), "AAPL_090122P0");
}

#[test]
fn options_contract_id_is_ticker_then_nine_characters() {
    for ticker in ["", "F", "AAPL", "GOOGL"] {
        let id = request(1, ticker, OptionsContract::Call).options_contract_id();
        assert!(id.starts_with(ticker));
        assert_eq!(id.chars().count(), ticker.chars().count() + 9);
        assert_eq!(&id[ticker.len()..], "_090122C0");
    }
}

#[test]
fn strike_price_is_zero_for_every_price() {
    for price in [i64::MIN, i64::MIN + 249, -251, -250, -1, 0, 1, 249, 250, 251, 450, 15025, i64::MAX] {
        assert_eq!(request(price, "AAPL", OptionsContract::Call).strike_price(), 0);
    }
}

#[test]
fn strike_price_delta_is_two_and_a_half_units() {
    assert_eq!(request(0, "AAPL", OptionsContract::Call).strike_price_delta(), 250);
    assert_eq!(request(99999, "TSLA", OptionsContract::Put).strike_price_delta(), 250);
}

#[test]
fn strike_date_is_fixed() {
    assert_eq!(request(0, "AAPL", OptionsContract::Call).strike_date(), "090122");
    assert_eq!(request(99999, "TSLA", OptionsContract::Put).strike_date(), "090122");
}

#[test]
fn decimal_string_of_zero() {
    assert_eq!(decimal_string(0), "0");
}

#[test]
fn decimal_string_of_single_digits() {
    let expected = ["0", "1", "2", "3", "4", "5", "6", "7", "8", "9"];
    for (n, text) in expected.iter().enumerate() {
        assert_eq!(decimal_string(n as i32), *text);
    }
}

#[test]
fn decimal_string_of_several_digits() {
    assert_eq!(decimal_string(10), "10");
    assert_eq!(decimal_string(148), "148");
    assert_eq!(decimal_string(1000), "1000");
    assert_eq!(decimal_string(90210), "90210");
}

#[test]
fn decimal_string_of_negative_numbers() {
    assert_eq!(decimal_string(-1), "-1");
    assert_eq!(decimal_string(-12), "-12");
    assert_eq!(decimal_string(-1000), "-1000");
}

#[test]
fn decimal_string_of_the_bounds() {
    assert_eq!(decimal_string(i32::MAX), "2147483647");
    assert_eq!(decimal_string(i32::MIN), "-2147483648");
}

#[test]
fn decimal_string_agrees_with_std() {
    let mut n: i32 = -100_000;
    while n <= 100_000 {
        assert_eq!(decimal_string(n), n.to_string());
        n += 37;
    }
}

#[test]
fn push_decimal_appends_to_what_is_there() {
    let mut out = String::from("strike=");
    push_decimal(&mut out, -45);
    assert_eq!(out, "strike=-45");
    push_decimal(&mut out, 6);
    assert_eq!(out, "strike=-456");
}
