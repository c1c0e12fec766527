//! One module per brokerage.

pub mod tdameritrade;
