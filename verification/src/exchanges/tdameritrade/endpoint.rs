//! Where an order is posted, how often a failed attempt is repeated, and what
//! a finished attempt amounts to.

use vstd::prelude::*;

verus! {

/// Root of the brokerage's interface.
pub const TD_BASE_URL: &'static str = "https://api.tdameritrade.com/v1";

/// How many times a transient failure is retried before giving up.
pub const MAX_RETRIES: u32 = 3;

/// The address that orders of the account `account_id` are posted to.
pub open spec fn place_order_url_text(account_id: Seq<char>) -> Seq<char> {
    TD_BASE_URL@ + "/accounts/"@ + account_id + "/orders"@
}

/// Builds the address that orders of the account `account_id` are posted to.
/// The account identifier is inserted as it is given.
pub fn place_order_url(account_id: &str) -> (url: String)
    ensures
        url@ == place_order_url_text(account_id@),
{
    let mut url = TD_BASE_URL.to_owned();
    url.append("/accounts/");
    url.append(account_id);
    url.append("/orders");
    url
}

/// What a finished submission amounts to: an attempt that got any response
/// counts as placed, whatever the response says, and an attempt that failed
/// in transit hands on its failure unchanged.
pub fn order_outcome<R, E>(sent: Result<R, E>) -> (outcome: Result<(), E>)
    ensures
        outcome is Ok <==> sent is Ok,
        sent is Err ==> outcome == Err::<(), E>(sent->Err_0),
{
    match sent {
        Ok(_) => Ok(()),
        Err(failure) => Err(failure),
    }
}

} // verus!
