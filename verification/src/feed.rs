//! Reading the price out of a feed account.
//!
//! The feed's own library lays the account out and finds the current result
//! in it; the one call into it is `parse_feed`.  What the program makes of a
//! result is decided here: a result that was never written holds no price,
//! and a value too wide for a decimal is no price at all.

use crate::error::ErrorCode;
use crate::price::Price;
use crate::price::PriceView;
use std::cell::RefCell;
use switchboard_on_demand::on_demand::accounts::pull_feed::PullFeedAccountData;
use vstd::prelude::*;

verus! {

/// The number of decimal places in which a feed states its values.
pub const FEED_SCALE: u32 = 18;

/// The length of the shortest feed account: the discriminator, then the
/// 3200 bytes of the feed's fields.
pub const FEED_ACCOUNT_LEN: usize = 3208;

/// The eight bytes that a feed account starts with.
pub open spec fn feed_discriminator() -> Seq<u8> {
    seq![196u8, 27u8, 108u8, 196u8, 10u8, 215u8, 219u8, 40u8]
}

/// What the program reads of a feed's current result.
#[derive(Debug, Clone, Copy, PartialEq, Eq, Structural)]
pub struct FeedResult {
    /// The median of the oracles' answers, in units of `10^-18`.
    pub value: i128,
    /// The slot in which the value was signed; zero while there is none.
    pub slot: u64,
}

/// What a parsed feed is worth to the program.
///
/// An account that did not parse is an error.  A result without a slot holds
/// no price.  Any other result holds its value as a price with `FEED_SCALE`
/// decimal places, unless the value does not fit a price.
pub open spec fn price_of(parsed: Option<FeedResult>) -> Result<Option<PriceView>, ErrorCode> {
    match parsed {
        None => Err(ErrorCode::FailedToParseFeedData),
        Some(result) => {
            let price = PriceView { mantissa: result.value as int, scale: FEED_SCALE as nat };
            if result.slot == 0 {
                Ok(None)
            } else if price.in_range() {
                Ok(Some(price))
            } else {
                Err(ErrorCode::FailedToGetExchangeRateValue)
            }
        },
    }
}

/// The views of the prices in `outcome`.
pub open spec fn outcome_view(outcome: Result<Option<Price>, ErrorCode>) -> Result<
    Option<PriceView>,
    ErrorCode,
> {
    match outcome {
        Ok(Some(price)) => Ok(Some(price@)),
        Ok(None) => Ok(None),
        Err(code) => Err(code),
    }
}

/// Calls `PullFeedAccountData::parse` on the account's data, in place, and
/// copies the value and the slot out of the current result.
///
/// Trusted: the data is left as it was, and an account parses only if it
/// is at least `FEED_ACCOUNT_LEN` bytes long and starts with the feed
/// discriminator.  Whether such an account parses depends on where it lies
/// in memory, so nothing is said of that, nor of the value and the slot
/// that come back.
#[verifier::external_body]
fn parse_feed(data: &mut [u8]) -> (parsed: Option<FeedResult>)
    ensures
        final(data)@ == old(data)@,
        parsed is Some ==> old(data)@.len() >= FEED_ACCOUNT_LEN && old(data)@.subrange(0, 8)
            == feed_discriminator(),
{
    let cell = RefCell::new(data);
    let parsed = match PullFeedAccountData::parse(cell.borrow()) {
        Ok(feed) => Some(FeedResult { value: feed.result.value, slot: feed.result.slot }),
        Err(_) => None,
    };
    parsed
}

/// The price that a parsed feed holds.
pub fn price_of_result(parsed: Option<FeedResult>) -> (outcome: Result<Option<Price>, ErrorCode>)
    ensures
        outcome_view(outcome) == price_of(parsed),
{
    match parsed {
        None => Err(ErrorCode::FailedToParseFeedData),
        Some(result) => {
            if result.slot == 0 {
                Ok(None)
            } else {
                match Price::new(result.value, FEED_SCALE) {
                    Some(price) => Ok(Some(price)),
                    None => Err(ErrorCode::FailedToGetExchangeRateValue),
                }
            }
        },
    }
}

/// The price that a feed account holds, read from the account's data.
///
/// The data is not changed.  Whatever the account holds, the outcome is that
/// of `price_of` for some parsed result, and data that is too short or does
/// not start with the feed discriminator does not parse.
pub fn feed_price(data: &mut [u8]) -> (outcome: Result<Option<Price>, ErrorCode>)
    ensures
        final(data)@ == old(data)@,
        exists|parsed: Option<FeedResult>| outcome_view(outcome) == price_of(parsed),
        old(data)@.len() < FEED_ACCOUNT_LEN || old(data)@.subrange(0, 8) != feed_discriminator()
            ==> outcome == Err::<Option<Price>, ErrorCode>(ErrorCode::FailedToParseFeedData),
{
    let parsed = parse_feed(data);
    price_of_result(parsed)
}

} // verus!
