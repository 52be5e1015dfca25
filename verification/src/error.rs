//! The errors that an instruction of the stablecoin program can end with.

use vstd::prelude::*;

verus! {

#[derive(Clone, Copy, Debug, PartialEq, Eq, Structural)]
pub enum ErrorCode {
    InvalidExchangeRate,
    FailedToParseFeedData,
    FailedToGetExchangeRateValue,
    FailedToConvertExchangeRateTof64,
}

impl ErrorCode {
    /// The text that goes with each error.
    pub open spec fn message_text(self) -> Seq<char> {
        match self {
            ErrorCode::InvalidExchangeRate => "Invalid Exchange Rate"@,
            ErrorCode::FailedToParseFeedData => "Failed to parse feed data"@,
            ErrorCode::FailedToGetExchangeRateValue => "Failed to get exchange rate value"@,
            ErrorCode::FailedToConvertExchangeRateTof64 => "Failed to convert exchange rate to f64"@,
        }
    }

    pub fn message(&self) -> (text: String)
        ensures
            text@ == self.message_text(),
    {
        match self {
            ErrorCode::InvalidExchangeRate => "Invalid Exchange Rate".to_owned(),
            ErrorCode::FailedToParseFeedData => "Failed to parse feed data".to_owned(),
            ErrorCode::FailedToGetExchangeRateValue => "Failed to get exchange rate value".to_owned(),
            ErrorCode::FailedToConvertExchangeRateTof64 => "Failed to convert exchange rate to f64".to_owned(),
        }
    }
}

} // verus!
