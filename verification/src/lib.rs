//! The rules of a price-pegged stablecoin and of a small counter, as plain
//! functions: what each instruction of the two programs decides, apart from
//! the chain it runs on.

pub mod counter;
pub mod error;
pub mod feed;
pub mod instructions;
pub mod metadata;
pub mod price;
pub mod rounding;
pub mod seeds;

pub use counter::Counter;
pub use counter::CounterError;
pub use error::ErrorCode;
pub use feed::feed_price;
pub use feed::price_of_result;
pub use feed::FeedResult;
pub use instructions::initialize_mint;
pub use instructions::mint_at_price;
pub use instructions::mint_tokens;
pub use instructions::redeem_at_price;
pub use instructions::redeem_stablecoin;
pub use instructions::Burn;
pub use instructions::CreateMetadata;
pub use instructions::InitializeMint;
pub use instructions::MintTo;
pub use instructions::MintTokens;
pub use instructions::RedeemStablecoin;
pub use metadata::InitTokenParams;
pub use metadata::TokenData;
pub use price::Price;
