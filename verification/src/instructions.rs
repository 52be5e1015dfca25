//! The three instructions of the stablecoin program.
//!
//! An instruction does not touch the chain itself.  It is given the accounts
//! it works on, as handles of any type `A`, and the data of the feed
//! account where it reads one, and answers with the one call into another
//! program that is to be made for it: which program, which accounts in
//! which part, which seeds sign, and how many tokens.

use crate::error::ErrorCode;
use crate::feed::feed_discriminator;
use crate::feed::feed_price;
use crate::feed::outcome_view;
use crate::feed::price_of;
use crate::feed::FeedResult;
use crate::feed::FEED_ACCOUNT_LEN;
use crate::metadata::token_data;
use crate::metadata::CollectionDetails;
use crate::metadata::InitTokenParams;
use crate::metadata::TokenData;
use crate::price::minted;
use crate::price::redeemed;
use crate::price::Price;
use crate::price::PriceView;
use crate::seeds::mint_signer_seeds;
use crate::seeds::signer_seeds;
use vstd::prelude::*;

verus! {

/// What `initialize_mint` works on.
#[derive(Debug, Clone)]
pub struct InitializeMint<A> {
    pub metadata: A,
    pub mint: A,
    pub payer: A,
    pub rent: A,
    pub system_program: A,
    pub token_metadata_program: A,
    /// The bump of the mint's address.
    pub mint_bump: u8,
}

/// What `mint_tokens` works on.
#[derive(Debug, Clone)]
pub struct MintTokens<A> {
    pub mint: A,
    pub destination: A,
    pub token_program: A,
    /// The bump of the mint's address.
    pub mint_bump: u8,
}

/// What `redeem_stablecoin` works on.
#[derive(Debug, Clone)]
pub struct RedeemStablecoin<A> {
    pub mint: A,
    pub user_token_account: A,
    pub authority: A,
    pub token_program: A,
    /// The bump of the mint's address.
    pub mint_bump: u8,
}

/// A call that creates the metadata account of a mint.
#[derive(Debug, Clone)]
pub struct CreateMetadata<'a, A> {
    pub program: &'a A,
    pub payer: &'a A,
    pub update_authority: &'a A,
    pub mint: &'a A,
    pub metadata: &'a A,
    pub mint_authority: &'a A,
    pub system_program: &'a A,
    pub rent: &'a A,
    pub signer_seeds: Vec<Vec<u8>>,
    pub data: TokenData,
    pub is_mutable: bool,
    pub update_authority_is_signer: bool,
    pub collection_details: Option<CollectionDetails>,
}

/// A call that mints `amount` tokens to an account.
#[derive(Debug, Clone)]
pub struct MintTo<'a, A> {
    pub program: &'a A,
    pub mint: &'a A,
    pub to: &'a A,
    pub authority: &'a A,
    pub signer_seeds: Vec<Vec<u8>>,
    pub amount: u64,
}

/// A call that burns `amount` tokens of an account.
#[derive(Debug, Clone)]
pub struct Burn<'a, A> {
    pub program: &'a A,
    pub mint: &'a A,
    pub from: &'a A,
    pub authority: &'a A,
    pub signer_seeds: Vec<Vec<u8>>,
    pub amount: u64,
}

/// Gives a new mint its metadata.
///
/// The mint pays nothing itself but is its own authority: it stands as mint
/// authority and as update authority, and signs with its seeds.  The
/// metadata cannot be changed afterwards, and the mint stands for no
/// collection.
pub fn initialize_mint<'a, A>(ctx: &'a InitializeMint<A>, metadata: InitTokenParams) -> (call:
    CreateMetadata<'a, A>)
    ensures
        *call.program == ctx.token_metadata_program,
        *call.payer == ctx.payer,
        *call.update_authority == ctx.mint,
        *call.mint == ctx.mint,
        *call.metadata == ctx.metadata,
        *call.mint_authority == ctx.mint,
        *call.system_program == ctx.system_program,
        *call.rent == ctx.rent,
        call.signer_seeds.deep_view() == mint_signer_seeds(ctx.mint_bump),
        call.data@ == token_data(metadata@),
        !call.is_mutable,
        call.update_authority_is_signer,
        call.collection_details is None,
{
    CreateMetadata {
        program: &ctx.token_metadata_program,
        payer: &ctx.payer,
        update_authority: &ctx.mint,
        mint: &ctx.mint,
        metadata: &ctx.metadata,
        mint_authority: &ctx.mint,
        system_program: &ctx.system_program,
        rent: &ctx.rent,
        signer_seeds: signer_seeds(ctx.mint_bump),
        data: metadata.into_token_data(),
        is_mutable: false,
        update_authority_is_signer: true,
        collection_details: None,
    }
}

/// What minting `quantity` units comes to, once the feed has been read.
///
/// A feed that gave an error ends the instruction with that error.  A feed
/// without a value has no price to convert.  A price of zero or below is no
/// exchange rate.  At any other price the mint signs as its own authority
/// for `minted(quantity, price)` tokens to the destination.
pub open spec fn mint_follows<'a, A>(
    ctx: &'a MintTokens<A>,
    price: Result<Option<PriceView>, ErrorCode>,
    quantity: u64,
    outcome: Result<MintTo<'a, A>, ErrorCode>,
) -> bool {
    match price {
        Err(code) => outcome is Err && outcome->Err_0 == code,
        Ok(None) => outcome is Err && outcome->Err_0 == ErrorCode::FailedToConvertExchangeRateTof64,
        Ok(Some(price)) => if price.mantissa <= 0 {
            outcome is Err && outcome->Err_0 == ErrorCode::InvalidExchangeRate
        } else {
            outcome is Ok && {
                let call = outcome->Ok_0;
                &&& *call.program == ctx.token_program
                &&& *call.mint == ctx.mint
                &&& *call.to == ctx.destination
                &&& *call.authority == ctx.mint
                &&& call.signer_seeds.deep_view() == mint_signer_seeds(ctx.mint_bump)
                &&& call.amount == minted(quantity as int, price)
            }
        },
    }
}

/// What redeeming `quantity` units comes to, once the feed has been read.
///
/// A feed that gave an error ends the instruction with that error.  A feed
/// without a value has no price to convert.  A price of zero or below is no
/// exchange rate.  At any other price `redeemed(quantity, price)` tokens of
/// the user's account are burned on the user's authority.
pub open spec fn redeem_follows<'a, A>(
    ctx: &'a RedeemStablecoin<A>,
    price: Result<Option<PriceView>, ErrorCode>,
    quantity: u64,
    outcome: Result<Burn<'a, A>, ErrorCode>,
) -> bool {
    match price {
        Err(code) => outcome is Err && outcome->Err_0 == code,
        Ok(None) => outcome is Err && outcome->Err_0 == ErrorCode::FailedToConvertExchangeRateTof64,
        Ok(Some(price)) => if price.mantissa <= 0 {
            outcome is Err && outcome->Err_0 == ErrorCode::InvalidExchangeRate
        } else {
            outcome is Ok && {
                let call = outcome->Ok_0;
                &&& *call.program == ctx.token_program
                &&& *call.mint == ctx.mint
                &&& *call.from == ctx.user_token_account
                &&& *call.authority == ctx.authority
                &&& call.signer_seeds.deep_view() == mint_signer_seeds(ctx.mint_bump)
                &&& call.amount == redeemed(quantity as int, price)
            }
        },
    }
}

/// Mints the stablecoins that `quantity` units buy at `price`, the outcome
/// of reading the feed.
pub fn mint_at_price<'a, A>(
    ctx: &'a MintTokens<A>,
    price: Result<Option<Price>, ErrorCode>,
    quantity: u64,
) -> (outcome: Result<MintTo<'a, A>, ErrorCode>)
    ensures
        mint_follows(ctx, outcome_view(price), quantity, outcome),
{
    match price {
        Err(code) => Err(code),
        Ok(None) => Err(ErrorCode::FailedToConvertExchangeRateTof64),
        Ok(Some(price)) => match price.mint_quantity(quantity) {
            Err(code) => Err(code),
            Ok(amount) => Ok(
                MintTo {
                    program: &ctx.token_program,
                    mint: &ctx.mint,
                    to: &ctx.destination,
                    authority: &ctx.mint,
                    signer_seeds: signer_seeds(ctx.mint_bump),
                    amount,
                },
            ),
        },
    }
}

/// Burns the stablecoins that `quantity` units are worth at `price`, the
/// outcome of reading the feed.
pub fn redeem_at_price<'a, A>(
    ctx: &'a RedeemStablecoin<A>,
    price: Result<Option<Price>, ErrorCode>,
    quantity: u64,
) -> (outcome: Result<Burn<'a, A>, ErrorCode>)
    ensures
        redeem_follows(ctx, outcome_view(price), quantity, outcome),
{
    match price {
        Err(code) => Err(code),
        Ok(None) => Err(ErrorCode::FailedToConvertExchangeRateTof64),
        Ok(Some(price)) => match price.redeem_quantity(quantity) {
            Err(code) => Err(code),
            Ok(amount) => Ok(
                Burn {
                    program: &ctx.token_program,
                    mint: &ctx.mint,
                    from: &ctx.user_token_account,
                    authority: &ctx.authority,
                    signer_seeds: signer_seeds(ctx.mint_bump),
                    amount,
                },
            ),
        },
    }
}

/// Mints the stablecoins that `quantity` units buy at the price that the
/// feed account holds.
///
/// The feed's data is read and left as it was.  Data that is too short or
/// does not start with the feed discriminator ends the instruction with
/// `FailedToParseFeedData`.  Whatever else the data holds, the outcome is
/// that of `mint_follows` for some parsed result.
pub fn mint_tokens<'a, A>(ctx: &'a MintTokens<A>, feed: &mut [u8], quantity: u64) -> (outcome:
    Result<MintTo<'a, A>, ErrorCode>)
    ensures
        final(feed)@ == old(feed)@,
        old(feed)@.len() < FEED_ACCOUNT_LEN || old(feed)@.subrange(0, 8) != feed_discriminator()
            ==> outcome is Err && outcome->Err_0 == ErrorCode::FailedToParseFeedData,
        exists|parsed: Option<FeedResult>|
            mint_follows(ctx, #[trigger] price_of(parsed), quantity, outcome),
{
    let price = feed_price(feed);
    let outcome = mint_at_price(ctx, price, quantity);
    proof {
        let parsed = choose|parsed: Option<FeedResult>| outcome_view(price) == price_of(parsed);
        assert(mint_follows(ctx, price_of(parsed), quantity, outcome));
    }
    outcome
}

/// Burns the stablecoins that `quantity` units are worth at the price that
/// the feed account holds.
///
/// The feed's data is read and left as it was.  Data that is too short or
/// does not start with the feed discriminator ends the instruction with
/// `FailedToParseFeedData`.  Whatever else the data holds, the outcome is
/// that of `redeem_follows` for some parsed result.
pub fn redeem_stablecoin<'a, A>(
    ctx: &'a RedeemStablecoin<A>,
    feed: &mut [u8],
    quantity: u64,
) -> (outcome: Result<Burn<'a, A>, ErrorCode>)
    ensures
        final(feed)@ == old(feed)@,
        old(feed)@.len() < FEED_ACCOUNT_LEN || old(feed)@.subrange(0, 8) != feed_discriminator()
            ==> outcome is Err && outcome->Err_0 == ErrorCode::FailedToParseFeedData,
        exists|parsed: Option<FeedResult>|
            redeem_follows(ctx, #[trigger] price_of(parsed), quantity, outcome),
{
    let price = feed_price(feed);
    let outcome = redeem_at_price(ctx, price, quantity);
    proof {
        let parsed = choose|parsed: Option<FeedResult>| outcome_view(price) == price_of(parsed);
        assert(redeem_follows(ctx, price_of(parsed), quantity, outcome));
    }
    outcome
}

} // verus!
