//! What a new stablecoin is described by.

use vstd::prelude::*;

verus! {

/// What the creator of a stablecoin chooses.
#[derive(Debug, Clone)]
pub struct InitTokenParams {
    pub name: String,
    pub symbol: String,
    pub uri: String,
    pub decimals: u8,
    pub target_currency: String,
}

pub struct InitTokenParamsView {
    pub name: Seq<char>,
    pub symbol: Seq<char>,
    pub uri: Seq<char>,
    pub decimals: u8,
    pub target_currency: Seq<char>,
}

impl View for InitTokenParams {
    type V = InitTokenParamsView;

    open spec fn view(&self) -> InitTokenParamsView {
        InitTokenParamsView {
            name: self.name@,
            symbol: self.symbol@,
            uri: self.uri@,
            decimals: self.decimals,
            target_currency: self.target_currency@,
        }
    }
}

/// Someone who has a share in a token's sales.
#[derive(Debug, Clone, Copy, PartialEq, Eq)]
pub struct Creator {
    pub address: [u8; 32],
    pub verified: bool,
    pub share: u8,
}

/// The collection that a token belongs to.
#[derive(Debug, Clone, Copy, PartialEq, Eq)]
pub struct Collection {
    pub verified: bool,
    pub key: [u8; 32],
}

/// How a token is used up.
#[derive(Debug, Clone, Copy, PartialEq, Eq)]
pub enum UseMethod {
    Burn,
    Multiple,
    Single,
}

/// How often a token can be used.
#[derive(Debug, Clone, Copy, PartialEq, Eq)]
pub struct Uses {
    pub use_method: UseMethod,
    pub remaining: u64,
    pub total: u64,
}

/// What is recorded of a mint that stands for a collection.
#[derive(Debug, Clone, Copy, PartialEq, Eq)]
pub enum CollectionDetails {
    V1 { size: u64 },
    V2 { padding: [u8; 8] },
}

/// What is recorded about a token in its metadata account.
#[derive(Debug, Clone)]
pub struct TokenData {
    pub name: String,
    pub symbol: String,
    pub uri: String,
    pub seller_fee_basis_points: u16,
    pub creators: Option<Vec<Creator>>,
    pub collection: Option<Collection>,
    pub uses: Option<Uses>,
}

pub struct TokenDataView {
    pub name: Seq<char>,
    pub symbol: Seq<char>,
    pub uri: Seq<char>,
    pub seller_fee_basis_points: u16,
    pub creators: Option<Seq<Creator>>,
    pub collection: Option<Collection>,
    pub uses: Option<Uses>,
}

impl View for TokenData {
    type V = TokenDataView;

    open spec fn view(&self) -> TokenDataView {
        TokenDataView {
            name: self.name@,
            symbol: self.symbol@,
            uri: self.uri@,
            seller_fee_basis_points: self.seller_fee_basis_points,
            creators: match self.creators {
                Some(creators) => Some(creators@),
                None => None,
            },
            collection: self.collection,
            uses: self.uses,
        }
    }
}

/// The metadata of the stablecoin that `params` describe: their name,
/// symbol and address, no fee on sales, and neither creators nor a
/// collection nor uses.
pub open spec fn token_data(params: InitTokenParamsView) -> TokenDataView {
    TokenDataView {
        name: params.name,
        symbol: params.symbol,
        uri: params.uri,
        seller_fee_basis_points: 0,
        creators: None,
        collection: None,
        uses: None,
    }
}

impl InitTokenParams {
    pub fn into_token_data(self) -> (data: TokenData)
        ensures
            data@ == token_data(self@),
    {
        TokenData {
            name: self.name,
            symbol: self.symbol,
            uri: self.uri,
            seller_fee_basis_points: 0,
            creators: None,
            collection: None,
            uses: None,
        }
    }
}

} // verus!
