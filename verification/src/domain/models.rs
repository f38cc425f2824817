//! Domain entities and query parameter objects, independent of the HTTP transport
//! and of the storage engine.

use vstd::prelude::*;

use super::types::{AssetId, Lang, Pagination};

verus! {

/// One listed asset.
#[derive(Debug, Clone)]
pub struct Asset {
    pub id: AssetId,
    pub symbol: String,
    pub name: String,
    pub asset_type: String,
    pub currency: String,
    pub market: String,
    pub market_name: Option<String>,
    pub index_name: Option<String>,
}

/// Optional narrowing of an asset listing.
#[derive(Debug, Clone, Default)]
pub struct AssetFilter {
    pub asset_type: Option<String>,
    pub market: Option<String>,
    pub search: Option<String>,
}

/// A filtered, localized, paginated asset listing.
#[derive(Debug, Clone)]
pub struct AssetQuery {
    pub filter: AssetFilter,
    pub lang: Lang,
    pub pagination: Pagination,
}

/// How a single asset is targeted in a request: directly by id, or by the
/// (market, symbol) pair -- a ticker alone isn't unique across markets.
#[derive(Debug)]
pub enum AssetLookup {
    Id(AssetId),
    MarketSymbol { market: String, symbol: String },
}

impl Clone for AssetLookup {
    fn clone(&self) -> (r: Self)
        ensures
            r == *self,
    {
        match self {
            AssetLookup::Id(id) => AssetLookup::Id(*id),
            AssetLookup::MarketSymbol { market, symbol } => AssetLookup::MarketSymbol {
                market: market.clone(),
                symbol: symbol.clone(),
            },
        }
    }
}

/// A copy of an optional string.
pub fn clone_opt_string(v: &Option<String>) -> (r: Option<String>)
    ensures
        r == *v,
{
    match v {
        Some(s) => Some(s.clone()),
        None => None,
    }
}

} // verus!
