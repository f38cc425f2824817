//! Query parameters of each endpoint and what a request is made of them.

pub mod assets;
pub mod catalog;
pub mod fx;
pub mod health;
pub mod prices;

use vstd::prelude::*;

use crate::domain::dates::{chrono_parsed_date, date_or, iso_format, Date};
use crate::domain::models::AssetLookup;
use crate::domain::types::{lang_code, AssetId, Lang};
use crate::http::error::ApiError;

verus! {

pub open spec fn opt_string_view(value: Option<String>) -> Option<Seq<char>> {
    match value {
        Some(s) => Some(s@),
        None => None,
    }
}

/// The asset a request targets: `asset_id` when given; otherwise the (market, symbol)
/// pair when both are given; otherwise none.
pub open spec fn lookup_for(asset_id: Option<i64>, market: Option<String>, symbol: Option<String>) -> Option<AssetLookup> {
    match asset_id {
        Some(id) => Some(AssetLookup::Id(AssetId(id))),
        None => match (market, symbol) {
            (Some(m), Some(s)) => Some(AssetLookup::MarketSymbol { market: m, symbol: s }),
            _ => None,
        },
    }
}

pub open spec fn missing_lookup_message() -> Seq<char> {
    "provide either asset_id, or both market and symbol"@
}

/// `Ok` with the targeted asset, or the 400 that asks for a lookup.
pub open spec fn lookup_result_ok(
    r: Result<AssetLookup, ApiError>,
    asset_id: Option<i64>,
    market: Option<String>,
    symbol: Option<String>,
) -> bool {
    match lookup_for(asset_id, market, symbol) {
        Some(l) => r == Ok::<AssetLookup, ApiError>(l),
        None => r matches Err(ApiError::BadRequest(m)) && m@ == missing_lookup_message(),
    }
}

/// The request names an asset: by id, or by both market and symbol.
pub open spec fn has_target(asset_id: Option<i64>, market: Option<String>, symbol: Option<String>) -> bool {
    asset_id is Some || (market is Some && symbol is Some)
}

/// `l` is the asset the parameters name: the id when there is one, else the
/// (market, symbol) pair.
pub open spec fn targets(asset_id: Option<i64>, market: Option<String>, symbol: Option<String>, l: AssetLookup) -> bool {
    match asset_id {
        Some(id) => l == AssetLookup::Id(AssetId(id)),
        None => market matches Some(m) && symbol matches Some(sym) && l == (AssetLookup::MarketSymbol {
            market: m,
            symbol: sym,
        }),
    }
}

/// `got` is the limit for `requested` (or `default`): the value itself when it lies
/// in `[1, max]`, 1 below that range, `max` above it.
pub open spec fn limit_fits(requested: Option<i64>, default: i64, max: i64, got: int) -> bool {
    let v = match requested {
        Some(x) => x as int,
        None => default as int,
    };
    &&& (1 <= v <= max ==> got == v)
    &&& (v < 1 ==> got == 1)
    &&& (v > max ==> got == max)
}

/// `got` is the date chrono reads from `value` as `YYYY-MM-DD`, or `fallback` when
/// there is no value or chrono does not read it.
pub open spec fn date_taken(value: Option<String>, fallback: Date, got: Date) -> bool {
    match value {
        Some(t) => match chrono_parsed_date(t@, iso_format()) {
            Some(x) => got == Date { year: x.0 as i32, month: x.1 as u32, day: x.2 as u32 },
            None => got == fallback,
        },
        None => got == fallback,
    }
}

/// `got` is the language `value` names: the language whose code it is, or English
/// when it is no language's code or absent.
pub open spec fn lang_named(value: Option<String>, got: Lang) -> bool {
    match value {
        Some(v) => lang_code(got) == v@ || (got == Lang::En && forall|l: Lang| lang_code(l) != v@),
        None => got == Lang::En,
    }
}

/// Law: `lookup_for` names the asset the parameters target, and only when they
/// target one.
pub proof fn lookup_law(asset_id: Option<i64>, market: Option<String>, symbol: Option<String>)
    ensures
        lookup_for(asset_id, market, symbol) is Some <==> has_target(asset_id, market, symbol),
        lookup_for(asset_id, market, symbol) matches Some(l) ==> targets(asset_id, market, symbol, l),
{
}

/// Law: a date query value yields the date chrono reads from it, else the fallback.
pub proof fn date_law(value: Option<String>, fallback: Date)
    ensures
        date_taken(value, fallback, date_or(opt_string_view(value), fallback)),
{
}

/// Law: the language a query value selects is the one it names.
pub proof fn lang_law(value: Option<String>)
    ensures
        lang_named(value, crate::domain::types::lang_from(opt_string_view(value))),
{
    if let Some(v) = value {
        crate::domain::types::lang_selection(Some(v@));
    }
}

pub(crate) fn lookup_from(asset_id: Option<i64>, market: &Option<String>, symbol: &Option<String>) -> (r: Result<AssetLookup, ApiError>)
    ensures
        lookup_result_ok(r, asset_id, *market, *symbol),
{
    if let Some(id) = asset_id {
        return Ok(AssetLookup::Id(AssetId(id)));
    }
    match (market, symbol) {
        (Some(m), Some(s)) => Ok(AssetLookup::MarketSymbol { market: m.clone(), symbol: s.clone() }),
        _ => Err(ApiError::BadRequest(String::from_str("provide either asset_id, or both market and symbol"))),
    }
}

pub(crate) fn opt_as_str(value: &Option<String>) -> (r: Option<&str>)
    ensures
        match r {
            Some(s) => value.is_some() && s@ == value.unwrap()@,
            None => value.is_none(),
        },
{
    match value {
        Some(s) => Some(s.as_str()),
        None => None,
    }
}

/// The date a query value names, or `fallback`.
pub(crate) fn date_param(value: &Option<String>, fallback: Date) -> (r: Date)
    ensures
        r == date_or(opt_string_view(*value), fallback),
{
    crate::domain::dates::parse_date_or(opt_as_str(value), fallback)
}

} // verus!
