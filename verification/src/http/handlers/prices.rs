//! `GET /api/prices?asset_id=1&from=2024-01-01&to=2024-12-31`
//! `GET /api/prices?market=crypto&symbol=bitcoin&from=2024-01-01&to=2024-12-31`
//!
//! Daily OHLCV history for one asset, in its native currency. The asset is resolved
//! by `asset_id` directly, or by `market` (slug) + `symbol` (external id).

use vstd::prelude::*;

use super::{
    date_law, date_param, date_taken, has_target, limit_fits, lookup_for, lookup_from, lookup_law, lookup_result_ok,
    opt_string_view, targets,
};
use crate::domain::dates::{date_or, epoch, epoch_date, Date};
use crate::domain::models::AssetLookup;
use crate::domain::types::{clamp, clamp_i64, or_default};
use crate::http::error::ApiError;

verus! {

pub const DEFAULT_LIMIT: i64 = 2000;

pub const MAX_LIMIT: i64 = 10000;

/// The query parameters of a price history request.
#[derive(Debug, Clone)]
pub struct PricesParams {
    pub asset_id: Option<i64>,
    pub market: Option<String>,
    pub symbol: Option<String>,
    pub from: Option<String>,
    pub to: Option<String>,
    pub limit: Option<i64>,
}

/// A well-formed price history request.
#[derive(Debug, Clone)]
pub struct PricesRequest {
    pub lookup: AssetLookup,
    pub from: Date,
    pub to: Date,
    pub limit: i64,
}

/// The asset the parameters target, or the 400 that asks for one.
pub fn lookup_from_params(params: &PricesParams) -> (r: Result<AssetLookup, ApiError>)
    ensures
        lookup_result_ok(r, params.asset_id, params.market, params.symbol),
{
    lookup_from(params.asset_id, &params.market, &params.symbol)
}

/// The request the parameters make, given today's date: the targeted asset (none
/// without one), `from` as given or 1970-01-01, `to` as given or today, and the limit
/// clamped into `[1, 10000]` (2000 by default). A date that chrono does not read as
/// `YYYY-MM-DD` counts as absent.
pub open spec fn prices_plan(params: PricesParams, today: Date) -> Option<PricesRequest> {
    match lookup_for(params.asset_id, params.market, params.symbol) {
        Some(l) => Some(PricesRequest {
            lookup: l,
            from: date_or(opt_string_view(params.from), epoch()),
            to: date_or(opt_string_view(params.to), today),
            limit: clamp(or_default(params.limit, DEFAULT_LIMIT), 1, MAX_LIMIT as int) as i64,
        }),
        None => None,
    }
}

/// Builds the price history request of a query.
pub fn prices_request(params: &PricesParams, today: Date) -> (r: Result<PricesRequest, ApiError>)
    ensures
        match prices_plan(*params, today) {
            Some(req) => r == Ok::<PricesRequest, ApiError>(req),
            None => r matches Err(ApiError::BadRequest(m)) && m@ == super::missing_lookup_message(),
        },
        r is Ok <==> has_target(params.asset_id, params.market, params.symbol),
        r matches Ok(req) ==> {
            &&& targets(params.asset_id, params.market, params.symbol, req.lookup)
            &&& date_taken(params.from, Date { year: 1970, month: 1, day: 1 }, req.from)
            &&& date_taken(params.to, today, req.to)
            &&& limit_fits(params.limit, 2000, 10000, req.limit as int)
        },
{
    proof {
        prices_request_law(*params, today);
    }
    let lookup = match lookup_from_params(params) {
        Ok(l) => l,
        Err(e) => return Err(e),
    };
    let from = date_param(&params.from, epoch_date());
    let to = date_param(&params.to, today);
    let limit = clamp_i64(
        match params.limit {
            Some(v) => v,
            None => DEFAULT_LIMIT,
        },
        1,
        MAX_LIMIT,
    );
    Ok(PricesRequest { lookup, from, to, limit })
}


/// Law: a price request exists exactly when the parameters name an asset; it targets
/// that asset, its window runs from the `from` date chrono reads (1970-01-01 when
/// there is none) to the `to` date it reads (today when there is none), and its limit
/// is the requested one (2000 when absent) when that lies in `[1, 10000]`, else the
/// nearer bound.
pub proof fn prices_request_law(params: PricesParams, today: Date)
    ensures
        prices_plan(params, today) is Some <==> has_target(params.asset_id, params.market, params.symbol),
        prices_plan(params, today) matches Some(req) ==> {
            &&& targets(params.asset_id, params.market, params.symbol, req.lookup)
            &&& date_taken(params.from, Date { year: 1970, month: 1, day: 1 }, req.from)
            &&& date_taken(params.to, today, req.to)
            &&& limit_fits(params.limit, 2000, 10000, req.limit as int)
        },
{
    lookup_law(params.asset_id, params.market, params.symbol);
    date_law(params.from, epoch());
    date_law(params.to, today);
}

} // verus!
