//! `GET /api/catalog?asset_id=1&lang=es`
//! `GET /api/catalog?market=crypto&symbol=bitcoin&lang=es`
//!
//! Founders, founding date, a short history, and official links for one asset, with
//! `founded`/`history` resolved to the requested language (English by default).

use vstd::prelude::*;

use super::{
    has_target, lang_law, lang_named, lookup_for, lookup_from, lookup_law, lookup_result_ok, opt_as_str, opt_string_view,
    targets,
};
use crate::domain::models::AssetLookup;
use crate::domain::types::{lang_from, Lang};
use crate::http::error::ApiError;

verus! {

/// The query parameters of a catalog request.
#[derive(Debug, Clone)]
pub struct CatalogParams {
    pub asset_id: Option<i64>,
    pub market: Option<String>,
    pub symbol: Option<String>,
    pub lang: Option<String>,
}

/// A well-formed catalog request.
#[derive(Debug, Clone)]
pub struct CatalogRequest {
    pub lookup: AssetLookup,
    pub lang: Lang,
}

/// The asset the parameters target, or the 400 that asks for one.
pub fn lookup_from_params(params: &CatalogParams) -> (r: Result<AssetLookup, ApiError>)
    ensures
        lookup_result_ok(r, params.asset_id, params.market, params.symbol),
{
    lookup_from(params.asset_id, &params.market, &params.symbol)
}

/// The targeted asset (none without one) and the language the parameters name.
pub open spec fn catalog_plan(params: CatalogParams) -> Option<CatalogRequest> {
    match lookup_for(params.asset_id, params.market, params.symbol) {
        Some(l) => Some(CatalogRequest { lookup: l, lang: lang_from(opt_string_view(params.lang)) }),
        None => None,
    }
}


/// Law: a catalog request exists exactly when the parameters name an asset; it
/// targets that asset, in the language the `lang` value names (English when it
/// names none).
pub proof fn catalog_request_law(params: CatalogParams)
    ensures
        catalog_plan(params) is Some <==> has_target(params.asset_id, params.market, params.symbol),
        catalog_plan(params) matches Some(req) ==> targets(params.asset_id, params.market, params.symbol, req.lookup)
            && lang_named(params.lang, req.lang),
{
    lookup_law(params.asset_id, params.market, params.symbol);
    lang_law(params.lang);
}

/// Builds the catalog request of a query.
pub fn catalog_request(params: &CatalogParams) -> (r: Result<CatalogRequest, ApiError>)
    ensures
        match catalog_plan(*params) {
            Some(req) => r == Ok::<CatalogRequest, ApiError>(req),
            None => r matches Err(ApiError::BadRequest(m)) && m@ == super::missing_lookup_message(),
        },
        r is Ok <==> has_target(params.asset_id, params.market, params.symbol),
        r matches Ok(req) ==> targets(params.asset_id, params.market, params.symbol, req.lookup) && lang_named(
            params.lang,
            req.lang,
        ),
{
    proof {
        catalog_request_law(*params);
    }
    let lookup = match lookup_from_params(params) {
        Ok(l) => l,
        Err(e) => return Err(e),
    };
    let lang = Lang::parse_or_default(opt_as_str(&params.lang));
    Ok(CatalogRequest { lookup, lang })
}

} // verus!
