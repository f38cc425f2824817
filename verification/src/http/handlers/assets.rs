//! `GET /api/assets?type=crypto&market=japan&search=apple&limit=50&offset=0&lang=es`
//!
//! Screener-style asset list. `market_name` is localized per `?lang=` (es/pt/ja/zh;
//! default/fallback en); the `market` slug itself is unaffected by language.

use vstd::prelude::*;

use super::{lang_law, lang_named, limit_fits, opt_as_str, opt_string_view};
use crate::domain::models::{clone_opt_string, AssetFilter, AssetQuery};
use crate::domain::types::{clamp, lang_from, or_default, Lang, Pagination};

verus! {

pub const DEFAULT_LIMIT: i64 = 50;

pub const MAX_LIMIT: i64 = 500;

/// The query parameters of the asset listing (`type` is the asset type).
#[derive(Debug, Clone)]
pub struct AssetsParams {
    pub asset_type: Option<String>,
    pub market: Option<String>,
    pub search: Option<String>,
    pub limit: Option<i64>,
    pub offset: Option<i64>,
    pub lang: Option<String>,
}

/// The listing the parameters ask for: filters as given, the language they name
/// (English by default), the limit clamped into `[1, 500]` (50 by default) and the
/// offset raised to 0 when negative.
pub open spec fn asset_query_spec(params: AssetsParams) -> AssetQuery {
    AssetQuery {
        filter: AssetFilter { asset_type: params.asset_type, market: params.market, search: params.search },
        lang: lang_from(opt_string_view(params.lang)),
        pagination: Pagination {
            limit: clamp(or_default(params.limit, DEFAULT_LIMIT), 1, MAX_LIMIT as int) as i64,
            offset: (if or_default(params.offset, 0) < 0 { 0 } else { or_default(params.offset, 0) }) as i64,
        },
    }
}


/// `got` is the offset for `requested`: the value itself when it is not negative,
/// else (or when absent) 0.
pub open spec fn offset_fits(requested: Option<i64>, got: int) -> bool {
    match requested {
        Some(v) => (v >= 0 ==> got == v) && (v < 0 ==> got == 0),
        None => got == 0,
    }
}

/// Law: the listing keeps the type, market and search filters as given, uses the
/// language the `lang` value names (English when it names none), takes the
/// requested limit (50 when absent) when it lies in `[1, 500]`, else the nearer
/// bound, and the requested offset when it is not negative, else 0.
pub proof fn asset_query_law(params: AssetsParams)
    ensures
        ({
            let q = asset_query_spec(params);
            &&& q.filter.asset_type == params.asset_type
            &&& q.filter.market == params.market
            &&& q.filter.search == params.search
            &&& lang_named(params.lang, q.lang)
            &&& limit_fits(params.limit, 50, 500, q.pagination.limit as int)
            &&& offset_fits(params.offset, q.pagination.offset as int)
        }),
{
    lang_law(params.lang);
}

/// Builds the listing query of a request.
pub fn asset_query(params: &AssetsParams) -> (q: AssetQuery)
    ensures
        q == asset_query_spec(*params),
        q.filter.asset_type == params.asset_type,
        q.filter.market == params.market,
        q.filter.search == params.search,
        lang_named(params.lang, q.lang),
        limit_fits(params.limit, 50, 500, q.pagination.limit as int),
        offset_fits(params.offset, q.pagination.offset as int),
{
    proof {
        asset_query_law(*params);
    }
    let lang = Lang::parse_or_default(opt_as_str(&params.lang));
    let pagination = Pagination::new(params.limit, params.offset, DEFAULT_LIMIT, MAX_LIMIT);
    AssetQuery {
        filter: AssetFilter {
            asset_type: clone_opt_string(&params.asset_type),
            market: clone_opt_string(&params.market),
            search: clone_opt_string(&params.search),
        },
        lang,
        pagination,
    }
}

} // verus!
